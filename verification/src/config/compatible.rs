//! Matching a configuration against a set of rules.
use vstd::prelude::*;

use super::values::{
    CONFIG_NONE, DONT_CARE, DONT_CARE_U, TRANSPARENT_INDEX, TRANSPARENT_RGB, WINDOW_BIT,
};
use super::{default_config, GlConfig, GlConfigRule, GlSwapMethod, GlVisualType};

verus! {

/// An unsigned matcher value accepts `b` when it does not care or names `b`.
pub open spec fn accepts_u(a: u32, b: u32) -> bool {
    a == DONT_CARE_U || a == b
}

/// A signed matcher value accepts `b` when it does not care or names `b`.
pub open spec fn accepts_i(a: i32, b: i32) -> bool {
    a == DONT_CARE || a == b
}

/// A minimum accepts `b` when it does not care or `b` reaches it.
pub open spec fn accepts_at_least(a: i32, b: i32) -> bool {
    a == DONT_CARE || a <= b
}

/// A bit mask accepts `b` when it does not care or every bit it sets is set in `b`.
pub open spec fn accepts_bits(a: i32, b: i32) -> bool {
    a == DONT_CARE || a & !b == 0
}

/// The transparency part of matching: a transparent type of "don't care" or zero accepts
/// anything; "none" accepts a candidate without transparency; any other type must be the
/// candidate's, and then the values of that type must match.
pub open spec fn accepts_transparency(m: GlConfig, c: GlConfig) -> bool {
    let tp = m.transparent_pixel;
    ||| tp == DONT_CARE
    ||| tp == 0
    ||| {
        &&& if tp == CONFIG_NONE {
            c.transparent_pixel == CONFIG_NONE || c.transparent_pixel == 0
        } else {
            tp == c.transparent_pixel
        }
        &&& tp == TRANSPARENT_RGB ==> {
            &&& accepts_i(m.transparent_red, c.transparent_red)
            &&& accepts_i(m.transparent_green, c.transparent_green)
            &&& accepts_i(m.transparent_blue, c.transparent_blue)
            &&& accepts_i(m.transparent_alpha, c.transparent_alpha)
        }
        &&& tp == TRANSPARENT_INDEX ==> accepts_i(m.transparent_index, c.transparent_index)
    }
}

/// The matcher `m` accepts the candidate `c`.
pub open spec fn accepts(m: GlConfig, c: GlConfig) -> bool {
    &&& accepts_u(m.double_buffer_mode, c.double_buffer_mode)
    &&& accepts_i(m.visual_rating, c.visual_rating)
    &&& accepts_i(m.x_renderable, c.x_renderable)
    &&& accepts_i(m.fbconfig_id, c.fbconfig_id)
    &&& (m.visual_type == GlVisualType::DontCare || m.visual_type == c.visual_type)
    &&& (m.swap_method == GlSwapMethod::DontCare || m.swap_method == c.swap_method)
    &&& accepts_at_least(m.rgb_bits, c.rgb_bits)
    &&& accepts_at_least(m.num_aux_buffers, c.num_aux_buffers)
    &&& accepts_at_least(m.red_bits, c.red_bits)
    &&& accepts_at_least(m.green_bits, c.green_bits)
    &&& accepts_at_least(m.blue_bits, c.blue_bits)
    &&& accepts_at_least(m.alpha_bits, c.alpha_bits)
    &&& accepts_at_least(m.depth_bits, c.depth_bits)
    &&& accepts_at_least(m.stencil_bits, c.stencil_bits)
    &&& accepts_at_least(m.accum_red_bits, c.accum_red_bits)
    &&& accepts_at_least(m.accum_green_bits, c.accum_green_bits)
    &&& accepts_at_least(m.accum_blue_bits, c.accum_blue_bits)
    &&& accepts_at_least(m.accum_alpha_bits, c.accum_alpha_bits)
    &&& accepts_at_least(m.sample_buffers, c.sample_buffers)
    &&& accepts_at_least(m.max_pbuffer_width, c.max_pbuffer_width)
    &&& accepts_at_least(m.max_pbuffer_height, c.max_pbuffer_height)
    &&& accepts_at_least(m.max_pbuffer_pixels, c.max_pbuffer_pixels)
    &&& accepts_at_least(m.samples, c.samples)
    &&& accepts_u(m.stereo_mode, c.stereo_mode)
    &&& m.level == c.level
    &&& accepts_bits(m.drawable_type, c.drawable_type)
    &&& accepts_bits(m.render_type, c.render_type)
    &&& accepts_i(m.srgb_capable, c.srgb_capable)
    &&& accepts_transparency(m, c)
}

/// What a rule asks of a configuration on its own, "don't care" (-1, or all bits set for the
/// unsigned ones) asking nothing: a size rule asks for at least that many bits (or buffers,
/// samples, pixels); an identity, caveat, renderability, sRGB, double buffer or stereo rule
/// asks for that value; a drawable or render type rule asks for every bit it sets; a visual
/// type or swap method rule asks for that one; a level rule asks for that level exactly. Rules
/// on the masks, shifts, visual id, visual select group, screen, color index, optimal
/// pbuffer size, texture binding and transparency ask nothing on their own.
pub open spec fn rule_asks(c: GlConfig, rule: GlConfigRule) -> bool {
    match rule {
        GlConfigRule::RgbBits(v) => v == -1 || c.rgb_bits >= v,
        GlConfigRule::NumAuxBuffers(v) => v == -1 || c.num_aux_buffers >= v,
        GlConfigRule::RedBits(v) => v == -1 || c.red_bits >= v,
        GlConfigRule::GreenBits(v) => v == -1 || c.green_bits >= v,
        GlConfigRule::BlueBits(v) => v == -1 || c.blue_bits >= v,
        GlConfigRule::AlphaBits(v) => v == -1 || c.alpha_bits >= v,
        GlConfigRule::DepthBits(v) => v == -1 || c.depth_bits >= v,
        GlConfigRule::StencilBits(v) => v == -1 || c.stencil_bits >= v,
        GlConfigRule::AccumRedBits(v) => v == -1 || c.accum_red_bits >= v,
        GlConfigRule::AccumGreenBits(v) => v == -1 || c.accum_green_bits >= v,
        GlConfigRule::AccumBlueBits(v) => v == -1 || c.accum_blue_bits >= v,
        GlConfigRule::AccumAlphaBits(v) => v == -1 || c.accum_alpha_bits >= v,
        GlConfigRule::SampleBuffers(v) => v == -1 || c.sample_buffers >= v,
        GlConfigRule::MaxPbufferWidth(v) => v == -1 || c.max_pbuffer_width >= v,
        GlConfigRule::MaxPbufferHeight(v) => v == -1 || c.max_pbuffer_height >= v,
        GlConfigRule::MaxPbufferPixels(v) => v == -1 || c.max_pbuffer_pixels >= v,
        GlConfigRule::Samples(v) => v == -1 || c.samples >= v,
        GlConfigRule::VisualRating(v) => v == -1 || c.visual_rating == v,
        GlConfigRule::XRenderable(v) => v == -1 || c.x_renderable == v,
        GlConfigRule::FbconfigId(v) => v == -1 || c.fbconfig_id == v,
        GlConfigRule::SrgbCapable(v) => v == -1 || c.srgb_capable == v,
        GlConfigRule::DoubleBufferMode(v) => v == 0xFFFF_FFFF || c.double_buffer_mode == v,
        GlConfigRule::StereoMode(v) => v == 0xFFFF_FFFF || c.stereo_mode == v,
        GlConfigRule::DrawableType(v) => v == -1 || v & !c.drawable_type == 0,
        GlConfigRule::RenderType(v) => v == -1 || v & !c.render_type == 0,
        GlConfigRule::VisualType(v) => v == GlVisualType::DontCare || c.visual_type == v,
        GlConfigRule::SwapMethod(v) => v == GlSwapMethod::DontCare || c.swap_method == v,
        GlConfigRule::Level(v) => c.level == v,
        _ => true,
    }
}

/// A rule whose demand does not depend on other rules: any but the transparency rules.
pub open spec fn stands_alone(rule: GlConfigRule) -> bool {
    !(rule is TransparentPixel || rule is TransparentRed || rule is TransparentGreen
        || rule is TransparentBlue || rule is TransparentAlpha || rule is TransparentIndex)
}

/// The last rule of a list is enforced: a configuration that fulfills the list meets what
/// that rule asks. So a configuration without a depth buffer never fulfills a request for
/// depth bits.
#[verifier::spinoff_prover]
#[verifier::rlimit(100)]
pub proof fn lemma_last_rule_enforced(c: GlConfig, rules: Seq<GlConfigRule>, rule: GlConfigRule)
    requires
        fulfills(c, rules.push(rule)),
    ensures
        rule_asks(c, rule),
{
    assert(rules.push(rule).drop_last() =~= rules);
}

/// A rule asks for nothing beyond what it says: a configuration that fulfills a list and
/// meets what a further rule (other than a transparency rule) asks fulfills the longer list.
#[verifier::spinoff_prover]
#[verifier::rlimit(100)]
pub proof fn lemma_rule_asks_nothing_more(c: GlConfig, rules: Seq<GlConfigRule>, rule: GlConfigRule)
    requires
        fulfills(c, rules),
        rule_asks(c, rule),
        stands_alone(rule),
    ensures
        fulfills(c, rules.push(rule)),
{
    assert(rules.push(rule).drop_last() =~= rules);
}

/// How transparency is matched, by the GLX numbers: a matcher whose transparent type is
/// "don't care" (-1) or 0 ignores transparency; GLX_NONE (0x8000) accepts only candidates
/// with no transparency (GLX_NONE or 0); GLX_TRANSPARENT_RGB (0x8008) accepts only RGB
/// transparent candidates whose red, green, blue and alpha transparent values it does not
/// care about or names; GLX_TRANSPARENT_INDEX (0x8009) accepts only index transparent
/// candidates whose index it does not care about or names.
pub proof fn lemma_transparency_matching(m: GlConfig, c: GlConfig)
    ensures
        (m.transparent_pixel == -1 || m.transparent_pixel == 0) ==> accepts_transparency(m, c),
        m.transparent_pixel == 0x8000 ==> (accepts_transparency(m, c) <==> (c.transparent_pixel == 0x8000
            || c.transparent_pixel == 0)),
        m.transparent_pixel == 0x8008 ==> (accepts_transparency(m, c) <==> {
            &&& c.transparent_pixel == 0x8008
            &&& m.transparent_red == -1 || m.transparent_red == c.transparent_red
            &&& m.transparent_green == -1 || m.transparent_green == c.transparent_green
            &&& m.transparent_blue == -1 || m.transparent_blue == c.transparent_blue
            &&& m.transparent_alpha == -1 || m.transparent_alpha == c.transparent_alpha
        }),
        m.transparent_pixel == 0x8009 ==> (accepts_transparency(m, c) <==> {
            &&& c.transparent_pixel == 0x8009
            &&& m.transparent_index == -1 || m.transparent_index == c.transparent_index
        }),
        accepts(m, c) ==> accepts_transparency(m, c),
{
}

/// The matcher that rules start from.
pub open spec fn matching_config() -> GlConfig {
    GlConfig {
        double_buffer_mode: DONT_CARE_U,
        render_type: WINDOW_BIT,
        drawable_type: DONT_CARE,
        visual_rating: DONT_CARE,
        swap_method: GlSwapMethod::DontCare,
        ..default_config()
    }
}

/// The matcher after one rule: the rule's value replaces the value of its field.
pub open spec fn apply_rule(m: GlConfig, rule: GlConfigRule) -> GlConfig {
    match rule {
        GlConfigRule::DoubleBufferMode(v) => GlConfig { double_buffer_mode: v, ..m },
        GlConfigRule::StereoMode(v) => GlConfig { stereo_mode: v, ..m },
        GlConfigRule::RedBits(v) => GlConfig { red_bits: v, ..m },
        GlConfigRule::GreenBits(v) => GlConfig { green_bits: v, ..m },
        GlConfigRule::BlueBits(v) => GlConfig { blue_bits: v, ..m },
        GlConfigRule::AlphaBits(v) => GlConfig { alpha_bits: v, ..m },
        GlConfigRule::RedMask(v) => GlConfig { red_mask: v, ..m },
        GlConfigRule::GreenMask(v) => GlConfig { green_mask: v, ..m },
        GlConfigRule::BlueMask(v) => GlConfig { blue_mask: v, ..m },
        GlConfigRule::AlphaMask(v) => GlConfig { alpha_mask: v, ..m },
        GlConfigRule::RedShift(v) => GlConfig { red_shift: v, ..m },
        GlConfigRule::GreenShift(v) => GlConfig { green_shift: v, ..m },
        GlConfigRule::BlueShift(v) => GlConfig { blue_shift: v, ..m },
        GlConfigRule::AlphaShift(v) => GlConfig { alpha_shift: v, ..m },
        GlConfigRule::RgbBits(v) => GlConfig { rgb_bits: v, ..m },
        GlConfigRule::ColorIndex(v) => GlConfig { color_index: v, ..m },
        GlConfigRule::AccumRedBits(v) => GlConfig { accum_red_bits: v, ..m },
        GlConfigRule::AccumGreenBits(v) => GlConfig { accum_green_bits: v, ..m },
        GlConfigRule::AccumBlueBits(v) => GlConfig { accum_blue_bits: v, ..m },
        GlConfigRule::AccumAlphaBits(v) => GlConfig { accum_alpha_bits: v, ..m },
        GlConfigRule::DepthBits(v) => GlConfig { depth_bits: v, ..m },
        GlConfigRule::StencilBits(v) => GlConfig { stencil_bits: v, ..m },
        GlConfigRule::VisualId(v) => GlConfig { visual_id: v, ..m },
        GlConfigRule::VisualType(v) => GlConfig { visual_type: v, ..m },
        GlConfigRule::VisualRating(v) => GlConfig { visual_rating: v, ..m },
        GlConfigRule::TransparentPixel(v) => GlConfig { transparent_pixel: v, ..m },
        GlConfigRule::TransparentRed(v) => GlConfig { transparent_red: v, ..m },
        GlConfigRule::TransparentGreen(v) => GlConfig { transparent_green: v, ..m },
        GlConfigRule::TransparentBlue(v) => GlConfig { transparent_blue: v, ..m },
        GlConfigRule::TransparentAlpha(v) => GlConfig { transparent_alpha: v, ..m },
        GlConfigRule::TransparentIndex(v) => GlConfig { transparent_index: v, ..m },
        GlConfigRule::SampleBuffers(v) => GlConfig { sample_buffers: v, ..m },
        GlConfigRule::Samples(v) => GlConfig { samples: v, ..m },
        GlConfigRule::DrawableType(v) => GlConfig { drawable_type: v, ..m },
        GlConfigRule::RenderType(v) => GlConfig { render_type: v, ..m },
        GlConfigRule::XRenderable(v) => GlConfig { x_renderable: v, ..m },
        GlConfigRule::FbconfigId(v) => GlConfig { fbconfig_id: v, ..m },
        GlConfigRule::MaxPbufferWidth(v) => GlConfig { max_pbuffer_width: v, ..m },
        GlConfigRule::MaxPbufferHeight(v) => GlConfig { max_pbuffer_height: v, ..m },
        GlConfigRule::MaxPbufferPixels(v) => GlConfig { max_pbuffer_pixels: v, ..m },
        GlConfigRule::OptimalPbufferWidth(v) => GlConfig { optimal_pbuffer_width: v, ..m },
        GlConfigRule::OptimalPbufferHeight(v) => GlConfig { optimal_pbuffer_height: v, ..m },
        GlConfigRule::VisualSelectGroup(v) => GlConfig { visual_select_group: v, ..m },
        GlConfigRule::SwapMethod(v) => GlConfig { swap_method: v, ..m },
        GlConfigRule::Screen(v) => GlConfig { screen: v, ..m },
        GlConfigRule::BindToTextureRgb(v) => GlConfig { bind_to_texture_rgb: v, ..m },
        GlConfigRule::BindToTextureRgba(v) => GlConfig { bind_to_texture_rgba: v, ..m },
        GlConfigRule::BindToMipmapTexture(v) => GlConfig { bind_to_mipmap_texture: v, ..m },
        GlConfigRule::BindToTextureTargets(v) => GlConfig { bind_to_texture_targets: v, ..m },
        GlConfigRule::YInverted(v) => GlConfig { y_inverted: v, ..m },
        GlConfigRule::SrgbCapable(v) => GlConfig { srgb_capable: v, ..m },
        GlConfigRule::Level(v) => GlConfig { level: v, ..m },
        GlConfigRule::NumAuxBuffers(v) => GlConfig { num_aux_buffers: v, ..m },
    }
}

/// The matcher after a list of rules, applied from first to last.
pub open spec fn apply_rules(m: GlConfig, rules: Seq<GlConfigRule>) -> GlConfig
    decreases rules.len(),
{
    if rules.len() == 0 {
        m
    } else {
        apply_rule(apply_rules(m, rules.drop_last()), rules.last())
    }
}

/// A configuration fulfills a list of rules when the matcher built from them accepts it.
pub open spec fn fulfills(c: GlConfig, rules: Seq<GlConfigRule>) -> bool {
    accepts(apply_rules(matching_config(), rules), c)
}

/// One rule, checked on its own against a configuration. `matching_on_rgb` is the
/// transparent type that decides which transparent values are compared.
pub open spec fn rule_holds(c: GlConfig, rule: GlConfigRule, matching_on_rgb: i32) -> bool {
    match rule {
        GlConfigRule::DoubleBufferMode(v) => c.double_buffer_mode == v,
        GlConfigRule::VisualType(v) => c.visual_type == v,
        GlConfigRule::VisualRating(v) => c.visual_rating == v,
        GlConfigRule::XRenderable(v) => c.x_renderable == v,
        GlConfigRule::FbconfigId(v) => c.fbconfig_id == v,
        GlConfigRule::SwapMethod(v) => c.swap_method == v,
        GlConfigRule::RgbBits(v) => c.rgb_bits >= v,
        GlConfigRule::NumAuxBuffers(v) => c.num_aux_buffers >= v,
        GlConfigRule::RedBits(v) => c.red_bits >= v,
        GlConfigRule::GreenBits(v) => c.green_bits >= v,
        GlConfigRule::BlueBits(v) => c.blue_bits >= v,
        GlConfigRule::AlphaBits(v) => c.alpha_bits >= v,
        GlConfigRule::DepthBits(v) => c.depth_bits >= v,
        GlConfigRule::StencilBits(v) => c.stencil_bits >= v,
        GlConfigRule::AccumRedBits(v) => c.accum_red_bits >= v,
        GlConfigRule::AccumGreenBits(v) => c.accum_green_bits >= v,
        GlConfigRule::AccumBlueBits(v) => c.accum_blue_bits >= v,
        GlConfigRule::AccumAlphaBits(v) => c.accum_alpha_bits >= v,
        GlConfigRule::SampleBuffers(v) => c.sample_buffers >= v,
        GlConfigRule::MaxPbufferWidth(v) => c.max_pbuffer_width >= v,
        GlConfigRule::MaxPbufferHeight(v) => c.max_pbuffer_height >= v,
        GlConfigRule::Samples(v) => c.samples >= v,
        GlConfigRule::StereoMode(v) => c.stereo_mode == v,
        GlConfigRule::Level(v) => c.level == v,
        GlConfigRule::DrawableType(v) => c.drawable_type & v != 0,
        GlConfigRule::RenderType(v) => c.render_type & v != 0,
        GlConfigRule::SrgbCapable(v) => c.srgb_capable == v,
        GlConfigRule::TransparentPixel(tp) => {
            tp == 0 || (!(tp == CONFIG_NONE && c.transparent_pixel != CONFIG_NONE
                && c.transparent_pixel != 0) && tp == c.transparent_pixel)
        },
        GlConfigRule::TransparentRed(v) => matching_on_rgb == TRANSPARENT_RGB
            ==> v == c.transparent_red,
        GlConfigRule::TransparentGreen(v) => matching_on_rgb == TRANSPARENT_RGB
            ==> v == c.transparent_green,
        GlConfigRule::TransparentBlue(v) => matching_on_rgb == TRANSPARENT_RGB
            ==> v == c.transparent_blue,
        GlConfigRule::TransparentAlpha(v) => matching_on_rgb == TRANSPARENT_RGB
            ==> v == c.transparent_alpha,
        GlConfigRule::TransparentIndex(v) => matching_on_rgb == TRANSPARENT_INDEX
            ==> v == c.transparent_index,
        _ => true,
    }
}

/// Construct a GlConfig to be used to match to other configs.
pub fn construct_matching_config() -> (r: GlConfig)
    ensures
        r == matching_config(),
{
    GlConfig {
        double_buffer_mode: DONT_CARE_U,
        render_type: WINDOW_BIT,
        drawable_type: DONT_CARE,
        visual_rating: DONT_CARE,
        swap_method: GlSwapMethod::DontCare,
        ..GlConfig::default()
    }
}

impl GlConfig {
    /// Whether `self`, used as a matcher, accepts `other`.
    pub fn compatible_with(&self, other: &GlConfig) -> (r: bool)
        ensures
            r == accepts(*self, *other),
    {
        if self.double_buffer_mode != DONT_CARE_U && self.double_buffer_mode != other.double_buffer_mode {
            return false;
        }
        if self.visual_rating != DONT_CARE && self.visual_rating != other.visual_rating {
            return false;
        }
        if self.x_renderable != DONT_CARE && self.x_renderable != other.x_renderable {
            return false;
        }
        if self.fbconfig_id != DONT_CARE && self.fbconfig_id != other.fbconfig_id {
            return false;
        }
        if self.visual_type != GlVisualType::DontCare && self.visual_type != other.visual_type {
            return false;
        }
        if self.swap_method != GlSwapMethod::DontCare && self.swap_method != other.swap_method {
            return false;
        }
        if !at_least(self.rgb_bits, other.rgb_bits)
            || !at_least(self.num_aux_buffers, other.num_aux_buffers)
            || !at_least(self.red_bits, other.red_bits)
            || !at_least(self.green_bits, other.green_bits)
            || !at_least(self.blue_bits, other.blue_bits)
            || !at_least(self.alpha_bits, other.alpha_bits)
            || !at_least(self.depth_bits, other.depth_bits)
            || !at_least(self.stencil_bits, other.stencil_bits)
            || !at_least(self.accum_red_bits, other.accum_red_bits)
            || !at_least(self.accum_green_bits, other.accum_green_bits)
            || !at_least(self.accum_blue_bits, other.accum_blue_bits)
            || !at_least(self.accum_alpha_bits, other.accum_alpha_bits)
            || !at_least(self.sample_buffers, other.sample_buffers)
            || !at_least(self.max_pbuffer_width, other.max_pbuffer_width)
            || !at_least(self.max_pbuffer_height, other.max_pbuffer_height)
            || !at_least(self.max_pbuffer_pixels, other.max_pbuffer_pixels)
            || !at_least(self.samples, other.samples)
        {
            return false;
        }
        if self.stereo_mode != DONT_CARE_U && self.stereo_mode != other.stereo_mode {
            return false;
        }
        if self.level != other.level {
            return false;
        }
        if self.drawable_type != DONT_CARE && (self.drawable_type & !other.drawable_type) != 0 {
            return false;
        }
        if self.render_type != DONT_CARE && (self.render_type & !other.render_type) != 0 {
            return false;
        }
        if self.srgb_capable != DONT_CARE && self.srgb_capable != other.srgb_capable {
            return false;
        }
        if self.transparent_pixel != DONT_CARE && self.transparent_pixel != 0 {
            if self.transparent_pixel == CONFIG_NONE {
                if other.transparent_pixel != CONFIG_NONE && other.transparent_pixel != 0 {
                    return false;
                }
            } else if self.transparent_pixel != other.transparent_pixel {
                return false;
            }
            if self.transparent_pixel == TRANSPARENT_RGB {
                if !same_or_dont_care(self.transparent_red, other.transparent_red)
                    || !same_or_dont_care(self.transparent_green, other.transparent_green)
                    || !same_or_dont_care(self.transparent_blue, other.transparent_blue)
                    || !same_or_dont_care(self.transparent_alpha, other.transparent_alpha)
                {
                    return false;
                }
            } else if self.transparent_pixel == TRANSPARENT_INDEX {
                if !same_or_dont_care(self.transparent_index, other.transparent_index) {
                    return false;
                }
            }
        }
        true
    }

    /// Whether this configuration fulfills every rule of the list: the rules, applied in
    /// order to the matching configuration, give a matcher that accepts this one.
    pub fn fulfills_rules(&self, rules: &[GlConfigRule]) -> (r: bool)
        ensures
            r == fulfills(*self, rules@),
    {
        let mut matcher = construct_matching_config();
        let mut i: usize = 0;
        while i < rules.len()
            invariant
                i <= rules.len(),
                matcher == apply_rules(matching_config(), rules@.subrange(0, i as int)),
            decreases rules.len() - i,
        {
            matcher = matcher.with_rule(rules[i]);
            proof {
                assert(rules@.subrange(0, i + 1).drop_last() =~= rules@.subrange(0, i as int));
            }
            i = i + 1;
        }
        proof {
            assert(rules@.subrange(0, rules.len() as int) =~= rules@);
        }
        matcher.compatible_with(self)
    }

    /// Whether this configuration fulfills a single rule, checked on its own.
    pub fn fulfills_rule(&self, rule: &GlConfigRule, matching_on_rgb: i32) -> (r: bool)
        ensures
            r == rule_holds(*self, *rule, matching_on_rgb),
    {
        match *rule {
            GlConfigRule::DoubleBufferMode(v) => self.double_buffer_mode == v,
            GlConfigRule::VisualType(v) => self.visual_type == v,
            GlConfigRule::VisualRating(v) => self.visual_rating == v,
            GlConfigRule::XRenderable(v) => self.x_renderable == v,
            GlConfigRule::FbconfigId(v) => self.fbconfig_id == v,
            GlConfigRule::SwapMethod(v) => self.swap_method == v,
            GlConfigRule::RgbBits(v) => self.rgb_bits >= v,
            GlConfigRule::NumAuxBuffers(v) => self.num_aux_buffers >= v,
            GlConfigRule::RedBits(v) => self.red_bits >= v,
            GlConfigRule::GreenBits(v) => self.green_bits >= v,
            GlConfigRule::BlueBits(v) => self.blue_bits >= v,
            GlConfigRule::AlphaBits(v) => self.alpha_bits >= v,
            GlConfigRule::DepthBits(v) => self.depth_bits >= v,
            GlConfigRule::StencilBits(v) => self.stencil_bits >= v,
            GlConfigRule::AccumRedBits(v) => self.accum_red_bits >= v,
            GlConfigRule::AccumGreenBits(v) => self.accum_green_bits >= v,
            GlConfigRule::AccumBlueBits(v) => self.accum_blue_bits >= v,
            GlConfigRule::AccumAlphaBits(v) => self.accum_alpha_bits >= v,
            GlConfigRule::SampleBuffers(v) => self.sample_buffers >= v,
            GlConfigRule::MaxPbufferWidth(v) => self.max_pbuffer_width >= v,
            GlConfigRule::MaxPbufferHeight(v) => self.max_pbuffer_height >= v,
            GlConfigRule::Samples(v) => self.samples >= v,
            GlConfigRule::StereoMode(v) => self.stereo_mode == v,
            GlConfigRule::Level(v) => self.level == v,
            GlConfigRule::DrawableType(v) => self.drawable_type & v != 0,
            GlConfigRule::RenderType(v) => self.render_type & v != 0,
            GlConfigRule::SrgbCapable(v) => self.srgb_capable == v,
            GlConfigRule::TransparentPixel(tp) => {
                if tp != 0 {
                    if tp == CONFIG_NONE && self.transparent_pixel != CONFIG_NONE
                        && self.transparent_pixel != 0
                    {
                        false
                    } else {
                        tp == self.transparent_pixel
                    }
                } else {
                    true
                }
            },
            GlConfigRule::TransparentRed(v) => {
                if matching_on_rgb == TRANSPARENT_RGB {
                    v == self.transparent_red
                } else {
                    true
                }
            },
            GlConfigRule::TransparentGreen(v) => {
                if matching_on_rgb == TRANSPARENT_RGB {
                    v == self.transparent_green
                } else {
                    true
                }
            },
            GlConfigRule::TransparentBlue(v) => {
                if matching_on_rgb == TRANSPARENT_RGB {
                    v == self.transparent_blue
                } else {
                    true
                }
            },
            GlConfigRule::TransparentAlpha(v) => {
                if matching_on_rgb == TRANSPARENT_RGB {
                    v == self.transparent_alpha
                } else {
                    true
                }
            },
            GlConfigRule::TransparentIndex(v) => {
                if matching_on_rgb == TRANSPARENT_INDEX {
                    v == self.transparent_index
                } else {
                    true
                }
            },
            _ => true,
        }
    }

    /// This configuration, used as a matcher, after one more rule.
    pub fn with_rule(self, rule: GlConfigRule) -> (r: GlConfig)
        ensures
            r == apply_rule(self, rule),
    {
        let m = self;
        match rule {
            GlConfigRule::DoubleBufferMode(v) => GlConfig { double_buffer_mode: v, ..m },
            GlConfigRule::StereoMode(v) => GlConfig { stereo_mode: v, ..m },
            GlConfigRule::RedBits(v) => GlConfig { red_bits: v, ..m },
            GlConfigRule::GreenBits(v) => GlConfig { green_bits: v, ..m },
            GlConfigRule::BlueBits(v) => GlConfig { blue_bits: v, ..m },
            GlConfigRule::AlphaBits(v) => GlConfig { alpha_bits: v, ..m },
            GlConfigRule::RedMask(v) => GlConfig { red_mask: v, ..m },
            GlConfigRule::GreenMask(v) => GlConfig { green_mask: v, ..m },
            GlConfigRule::BlueMask(v) => GlConfig { blue_mask: v, ..m },
            GlConfigRule::AlphaMask(v) => GlConfig { alpha_mask: v, ..m },
            GlConfigRule::RedShift(v) => GlConfig { red_shift: v, ..m },
            GlConfigRule::GreenShift(v) => GlConfig { green_shift: v, ..m },
            GlConfigRule::BlueShift(v) => GlConfig { blue_shift: v, ..m },
            GlConfigRule::AlphaShift(v) => GlConfig { alpha_shift: v, ..m },
            GlConfigRule::RgbBits(v) => GlConfig { rgb_bits: v, ..m },
            GlConfigRule::ColorIndex(v) => GlConfig { color_index: v, ..m },
            GlConfigRule::AccumRedBits(v) => GlConfig { accum_red_bits: v, ..m },
            GlConfigRule::AccumGreenBits(v) => GlConfig { accum_green_bits: v, ..m },
            GlConfigRule::AccumBlueBits(v) => GlConfig { accum_blue_bits: v, ..m },
            GlConfigRule::AccumAlphaBits(v) => GlConfig { accum_alpha_bits: v, ..m },
            GlConfigRule::DepthBits(v) => GlConfig { depth_bits: v, ..m },
            GlConfigRule::StencilBits(v) => GlConfig { stencil_bits: v, ..m },
            GlConfigRule::VisualId(v) => GlConfig { visual_id: v, ..m },
            GlConfigRule::VisualType(v) => GlConfig { visual_type: v, ..m },
            GlConfigRule::VisualRating(v) => GlConfig { visual_rating: v, ..m },
            GlConfigRule::TransparentPixel(v) => GlConfig { transparent_pixel: v, ..m },
            GlConfigRule::TransparentRed(v) => GlConfig { transparent_red: v, ..m },
            GlConfigRule::TransparentGreen(v) => GlConfig { transparent_green: v, ..m },
            GlConfigRule::TransparentBlue(v) => GlConfig { transparent_blue: v, ..m },
            GlConfigRule::TransparentAlpha(v) => GlConfig { transparent_alpha: v, ..m },
            GlConfigRule::TransparentIndex(v) => GlConfig { transparent_index: v, ..m },
            GlConfigRule::SampleBuffers(v) => GlConfig { sample_buffers: v, ..m },
            GlConfigRule::Samples(v) => GlConfig { samples: v, ..m },
            GlConfigRule::DrawableType(v) => GlConfig { drawable_type: v, ..m },
            GlConfigRule::RenderType(v) => GlConfig { render_type: v, ..m },
            GlConfigRule::XRenderable(v) => GlConfig { x_renderable: v, ..m },
            GlConfigRule::FbconfigId(v) => GlConfig { fbconfig_id: v, ..m },
            GlConfigRule::MaxPbufferWidth(v) => GlConfig { max_pbuffer_width: v, ..m },
            GlConfigRule::MaxPbufferHeight(v) => GlConfig { max_pbuffer_height: v, ..m },
            GlConfigRule::MaxPbufferPixels(v) => GlConfig { max_pbuffer_pixels: v, ..m },
            GlConfigRule::OptimalPbufferWidth(v) => GlConfig { optimal_pbuffer_width: v, ..m },
            GlConfigRule::OptimalPbufferHeight(v) => GlConfig { optimal_pbuffer_height: v, ..m },
            GlConfigRule::VisualSelectGroup(v) => GlConfig { visual_select_group: v, ..m },
            GlConfigRule::SwapMethod(v) => GlConfig { swap_method: v, ..m },
            GlConfigRule::Screen(v) => GlConfig { screen: v, ..m },
            GlConfigRule::BindToTextureRgb(v) => GlConfig { bind_to_texture_rgb: v, ..m },
            GlConfigRule::BindToTextureRgba(v) => GlConfig { bind_to_texture_rgba: v, ..m },
            GlConfigRule::BindToMipmapTexture(v) => GlConfig { bind_to_mipmap_texture: v, ..m },
            GlConfigRule::BindToTextureTargets(v) => GlConfig { bind_to_texture_targets: v, ..m },
            GlConfigRule::YInverted(v) => GlConfig { y_inverted: v, ..m },
            GlConfigRule::SrgbCapable(v) => GlConfig { srgb_capable: v, ..m },
            GlConfigRule::Level(v) => GlConfig { level: v, ..m },
            GlConfigRule::NumAuxBuffers(v) => GlConfig { num_aux_buffers: v, ..m },
        }
    }
}

fn at_least(a: i32, b: i32) -> (r: bool)
    ensures
        r == accepts_at_least(a, b),
{
    a == DONT_CARE || a <= b
}

fn same_or_dont_care(a: i32, b: i32) -> (r: bool)
    ensures
        r == accepts_i(a, b),
{
    a == DONT_CARE || a == b
}

/// Every configuration is compatible with itself: matching a configuration against itself
/// accepts it.
pub proof fn lemma_accepts_reflexive(c: GlConfig)
    ensures
        accepts(c, c),
{
    let d = c.drawable_type;
    let r = c.render_type;
    assert(d & !d == 0) by (bit_vector);
    assert(r & !r == 0) by (bit_vector);
}

/// A matcher that cares about nothing accepts every configuration of its level.
pub proof fn lemma_dont_care_accepts_all(m: GlConfig, c: GlConfig)
    requires
        m.double_buffer_mode == DONT_CARE_U,
        m.stereo_mode == DONT_CARE_U,
        m.visual_rating == DONT_CARE,
        m.x_renderable == DONT_CARE,
        m.fbconfig_id == DONT_CARE,
        m.visual_type == GlVisualType::DontCare,
        m.swap_method == GlSwapMethod::DontCare,
        m.rgb_bits == DONT_CARE,
        m.num_aux_buffers == DONT_CARE,
        m.red_bits == DONT_CARE,
        m.green_bits == DONT_CARE,
        m.blue_bits == DONT_CARE,
        m.alpha_bits == DONT_CARE,
        m.depth_bits == DONT_CARE,
        m.stencil_bits == DONT_CARE,
        m.accum_red_bits == DONT_CARE,
        m.accum_green_bits == DONT_CARE,
        m.accum_blue_bits == DONT_CARE,
        m.accum_alpha_bits == DONT_CARE,
        m.sample_buffers == DONT_CARE,
        m.max_pbuffer_width == DONT_CARE,
        m.max_pbuffer_height == DONT_CARE,
        m.max_pbuffer_pixels == DONT_CARE,
        m.samples == DONT_CARE,
        m.drawable_type == DONT_CARE,
        m.render_type == DONT_CARE,
        m.srgb_capable == DONT_CARE,
        m.transparent_pixel == DONT_CARE,
        m.level == c.level,
    ensures
        accepts(m, c),
{
}

/// Of two rules for the same field, the later decides: a rule applied after another rule
/// for its field gives the matcher that the later rule alone gives.
pub proof fn lemma_later_rule_wins(m: GlConfig, first: GlConfigRule, second: GlConfigRule)
    requires
        same_field(first, second),
    ensures
        apply_rule(apply_rule(m, first), second) == apply_rule(m, second),
{
}

/// The field of the matcher that a rule sets, by number.
pub open spec fn rule_field(r: GlConfigRule) -> int {
    match r {
        GlConfigRule::DoubleBufferMode(_) => 0,
        GlConfigRule::StereoMode(_) => 1,
        GlConfigRule::RedBits(_) => 2,
        GlConfigRule::GreenBits(_) => 3,
        GlConfigRule::BlueBits(_) => 4,
        GlConfigRule::AlphaBits(_) => 5,
        GlConfigRule::RedMask(_) => 6,
        GlConfigRule::GreenMask(_) => 7,
        GlConfigRule::BlueMask(_) => 8,
        GlConfigRule::AlphaMask(_) => 9,
        GlConfigRule::RedShift(_) => 10,
        GlConfigRule::GreenShift(_) => 11,
        GlConfigRule::BlueShift(_) => 12,
        GlConfigRule::AlphaShift(_) => 13,
        GlConfigRule::RgbBits(_) => 14,
        GlConfigRule::ColorIndex(_) => 15,
        GlConfigRule::AccumRedBits(_) => 16,
        GlConfigRule::AccumGreenBits(_) => 17,
        GlConfigRule::AccumBlueBits(_) => 18,
        GlConfigRule::AccumAlphaBits(_) => 19,
        GlConfigRule::DepthBits(_) => 20,
        GlConfigRule::StencilBits(_) => 21,
        GlConfigRule::VisualId(_) => 22,
        GlConfigRule::VisualType(_) => 23,
        GlConfigRule::VisualRating(_) => 24,
        GlConfigRule::TransparentPixel(_) => 25,
        GlConfigRule::TransparentRed(_) => 26,
        GlConfigRule::TransparentGreen(_) => 27,
        GlConfigRule::TransparentBlue(_) => 28,
        GlConfigRule::TransparentAlpha(_) => 29,
        GlConfigRule::TransparentIndex(_) => 30,
        GlConfigRule::SampleBuffers(_) => 31,
        GlConfigRule::Samples(_) => 32,
        GlConfigRule::DrawableType(_) => 33,
        GlConfigRule::RenderType(_) => 34,
        GlConfigRule::XRenderable(_) => 35,
        GlConfigRule::FbconfigId(_) => 36,
        GlConfigRule::MaxPbufferWidth(_) => 37,
        GlConfigRule::MaxPbufferHeight(_) => 38,
        GlConfigRule::MaxPbufferPixels(_) => 39,
        GlConfigRule::OptimalPbufferWidth(_) => 40,
        GlConfigRule::OptimalPbufferHeight(_) => 41,
        GlConfigRule::VisualSelectGroup(_) => 42,
        GlConfigRule::SwapMethod(_) => 43,
        GlConfigRule::Screen(_) => 44,
        GlConfigRule::BindToTextureRgb(_) => 45,
        GlConfigRule::BindToTextureRgba(_) => 46,
        GlConfigRule::BindToMipmapTexture(_) => 47,
        GlConfigRule::BindToTextureTargets(_) => 48,
        GlConfigRule::YInverted(_) => 49,
        GlConfigRule::SrgbCapable(_) => 50,
        GlConfigRule::Level(_) => 51,
        GlConfigRule::NumAuxBuffers(_) => 52,
    }
}

/// Two rules set the same field of the matcher.
pub open spec fn same_field(a: GlConfigRule, b: GlConfigRule) -> bool {
    rule_field(a) == rule_field(b)
}

/// Applying two lists of rules one after the other is applying the joined list.
proof fn lemma_apply_rules_concat(m: GlConfig, a: Seq<GlConfigRule>, b: Seq<GlConfigRule>)
    ensures
        apply_rules(m, a + b) == apply_rules(apply_rules(m, a), b),
    decreases b.len(),
{
    if b.len() == 0 {
        assert(a + b =~= a);
    } else {
        lemma_apply_rules_concat(m, a, b.drop_last());
        assert((a + b).drop_last() =~= a + b.drop_last());
        assert((a + b).last() == b.last());
    }
}

/// What one rule does to each field of the matcher: it sets its own field and keeps the others.
#[verifier::spinoff_prover]
#[verifier::rlimit(100)]
proof fn lemma_apply_rule_fields(m: GlConfig, r: GlConfigRule)
    ensures
        apply_rule(m, r).double_buffer_mode == (match r { GlConfigRule::DoubleBufferMode(v) => v, _ => m.double_buffer_mode }),
        apply_rule(m, r).stereo_mode == (match r { GlConfigRule::StereoMode(v) => v, _ => m.stereo_mode }),
        apply_rule(m, r).red_bits == (match r { GlConfigRule::RedBits(v) => v, _ => m.red_bits }),
        apply_rule(m, r).green_bits == (match r { GlConfigRule::GreenBits(v) => v, _ => m.green_bits }),
        apply_rule(m, r).blue_bits == (match r { GlConfigRule::BlueBits(v) => v, _ => m.blue_bits }),
        apply_rule(m, r).alpha_bits == (match r { GlConfigRule::AlphaBits(v) => v, _ => m.alpha_bits }),
        apply_rule(m, r).red_mask == (match r { GlConfigRule::RedMask(v) => v, _ => m.red_mask }),
        apply_rule(m, r).green_mask == (match r { GlConfigRule::GreenMask(v) => v, _ => m.green_mask }),
        apply_rule(m, r).blue_mask == (match r { GlConfigRule::BlueMask(v) => v, _ => m.blue_mask }),
        apply_rule(m, r).alpha_mask == (match r { GlConfigRule::AlphaMask(v) => v, _ => m.alpha_mask }),
        apply_rule(m, r).red_shift == (match r { GlConfigRule::RedShift(v) => v, _ => m.red_shift }),
        apply_rule(m, r).green_shift == (match r { GlConfigRule::GreenShift(v) => v, _ => m.green_shift }),
        apply_rule(m, r).blue_shift == (match r { GlConfigRule::BlueShift(v) => v, _ => m.blue_shift }),
        apply_rule(m, r).alpha_shift == (match r { GlConfigRule::AlphaShift(v) => v, _ => m.alpha_shift }),
        apply_rule(m, r).rgb_bits == (match r { GlConfigRule::RgbBits(v) => v, _ => m.rgb_bits }),
        apply_rule(m, r).color_index == (match r { GlConfigRule::ColorIndex(v) => v, _ => m.color_index }),
        apply_rule(m, r).accum_red_bits == (match r { GlConfigRule::AccumRedBits(v) => v, _ => m.accum_red_bits }),
        apply_rule(m, r).accum_green_bits == (match r { GlConfigRule::AccumGreenBits(v) => v, _ => m.accum_green_bits }),
        apply_rule(m, r).accum_blue_bits == (match r { GlConfigRule::AccumBlueBits(v) => v, _ => m.accum_blue_bits }),
        apply_rule(m, r).accum_alpha_bits == (match r { GlConfigRule::AccumAlphaBits(v) => v, _ => m.accum_alpha_bits }),
        apply_rule(m, r).depth_bits == (match r { GlConfigRule::DepthBits(v) => v, _ => m.depth_bits }),
        apply_rule(m, r).stencil_bits == (match r { GlConfigRule::StencilBits(v) => v, _ => m.stencil_bits }),
        apply_rule(m, r).visual_id == (match r { GlConfigRule::VisualId(v) => v, _ => m.visual_id }),
        apply_rule(m, r).visual_type == (match r { GlConfigRule::VisualType(v) => v, _ => m.visual_type }),
        apply_rule(m, r).visual_rating == (match r { GlConfigRule::VisualRating(v) => v, _ => m.visual_rating }),
        apply_rule(m, r).transparent_pixel == (match r { GlConfigRule::TransparentPixel(v) => v, _ => m.transparent_pixel }),
        apply_rule(m, r).transparent_red == (match r { GlConfigRule::TransparentRed(v) => v, _ => m.transparent_red }),
        apply_rule(m, r).transparent_green == (match r { GlConfigRule::TransparentGreen(v) => v, _ => m.transparent_green }),
        apply_rule(m, r).transparent_blue == (match r { GlConfigRule::TransparentBlue(v) => v, _ => m.transparent_blue }),
        apply_rule(m, r).transparent_alpha == (match r { GlConfigRule::TransparentAlpha(v) => v, _ => m.transparent_alpha }),
        apply_rule(m, r).transparent_index == (match r { GlConfigRule::TransparentIndex(v) => v, _ => m.transparent_index }),
        apply_rule(m, r).sample_buffers == (match r { GlConfigRule::SampleBuffers(v) => v, _ => m.sample_buffers }),
        apply_rule(m, r).samples == (match r { GlConfigRule::Samples(v) => v, _ => m.samples }),
        apply_rule(m, r).drawable_type == (match r { GlConfigRule::DrawableType(v) => v, _ => m.drawable_type }),
        apply_rule(m, r).render_type == (match r { GlConfigRule::RenderType(v) => v, _ => m.render_type }),
        apply_rule(m, r).x_renderable == (match r { GlConfigRule::XRenderable(v) => v, _ => m.x_renderable }),
        apply_rule(m, r).fbconfig_id == (match r { GlConfigRule::FbconfigId(v) => v, _ => m.fbconfig_id }),
        apply_rule(m, r).max_pbuffer_width == (match r { GlConfigRule::MaxPbufferWidth(v) => v, _ => m.max_pbuffer_width }),
        apply_rule(m, r).max_pbuffer_height == (match r { GlConfigRule::MaxPbufferHeight(v) => v, _ => m.max_pbuffer_height }),
        apply_rule(m, r).max_pbuffer_pixels == (match r { GlConfigRule::MaxPbufferPixels(v) => v, _ => m.max_pbuffer_pixels }),
        apply_rule(m, r).optimal_pbuffer_width == (match r { GlConfigRule::OptimalPbufferWidth(v) => v, _ => m.optimal_pbuffer_width }),
        apply_rule(m, r).optimal_pbuffer_height == (match r { GlConfigRule::OptimalPbufferHeight(v) => v, _ => m.optimal_pbuffer_height }),
        apply_rule(m, r).visual_select_group == (match r { GlConfigRule::VisualSelectGroup(v) => v, _ => m.visual_select_group }),
        apply_rule(m, r).swap_method == (match r { GlConfigRule::SwapMethod(v) => v, _ => m.swap_method }),
        apply_rule(m, r).screen == (match r { GlConfigRule::Screen(v) => v, _ => m.screen }),
        apply_rule(m, r).bind_to_texture_rgb == (match r { GlConfigRule::BindToTextureRgb(v) => v, _ => m.bind_to_texture_rgb }),
        apply_rule(m, r).bind_to_texture_rgba == (match r { GlConfigRule::BindToTextureRgba(v) => v, _ => m.bind_to_texture_rgba }),
        apply_rule(m, r).bind_to_mipmap_texture == (match r { GlConfigRule::BindToMipmapTexture(v) => v, _ => m.bind_to_mipmap_texture }),
        apply_rule(m, r).bind_to_texture_targets == (match r { GlConfigRule::BindToTextureTargets(v) => v, _ => m.bind_to_texture_targets }),
        apply_rule(m, r).y_inverted == (match r { GlConfigRule::YInverted(v) => v, _ => m.y_inverted }),
        apply_rule(m, r).srgb_capable == (match r { GlConfigRule::SrgbCapable(v) => v, _ => m.srgb_capable }),
        apply_rule(m, r).level == (match r { GlConfigRule::Level(v) => v, _ => m.level }),
        apply_rule(m, r).num_aux_buffers == (match r { GlConfigRule::NumAuxBuffers(v) => v, _ => m.num_aux_buffers }),
{
}

/// Rules for different fields can be applied in either order.
proof fn lemma_rules_commute(m: GlConfig, x: GlConfigRule, z: GlConfigRule)
    requires
        rule_field(x) != rule_field(z),
    ensures
        apply_rule(apply_rule(m, x), z) == apply_rule(apply_rule(m, z), x),
{
    lemma_apply_rule_fields(m, x);
    lemma_apply_rule_fields(m, z);
    lemma_apply_rule_fields(apply_rule(m, x), z);
    lemma_apply_rule_fields(apply_rule(m, z), x);
}

/// A rule moves past rules for other fields.
proof fn lemma_rule_passes(m: GlConfig, x: GlConfigRule, ts: Seq<GlConfigRule>)
    requires
        forall|j: int| 0 <= j < ts.len() ==> rule_field(#[trigger] ts[j]) != rule_field(x),
    ensures
        apply_rules(apply_rule(m, x), ts) == apply_rule(apply_rules(m, ts), x),
    decreases ts.len(),
{
    if ts.len() > 0 {
        let p = ts.drop_last();
        assert forall|j: int| 0 <= j < p.len() implies rule_field(#[trigger] p[j]) != rule_field(x) by {
            assert(p[j] == ts[j]);
        }
        lemma_rule_passes(m, x, p);
        assert(rule_field(ts[ts.len() - 1]) != rule_field(x));
        lemma_rules_commute(apply_rules(m, p), x, ts.last());
    }
}

/// A rule followed by rules that include one for its field has no effect.
proof fn lemma_rule_overridden(m: GlConfig, x: GlConfigRule, ts: Seq<GlConfigRule>)
    requires
        exists|j: int| 0 <= j < ts.len() && same_field(#[trigger] ts[j], x),
    ensures
        apply_rules(apply_rule(m, x), ts) == apply_rules(m, ts),
    decreases ts.len(),
{
    let p = ts.drop_last();
    let z = ts.last();
    if exists|j: int| 0 <= j < p.len() && same_field(#[trigger] p[j], x) {
        let j = choose|j: int| 0 <= j < p.len() && same_field(#[trigger] p[j], x);
        assert(0 <= j < p.len() && same_field(p[j], x));
        lemma_rule_overridden(m, x, p);
    } else {
        let j = choose|j: int| 0 <= j < ts.len() && same_field(#[trigger] ts[j], x);
        if j < ts.len() - 1 {
            assert(p[j] == ts[j]);
            assert(false);
        }
        assert forall|k: int| 0 <= k < p.len() implies rule_field(#[trigger] p[k]) != rule_field(x) by {
            if rule_field(p[k]) == rule_field(x) {
                assert(same_field(p[k], x));
            }
        }
        lemma_rule_passes(m, x, p);
        lemma_later_rule_wins(apply_rules(m, p), x, z);
    }
}

/// A rule for a field that a later rule of the list also sets makes no difference to which
/// configurations fulfill the list.
pub proof fn lemma_later_rule_overrides(
    c: GlConfig,
    rs: Seq<GlConfigRule>,
    x: GlConfigRule,
    ts: Seq<GlConfigRule>,
)
    requires
        exists|j: int| 0 <= j < ts.len() && same_field(#[trigger] ts[j], x),
    ensures
        fulfills(c, rs + seq![x] + ts) == fulfills(c, rs + ts),
{
    let m = matching_config();
    lemma_apply_rules_concat(m, rs + seq![x], ts);
    lemma_apply_rules_concat(m, rs, seq![x]);
    let before = apply_rules(m, rs);
    assert(seq![x].drop_last() =~= Seq::<GlConfigRule>::empty());
    assert(apply_rules(before, Seq::<GlConfigRule>::empty()) == before);
    assert(seq![x].last() == x);
    assert(apply_rules(before, seq![x]) == apply_rule(before, x));
    lemma_rule_overridden(apply_rules(m, rs), x, ts);
    lemma_apply_rules_concat(m, rs, ts);
}

} // verus!
