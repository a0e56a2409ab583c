//! Building configurations from the property lists that the X server sends.
use vstd::prelude::*;

use breadx::auto::xproto::VisualClass;
use breadx::auto::AsByteSequence;

use super::values::{COLOR_INDEX_BIT, RGBA_BIT};
use super::{swap_method_of_token, visual_type_of_token, GlConfig, GlSwapMethod, GlVisualType};

verus! {

/// The number of untagged header values that a visual's property list begins with.
pub const NONTAGGED_CONFIG_PROPS: usize = 18;

/// The X11 visual class with the given number.
pub open spec fn visual_class_type(b: u8) -> Option<GlVisualType> {
    if b == 0 {
        Some(GlVisualType::StaticGray)
    } else if b == 1 {
        Some(GlVisualType::GrayScale)
    } else if b == 2 {
        Some(GlVisualType::StaticColor)
    } else if b == 3 {
        Some(GlVisualType::PseudoColor)
    } else if b == 4 {
        Some(GlVisualType::TrueColor)
    } else if b == 5 {
        Some(GlVisualType::DirectColor)
    } else {
        None
    }
}

/// Reads a visual class from bytes with `VisualClass::from_bytes` of breadx.
/// The breadx source decodes the first byte: 0 to 5 name StaticGray, GrayScale,
/// StaticColor, PseudoColor, TrueColor and DirectColor, any other byte gives `None`.
#[verifier::external_body]
fn visual_class_from_byte(b: u8) -> (r: Option<GlVisualType>)
    ensures
        r == visual_class_type(b),
{
    match VisualClass::from_bytes(&[b]) {
        Some((VisualClass::StaticGray, _)) => Some(GlVisualType::StaticGray),
        Some((VisualClass::GrayScale, _)) => Some(GlVisualType::GrayScale),
        Some((VisualClass::StaticColor, _)) => Some(GlVisualType::StaticColor),
        Some((VisualClass::PseudoColor, _)) => Some(GlVisualType::PseudoColor),
        Some((VisualClass::TrueColor, _)) => Some(GlVisualType::TrueColor),
        Some((VisualClass::DirectColor, _)) => Some(GlVisualType::DirectColor),
        None => None,
    }
}

/// `u16::from_ne_bytes` of std: the two bytes read in this machine's byte order, which is
/// little or big end first; which one is not stated.
#[verifier::external_body]
fn u16_from_native_bytes(b0: u8, b1: u8) -> (r: u16)
    ensures
        r == b0 + 256 * b1 || r == 256 * b0 + b1,
{
    u16::from_ne_bytes([b0, b1])
}

/// Whether this machine stores integers little end first.
pub fn native_is_little_endian() -> bool {
    u16_from_native_bytes(1, 0) == 1
}

/// The byte of `x` that comes first in memory in the given byte order.
pub open spec fn first_byte_in_memory(x: u32, little_endian: bool) -> u8 {
    if little_endian {
        (x % 256) as u8
    } else {
        (x / 0x100_0000) as u8
    }
}

/// The configuration after the untagged header of a visual's property list.
pub open spec fn header_applied(c: GlConfig, h: Seq<u32>, little_endian: bool) -> GlConfig {
    GlConfig {
        visual_id: h[0] as i32,
        visual_type: match visual_class_type(first_byte_in_memory(h[1], little_endian)) {
            Some(v) => v,
            None => GlVisualType::DontCare,
        },
        render_type: if h[2] != 0 { RGBA_BIT } else { COLOR_INDEX_BIT },
        red_bits: h[3] as i32,
        green_bits: h[4] as i32,
        blue_bits: h[5] as i32,
        alpha_bits: h[6] as i32,
        accum_red_bits: h[7] as i32,
        accum_green_bits: h[8] as i32,
        accum_blue_bits: h[9] as i32,
        accum_alpha_bits: h[10] as i32,
        double_buffer_mode: h[11],
        stereo_mode: h[12],
        rgb_bits: h[13] as i32,
        depth_bits: h[14] as i32,
        stencil_bits: h[15] as i32,
        num_aux_buffers: h[16] as i32,
        level: h[17] as i32,
        ..c
    }
}

/// The effect of one tagged property: the new configuration, and whether the value after the
/// tag was consumed (two entries) or not (one entry).
pub open spec fn tag_applied(c: GlConfig, tag: u32, val: i32, fbconfig_style_tags: bool) -> (
    GlConfig,
    bool,
) {
    if tag == 4 {
        if fbconfig_style_tags {
            (GlConfig { render_type: if val != 0 { RGBA_BIT } else { COLOR_INDEX_BIT }, ..c }, true)
        } else {
            (GlConfig { render_type: RGBA_BIT, ..c }, false)
        }
    } else if tag == 2 {
        (GlConfig { rgb_bits: val, ..c }, true)
    } else if tag == 3 {
        (GlConfig { level: val, ..c }, true)
    } else if tag == 5 {
        if fbconfig_style_tags {
            (GlConfig { double_buffer_mode: val as u32, ..c }, true)
        } else {
            (GlConfig { double_buffer_mode: 1, ..c }, false)
        }
    } else if tag == 6 {
        if fbconfig_style_tags {
            (GlConfig { stereo_mode: val as u32, ..c }, true)
        } else {
            (GlConfig { stereo_mode: 1, ..c }, false)
        }
    } else if tag == 7 {
        (GlConfig { num_aux_buffers: val, ..c }, true)
    } else if tag == 8 {
        (GlConfig { red_bits: val, ..c }, true)
    } else if tag == 9 {
        (GlConfig { green_bits: val, ..c }, true)
    } else if tag == 10 {
        (GlConfig { blue_bits: val, ..c }, true)
    } else if tag == 11 {
        (GlConfig { alpha_bits: val, ..c }, true)
    } else if tag == 12 {
        (GlConfig { depth_bits: val, ..c }, true)
    } else if tag == 13 {
        (GlConfig { stencil_bits: val, ..c }, true)
    } else if tag == 14 {
        (GlConfig { accum_red_bits: val, ..c }, true)
    } else if tag == 15 {
        (GlConfig { accum_green_bits: val, ..c }, true)
    } else if tag == 16 {
        (GlConfig { accum_blue_bits: val, ..c }, true)
    } else if tag == 17 {
        (GlConfig { accum_alpha_bits: val, ..c }, true)
    } else if tag == 0x20 {
        (GlConfig { visual_rating: val, ..c }, true)
    } else if tag == 0x22 {
        (
            GlConfig {
                visual_type: match visual_type_of_token(val) {
                    Some(v) => v,
                    None => GlVisualType::DontCare,
                },
                ..c
            },
            true,
        )
    } else if tag == 0x23 {
        (GlConfig { transparent_pixel: val, ..c }, true)
    } else if tag == 0x24 {
        (GlConfig { transparent_index: val, ..c }, true)
    } else if tag == 0x25 {
        (GlConfig { transparent_red: val, ..c }, true)
    } else if tag == 0x26 {
        (GlConfig { transparent_green: val, ..c }, true)
    } else if tag == 0x27 {
        (GlConfig { transparent_blue: val, ..c }, true)
    } else if tag == 0x28 {
        (GlConfig { transparent_alpha: val, ..c }, true)
    } else if tag == 0x800B {
        (GlConfig { visual_id: val, ..c }, true)
    } else if tag == 0x8010 {
        (GlConfig { drawable_type: val, ..c }, true)
    } else if tag == 0x8011 {
        (GlConfig { render_type: val, ..c }, true)
    } else if tag == 0x8012 {
        (GlConfig { x_renderable: val, ..c }, true)
    } else if tag == 0x8013 {
        (GlConfig { fbconfig_id: val, ..c }, true)
    } else if tag == 0x8016 {
        (GlConfig { max_pbuffer_width: val, ..c }, true)
    } else if tag == 0x8017 {
        (GlConfig { max_pbuffer_height: val, ..c }, true)
    } else if tag == 0x8018 {
        (GlConfig { max_pbuffer_pixels: val, ..c }, true)
    } else if tag == 0x8019 {
        (GlConfig { optimal_pbuffer_width: val, ..c }, true)
    } else if tag == 0x801A {
        (GlConfig { optimal_pbuffer_height: val, ..c }, true)
    } else if tag == 0x8028 {
        (GlConfig { visual_select_group: val, ..c }, true)
    } else if tag == 0x8060 {
        (
            GlConfig {
                swap_method: match swap_method_of_token(val) {
                    Some(v) => v,
                    None => GlSwapMethod::DontCare,
                },
                ..c
            },
            true,
        )
    } else if tag == 100000 {
        (GlConfig { sample_buffers: val, ..c }, true)
    } else if tag == 100001 {
        (GlConfig { samples: val, ..c }, true)
    } else if tag == 0x20D0 {
        (GlConfig { bind_to_texture_rgb: val, ..c }, true)
    } else if tag == 0x20D1 {
        (GlConfig { bind_to_texture_rgba: val, ..c }, true)
    } else if tag == 0x20D2 {
        (GlConfig { bind_to_mipmap_texture: val, ..c }, true)
    } else if tag == 0x20D3 {
        (GlConfig { bind_to_texture_targets: val, ..c }, true)
    } else if tag == 0x20D4 {
        (GlConfig { y_inverted: val, ..c }, true)
    } else if tag == 0x20B2 {
        (GlConfig { srgb_capable: val, ..c }, true)
    } else if tag == 1 {
        (c, fbconfig_style_tags)
    } else {
        (c, true)
    }
}

/// The value of a GLX attribute of a configuration, named by its GLX token, for the
/// attributes that a configuration holds as a number; `None` for any other token.
pub open spec fn glx_attribute(c: GlConfig, attribute: u32) -> Option<int> {
    if attribute == 2 {
        // GLX_BUFFER_SIZE
        Some(c.rgb_bits as int)
    } else if attribute == 3 {
        // GLX_LEVEL
        Some(c.level as int)
    } else if attribute == 5 {
        // GLX_DOUBLEBUFFER
        Some(c.double_buffer_mode as int)
    } else if attribute == 6 {
        // GLX_STEREO
        Some(c.stereo_mode as int)
    } else if attribute == 7 {
        // GLX_AUX_BUFFERS
        Some(c.num_aux_buffers as int)
    } else if attribute == 8 {
        // GLX_RED_SIZE
        Some(c.red_bits as int)
    } else if attribute == 9 {
        // GLX_GREEN_SIZE
        Some(c.green_bits as int)
    } else if attribute == 10 {
        // GLX_BLUE_SIZE
        Some(c.blue_bits as int)
    } else if attribute == 11 {
        // GLX_ALPHA_SIZE
        Some(c.alpha_bits as int)
    } else if attribute == 12 {
        // GLX_DEPTH_SIZE
        Some(c.depth_bits as int)
    } else if attribute == 13 {
        // GLX_STENCIL_SIZE
        Some(c.stencil_bits as int)
    } else if attribute == 14 {
        // GLX_ACCUM_RED_SIZE
        Some(c.accum_red_bits as int)
    } else if attribute == 15 {
        // GLX_ACCUM_GREEN_SIZE
        Some(c.accum_green_bits as int)
    } else if attribute == 16 {
        // GLX_ACCUM_BLUE_SIZE
        Some(c.accum_blue_bits as int)
    } else if attribute == 17 {
        // GLX_ACCUM_ALPHA_SIZE
        Some(c.accum_alpha_bits as int)
    } else if attribute == 0x20 {
        // GLX_CONFIG_CAVEAT
        Some(c.visual_rating as int)
    } else if attribute == 0x23 {
        // GLX_TRANSPARENT_TYPE
        Some(c.transparent_pixel as int)
    } else if attribute == 0x24 {
        // GLX_TRANSPARENT_INDEX_VALUE
        Some(c.transparent_index as int)
    } else if attribute == 0x25 {
        // GLX_TRANSPARENT_RED_VALUE
        Some(c.transparent_red as int)
    } else if attribute == 0x26 {
        // GLX_TRANSPARENT_GREEN_VALUE
        Some(c.transparent_green as int)
    } else if attribute == 0x27 {
        // GLX_TRANSPARENT_BLUE_VALUE
        Some(c.transparent_blue as int)
    } else if attribute == 0x28 {
        // GLX_TRANSPARENT_ALPHA_VALUE
        Some(c.transparent_alpha as int)
    } else if attribute == 0x800B {
        // GLX_VISUAL_ID
        Some(c.visual_id as int)
    } else if attribute == 0x8010 {
        // GLX_DRAWABLE_TYPE
        Some(c.drawable_type as int)
    } else if attribute == 0x8011 {
        // GLX_RENDER_TYPE
        Some(c.render_type as int)
    } else if attribute == 0x8012 {
        // GLX_X_RENDERABLE
        Some(c.x_renderable as int)
    } else if attribute == 0x8013 {
        // GLX_FBCONFIG_ID
        Some(c.fbconfig_id as int)
    } else if attribute == 0x8016 {
        // GLX_MAX_PBUFFER_WIDTH
        Some(c.max_pbuffer_width as int)
    } else if attribute == 0x8017 {
        // GLX_MAX_PBUFFER_HEIGHT
        Some(c.max_pbuffer_height as int)
    } else if attribute == 0x8018 {
        // GLX_MAX_PBUFFER_PIXELS
        Some(c.max_pbuffer_pixels as int)
    } else if attribute == 0x8019 {
        // GLX_OPTIMAL_PBUFFER_WIDTH_SGIX
        Some(c.optimal_pbuffer_width as int)
    } else if attribute == 0x801A {
        // GLX_OPTIMAL_PBUFFER_HEIGHT_SGIX
        Some(c.optimal_pbuffer_height as int)
    } else if attribute == 0x8028 {
        // GLX_VISUAL_SELECT_GROUP_SGIX
        Some(c.visual_select_group as int)
    } else if attribute == 100000 {
        // GLX_SAMPLE_BUFFERS
        Some(c.sample_buffers as int)
    } else if attribute == 100001 {
        // GLX_SAMPLES
        Some(c.samples as int)
    } else if attribute == 0x20D0 {
        // GLX_BIND_TO_TEXTURE_RGB_EXT
        Some(c.bind_to_texture_rgb as int)
    } else if attribute == 0x20D1 {
        // GLX_BIND_TO_TEXTURE_RGBA_EXT
        Some(c.bind_to_texture_rgba as int)
    } else if attribute == 0x20D2 {
        // GLX_BIND_TO_MIPMAP_TEXTURE_EXT
        Some(c.bind_to_mipmap_texture as int)
    } else if attribute == 0x20D3 {
        // GLX_BIND_TO_TEXTURE_TARGETS_EXT
        Some(c.bind_to_texture_targets as int)
    } else if attribute == 0x20D4 {
        // GLX_Y_INVERTED_EXT
        Some(c.y_inverted as int)
    } else if attribute == 0x20B2 {
        // GLX_FRAMEBUFFER_SRGB_CAPABLE_EXT
        Some(c.srgb_capable as int)
    } else {
        None
    }
}

/// The fields that no numeric GLX attribute names: the masks and shifts, the color index,
/// the screen, and the visual type and swap method.
pub open spec fn same_unnamed_fields(a: GlConfig, b: GlConfig) -> bool {
    &&& a.red_mask == b.red_mask && a.green_mask == b.green_mask
    &&& a.blue_mask == b.blue_mask && a.alpha_mask == b.alpha_mask
    &&& a.red_shift == b.red_shift && a.green_shift == b.green_shift
    &&& a.blue_shift == b.blue_shift && a.alpha_shift == b.alpha_shift
    &&& a.color_index == b.color_index && a.screen == b.screen
    &&& a.visual_type == b.visual_type && a.swap_method == b.swap_method
}

/// A numeric GLX attribute that a tag sets to the value after it: every one but
/// GLX_DOUBLEBUFFER and GLX_STEREO, whose tags read differently in visual lists.
pub open spec fn plain_tag(tag: u32) -> bool {
    glx_attribute(super::default_config(), tag) is Some && tag != 5 && tag != 6
}

/// Reading a tagged property sets the attribute that its tag names to the value after the
/// tag, consumes that value, and leaves every other attribute and field as it was: after
/// reading `tag` with `val`, asking for `tag` gives `val` and asking for `other` gives what
/// it gave before.
#[verifier::spinoff_prover]
#[verifier::rlimit(100)]
pub proof fn lemma_tag_sets_its_attribute(
    c: GlConfig,
    tag: u32,
    other: u32,
    val: i32,
    fbconfig_style_tags: bool,
)
    requires
        plain_tag(tag),
    ensures
        ({
            let (after, used) = tag_applied(c, tag, val, fbconfig_style_tags);
            &&& used
            &&& glx_attribute(after, tag) == Some(val as int)
            &&& other != tag ==> glx_attribute(after, other) == glx_attribute(c, other)
            &&& same_unnamed_fields(after, c)
        }),
{
}

/// The boolean tags: in framebuffer configuration lists GLX_RGBA (4), GLX_DOUBLEBUFFER (5) and
/// GLX_STEREO (6) take a value, in visual lists they stand alone and mean "yes". GLX_RGBA
/// chooses between the RGBA and the color index render type. Nothing else changes.
#[verifier::spinoff_prover]
#[verifier::rlimit(100)]
pub proof fn lemma_boolean_tags(c: GlConfig, val: i32, other: u32)
    ensures
        tag_applied(c, 4, val, true) == (GlConfig {
            render_type: if val != 0 { RGBA_BIT } else { COLOR_INDEX_BIT },
            ..c
        }, true),
        tag_applied(c, 4, val, false) == (GlConfig { render_type: RGBA_BIT, ..c }, false),
        tag_applied(c, 5, val, true).1 && tag_applied(c, 5, val, true).0.double_buffer_mode
            == val as u32,
        tag_applied(c, 5, val, false).0.double_buffer_mode == 1 && !tag_applied(c, 5, val, false).1,
        tag_applied(c, 6, val, true).1 && tag_applied(c, 6, val, true).0.stereo_mode == val as u32,
        tag_applied(c, 6, val, false).0.stereo_mode == 1 && !tag_applied(c, 6, val, false).1,
        other != 5 ==> glx_attribute(tag_applied(c, 5, val, true).0, other) == glx_attribute(c, other),
        other != 6 ==> glx_attribute(tag_applied(c, 6, val, false).0, other) == glx_attribute(c, other),
        same_unnamed_fields(tag_applied(c, 5, val, true).0, c),
        same_unnamed_fields(tag_applied(c, 6, val, false).0, c),
        RGBA_BIT == 1 && COLOR_INDEX_BIT == 2,
{
}

/// A tagged-only list holding one property sets what that property sets: reading
/// `[tag, val, 0, 0]` from `c` gives `c` with the tag read (a zero tag reads nothing). In a
/// visual list the tag is one that takes a value.
pub proof fn lemma_one_property_list(
    c: GlConfig,
    tag: u32,
    val: u32,
    fbconfig_style_tags: bool,
    little_endian: bool,
)
    requires
        tag != 0,
        fbconfig_style_tags || plain_tag(tag),
    ensures
        properties_applied(c, seq![tag, val, 0u32, 0u32], true, fbconfig_style_tags, little_endian)
            == tag_applied(c, tag, val as i32, fbconfig_style_tags).0,
        properties_applied(c, seq![0u32, val], true, fbconfig_style_tags, little_endian) == c,
{
    let props = seq![tag, val, 0u32, 0u32];
    let (c2, used) = tag_applied(c, tag, val as i32, fbconfig_style_tags);
    assert(value_after(props, 0) == val as i32);
    assert(used) by {
        if !fbconfig_style_tags {
            lemma_tag_sets_its_attribute(c, tag, tag, val as i32, false);
        }
    }
    assert(props[2] == 0);
    assert(tags_applied(c2, props, 2, 1, fbconfig_style_tags) == c2);
    assert(tags_applied(c, props, 0, 2, fbconfig_style_tags) == tags_applied(
        c2,
        props,
        if used { 2 } else { 1 },
        1,
        fbconfig_style_tags,
    ));
}

/// The untagged header of a visual's property list is read by position, in the order of
/// the GLX visual reply: the visual id, the class (read in the given byte order), whether the
/// visual is RGBA, the red, green, blue and alpha sizes, the four accumulation sizes, double
/// buffering, stereo, the buffer size, the depth and stencil sizes, the aux buffers and the
/// level. A header alone, with no tags after it, reads just that.
#[verifier::spinoff_prover]
#[verifier::rlimit(100)]
pub proof fn lemma_header_positions(c: GlConfig, h: Seq<u32>, little_endian: bool)
    requires
        h.len() == 18,
    ensures
        ({
            let r = properties_applied(c, h, false, true, little_endian);
            &&& r.visual_id == h[0] as i32
            &&& r.visual_type == match visual_class_type(first_byte_in_memory(h[1], little_endian)) {
                Some(v) => v,
                None => GlVisualType::DontCare,
            }
            &&& r.render_type == if h[2] != 0 { 1i32 } else { 2i32 }
            &&& glx_attribute(r, 8) == Some(h[3] as i32 as int)
            &&& glx_attribute(r, 9) == Some(h[4] as i32 as int)
            &&& glx_attribute(r, 10) == Some(h[5] as i32 as int)
            &&& glx_attribute(r, 11) == Some(h[6] as i32 as int)
            &&& glx_attribute(r, 14) == Some(h[7] as i32 as int)
            &&& glx_attribute(r, 15) == Some(h[8] as i32 as int)
            &&& glx_attribute(r, 16) == Some(h[9] as i32 as int)
            &&& glx_attribute(r, 17) == Some(h[10] as i32 as int)
            &&& r.double_buffer_mode == h[11]
            &&& r.stereo_mode == h[12]
            &&& glx_attribute(r, 2) == Some(h[13] as i32 as int)
            &&& glx_attribute(r, 12) == Some(h[14] as i32 as int)
            &&& glx_attribute(r, 13) == Some(h[15] as i32 as int)
            &&& glx_attribute(r, 7) == Some(h[16] as i32 as int)
            &&& glx_attribute(r, 3) == Some(h[17] as i32 as int)
            &&& r.fbconfig_id == c.fbconfig_id && r.samples == c.samples
            &&& same_unnamed_fields(GlConfig { visual_type: c.visual_type, ..r }, c)
        }),
{
    assert(h.skip(18).len() == 0);
}

/// The GLX visual type tokens and the X11 visual class numbers name the same classes:
/// GLX_TRUE_COLOR (0x8002) is class 4, GLX_DIRECT_COLOR (0x8003) class 5, GLX_PSEUDO_COLOR
/// (0x8004) class 3, GLX_STATIC_COLOR (0x8005) class 2, GLX_GRAY_SCALE (0x8006) class 1 and
/// GLX_STATIC_GRAY (0x8007) class 0; "don't care" (-1) names no class, and each class has one
/// token.
pub proof fn lemma_visual_tokens_and_classes(class: u8, token: i32)
    ensures
        visual_type_of_token(0x8002) == visual_class_type(4) && visual_class_type(4) is Some,
        visual_type_of_token(0x8003) == visual_class_type(5) && visual_class_type(5) is Some,
        visual_type_of_token(0x8004) == visual_class_type(3) && visual_class_type(3) is Some,
        visual_type_of_token(0x8005) == visual_class_type(2) && visual_class_type(2) is Some,
        visual_type_of_token(0x8006) == visual_class_type(1) && visual_class_type(1) is Some,
        visual_type_of_token(0x8007) == visual_class_type(0) && visual_class_type(0) is Some,
        visual_type_of_token(-1i32) == Some(GlVisualType::DontCare),
        visual_type_of_token(0x8002) == Some(GlVisualType::TrueColor),
        visual_class_type(class) is Some <==> class <= 5,
        visual_class_type(class) != Some(GlVisualType::DontCare),
        (visual_type_of_token(token) is Some) <==> (token == -1 || 0x8002 <= token <= 0x8007),
        0x8002 <= token <= 0x8007 ==> visual_type_of_token(token) == visual_class_type(
            if token == 0x8002 { 4u8 } else if token == 0x8003 { 5u8 } else if token == 0x8004 { 3u8 }
            else if token == 0x8005 { 2u8 } else if token == 0x8006 { 1u8 } else { 0u8 },
        ),
{
}

/// Which byte of a word comes first in memory: the low byte when little end first, the high
/// byte otherwise. So a visual class word written by a little-endian server as `class` reads
/// `class` there, and one written big end first as `class << 24` reads `class` there.
pub proof fn lemma_first_byte_in_memory(class: u8)
    ensures
        first_byte_in_memory(class as u32, true) == class,
        first_byte_in_memory(((class as u32) * 0x100_0000) as u32, false) == class,
        first_byte_in_memory((0x100 + class as u32) as u32, true) == class,
{
}

/// The value after the tag at `i`, or zero past the end of the list.
pub open spec fn value_after(props: Seq<u32>, i: int) -> i32 {
    if i + 1 < props.len() {
        props[i + 1] as i32
    } else {
        0
    }
}

/// The configuration after reading tagged properties from position `i`, with `steps`
/// tags left to read at most. A zero tag ends the list.
pub open spec fn tags_applied(
    c: GlConfig,
    props: Seq<u32>,
    i: int,
    steps: nat,
    fbconfig_style_tags: bool,
) -> GlConfig
    decreases steps,
{
    if steps == 0 || i < 0 || i >= props.len() || props[i] == 0 {
        c
    } else {
        let (c2, used) = tag_applied(c, props[i], value_after(props, i), fbconfig_style_tags);
        tags_applied(
            c2,
            props,
            if used { i + 2 } else { i + 1 },
            (steps - 1) as nat,
            fbconfig_style_tags,
        )
    }
}

/// The configuration after a whole property list: the untagged header first unless the
/// list is tagged only, then as many tags as half the length of the rest.
pub open spec fn properties_applied(
    c: GlConfig,
    props: Seq<u32>,
    tagged_only: bool,
    fbconfig_style_tags: bool,
    little_endian: bool,
) -> GlConfig {
    if tagged_only {
        tags_applied(c, props, 0, props.len() / 2, fbconfig_style_tags)
    } else {
        let rest = props.skip(NONTAGGED_CONFIG_PROPS as int);
        tags_applied(
            header_applied(c, props, little_endian),
            rest,
            0,
            rest.len() / 2,
            fbconfig_style_tags,
        )
    }
}

/// The configurations that a list of `num_configs` entries of `num_props` values each
/// describes, each read from the default configuration.
pub open spec fn configs_from_properties(
    props: Seq<u32>,
    num_props: nat,
    num_configs: nat,
    tagged_only: bool,
    little_endian: bool,
) -> Seq<GlConfig>
    recommends
        num_props > 0,
{
    let n = if num_configs < props.len() / num_props { num_configs } else { props.len() / num_props };
    Seq::new(
        n,
        |k: int|
            properties_applied(
                super::default_config(),
                props.subrange(k * num_props, (k + 1) * num_props),
                tagged_only,
                true,
                little_endian,
            ),
    )
}

impl GlConfig {
    /// Apply one tagged property; tells whether its value was consumed.
    fn apply_tag(&mut self, tag: u32, val: i32, fbconfig_style_tags: bool) -> (used: bool)
        ensures
            (*final(self), used) == tag_applied(*old(self), tag, val, fbconfig_style_tags),
    {
        match tag {
            // GLX_RGBA
            4 => {
                if fbconfig_style_tags {
                    self.render_type = if val != 0 { RGBA_BIT } else { COLOR_INDEX_BIT };
                    true
                } else {
                    self.render_type = RGBA_BIT;
                    false
                }
            },
            // GLX_BUFFER_SIZE
            2 => { self.rgb_bits = val; true },
            // GLX_LEVEL
            3 => { self.level = val; true },
            // GLX_DOUBLEBUFFER
            5 => {
                if fbconfig_style_tags {
                    self.double_buffer_mode = val as u32;
                    true
                } else {
                    self.double_buffer_mode = 1;
                    false
                }
            },
            // GLX_STEREO
            6 => {
                if fbconfig_style_tags {
                    self.stereo_mode = val as u32;
                    true
                } else {
                    self.stereo_mode = 1;
                    false
                }
            },
            // GLX_AUX_BUFFERS
            7 => { self.num_aux_buffers = val; true },
            8 => { self.red_bits = val; true },
            9 => { self.green_bits = val; true },
            10 => { self.blue_bits = val; true },
            11 => { self.alpha_bits = val; true },
            12 => { self.depth_bits = val; true },
            13 => { self.stencil_bits = val; true },
            14 => { self.accum_red_bits = val; true },
            15 => { self.accum_green_bits = val; true },
            16 => { self.accum_blue_bits = val; true },
            17 => { self.accum_alpha_bits = val; true },
            // GLX_VISUAL_CAVEAT_EXT
            0x20 => { self.visual_rating = val; true },
            // GLX_X_VISUAL_TYPE
            0x22 => {
                self.visual_type = match GlVisualType::try_from(val) {
                    Ok(v) => v,
                    Err(_) => GlVisualType::DontCare,
                };
                true
            },
            // GLX_TRANSPARENT_TYPE
            0x23 => { self.transparent_pixel = val; true },
            0x24 => { self.transparent_index = val; true },
            0x25 => { self.transparent_red = val; true },
            0x26 => { self.transparent_green = val; true },
            0x27 => { self.transparent_blue = val; true },
            0x28 => { self.transparent_alpha = val; true },
            // GLX_VISUAL_ID
            0x800B => { self.visual_id = val; true },
            0x8010 => { self.drawable_type = val; true },
            0x8011 => { self.render_type = val; true },
            0x8012 => { self.x_renderable = val; true },
            0x8013 => { self.fbconfig_id = val; true },
            0x8016 => { self.max_pbuffer_width = val; true },
            0x8017 => { self.max_pbuffer_height = val; true },
            0x8018 => { self.max_pbuffer_pixels = val; true },
            0x8019 => { self.optimal_pbuffer_width = val; true },
            0x801A => { self.optimal_pbuffer_height = val; true },
            0x8028 => { self.visual_select_group = val; true },
            // GLX_SWAP_METHOD_OML
            0x8060 => {
                self.swap_method = match GlSwapMethod::try_from(val) {
                    Ok(v) => v,
                    Err(_) => GlSwapMethod::DontCare,
                };
                true
            },
            100000 => { self.sample_buffers = val; true },
            100001 => { self.samples = val; true },
            0x20D0 => { self.bind_to_texture_rgb = val; true },
            0x20D1 => { self.bind_to_texture_rgba = val; true },
            0x20D2 => { self.bind_to_mipmap_texture = val; true },
            0x20D3 => { self.bind_to_texture_targets = val; true },
            0x20D4 => { self.y_inverted = val; true },
            0x20B2 => { self.srgb_capable = val; true },
            // GLX_USE_GL
            1 => fbconfig_style_tags,
            // anything else is skipped with its value
            _ => true,
        }
    }

    /// Apply the untagged header of a visual's property list.
    fn apply_header(&mut self, h: &[u32], little_endian: bool)
        requires
            h.len() >= NONTAGGED_CONFIG_PROPS,
        ensures
            *final(self) == header_applied(*old(self), h@, little_endian),
    {
        self.visual_id = h[0] as i32;
        let word = h[1];
        let first: u8 = if little_endian {
            (word % 256) as u8
        } else {
            (word / 0x100_0000) as u8
        };
        self.visual_type = match visual_class_from_byte(first) {
            Some(v) => v,
            None => GlVisualType::DontCare,
        };
        self.render_type = if h[2] != 0 { RGBA_BIT } else { COLOR_INDEX_BIT };
        self.red_bits = h[3] as i32;
        self.green_bits = h[4] as i32;
        self.blue_bits = h[5] as i32;
        self.alpha_bits = h[6] as i32;
        self.accum_red_bits = h[7] as i32;
        self.accum_green_bits = h[8] as i32;
        self.accum_blue_bits = h[9] as i32;
        self.accum_alpha_bits = h[10] as i32;
        self.double_buffer_mode = h[11];
        self.stereo_mode = h[12];
        self.rgb_bits = h[13] as i32;
        self.depth_bits = h[14] as i32;
        self.stencil_bits = h[15] as i32;
        self.num_aux_buffers = h[16] as i32;
        self.level = h[17] as i32;
    }

    /// Read tagged properties, as many tags as half the list's length at most.
    fn apply_tags(&mut self, props: &[u32], fbconfig_style_tags: bool)
        ensures
            *final(self) == tags_applied(
                *old(self),
                props@,
                0,
                props@.len() / 2,
                fbconfig_style_tags,
            ),
    {
        let steps = props.len() / 2;
        let mut i: usize = 0;
        let mut k: usize = 0;
        let mut stop = false;
        while k < steps && !stop
            invariant
                steps == props@.len() / 2,
                k <= steps,
                i <= 2 * k,
                stop ==> i < props@.len() && props@[i as int] == 0,
                tags_applied(*old(self), props@, 0, steps as nat, fbconfig_style_tags)
                    == tags_applied(*self, props@, i as int, (steps - k) as nat, fbconfig_style_tags),
            decreases steps - k + if stop { 0int } else { 1int },
        {
            let tag = props[i];
            if tag == 0 {
                stop = true;
            } else {
                let val: i32 = if i + 1 < props.len() { props[i + 1] as i32 } else { 0 };
                let used = self.apply_tag(tag, val, fbconfig_style_tags);
                i = if used { i + 2 } else { i + 1 };
                k = k + 1;
            }
        }
    }

    /// Set the values of this configuration from a property list, with the byte order in
    /// which the header's visual class is read given.
    pub fn set_properties_in_order(
        &mut self,
        props: &[u32],
        tagged_only: bool,
        fbconfig_style_tags: bool,
        little_endian: bool,
    )
        requires
            tagged_only || props.len() >= NONTAGGED_CONFIG_PROPS,
        ensures
            *final(self) == properties_applied(
                *old(self),
                props@,
                tagged_only,
                fbconfig_style_tags,
                little_endian,
            ),
    {
        if tagged_only {
            self.apply_tags(props, fbconfig_style_tags);
        } else {
            self.apply_header(props, little_endian);
            let rest = slice_from(props, NONTAGGED_CONFIG_PROPS);
            self.apply_tags(rest, fbconfig_style_tags);
        }
    }

    /// Set the values of this configuration from a property list sent by the X server.
    /// The header's visual class is read from the first byte in memory of its word, so
    /// the result depends on the machine's byte order.
    pub fn set_properties(&mut self, props: &[u32], tagged_only: bool, fbconfig_style_tags: bool)
        requires
            tagged_only || props.len() >= NONTAGGED_CONFIG_PROPS,
        ensures
            exists|le: bool|
                *final(self) == properties_applied(
                    *old(self),
                    props@,
                    tagged_only,
                    fbconfig_style_tags,
                    le,
                ),
    {
        let le = native_is_little_endian();
        self.set_properties_in_order(props, tagged_only, fbconfig_style_tags, le);
    }

    /// A configuration read from a property list, starting from the default one.
    pub fn from_properties(props: &[u32], tagged_only: bool, fbconfig_style_tags: bool) -> (r:
        GlConfig)
        requires
            tagged_only || props.len() >= NONTAGGED_CONFIG_PROPS,
        ensures
            exists|le: bool|
                r == properties_applied(
                    super::default_config(),
                    props@,
                    tagged_only,
                    fbconfig_style_tags,
                    le,
                ),
    {
        let le = native_is_little_endian();
        GlConfig::from_properties_in_order(props, tagged_only, fbconfig_style_tags, le)
    }

    /// A configuration read from a property list, starting from the default one, with the
    /// byte order in which the header's visual class is read given.
    pub fn from_properties_in_order(
        props: &[u32],
        tagged_only: bool,
        fbconfig_style_tags: bool,
        little_endian: bool,
    ) -> (r: GlConfig)
        requires
            tagged_only || props.len() >= NONTAGGED_CONFIG_PROPS,
        ensures
            r == properties_applied(
                super::default_config(),
                props@,
                tagged_only,
                fbconfig_style_tags,
                little_endian,
            ),
    {
        let mut glconfig = GlConfig::default();
        glconfig.set_properties_in_order(props, tagged_only, fbconfig_style_tags, little_endian);
        glconfig
    }

    /// The configurations that a reply of `num_configs` entries of `num_props` values
    /// each describes, in the given byte order. A trailing partial entry is ignored.
    pub fn set_from_properties_in_order(
        props: &[u32],
        num_props: usize,
        num_configs: usize,
        tagged_only: bool,
        little_endian: bool,
    ) -> (r: Vec<GlConfig>)
        requires
            num_props > 0,
            tagged_only || num_props >= NONTAGGED_CONFIG_PROPS || num_configs == 0
                || props@.len() < num_props,
        ensures
            r@ == configs_from_properties(
                props@,
                num_props as nat,
                num_configs as nat,
                tagged_only,
                little_endian,
            ),
    {
        let plen = props.len();
        let chunks = plen / num_props;
        if plen < num_props {
            assert(plen as int / num_props as int == 0) by (nonlinear_arith)
                requires
                    plen < num_props,
            ;
        }
        let n = if num_configs < chunks { num_configs } else { chunks };
        let mut out: Vec<GlConfig> = Vec::new();
        let mut k: usize = 0;
        while k < n
            invariant
                n <= chunks,
                plen == props@.len(),
                chunks == props@.len() / num_props as nat,
                num_props > 0,
                n > 0 ==> (tagged_only || num_props >= NONTAGGED_CONFIG_PROPS),
                n == (if num_configs < chunks { num_configs } else { chunks }),
                k <= n,
                out@.len() == k,
                forall|j: int|
                    0 <= j < k ==> #[trigger] out@[j] == properties_applied(
                        super::default_config(),
                        props@.subrange(j * num_props, (j + 1) * num_props),
                        tagged_only,
                        true,
                        little_endian,
                    ),
            decreases n - k,
        {
            assert((k + 1) * num_props <= props@.len()) by (nonlinear_arith)
                requires
                    k + 1 <= chunks,
                    chunks == props@.len() / num_props as nat,
                    num_props > 0,
            ;
            assert((k + 1) * num_props == k * num_props + num_props) by (nonlinear_arith);
            assert(k * num_props + num_props <= props@.len());
            let start = k * num_props;
            let end = start + num_props;
            let chunk = slice_range(props, start, end);
            let c = GlConfig::from_properties_in_order(chunk, tagged_only, true, little_endian);
            out.push(c);
            k = k + 1;
        }
        proof {
            assert(out@ =~= configs_from_properties(
                props@,
                num_props as nat,
                num_configs as nat,
                tagged_only,
                little_endian,
            ));
        }
        out
    }

    /// The configurations that a reply of `num_configs` entries of `num_props` values
    /// each describes. A trailing partial entry is ignored.
    pub fn set_from_properties(
        props: &[u32],
        num_props: usize,
        num_configs: usize,
        tagged_only: bool,
    ) -> (r: Vec<GlConfig>)
        requires
            num_props > 0,
            tagged_only || num_props >= NONTAGGED_CONFIG_PROPS || num_configs == 0
                || props@.len() < num_props,
        ensures
            exists|le: bool|
                r@ == configs_from_properties(
                    props@,
                    num_props as nat,
                    num_configs as nat,
                    tagged_only,
                    le,
                ),
    {
        let le = native_is_little_endian();
        GlConfig::set_from_properties_in_order(props, num_props, num_configs, tagged_only, le)
    }
}

/// Each configuration read from a reply is the configuration read from its own entry alone:
/// there are as many as both the count and the whole entries allow, and entry `k` is read
/// from values `k * num_props` up to `(k + 1) * num_props`, which lie inside the list.
pub proof fn lemma_entries_read_alone(
    props: Seq<u32>,
    num_props: nat,
    num_configs: nat,
    tagged_only: bool,
    little_endian: bool,
)
    requires
        num_props > 0,
    ensures
        ({
            let cs = configs_from_properties(
                props,
                num_props,
                num_configs,
                tagged_only,
                little_endian,
            );
            &&& cs.len() == if num_configs < props.len() / num_props {
                num_configs
            } else {
                props.len() / num_props
            }
            &&& forall|k: int|
                0 <= k < cs.len() ==> (k + 1) * num_props <= props.len() && #[trigger] cs[k]
                    == properties_applied(
                    super::default_config(),
                    props.subrange(k * num_props, (k + 1) * num_props),
                    tagged_only,
                    true,
                    little_endian,
                )
        }),
{
    let cs = configs_from_properties(props, num_props, num_configs, tagged_only, little_endian);
    assert forall|k: int| 0 <= k < cs.len() implies (k + 1) * num_props <= props.len() && #[trigger] cs[k] == properties_applied(
        super::default_config(),
        props.subrange(k * num_props, (k + 1) * num_props),
        tagged_only,
        true,
        little_endian,
    ) by {
        let q = props.len() / num_props;
        assert(k + 1 <= q);
        assert((k + 1) * num_props <= q * num_props) by (nonlinear_arith)
            requires
                k + 1 <= q,
                num_props > 0,
        ;
        assert(q * num_props <= props.len()) by (nonlinear_arith)
            requires
                q == props.len() / num_props,
                num_props > 0,
        ;
    }
}

/// A tagged-only property list reads the same in either byte order: only the untagged
/// header depends on it.
pub proof fn lemma_tagged_lists_ignore_byte_order(
    c: GlConfig,
    props: Seq<u32>,
    fbconfig_style_tags: bool,
    first: bool,
    second: bool,
)
    ensures
        properties_applied(c, props, true, fbconfig_style_tags, first) == properties_applied(
            c,
            props,
            true,
            fbconfig_style_tags,
            second,
        ),
{
}

/// For tagged-only lists, each configuration that `set_from_properties` gives equals what
/// `from_properties` gives for that entry alone, whatever byte order either call read with:
/// `all` stands for a result of the first and `single` for one of the second.
pub proof fn lemma_tagged_entry_is_single_read(
    props: Seq<u32>,
    num_props: nat,
    num_configs: nat,
    all: Seq<GlConfig>,
    k: int,
    single: GlConfig,
)
    requires
        num_props > 0,
        exists|le: bool| all == configs_from_properties(props, num_props, num_configs, true, le),
        0 <= k < all.len(),
        exists|le: bool|
            single == #[trigger] properties_applied(
                super::default_config(),
                props.subrange(k * num_props, (k + 1) * num_props),
                true,
                true,
                le,
            ),
    ensures
        all[k] == single,
{
    let le1 = choose|le: bool| all == configs_from_properties(props, num_props, num_configs, true, le);
    let le2 = choose|le: bool|
        single == #[trigger] properties_applied(
            super::default_config(),
            props.subrange(k * num_props, (k + 1) * num_props),
            true,
            true,
            le,
        );
    lemma_entries_read_alone(props, num_props, num_configs, true, le1);
    lemma_tagged_lists_ignore_byte_order(
        super::default_config(),
        props.subrange(k * num_props, (k + 1) * num_props),
        true,
        le1,
        le2,
    );
}

/// The part of a slice from `start` on.
fn slice_from(s: &[u32], start: usize) -> (r: &[u32])
    requires
        start <= s.len(),
    ensures
        r@ == s@.skip(start as int),
{
    slice_range(s, start, s.len())
}

/// The part of a slice from `start` to `end`.
fn slice_range(s: &[u32], start: usize, end: usize) -> (r: &[u32])
    requires
        start <= end <= s.len(),
    ensures
        r@ == s@.subrange(start as int, end as int),
{
    vstd::slice::slice_subrange(s, start, end)
}

} // verus!
