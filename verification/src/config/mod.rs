//! Framebuffer and visual configurations, and the rules used to select them.
use vstd::prelude::*;

pub mod values;
pub mod compatible;
pub mod construct;

use values::{
    CONFIG_NONE, DIRECT_COLOR, DONT_CARE, GRAY_SCALE, PSEUDO_COLOR, STATIC_COLOR, STATIC_GRAY,
    TRUE_COLOR,
};

verus! {

/// A visual type for the GlConfig.
#[derive(Debug, Copy, Clone, PartialEq, Eq, Structural, PartialOrd, Ord, Hash)]
pub enum GlVisualType {
    TrueColor,
    DirectColor,
    PseudoColor,
    StaticColor,
    GrayScale,
    StaticGray,
    DontCare,
}

/// The visual type that a GLX token names, or `None` for a token that names none.
pub open spec fn visual_type_of_token(i: i32) -> Option<GlVisualType> {
    if i == TRUE_COLOR {
        Some(GlVisualType::TrueColor)
    } else if i == DIRECT_COLOR {
        Some(GlVisualType::DirectColor)
    } else if i == PSEUDO_COLOR {
        Some(GlVisualType::PseudoColor)
    } else if i == STATIC_COLOR {
        Some(GlVisualType::StaticColor)
    } else if i == GRAY_SCALE {
        Some(GlVisualType::GrayScale)
    } else if i == STATIC_GRAY {
        Some(GlVisualType::StaticGray)
    } else if i == DONT_CARE {
        Some(GlVisualType::DontCare)
    } else {
        None
    }
}

impl GlVisualType {
    /// Convert a GLX visual type token into a visual type; an unknown token is handed back.
    pub fn try_from(i: i32) -> (r: Result<GlVisualType, i32>)
        ensures
            match visual_type_of_token(i) {
                Some(v) => r == Ok::<GlVisualType, i32>(v),
                None => r == Err::<GlVisualType, i32>(i),
            },
    {
        match i {
            0x8002 => Ok(GlVisualType::TrueColor),
            0x8003 => Ok(GlVisualType::DirectColor),
            0x8004 => Ok(GlVisualType::PseudoColor),
            0x8005 => Ok(GlVisualType::StaticColor),
            0x8006 => Ok(GlVisualType::GrayScale),
            0x8007 => Ok(GlVisualType::StaticGray),
            -1 => Ok(GlVisualType::DontCare),
            i => Err(i),
        }
    }
}

/// Swap method.
#[derive(Debug, Copy, Clone, PartialEq, Eq, Structural, PartialOrd, Ord, Hash)]
pub enum GlSwapMethod {
    Exchange,
    Copy,
    Undefined,
    DontCare,
}

/// `GLX_SWAP_EXCHANGE_OML`
pub const SWAP_EXCHANGE_OML: i32 = 0x8061;
/// `GLX_SWAP_COPY_OML`
pub const SWAP_COPY_OML: i32 = 0x8062;
/// `GLX_SWAP_UNDEFINED_OML`
pub const SWAP_UNDEFINED_OML: i32 = 0x8063;

/// The swap method that a GLX token names, or `None` for a token that names none.
pub open spec fn swap_method_of_token(i: i32) -> Option<GlSwapMethod> {
    if i == SWAP_EXCHANGE_OML {
        Some(GlSwapMethod::Exchange)
    } else if i == SWAP_COPY_OML {
        Some(GlSwapMethod::Copy)
    } else if i == SWAP_UNDEFINED_OML {
        Some(GlSwapMethod::Undefined)
    } else if i == DONT_CARE {
        Some(GlSwapMethod::DontCare)
    } else {
        None
    }
}

impl GlSwapMethod {
    /// Convert a GLX swap method token into a swap method; an unknown token is handed back.
    pub fn try_from(i: i32) -> (r: Result<GlSwapMethod, i32>)
        ensures
            match swap_method_of_token(i) {
                Some(v) => r == Ok::<GlSwapMethod, i32>(v),
                None => r == Err::<GlSwapMethod, i32>(i),
            },
    {
        match i {
            0x8061 => Ok(GlSwapMethod::Exchange),
            0x8062 => Ok(GlSwapMethod::Copy),
            0x8063 => Ok(GlSwapMethod::Undefined),
            -1 => Ok(GlSwapMethod::DontCare),
            _ => Err(i),
        }
    }
}

/// The values associated with the configuration of a framebuffer or a visual.
#[derive(Debug, Copy, Clone, PartialEq, Eq, Structural, PartialOrd, Ord, Hash)]
pub struct GlConfig {
    pub double_buffer_mode: u32,
    pub stereo_mode: u32,
    // bits per component
    pub red_bits: i32,
    pub green_bits: i32,
    pub blue_bits: i32,
    pub alpha_bits: i32,
    pub red_mask: u32,
    pub green_mask: u32,
    pub blue_mask: u32,
    pub alpha_mask: u32,
    pub red_shift: u32,
    pub green_shift: u32,
    pub blue_shift: u32,
    pub alpha_shift: u32,
    /// Total bits for RGB
    pub rgb_bits: i32,
    /// Total bits for colorindex
    pub color_index: i32,
    pub num_aux_buffers: i32,
    pub level: i32,
    pub accum_red_bits: i32,
    pub accum_green_bits: i32,
    pub accum_blue_bits: i32,
    pub accum_alpha_bits: i32,
    pub depth_bits: i32,
    pub stencil_bits: i32,
    pub visual_id: i32,
    pub visual_type: GlVisualType,
    pub visual_rating: i32,
    pub transparent_pixel: i32,
    pub transparent_red: i32,
    pub transparent_green: i32,
    pub transparent_blue: i32,
    pub transparent_alpha: i32,
    pub transparent_index: i32,
    pub sample_buffers: i32,
    pub samples: i32,
    pub drawable_type: i32,
    pub render_type: i32,
    pub x_renderable: i32,
    pub fbconfig_id: i32,
    pub max_pbuffer_width: i32,
    pub max_pbuffer_height: i32,
    pub max_pbuffer_pixels: i32,
    pub optimal_pbuffer_width: i32,
    pub optimal_pbuffer_height: i32,
    pub visual_select_group: i32,
    pub swap_method: GlSwapMethod,
    pub screen: i32,
    pub bind_to_texture_rgb: i32,
    pub bind_to_texture_rgba: i32,
    pub bind_to_mipmap_texture: i32,
    pub bind_to_texture_targets: i32,
    pub y_inverted: i32,
    pub srgb_capable: i32,
}

/// The configuration that `GlConfig::default` gives: every value zero, except the
/// values that GLX leaves undecided, which are "don't care" or "none".
pub open spec fn default_config() -> GlConfig {
    GlConfig {
        double_buffer_mode: 0,
        stereo_mode: 0,
        red_bits: 0,
        green_bits: 0,
        blue_bits: 0,
        alpha_bits: 0,
        red_mask: 0,
        green_mask: 0,
        blue_mask: 0,
        alpha_mask: 0,
        red_shift: 0,
        green_shift: 0,
        blue_shift: 0,
        alpha_shift: 0,
        rgb_bits: 0,
        color_index: 0,
        num_aux_buffers: 0,
        level: 0,
        accum_red_bits: 0,
        accum_green_bits: 0,
        accum_blue_bits: 0,
        accum_alpha_bits: 0,
        depth_bits: 0,
        stencil_bits: 0,
        visual_id: DONT_CARE,
        visual_type: GlVisualType::DontCare,
        visual_rating: CONFIG_NONE,
        transparent_pixel: CONFIG_NONE,
        transparent_red: DONT_CARE,
        transparent_green: DONT_CARE,
        transparent_blue: DONT_CARE,
        transparent_alpha: DONT_CARE,
        transparent_index: DONT_CARE,
        sample_buffers: 0,
        samples: 0,
        drawable_type: 0,
        render_type: 0,
        x_renderable: DONT_CARE,
        fbconfig_id: DONT_CARE,
        max_pbuffer_width: 0,
        max_pbuffer_height: 0,
        max_pbuffer_pixels: 0,
        optimal_pbuffer_width: 0,
        optimal_pbuffer_height: 0,
        visual_select_group: 0,
        swap_method: GlSwapMethod::Undefined,
        screen: 0,
        bind_to_texture_rgb: DONT_CARE,
        bind_to_texture_rgba: DONT_CARE,
        bind_to_mipmap_texture: DONT_CARE,
        bind_to_texture_targets: DONT_CARE,
        y_inverted: DONT_CARE,
        srgb_capable: DONT_CARE,
    }
}

impl Default for GlConfig {
    fn default() -> (r: GlConfig)
        ensures
            r == default_config(),
    {
        GlConfig {
            double_buffer_mode: 0,
            stereo_mode: 0,
            red_bits: 0,
            green_bits: 0,
            blue_bits: 0,
            alpha_bits: 0,
            red_mask: 0,
            green_mask: 0,
            blue_mask: 0,
            alpha_mask: 0,
            red_shift: 0,
            green_shift: 0,
            blue_shift: 0,
            alpha_shift: 0,
            rgb_bits: 0,
            color_index: 0,
            num_aux_buffers: 0,
            level: 0,
            accum_red_bits: 0,
            accum_green_bits: 0,
            accum_blue_bits: 0,
            accum_alpha_bits: 0,
            depth_bits: 0,
            stencil_bits: 0,
            visual_id: DONT_CARE,
            visual_type: GlVisualType::DontCare,
            visual_rating: CONFIG_NONE,
            transparent_pixel: CONFIG_NONE,
            transparent_red: DONT_CARE,
            transparent_green: DONT_CARE,
            transparent_blue: DONT_CARE,
            transparent_alpha: DONT_CARE,
            transparent_index: DONT_CARE,
            sample_buffers: 0,
            samples: 0,
            drawable_type: 0,
            render_type: 0,
            x_renderable: DONT_CARE,
            fbconfig_id: DONT_CARE,
            max_pbuffer_width: 0,
            max_pbuffer_height: 0,
            max_pbuffer_pixels: 0,
            optimal_pbuffer_width: 0,
            optimal_pbuffer_height: 0,
            visual_select_group: 0,
            swap_method: GlSwapMethod::Undefined,
            screen: 0,
            bind_to_texture_rgb: DONT_CARE,
            bind_to_texture_rgba: DONT_CARE,
            bind_to_mipmap_texture: DONT_CARE,
            bind_to_texture_targets: DONT_CARE,
            y_inverted: DONT_CARE,
            srgb_capable: DONT_CARE,
        }
    }
}

/// A rule on one field of a GlConfig: the value that a matching configuration should have.
#[derive(Debug, Copy, Clone, PartialEq, Eq, Structural)]
pub enum GlConfigRule {
    DoubleBufferMode(u32),
    StereoMode(u32),
    RedBits(i32),
    GreenBits(i32),
    BlueBits(i32),
    AlphaBits(i32),
    RedMask(u32),
    GreenMask(u32),
    BlueMask(u32),
    AlphaMask(u32),
    RedShift(u32),
    GreenShift(u32),
    BlueShift(u32),
    AlphaShift(u32),
    RgbBits(i32),
    ColorIndex(i32),
    AccumRedBits(i32),
    AccumGreenBits(i32),
    AccumBlueBits(i32),
    AccumAlphaBits(i32),
    DepthBits(i32),
    StencilBits(i32),
    VisualId(i32),
    VisualType(GlVisualType),
    VisualRating(i32),
    TransparentPixel(i32),
    TransparentRed(i32),
    TransparentGreen(i32),
    TransparentBlue(i32),
    TransparentAlpha(i32),
    TransparentIndex(i32),
    SampleBuffers(i32),
    Samples(i32),
    DrawableType(i32),
    RenderType(i32),
    XRenderable(i32),
    FbconfigId(i32),
    MaxPbufferWidth(i32),
    MaxPbufferHeight(i32),
    MaxPbufferPixels(i32),
    OptimalPbufferWidth(i32),
    OptimalPbufferHeight(i32),
    VisualSelectGroup(i32),
    SwapMethod(GlSwapMethod),
    Screen(i32),
    BindToTextureRgb(i32),
    BindToTextureRgba(i32),
    BindToMipmapTexture(i32),
    BindToTextureTargets(i32),
    YInverted(i32),
    SrgbCapable(i32),
    Level(i32),
    NumAuxBuffers(i32),
}


/// The GLX swap method tokens of GLX_OML_swap_method: exchange is 0x8061, copy 0x8062,
/// undefined 0x8063, and "don't care" is -1; no other token names a swap method, and each
/// method has one token.
pub proof fn lemma_swap_method_tokens(token: i32, other: i32)
    ensures
        swap_method_of_token(0x8061) == Some(GlSwapMethod::Exchange),
        swap_method_of_token(0x8062) == Some(GlSwapMethod::Copy),
        swap_method_of_token(0x8063) == Some(GlSwapMethod::Undefined),
        swap_method_of_token(-1i32) == Some(GlSwapMethod::DontCare),
        (swap_method_of_token(token) is Some) <==> (token == -1 || 0x8061 <= token <= 0x8063),
        swap_method_of_token(token) is Some && swap_method_of_token(token) == swap_method_of_token(other)
            ==> token == other,
{
}

/// Each visual type has one GLX token: two tokens that name a visual type name the same one
/// only when they are the same token.
pub proof fn lemma_visual_type_tokens_distinct(token: i32, other: i32)
    ensures
        visual_type_of_token(token) is Some && visual_type_of_token(token) == visual_type_of_token(other)
            ==> token == other,
{
}

} // verus!
