//! Numeric tokens of the GLX protocol that the configuration logic works with.
use vstd::prelude::*;

verus! {

pub const GLX_FBCONFIG_ID: i32 = 0x8013;
/// `GLX_DONT_CARE`, which is `0xFFFFFFFF` read as a signed integer.
pub const DONT_CARE: i32 = -1;
/// `GLX_DONT_CARE` in the unsigned fields of a configuration.
pub const DONT_CARE_U: u32 = 0xFFFF_FFFF;
pub const CONFIG_NONE: i32 = 0x8000;
pub const WINDOW_BIT: i32 = 0x1;
pub const PIXMAP_BIT: i32 = 0x2;
pub const PBUFFER_BIT: i32 = 0x4;
pub const RGBA_BIT: i32 = 0x1;
pub const COLOR_INDEX_BIT: i32 = 0x2;
pub const TRANSPARENT_RGB: i32 = 0x8008;
pub const TRANSPARENT_INDEX: i32 = 0x8009;
pub const RGBA_TYPE: i32 = 0x8014;
pub const COLOR_INDEX_TYPE: i32 = 0x8015;
pub const NON_CONFORMANT_CONFIG: i32 = 0x800D;
pub const SLOW_CONFIG: i32 = 0x8001;
pub const RGBA_FLOAT_BIT_ARB: i32 = 0x4;
pub const RGBA_UNSIGNED_FLOAT_BIT_EXT: i32 = 0x8;
pub const TEXTURE_1D_BIT_EXT: i32 = 0x1;
pub const TEXTURE_2D_BIT_EXT: i32 = 0x2;
pub const TEXTURE_RECTANGLE_BIT_EXT: i32 = 0x4;

pub const BUFFER_SIZE: i32 = 2;
pub const LEVEL: i32 = 3;
pub const DOUBLEBUFFER_MODE: i32 = 5;
pub const STEREO_MODE: i32 = 6;
pub const AUX_BUFFERS: i32 = 7;
pub const RED_SIZE: i32 = 8;
pub const GREEN_SIZE: i32 = 9;
pub const BLUE_SIZE: i32 = 10;
pub const ALPHA_SIZE: i32 = 11;
pub const DEPTH_SIZE: i32 = 12;
pub const STENCIL_SIZE: i32 = 13;
pub const ACCUM_RED_SIZE: i32 = 14;
pub const ACCUM_GREEN_SIZE: i32 = 15;
pub const ACCUM_BLUE_SIZE: i32 = 16;
pub const ACCUM_ALPHA_SIZE: i32 = 17;
pub const VISUAL_CAVEAT_EXT: i32 = 0x20;
pub const VISUAL_TYPE: i32 = 0x22;
pub const TRANSPARENT_TYPE: i32 = 0x23;
/// The attribute tag `GLX_TRANSPARENT_INDEX_VALUE`.
pub const TRANSPARENT_INDEX_VALUE: i32 = 0x24;
pub const TRANSPARENT_RED: i32 = 0x25;
pub const TRANSPARENT_GREEN: i32 = 0x26;
pub const TRANSPARENT_BLUE: i32 = 0x27;
pub const TRANSPARENT_ALPHA: i32 = 0x28;
pub const VISUAL_ID: i32 = 0x800B;
pub const DRAWABLE_TYPE: i32 = 0x8010;
pub const RENDER_TYPE: i32 = 0x8011;
pub const X_RENDERABLE: i32 = 0x8012;

pub const TRUE_COLOR: i32 = 0x8002;
pub const DIRECT_COLOR: i32 = 0x8003;
pub const PSEUDO_COLOR: i32 = 0x8004;
pub const STATIC_COLOR: i32 = 0x8005;
pub const GRAY_SCALE: i32 = 0x8006;
pub const STATIC_GRAY: i32 = 0x8007;

pub const MAJOR_VERSION_ARB: i32 = 0x2091;
pub const MINOR_VERSION_ARB: i32 = 0x2092;
pub const FLAGS_ARB: i32 = 0x2094;
pub const NO_ERROR_ARB: i32 = 0x31B3;

pub const PROFILE_MASK_ARB: i32 = 0x9126;
pub const CORE_PROFILE_BIT_ARB: i32 = 0x1;
pub const COMPAT_PROFILE_BIT_ARB: i32 = 0x2;
pub const ES_PROFILE_BIT_ARB: i32 = 0x4;

pub const RENDER_TYPE_ARB: i32 = 0x8011;

pub const RESET_NOTIFICATION_STRATEGY: i32 = 0x8256;
pub const NO_RESET_NOTIFICATION: i32 = 0x8261;
pub const LOSE_CONTEXT_RESET_NOTIFICATION: i32 = 0x8252;

pub const RELEASE_BEHAVIOR_ARB: i32 = 0x2097;
pub const NONE_RELEASE_BEHAVIOR_ARB: i32 = 0;
pub const FLUSH_RELEASE_BEHAVIOR_ARB: i32 = 0x2098;

} // verus!
