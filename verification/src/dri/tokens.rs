//! Tokens of the Mesa DRI driver interface that the DRI logic works with.
use vstd::prelude::*;

verus! {

// Context creation attributes.
pub const DRI_CTX_ATTRIB_MAJOR_VERSION: u32 = 0;
pub const DRI_CTX_ATTRIB_MINOR_VERSION: u32 = 1;
pub const DRI_CTX_ATTRIB_FLAGS: u32 = 2;
pub const DRI_CTX_ATTRIB_RESET_STRATEGY: u32 = 3;
pub const DRI_CTX_ATTRIB_RELEASE_BEHAVIOR: u32 = 5;
pub const DRI_CTX_RESET_LOSE_CONTEXT: u32 = 1;
pub const DRI_CTX_RELEASE_BEHAVIOR_NONE: u32 = 0;
pub const DRI_CTX_FLAG_NO_ERROR: u32 = 8;

// Client APIs.
pub const DRI_API_OPENGL: u32 = 0;
pub const DRI_API_GLES: u32 = 1;
pub const DRI_API_GLES2: u32 = 2;
pub const DRI_API_OPENGL_CORE: u32 = 3;
pub const DRI_API_GLES3: u32 = 4;

// Configuration attributes.
pub const DRI_ATTRIB_BUFFER_SIZE: u32 = 1;
pub const DRI_ATTRIB_LEVEL: u32 = 2;
pub const DRI_ATTRIB_RED_SIZE: u32 = 3;
pub const DRI_ATTRIB_GREEN_SIZE: u32 = 4;
pub const DRI_ATTRIB_BLUE_SIZE: u32 = 5;
pub const DRI_ATTRIB_ALPHA_SIZE: u32 = 7;
pub const DRI_ATTRIB_DEPTH_SIZE: u32 = 9;
pub const DRI_ATTRIB_STENCIL_SIZE: u32 = 10;
pub const DRI_ATTRIB_ACCUM_RED_SIZE: u32 = 11;
pub const DRI_ATTRIB_ACCUM_GREEN_SIZE: u32 = 12;
pub const DRI_ATTRIB_ACCUM_BLUE_SIZE: u32 = 13;
pub const DRI_ATTRIB_ACCUM_ALPHA_SIZE: u32 = 14;
pub const DRI_ATTRIB_SAMPLE_BUFFERS: u32 = 15;
pub const DRI_ATTRIB_SAMPLES: u32 = 16;
pub const DRI_ATTRIB_RENDER_TYPE: u32 = 17;
pub const DRI_ATTRIB_CONFIG_CAVEAT: u32 = 18;
pub const DRI_ATTRIB_DOUBLE_BUFFER: u32 = 20;
pub const DRI_ATTRIB_STEREO: u32 = 21;
pub const DRI_ATTRIB_AUX_BUFFERS: u32 = 22;
pub const DRI_ATTRIB_MAX_PBUFFER_WIDTH: u32 = 34;
pub const DRI_ATTRIB_MAX_PBUFFER_HEIGHT: u32 = 35;
pub const DRI_ATTRIB_MAX_PBUFFER_PIXELS: u32 = 36;
pub const DRI_ATTRIB_OPTIMAL_PBUFFER_WIDTH: u32 = 37;
pub const DRI_ATTRIB_OPTIMAL_PBUFFER_HEIGHT: u32 = 38;
pub const DRI_ATTRIB_SWAP_METHOD: u32 = 40;
pub const DRI_ATTRIB_BIND_TO_TEXTURE_RGB: u32 = 43;
pub const DRI_ATTRIB_BIND_TO_TEXTURE_RGBA: u32 = 44;
pub const DRI_ATTRIB_BIND_TO_MIPMAP_TEXTURE: u32 = 45;
pub const DRI_ATTRIB_BIND_TO_TEXTURE_TARGETS: u32 = 46;
pub const DRI_ATTRIB_YINVERTED: u32 = 47;
pub const DRI_ATTRIB_FRAMEBUFFER_SRGB_CAPABLE: u32 = 48;

// Bits of the render type attribute.
pub const DRI_ATTRIB_COLOR_INDEX_BIT: u32 = 0x02;
pub const DRI_ATTRIB_FLOAT_BIT: u32 = 0x08;
pub const DRI_ATTRIB_UNSIGNED_FLOAT_BIT: u32 = 0x10;

// Bits of the configuration caveat attribute.
pub const DRI_ATTRIB_SLOW_BIT: u32 = 0x01;
pub const DRI_ATTRIB_NON_CONFORMANT_CONFIG: u32 = 0x02;

// Bits of the texture targets attribute.
pub const DRI_ATTRIB_TEXTURE_1D_BIT: u32 = 0x01;
pub const DRI_ATTRIB_TEXTURE_2D_BIT: u32 = 0x02;
pub const DRI_ATTRIB_TEXTURE_RECTANGLE_BIT: u32 = 0x04;

// Swap methods.
pub const DRI_ATTRIB_SWAP_EXCHANGE: u32 = 0x8061;
pub const DRI_ATTRIB_SWAP_COPY: u32 = 0x8062;
pub const DRI_ATTRIB_SWAP_UNDEFINED: u32 = 0x8063;

// Image buffer masks of the image loader.
pub const DRI_IMAGE_BUFFER_FRONT: u32 = 0x1;
pub const DRI_IMAGE_BUFFER_BACK: u32 = 0x2;

// Image formats.
pub const DRI_IMAGE_FORMAT_RGB565: u32 = 0x1001;
pub const DRI_IMAGE_FORMAT_XRGB8888: u32 = 0x1002;
pub const DRI_IMAGE_FORMAT_ARGB8888: u32 = 0x1003;
pub const DRI_IMAGE_FORMAT_ABGR8888: u32 = 0x1004;
pub const DRI_IMAGE_FORMAT_XBGR8888: u32 = 0x1005;
pub const DRI_IMAGE_FORMAT_R8: u32 = 0x1006;
pub const DRI_IMAGE_FORMAT_GR88: u32 = 0x1007;
pub const DRI_IMAGE_FORMAT_XRGB2101010: u32 = 0x1009;
pub const DRI_IMAGE_FORMAT_ARGB2101010: u32 = 0x100a;
pub const DRI_IMAGE_FORMAT_SARGB8: u32 = 0x100b;
pub const DRI_IMAGE_FORMAT_XBGR2101010: u32 = 0x1010;
pub const DRI_IMAGE_FORMAT_ABGR2101010: u32 = 0x1011;
pub const DRI_IMAGE_FORMAT_SABGR8: u32 = 0x1012;
pub const DRI_IMAGE_FORMAT_XBGR16161616F: u32 = 0x1014;
pub const DRI_IMAGE_FORMAT_ABGR16161616F: u32 = 0x1015;
pub const DRI_IMAGE_FORMAT_SXRGB8: u32 = 0x1016;

// Fourcc codes of the sRGB formats.
pub const DRI_IMAGE_FOURCC_SARGB8888: u32 = 0x83324258;
pub const DRI_IMAGE_FOURCC_SABGR8888: u32 = 0x84324258;
pub const DRI_IMAGE_FOURCC_SXRGB8888: u32 = 0x85324258;

} // verus!
