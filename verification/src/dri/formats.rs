//! Image formats and format modifiers of DRI3 buffers: bytes per pixel, fourcc codes, the
//! linear twin of a format, and the choice of modifiers and of how a buffer is shared.
use vstd::prelude::*;

use super::tokens::{
    DRI_IMAGE_FORMAT_ABGR16161616F, DRI_IMAGE_FORMAT_ABGR2101010, DRI_IMAGE_FORMAT_ABGR8888,
    DRI_IMAGE_FORMAT_ARGB2101010, DRI_IMAGE_FORMAT_ARGB8888, DRI_IMAGE_FORMAT_RGB565,
    DRI_IMAGE_FORMAT_SABGR8, DRI_IMAGE_FORMAT_SARGB8, DRI_IMAGE_FORMAT_SXRGB8,
    DRI_IMAGE_FORMAT_XBGR16161616F, DRI_IMAGE_FORMAT_XBGR2101010, DRI_IMAGE_FORMAT_XBGR8888,
    DRI_IMAGE_FORMAT_XRGB2101010, DRI_IMAGE_FORMAT_XRGB8888, DRI_IMAGE_FOURCC_SABGR8888,
    DRI_IMAGE_FOURCC_SARGB8888, DRI_IMAGE_FOURCC_SXRGB8888,
};

verus! {

/// The modifier that stands for "unknown": every bit of the reserved format range.
pub const DRM_CORRUPTED_MODIFIER: u64 = 0x00ff_ffff_ffff_ffff;

// Image usage flags.
pub const DRI_IMAGE_USE_SHARE: u32 = 0x0001;
pub const DRI_IMAGE_USE_SCANOUT: u32 = 0x0002;
pub const DRI_IMAGE_USE_LINEAR: u32 = 0x0008;
pub const DRI_IMAGE_USE_BACKBUFFER: u32 = 0x0010;

/// Bytes per pixel of an image format, where it is known.
pub open spec fn cpp_of(format: u32) -> Option<u32> {
    if format == 4102 {
        Some(1u32)
    } else if format == 4097 || format == 4103 {
        Some(2u32)
    } else if format == 4098 || format == 4099 || format == 4100 || format == 4101 || format == 4105
        || format == 4106
        || format == 4112 || format == 4113 || format == 4107 || format == 4114 || format == 4118 {
        Some(4u32)
    } else if format == 4116 || format == 4117 {
        Some(8u32)
    } else {
        None
    }
}

pub fn cpp_for_format(format: u32) -> (r: Option<u32>)
    ensures
        r == cpp_of(format),
{
    if format == 4102 {
        Some(1)
    } else if format == 4097 || format == 4103 {
        Some(2)
    } else if format == 4098 || format == 4099 || format == 4100 || format == 4101 || format == 4105
        || format == 4106
        || format == 4112 || format == 4113 || format == 4107 || format == 4114 || format == 4118 {
        Some(4)
    } else if format == 4116 || format == 4117 {
        Some(8)
    } else {
        None
    }
}

/// A fourcc code: four ASCII bytes, the first in the lowest byte.
pub open spec fn fourcc(a: u8, b: u8, c: u8, d: u8) -> i32 {
    (a + 256 * b + 65536 * c + 16777216 * d) as i32
}

pub fn fourcc_code(a: u8, b: u8, c: u8, d: u8) -> (r: i32)
    requires
        a < 128 && b < 128 && c < 128 && d < 128,
    ensures
        r == fourcc(a, b, c, d),
{
    (a as u32 + (b as u32) * 256 + (c as u32) * 65536 + (d as u32) * 16777216) as i32
}

/// The fourcc code of an image format; 0 for one it does not know.
pub open spec fn fourcc_of(format: u32) -> i32 {
    if format == DRI_IMAGE_FORMAT_SARGB8 {
        DRI_IMAGE_FOURCC_SARGB8888 as i32
    } else if format == DRI_IMAGE_FORMAT_SABGR8 {
        DRI_IMAGE_FOURCC_SABGR8888 as i32
    } else if format == DRI_IMAGE_FORMAT_SXRGB8 {
        DRI_IMAGE_FOURCC_SXRGB8888 as i32
    } else if format == DRI_IMAGE_FORMAT_RGB565 {
        fourcc(82, 71, 49, 54)  // "RG16"
    } else if format == DRI_IMAGE_FORMAT_XRGB8888 {
        fourcc(88, 82, 50, 52)  // "XR24"
    } else if format == DRI_IMAGE_FORMAT_ARGB8888 {
        fourcc(65, 82, 50, 52)  // "AR24"
    } else if format == DRI_IMAGE_FORMAT_ABGR8888 {
        fourcc(65, 66, 50, 52)  // "AB24"
    } else if format == DRI_IMAGE_FORMAT_XBGR8888 {
        fourcc(88, 66, 50, 52)  // "XB24"
    } else if format == DRI_IMAGE_FORMAT_XRGB2101010 {
        fourcc(88, 82, 51, 48)  // "XR30"
    } else if format == DRI_IMAGE_FORMAT_ARGB2101010 {
        fourcc(65, 82, 51, 48)  // "AR30"
    } else if format == DRI_IMAGE_FORMAT_XBGR2101010 {
        fourcc(88, 66, 51, 48)  // "XB30"
    } else if format == DRI_IMAGE_FORMAT_ABGR2101010 {
        fourcc(65, 66, 51, 48)  // "AB30"
    } else if format == DRI_IMAGE_FORMAT_XBGR16161616F {
        fourcc(88, 66, 52, 72)  // "XB4H"
    } else if format == DRI_IMAGE_FORMAT_ABGR16161616F {
        fourcc(65, 66, 52, 72)  // "AB4H"
    } else {
        0
    }
}

pub fn image_format_to_fourcc(format: u32) -> (r: i32)
    ensures
        r == fourcc_of(format),
{
    if format == DRI_IMAGE_FORMAT_SARGB8 {
        DRI_IMAGE_FOURCC_SARGB8888 as i32
    } else if format == DRI_IMAGE_FORMAT_SABGR8 {
        DRI_IMAGE_FOURCC_SABGR8888 as i32
    } else if format == DRI_IMAGE_FORMAT_SXRGB8 {
        DRI_IMAGE_FOURCC_SXRGB8888 as i32
    } else if format == DRI_IMAGE_FORMAT_RGB565 {
        fourcc_code(82, 71, 49, 54)  // "RG16"
    } else if format == DRI_IMAGE_FORMAT_XRGB8888 {
        fourcc_code(88, 82, 50, 52)  // "XR24"
    } else if format == DRI_IMAGE_FORMAT_ARGB8888 {
        fourcc_code(65, 82, 50, 52)  // "AR24"
    } else if format == DRI_IMAGE_FORMAT_ABGR8888 {
        fourcc_code(65, 66, 50, 52)  // "AB24"
    } else if format == DRI_IMAGE_FORMAT_XBGR8888 {
        fourcc_code(88, 66, 50, 52)  // "XB24"
    } else if format == DRI_IMAGE_FORMAT_XRGB2101010 {
        fourcc_code(88, 82, 51, 48)  // "XR30"
    } else if format == DRI_IMAGE_FORMAT_ARGB2101010 {
        fourcc_code(65, 82, 51, 48)  // "AR30"
    } else if format == DRI_IMAGE_FORMAT_XBGR2101010 {
        fourcc_code(88, 66, 51, 48)  // "XB30"
    } else if format == DRI_IMAGE_FORMAT_ABGR2101010 {
        fourcc_code(65, 66, 51, 48)  // "AB30"
    } else if format == DRI_IMAGE_FORMAT_XBGR16161616F {
        fourcc_code(88, 66, 52, 72)  // "XB4H"
    } else if format == DRI_IMAGE_FORMAT_ABGR16161616F {
        fourcc_code(65, 66, 52, 72)  // "AB4H"
    } else {
        0
    }
}

/// One depth that a screen of the display allows, with the red mask of its first visual
/// when it has any visual.
#[derive(Debug, Copy, Clone, PartialEq, Eq, Structural)]
pub struct AllowedDepth {
    pub depth: u8,
    pub first_red_mask: Option<u32>,
}

/// The red mask of the first visual of the first allowed depth `depth` that has a visual;
/// 0 when there is none.
pub open spec fn red_mask_of(depths: Seq<AllowedDepth>, depth: u8) -> u32
    decreases depths.len(),
{
    if depths.len() == 0 {
        0
    } else if depths[0].depth == depth && depths[0].first_red_mask is Some {
        depths[0].first_red_mask->Some_0
    } else {
        red_mask_of(depths.drop_first(), depth)
    }
}

pub fn red_mask_for_depth(depths: &[AllowedDepth], depth: u8) -> (r: u32)
    ensures
        r == red_mask_of(depths@, depth),
{
    let mut i: usize = 0;
    assert(depths@.skip(0) =~= depths@);
    while i < depths.len()
        invariant
            i <= depths@.len(),
            red_mask_of(depths@, depth) == red_mask_of(depths@.skip(i as int), depth),
        decreases depths@.len() - i,
    {
        assert(depths@.skip(i as int).drop_first() =~= depths@.skip(i + 1));
        let d = depths[i];
        if d.depth == depth {
            match d.first_red_mask {
                Some(mask) => {
                    return mask;
                },
                None => {},
            }
        }
        i = i + 1;
    }
    0
}

/// The format of the linear buffer that shares an image of `format` with another GPU: a
/// 10-bit format follows the channel order of the display's 30-bit visuals (red in the low
/// bits when their red mask is 0x3ff); every other format stays.
pub open spec fn linear_format_of(format: u32, red_mask_30: u32) -> u32 {
    if format == DRI_IMAGE_FORMAT_XRGB2101010 || format == DRI_IMAGE_FORMAT_XBGR2101010 {
        if red_mask_30 == 0x3ff {
            DRI_IMAGE_FORMAT_XBGR2101010
        } else {
            DRI_IMAGE_FORMAT_XRGB2101010
        }
    } else if format == DRI_IMAGE_FORMAT_ARGB2101010 || format == DRI_IMAGE_FORMAT_ABGR2101010 {
        if red_mask_30 == 0x3ff {
            DRI_IMAGE_FORMAT_ABGR2101010
        } else {
            DRI_IMAGE_FORMAT_ARGB2101010
        }
    } else {
        format
    }
}

pub fn linear_format(depths: &[AllowedDepth], format: u32) -> (r: u32)
    ensures
        r == linear_format_of(format, red_mask_of(depths@, 30)),
{
    if format == DRI_IMAGE_FORMAT_XRGB2101010 || format == DRI_IMAGE_FORMAT_XBGR2101010 {
        if red_mask_for_depth(depths, 30) == 0x3ff {
            DRI_IMAGE_FORMAT_XBGR2101010
        } else {
            DRI_IMAGE_FORMAT_XRGB2101010
        }
    } else if format == DRI_IMAGE_FORMAT_ARGB2101010 || format == DRI_IMAGE_FORMAT_ABGR2101010 {
        if red_mask_for_depth(depths, 30) == 0x3ff {
            DRI_IMAGE_FORMAT_ABGR2101010
        } else {
            DRI_IMAGE_FORMAT_ARGB2101010
        }
    } else {
        format
    }
}

/// Whether two lists of modifiers share one.
pub open spec fn share_modifier(a: Seq<u64>, b: Seq<u64>) -> bool {
    exists|i: int, j: int| 0 <= i < a.len() && 0 <= j < b.len() && a[i] == b[j]
}

fn shares_modifier(d: &[u64], modifiers: &[u64]) -> (r: bool)
    ensures
        r == share_modifier(d@, modifiers@),
{
    let mut i: usize = 0;
    while i < d.len()
        invariant
            i <= d@.len(),
            forall|a: int, b: int| 0 <= a < i && 0 <= b < modifiers@.len() ==> d@[a] != modifiers@[b],
        decreases d@.len() - i,
    {
        let mut j: usize = 0;
        while j < modifiers.len()
            invariant
                i < d@.len(),
                j <= modifiers@.len(),
                forall|a: int, b: int| 0 <= a < i && 0 <= b < modifiers@.len() ==> d@[a] != modifiers@[b],
                forall|b: int| 0 <= b < j ==> d@[i as int] != modifiers@[b],
            decreases modifiers@.len() - j,
        {
            if d[i] == modifiers[j] {
                assert(d@[i as int] == modifiers@[j as int]);
                return true;
            }
            j = j + 1;
        }
        i = i + 1;
    }
    false
}

/// Whether the driver supports one of `modifiers` for a format, given what the driver
/// reported for the format (nothing when its query failed or is missing).
pub fn has_supported_modifier(driver_modifiers: Option<&[u64]>, modifiers: &[u64]) -> (r: bool)
    ensures
        r == match driver_modifiers {
            Some(d) => share_modifier(d@, modifiers@),
            None => false,
        },
{
    match driver_modifiers {
        Some(d) => shares_modifier(d, modifiers),
        None => false,
    }
}

/// The modifiers a new buffer is created with: the window's when there are any and the
/// driver supports one of them, else the screen's when there are any, else none.
pub fn choose_modifiers(window: Vec<u64>, screen: Vec<u64>, window_supported: bool) -> (r: Option<Vec<u64>>)
    ensures
        r == (if window@.len() > 0 && window_supported {
            Some(window)
        } else if screen@.len() > 0 {
            Some(screen)
        } else {
            None
        }),
{
    if window.len() > 0 && window_supported {
        Some(window)
    } else if screen.len() > 0 {
        Some(screen)
    } else {
        None
    }
}

/// Whether a buffer may be created with modifiers: multiple planes are available and the
/// image extension (version 15 or later) can both query and create with modifiers.
pub fn modifiers_usable(multiplanes_available: bool, image_version: i32, has_query: bool, has_create: bool) -> (r: bool)
    ensures
        r == (multiplanes_available && image_version >= 15 && has_query && has_create),
{
    multiplanes_available && image_version >= 15 && has_query && has_create
}

/// The modifier of a buffer from its two 32-bit halves, each read back from the driver
/// (sign-extended, as the halves are C ints); the unknown modifier when a query failed.
pub open spec fn modifier_of(queried: bool, upper: i32, lower: i32) -> u64 {
    if queried {
        ((upper as u64) << 32u64) | ((lower as u64) & 0xffff_ffffu64)
    } else {
        DRM_CORRUPTED_MODIFIER
    }
}

pub fn combine_modifier(queried: bool, upper: i32, lower: i32) -> (r: u64)
    ensures
        r == modifier_of(queried, upper, lower),
        queried ==> r >> 32u64 == (upper as u32) as u64 && r & 0xffff_ffffu64 == (lower as u32) as u64,
{
    if queried {
        let u: u64 = upper as u64;
        let l: u64 = lower as u64;
        let r: u64 = (u << 32u64) | (l & 0xffff_ffffu64);
        assert(r >> 32u64 == (upper as u32) as u64 && r & 0xffff_ffffu64 == (lower as u32) as u64) by (bit_vector)
            requires
                u == upper as u64,
                l == lower as u64,
                r == (u << 32u64) | (l & 0xffff_ffffu64),
        ;
        r
    } else {
        DRM_CORRUPTED_MODIFIER
    }
}

/// The number of planes of a buffer: what the driver reported, or one when its query failed.
pub fn plane_count(queried: bool, reported: i32) -> (r: i32)
    ensures
        r == if queried { reported } else { 1 },
{
    if queried {
        reported
    } else {
        1
    }
}

/// Whether a buffer is shared with the server plane by plane (with its modifier) rather than
/// as one plane: multiple planes are available and the modifier is known.
pub fn shares_multiple_planes(multiplanes_available: bool, modifier: u64) -> (r: bool)
    ensures
        r == (multiplanes_available && modifier != DRM_CORRUPTED_MODIFIER),
{
    multiplanes_available && modifier != DRM_CORRUPTED_MODIFIER
}

/// An image that a new buffer asks the driver for.
#[derive(Debug, Copy, Clone, PartialEq, Eq, Structural)]
pub struct ImageRequest {
    pub format: u32,
    pub usage: u32,
}

/// The images a new buffer asks for: on the display's own GPU one image, for sharing,
/// scan-out and use as a back buffer; on another GPU an image with no usage and a linear
/// twin, of the linear format, which is the one shared with the server.
pub fn buffer_images(depths: &[AllowedDepth], format: u32, different_gpu: bool) -> (r: (ImageRequest, Option<ImageRequest>))
    ensures
        !different_gpu ==> r == (ImageRequest {
            format,
            usage: DRI_IMAGE_USE_SHARE | DRI_IMAGE_USE_SCANOUT | DRI_IMAGE_USE_BACKBUFFER,
        }, None::<ImageRequest>),
        different_gpu ==> r == (ImageRequest { format, usage: 0u32 }, Some(ImageRequest {
            format: linear_format_of(format, red_mask_of(depths@, 30)),
            usage: DRI_IMAGE_USE_SHARE | DRI_IMAGE_USE_LINEAR | DRI_IMAGE_USE_BACKBUFFER,
        })),
{
    if !different_gpu {
        (ImageRequest {
            format,
            usage: DRI_IMAGE_USE_SHARE | DRI_IMAGE_USE_SCANOUT | DRI_IMAGE_USE_BACKBUFFER,
        }, None)
    } else {
        let linear = linear_format(depths, format);
        (ImageRequest { format, usage: 0 }, Some(ImageRequest {
            format: linear,
            usage: DRI_IMAGE_USE_SHARE | DRI_IMAGE_USE_LINEAR | DRI_IMAGE_USE_BACKBUFFER,
        }))
    }
}

/// The linear twin of a linear twin is itself: taking the linear format twice changes
/// nothing more.
pub proof fn lemma_linear_format_idempotent(format: u32, red_mask_30: u32)
    ensures
        linear_format_of(linear_format_of(format, red_mask_30), red_mask_30) == linear_format_of(
            format,
            red_mask_30,
        ),
{
}

/// The modifier made of two halves gives those halves back.
pub proof fn lemma_modifier_halves(upper: i32, lower: i32)
    ensures
        modifier_of(true, upper, lower) >> 32u64 == (upper as u32) as u64,
        modifier_of(true, upper, lower) & 0xffff_ffffu64 == (lower as u32) as u64,
{
    let u: u64 = upper as u64;
    let l: u64 = lower as u64;
    assert(((u << 32u64) | (l & 0xffff_ffffu64)) >> 32u64 == (upper as u32) as u64 && ((u << 32u64) | (l
        & 0xffff_ffffu64)) & 0xffff_ffffu64 == (lower as u32) as u64) by (bit_vector)
        requires
            u == upper as u64,
            l == lower as u64,
    ;
}


/// Each image format maps to the DRM fourcc code that names the same layout, its four
/// characters in order from the lowest byte, and has the size that layout gives: RGB565 is
/// "RG16" at 2 bytes; XRGB8888, ARGB8888, ABGR8888 and XBGR8888 are "XR24", "AR24", "AB24"
/// and "XB24" at 4 bytes; the 2101010 formats are "XR30", "AR30", "XB30" and "AB30" at 4
/// bytes; the half-float 16161616 formats are "XB4H" and "AB4H" at 8 bytes.
pub proof fn lemma_fourcc_names_layout()
    ensures
        fourcc_of(0x1001) == 0x36314752i32 && cpp_of(0x1001) == Some(2u32),  // "RG16"
        fourcc_of(0x1002) == 0x34325258i32 && cpp_of(0x1002) == Some(4u32),  // "XR24"
        fourcc_of(0x1003) == 0x34325241i32 && cpp_of(0x1003) == Some(4u32),  // "AR24"
        fourcc_of(0x1004) == 0x34324241i32 && cpp_of(0x1004) == Some(4u32),  // "AB24"
        fourcc_of(0x1005) == 0x34324258i32 && cpp_of(0x1005) == Some(4u32),  // "XB24"
        fourcc_of(0x1009) == 0x30335258i32 && cpp_of(0x1009) == Some(4u32),  // "XR30"
        fourcc_of(0x100a) == 0x30335241i32 && cpp_of(0x100a) == Some(4u32),  // "AR30"
        fourcc_of(0x1010) == 0x30334258i32 && cpp_of(0x1010) == Some(4u32),  // "XB30"
        fourcc_of(0x1011) == 0x30334241i32 && cpp_of(0x1011) == Some(4u32),  // "AB30"
        fourcc_of(0x1014) == 0x48344258i32 && cpp_of(0x1014) == Some(8u32),  // "XB4H"
        fourcc_of(0x1015) == 0x48344241i32 && cpp_of(0x1015) == Some(8u32),  // "AB4H"
{
}

/// Every format with a fourcc code has a known size.
pub proof fn lemma_fourcc_formats_have_size(format: u32)
    ensures
        fourcc_of(format) != 0 ==> cpp_of(format) is Some,
{
}


/// The linear twin of a format has the same size and the same alpha channel: the 10-bit
/// formats keep 10 bits per color and their alpha (or its absence) and take red in the low
/// bits (XBGR/ABGR, 0x1010/0x1011) exactly when the display's 30-bit visuals have the red
/// mask 0x3ff, and in the high bits (XRGB/ARGB, 0x1009/0x100a) otherwise; every other format
/// is its own twin.
pub proof fn lemma_linear_format_keeps_layout(format: u32, red_mask_30: u32)
    ensures
        cpp_of(linear_format_of(format, red_mask_30)) == cpp_of(format),
        (format == 0x1009 || format == 0x1010) ==> linear_format_of(format, red_mask_30) == if red_mask_30
            == 0x3ff {
            0x1010u32
        } else {
            0x1009u32
        },
        (format == 0x100a || format == 0x1011) ==> linear_format_of(format, red_mask_30) == if red_mask_30
            == 0x3ff {
            0x1011u32
        } else {
            0x100au32
        },
        !(format == 0x1009 || format == 0x1010 || format == 0x100a || format == 0x1011)
            ==> linear_format_of(format, red_mask_30) == format,
{
}

/// The red mask found for a depth is that of the first allowed depth of that number which has
/// a visual: when there is one, the mask is its; when there is none, the mask is 0.
pub proof fn lemma_red_mask_is_first_match(depths: Seq<AllowedDepth>, depth: u8)
    ensures
        (exists|i: int| 0 <= i < depths.len() && depths[i].depth == depth && depths[i].first_red_mask is Some) ==> exists|i: int|
            #![trigger depths[i]]
            0 <= i < depths.len() && depths[i].depth == depth && depths[i].first_red_mask == Some(
                red_mask_of(depths, depth),
            ) && forall|j: int|
                0 <= j < i ==> !(depths[j].depth == depth && #[trigger] depths[j].first_red_mask is Some),
        !(exists|i: int| 0 <= i < depths.len() && depths[i].depth == depth && depths[i].first_red_mask is Some)
            ==> red_mask_of(depths, depth) == 0,
    decreases depths.len(),
{
    if depths.len() > 0 {
        let rest = depths.drop_first();
        lemma_red_mask_is_first_match(rest, depth);
        if depths[0].depth == depth && depths[0].first_red_mask is Some {
            assert(depths[0].first_red_mask == Some(red_mask_of(depths, depth)));
        } else {
            if exists|i: int| 0 <= i < depths.len() && depths[i].depth == depth && depths[i].first_red_mask is Some {
                let i = choose|i: int| 0 <= i < depths.len() && depths[i].depth == depth && depths[i].first_red_mask is Some;
                assert(rest[i - 1] == depths[i]);
                let k = choose|k: int|
                    #![trigger rest[k]]
                    0 <= k < rest.len() && rest[k].depth == depth && rest[k].first_red_mask == Some(
                        red_mask_of(rest, depth),
                    ) && forall|j: int|
                        0 <= j < k ==> !(rest[j].depth == depth && #[trigger] rest[j].first_red_mask is Some);
                assert(depths[k + 1] == rest[k]);
                assert forall|j: int| 0 <= j < k + 1 implies !(depths[j].depth == depth && #[trigger] depths[j].first_red_mask is Some) by {
                    if j > 0 {
                        assert(depths[j] == rest[j - 1]);
                    }
                }
            } else {
                assert forall|i: int| 0 <= i < rest.len() implies !(rest[i].depth == depth && rest[i].first_red_mask is Some) by {
                    assert(rest[i] == depths[i + 1]);
                }
            }
        }
    }
}

} // verus!
