use breadglx::dri::formats::{
    buffer_images, choose_modifiers, combine_modifier, cpp_for_format, fourcc_code,
    has_supported_modifier, image_format_to_fourcc, linear_format, modifiers_usable, plane_count,
    red_mask_for_depth, shares_multiple_planes, AllowedDepth, ImageRequest,
    DRI_IMAGE_USE_BACKBUFFER, DRI_IMAGE_USE_LINEAR, DRI_IMAGE_USE_SCANOUT, DRI_IMAGE_USE_SHARE,
    DRM_CORRUPTED_MODIFIER,
};
use breadglx::dri::tokens::{
    DRI_IMAGE_FORMAT_ABGR2101010, DRI_IMAGE_FORMAT_ARGB2101010, DRI_IMAGE_FORMAT_ARGB8888,
    DRI_IMAGE_FORMAT_SARGB8, DRI_IMAGE_FORMAT_XBGR2101010, DRI_IMAGE_FORMAT_XRGB2101010,
    DRI_IMAGE_FORMAT_XRGB8888, DRI_IMAGE_FOURCC_SARGB8888,
};

#[test]
fn bytes_per_pixel() {
    assert_eq!(cpp_for_format(4102), Some(1));
    assert_eq!(cpp_for_format(4097), Some(2));
    assert_eq!(cpp_for_format(DRI_IMAGE_FORMAT_XRGB8888), Some(4));
    assert_eq!(cpp_for_format(4117), Some(8));
    assert_eq!(cpp_for_format(DRI_IMAGE_FORMAT_XRGB2101010), Some(4));
    assert_eq!(cpp_for_format(DRI_IMAGE_FORMAT_ARGB2101010), Some(4));
    assert_eq!(cpp_for_format(1), None);
}

#[test]
fn fourcc_codes() {
    assert_eq!(fourcc_code(b'X', b'R', b'2', b'4'), 0x3432_5258);
    assert_eq!(image_format_to_fourcc(DRI_IMAGE_FORMAT_XRGB8888), 0x3432_5258);
    assert_eq!(image_format_to_fourcc(DRI_IMAGE_FORMAT_ARGB8888), 0x3432_5241);
    assert_eq!(image_format_to_fourcc(4097), 0x3631_4752);
    assert_eq!(image_format_to_fourcc(DRI_IMAGE_FORMAT_SARGB8), DRI_IMAGE_FOURCC_SARGB8888 as i32);
    assert_eq!(image_format_to_fourcc(7), 0);
}

#[test]
fn red_mask_of_first_visual_with_depth() {
    let depths = [
        AllowedDepth { depth: 24, first_red_mask: Some(0xff0000) },
        AllowedDepth { depth: 30, first_red_mask: None },
        AllowedDepth { depth: 30, first_red_mask: Some(0x3ff) },
        AllowedDepth { depth: 30, first_red_mask: Some(0x3ff00000) },
    ];
    assert_eq!(red_mask_for_depth(&depths, 30), 0x3ff);
    assert_eq!(red_mask_for_depth(&depths, 24), 0xff0000);
    assert_eq!(red_mask_for_depth(&depths, 8), 0);
}

#[test]
fn linear_formats_follow_the_display() {
    let bgr = [AllowedDepth { depth: 30, first_red_mask: Some(0x3ff) }];
    let rgb = [AllowedDepth { depth: 30, first_red_mask: Some(0x3ff00000) }];
    assert_eq!(linear_format(&bgr, DRI_IMAGE_FORMAT_XRGB2101010), DRI_IMAGE_FORMAT_XBGR2101010);
    assert_eq!(linear_format(&rgb, DRI_IMAGE_FORMAT_XBGR2101010), DRI_IMAGE_FORMAT_XRGB2101010);
    assert_eq!(linear_format(&bgr, DRI_IMAGE_FORMAT_ARGB2101010), DRI_IMAGE_FORMAT_ABGR2101010);
    assert_eq!(linear_format(&[], DRI_IMAGE_FORMAT_ABGR2101010), DRI_IMAGE_FORMAT_ARGB2101010);
    assert_eq!(linear_format(&bgr, DRI_IMAGE_FORMAT_XRGB8888), DRI_IMAGE_FORMAT_XRGB8888);
    let twice = linear_format(&bgr, linear_format(&bgr, DRI_IMAGE_FORMAT_XRGB2101010));
    assert_eq!(twice, linear_format(&bgr, DRI_IMAGE_FORMAT_XRGB2101010));
}

#[test]
fn supported_modifiers() {
    assert!(has_supported_modifier(Some(&[1, 2, 3]), &[9, 3]));
    assert!(!has_supported_modifier(Some(&[1, 2, 3]), &[9]));
    assert!(!has_supported_modifier(Some(&[]), &[1]));
    assert!(!has_supported_modifier(None, &[1]));
}

#[test]
fn modifier_choice() {
    assert_eq!(choose_modifiers(vec![1], vec![2], true), Some(vec![1]));
    assert_eq!(choose_modifiers(vec![1], vec![2], false), Some(vec![2]));
    assert_eq!(choose_modifiers(vec![], vec![2], true), Some(vec![2]));
    assert_eq!(choose_modifiers(vec![], vec![], true), None);
    assert!(modifiers_usable(true, 15, true, true));
    assert!(!modifiers_usable(true, 14, true, true));
    assert!(!modifiers_usable(true, 15, false, true));
}

#[test]
fn modifier_halves() {
    assert_eq!(combine_modifier(true, 1, 2), 0x1_0000_0002);
    assert_eq!(combine_modifier(true, 0, -1), 0xffff_ffff);
    assert_eq!(combine_modifier(true, -1, 0), 0xffff_ffff_0000_0000);
    assert_eq!(combine_modifier(false, 1, 2), DRM_CORRUPTED_MODIFIER);
    assert_eq!(DRM_CORRUPTED_MODIFIER, (1u64 << 56) - 1);
}

#[test]
fn planes_and_sharing() {
    assert_eq!(plane_count(true, 3), 3);
    assert_eq!(plane_count(false, 3), 1);
    assert!(shares_multiple_planes(true, 0));
    assert!(!shares_multiple_planes(true, DRM_CORRUPTED_MODIFIER));
    assert!(!shares_multiple_planes(false, 0));
}

#[test]
fn images_of_a_new_buffer() {
    let depths = [AllowedDepth { depth: 30, first_red_mask: Some(0x3ff) }];
    let (img, linear) = buffer_images(&depths, DRI_IMAGE_FORMAT_XRGB2101010, false);
    assert_eq!(
        img,
        ImageRequest {
            format: DRI_IMAGE_FORMAT_XRGB2101010,
            usage: DRI_IMAGE_USE_SHARE | DRI_IMAGE_USE_SCANOUT | DRI_IMAGE_USE_BACKBUFFER,
        }
    );
    assert_eq!(linear, None);
    let (img, linear) = buffer_images(&depths, DRI_IMAGE_FORMAT_XRGB2101010, true);
    assert_eq!(img.usage, 0);
    assert_eq!(
        linear,
        Some(ImageRequest {
            format: DRI_IMAGE_FORMAT_XBGR2101010,
            usage: DRI_IMAGE_USE_SHARE | DRI_IMAGE_USE_LINEAR | DRI_IMAGE_USE_BACKBUFFER,
        })
    );
}
