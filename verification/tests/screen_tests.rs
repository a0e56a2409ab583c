use breadglx::config::values::{RGBA_BIT, WINDOW_BIT};
use breadglx::config::{GlConfig, GlConfigRule};
use breadglx::context::attrib::{GlContextRule, Profile};
use breadglx::context::{ContextDispatch, Dri2Context, Dri3Context, IndirectContext};
use breadglx::dri::config::{config_seg_equal, configs_equal, convert_configs, raw_compare};
use breadglx::dri::screen::{
    check_new_screen, find_fbconfig, get_bootstrap_extensions, get_extensions_core, has_multiplane,
    swap_buffers_flags, swap_flush_flags, CoreExtensions, DriConfigMap, Dri3Versions, ScreenError,
};
use breadglx::dri::tokens::{
    DRI_ATTRIB_DEPTH_SIZE, DRI_ATTRIB_RED_SIZE, DRI_ATTRIB_RENDER_TYPE, DRI_ATTRIB_SWAP_COPY,
    DRI_ATTRIB_SWAP_METHOD,
};
use breadglx::config::GlSwapMethod;
use breadglx::indirect::{IndirectDisplay, IndirectScreen};
use breadglx::screen::GlScreen;

fn config(id: i32, red: i32) -> GlConfig {
    GlConfig {
        fbconfig_id: id,
        red_bits: red,
        render_type: RGBA_BIT,
        drawable_type: WINDOW_BIT,
        ..GlConfig::default()
    }
}

#[test]
fn choose_keeps_order_and_filters() {
    let screen = GlScreen::new(0, vec![config(1, 8), config(2, 4), config(3, 10)], vec![]);
    let chosen = screen.choose_fbconfigs(&[GlConfigRule::RedBits(8)]);
    let ids: Vec<i32> = chosen.iter().map(|c| c.fbconfig_id).collect();
    assert_eq!(ids, vec![1, 3]);
    assert_eq!(screen.choose_fbconfigs(&[]).len(), 3);
    assert!(screen.choose_fbconfigs(&[GlConfigRule::RedBits(16)]).is_empty());
    assert_eq!(screen.screen_index(), 0);
    assert_eq!(screen.fbconfigs().len(), 3);
    assert!(screen.visuals().is_empty());
}

#[test]
fn context_request_of_screen() {
    let screen = GlScreen::new(2, vec![config(7, 8)], vec![]);
    let rules = [GlContextRule::MajorVersion(3), GlContextRule::Profile(Profile::Core)];
    let req = screen.context_request(&config(7, 8), &rules, Some(99), &ContextDispatch::Dri2(Dri2Context {}));
    assert_eq!(req.fbconfig, 7);
    assert_eq!(req.screen, 2);
    assert_eq!(req.share, 99);
    assert!(req.is_direct);
    assert_eq!(req.attribs, vec![0x2091, 3, 0x9126, 1]);
    let indirect = ContextDispatch::Indirect(IndirectContext {
        glx_buffer: vec![],
        render_type: 0,
        major_version: 1,
        minor_version: 0,
        profile: Profile::Core,
    });
    let req = screen.context_request(&config(7, 8), &[], None, &indirect);
    assert_eq!(req.share, 0);
    assert!(!req.is_direct);
    assert!(req.attribs.is_empty());
}

#[test]
fn indirect_screens() {
    let dpy = IndirectDisplay::new();
    let (screen, inner) = dpy.create_screen(1, vec![config(1, 8)], vec![config(2, 8), config(3, 8)]);
    assert_eq!(screen.screen_index(), 1);
    assert_eq!(screen.fbconfigs().len(), 2);
    assert_eq!(screen.visuals().len(), 1);
    assert_eq!(inner, IndirectScreen::new());
}

#[test]
fn driver_attributes_compare() {
    let c = config(1, 8);
    assert!(raw_compare(&c, DRI_ATTRIB_RED_SIZE, 8));
    assert!(!raw_compare(&c, DRI_ATTRIB_RED_SIZE, 5));
    assert!(config_seg_equal(&c, DRI_ATTRIB_RED_SIZE, 8));
    assert!(config_seg_equal(&c, DRI_ATTRIB_RENDER_TYPE, 1));
    let copy = GlConfig { swap_method: GlSwapMethod::Copy, ..c };
    assert!(config_seg_equal(&copy, DRI_ATTRIB_SWAP_METHOD, DRI_ATTRIB_SWAP_COPY));
    assert!(configs_equal(&c, &[(DRI_ATTRIB_RED_SIZE, 8), (DRI_ATTRIB_DEPTH_SIZE, 0)]));
    assert!(!configs_equal(&c, &[(DRI_ATTRIB_RED_SIZE, 8), (DRI_ATTRIB_DEPTH_SIZE, 24)]));
}

#[test]
fn configs_find_their_driver_configs() {
    let configs = [config(1, 8), config(2, 5), config(3, 16)];
    let drivers = vec![
        vec![(DRI_ATTRIB_RED_SIZE, 5)],
        vec![(DRI_ATTRIB_RED_SIZE, 8)],
        vec![(DRI_ATTRIB_RED_SIZE, 8), (DRI_ATTRIB_DEPTH_SIZE, 0)],
    ];
    let converted = convert_configs(&configs, &drivers);
    let indices: Vec<usize> = converted.iter().map(|e| e.1).collect();
    assert_eq!(indices, vec![1, 0]);
    let map = DriConfigMap::new(&converted[..1], &converted[1..]);
    assert_eq!(map.driconfig_from_fbconfig(&configs[0]), Some(1));
    assert_eq!(map.driconfig_from_fbconfig(&configs[1]), Some(0));
    assert_eq!(map.driconfig_from_fbconfig(&configs[2]), None);
}

#[test]
fn later_driver_config_entry_wins() {
    let map = DriConfigMap::new(&[(10, 1), (11, 2)], &[(10, 3)]);
    assert_eq!(map.lookup(10), Some(3));
    assert_eq!(map.lookup(11), Some(2));
    assert_eq!(map.lookup(12), None);
}

#[test]
fn bootstrap_extension_choice() {
    let names = vec![
        Some(b"DRI_Core".to_vec()),
        None,
        Some(b"DRI_IMAGE_DRIVER".to_vec()),
        Some(b"DRI_Core".to_vec()),
    ];
    assert_eq!(get_bootstrap_extensions(&names), Ok((3, 2)));
    assert_eq!(get_bootstrap_extensions(&[Some(b"DRI_IMAGE_DRIVER".to_vec())]), Err(ScreenError::NoCoreExtension));
    assert_eq!(get_bootstrap_extensions(&[Some(b"DRI_Core".to_vec())]), Err(ScreenError::NoImageDriverExtension));
}

#[test]
fn core_extension_sorting() {
    let names = vec![
        b"DRI2_Flush".to_vec(),
        b"DRI_IMAGE".to_vec(),
        b"DRI_Other".to_vec(),
        b"DRI_CONFIG_QUERY".to_vec(),
        b"DRI_IMAGE".to_vec(),
    ];
    assert_eq!(
        get_extensions_core(&names),
        CoreExtensions { tex_buffer: None, flush: Some(0), image: Some(4), config: Some(3) }
    );
}

#[test]
fn new_screen_checks() {
    assert_eq!(check_new_screen(true, true, true), Ok(()));
    assert_eq!(check_new_screen(false, true, true), Err(ScreenError::ScreenNotCreated));
    assert_eq!(check_new_screen(true, false, true), Err(ScreenError::NoDriverConfigs));
    assert_eq!(check_new_screen(true, true, false), Err(ScreenError::ZeroDriverConfigs));
}

#[test]
fn multiplane_support() {
    let v = Dri3Versions { dri3_major: 1, dri3_minor: 2, present_major: 1, present_minor: 2 };
    assert!(has_multiplane(Some(15), Some(v)));
    assert!(!has_multiplane(Some(14), Some(v)));
    assert!(!has_multiplane(Some(15), Some(Dri3Versions { dri3_minor: 1, ..v })));
    assert!(has_multiplane(Some(15), Some(Dri3Versions { present_major: 2, present_minor: 0, ..v })));
    assert!(!has_multiplane(None, Some(v)));
    assert!(!has_multiplane(Some(15), None));
}

#[test]
fn fbconfig_by_property() {
    let configs = [config(4, 8), config(5, 8), config(5, 9)];
    assert_eq!(find_fbconfig(&configs, Some(5)), Ok(1));
    assert_eq!(find_fbconfig(&configs, Some(6)), Err(ScreenError::NoFbConfig));
    assert_eq!(find_fbconfig(&configs, None), Err(ScreenError::NoFbConfig));
}

#[test]
fn swap_flushes() {
    assert_eq!(swap_flush_flags(false), 1);
    assert_eq!(swap_flush_flags(true), 3);
}

#[test]
fn swapping_needs_a_dri3_context() {
    let d3 = ContextDispatch::Dri3(Dri3Context { fbconfig: GlConfig::default() });
    assert_eq!(swap_buffers_flags(Some(&d3), true), Ok(3));
    assert_eq!(swap_buffers_flags(Some(&d3), false), Ok(1));
    let d2 = ContextDispatch::Dri2(Dri2Context {});
    assert_eq!(swap_buffers_flags(Some(&d2), true), Err(ScreenError::NoContextForSwap));
    assert_eq!(swap_buffers_flags(None, true), Err(ScreenError::NoContextForSwap));
}
