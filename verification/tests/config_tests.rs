use breadglx::config::compatible::construct_matching_config;
use breadglx::config::construct::native_is_little_endian;
use breadglx::config::values::{
    COLOR_INDEX_BIT, CONFIG_NONE, DONT_CARE, DONT_CARE_U, RGBA_BIT, TRANSPARENT_RGB, TRUE_COLOR,
    WINDOW_BIT,
};
use breadglx::config::{GlConfig, GlConfigRule, GlSwapMethod, GlVisualType};

fn rgba_config(red: i32) -> GlConfig {
    GlConfig {
        red_bits: red,
        green_bits: 8,
        blue_bits: 8,
        rgb_bits: 24,
        render_type: RGBA_BIT,
        drawable_type: WINDOW_BIT,
        double_buffer_mode: 1,
        ..GlConfig::default()
    }
}

#[test]
fn visual_type_tokens_convert() {
    assert_eq!(GlVisualType::try_from(TRUE_COLOR), Ok(GlVisualType::TrueColor));
    assert_eq!(GlVisualType::try_from(0x8007), Ok(GlVisualType::StaticGray));
    assert_eq!(GlVisualType::try_from(DONT_CARE), Ok(GlVisualType::DontCare));
    assert_eq!(GlVisualType::try_from(12345), Err(12345));
}

#[test]
fn swap_method_tokens_convert() {
    assert_eq!(GlSwapMethod::try_from(0x8061), Ok(GlSwapMethod::Exchange));
    assert_eq!(GlSwapMethod::try_from(0x8062), Ok(GlSwapMethod::Copy));
    assert_eq!(GlSwapMethod::try_from(0x8063), Ok(GlSwapMethod::Undefined));
    assert_eq!(GlSwapMethod::try_from(7), Err(7));
}

#[test]
fn default_config_values() {
    let c = GlConfig::default();
    assert_eq!(c.red_bits, 0);
    assert_eq!(c.visual_id, DONT_CARE);
    assert_eq!(c.visual_rating, CONFIG_NONE);
    assert_eq!(c.transparent_pixel, CONFIG_NONE);
    assert_eq!(c.swap_method, GlSwapMethod::Undefined);
    assert_eq!(c.visual_type, GlVisualType::DontCare);
}

#[test]
fn matching_config_starts_from_dont_care() {
    let m = construct_matching_config();
    assert_eq!(m.double_buffer_mode, DONT_CARE_U);
    assert_eq!(m.render_type, WINDOW_BIT);
    assert_eq!(m.drawable_type, DONT_CARE);
    assert_eq!(m.swap_method, GlSwapMethod::DontCare);
}

#[test]
fn config_compatible_with_itself() {
    let c = rgba_config(8);
    assert!(c.compatible_with(&c));
    let mut odd = rgba_config(5);
    odd.transparent_pixel = TRANSPARENT_RGB;
    odd.transparent_red = 3;
    assert!(odd.compatible_with(&odd));
}

#[test]
fn compatible_with_minimum_bits() {
    let mut m = rgba_config(8);
    m.render_type = RGBA_BIT;
    let more = rgba_config(10);
    let less = rgba_config(4);
    assert!(m.compatible_with(&more));
    assert!(!m.compatible_with(&less));
}

#[test]
fn fulfills_rules_checks_minimums() {
    let c = rgba_config(8);
    assert!(c.fulfills_rules(&[GlConfigRule::RedBits(8)]));
    assert!(c.fulfills_rules(&[GlConfigRule::RedBits(4)]));
    assert!(!c.fulfills_rules(&[GlConfigRule::RedBits(10)]));
    assert!(c.fulfills_rules(&[]));
}

#[test]
fn later_rule_overrides_earlier() {
    let c = rgba_config(8);
    assert!(c.fulfills_rules(&[GlConfigRule::RedBits(10), GlConfigRule::RedBits(6)]));
    assert!(!c.fulfills_rules(&[GlConfigRule::RedBits(6), GlConfigRule::RedBits(10)]));
}

#[test]
fn overridden_rule_makes_no_difference_with_rules_between() {
    let c = rgba_config(8);
    let with_early = [
        GlConfigRule::DepthBits(0),
        GlConfigRule::RedBits(12),
        GlConfigRule::GreenBits(4),
        GlConfigRule::RedBits(8),
    ];
    let without = [
        GlConfigRule::DepthBits(0),
        GlConfigRule::GreenBits(4),
        GlConfigRule::RedBits(8),
    ];
    assert!(c.fulfills_rules(&with_early));
    assert_eq!(c.fulfills_rules(&with_early), c.fulfills_rules(&without));
    let too_many = [GlConfigRule::RedBits(4), GlConfigRule::GreenBits(16), GlConfigRule::RedBits(9)];
    assert!(!c.fulfills_rules(&too_many));
    assert!(!c.fulfills_rules(&[GlConfigRule::GreenBits(16), GlConfigRule::RedBits(9)]));
}

#[test]
fn fulfills_rules_needs_rgba_bit() {
    let mut c = rgba_config(8);
    c.render_type = COLOR_INDEX_BIT;
    assert!(!c.fulfills_rules(&[]));
    assert!(c.fulfills_rules(&[GlConfigRule::RenderType(COLOR_INDEX_BIT)]));
}

#[test]
fn fulfills_single_rule() {
    let c = rgba_config(8);
    assert!(c.fulfills_rule(&GlConfigRule::RedBits(8), 0));
    assert!(!c.fulfills_rule(&GlConfigRule::RedBits(9), 0));
    assert!(c.fulfills_rule(&GlConfigRule::DoubleBufferMode(1), 0));
    assert!(!c.fulfills_rule(&GlConfigRule::DoubleBufferMode(0), 0));
}

#[test]
fn with_rule_sets_field() {
    let m = GlConfig::default().with_rule(GlConfigRule::DepthBits(24));
    assert_eq!(m.depth_bits, 24);
    let m = m.with_rule(GlConfigRule::VisualType(GlVisualType::TrueColor));
    assert_eq!(m.visual_type, GlVisualType::TrueColor);
}

fn header(class_word: u32) -> Vec<u32> {
    vec![
        0x21, class_word, 1, 8, 8, 8, 0, 0, 0, 0, 0, 1, 0, 24, 24, 8, 0, 0,
    ]
}

fn read_in_order(props: &[u32], little_endian: bool) -> GlConfig {
    let mut c = GlConfig::default();
    c.set_properties_in_order(props, false, true, little_endian);
    c
}

#[test]
fn visual_header_in_both_byte_orders() {
    let le = read_in_order(&header(4), true);
    assert_eq!(le.visual_id, 0x21);
    assert_eq!(le.visual_type, GlVisualType::TrueColor);
    assert_eq!(le.render_type, RGBA_BIT);
    assert_eq!(le.depth_bits, 24);
    assert_eq!(le.double_buffer_mode, 1);
    let be = read_in_order(&header(4 << 24), false);
    assert_eq!(be.visual_type, GlVisualType::TrueColor);
    let unknown = read_in_order(&header(9), true);
    assert_eq!(unknown.visual_type, GlVisualType::DontCare);
}

#[test]
fn tagged_properties_fbconfig_style() {
    let props = vec![0x8013u32, 77, 8, 5, 0x8060, 0x8062, 5, 1, 0, 0];
    let c = GlConfig::from_properties(&props, true, true);
    assert_eq!(c.fbconfig_id, 77);
    assert_eq!(c.red_bits, 5);
    assert_eq!(c.swap_method, GlSwapMethod::Copy);
    assert_eq!(c.double_buffer_mode, 1);
}

#[test]
fn zero_tag_ends_list() {
    let props = vec![8u32, 5, 0, 0, 9, 6];
    let c = GlConfig::from_properties(&props, true, true);
    assert_eq!(c.red_bits, 5);
    assert_eq!(c.green_bits, 0);
}

#[test]
fn visual_style_boolean_tags_take_no_value() {
    // A visual's RGBA and double buffer tags stand alone.
    let props = vec![4u32, 5, 8, 6, 0, 0];
    let c = GlConfig::from_properties(&props, true, false);
    assert_eq!(c.render_type, RGBA_BIT);
    assert_eq!(c.double_buffer_mode, 1);
    assert_eq!(c.red_bits, 6);
}

#[test]
fn set_from_properties_splits_entries() {
    let props = vec![0x8013u32, 1, 8, 4, 0x8013, 2, 8, 6, 0x8013];
    let configs = GlConfig::set_from_properties(&props, 4, 5, true);
    assert_eq!(configs.len(), 2);
    assert_eq!(configs[0].fbconfig_id, 1);
    assert_eq!(configs[0].red_bits, 4);
    assert_eq!(configs[1].fbconfig_id, 2);
    assert_eq!(configs[1].red_bits, 6);
    let fewer = GlConfig::set_from_properties(&props, 4, 1, true);
    assert_eq!(fewer.len(), 1);
}

#[test]
fn set_from_properties_in_order_reads_headers() {
    let mut props = header(4);
    props.extend_from_slice(&[8, 9]);
    let configs = GlConfig::set_from_properties_in_order(&props, 20, 1, false, true);
    assert_eq!(configs.len(), 1);
    assert_eq!(configs[0].red_bits, 9);
    assert_eq!(configs[0].visual_type, GlVisualType::TrueColor);
}

#[test]
fn native_byte_order_reads_visual_class() {
    let word = if native_is_little_endian() { 4u32 } else { 4u32 << 24 };
    let c = GlConfig::from_properties(&header(word), false, true);
    assert_eq!(c.visual_type, GlVisualType::TrueColor);
    let other = if native_is_little_endian() { 4u32 << 24 } else { 4u32 };
    let d = GlConfig::from_properties(&header(other), false, true);
    assert_eq!(d.visual_type, GlVisualType::StaticGray);
}

#[test]
fn each_entry_reads_as_its_own_list() {
    let props = vec![0x8013u32, 1, 8, 4, 0x8013, 2, 9, 6, 0x8013];
    let configs = GlConfig::set_from_properties(&props, 4, 5, true);
    assert_eq!(configs.len(), 2);
    assert_eq!(configs[0], GlConfig::from_properties(&props[0..4], true, true));
    assert_eq!(configs[1], GlConfig::from_properties(&props[4..8], true, true));
    let mut untagged = header(4);
    untagged.extend_from_slice(&[8, 9]);
    untagged.extend(header(3 << 24));
    untagged.extend_from_slice(&[9, 7]);
    for le in [true, false] {
        let all = GlConfig::set_from_properties_in_order(&untagged, 20, 2, false, le);
        assert_eq!(all.len(), 2);
        assert_eq!(all[0], GlConfig::from_properties_in_order(&untagged[0..20], false, true, le));
        assert_eq!(all[1], GlConfig::from_properties_in_order(&untagged[20..40], false, true, le));
    }
    let be = GlConfig::from_properties_in_order(&untagged[20..40], false, true, false);
    assert_eq!(be.visual_type, GlVisualType::PseudoColor);
    assert_eq!(be.green_bits, 7);
}
