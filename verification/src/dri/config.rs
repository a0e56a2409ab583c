//! Matching GLX configurations with the configurations that a DRI driver offers.
use vstd::prelude::*;

use ahash::AHasher;
use std::hash::{Hash, Hasher};

use super::tokens::{
    DRI_ATTRIB_ACCUM_ALPHA_SIZE, DRI_ATTRIB_ACCUM_BLUE_SIZE, DRI_ATTRIB_ACCUM_GREEN_SIZE,
    DRI_ATTRIB_ACCUM_RED_SIZE, DRI_ATTRIB_ALPHA_SIZE, DRI_ATTRIB_AUX_BUFFERS,
    DRI_ATTRIB_BIND_TO_MIPMAP_TEXTURE, DRI_ATTRIB_BIND_TO_TEXTURE_RGB,
    DRI_ATTRIB_BIND_TO_TEXTURE_RGBA, DRI_ATTRIB_BIND_TO_TEXTURE_TARGETS, DRI_ATTRIB_BLUE_SIZE,
    DRI_ATTRIB_BUFFER_SIZE, DRI_ATTRIB_COLOR_INDEX_BIT, DRI_ATTRIB_CONFIG_CAVEAT,
    DRI_ATTRIB_DEPTH_SIZE, DRI_ATTRIB_DOUBLE_BUFFER, DRI_ATTRIB_FLOAT_BIT,
    DRI_ATTRIB_FRAMEBUFFER_SRGB_CAPABLE, DRI_ATTRIB_GREEN_SIZE, DRI_ATTRIB_LEVEL,
    DRI_ATTRIB_MAX_PBUFFER_HEIGHT, DRI_ATTRIB_MAX_PBUFFER_PIXELS, DRI_ATTRIB_MAX_PBUFFER_WIDTH,
    DRI_ATTRIB_NON_CONFORMANT_CONFIG, DRI_ATTRIB_OPTIMAL_PBUFFER_HEIGHT,
    DRI_ATTRIB_OPTIMAL_PBUFFER_WIDTH, DRI_ATTRIB_RED_SIZE, DRI_ATTRIB_RENDER_TYPE,
    DRI_ATTRIB_SAMPLES, DRI_ATTRIB_SAMPLE_BUFFERS, DRI_ATTRIB_SLOW_BIT, DRI_ATTRIB_STENCIL_SIZE,
    DRI_ATTRIB_STEREO, DRI_ATTRIB_SWAP_COPY, DRI_ATTRIB_SWAP_EXCHANGE, DRI_ATTRIB_SWAP_METHOD,
    DRI_ATTRIB_TEXTURE_1D_BIT, DRI_ATTRIB_TEXTURE_2D_BIT, DRI_ATTRIB_TEXTURE_RECTANGLE_BIT,
    DRI_ATTRIB_UNSIGNED_FLOAT_BIT, DRI_ATTRIB_YINVERTED,
};
use crate::config::values::{
    COLOR_INDEX_BIT, CONFIG_NONE, DONT_CARE, DONT_CARE_U, NON_CONFORMANT_CONFIG, RGBA_BIT,
    RGBA_FLOAT_BIT_ARB, RGBA_UNSIGNED_FLOAT_BIT_EXT, SLOW_CONFIG, TEXTURE_1D_BIT_EXT,
    TEXTURE_2D_BIT_EXT, TEXTURE_RECTANGLE_BIT_EXT,
};
use crate::config::{GlConfig, GlSwapMethod};

verus! {

/// The value of a driver attribute that the configuration holds directly, taken bit for
/// bit as unsigned, or `None` for an attribute without such a field.
pub open spec fn direct_attrib(c: GlConfig, attrib: u32) -> Option<u32> {
    if attrib == DRI_ATTRIB_BUFFER_SIZE {
        Some(c.rgb_bits as u32)
    } else if attrib == DRI_ATTRIB_LEVEL {
        Some(c.level as u32)
    } else if attrib == DRI_ATTRIB_RED_SIZE {
        Some(c.red_bits as u32)
    } else if attrib == DRI_ATTRIB_GREEN_SIZE {
        Some(c.green_bits as u32)
    } else if attrib == DRI_ATTRIB_BLUE_SIZE {
        Some(c.blue_bits as u32)
    } else if attrib == DRI_ATTRIB_ALPHA_SIZE {
        Some(c.alpha_bits as u32)
    } else if attrib == DRI_ATTRIB_DEPTH_SIZE {
        Some(c.depth_bits as u32)
    } else if attrib == DRI_ATTRIB_STENCIL_SIZE {
        Some(c.stencil_bits as u32)
    } else if attrib == DRI_ATTRIB_ACCUM_RED_SIZE {
        Some(c.accum_red_bits as u32)
    } else if attrib == DRI_ATTRIB_ACCUM_GREEN_SIZE {
        Some(c.accum_green_bits as u32)
    } else if attrib == DRI_ATTRIB_ACCUM_BLUE_SIZE {
        Some(c.accum_blue_bits as u32)
    } else if attrib == DRI_ATTRIB_ACCUM_ALPHA_SIZE {
        Some(c.accum_alpha_bits as u32)
    } else if attrib == DRI_ATTRIB_SAMPLE_BUFFERS {
        Some(c.sample_buffers as u32)
    } else if attrib == DRI_ATTRIB_SAMPLES {
        Some(c.samples as u32)
    } else if attrib == DRI_ATTRIB_DOUBLE_BUFFER {
        Some(c.double_buffer_mode)
    } else if attrib == DRI_ATTRIB_STEREO {
        Some(c.stereo_mode)
    } else if attrib == DRI_ATTRIB_AUX_BUFFERS {
        Some(c.num_aux_buffers as u32)
    } else if attrib == DRI_ATTRIB_MAX_PBUFFER_WIDTH {
        Some(c.max_pbuffer_width as u32)
    } else if attrib == DRI_ATTRIB_MAX_PBUFFER_HEIGHT {
        Some(c.max_pbuffer_height as u32)
    } else if attrib == DRI_ATTRIB_MAX_PBUFFER_PIXELS {
        Some(c.max_pbuffer_pixels as u32)
    } else if attrib == DRI_ATTRIB_OPTIMAL_PBUFFER_WIDTH {
        Some(c.optimal_pbuffer_width as u32)
    } else if attrib == DRI_ATTRIB_OPTIMAL_PBUFFER_HEIGHT {
        Some(c.optimal_pbuffer_height as u32)
    } else if attrib == DRI_ATTRIB_BIND_TO_TEXTURE_RGB {
        Some(c.bind_to_texture_rgb as u32)
    } else if attrib == DRI_ATTRIB_BIND_TO_TEXTURE_RGBA {
        Some(c.bind_to_texture_rgba as u32)
    } else if attrib == DRI_ATTRIB_BIND_TO_MIPMAP_TEXTURE {
        Some(c.bind_to_mipmap_texture as u32)
    } else if attrib == DRI_ATTRIB_YINVERTED {
        Some(c.y_inverted as u32)
    } else if attrib == DRI_ATTRIB_FRAMEBUFFER_SRGB_CAPABLE {
        Some(c.srgb_capable as u32)
    } else {
        None
    }
}

/// A directly held attribute agrees when the configuration does not care or holds the
/// driver's value; an attribute that the configuration does not hold always agrees.
pub open spec fn raw_agrees(c: GlConfig, attrib: u32, value: u32) -> bool {
    match direct_attrib(c, attrib) {
        Some(v) => v == DONT_CARE_U || v == value,
        None => true,
    }
}

/// The GLX render type bits that a DRI render type value stands for. The RGBA bit is set
/// when the value shares a bit with the render type attribute's own number (17).
pub open spec fn render_type_of(value: u32) -> i32 {
    (if value & DRI_ATTRIB_RENDER_TYPE != 0 { RGBA_BIT } else { 0i32 })
        | (if value & DRI_ATTRIB_COLOR_INDEX_BIT != 0 { COLOR_INDEX_BIT } else { 0i32 })
        | (if value & DRI_ATTRIB_FLOAT_BIT != 0 { RGBA_FLOAT_BIT_ARB } else { 0i32 })
        | (if value & DRI_ATTRIB_UNSIGNED_FLOAT_BIT != 0 { RGBA_UNSIGNED_FLOAT_BIT_EXT } else { 0i32 })
}

/// The GLX caveat that a DRI caveat value stands for.
pub open spec fn caveat_of(value: u32) -> i32 {
    if value & DRI_ATTRIB_NON_CONFORMANT_CONFIG != 0 {
        NON_CONFORMANT_CONFIG
    } else if value & DRI_ATTRIB_SLOW_BIT != 0 {
        SLOW_CONFIG
    } else {
        CONFIG_NONE
    }
}

/// The GLX texture target bits that a DRI texture target value stands for.
pub open spec fn texture_targets_of(value: u32) -> i32 {
    (if value & DRI_ATTRIB_TEXTURE_1D_BIT != 0 { TEXTURE_1D_BIT_EXT } else { 0i32 })
        | (if value & DRI_ATTRIB_TEXTURE_2D_BIT != 0 { TEXTURE_2D_BIT_EXT } else { 0i32 })
        | (if value & DRI_ATTRIB_TEXTURE_RECTANGLE_BIT != 0 { TEXTURE_RECTANGLE_BIT_EXT } else { 0i32 })
}

/// The swap method that a DRI swap method value stands for.
pub open spec fn swap_method_of(value: u32) -> GlSwapMethod {
    if value == DRI_ATTRIB_SWAP_EXCHANGE {
        GlSwapMethod::Exchange
    } else if value == DRI_ATTRIB_SWAP_COPY {
        GlSwapMethod::Copy
    } else {
        GlSwapMethod::Undefined
    }
}

/// A configuration agrees with one attribute and value of a driver configuration.
pub open spec fn segment_agrees(c: GlConfig, attrib: u32, value: u32) -> bool {
    if attrib == DRI_ATTRIB_RENDER_TYPE {
        c.render_type == render_type_of(value)
    } else if attrib == DRI_ATTRIB_CONFIG_CAVEAT {
        c.visual_rating == caveat_of(value)
    } else if attrib == DRI_ATTRIB_BIND_TO_TEXTURE_TARGETS {
        c.bind_to_texture_targets == DONT_CARE || c.bind_to_texture_targets
            == texture_targets_of(value)
    } else if attrib == DRI_ATTRIB_SWAP_METHOD {
        c.swap_method == GlSwapMethod::DontCare || c.swap_method == swap_method_of(value)
    } else {
        raw_agrees(c, attrib, value)
    }
}

/// A driver's caveat value agrees with the configurations of one caveat: with the
/// non-conformant bit (2) set, those rated GLX_NON_CONFORMANT_CONFIG (0x800D); else with the
/// slow bit (1) set, those rated GLX_SLOW_CONFIG (0x8001); with neither, those with no caveat,
/// GLX_NONE (0x8000).
pub proof fn lemma_caveat_agreement(c: GlConfig, value: u32)
    ensures
        value & 2 == 0 && value & 1 == 0 ==> (segment_agrees(c, 18, value) <==> c.visual_rating == 0x8000),
        value & 2 != 0 ==> (segment_agrees(c, 18, value) <==> c.visual_rating == 0x800D),
        value & 2 == 0 && value & 1 != 0 ==> (segment_agrees(c, 18, value) <==> c.visual_rating == 0x8001),
{
}

/// A driver's swap method agrees with the configurations that do not care about the swap
/// method and with those of the same method: exchange (0x8061), copy (0x8062), and undefined
/// for any other value.
pub proof fn lemma_swap_method_agreement(c: GlConfig, value: u32)
    ensures
        value == 0x8061 ==> (segment_agrees(c, 40, value) <==> (c.swap_method == GlSwapMethod::DontCare
            || c.swap_method == GlSwapMethod::Exchange)),
        value == 0x8062 ==> (segment_agrees(c, 40, value) <==> (c.swap_method == GlSwapMethod::DontCare
            || c.swap_method == GlSwapMethod::Copy)),
        value != 0x8061 && value != 0x8062 ==> (segment_agrees(c, 40, value) <==> (c.swap_method
            == GlSwapMethod::DontCare || c.swap_method == GlSwapMethod::Undefined)),
{
}

/// Each numeric driver attribute is compared with the field of the same meaning, taken bit
/// for bit as unsigned: the configuration agrees when it does not care (all bits set) or
/// holds the driver's value. Attribute numbers are the DRI ones: buffer size 1, level 2, red,
/// green, blue sizes 3 to 5, alpha 7, depth 9, stencil 10, accumulation sizes 11 to 14,
/// sample buffers 15, samples 16, double buffer 20, stereo 21, aux buffers 22, pbuffer limits
/// 34 to 38, texture binding 43 to 45, y inversion 47, sRGB 48.
#[verifier::spinoff_prover]
#[verifier::rlimit(100)]
pub proof fn lemma_numeric_attribute_agreement(c: GlConfig, value: u32)
    ensures
        segment_agrees(c, 1, value) <==> (c.rgb_bits as u32 == 0xFFFF_FFFF || c.rgb_bits as u32 == value),
        segment_agrees(c, 2, value) <==> (c.level as u32 == 0xFFFF_FFFF || c.level as u32 == value),
        segment_agrees(c, 3, value) <==> (c.red_bits as u32 == 0xFFFF_FFFF || c.red_bits as u32 == value),
        segment_agrees(c, 4, value) <==> (c.green_bits as u32 == 0xFFFF_FFFF || c.green_bits as u32 == value),
        segment_agrees(c, 5, value) <==> (c.blue_bits as u32 == 0xFFFF_FFFF || c.blue_bits as u32 == value),
        segment_agrees(c, 7, value) <==> (c.alpha_bits as u32 == 0xFFFF_FFFF || c.alpha_bits as u32 == value),
        segment_agrees(c, 9, value) <==> (c.depth_bits as u32 == 0xFFFF_FFFF || c.depth_bits as u32 == value),
        segment_agrees(c, 10, value) <==> (c.stencil_bits as u32 == 0xFFFF_FFFF || c.stencil_bits as u32 == value),
        segment_agrees(c, 11, value) <==> (c.accum_red_bits as u32 == 0xFFFF_FFFF || c.accum_red_bits as u32 == value),
        segment_agrees(c, 12, value) <==> (c.accum_green_bits as u32 == 0xFFFF_FFFF || c.accum_green_bits as u32 == value),
        segment_agrees(c, 13, value) <==> (c.accum_blue_bits as u32 == 0xFFFF_FFFF || c.accum_blue_bits as u32 == value),
        segment_agrees(c, 14, value) <==> (c.accum_alpha_bits as u32 == 0xFFFF_FFFF || c.accum_alpha_bits as u32 == value),
        segment_agrees(c, 15, value) <==> (c.sample_buffers as u32 == 0xFFFF_FFFF || c.sample_buffers as u32 == value),
        segment_agrees(c, 16, value) <==> (c.samples as u32 == 0xFFFF_FFFF || c.samples as u32 == value),
        segment_agrees(c, 22, value) <==> (c.num_aux_buffers as u32 == 0xFFFF_FFFF || c.num_aux_buffers as u32 == value),
        segment_agrees(c, 34, value) <==> (c.max_pbuffer_width as u32 == 0xFFFF_FFFF || c.max_pbuffer_width as u32 == value),
        segment_agrees(c, 35, value) <==> (c.max_pbuffer_height as u32 == 0xFFFF_FFFF || c.max_pbuffer_height as u32 == value),
        segment_agrees(c, 36, value) <==> (c.max_pbuffer_pixels as u32 == 0xFFFF_FFFF || c.max_pbuffer_pixels as u32 == value),
        segment_agrees(c, 37, value) <==> (c.optimal_pbuffer_width as u32 == 0xFFFF_FFFF || c.optimal_pbuffer_width as u32 == value),
        segment_agrees(c, 38, value) <==> (c.optimal_pbuffer_height as u32 == 0xFFFF_FFFF || c.optimal_pbuffer_height as u32 == value),
        segment_agrees(c, 43, value) <==> (c.bind_to_texture_rgb as u32 == 0xFFFF_FFFF || c.bind_to_texture_rgb as u32 == value),
        segment_agrees(c, 44, value) <==> (c.bind_to_texture_rgba as u32 == 0xFFFF_FFFF || c.bind_to_texture_rgba as u32 == value),
        segment_agrees(c, 45, value) <==> (c.bind_to_mipmap_texture as u32 == 0xFFFF_FFFF || c.bind_to_mipmap_texture as u32 == value),
        segment_agrees(c, 47, value) <==> (c.y_inverted as u32 == 0xFFFF_FFFF || c.y_inverted as u32 == value),
        segment_agrees(c, 48, value) <==> (c.srgb_capable as u32 == 0xFFFF_FFFF || c.srgb_capable as u32 == value),
        segment_agrees(c, 20, value) <==> (c.double_buffer_mode == 0xFFFF_FFFF || c.double_buffer_mode == value),
        segment_agrees(c, 21, value) <==> (c.stereo_mode == 0xFFFF_FFFF || c.stereo_mode == value),
{
}

/// Each GLX render type bit stands for its DRI bit: RGBA (1) for a value sharing a bit with
/// 17 (the render type attribute's number), color index (2) for the DRI color index bit (2),
/// float RGBA (4) for the DRI float bit (8), unsigned float RGBA (8) for the DRI unsigned
/// float bit (0x10); no other bit is set. A configuration agrees with a render type value
/// exactly when its render type has these bits.
pub proof fn lemma_render_type_bits(c: GlConfig, value: u32)
    ensures
        (render_type_of(value) & 1 != 0) == (value & 17 != 0),
        (render_type_of(value) & 2 != 0) == (value & 2 != 0),
        (render_type_of(value) & 4 != 0) == (value & 8 != 0),
        (render_type_of(value) & 8 != 0) == (value & 0x10 != 0),
        render_type_of(value) & !15i32 == 0,
        segment_agrees(c, 17, value) <==> c.render_type == render_type_of(value),
{
    let r = render_type_of(value);
    assert(r == (if value & 17 != 0 { 1i32 } else { 0i32 }) | (if value & 2 != 0 { 2i32 } else { 0i32 })
        | (if value & 8 != 0 { 4i32 } else { 0i32 }) | (if value & 0x10 != 0 { 8i32 } else { 0i32 }));
    assert({
        &&& (r & 1 != 0) == (value & 17 != 0)
        &&& (r & 2 != 0) == (value & 2 != 0)
        &&& (r & 4 != 0) == (value & 8 != 0)
        &&& (r & 8 != 0) == (value & 0x10 != 0)
        &&& r & !15i32 == 0
    }) by (bit_vector)
        requires
            r == (if value & 17 != 0 { 1i32 } else { 0i32 }) | (if value & 2 != 0 { 2i32 } else { 0i32 })
                | (if value & 8 != 0 { 4i32 } else { 0i32 }) | (if value & 0x10 != 0 { 8i32 } else { 0i32 }),
    ;
}

/// Each GLX texture target bit stands for the DRI bit of the same target: 1D (1), 2D (2),
/// rectangle (4); no other bit is set. A configuration agrees when it does not care (-1) or
/// binds exactly those targets.
pub proof fn lemma_texture_target_bits(c: GlConfig, value: u32)
    ensures
        (texture_targets_of(value) & 1 != 0) == (value & 1 != 0),
        (texture_targets_of(value) & 2 != 0) == (value & 2 != 0),
        (texture_targets_of(value) & 4 != 0) == (value & 4 != 0),
        texture_targets_of(value) & !7i32 == 0,
        segment_agrees(c, 46, value) <==> (c.bind_to_texture_targets == -1 || c.bind_to_texture_targets
            == texture_targets_of(value)),
{
    let r = texture_targets_of(value);
    assert(r == (if value & 1 != 0 { 1i32 } else { 0i32 }) | (if value & 2 != 0 { 2i32 } else { 0i32 })
        | (if value & 4 != 0 { 4i32 } else { 0i32 }));
    assert({
        &&& (r & 1 != 0) == (value & 1 != 0)
        &&& (r & 2 != 0) == (value & 2 != 0)
        &&& (r & 4 != 0) == (value & 4 != 0)
        &&& r & !7i32 == 0
    }) by (bit_vector)
        requires
            r == (if value & 1 != 0 { 1i32 } else { 0i32 }) | (if value & 2 != 0 { 2i32 } else { 0i32 })
                | (if value & 4 != 0 { 4i32 } else { 0i32 }),
    ;
}

/// A configuration agrees with every attribute of a driver configuration.
pub open spec fn all_agree(c: GlConfig, attribs: Seq<(u32, u32)>) -> bool {
    forall|i: int| 0 <= i < attribs.len() ==> segment_agrees(c, #[trigger] attribs[i].0, attribs[i].1)
}

/// The first driver configuration, from `from` on, that agrees with `c`.
pub open spec fn first_agreeing(c: GlConfig, drivers: Seq<Seq<(u32, u32)>>, from: int) -> Option<int>
    decreases drivers.len() - from,
{
    if from < 0 || from >= drivers.len() {
        None
    } else if all_agree(c, drivers[from]) {
        Some(from)
    } else {
        first_agreeing(c, drivers, from + 1)
    }
}

/// For each configuration in order that some driver configuration agrees with, the index
/// of the first such driver configuration.
pub open spec fn conversion(configs: Seq<GlConfig>, drivers: Seq<Seq<(u32, u32)>>) -> Seq<usize>
    decreases configs.len(),
{
    if configs.len() == 0 {
        Seq::empty()
    } else {
        let prev = conversion(configs.drop_last(), drivers);
        match first_agreeing(configs.last(), drivers, 0) {
            Some(d) => prev.push(d as usize),
            None => prev,
        }
    }
}

/// The value of a directly held attribute.
fn direct_attrib_value(c: &GlConfig, attrib: u32) -> (r: Option<u32>)
    ensures
        r == direct_attrib(*c, attrib),
{
    if attrib == DRI_ATTRIB_BUFFER_SIZE {
        Some(c.rgb_bits as u32)
    } else if attrib == DRI_ATTRIB_LEVEL {
        Some(c.level as u32)
    } else if attrib == DRI_ATTRIB_RED_SIZE {
        Some(c.red_bits as u32)
    } else if attrib == DRI_ATTRIB_GREEN_SIZE {
        Some(c.green_bits as u32)
    } else if attrib == DRI_ATTRIB_BLUE_SIZE {
        Some(c.blue_bits as u32)
    } else if attrib == DRI_ATTRIB_ALPHA_SIZE {
        Some(c.alpha_bits as u32)
    } else if attrib == DRI_ATTRIB_DEPTH_SIZE {
        Some(c.depth_bits as u32)
    } else if attrib == DRI_ATTRIB_STENCIL_SIZE {
        Some(c.stencil_bits as u32)
    } else if attrib == DRI_ATTRIB_ACCUM_RED_SIZE {
        Some(c.accum_red_bits as u32)
    } else if attrib == DRI_ATTRIB_ACCUM_GREEN_SIZE {
        Some(c.accum_green_bits as u32)
    } else if attrib == DRI_ATTRIB_ACCUM_BLUE_SIZE {
        Some(c.accum_blue_bits as u32)
    } else if attrib == DRI_ATTRIB_ACCUM_ALPHA_SIZE {
        Some(c.accum_alpha_bits as u32)
    } else if attrib == DRI_ATTRIB_SAMPLE_BUFFERS {
        Some(c.sample_buffers as u32)
    } else if attrib == DRI_ATTRIB_SAMPLES {
        Some(c.samples as u32)
    } else if attrib == DRI_ATTRIB_DOUBLE_BUFFER {
        Some(c.double_buffer_mode)
    } else if attrib == DRI_ATTRIB_STEREO {
        Some(c.stereo_mode)
    } else if attrib == DRI_ATTRIB_AUX_BUFFERS {
        Some(c.num_aux_buffers as u32)
    } else if attrib == DRI_ATTRIB_MAX_PBUFFER_WIDTH {
        Some(c.max_pbuffer_width as u32)
    } else if attrib == DRI_ATTRIB_MAX_PBUFFER_HEIGHT {
        Some(c.max_pbuffer_height as u32)
    } else if attrib == DRI_ATTRIB_MAX_PBUFFER_PIXELS {
        Some(c.max_pbuffer_pixels as u32)
    } else if attrib == DRI_ATTRIB_OPTIMAL_PBUFFER_WIDTH {
        Some(c.optimal_pbuffer_width as u32)
    } else if attrib == DRI_ATTRIB_OPTIMAL_PBUFFER_HEIGHT {
        Some(c.optimal_pbuffer_height as u32)
    } else if attrib == DRI_ATTRIB_BIND_TO_TEXTURE_RGB {
        Some(c.bind_to_texture_rgb as u32)
    } else if attrib == DRI_ATTRIB_BIND_TO_TEXTURE_RGBA {
        Some(c.bind_to_texture_rgba as u32)
    } else if attrib == DRI_ATTRIB_BIND_TO_MIPMAP_TEXTURE {
        Some(c.bind_to_mipmap_texture as u32)
    } else if attrib == DRI_ATTRIB_YINVERTED {
        Some(c.y_inverted as u32)
    } else if attrib == DRI_ATTRIB_FRAMEBUFFER_SRGB_CAPABLE {
        Some(c.srgb_capable as u32)
    } else {
        None
    }
}

/// Compare an attribute that the configuration holds directly.
pub fn raw_compare(config: &GlConfig, attrib: u32, value: u32) -> (r: bool)
    ensures
        r == raw_agrees(*config, attrib, value),
{
    match direct_attrib_value(config, attrib) {
        Some(cfg_val) => cfg_val == DONT_CARE_U || cfg_val == value,
        None => true,
    }
}

/// Compare one attribute and value of a driver configuration with a configuration.
pub fn config_seg_equal(config: &GlConfig, attrib: u32, value: u32) -> (r: bool)
    ensures
        r == segment_agrees(*config, attrib, value),
{
    if attrib == DRI_ATTRIB_RENDER_TYPE {
        let equivalent = (if value & DRI_ATTRIB_RENDER_TYPE != 0 { RGBA_BIT } else { 0 })
            | (if value & DRI_ATTRIB_COLOR_INDEX_BIT != 0 { COLOR_INDEX_BIT } else { 0 })
            | (if value & DRI_ATTRIB_FLOAT_BIT != 0 { RGBA_FLOAT_BIT_ARB } else { 0 })
            | (if value & DRI_ATTRIB_UNSIGNED_FLOAT_BIT != 0 { RGBA_UNSIGNED_FLOAT_BIT_EXT } else { 0 });
        config.render_type == equivalent
    } else if attrib == DRI_ATTRIB_CONFIG_CAVEAT {
        let equivalent = if value & DRI_ATTRIB_NON_CONFORMANT_CONFIG != 0 {
            NON_CONFORMANT_CONFIG
        } else if value & DRI_ATTRIB_SLOW_BIT != 0 {
            SLOW_CONFIG
        } else {
            CONFIG_NONE
        };
        config.visual_rating == equivalent
    } else if attrib == DRI_ATTRIB_BIND_TO_TEXTURE_TARGETS {
        let equivalent = (if value & DRI_ATTRIB_TEXTURE_1D_BIT != 0 { TEXTURE_1D_BIT_EXT } else { 0 })
            | (if value & DRI_ATTRIB_TEXTURE_2D_BIT != 0 { TEXTURE_2D_BIT_EXT } else { 0 })
            | (if value & DRI_ATTRIB_TEXTURE_RECTANGLE_BIT != 0 { TEXTURE_RECTANGLE_BIT_EXT } else { 0 });
        config.bind_to_texture_targets == DONT_CARE || config.bind_to_texture_targets == equivalent
    } else if attrib == DRI_ATTRIB_SWAP_METHOD {
        let equivalent = if value == DRI_ATTRIB_SWAP_EXCHANGE {
            GlSwapMethod::Exchange
        } else if value == DRI_ATTRIB_SWAP_COPY {
            GlSwapMethod::Copy
        } else {
            GlSwapMethod::Undefined
        };
        config.swap_method == GlSwapMethod::DontCare || config.swap_method == equivalent
    } else {
        raw_compare(config, attrib, value)
    }
}

/// Whether a configuration agrees with every attribute and value that a driver
/// configuration lists; the first disagreement decides.
pub fn configs_equal(config: &GlConfig, driver_attribs: &[(u32, u32)]) -> (r: bool)
    ensures
        r == all_agree(*config, driver_attribs@),
{
    let mut i: usize = 0;
    while i < driver_attribs.len()
        invariant
            i <= driver_attribs.len(),
            forall|j: int| 0 <= j < i ==> segment_agrees(*config, #[trigger] driver_attribs@[j].0, driver_attribs@[j].1),
        decreases driver_attribs.len() - i,
    {
        let (attrib, value) = driver_attribs[i];
        if !config_seg_equal(config, attrib, value) {
            return false;
        }
        i = i + 1;
    }
    true
}

/// The hash of a configuration, from `AHasher::default` of ahash fed by the configuration's
/// derived `Hash`. With the `std` feature the hasher's keys are drawn once per process, so
/// nothing is stated of the value.
#[verifier::external_body]
pub(crate) fn config_hash(c: &GlConfig) -> u64 {
    let mut hasher = AHasher::default();
    c.hash(&mut hasher);
    hasher.finish()
}

/// The index of the first driver configuration that agrees with `c`.
fn first_equal_driver(c: &GlConfig, drivers: &[Vec<(u32, u32)>]) -> (r: Option<usize>)
    ensures
        r == (match first_agreeing(*c, drivers@.map_values(|v: Vec<(u32, u32)>| v@), 0) {
            Some(d) => Some(d as usize),
            None => None::<usize>,
        }),
{
    let ghost ds = drivers@.map_values(|v: Vec<(u32, u32)>| v@);
    let mut k: usize = 0;
    while k < drivers.len()
        invariant
            k <= drivers.len(),
            ds == drivers@.map_values(|v: Vec<(u32, u32)>| v@),
            first_agreeing(*c, ds, 0) == first_agreeing(*c, ds, k as int),
        decreases drivers.len() - k,
    {
        if configs_equal(c, drivers[k].as_slice()) {
            return Some(k);
        }
        k = k + 1;
    }
    None
}

/// Pair each configuration (in order) that a driver configuration agrees with, with the
/// index of the first such driver configuration and the configuration's hash.
pub fn convert_configs(configs: &[GlConfig], drivers: &[Vec<(u32, u32)>]) -> (r: Vec<(u64, usize)>)
    ensures
        r@.len() == conversion(configs@, drivers@.map_values(|v: Vec<(u32, u32)>| v@)).len(),
        forall|k: int|
            0 <= k < r@.len() ==> #[trigger] r@[k].1 == conversion(
                configs@,
                drivers@.map_values(|v: Vec<(u32, u32)>| v@),
            )[k],
{
    let ghost ds = drivers@.map_values(|v: Vec<(u32, u32)>| v@);
    let mut out: Vec<(u64, usize)> = Vec::new();
    let mut i: usize = 0;
    while i < configs.len()
        invariant
            i <= configs.len(),
            ds == drivers@.map_values(|v: Vec<(u32, u32)>| v@),
            out@.len() == conversion(configs@.subrange(0, i as int), ds).len(),
            forall|k: int|
                0 <= k < out@.len() ==> #[trigger] out@[k].1 == conversion(
                    configs@.subrange(0, i as int),
                    ds,
                )[k],
        decreases configs.len() - i,
    {
        proof {
            assert(configs@.subrange(0, i + 1).drop_last() =~= configs@.subrange(0, i as int));
        }
        match first_equal_driver(&configs[i], drivers) {
            Some(d) => {
                let h = config_hash(&configs[i]);
                out.push((h, d));
            },
            None => {},
        }
        i = i + 1;
    }
    proof {
        assert(configs@.subrange(0, configs.len() as int) =~= configs@);
    }
    out
}


/// The driver configuration chosen for a configuration is the first one, from `from` on, that
/// it agrees with attribute by attribute; none is chosen when it agrees with none of them.
pub proof fn lemma_first_agreeing_is_first(c: GlConfig, drivers: Seq<Seq<(u32, u32)>>, from: int)
    requires
        0 <= from,
    ensures
        match first_agreeing(c, drivers, from) {
            Some(k) => {
                &&& from <= k < drivers.len()
                &&& all_agree(c, drivers[k])
                &&& forall|j: int| from <= j < k ==> !all_agree(c, #[trigger] drivers[j])
            },
            None => forall|j: int| from <= j < drivers.len() ==> !all_agree(c, #[trigger] drivers[j]),
        },
    decreases drivers.len() - from,
{
    if from < drivers.len() {
        if !all_agree(c, drivers[from]) {
            lemma_first_agreeing_is_first(c, drivers, from + 1);
        }
    }
}

} // verus!
