use breadglx::dri::drawable::{
    blit_context_step, blit_extent, blit_flags, blit_supported, buffers_plan, damage_rectangles, drawable_init, drawable_swap_method,
    created_buffer_slot, needs_server_copy, pixmap_import_multiplane, PixmapStep, swap_interval_for_vblank_mode, BackSearch, BlitContextStep, BufferSlot, BufferType,
    BufferFetch, BuffersPlan, SwapAction, SwapEvent, SwapProgress, SwapRequest, SwapStage, DamageRect, FetchAction, FetchEvent, FetchStage, Dri3Drawable, DrawableInit, DrawableState, FrontPlan,
    PresentEffect, PresentEventError, ReplacePlan, RequestOutcome, FRONT_ID, MAX_BACK,
    NUM_BUFFERS, PRESENT_MODE_COPY, PRESENT_MODE_FLIP, PRESENT_MODE_SKIP,
};
use breadglx::dri::tokens::{
    DRI_ATTRIB_SWAP_COPY, DRI_ATTRIB_SWAP_EXCHANGE, DRI_ATTRIB_SWAP_UNDEFINED,
    DRI_IMAGE_BUFFER_BACK, DRI_IMAGE_BUFFER_FRONT,
};

fn slot(pixmap: u32, busy: i32) -> BufferSlot {
    BufferSlot {
        pixmap,
        own_pixmap: true,
        cpp: 4,
        modifier: 0,
        has_linear: false,
        busy,
        reallocate: false,
        width: 10,
        height: 20,
        last_swap: 0,
    }
}

fn event(id: u16, payload: [u8; 4], little_endian: bool) -> Vec<u8> {
    let mut bytes = vec![0u8; 32];
    let idb = if little_endian { id.to_le_bytes() } else { id.to_be_bytes() };
    bytes[8] = idb[0];
    bytes[9] = idb[1];
    bytes[24..28].copy_from_slice(&payload);
    bytes
}

#[test]
fn new_state_is_empty() {
    let st = DrawableState::new();
    assert_eq!(st.buffers.len(), NUM_BUFFERS);
    assert!(st.buffers.iter().all(|b| b.is_none()));
    assert_eq!(st.send_sbc, 0);
    let d = DrawableState::default();
    assert_eq!(d.buffers.len(), NUM_BUFFERS);
    assert_eq!(d.cur_blit_source, 0);
}

#[test]
fn max_back_after_flip_copy_skip() {
    let mut st = DrawableState::new();
    st.last_present_mode = PRESENT_MODE_FLIP;
    st.max_num_back = 4;
    st.cur_num_back = 3;
    st.update_max_back(1);
    assert_eq!((st.max_num_back, st.cur_num_back), (3, 2));
    st.update_max_back(0);
    assert_eq!((st.max_num_back, st.cur_num_back), (4, 2));
    st.last_present_mode = PRESENT_MODE_SKIP;
    st.update_max_back(1);
    assert_eq!((st.max_num_back, st.cur_num_back), (4, 2));
    st.last_present_mode = PRESENT_MODE_COPY;
    st.update_max_back(1);
    assert_eq!((st.max_num_back, st.cur_num_back), (2, 1));
    st.cur_num_back = 2;
    st.update_max_back(1);
    assert_eq!((st.max_num_back, st.cur_num_back), (2, 2));
}

#[test]
fn max_back_update_is_idempotent_and_keeps_other_fields() {
    let mut st = DrawableState::new();
    st.last_present_mode = PRESENT_MODE_FLIP;
    st.max_num_back = 4;
    st.cur_num_back = 3;
    st.notify_msc = 7;
    st.ust = 11;
    st.sbc = 3;
    st.have_fake_front = true;
    st.back_format = 0x1003;
    st.buffers[1] = Some(slot(5, 1));
    st.update_max_back(1);
    let once = st.clone();
    st.update_max_back(1);
    assert_eq!((st.max_num_back, st.cur_num_back), (once.max_num_back, once.cur_num_back));
    assert_eq!((st.notify_msc, st.ust, st.sbc), (7, 11, 3));
    assert!(st.have_fake_front);
    assert_eq!(st.back_format, 0x1003);
    assert_eq!(st.buffers[1], Some(slot(5, 1)));
    assert_eq!(st.last_present_mode, PRESENT_MODE_FLIP);
}

#[test]
fn pixmap_buffer_reuses_or_imports() {
    let mut st = DrawableState::new();
    assert_eq!(st.pixmap_buffer_step(FRONT_ID), PixmapStep::Import);
    st.buffers[FRONT_ID] = Some(slot(9, 0));
    assert_eq!(st.pixmap_buffer_step(FRONT_ID), PixmapStep::Reuse(slot(9, 0)));
    let d = Dri3Drawable::new(0x400001, false, true, 640, 480, 24, 0, DRI_ATTRIB_SWAP_COPY as i32);
    let imported = d.imported_pixmap_slot(640, 480);
    assert_eq!(imported.pixmap, 0x400001);
    assert!(!imported.own_pixmap);
    assert_eq!((imported.cpp, imported.modifier), (0, 0));
    assert!(!imported.has_linear);
    assert_eq!((imported.busy, imported.last_swap), (0, 0));
    assert!(!imported.reallocate);
    assert_eq!((imported.width, imported.height), (640, 480));
}

#[test]
fn created_buffer_record() {
    let b = created_buffer_slot(4100, 0x600002, 300, 200, 7, true).unwrap();
    assert_eq!(b.pixmap, 0x600002);
    assert!(b.own_pixmap);
    assert_eq!((b.cpp, b.modifier), (4, 7));
    assert!(b.has_linear);
    assert_eq!((b.busy, b.last_swap), (0, 0));
    assert!(!b.reallocate);
    assert_eq!((b.width, b.height), (300, 200));
    let half = created_buffer_slot(4097, 1, 8, 8, 0, false).unwrap();
    assert_eq!(half.cpp, 2);
    assert!(!half.has_linear);
    assert_eq!(created_buffer_slot(1, 1, 8, 8, 0, false), None);
}

#[test]
fn configure_event_in_both_byte_orders() {
    for le in [true, false] {
        let mut st = DrawableState::new();
        let w: [u8; 2] = if le { 640u16.to_le_bytes() } else { 640u16.to_be_bytes() };
        let h: [u8; 2] = if le { 480u16.to_le_bytes() } else { 480u16.to_be_bytes() };
        let bytes = event(0, [w[0], w[1], h[0], h[1]], le);
        let r = st.process_present_event(&bytes, le);
        assert_eq!(r, Ok(PresentEffect::Resized { width: 640, height: 480 }));
    }
}

#[test]
fn idle_event_frees_matching_buffers() {
    let mut st = DrawableState::new();
    st.buffers[0] = Some(slot(0x1234, 1));
    st.buffers[1] = Some(slot(0x9999, 1));
    st.buffers[FRONT_ID] = Some(slot(0x1234, 1));
    let bytes = event(2, 0x1234u32.to_le_bytes(), true);
    assert_eq!(st.process_present_event(&bytes, true), Ok(PresentEffect::Unchanged));
    assert_eq!(st.buffers[0].unwrap().busy, 0);
    assert_eq!(st.buffers[1].unwrap().busy, 1);
    assert_eq!(st.buffers[FRONT_ID].unwrap().busy, 0);
    assert!(st.buffers[2].is_none());
}

#[test]
fn short_and_other_events() {
    let mut st = DrawableState::new();
    assert_eq!(st.process_present_event(&[0u8; 9], true), Err(PresentEventError::NotEnoughBytes));
    let mut short = event(0, [0; 4], true);
    short.truncate(20);
    assert_eq!(st.process_present_event(&short, true), Err(PresentEventError::NotEnoughBytes));
    let complete = event(1, [0; 4], true);
    assert_eq!(st.process_present_event(&complete[..12], true), Ok(PresentEffect::Unchanged));
}

#[test]
fn prepare_swap_counts_and_targets() {
    let mut st = DrawableState::new();
    st.buffers[0] = Some(slot(7, 0));
    st.msc = 100;
    st.cur_blit_source = -1;
    let p = st.prepare_swap(0, 1, true, false, 0, 0, 0);
    assert_eq!(st.send_sbc, 1);
    assert_eq!(p.target_msc, 102);
    assert_eq!(p.options, 0);
    assert_eq!(st.buffers[0].unwrap().busy, 1);
    assert_eq!(st.buffers[0].unwrap().last_swap, 1);
    st.cur_blit_source = 0;
    let q = st.prepare_swap(0, 0, true, true, 500, 2, 1);
    assert_eq!(q.target_msc, 500);
    assert_eq!(q.options, 1 | 2 | 8);
    assert_eq!((q.divisor, q.remainder), (2, 1));
}

#[test]
fn back_search_finds_grows_and_waits() {
    let mut st = DrawableState::new();
    st.cur_num_back = 1;
    st.max_num_back = 2;
    assert_eq!(st.find_back_step(1, 2), BackSearch::Found(0));
    st.buffers[0] = Some(slot(1, 1));
    assert_eq!(st.find_back_step(1, 2), BackSearch::Grew(2));
    assert_eq!(st.cur_num_back, 2);
    assert_eq!(st.find_back_step(2, 2), BackSearch::Found(1));
    assert_eq!(st.cur_back, 1);
    st.buffers[1] = Some(slot(2, 1));
    assert_eq!(st.find_back_step(2, 2), BackSearch::Wait);
}

#[test]
fn back_search_wraps_round_back_buffers() {
    let mut st = DrawableState::new();
    st.cur_back = 1;
    st.cur_num_back = 2;
    st.max_num_back = 2;
    st.buffers[1] = Some(slot(1, 1));
    st.buffers[2] = Some(slot(2, 1));
    assert_eq!(st.find_back_step(2, 2), BackSearch::Found(0));
    assert_eq!(st.cur_back, 0);
}

#[test]
fn search_limits_without_blit() {
    let mut st = DrawableState::new();
    st.cur_num_back = 2;
    st.max_num_back = 3;
    st.cur_blit_source = 1;
    assert_eq!(st.back_search_limits(true), (2, 3));
    assert_eq!(st.cur_blit_source, 1);
    assert_eq!(st.back_search_limits(false), (1, 1));
    assert_eq!(st.cur_blit_source, -1);
}

#[test]
fn freeing_buffers() {
    let mut st = DrawableState::new();
    st.cur_blit_source = FRONT_ID as i32;
    assert_eq!(st.buffers_to_free(BufferType::Front), (FRONT_ID, 0));
    assert_eq!(st.buffers_to_free(BufferType::Back), (0, MAX_BACK));
    assert_eq!(st.cur_blit_source, -1);
    assert_eq!(st.buffers_to_free(BufferType::Front), (FRONT_ID, 1));
    st.buffers[1] = Some(slot(1, 0));
    st.buffers[3] = Some(slot(3, 0));
    st.cur_num_back = 1;
    st.cur_blit_source = 3;
    assert_eq!(st.spare_back_buffers(), vec![1]);
    assert_eq!(st.filled_slots_in(0, MAX_BACK), vec![1, 3]);
    assert_eq!(st.take_slot(1), Some(slot(1, 0)));
    assert!(st.buffers[1].is_none());
    st.install(2, slot(9, 0));
    assert_eq!(st.buffers[2], Some(slot(9, 0)));
}

#[test]
fn exchange_and_server_blit() {
    let mut st = DrawableState::new();
    st.cur_back = 1;
    st.cur_blit_source = -1;
    st.buffers[1] = Some(slot(1, 0));
    st.buffers[FRONT_ID] = Some(slot(4, 0));
    st.exchange_for_swap(DRI_ATTRIB_SWAP_COPY as i32, false, true, true);
    assert_eq!(st.buffers[1], Some(slot(4, 0)));
    assert_eq!(st.buffers[FRONT_ID], Some(slot(1, 0)));
    assert_eq!(st.cur_blit_source, FRONT_ID as i32);
    assert_eq!(st.server_blit_after_swap(true), Some((FRONT_ID, 1)));
    assert_eq!(st.server_blit_after_swap(false), None);
    let mut plain = DrawableState::new();
    plain.cur_blit_source = -1;
    plain.exchange_for_swap(DRI_ATTRIB_SWAP_UNDEFINED as i32, false, false, true);
    assert_eq!(plain.cur_blit_source, -1);
    plain.exchange_for_swap(DRI_ATTRIB_SWAP_UNDEFINED as i32, true, false, true);
    assert_eq!(plain.cur_blit_source, 0);
}

#[test]
fn replacing_buffers() {
    let mut st = DrawableState::new();
    assert!(st.needs_new_buffer(0, 10, 20));
    st.buffers[0] = Some(slot(1, 0));
    assert!(!st.needs_new_buffer(0, 10, 20));
    assert!(st.needs_new_buffer(0, 11, 20));
    assert_eq!(st.replace_plan(0, BufferType::Back, false), ReplacePlan::CopyOld(slot(1, 0)));
    assert!(st.buffers[0].is_none());
    assert_eq!(st.replace_plan(FRONT_ID, BufferType::Front, false), ReplacePlan::FillFromFront);
    assert_eq!(st.replace_plan(2, BufferType::Back, false), ReplacePlan::Fresh);
    st.buffers[FRONT_ID] = Some(slot(4, 0));
    assert_eq!(st.replace_plan(FRONT_ID, BufferType::Front, true), ReplacePlan::CopyOld(slot(4, 0)));
}

#[test]
fn blit_source_carries_last_swap() {
    let mut st = DrawableState::new();
    st.buffers[0] = Some(BufferSlot { last_swap: 5, ..slot(1, 0) });
    st.buffers[1] = Some(slot(2, 0));
    st.cur_blit_source = 0;
    assert_eq!(st.pending_blit_source(1), Some(0));
    assert_eq!(st.pending_blit_source(0), None);
    st.finish_blit(1, 0);
    assert_eq!(st.buffers[1].unwrap().last_swap, 5);
    assert_eq!(st.cur_blit_source, -1);
    assert_eq!(st.pending_blit_source(1), None);
}

#[test]
fn vblank_modes_and_features() {
    assert_eq!(swap_interval_for_vblank_mode(0), 0);
    assert_eq!(swap_interval_for_vblank_mode(1), 0);
    assert_eq!(swap_interval_for_vblank_mode(2), 1);
    assert_eq!(swap_interval_for_vblank_mode(3), 1);
    assert!(blit_supported(Some(9), true));
    assert!(!blit_supported(Some(8), true));
    assert!(!blit_supported(Some(12), false));
    assert!(!blit_supported(None, true));
    assert!(pixmap_import_multiplane(true, 15, true));
    assert!(!pixmap_import_multiplane(true, 14, true));
    assert!(!pixmap_import_multiplane(false, 15, true));
    assert_eq!(drawable_swap_method(2, DRI_ATTRIB_SWAP_COPY as i32), DRI_ATTRIB_SWAP_COPY as i32);
    assert_eq!(drawable_swap_method(1, DRI_ATTRIB_SWAP_COPY as i32), DRI_ATTRIB_SWAP_UNDEFINED as i32);
}

#[test]
fn damage_is_flipped() {
    let r = damage_rectangles(&[1, 2, 3, 4, 9], 100);
    assert_eq!(r, vec![DamageRect { x: 1, y: 94, width: 3, height: 4 }]);
    assert!(damage_rectangles(&[1, 2, 3], 100).is_empty());
}

#[test]
fn buffer_plans() {
    let p = buffers_plan(DRI_IMAGE_BUFFER_BACK, false, DRI_ATTRIB_SWAP_COPY as i32, false);
    assert_eq!(p, BuffersPlan { front: FrontPlan::Free, back: true, image_mask: DRI_IMAGE_BUFFER_BACK });
    let pix = buffers_plan(DRI_IMAGE_BUFFER_BACK, true, DRI_ATTRIB_SWAP_COPY as i32, false);
    assert_eq!(pix.front, FrontPlan::PixmapBuffer);
    assert_eq!(pix.image_mask, DRI_IMAGE_BUFFER_FRONT | DRI_IMAGE_BUFFER_BACK);
    let other_gpu = buffers_plan(0, true, DRI_ATTRIB_SWAP_COPY as i32, true);
    assert_eq!(other_gpu, BuffersPlan { front: FrontPlan::FakeFront, back: false, image_mask: DRI_IMAGE_BUFFER_FRONT });
    let exchange = buffers_plan(0, false, DRI_ATTRIB_SWAP_EXCHANGE as i32, false);
    assert_eq!(exchange.front, FrontPlan::FakeFront);
}

#[test]
fn first_update_of_drawable() {
    let w = drawable_init(RequestOutcome::Done, 5, 1, 640, 480, Some(3));
    assert_eq!(w, Some(DrawableInit { is_pixmap: false, window: 5, capabilities: 3, width: 640, height: 480 }));
    let p = drawable_init(RequestOutcome::ProtocolError(3), 5, 1, 64, 48, None);
    assert_eq!(p, Some(DrawableInit { is_pixmap: true, window: 1, capabilities: 0, width: 64, height: 48 }));
    assert_eq!(drawable_init(RequestOutcome::ProtocolError(8), 5, 1, 64, 48, None), None);
    assert_eq!(drawable_init(RequestOutcome::OtherError, 5, 1, 64, 48, None), None);
}

#[test]
fn drawable_lifecycle() {
    let mut d = Dri3Drawable::new(5, false, true, 640, 480, 24, 0, DRI_ATTRIB_SWAP_COPY as i32);
    assert_eq!(d.swap_interval, 0);
    assert!(!d.is_pixmap());
    assert!(!d.is_different_gpu());
    assert_eq!(d.swap_method(), DRI_ATTRIB_SWAP_COPY as i32);
    d.set_have_fake_front(true);
    assert!(d.have_fake_front());
    d.set_have_back(false);
    assert!(!d.has_back);
    d.initialize(DrawableInit { is_pixmap: true, window: 1, capabilities: 2, width: 10, height: 11 });
    assert!(d.is_initialized && d.is_pixmap());
    d.initialize(DrawableInit { is_pixmap: false, window: 9, capabilities: 9, width: 1, height: 1 });
    assert_eq!(d.window, 1);
    let bytes = event(0, [1, 0, 2, 0], true);
    assert_eq!(d.process_present_event(&bytes, true), Ok(true));
    assert_eq!((d.width, d.height), (1, 2));
    let idle = event(2, [0; 4], true);
    assert_eq!(d.process_present_event(&idle, true), Ok(false));
    d.state.last_present_mode = PRESENT_MODE_FLIP;
    d.update_max_back();
    assert_eq!(d.state.max_num_back, 4);
}

#[test]
fn sbc_wait_targets() {
    let mut st = DrawableState::new();
    st.send_sbc = 12;
    assert_eq!(st.sbc_wait_target(0), 12);
    assert_eq!(st.sbc_wait_target(5), 5);
}

#[test]
fn exchanging_twice_restores_slots() {
    let mut st = DrawableState::new();
    st.cur_back = 2;
    st.buffers[2] = Some(slot(2, 0));
    st.buffers[FRONT_ID] = Some(slot(4, 1));
    let before = st.buffers.clone();
    st.exchange_for_swap(DRI_ATTRIB_SWAP_UNDEFINED as i32, false, true, true);
    assert_ne!(st.buffers, before);
    st.exchange_for_swap(DRI_ATTRIB_SWAP_UNDEFINED as i32, false, true, true);
    assert_eq!(st.buffers, before);
}

#[test]
fn replacement_copies() {
    let old = slot(1, 0);
    assert_eq!(blit_extent(old, 5, 30), (5, 20));
    assert!(needs_server_copy(false, false));
    assert!(!needs_server_copy(false, true));
    assert!(!needs_server_copy(true, false));
}

#[test]
fn blit_context_and_flags() {
    assert_eq!(blit_context_step(Some(4), 4), BlitContextStep::Reuse);
    assert_eq!(blit_context_step(Some(4), 5), BlitContextStep::FreeAndCreate);
    assert_eq!(blit_context_step(None, 5), BlitContextStep::Create);
    assert_eq!(blit_flags(false, true, 0), None);
    assert_eq!(blit_flags(true, true, 2), Some(2));
    assert_eq!(blit_flags(true, false, 2), Some(3));
}

#[test]
fn fetch_reuses_and_blits_from_source() {
    let mut st = DrawableState::new();
    st.buffers[0] = Some(slot(1, 0));
    st.buffers[1] = Some(BufferSlot { last_swap: 7, ..slot(2, 0) });
    st.cur_blit_source = 1;
    let (f, a) = st.start_fetch(0, BufferType::Back, 10, 20);
    assert_eq!(f.stage, FetchStage::Blitting(1));
    assert_eq!(a, FetchAction::Blit(1));
    let (f, a) = st.fetch_step(f, FetchEvent::Blitted);
    assert_eq!((f.stage, a), (FetchStage::Done, FetchAction::HandOut));
    assert_eq!(st.buffers[0].unwrap().last_swap, 7);
    assert_eq!(st.cur_blit_source, -1);
    let (f, a) = st.start_fetch(0, BufferType::Back, 10, 20);
    assert_eq!((f.stage, a), (FetchStage::Done, FetchAction::HandOut));
}

#[test]
fn fetch_replaces_wrongly_sized_back_buffer() {
    let mut st = DrawableState::new();
    st.cur_blit_source = -1;
    let old = BufferSlot { width: 5, ..slot(1, 0) };
    st.buffers[2] = Some(old);
    let (f, a) = st.start_fetch(2, BufferType::Back, 10, 20);
    assert_eq!(f, BufferFetch { id: 2, buffer_type: BufferType::Back, width: 10, height: 20, stage: FetchStage::Allocating });
    assert_eq!(a, FetchAction::Allocate);
    let new = slot(3, 0);
    let (f, a) = st.fetch_step(f, FetchEvent::Allocated(new));
    assert_eq!(f.stage, FetchStage::Carrying(new));
    assert_eq!(a, FetchAction::CopyOld(old));
    assert_eq!(st.buffers[2], None);
    let (f, a) = st.fetch_step(f, FetchEvent::Carried);
    assert_eq!((f.stage, a), (FetchStage::Done, FetchAction::HandOut));
    assert_eq!(st.buffers[2], Some(new));
}

#[test]
fn fetch_fills_new_front_from_real_front() {
    let mut st = DrawableState::new();
    st.cur_blit_source = -1;
    let (f, a) = st.start_fetch(FRONT_ID, BufferType::Front, 10, 20);
    assert_eq!(a, FetchAction::Allocate);
    let (f, a) = st.fetch_step(f, FetchEvent::Allocated(slot(4, 0)));
    assert_eq!(a, FetchAction::FillFromFront);
    let (f, a) = st.fetch_step(f, FetchEvent::Carried);
    assert_eq!((f.stage, a), (FetchStage::Done, FetchAction::HandOut));
    assert_eq!(st.buffers[FRONT_ID], Some(slot(4, 0)));
}

#[test]
fn fetch_installs_fresh_back_buffer_at_once() {
    let mut st = DrawableState::new();
    st.cur_blit_source = -1;
    let (f, a) = st.start_fetch(1, BufferType::Back, 10, 20);
    assert_eq!(a, FetchAction::Allocate);
    let (f, a) = st.fetch_step(f, FetchEvent::Allocated(slot(6, 0)));
    assert_eq!((f.stage, a), (FetchStage::Done, FetchAction::HandOut));
    assert_eq!(st.buffers[1], Some(slot(6, 0)));
}

fn swap_request(rects: Vec<i32>) -> SwapRequest {
    SwapRequest { target_msc: 0, divisor: 0, remainder: 0, force_copy: false, has_blit_image: true, rects }
}

#[test]
fn swap_presents_with_serial_region_and_invalidates() {
    let mut d = Dri3Drawable::new(0x500003, false, true, 640, 480, 24, 0, DRI_ATTRIB_SWAP_COPY as i32);
    d.state.cur_back = 0;
    d.state.cur_blit_source = -1;
    d.state.buffers[0] = Some(slot(11, 0));
    let req = swap_request(vec![1, 2, 3, 4, 9]);
    let p = SwapProgress { stage: SwapStage::Idle, have_buffer: false, width: 0, height: 0 };
    let (p, a) = d.swap_step(&req, p, SwapEvent::Begin);
    assert!(matches!(a, SwapAction::Flush));
    let (p, a) = d.swap_step(&req, p, SwapEvent::Flushed);
    assert!(matches!(a, SwapAction::FetchBack));
    let (p, a) = d.swap_step(&req, p, SwapEvent::BackFetched(true));
    assert!(matches!(a, SwapAction::ProcessEvents));
    assert_eq!((p.width, p.height, p.have_buffer), (640, 480, true));
    assert_eq!(d.state.cur_blit_source, 0);
    let (p, a) = d.swap_step(&req, p, SwapEvent::EventsProcessed);
    match a {
        SwapAction::Present(pr) => {
            assert_eq!(pr.window, 0x500003);
            assert_eq!(pr.pixmap, 11);
            assert_eq!(pr.serial, 1);
            assert_eq!(pr.region, vec![DamageRect { x: 1, y: 474, width: 3, height: 4 }]);
            assert_eq!(pr.params.target_msc, 1);
            assert_eq!((pr.params.divisor, pr.params.remainder), (0, 0));
        }
        other => panic!("expected a present request, got {:?}", other),
    }
    assert_eq!(d.state.send_sbc, 1);
    assert_eq!(d.state.buffers[0].unwrap().busy, 1);
    assert_eq!(d.state.buffers[0].unwrap().last_swap, 1);
    let (p, a) = d.swap_step(&req, p, SwapEvent::Presented);
    assert!(matches!(a, SwapAction::Invalidate));
    let (p, a) = d.swap_step(&req, p, SwapEvent::Invalidated);
    assert!(matches!(a, SwapAction::Finish));
    assert_eq!(p.stage, SwapStage::Done);
}

#[test]
fn swap_with_fake_front_copies_on_server() {
    let mut d = Dri3Drawable::new(0x500003, false, false, 640, 480, 24, 2, DRI_ATTRIB_SWAP_COPY as i32);
    d.set_have_fake_front(true);
    d.state.cur_back = 0;
    d.state.cur_blit_source = -1;
    d.state.buffers[0] = Some(slot(11, 0));
    d.state.buffers[FRONT_ID] = Some(slot(12, 0));
    let req = swap_request(vec![]);
    let p = SwapProgress { stage: SwapStage::FetchingBack, have_buffer: false, width: 0, height: 0 };
    let (p, _) = d.swap_step(&req, p, SwapEvent::BackFetched(true));
    assert_eq!(d.state.buffers[0].unwrap().pixmap, 12);
    assert_eq!(d.state.buffers[FRONT_ID].unwrap().pixmap, 11);
    assert_eq!(d.state.cur_blit_source, FRONT_ID as i32);
    let (p, a) = d.swap_step(&req, p, SwapEvent::EventsProcessed);
    match a {
        SwapAction::Present(pr) => {
            assert_eq!(pr.pixmap, 11);
            assert!(pr.region.is_empty());
        }
        other => panic!("expected a present request, got {:?}", other),
    }
    let (p, a) = d.swap_step(&req, p, SwapEvent::Presented);
    assert!(matches!(a, SwapAction::ServerCopy { src: 4, dst: 0 }));
    let (p, a) = d.swap_step(&req, p, SwapEvent::Copied);
    assert!(matches!(a, SwapAction::Invalidate));
    assert_eq!(d.state.buffers[0].unwrap().last_swap, 1);
    assert_eq!(p.stage, SwapStage::Invalidating);
}

#[test]
fn swap_on_other_gpu_copies_linear_first_and_pixmaps_skip_present() {
    let mut d = Dri3Drawable::new(0x500003, true, false, 64, 48, 24, 2, DRI_ATTRIB_SWAP_UNDEFINED as i32);
    d.state.cur_back = 1;
    d.state.cur_blit_source = -1;
    d.state.buffers[1] = Some(BufferSlot { has_linear: true, ..slot(7, 0) });
    let req = swap_request(vec![]);
    let p = SwapProgress { stage: SwapStage::FetchingBack, have_buffer: false, width: 0, height: 0 };
    let (p, a) = d.swap_step(&req, p, SwapEvent::BackFetched(true));
    assert!(matches!(a, SwapAction::CopyLinear(1)));
    let (p, a) = d.swap_step(&req, p, SwapEvent::LinearCopied);
    assert!(matches!(a, SwapAction::ProcessEvents));
    assert_eq!(d.state.cur_blit_source, -1);
    let (_, a) = d.swap_step(&req, p, SwapEvent::EventsProcessed);
    assert!(matches!(a, SwapAction::Present(_)));

    let mut e = Dri3Drawable::new(0x500004, false, false, 64, 48, 24, 2, DRI_ATTRIB_SWAP_UNDEFINED as i32);
    let p = SwapProgress { stage: SwapStage::FetchingBack, have_buffer: false, width: 0, height: 0 };
    let (p, _) = e.swap_step(&req, p, SwapEvent::BackFetched(false));
    let (_, a) = e.swap_step(&req, p, SwapEvent::EventsProcessed);
    assert!(matches!(a, SwapAction::Invalidate));
    assert_eq!(e.state.send_sbc, 0);
}
