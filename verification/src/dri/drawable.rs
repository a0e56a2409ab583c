//! The bookkeeping of a DRI3 drawable: its buffer slots, swap counters and present events.
use vstd::prelude::*;

use breadx::auto::present::Option_;

use super::formats::{cpp_for_format, cpp_of};

use super::tokens::{
    DRI_ATTRIB_SWAP_COPY, DRI_ATTRIB_SWAP_EXCHANGE, DRI_ATTRIB_SWAP_UNDEFINED, DRI_IMAGE_BUFFER_BACK,
    DRI_IMAGE_BUFFER_FRONT,
};

verus! {

pub const MAX_BACK: usize = 4;
pub const FRONT_ID: usize = 4;
pub const NUM_BUFFERS: usize = 5;

pub const PRESENT_MODE_COPY: u8 = 0;
pub const PRESENT_MODE_FLIP: u8 = 1;
pub const PRESENT_MODE_SKIP: u8 = 2;
pub const PRESENT_MODE_SUBOPTIMAL_COPY: u8 = 3;

/// The slot of the `i`th back buffer.
pub fn back_id(i: usize) -> (r: usize)
    ensures
        r == i,
{
    i
}

/// What the bookkeeping knows of one allocated buffer.
#[derive(Debug, Copy, Clone, PartialEq, Eq, Structural)]
pub struct BufferSlot {
    /// The X pixmap that presents the buffer.
    pub pixmap: u32,
    /// The buffer created its pixmap and frees it with itself; a buffer imported from an
    /// existing pixmap does not.
    pub own_pixmap: bool,
    /// Bytes per pixel of the buffer's format; 0 for a buffer imported from a pixmap.
    pub cpp: u32,
    /// The format modifier the buffer's image was created with.
    pub modifier: u64,
    /// The buffer has a linear twin that the server reads (when rendering on another GPU).
    pub has_linear: bool,
    /// Nonzero while the server still uses the buffer.
    pub busy: i32,
    /// The buffer must be allocated again before its next use.
    pub reallocate: bool,
    pub width: u16,
    pub height: u16,
    /// The swap count at which the buffer was last presented.
    pub last_swap: u64,
}

/// The mutable state of a DRI3 drawable.
#[derive(Debug, Clone)]
pub struct DrawableState {
    pub send_sbc: u64,
    pub recv_sbc: u64,
    pub notify_msc: i64,
    pub notify_ust: i64,
    pub msc: i64,
    pub ust: i64,
    pub sbc: i64,
    pub last_present_mode: u8,
    pub cur_back: usize,
    pub cur_num_back: usize,
    pub max_num_back: usize,
    pub cur_blit_source: i32,
    pub have_fake_front: bool,
    pub back_format: u32,
    /// One slot per buffer: the back buffers first, then the front one.
    pub buffers: Vec<Option<BufferSlot>>,
}

impl DrawableState {
    /// The state's shape: a slot for every buffer, and a current back buffer and blit
    /// source that name slots (the blit source may be -1, for none).
    pub open spec fn wf(&self) -> bool {
        &&& self.buffers@.len() == NUM_BUFFERS
        &&& self.cur_back < NUM_BUFFERS
        &&& -1 <= self.cur_blit_source < NUM_BUFFERS
    }

    /// A fresh state: every counter zero, every slot empty.
    pub fn new() -> (r: DrawableState)
        ensures
            r.wf(),
            r.send_sbc == 0 && r.recv_sbc == 0 && r.sbc == 0 && r.msc == 0 && r.ust == 0,
            r.notify_msc == 0 && r.notify_ust == 0,
            r.last_present_mode == 0 && r.cur_back == 0 && r.cur_num_back == 0,
            r.max_num_back == 0 && r.cur_blit_source == 0 && !r.have_fake_front,
            r.back_format == 0,
            forall|i: int| 0 <= i < NUM_BUFFERS ==> #[trigger] r.buffers@[i] is None,
    {
        let mut buffers: Vec<Option<BufferSlot>> = Vec::new();
        let mut i: usize = 0;
        while i < NUM_BUFFERS
            invariant
                i <= NUM_BUFFERS,
                buffers@.len() == i,
                forall|j: int| 0 <= j < i ==> #[trigger] buffers@[j] is None,
            decreases NUM_BUFFERS - i,
        {
            buffers.push(None);
            i = i + 1;
        }
        DrawableState {
            send_sbc: 0,
            recv_sbc: 0,
            notify_msc: 0,
            notify_ust: 0,
            msc: 0,
            ust: 0,
            sbc: 0,
            last_present_mode: 0,
            cur_back: 0,
            cur_num_back: 0,
            max_num_back: 0,
            cur_blit_source: 0,
            have_fake_front: false,
            back_format: 0,
            buffers,
        }
    }

    /// Adjust how many back buffers may be used after the last present mode: flipping
    /// allows four with a zero swap interval and three otherwise (and falls back to two
    /// in use when the limit shrinks); a skipped present changes nothing; copying allows
    /// two (and falls back to one in use when the limit changes).
    pub fn update_max_back(&mut self, draw_interval: i32)
        ensures
            *final(self) == (DrawableState {
                max_num_back: final(self).max_num_back,
                cur_num_back: final(self).cur_num_back,
                ..*old(self)
            }),
            (final(self).max_num_back, final(self).cur_num_back) == max_back_after(
                old(self).last_present_mode,
                old(self).max_num_back,
                old(self).cur_num_back,
                draw_interval,
            ),
    {
        if self.last_present_mode == PRESENT_MODE_FLIP {
            let new_max: usize = if draw_interval == 0 { 4 } else { 3 };
            if new_max < self.max_num_back {
                self.cur_num_back = 2;
            }
            self.max_num_back = new_max;
        } else if self.last_present_mode == PRESENT_MODE_SKIP {
        } else {
            if self.max_num_back != 2 {
                self.cur_num_back = 1;
            }
            self.max_num_back = 2;
        }
    }
}

/// The (most, in use) back buffers after a present of the given mode.
pub open spec fn max_back_after(mode: u8, max: usize, cur: usize, draw_interval: i32) -> (usize, usize) {
    if mode == PRESENT_MODE_FLIP {
        let new_max: usize = if draw_interval == 0 { 4 } else { 3 };
        (new_max, if new_max < max { 2 } else { cur })
    } else if mode == PRESENT_MODE_SKIP {
        (max, cur)
    } else {
        (2, if max != 2 { 1 } else { cur })
    }
}

/// Adjusting the limits a second time after the same present changes nothing.
pub proof fn lemma_max_back_idempotent(mode: u8, max: usize, cur: usize, draw_interval: i32)
    ensures
        ({
            let (m1, c1) = max_back_after(mode, max, cur, draw_interval);
            max_back_after(mode, m1, c1, draw_interval) == (m1, c1)
        }),
{
}

/// The back buffers in use never outnumber those allowed: adjusting the limit keeps the count
/// in use within it, and within the four back slots.
pub proof fn lemma_max_back_bounds(mode: u8, max: usize, cur: usize, draw_interval: i32)
    requires
        cur <= max,
    ensures
        max_back_after(mode, max, cur, draw_interval).1 <= max_back_after(mode, max, cur, draw_interval).0,
        mode != PRESENT_MODE_SKIP ==> max_back_after(mode, max, cur, draw_interval).0 <= MAX_BACK,
{
}

/// What a present event asks of the drawable.
#[derive(Debug, Copy, Clone, PartialEq, Eq, Structural)]
pub enum PresentEffect {
    /// The drawable has a new size; it must be invalidated.
    Resized { width: u16, height: u16 },
    /// Nothing to invalidate.
    Unchanged,
}

/// Why a present event could not be read.
#[derive(Debug, Copy, Clone, PartialEq, Eq, Structural)]
pub enum PresentEventError {
    /// "Invalid event: not enough bytes"
    NotEnoughBytes,
}

/// A 16-bit number from two bytes in the given byte order.
pub open spec fn u16_from_bytes(b0: u8, b1: u8, little_endian: bool) -> u16 {
    if little_endian {
        (b0 + 256 * b1) as u16
    } else {
        (256 * b0 + b1) as u16
    }
}

/// A 32-bit number from four bytes in the given byte order.
pub open spec fn u32_from_bytes(b0: u8, b1: u8, b2: u8, b3: u8, little_endian: bool) -> u32 {
    if little_endian {
        (b0 + 256 * b1 + 65536 * b2 + 16777216 * b3) as u32
    } else {
        (16777216 * b0 + 65536 * b1 + 256 * b2 + b3) as u32
    }
}

fn read_u16(b0: u8, b1: u8, little_endian: bool) -> (r: u16)
    ensures
        r == u16_from_bytes(b0, b1, little_endian),
{
    if little_endian {
        b0 as u16 + (b1 as u16) * 256
    } else {
        (b0 as u16) * 256 + b1 as u16
    }
}

fn read_u32(b0: u8, b1: u8, b2: u8, b3: u8, little_endian: bool) -> (r: u32)
    ensures
        r == u32_from_bytes(b0, b1, b2, b3, little_endian),
{
    if little_endian {
        b0 as u32 + (b1 as u32) * 256 + (b2 as u32) * 65536 + (b3 as u32) * 16777216
    } else {
        (b0 as u32) * 16777216 + (b1 as u32) * 65536 + (b2 as u32) * 256 + b3 as u32
    }
}

/// The event code of a present event: bytes 8 and 9.
pub open spec fn present_event_id(bytes: Seq<u8>, le: bool) -> u16 {
    u16_from_bytes(bytes[8], bytes[9], le)
}

/// Whether the bytes of a present event are too few for what its code needs read.
pub open spec fn present_event_short(bytes: Seq<u8>, le: bool) -> bool {
    bytes.len() < 10 || ((present_event_id(bytes, le) == 0 || present_event_id(bytes, le) == 2)
        && bytes.len() < 28)
}

/// The slots after an idle notification for `pixmap`: every buffer it presents is idle.
pub open spec fn idled(buffers: Seq<Option<BufferSlot>>, pixmap: u32) -> Seq<Option<BufferSlot>> {
    buffers.map_values(
        |b: Option<BufferSlot>|
            match b {
                Some(s) => if s.pixmap == pixmap {
                    Some(BufferSlot { busy: 0, ..s })
                } else {
                    Some(s)
                },
                None => None,
            },
    )
}

impl DrawableState {
    /// Process one present event given by its bytes, read in the given byte order. A
    /// configure notification (code 0) gives the new size from bytes 24 to 27; an idle
    /// notification (code 2) marks idle the buffers of the pixmap named by bytes 24 to 27;
    /// a complete notification (code 1) and any other event change nothing.
    pub fn process_present_event(&mut self, bytes: &[u8], little_endian: bool) -> (r: Result<
        PresentEffect,
        PresentEventError,
    >)
        ensures
            present_event_short(bytes@, little_endian) <==> r is Err,
            r is Err ==> *final(self) == *old(self),
            r is Ok ==> {
                let id = present_event_id(bytes@, little_endian);
                &&& id == 0 ==> {
                    &&& r == Ok::<PresentEffect, PresentEventError>(
                        PresentEffect::Resized {
                            width: u16_from_bytes(bytes@[24], bytes@[25], little_endian),
                            height: u16_from_bytes(bytes@[26], bytes@[27], little_endian),
                        },
                    )
                    &&& *final(self) == *old(self)
                }
                &&& id == 2 ==> {
                    &&& r == Ok::<PresentEffect, PresentEventError>(PresentEffect::Unchanged)
                    &&& final(self).buffers@ == idled(
                        old(self).buffers@,
                        u32_from_bytes(bytes@[24], bytes@[25], bytes@[26], bytes@[27], little_endian),
                    )
                    &&& final(self).send_sbc == old(self).send_sbc
                    &&& final(self).recv_sbc == old(self).recv_sbc
                    &&& final(self).cur_back == old(self).cur_back
                    &&& final(self).cur_num_back == old(self).cur_num_back
                    &&& final(self).max_num_back == old(self).max_num_back
                    &&& final(self).cur_blit_source == old(self).cur_blit_source
                    &&& final(self).last_present_mode == old(self).last_present_mode
                    &&& final(self).msc == old(self).msc
                    &&& final(self).ust == old(self).ust
                    &&& final(self).sbc == old(self).sbc
                    &&& final(self).have_fake_front == old(self).have_fake_front
                    &&& final(self).back_format == old(self).back_format
                    &&& final(self).notify_msc == old(self).notify_msc
                    &&& final(self).notify_ust == old(self).notify_ust
                }
                &&& id != 0 && id != 2 ==> {
                    &&& r == Ok::<PresentEffect, PresentEventError>(PresentEffect::Unchanged)
                    &&& *final(self) == *old(self)
                }
            },
    {
        if bytes.len() < 10 {
            return Err(PresentEventError::NotEnoughBytes);
        }
        let event_id = read_u16(bytes[8], bytes[9], little_endian);
        if event_id == 0 {
            // configure notification
            if bytes.len() < 28 {
                return Err(PresentEventError::NotEnoughBytes);
            }
            let width = read_u16(bytes[24], bytes[25], little_endian);
            let height = read_u16(bytes[26], bytes[27], little_endian);
            Ok(PresentEffect::Resized { width, height })
        } else if event_id == 2 {
            // idle notification
            if bytes.len() < 28 {
                return Err(PresentEventError::NotEnoughBytes);
            }
            let pixmap = read_u32(bytes[24], bytes[25], bytes[26], bytes[27], little_endian);
            let ghost before = self.buffers@;
            let mut i: usize = 0;
            while i < self.buffers.len()
                invariant
                    i <= self.buffers@.len(),
                    self.buffers@.len() == before.len(),
                    forall|j: int| 0 <= j < i ==> #[trigger] self.buffers@[j] == idled(before, pixmap)[j],
                    forall|j: int| i <= j < before.len() ==> #[trigger] self.buffers@[j] == before[j],
                    self.send_sbc == old(self).send_sbc,
                    self.recv_sbc == old(self).recv_sbc,
                    self.cur_back == old(self).cur_back,
                    self.cur_num_back == old(self).cur_num_back,
                    self.max_num_back == old(self).max_num_back,
                    self.cur_blit_source == old(self).cur_blit_source,
                    self.last_present_mode == old(self).last_present_mode,
                    self.msc == old(self).msc,
                    self.ust == old(self).ust,
                    self.sbc == old(self).sbc,
                    self.have_fake_front == old(self).have_fake_front,
                    self.back_format == old(self).back_format,
                    self.notify_msc == old(self).notify_msc,
                    self.notify_ust == old(self).notify_ust,
                    before == old(self).buffers@,
                decreases self.buffers@.len() - i,
            {
                match self.buffers[i] {
                    Some(slot) => {
                        if slot.pixmap == pixmap {
                            self.buffers.set(i, Some(BufferSlot { busy: 0, ..slot }));
                        }
                    },
                    None => {},
                }
                i = i + 1;
            }
            proof {
                assert(self.buffers@ =~= idled(before, pixmap));
            }
            Ok(PresentEffect::Unchanged)
        } else {
            // a complete notification is not acted on
            Ok(PresentEffect::Unchanged)
        }
    }
}

/// The present option bits: asynchronous (1), copy (2), UST (4), suboptimal (8).
pub open spec fn option_bits(async_: bool, copy: bool, ust: bool, suboptimal: bool) -> i32 {
    ((if async_ { 1int } else { 0int }) + (if copy { 2int } else { 0int }) + (if ust {
        4int
    } else {
        0int
    }) + (if suboptimal { 8int } else { 0int })) as i32
}

/// `Option_::new` of breadx's present module, read through its `inner` field. The source
/// sets bit 0 for asynchronous, bit 1 for copy, bit 2 for UST and bit 3 for suboptimal
/// presentation.
#[verifier::external_body]
fn present_options(async_: bool, copy: bool, ust: bool, suboptimal: bool) -> (r: i32)
    ensures
        r == option_bits(async_, copy, ust, suboptimal),
{
    Option_::new(async_, copy, ust, suboptimal).inner
}

/// What a swap sends to the server besides the buffer.
#[derive(Debug, Copy, Clone, PartialEq, Eq, Structural)]
pub struct SwapParameters {
    pub options: i32,
    pub target_msc: i64,
    pub divisor: i64,
    pub remainder: i64,
}

/// The target media stream counter of a swap: when target, divisor and remainder are all
/// zero, the next count after the swap interval and the swaps still in flight.
pub open spec fn swap_target_msc(
    msc: i64,
    swap_interval: i32,
    send_sbc: u64,
    recv_sbc: u64,
    target_msc: i64,
    divisor: i64,
    remainder: i64,
) -> i64 {
    if target_msc == 0 && divisor == 0 && remainder == 0 {
        let interval: i64 = (if swap_interval < 0 { -swap_interval } else { swap_interval as int }) as i64;
        msc.wrapping_add(interval).wrapping_add((send_sbc as i64).wrapping_sub(recv_sbc as i64))
    } else {
        target_msc
    }
}

/// The state's counters and slots other than `buffers` and `send_sbc` are those of `b`.
pub open spec fn same_but_buffers_and_send(a: DrawableState, b: DrawableState) -> bool {
    &&& a.recv_sbc == b.recv_sbc
    &&& a.notify_msc == b.notify_msc
    &&& a.notify_ust == b.notify_ust
    &&& a.msc == b.msc
    &&& a.ust == b.ust
    &&& a.sbc == b.sbc
    &&& a.last_present_mode == b.last_present_mode
    &&& a.cur_back == b.cur_back
    &&& a.cur_num_back == b.cur_num_back
    &&& a.max_num_back == b.max_num_back
    &&& a.cur_blit_source == b.cur_blit_source
    &&& a.have_fake_front == b.have_fake_front
    &&& a.back_format == b.back_format
}

/// The slots after the exchange of a swap: with a fake front and a back buffer, the current
/// back slot and the front slot trade places.
pub open spec fn exchanged_buffers(st: DrawableState, have_fake_front: bool, have_buffer: bool) -> Seq<
    Option<BufferSlot>,
> {
    let b = st.buffers@;
    let cb = st.cur_back as int;
    if have_fake_front && have_buffer {
        b.update(cb, b[FRONT_ID as int]).update(FRONT_ID as int, b[cb])
    } else {
        b
    }
}

/// The blit source after the exchange of a swap: the current back buffer with a defined swap
/// method (or a forced copy), then the front slot after a copying exchange (or a forced copy).
pub open spec fn exchanged_blit_source(
    st: DrawableState,
    swap_method: i32,
    force_copy: bool,
    have_fake_front: bool,
    have_buffer: bool,
) -> i32 {
    let src1: i32 = if swap_method != DRI_ATTRIB_SWAP_UNDEFINED as i32 || force_copy {
        st.cur_back as i32
    } else {
        st.cur_blit_source
    };
    if have_fake_front && have_buffer && (swap_method == DRI_ATTRIB_SWAP_COPY as i32 || force_copy) {
        FRONT_ID as i32
    } else {
        src1
    }
}

impl DrawableState {
    /// Prepare the swap of the buffer in slot `id`: count the swap, work out the target
    /// media stream counter and the present options, and mark the buffer busy with this
    /// swap's count.
    pub fn prepare_swap(
        &mut self,
        id: usize,
        swap_interval: i32,
        has_blit_image: bool,
        multiplanes_available: bool,
        target_msc: i64,
        divisor: i64,
        remainder: i64,
    ) -> (r: SwapParameters)
        requires
            old(self).wf(),
            id < NUM_BUFFERS,
            old(self).buffers@[id as int] is Some,
            old(self).send_sbc < u64::MAX,
            swap_interval != i32::MIN,
        ensures
            final(self).wf(),
            final(self).send_sbc == old(self).send_sbc + 1,
            same_but_buffers_and_send(*final(self), *old(self)),
            final(self).buffers@ == old(self).buffers@.update(
                id as int,
                Some(
                    BufferSlot {
                        busy: 1,
                        last_swap: final(self).send_sbc,
                        ..old(self).buffers@[id as int]->Some_0
                    },
                ),
            ),
            r == (SwapParameters {
                options: option_bits(
                    swap_interval <= 0,
                    has_blit_image && old(self).cur_blit_source != -1,
                    false,
                    multiplanes_available,
                ),
                target_msc: swap_target_msc(
                    old(self).msc,
                    swap_interval,
                    final(self).send_sbc,
                    old(self).recv_sbc,
                    target_msc,
                    divisor,
                    remainder,
                ),
                divisor,
                remainder,
            }),
    {
        self.send_sbc = self.send_sbc + 1;
        let mut target = target_msc;
        if target_msc == 0 && divisor == 0 && remainder == 0 {
            let interval: i64 = if swap_interval < 0 {
                (-swap_interval) as i64
            } else {
                swap_interval as i64
            };
            target = self.msc.wrapping_add(interval).wrapping_add(
                (self.send_sbc as i64).wrapping_sub(self.recv_sbc as i64),
            );
        }
        let options = present_options(
            swap_interval <= 0,
            has_blit_image && self.cur_blit_source != -1,
            false,
            multiplanes_available,
        );
        let slot = match self.buffers[id] {
            Some(slot) => slot,
            None => {
                proof {
                    assert(false);
                }
                return SwapParameters { options, target_msc: target, divisor, remainder };
            },
        };
        let sent = self.send_sbc;
        self.buffers.set(id, Some(BufferSlot { busy: 1, last_swap: sent, ..slot }));
        SwapParameters { options, target_msc: target, divisor, remainder }
    }
}

/// The slot that the `i`th step of the back buffer search looks at: the step past the
/// current back buffer, wrapped round the number of back buffers in use.
pub open spec fn scan_index(st: DrawableState, i: int) -> int {
    (i + st.cur_back) % (st.cur_num_back as int)
}

/// A slot is free when it holds no buffer or an idle one.
pub open spec fn slot_free(b: Option<BufferSlot>) -> bool {
    match b {
        Some(s) => s.busy == 0,
        None => true,
    }
}

/// The first free slot that the search from step `i` up to step `n` finds.
pub open spec fn first_free_from(st: DrawableState, i: int, n: int) -> Option<int>
    decreases n - i,
{
    if i >= n {
        None
    } else if slot_free(st.buffers@[scan_index(st, i)]) {
        Some(scan_index(st, i))
    } else {
        first_free_from(st, i + 1, n)
    }
}

/// What one round of the back buffer search came to.
#[derive(Debug, Copy, Clone, PartialEq, Eq, Structural)]
pub enum BackSearch {
    /// The slot found; it is now the current back buffer.
    Found(usize),
    /// No slot was free; one more back buffer is now in use, the new count given.
    Grew(usize),
    /// No slot was free and no more may be used: wait for a present event, then search again.
    Wait,
}

/// The slots in `[lo, hi)` that hold a buffer, in order.
pub open spec fn filled_slots(b: Seq<Option<BufferSlot>>, lo: int, hi: int) -> Seq<usize>
    decreases hi - lo,
{
    if hi <= lo {
        Seq::empty()
    } else {
        let prev = filled_slots(b, lo, hi - 1);
        if b[hi - 1] is Some {
            prev.push((hi - 1) as usize)
        } else {
            prev
        }
    }
}

/// The back slots in `[lo, hi)` that hold a buffer and are not the blit source, in order.
pub open spec fn spare_back_slots(b: Seq<Option<BufferSlot>>, blit_source: i32, lo: int, hi: int) -> Seq<usize>
    decreases hi - lo,
{
    if hi <= lo {
        Seq::empty()
    } else {
        let prev = spare_back_slots(b, blit_source, lo, hi - 1);
        if b[hi - 1] is Some && hi - 1 != blit_source {
            prev.push((hi - 1) as usize)
        } else {
            prev
        }
    }
}

/// Which buffers a call frees: the back ones or the front one.
#[derive(Debug, Copy, Clone, PartialEq, Eq, Structural)]
pub enum BufferType {
    Front,
    Back,
}

/// What to do with the old buffer of a slot when a new one replaces it.
#[derive(Debug, Copy, Clone, PartialEq, Eq, Structural)]
pub enum ReplacePlan {
    /// Copy the old buffer's contents into the new one, then free the old one.
    CopyOld(BufferSlot),
    /// Fill the new fake front buffer from the real front buffer.
    FillFromFront,
    /// Nothing to carry over.
    Fresh,
}

impl DrawableState {
    /// Decide how far the back buffer search may go: the buffers in use and the most that
    /// may be used when images can be blitted; otherwise one of each, and no blit source.
    pub fn back_search_limits(&mut self, has_blit_image: bool) -> (r: (usize, usize))
        requires
            old(self).wf(),
        ensures
            final(self).wf(),
            has_blit_image ==> r == (old(self).cur_num_back, old(self).max_num_back) && *final(self)
                == *old(self),
            !has_blit_image ==> r == (1usize, 1usize) && *final(self) == (DrawableState {
                cur_blit_source: -1i32,
                ..*old(self)
            }),
    {
        if has_blit_image {
            (self.cur_num_back, self.max_num_back)
        } else {
            self.cur_blit_source = -1;
            (1, 1)
        }
    }

    /// One round of the back buffer search over the first `num_to_consider` steps: the
    /// first free back slot becomes the current back buffer; failing that, one more back
    /// buffer is taken into use while fewer than `max_num` are; failing that, the caller waits.
    /// The search wraps round the back buffers in use, so it needs at least one.
    pub fn find_back_step(&mut self, num_to_consider: usize, max_num: usize) -> (r: BackSearch)
        requires
            old(self).wf(),
            num_to_consider > 0 ==> 0 < old(self).cur_num_back <= MAX_BACK,
            num_to_consider + old(self).cur_back <= usize::MAX,
            num_to_consider < max_num ==> old(self).cur_num_back < usize::MAX,
        ensures
            final(self).wf(),
            match first_free_from(*old(self), 0, num_to_consider as int) {
                Some(id) => r == BackSearch::Found(id as usize) && *final(self) == (DrawableState {
                    cur_back: id as usize,
                    ..*old(self)
                }),
                None => if num_to_consider < max_num {
                    r == BackSearch::Grew(final(self).cur_num_back) && *final(self) == (
                    DrawableState { cur_num_back: (old(self).cur_num_back + 1) as usize, ..*old(self) })
                } else {
                    r == BackSearch::Wait && *final(self) == *old(self)
                },
            },
            r matches BackSearch::Found(id) ==> {
                &&& id < MAX_BACK
                &&& id < old(self).cur_num_back
                &&& slot_free(old(self).buffers@[id as int])
                &&& final(self).cur_back == id
            },
    {
        let mut i: usize = 0;
        while i < num_to_consider
            invariant
                self.wf(),
                *self == *old(self),
                i <= num_to_consider,
                num_to_consider > 0 ==> 0 < self.cur_num_back <= MAX_BACK,
                num_to_consider + self.cur_back <= usize::MAX,
                first_free_from(*self, 0, num_to_consider as int) == first_free_from(
                    *self,
                    i as int,
                    num_to_consider as int,
                ),
            decreases num_to_consider - i,
        {
            let id = back_id((i + self.cur_back) % self.cur_num_back);
            let free = match self.buffers[id] {
                Some(slot) => slot.busy == 0,
                None => true,
            };
            if free {
                self.cur_back = id;
                return BackSearch::Found(id);
            }
            i = i + 1;
        }
        if num_to_consider < max_num {
            self.cur_num_back = self.cur_num_back + 1;
            BackSearch::Grew(self.cur_num_back)
        } else {
            BackSearch::Wait
        }
    }

    /// The slots that freeing the buffers of a type looks at, as (first, count): the back
    /// slots (and then there is no blit source), or the front slot unless it is the blit source.
    pub fn buffers_to_free(&mut self, buffer_type: BufferType) -> (r: (usize, usize))
        requires
            old(self).wf(),
        ensures
            final(self).wf(),
            buffer_type == BufferType::Back ==> r == (0usize, MAX_BACK) && *final(self) == (
            DrawableState { cur_blit_source: -1i32, ..*old(self) }),
            buffer_type == BufferType::Front ==> r == (FRONT_ID, if old(self).cur_blit_source
                == FRONT_ID as i32 {
                0usize
            } else {
                1usize
            }) && *final(self) == *old(self),
    {
        match buffer_type {
            BufferType::Back => {
                self.cur_blit_source = -1;
                (back_id(0), MAX_BACK)
            },
            BufferType::Front => (FRONT_ID, if self.cur_blit_source == FRONT_ID as i32 {
                0
            } else {
                1
            }),
        }
    }

    /// Take the buffer out of a slot, leaving it empty.
    pub fn take_slot(&mut self, id: usize) -> (r: Option<BufferSlot>)
        requires
            old(self).wf(),
            id < NUM_BUFFERS,
        ensures
            final(self).wf(),
            r == old(self).buffers@[id as int],
            *final(self) == (DrawableState {
                buffers: final(self).buffers,
                ..*old(self)
            }),
            final(self).buffers@ == old(self).buffers@.update(id as int, None),
    {
        let r = self.buffers[id];
        self.buffers.set(id, None);
        r
    }

    /// Put a buffer into a slot.
    pub fn install(&mut self, id: usize, slot: BufferSlot)
        requires
            old(self).wf(),
            id < NUM_BUFFERS,
        ensures
            final(self).wf(),
            *final(self) == (DrawableState {
                buffers: final(self).buffers,
                ..*old(self)
            }),
            final(self).buffers@ == old(self).buffers@.update(id as int, Some(slot)),
    {
        self.buffers.set(id, Some(slot));
    }

    /// The back slots whose buffers are no longer needed: from the number in use up to the
    /// last back slot, those that hold a buffer and are not the blit source.
    pub fn spare_back_buffers(&self) -> (r: Vec<usize>)
        requires
            self.wf(),
        ensures
            r@ == (if self.cur_num_back < MAX_BACK {
                spare_back_slots(self.buffers@, self.cur_blit_source, self.cur_num_back as int, MAX_BACK as int)
            } else {
                Seq::empty()
            }),
    {
        let mut out: Vec<usize> = Vec::new();
        if self.cur_num_back >= MAX_BACK {
            return out;
        }
        let mut id = self.cur_num_back;
        while id < MAX_BACK
            invariant
                self.wf(),
                self.cur_num_back <= id <= MAX_BACK,
                out@ == spare_back_slots(self.buffers@, self.cur_blit_source, self.cur_num_back as int, id as int),
            decreases MAX_BACK - id,
        {
            if id as i32 != self.cur_blit_source && self.buffers[id].is_some() {
                out.push(id);
            }
            id = id + 1;
        }
        out
    }

    /// The slots of the buffers of a type that hold a buffer, in order.
    pub fn filled_slots_in(&self, first: usize, count: usize) -> (r: Vec<usize>)
        requires
            self.wf(),
            first + count <= NUM_BUFFERS,
        ensures
            r@ == filled_slots(self.buffers@, first as int, first + count),
    {
        let mut out: Vec<usize> = Vec::new();
        let mut id = first;
        while id < first + count
            invariant
                self.wf(),
                first + count <= NUM_BUFFERS,
                first <= id <= first + count,
                out@ == filled_slots(self.buffers@, first as int, id as int),
            decreases first + count - id,
        {
            if self.buffers[id].is_some() {
                out.push(id);
            }
            id = id + 1;
        }
        out
    }

    /// The bookkeeping of a swap before it is presented: with a defined swap method (or a
    /// forced copy) the current back buffer becomes the blit source; with a fake front and a
    /// back buffer, the back and front slots are exchanged, and a copying swap (or a forced
    /// copy) makes the front slot the blit source.
    pub fn exchange_for_swap(
        &mut self,
        swap_method: i32,
        force_copy: bool,
        have_fake_front: bool,
        have_buffer: bool,
    )
        requires
            old(self).wf(),
        ensures
            final(self).wf(),
            final(self).buffers@ == exchanged_buffers(*old(self), have_fake_front, have_buffer),
            final(self).cur_blit_source == exchanged_blit_source(
                *old(self),
                swap_method,
                force_copy,
                have_fake_front,
                have_buffer,
            ),
            *final(self) == (DrawableState {
                buffers: final(self).buffers,
                cur_blit_source: final(self).cur_blit_source,
                ..*old(self)
            }),
    {
        if swap_method != DRI_ATTRIB_SWAP_UNDEFINED as i32 || force_copy {
            self.cur_blit_source = back_id(self.cur_back) as i32;
        }
        if have_fake_front && have_buffer {
            let b = back_id(self.cur_back);
            let back = self.buffers[b];
            let front = self.buffers[FRONT_ID];
            self.buffers.set(b, front);
            self.buffers.set(FRONT_ID, back);
            if swap_method == DRI_ATTRIB_SWAP_COPY as i32 || force_copy {
                self.cur_blit_source = FRONT_ID as i32;
            }
        }
    }

    /// After a swap was presented: when images can be blitted and the blit source is not
    /// the current back buffer, the server must copy from the source into the new back
    /// buffer; gives (source, new back).
    pub fn server_blit_after_swap(&self, has_blit_image: bool) -> (r: Option<(usize, usize)>)
        requires
            self.wf(),
        ensures
            r == (if has_blit_image && self.cur_blit_source != -1 && self.cur_blit_source as int
                != self.cur_back as int {
                Some((self.cur_blit_source as usize, self.cur_back))
            } else {
                None
            }),
    {
        if has_blit_image && self.cur_blit_source != -1 && self.cur_blit_source as usize
            != back_id(self.cur_back) {
            Some((self.cur_blit_source as usize, self.cur_back))
        } else {
            None
        }
    }

    /// Whether the buffer in a slot must be allocated anew for the drawable's size: there is
    /// none, it is marked for reallocation, or its size differs.
    pub fn needs_new_buffer(&self, id: usize, width: u16, height: u16) -> (r: bool)
        requires
            self.wf(),
            id < NUM_BUFFERS,
        ensures
            r == match self.buffers@[id as int] {
                None => true,
                Some(s) => s.reallocate || s.width != width || s.height != height,
            },
    {
        match self.buffers[id] {
            None => true,
            Some(s) => s.reallocate || s.width != width || s.height != height,
        }
    }

    /// Take the old buffer out of a slot that a new buffer replaces, and decide what to
    /// carry over: an old back buffer (or an old front one while a fake front is in use) is
    /// copied from; otherwise a new front buffer is filled from the real front.
    pub fn replace_plan(&mut self, id: usize, buffer_type: BufferType, has_fake_front: bool) -> (r: ReplacePlan)
        requires
            old(self).wf(),
            id < NUM_BUFFERS,
        ensures
            final(self).wf(),
            final(self).buffers@ == old(self).buffers@.update(id as int, None),
            *final(self) == (DrawableState { buffers: final(self).buffers, ..*old(self) }),
            r == match old(self).buffers@[id as int] {
                Some(s) => if buffer_type != BufferType::Front || has_fake_front {
                    ReplacePlan::CopyOld(s)
                } else {
                    ReplacePlan::FillFromFront
                },
                None => if buffer_type == BufferType::Front {
                    ReplacePlan::FillFromFront
                } else {
                    ReplacePlan::Fresh
                },
            },
    {
        let old_slot = self.take_slot(id);
        match old_slot {
            Some(s) => {
                if buffer_type != BufferType::Front || has_fake_front {
                    ReplacePlan::CopyOld(s)
                } else {
                    ReplacePlan::FillFromFront
                }
            },
            None => {
                if buffer_type == BufferType::Front {
                    ReplacePlan::FillFromFront
                } else {
                    ReplacePlan::Fresh
                }
            },
        }
    }

    /// The blit source that a back buffer in slot `id` must be filled from to keep the
    /// previous contents: the blit source, when there is one, it holds a buffer, and it is
    /// another slot.
    pub fn pending_blit_source(&self, id: usize) -> (r: Option<usize>)
        requires
            self.wf(),
        ensures
            r == (if self.cur_blit_source != -1 && self.buffers@[self.cur_blit_source as int] is Some
                && self.cur_blit_source as int != id as int {
                Some(self.cur_blit_source as usize)
            } else {
                None
            }),
    {
        if self.cur_blit_source != -1 {
            let src = self.cur_blit_source as usize;
            if self.buffers[src].is_some() && src != id {
                return Some(src);
            }
        }
        None
    }

    /// After the source's contents were blitted into slot `dst`: the destination takes the
    /// source's last swap count, and there is no blit source any more.
    pub fn finish_blit(&mut self, dst: usize, src: usize)
        requires
            old(self).wf(),
            dst < NUM_BUFFERS,
            src < NUM_BUFFERS,
            old(self).buffers@[dst as int] is Some,
            old(self).buffers@[src as int] is Some,
        ensures
            final(self).wf(),
            final(self).cur_blit_source == -1,
            final(self).buffers@ == old(self).buffers@.update(
                dst as int,
                Some(
                    BufferSlot {
                        last_swap: old(self).buffers@[src as int]->Some_0.last_swap,
                        ..old(self).buffers@[dst as int]->Some_0
                    },
                ),
            ),
            *final(self) == (DrawableState {
                buffers: final(self).buffers,
                cur_blit_source: -1i32,
                ..*old(self)
            }),
    {
        let s = match self.buffers[src] {
            Some(s) => s,
            None => {
                proof {
                    assert(false);
                }
                return;
            },
        };
        let d = match self.buffers[dst] {
            Some(d) => d,
            None => {
                proof {
                    assert(false);
                }
                return;
            },
        };
        self.buffers.set(dst, Some(BufferSlot { last_swap: s.last_swap, ..d }));
        self.cur_blit_source = -1;
    }
}

impl Default for DrawableState {
    fn default() -> (r: DrawableState)
        ensures
            r.wf(),
            r.send_sbc == 0 && r.recv_sbc == 0 && r.sbc == 0 && r.msc == 0 && r.ust == 0,
            r.notify_msc == 0 && r.notify_ust == 0,
            r.last_present_mode == 0 && r.cur_back == 0 && r.cur_num_back == 0,
            r.max_num_back == 0 && r.cur_blit_source == 0 && !r.have_fake_front,
            r.back_format == 0,
            forall|i: int| 0 <= i < NUM_BUFFERS ==> #[trigger] r.buffers@[i] is None,
    {
        DrawableState::new()
    }
}

/// Where fetching the buffer of a slot stands.
#[derive(Debug, Copy, Clone, PartialEq, Eq, Structural)]
pub enum FetchStage {
    /// A new buffer is being allocated for the slot.
    Allocating,
    /// The new buffer (not yet in its slot) is being filled with the old contents.
    Carrying(BufferSlot),
    /// The buffer is in its slot and the contents of the blit source, in the given slot,
    /// are being blitted into it.
    Blitting(usize),
    /// The buffer in the slot is ready to be handed out.
    Done,
}

/// A fetch of the buffer of slot `id`, for a drawable of the given size.
#[derive(Debug, Copy, Clone, PartialEq, Eq, Structural)]
pub struct BufferFetch {
    pub id: usize,
    pub buffer_type: BufferType,
    pub width: u16,
    pub height: u16,
    pub stage: FetchStage,
}

/// What the caller reports back after doing what a fetch asked for.
#[derive(Debug, Copy, Clone, PartialEq, Eq, Structural)]
pub enum FetchEvent {
    /// A new buffer was allocated, with the fetch's size.
    Allocated(BufferSlot),
    /// The old contents were carried into the new buffer.
    Carried,
    /// The blit source's contents were blitted into the buffer.
    Blitted,
}

/// What a fetch asks the caller to do next.
#[derive(Debug, Copy, Clone, PartialEq, Eq, Structural)]
pub enum FetchAction {
    /// Allocate a new buffer of the fetch's size.
    Allocate,
    /// Copy the old buffer, taken out of the slot, into the new one, then free the old one.
    CopyOld(BufferSlot),
    /// Fill the new fake front buffer from the real front buffer.
    FillFromFront,
    /// Blit the buffer in slot `src` into the fetched buffer.
    Blit(usize),
    /// Hand out the buffer in the fetch's slot.
    HandOut,
}

/// A buffer fits a fetch: it has the fetch's size and is not marked for reallocation.
pub open spec fn slot_fits(s: BufferSlot, f: BufferFetch) -> bool {
    s.width == f.width && s.height == f.height && !s.reallocate
}

/// Whether an event is the one that a fetch waits for; a new buffer must fit the fetch.
pub open spec fn event_fits(f: BufferFetch, event: FetchEvent) -> bool {
    match f.stage {
        FetchStage::Allocating => event matches FetchEvent::Allocated(new) && slot_fits(new, f),
        FetchStage::Carrying(_) => event is Carried,
        FetchStage::Blitting(_) => event is Blitted,
        FetchStage::Done => false,
    }
}

/// The slot whose contents a back buffer in slot `id` must be filled from: the blit
/// source, when there is one, it holds a buffer, and it is another slot.
pub open spec fn blit_source_for(st: DrawableState, id: usize) -> Option<usize> {
    if st.cur_blit_source != -1 && st.buffers@[st.cur_blit_source as int] is Some
        && st.cur_blit_source as int != id as int {
        Some(st.cur_blit_source as usize)
    } else {
        None
    }
}

/// The stage and request once the buffer is in its slot: a back buffer is filled from the
/// blit source if there is one; otherwise the buffer is handed out.
pub open spec fn after_install(st: DrawableState, id: usize, buffer_type: BufferType) -> (
    FetchStage,
    FetchAction,
) {
    match blit_source_for(st, id) {
        Some(src) if buffer_type == BufferType::Back => (FetchStage::Blitting(src), FetchAction::Blit(src)),
        _ => (FetchStage::Done, FetchAction::HandOut),
    }
}

/// A fetch fits the state it runs on: its slot exists; a new buffer waiting to be put in
/// fits it; while blitting, both slots hold buffers and differ, and the fetched one fits;
/// when done, its slot holds a buffer that fits, the one to hand out.
pub open spec fn fetch_fits(st: DrawableState, f: BufferFetch) -> bool {
    &&& f.id < NUM_BUFFERS
    &&& match f.stage {
        FetchStage::Allocating => true,
        FetchStage::Carrying(new) => slot_fits(new, f),
        FetchStage::Blitting(src) => {
            &&& src < NUM_BUFFERS
            &&& src != f.id
            &&& st.buffers@[src as int] is Some
            &&& st.buffers@[f.id as int] matches Some(s) && slot_fits(s, f)
        },
        FetchStage::Done => st.buffers@[f.id as int] matches Some(s) && slot_fits(s, f),
    }
}

impl DrawableState {
    /// The stage and request once the buffer of slot `id` is in place.
    fn next_after_install(&self, id: usize, buffer_type: BufferType) -> (r: (FetchStage, FetchAction))
        requires
            self.wf(),
            id < NUM_BUFFERS,
        ensures
            r == after_install(*self, id, buffer_type),
    {
        if buffer_type == BufferType::Back {
            match self.pending_blit_source(id) {
                Some(src) => (FetchStage::Blitting(src), FetchAction::Blit(src)),
                None => (FetchStage::Done, FetchAction::HandOut),
            }
        } else {
            (FetchStage::Done, FetchAction::HandOut)
        }
    }

    /// Begin fetching the buffer of slot `id` for a drawable of the given size: a missing,
    /// stale or wrongly sized buffer is allocated anew; a fitting one goes on as installed.
    pub fn start_fetch(&self, id: usize, buffer_type: BufferType, width: u16, height: u16) -> (r: (
        BufferFetch,
        FetchAction,
    ))
        requires
            self.wf(),
            id < NUM_BUFFERS,
        ensures
            r.0.id == id && r.0.buffer_type == buffer_type && r.0.width == width && r.0.height
                == height,
            fetch_fits(*self, r.0),
            (match self.buffers@[id as int] {
                None => true,
                Some(s) => s.reallocate || s.width != width || s.height != height,
            }) ==> r.0.stage == FetchStage::Allocating && r.1 == FetchAction::Allocate,
            !(match self.buffers@[id as int] {
                None => true,
                Some(s) => s.reallocate || s.width != width || s.height != height,
            }) ==> (r.0.stage, r.1) == after_install(*self, id, buffer_type),
    {
        if self.needs_new_buffer(id, width, height) {
            (BufferFetch { id, buffer_type, width, height, stage: FetchStage::Allocating }, FetchAction::Allocate)
        } else {
            let (stage, action) = self.next_after_install(id, buffer_type);
            (BufferFetch { id, buffer_type, width, height, stage }, action)
        }
    }

    /// Move a fetch on by the event the caller reports. A new buffer takes the old one out
    /// of the slot and, where there are contents to carry over, waits for them before it is
    /// put in; a blit done passes the source's swap count on and clears the blit source.
    pub fn fetch_step(&mut self, fetch: BufferFetch, event: FetchEvent) -> (r: (BufferFetch, FetchAction))
        requires
            old(self).wf(),
            fetch_fits(*old(self), fetch),
            event_fits(fetch, event),
        ensures
            final(self).wf(),
            fetch_fits(*final(self), r.0),
            r.0 == (BufferFetch { stage: r.0.stage, ..fetch }),
            match (fetch.stage, event) {
                (FetchStage::Allocating, FetchEvent::Allocated(new)) => {
                    let plan = match old(self).buffers@[fetch.id as int] {
                        Some(s) => if fetch.buffer_type != BufferType::Front || old(self).have_fake_front {
                            ReplacePlan::CopyOld(s)
                        } else {
                            ReplacePlan::FillFromFront
                        },
                        None => if fetch.buffer_type == BufferType::Front {
                            ReplacePlan::FillFromFront
                        } else {
                            ReplacePlan::Fresh
                        },
                    };
                    match plan {
                        ReplacePlan::CopyOld(s) => {
                            &&& *final(self) == (DrawableState {
                                buffers: final(self).buffers,
                                ..*old(self)
                            })
                            &&& final(self).buffers@ == old(self).buffers@.update(fetch.id as int, None)
                            &&& r.0.stage == FetchStage::Carrying(new)
                            &&& r.1 == FetchAction::CopyOld(s)
                        },
                        ReplacePlan::FillFromFront => {
                            &&& *final(self) == (DrawableState {
                                buffers: final(self).buffers,
                                ..*old(self)
                            })
                            &&& final(self).buffers@ == old(self).buffers@.update(fetch.id as int, None)
                            &&& r.0.stage == FetchStage::Carrying(new)
                            &&& r.1 == FetchAction::FillFromFront
                        },
                        ReplacePlan::Fresh => {
                            &&& *final(self) == (DrawableState {
                                buffers: final(self).buffers,
                                ..*old(self)
                            })
                            &&& final(self).buffers@ == old(self).buffers@.update(
                                fetch.id as int,
                                Some(new),
                            )
                            &&& (r.0.stage, r.1) == after_install(*final(self), fetch.id, fetch.buffer_type)
                        },
                    }
                },
                (FetchStage::Carrying(new), FetchEvent::Carried) => {
                    &&& *final(self) == (DrawableState { buffers: final(self).buffers, ..*old(self) })
                    &&& final(self).buffers@ == old(self).buffers@.update(fetch.id as int, Some(new))
                    &&& (r.0.stage, r.1) == after_install(*final(self), fetch.id, fetch.buffer_type)
                },
                (FetchStage::Blitting(src), FetchEvent::Blitted) => {
                    &&& *final(self) == (DrawableState {
                        buffers: final(self).buffers,
                        cur_blit_source: -1i32,
                        ..*old(self)
                    })
                    &&& final(self).buffers@ == old(self).buffers@.update(
                        fetch.id as int,
                        Some(
                            BufferSlot {
                                last_swap: old(self).buffers@[src as int]->Some_0.last_swap,
                                ..old(self).buffers@[fetch.id as int]->Some_0
                            },
                        ),
                    )
                    &&& r.0.stage == FetchStage::Done
                    &&& r.1 == FetchAction::HandOut
                },
                _ => false,
            },
    {
        let id = fetch.id;
        match (fetch.stage, event) {
            (FetchStage::Allocating, FetchEvent::Allocated(new)) => {
                let has_fake_front = self.have_fake_front;
                match self.replace_plan(id, fetch.buffer_type, has_fake_front) {
                    ReplacePlan::CopyOld(s) => (
                        BufferFetch { stage: FetchStage::Carrying(new), ..fetch },
                        FetchAction::CopyOld(s),
                    ),
                    ReplacePlan::FillFromFront => (
                        BufferFetch { stage: FetchStage::Carrying(new), ..fetch },
                        FetchAction::FillFromFront,
                    ),
                    ReplacePlan::Fresh => {
                        self.install(id, new);
                        let (stage, action) = self.next_after_install(id, fetch.buffer_type);
                        (BufferFetch { stage, ..fetch }, action)
                    },
                }
            },
            (FetchStage::Carrying(new), FetchEvent::Carried) => {
                self.install(id, new);
                let (stage, action) = self.next_after_install(id, fetch.buffer_type);
                (BufferFetch { stage, ..fetch }, action)
            },
            (FetchStage::Blitting(src), FetchEvent::Blitted) => {
                self.finish_blit(id, src);
                (BufferFetch { stage: FetchStage::Done, ..fetch }, FetchAction::HandOut)
            },
            _ => {
                proof {
                    assert(false);
                }
                (fetch, FetchAction::HandOut)
            },
        }
    }
}

/// The swap interval that a drawable starts with for the driver's `vblank_mode` option:
/// none for "never" and "interval 0", one otherwise.
pub fn swap_interval_for_vblank_mode(vblank_mode: i32) -> (r: i32)
    ensures
        r == if vblank_mode == 0 || vblank_mode == 1 { 0i32 } else { 1i32 },
{
    if vblank_mode == 0 || vblank_mode == 1 {
        0
    } else {
        1
    }
}

/// Whether images can be blitted: the screen has an image extension of version 9 or later
/// that offers a blit.
pub fn blit_supported(image_version: Option<i32>, has_blit: bool) -> (r: bool)
    ensures
        r == match image_version {
            Some(v) => v >= 9 && has_blit,
            None => false,
        },
{
    match image_version {
        Some(v) => v >= 9 && has_blit,
        None => false,
    }
}

/// Whether a buffer is imported from a pixmap plane by plane: multiple planes are available
/// and the image extension (version 15 or later) can create an image from several buffers.
pub fn pixmap_import_multiplane(multiplanes_available: bool, image_version: i32, has_from_dma_bufs: bool) -> (r: bool)
    ensures
        r == (multiplanes_available && image_version >= 15 && has_from_dma_bufs),
{
    multiplanes_available && image_version >= 15 && has_from_dma_bufs
}

/// What fetching the buffer of a pixmap drawable does with its slot.
#[derive(Debug, Copy, Clone, PartialEq, Eq, Structural)]
pub enum PixmapStep {
    /// The slot holds a buffer already: hand that one out.
    Reuse(BufferSlot),
    /// The slot is empty: import a buffer from the pixmap and hand it out, leaving the slot
    /// as it is.
    Import,
}

impl DrawableState {
    /// What fetching a pixmap's buffer does with slot `id`: a buffer already there is handed
    /// out; an empty slot calls for a buffer imported from the pixmap.
    pub fn pixmap_buffer_step(&self, id: usize) -> (r: PixmapStep)
        requires
            self.wf(),
            id < NUM_BUFFERS,
        ensures
            r == (match self.buffers@[id as int] {
                Some(b) => PixmapStep::Reuse(b),
                None => PixmapStep::Import,
            }),
    {
        match self.buffers[id] {
            Some(b) => PixmapStep::Reuse(b),
            None => PixmapStep::Import,
        }
    }
}

/// The record of a buffer newly created for a drawable in the given format: it owns its
/// pixmap, is idle, need not be allocated again, has not been presented, has the size asked
/// for and the format's bytes per pixel, and has a linear twin exactly when rendering happens
/// on another GPU. A format of unknown size gives no buffer.
pub fn created_buffer_slot(
    format: u32,
    pixmap: u32,
    width: u16,
    height: u16,
    modifier: u64,
    is_different_gpu: bool,
) -> (r: Option<BufferSlot>)
    ensures
        r == (match cpp_of(format) {
            Some(cpp) => Some(
                BufferSlot {
                    pixmap,
                    own_pixmap: true,
                    cpp,
                    modifier,
                    has_linear: is_different_gpu,
                    busy: 0,
                    reallocate: false,
                    width,
                    height,
                    last_swap: 0,
                },
            ),
            None => None,
        }),
{
    match cpp_for_format(format) {
        Some(cpp) => Some(
            BufferSlot {
                pixmap,
                own_pixmap: true,
                cpp,
                modifier,
                has_linear: is_different_gpu,
                busy: 0,
                reallocate: false,
                width,
                height,
                last_swap: 0,
            },
        ),
        None => None,
    }
}

/// One damaged rectangle of a swap, in X coordinates.
#[derive(Debug, Copy, Clone, PartialEq, Eq, Structural)]
pub struct DamageRect {
    pub x: i16,
    pub y: i16,
    pub width: u16,
    pub height: u16,
}

/// The X rectangle of one GL rectangle `(x, y, w, h)` (origin at the bottom) on a drawable
/// `height` pixels high; each number is cut to 16 bits.
pub open spec fn damage_rect_of(x: i32, y: i32, w: i32, h: i32, height: u16) -> DamageRect {
    DamageRect {
        x: x as i16,
        y: (height as i16 - y as i16 - h as i16) as i16,
        width: w as u16,
        height: h as u16,
    }
}

/// The flipped `y` of a rectangle fits in 16 bits.
pub open spec fn damage_fits(y: i32, h: i32, height: u16) -> bool {
    i16::MIN <= height as i16 - y as i16 <= i16::MAX && i16::MIN <= height as i16 - y as i16
        - h as i16 <= i16::MAX
}

/// The damage of a swap: the rectangles given four numbers each (left over numbers are
/// ignored), turned upside down onto X coordinates.
pub fn damage_rectangles(rects: &[i32], height: u16) -> (r: Vec<DamageRect>)
    requires
        forall|k: int|
            0 <= k < rects@.len() / 4 ==> #[trigger] damage_fits(rects@[4 * k + 1], rects@[4 * k + 3], height),
    ensures
        r@.len() == rects@.len() / 4,
        forall|k: int|
            0 <= k < r@.len() ==> #[trigger] r@[k] == damage_rect_of(
                rects@[4 * k],
                rects@[4 * k + 1],
                rects@[4 * k + 2],
                rects@[4 * k + 3],
                height,
            ),
{
    let mut out: Vec<DamageRect> = Vec::new();
    let len: usize = rects.len();
    let n = len / 4;
    let mut k: usize = 0;
    while k < n
        invariant
            n == rects@.len() / 4,
            len == rects@.len(),
            k <= n,
            out@.len() == k,
            forall|m: int|
                0 <= m < rects@.len() / 4 ==> #[trigger] damage_fits(rects@[4 * m + 1], rects@[4 * m + 3], height),
            forall|m: int|
                0 <= m < k ==> #[trigger] out@[m] == damage_rect_of(
                    rects@[4 * m],
                    rects@[4 * m + 1],
                    rects@[4 * m + 2],
                    rects@[4 * m + 3],
                    height,
                ),
        decreases n - k,
    {
        assert(damage_fits(rects@[4 * k + 1], rects@[4 * k + 3], height));
        assert(4 * k + 3 < rects@.len()) by (nonlinear_arith)
            requires
                k < n,
                n == len / 4,
                len == rects@.len(),
        ;
        let base: usize = 4 * k;
        let x = rects[base];
        let y = rects[base + 1];
        let w = rects[base + 2];
        let h = rects[base + 3];
        let top: i16 = height as i16 - y as i16 - h as i16;
        out.push(DamageRect { x: x as i16, y: top, width: w as u16, height: h as u16 });
        k = k + 1;
    }
    out
}

/// How the front buffer is provided for a draw.
#[derive(Debug, Copy, Clone, PartialEq, Eq, Structural)]
pub enum FrontPlan {
    /// No front buffer is needed: free it, and there is no fake front.
    Free,
    /// The drawable is a pixmap on this GPU: its own buffer is the front.
    PixmapBuffer,
    /// A fake front buffer is rendered to.
    FakeFront,
}

/// The buffers the driver gets for a draw.
#[derive(Debug, Copy, Clone, PartialEq, Eq, Structural)]
pub struct BuffersPlan {
    pub front: FrontPlan,
    /// A back buffer is handed out (otherwise the back buffers are freed).
    pub back: bool,
    /// The buffers handed out, as image buffer bits.
    pub image_mask: u32,
}

/// What a request for the buffers in `buffer_mask` hands out: a pixmap, or a drawable that
/// swaps by exchange, always gets a front buffer; the front is the pixmap's own buffer for a
/// pixmap on this GPU and a fake front otherwise.
pub open spec fn buffers_plan_of(buffer_mask: u32, is_pixmap: bool, swap_method: i32, different_gpu: bool) -> BuffersPlan {
    let wants_front = (buffer_mask & DRI_IMAGE_BUFFER_FRONT) != 0 || is_pixmap || swap_method
        == DRI_ATTRIB_SWAP_EXCHANGE as i32;
    let wants_back = (buffer_mask & DRI_IMAGE_BUFFER_BACK) != 0;
    BuffersPlan {
        front: if !wants_front {
            FrontPlan::Free
        } else if is_pixmap && !different_gpu {
            FrontPlan::PixmapBuffer
        } else {
            FrontPlan::FakeFront
        },
        back: wants_back,
        image_mask: (if wants_front { DRI_IMAGE_BUFFER_FRONT } else { 0u32 }) | (if wants_back {
            DRI_IMAGE_BUFFER_BACK
        } else {
            0u32
        }),
    }
}

pub fn buffers_plan(buffer_mask: u32, is_pixmap: bool, swap_method: i32, different_gpu: bool) -> (r: BuffersPlan)
    ensures
        r == buffers_plan_of(buffer_mask, is_pixmap, swap_method, different_gpu),
{
    let mut mask = buffer_mask;
    if is_pixmap || swap_method == DRI_ATTRIB_SWAP_EXCHANGE as i32 {
        mask = mask | DRI_IMAGE_BUFFER_FRONT;
    }
    let wants_front = (mask & DRI_IMAGE_BUFFER_FRONT) != 0;
    let wants_back = (mask & DRI_IMAGE_BUFFER_BACK) != 0;
    assert(wants_front == ((buffer_mask & DRI_IMAGE_BUFFER_FRONT) != 0 || is_pixmap || swap_method
        == DRI_ATTRIB_SWAP_EXCHANGE as i32)) by {
        assert((buffer_mask | 1u32) & 1u32 != 0u32) by (bit_vector);
    }
    assert(wants_back == ((buffer_mask & DRI_IMAGE_BUFFER_BACK) != 0)) by {
        assert(((buffer_mask | 1u32) & 2u32) == (buffer_mask & 2u32)) by (bit_vector);
    }
    let front = if !wants_front {
        FrontPlan::Free
    } else if is_pixmap && !different_gpu {
        FrontPlan::PixmapBuffer
    } else {
        FrontPlan::FakeFront
    };
    let f: u32 = if wants_front { DRI_IMAGE_BUFFER_FRONT } else { 0 };
    let b: u32 = if wants_back { DRI_IMAGE_BUFFER_BACK } else { 0 };
    BuffersPlan { front, back: wants_back, image_mask: f | b }
}

impl DrawableState {
    /// The swap count a wait aims at: the one given, or (for 0) the last one sent.
    pub fn sbc_wait_target(&self, target_sbc: u64) -> (r: u64)
        ensures
            r == if target_sbc == 0 { self.send_sbc } else { target_sbc },
    {
        if target_sbc == 0 {
            self.send_sbc
        } else {
            target_sbc
        }
    }
}

/// How the server answered a request: fine, with an X protocol error of some code, or with
/// another failure.
#[derive(Debug, Copy, Clone, PartialEq, Eq, Structural)]
pub enum RequestOutcome {
    Done,
    ProtocolError(u8),
    OtherError,
}

/// What a drawable learns when it is first updated.
#[derive(Debug, Copy, Clone, PartialEq, Eq, Structural)]
pub struct DrawableInit {
    /// Selecting present events failed with a bad window: the drawable is a pixmap.
    pub is_pixmap: bool,
    /// The window presented to: the root window for a pixmap, the drawable itself otherwise.
    pub window: u32,
    /// The present capabilities, 0 when they could not be queried.
    pub capabilities: u32,
    pub width: u16,
    pub height: u16,
}

/// The first update of a drawable: a bad window error (code 3) when selecting present events
/// marks a pixmap, any other failure is the update's; the geometry gives the size (and the
/// root window); failed capabilities count as none.
pub fn drawable_init(
    select_input: RequestOutcome,
    drawable: u32,
    geometry_root: u32,
    width: u16,
    height: u16,
    capabilities: Option<u32>,
) -> (r: Option<DrawableInit>)
    ensures
        match select_input {
            RequestOutcome::Done => r == Some(DrawableInit {
                is_pixmap: false,
                window: drawable,
                capabilities: match capabilities { Some(c) => c, None => 0u32 },
                width,
                height,
            }),
            RequestOutcome::ProtocolError(code) => if code == 3 {
                r == Some(DrawableInit {
                    is_pixmap: true,
                    window: geometry_root,
                    capabilities: match capabilities { Some(c) => c, None => 0u32 },
                    width,
                    height,
                })
            } else {
                r is None
            },
            RequestOutcome::OtherError => r is None,
        },
{
    let is_pixmap = match select_input {
        RequestOutcome::Done => false,
        RequestOutcome::ProtocolError(code) => {
            if code == 3 {
                true
            } else {
                return None;
            }
        },
        RequestOutcome::OtherError => {
            return None;
        },
    };
    let caps = match capabilities {
        Some(c) => c,
        None => 0,
    };
    Some(DrawableInit {
        is_pixmap,
        window: if is_pixmap { geometry_root } else { drawable },
        capabilities: caps,
        width,
        height,
    })
}

/// The swap method of a drawable: what the driver reports for its configuration when the
/// core extension is of version 2 or later, else undefined.
pub fn drawable_swap_method(core_version: i32, reported: i32) -> (r: i32)
    ensures
        r == if core_version >= 2 { reported } else { DRI_ATTRIB_SWAP_UNDEFINED as i32 },
{
    if core_version >= 2 {
        reported
    } else {
        DRI_ATTRIB_SWAP_UNDEFINED as i32
    }
}

/// A number read in one byte order is the number with its bytes reversed read in the other.
pub proof fn lemma_byte_order(b0: u8, b1: u8, b2: u8, b3: u8)
    ensures
        u16_from_bytes(b0, b1, true) == u16_from_bytes(b1, b0, false),
        u32_from_bytes(b0, b1, b2, b3, true) == u32_from_bytes(b3, b2, b1, b0, false),
{
}

/// An idle notification touches only the busy flag of the buffers of its pixmap: every slot
/// keeps its place, a buffer of the pixmap becomes idle with all else kept, and every other
/// slot stays as it was.
pub proof fn lemma_idle_only_frees(buffers: Seq<Option<BufferSlot>>, pixmap: u32)
    ensures
        idled(buffers, pixmap).len() == buffers.len(),
        forall|i: int|
            0 <= i < buffers.len() ==> match #[trigger] buffers[i] {
                Some(s) => if s.pixmap == pixmap {
                    idled(buffers, pixmap)[i] == Some(BufferSlot { busy: 0, ..s })
                } else {
                    idled(buffers, pixmap)[i] == buffers[i]
                },
                None => idled(buffers, pixmap)[i] is None,
            },
{
}

/// The slot the back buffer search finds is free, is one of the back buffers in use, lies
/// among the slots it looks at, and every step before it looked at a busy slot.
pub proof fn lemma_found_slot_is_free(st: DrawableState, i: int, n: int)
    requires
        first_free_from(st, i, n) is Some,
        st.cur_num_back > 0,
    ensures
        slot_free(st.buffers@[first_free_from(st, i, n)->Some_0]),
        0 <= first_free_from(st, i, n)->Some_0 < st.cur_num_back,
        exists|k: int|
            i <= k < n && scan_index(st, k) == first_free_from(st, i, n)->Some_0 && forall|j: int|
                i <= j < k ==> !slot_free(#[trigger] st.buffers@[scan_index(st, j)]),
    decreases n - i,
{
    if i < n && !slot_free(st.buffers@[scan_index(st, i)]) {
        lemma_found_slot_is_free(st, i + 1, n);
        let k = choose|k: int|
            i + 1 <= k < n && scan_index(st, k) == first_free_from(st, i + 1, n)->Some_0 && forall|
                j: int,
            |
                i + 1 <= j < k ==> !slot_free(#[trigger] st.buffers@[scan_index(st, j)]);
        assert(i <= k < n && scan_index(st, k) == first_free_from(st, i, n)->Some_0);
    } else {
        assert(i <= i < n && scan_index(st, i) == first_free_from(st, i, n)->Some_0);
    }
}

/// A pixmap always gets a front buffer, its own when it lives on this GPU; and the handed
/// out buffers are exactly those the plan provides.
pub proof fn lemma_pixmap_gets_front(buffer_mask: u32, is_pixmap: bool, swap_method: i32, different_gpu: bool)
    ensures
        is_pixmap ==> buffers_plan_of(buffer_mask, is_pixmap, swap_method, different_gpu).front
            != FrontPlan::Free,
        is_pixmap && !different_gpu ==> buffers_plan_of(buffer_mask, is_pixmap, swap_method, different_gpu).front
            == FrontPlan::PixmapBuffer,
        (buffers_plan_of(buffer_mask, is_pixmap, swap_method, different_gpu).image_mask & DRI_IMAGE_BUFFER_FRONT
            != 0) == (buffers_plan_of(buffer_mask, is_pixmap, swap_method, different_gpu).front != FrontPlan::Free),
        (buffers_plan_of(buffer_mask, is_pixmap, swap_method, different_gpu).image_mask & DRI_IMAGE_BUFFER_BACK
            != 0) == buffers_plan_of(buffer_mask, is_pixmap, swap_method, different_gpu).back,
{
    assert((1u32 | 2u32) & 1u32 != 0u32 && (1u32 | 0u32) & 1u32 != 0u32 && (0u32 | 2u32) & 1u32
        == 0u32 && (0u32 | 0u32) & 1u32 == 0u32) by (bit_vector);
    assert((1u32 | 2u32) & 2u32 != 0u32 && (1u32 | 0u32) & 2u32 == 0u32 && (0u32 | 2u32) & 2u32
        != 0u32 && (0u32 | 0u32) & 2u32 == 0u32) by (bit_vector);
}

/// The plain part of a DRI3 drawable: what it knows of itself and its bookkeeping.
#[derive(Debug, Clone)]
pub struct Dri3Drawable {
    pub x_drawable: u32,
    pub is_different_gpu: bool,
    pub multiplanes_available: bool,
    pub width: u16,
    pub height: u16,
    pub depth: u8,
    pub present_capabilities: u32,
    pub is_initialized: bool,
    pub window: u32,
    pub has_fake_front: bool,
    pub has_back: bool,
    pub swap_interval: i32,
    pub swap_method: i32,
    pub is_pixmap: bool,
    pub state: DrawableState,
}

impl Dri3Drawable {
    /// A new drawable of the given geometry, with the swap interval its `vblank_mode` gives;
    /// not yet initialized, with a back buffer and no fake front.
    pub fn new(
        x_drawable: u32,
        is_different_gpu: bool,
        multiplanes_available: bool,
        width: u16,
        height: u16,
        depth: u8,
        vblank_mode: i32,
        swap_method: i32,
    ) -> (r: Dri3Drawable)
        ensures
            r.x_drawable == x_drawable,
            r.is_different_gpu == is_different_gpu,
            r.multiplanes_available == multiplanes_available,
            r.width == width && r.height == height && r.depth == depth,
            r.present_capabilities == 0 && r.window == 0,
            !r.is_initialized && !r.has_fake_front && r.has_back && !r.is_pixmap,
            r.swap_interval == if vblank_mode == 0 || vblank_mode == 1 { 0i32 } else { 1i32 },
            r.swap_method == swap_method,
            r.state.wf(),
            r.state.send_sbc == 0 && r.state.recv_sbc == 0,
            forall|i: int| 0 <= i < NUM_BUFFERS ==> #[trigger] r.state.buffers@[i] is None,
    {
        Dri3Drawable {
            x_drawable,
            is_different_gpu,
            multiplanes_available,
            width,
            height,
            depth,
            present_capabilities: 0,
            is_initialized: false,
            window: 0,
            has_fake_front: false,
            has_back: true,
            swap_interval: swap_interval_for_vblank_mode(vblank_mode),
            swap_method,
            is_pixmap: false,
            state: DrawableState::new(),
        }
    }

    pub fn is_pixmap(&self) -> (r: bool)
        ensures
            r == self.is_pixmap,
    {
        self.is_pixmap
    }

    pub fn is_different_gpu(&self) -> (r: bool)
        ensures
            r == self.is_different_gpu,
    {
        self.is_different_gpu
    }

    pub fn swap_method(&self) -> (r: i32)
        ensures
            r == self.swap_method,
    {
        self.swap_method
    }

    pub fn have_fake_front(&self) -> (r: bool)
        ensures
            r == self.has_fake_front,
    {
        self.has_fake_front
    }

    pub fn set_have_fake_front(&mut self, val: bool)
        ensures
            *final(self) == (Dri3Drawable { has_fake_front: val, ..*old(self) }),
    {
        self.has_fake_front = val;
    }

    pub fn set_have_back(&mut self, val: bool)
        ensures
            *final(self) == (Dri3Drawable { has_back: val, ..*old(self) }),
    {
        self.has_back = val;
    }

    /// The record of the buffer imported from this drawable's own pixmap, of the size the
    /// server gave: it presents the pixmap without owning it, has no bytes per pixel, no
    /// modifier and no linear twin, is idle, need not be allocated again and has not been
    /// presented.
    pub fn imported_pixmap_slot(&self, width: u16, height: u16) -> (r: BufferSlot)
        ensures
            r == (BufferSlot {
                pixmap: self.x_drawable,
                own_pixmap: false,
                cpp: 0,
                modifier: 0,
                has_linear: false,
                busy: 0,
                reallocate: false,
                width,
                height,
                last_swap: 0,
            }),
    {
        BufferSlot {
            pixmap: self.x_drawable,
            own_pixmap: false,
            cpp: 0,
            modifier: 0,
            has_linear: false,
            busy: 0,
            reallocate: false,
            width,
            height,
            last_swap: 0,
        }
    }

    /// Adjust the back buffer limits to the last present mode and the drawable's swap interval.
    pub fn update_max_back(&mut self)
        ensures
            (final(self).state.max_num_back, final(self).state.cur_num_back) == max_back_after(
                old(self).state.last_present_mode,
                old(self).state.max_num_back,
                old(self).state.cur_num_back,
                old(self).swap_interval,
            ),
            *final(self) == (Dri3Drawable {
                state: DrawableState {
                    max_num_back: final(self).state.max_num_back,
                    cur_num_back: final(self).state.cur_num_back,
                    ..old(self).state
                },
                ..*old(self)
            }),
    {
        let interval = self.swap_interval;
        self.state.update_max_back(interval);
    }

    /// Take in what the first update learned; later updates learn nothing this way.
    pub fn initialize(&mut self, init: DrawableInit)
        ensures
            old(self).is_initialized ==> *final(self) == *old(self),
            !old(self).is_initialized ==> *final(self) == (Dri3Drawable {
                is_initialized: true,
                is_pixmap: init.is_pixmap,
                window: init.window,
                present_capabilities: init.capabilities,
                width: init.width,
                height: init.height,
                ..*old(self)
            }),
    {
        if !self.is_initialized {
            self.is_initialized = true;
            self.is_pixmap = init.is_pixmap;
            self.window = init.window;
            self.present_capabilities = init.capabilities;
            self.width = init.width;
            self.height = init.height;
        }
    }

    /// Take in a new size from a configure notification.
    pub fn resize(&mut self, width: u16, height: u16)
        ensures
            *final(self) == (Dri3Drawable { width, height, ..*old(self) }),
    {
        self.width = width;
        self.height = height;
    }

    /// Process one present event given by its bytes in the given byte order: a configure
    /// notification resizes the drawable and asks for it to be invalidated (true); every other
    /// event is left to the bookkeeping and asks for nothing (false).
    pub fn process_present_event(&mut self, bytes: &[u8], little_endian: bool) -> (r: Result<bool, PresentEventError>)
        requires
            old(self).state.wf(),
        ensures
            final(self).state.wf(),
            present_event_short(bytes@, little_endian) <==> r is Err,
            r is Err ==> *final(self) == *old(self),
            r is Ok ==> {
                let id = present_event_id(bytes@, little_endian);
                &&& (r == Ok::<bool, PresentEventError>(true)) == (id == 0)
                &&& id == 0 ==> *final(self) == (Dri3Drawable {
                    width: u16_from_bytes(bytes@[24], bytes@[25], little_endian),
                    height: u16_from_bytes(bytes@[26], bytes@[27], little_endian),
                    ..*old(self)
                })
                &&& id == 2 ==> final(self).state.buffers@ == idled(
                    old(self).state.buffers@,
                    u32_from_bytes(bytes@[24], bytes@[25], bytes@[26], bytes@[27], little_endian),
                ) && *final(self) == (Dri3Drawable {
                    state: DrawableState { buffers: final(self).state.buffers, ..old(self).state },
                    ..*old(self)
                })
                &&& id != 0 && id != 2 ==> *final(self) == *old(self)
            },
    {
        match self.state.process_present_event(bytes, little_endian) {
            Err(e) => Err(e),
            Ok(PresentEffect::Resized { width, height }) => {
                self.resize(width, height);
                Ok(true)
            },
            Ok(PresentEffect::Unchanged) => Ok(false),
        }
    }
}

/// Where a swap of a drawable's buffers stands.
#[derive(Debug, Copy, Clone, PartialEq, Eq, Structural)]
pub enum SwapStage {
    /// Not begun.
    Idle,
    /// The drawable is being flushed.
    Flushing,
    /// A back buffer is being found (and allocated where the slot is empty).
    FetchingBack,
    /// The back buffer is being copied into its linear twin for the other GPU.
    CopyingLinear,
    /// The present events that came in are being processed.
    ProcessingEvents,
    /// The buffer is being presented.
    Presenting,
    /// The server copies slot `.0` into slot `.1`, the new back buffer.
    ServerCopying(usize, usize),
    /// The drawable is being invalidated.
    Invalidating,
    /// The swap is over.
    Done,
}

/// A swap in progress: its stage, whether a back buffer was found, and the drawable's size
/// when it was.
#[derive(Debug, Copy, Clone, PartialEq, Eq, Structural)]
pub struct SwapProgress {
    pub stage: SwapStage,
    pub have_buffer: bool,
    pub width: u16,
    pub height: u16,
}

/// What the caller asked of a swap: the target media stream counter, divisor and remainder,
/// whether to copy whatever the swap method, whether the screen can blit images, and the
/// damaged rectangles, four numbers each in GL coordinates.
#[derive(Debug, Clone)]
pub struct SwapRequest {
    pub target_msc: i64,
    pub divisor: i64,
    pub remainder: i64,
    pub force_copy: bool,
    pub has_blit_image: bool,
    pub rects: Vec<i32>,
}

/// What the caller reports back after doing what a swap asked for.
#[derive(Debug, Copy, Clone, PartialEq, Eq, Structural)]
pub enum SwapEvent {
    /// Start the swap.
    Begin,
    Flushed,
    /// The back buffer search ended: with a buffer in the current back slot, or with none.
    BackFetched(bool),
    LinearCopied,
    EventsProcessed,
    Presented,
    Copied,
    Invalidated,
}

/// The PresentPixmap request of a swap.
#[derive(Debug, Clone)]
pub struct PresentRequest {
    /// The window presented to.
    pub window: u32,
    /// The pixmap of the buffer presented.
    pub pixmap: u32,
    /// The request's serial: the swap count, cut to 32 bits.
    pub serial: u32,
    /// The damaged region, in X coordinates; empty for the whole window.
    pub region: Vec<DamageRect>,
    pub params: SwapParameters,
}

/// What a swap asks the caller to do next.
#[derive(Debug, Clone)]
pub enum SwapAction {
    Flush,
    /// Find the back buffer, allocating one where its slot is empty.
    FetchBack,
    /// Copy the buffer in the given slot into its linear twin.
    CopyLinear(usize),
    ProcessEvents,
    Present(PresentRequest),
    /// Have the server copy the pixmap of slot `src` into that of slot `dst`.
    ServerCopy { src: usize, dst: usize },
    Invalidate,
    /// The swap is over.
    Finish,
}

/// The slot of the buffer a swap presents: the front slot once a fake front was exchanged
/// with it, else the current back slot.
pub open spec fn presented_slot(d: Dri3Drawable, have_buffer: bool) -> usize {
    if d.has_fake_front && have_buffer {
        FRONT_ID
    } else {
        d.state.cur_back
    }
}

/// The copy the server must make after a swap was presented, as `server_blit_after_swap`
/// gives it: (source, new back).
pub open spec fn server_copy_of(st: DrawableState, has_blit_image: bool) -> Option<(usize, usize)> {
    if has_blit_image && st.cur_blit_source != -1 && st.cur_blit_source as int != st.cur_back as int {
        Some((st.cur_blit_source as usize, st.cur_back))
    } else {
        None
    }
}

/// The damaged region of a swap: the rectangles given four numbers each, turned upside down
/// onto X coordinates; left over numbers are ignored.
pub open spec fn damage_region(rects: Seq<i32>, height: u16) -> Seq<DamageRect> {
    Seq::new(
        rects.len() / 4,
        |k: int| damage_rect_of(rects[4 * k], rects[4 * k + 1], rects[4 * k + 2], rects[4 * k + 3], height),
    )
}

/// Every rectangle's flipped `y` fits in 16 bits.
pub open spec fn damage_all_fit(rects: Seq<i32>, height: u16) -> bool {
    forall|k: int| 0 <= k < rects.len() / 4 ==> #[trigger] damage_fits(rects[4 * k + 1], rects[4 * k + 3], height)
}

/// A swap in progress fits the drawable: the buffers it is about to use are there.
pub open spec fn swap_fits(d: Dri3Drawable, p: SwapProgress) -> bool {
    match p.stage {
        SwapStage::CopyingLinear => p.have_buffer && d.state.buffers@[d.state.cur_back as int] is Some,
        SwapStage::ProcessingEvents => p.have_buffer ==> d.state.buffers@[presented_slot(d, true) as int] is Some,
        SwapStage::ServerCopying(src, dst) => src < NUM_BUFFERS && dst < NUM_BUFFERS
            && d.state.buffers@[src as int] is Some && d.state.buffers@[dst as int] is Some,
        _ => true,
    }
}

/// Whether an event is the one a swap waits for, on inputs the swap can handle: a found back
/// buffer is in the current back slot and, when rendering happens on another GPU, has a
/// linear twin; a swap that presents can count one more swap, take the absolute swap interval
/// and flip every rectangle; a server copy has both buffers.
pub open spec fn swap_event_fits(d: Dri3Drawable, req: SwapRequest, p: SwapProgress, e: SwapEvent) -> bool {
    match (p.stage, e) {
        (SwapStage::Idle, SwapEvent::Begin) => true,
        (SwapStage::Flushing, SwapEvent::Flushed) => true,
        (SwapStage::FetchingBack, SwapEvent::BackFetched(ok)) => ok ==> (d.state.buffers@[d.state.cur_back as int] matches Some(b)
            && (d.is_different_gpu ==> b.has_linear)),
        (SwapStage::CopyingLinear, SwapEvent::LinearCopied) => true,
        (SwapStage::ProcessingEvents, SwapEvent::EventsProcessed) => p.have_buffer && !d.is_pixmap ==> {
            &&& d.state.send_sbc < u64::MAX
            &&& d.swap_interval != i32::MIN
            &&& damage_all_fit(req.rects@, p.height)
        },
        (SwapStage::Presenting, SwapEvent::Presented) => server_copy_of(d.state, req.has_blit_image) matches Some((src, dst)) ==> (
            d.state.buffers@[src as int] is Some && d.state.buffers@[dst as int] is Some),
        (SwapStage::ServerCopying(_, _), SwapEvent::Copied) => true,
        (SwapStage::Invalidating, SwapEvent::Invalidated) => true,
        _ => false,
    }
}

/// The drawable after a swap's exchange: only the slots and the blit source change.
pub open spec fn swap_exchanged(old: Dri3Drawable, new: Dri3Drawable, req: SwapRequest, have_buffer: bool) -> bool {
    &&& new == (Dri3Drawable {
        state: DrawableState {
            buffers: new.state.buffers,
            cur_blit_source: new.state.cur_blit_source,
            ..old.state
        },
        ..old
    })
    &&& new.state.buffers@ == exchanged_buffers(old.state, old.has_fake_front, have_buffer)
    &&& new.state.cur_blit_source == exchanged_blit_source(
        old.state,
        old.swap_method,
        req.force_copy,
        old.has_fake_front,
        have_buffer,
    )
}

impl Dri3Drawable {
    /// Move a swap on by the event the caller reports. In order: flush, find the back buffer,
    /// copy it into its linear twin when rendering on another GPU, exchange it with a fake
    /// front, process the present events, then (for a window with a back buffer) count the
    /// swap, mark the buffer busy and present it with the flipped damage and the swap's
    /// parameters, have the server copy the blit source into the new back buffer where
    /// needed, and finally invalidate the drawable.
    pub fn swap_step(&mut self, req: &SwapRequest, p: SwapProgress, e: SwapEvent) -> (r: (SwapProgress, SwapAction))
        requires
            old(self).state.wf(),
            swap_fits(*old(self), p),
            swap_event_fits(*old(self), *req, p, e),
        ensures
            final(self).state.wf(),
            swap_fits(*final(self), r.0),
            match (p.stage, e) {
                (SwapStage::Idle, SwapEvent::Begin) => *final(self) == *old(self) && r.0 == (SwapProgress {
                    stage: SwapStage::Flushing,
                    ..p
                }) && r.1 is Flush,
                (SwapStage::Flushing, SwapEvent::Flushed) => *final(self) == *old(self) && r.0 == (SwapProgress {
                    stage: SwapStage::FetchingBack,
                    ..p
                }) && r.1 is FetchBack,
                (SwapStage::FetchingBack, SwapEvent::BackFetched(ok)) => {
                    let found = SwapProgress {
                        stage: r.0.stage,
                        have_buffer: ok,
                        width: old(self).width,
                        height: old(self).height,
                    };
                    &&& r.0 == found
                    &&& if ok && old(self).is_different_gpu {
                        &&& *final(self) == *old(self)
                        &&& r.0.stage == SwapStage::CopyingLinear
                        &&& r.1 == SwapAction::CopyLinear(old(self).state.cur_back)
                    } else {
                        &&& swap_exchanged(*old(self), *final(self), *req, ok)
                        &&& r.0.stage == SwapStage::ProcessingEvents
                        &&& r.1 is ProcessEvents
                    }
                },
                (SwapStage::CopyingLinear, SwapEvent::LinearCopied) => {
                    &&& swap_exchanged(*old(self), *final(self), *req, true)
                    &&& r.0 == (SwapProgress { stage: SwapStage::ProcessingEvents, ..p })
                    &&& r.1 is ProcessEvents
                },
                (SwapStage::ProcessingEvents, SwapEvent::EventsProcessed) => if p.have_buffer && !old(self).is_pixmap {
                    let slot = presented_slot(*old(self), true);
                    let sent = final(self).state.send_sbc;
                    &&& sent == old(self).state.send_sbc + 1
                    &&& same_but_buffers_and_send(final(self).state, old(self).state)
                    &&& *final(self) == (Dri3Drawable {
                        state: DrawableState {
                            buffers: final(self).state.buffers,
                            send_sbc: sent,
                            ..old(self).state
                        },
                        ..*old(self)
                    })
                    &&& final(self).state.buffers@ == old(self).state.buffers@.update(
                        slot as int,
                        Some(BufferSlot { busy: 1, last_swap: sent, ..old(self).state.buffers@[slot as int]->Some_0 }),
                    )
                    &&& r.0 == (SwapProgress { stage: SwapStage::Presenting, ..p })
                    &&& r.1 matches SwapAction::Present(pr) && {
                        &&& pr.window == old(self).x_drawable
                        &&& pr.pixmap == old(self).state.buffers@[slot as int]->Some_0.pixmap
                        &&& pr.serial == sent as u32
                        &&& pr.region@ == damage_region(req.rects@, p.height)
                        &&& pr.params == (SwapParameters {
                            options: option_bits(
                                old(self).swap_interval <= 0,
                                req.has_blit_image && old(self).state.cur_blit_source != -1,
                                false,
                                old(self).multiplanes_available,
                            ),
                            target_msc: swap_target_msc(
                                old(self).state.msc,
                                old(self).swap_interval,
                                sent,
                                old(self).state.recv_sbc,
                                req.target_msc,
                                req.divisor,
                                req.remainder,
                            ),
                            divisor: req.divisor,
                            remainder: req.remainder,
                        })
                    }
                } else {
                    &&& *final(self) == *old(self)
                    &&& r.0 == (SwapProgress { stage: SwapStage::Invalidating, ..p })
                    &&& r.1 is Invalidate
                },
                (SwapStage::Presenting, SwapEvent::Presented) => {
                    &&& *final(self) == *old(self)
                    &&& match server_copy_of(old(self).state, req.has_blit_image) {
                        Some((src, dst)) => r.0 == (SwapProgress { stage: SwapStage::ServerCopying(src, dst), ..p })
                            && r.1 == (SwapAction::ServerCopy { src, dst }),
                        None => r.0 == (SwapProgress { stage: SwapStage::Invalidating, ..p }) && r.1 is Invalidate,
                    }
                },
                (SwapStage::ServerCopying(src, dst), SwapEvent::Copied) => {
                    &&& *final(self) == (Dri3Drawable {
                        state: DrawableState { buffers: final(self).state.buffers, ..old(self).state },
                        ..*old(self)
                    })
                    &&& final(self).state.buffers@ == old(self).state.buffers@.update(
                        dst as int,
                        Some(BufferSlot {
                            last_swap: old(self).state.buffers@[src as int]->Some_0.last_swap,
                            ..old(self).state.buffers@[dst as int]->Some_0
                        }),
                    )
                    &&& r.0 == (SwapProgress { stage: SwapStage::Invalidating, ..p })
                    &&& r.1 is Invalidate
                },
                (SwapStage::Invalidating, SwapEvent::Invalidated) => *final(self) == *old(self) && r.0 == (SwapProgress {
                    stage: SwapStage::Done,
                    ..p
                }) && r.1 is Finish,
                _ => false,
            },
    {
        match (p.stage, e) {
            (SwapStage::Idle, SwapEvent::Begin) => (SwapProgress { stage: SwapStage::Flushing, ..p }, SwapAction::Flush),
            (SwapStage::Flushing, SwapEvent::Flushed) => (
                SwapProgress { stage: SwapStage::FetchingBack, ..p },
                SwapAction::FetchBack,
            ),
            (SwapStage::FetchingBack, SwapEvent::BackFetched(ok)) => {
                let found = SwapProgress { stage: p.stage, have_buffer: ok, width: self.width, height: self.height };
                if ok && self.is_different_gpu {
                    (SwapProgress { stage: SwapStage::CopyingLinear, ..found }, SwapAction::CopyLinear(self.state.cur_back))
                } else {
                    self.state.exchange_for_swap(self.swap_method, req.force_copy, self.has_fake_front, ok);
                    (SwapProgress { stage: SwapStage::ProcessingEvents, ..found }, SwapAction::ProcessEvents)
                }
            },
            (SwapStage::CopyingLinear, SwapEvent::LinearCopied) => {
                self.state.exchange_for_swap(self.swap_method, req.force_copy, self.has_fake_front, true);
                (SwapProgress { stage: SwapStage::ProcessingEvents, ..p }, SwapAction::ProcessEvents)
            },
            (SwapStage::ProcessingEvents, SwapEvent::EventsProcessed) => {
                if p.have_buffer && !self.is_pixmap {
                    let slot = if self.has_fake_front { FRONT_ID } else { self.state.cur_back };
                    let pixmap = match self.state.buffers[slot] {
                        Some(b) => b.pixmap,
                        None => {
                            proof {
                                assert(false);
                            }
                            0
                        },
                    };
                    let params = self.state.prepare_swap(
                        slot,
                        self.swap_interval,
                        req.has_blit_image,
                        self.multiplanes_available,
                        req.target_msc,
                        req.divisor,
                        req.remainder,
                    );
                    let serial = self.state.send_sbc as u32;
                    let region = damage_rectangles(&req.rects, p.height);
                    proof {
                        assert(region@ =~= damage_region(req.rects@, p.height));
                    }
                    (
                        SwapProgress { stage: SwapStage::Presenting, ..p },
                        SwapAction::Present(PresentRequest { window: self.x_drawable, pixmap, serial, region, params }),
                    )
                } else {
                    (SwapProgress { stage: SwapStage::Invalidating, ..p }, SwapAction::Invalidate)
                }
            },
            (SwapStage::Presenting, SwapEvent::Presented) => {
                match self.state.server_blit_after_swap(req.has_blit_image) {
                    Some((src, dst)) => (
                        SwapProgress { stage: SwapStage::ServerCopying(src, dst), ..p },
                        SwapAction::ServerCopy { src, dst },
                    ),
                    None => (SwapProgress { stage: SwapStage::Invalidating, ..p }, SwapAction::Invalidate),
                }
            },
            (SwapStage::ServerCopying(src, dst), SwapEvent::Copied) => {
                let s = match self.state.buffers[src] {
                    Some(s) => s,
                    None => {
                        proof {
                            assert(false);
                        }
                        return (p, SwapAction::Invalidate);
                    },
                };
                let d = match self.state.buffers[dst] {
                    Some(d) => d,
                    None => {
                        proof {
                            assert(false);
                        }
                        return (p, SwapAction::Invalidate);
                    },
                };
                self.state.buffers.set(dst, Some(BufferSlot { last_swap: s.last_swap, ..d }));
                (SwapProgress { stage: SwapStage::Invalidating, ..p }, SwapAction::Invalidate)
            },
            (SwapStage::Invalidating, SwapEvent::Invalidated) => (
                SwapProgress { stage: SwapStage::Done, ..p },
                SwapAction::Finish,
            ),
            _ => {
                proof {
                    assert(false);
                }
                (p, SwapAction::Finish)
            },
        }
    }
}

/// Exchanging the back and front slots twice gives the slots back as they were.
pub proof fn lemma_exchange_twice(b: Seq<Option<BufferSlot>>, cb: int)
    requires
        b.len() == NUM_BUFFERS,
        0 <= cb < NUM_BUFFERS,
    ensures
        ({
            let once = b.update(cb, b[FRONT_ID as int]).update(FRONT_ID as int, b[cb]);
            once.update(cb, once[FRONT_ID as int]).update(FRONT_ID as int, once[cb]) == b
        }),
{
    let once = b.update(cb, b[FRONT_ID as int]).update(FRONT_ID as int, b[cb]);
    let twice = once.update(cb, once[FRONT_ID as int]).update(FRONT_ID as int, once[cb]);
    assert(twice =~= b);
}

/// The part of an old buffer that is blitted into its replacement: the overlap of the two
/// sizes.
pub fn blit_extent(old: BufferSlot, width: u16, height: u16) -> (r: (u16, u16))
    ensures
        r.0 == if old.width < width { old.width } else { width },
        r.1 == if old.height < height { old.height } else { height },
{
    (if old.width < width { old.width } else { width }, if old.height < height { old.height } else { height })
}

/// When blitting an old buffer into its replacement failed, the server copies it instead,
/// unless the old buffer was shared through a linear twin; then the new buffer's fence must
/// be awaited.
pub fn needs_server_copy(blit_succeeded: bool, old_has_linear: bool) -> (r: bool)
    ensures
        r == (!blit_succeeded && !old_has_linear),
{
    !blit_succeeded && !old_has_linear
}

/// What getting the blit context asks for, given the screen of the one kept, if any.
#[derive(Debug, Copy, Clone, PartialEq, Eq, Structural)]
pub enum BlitContextStep {
    /// The kept context belongs to this screen: use it.
    Reuse,
    /// The kept context belongs to another screen: free it and make one for this screen.
    FreeAndCreate,
    /// No context is kept: make one for this screen.
    Create,
}

pub fn blit_context_step(kept_screen: Option<u64>, screen: u64) -> (r: BlitContextStep)
    ensures
        r == match kept_screen {
            Some(s) => if s == screen {
                BlitContextStep::Reuse
            } else {
                BlitContextStep::FreeAndCreate
            },
            None => BlitContextStep::Create,
        },
{
    match kept_screen {
        Some(s) => {
            if s == screen {
                BlitContextStep::Reuse
            } else {
                BlitContextStep::FreeAndCreate
            }
        },
        None => BlitContextStep::Create,
    }
}

/// The blit flag that asks for a flush.
pub const BLIT_FLAG_FLUSH: i32 = 0x0001;

/// The flags of a blit: a blit through the shared blit context (the drawable's own context
/// is not current) also flushes. Blitting needs the image extension's blit.
pub fn blit_flags(has_blit_image: bool, context_current: bool, flush_flag: i32) -> (r: Option<i32>)
    ensures
        r == if !has_blit_image {
            None::<i32>
        } else if context_current {
            Some(flush_flag)
        } else {
            Some(flush_flag | BLIT_FLAG_FLUSH)
        },
{
    if !has_blit_image {
        None
    } else if context_current {
        Some(flush_flag)
    } else {
        Some(flush_flag | BLIT_FLAG_FLUSH)
    }
}


/// The numbers read from an event's bytes: little end first, the first byte is the lowest;
/// big end first, the last byte is the lowest.
pub proof fn lemma_byte_values(b0: u8, b1: u8, b2: u8, b3: u8)
    ensures
        u16_from_bytes(b0, b1, true) as int == b0 + 256 * b1,
        u16_from_bytes(b0, b1, false) as int == 256 * b0 + b1,
        u32_from_bytes(b0, b1, b2, b3, true) as int == b0 + 256 * b1 + 65536 * b2 + 16777216 * b3,
        u32_from_bytes(b0, b1, b2, b3, false) as int == 16777216 * b0 + 65536 * b1 + 256 * b2 + b3,
{
}

/// A damaged rectangle is turned upside down onto X coordinates: its left side and size are
/// kept, and its top is the drawable's height less its bottom in GL coordinates (`y + h`).
pub proof fn lemma_damage_flip(x: i32, y: i32, w: i32, h: i32, height: u16)
    requires
        i16::MIN <= x <= i16::MAX,
        i16::MIN <= y <= i16::MAX,
        0 <= w <= u16::MAX,
        0 <= h <= i16::MAX,
        height <= i16::MAX,
        damage_fits(y, h, height),
    ensures
        damage_rect_of(x, y, w, h, height).x == x,
        damage_rect_of(x, y, w, h, height).y == height - y - h,
        damage_rect_of(x, y, w, h, height).width == w,
        damage_rect_of(x, y, w, h, height).height == h,
{
}

/// Which buffers a request hands out: a back buffer exactly when asked for one; a front
/// buffer when asked for one, for a pixmap, and for a drawable that swaps by exchange
/// (0x8061) — the pixmap's own buffer for a pixmap on this GPU, a fake front otherwise; the
/// image mask holds the front bit (1) and the back bit (2) of the buffers handed out.
pub proof fn lemma_buffers_plan(buffer_mask: u32, is_pixmap: bool, swap_method: i32, different_gpu: bool)
    ensures
        ({
            let p = buffers_plan_of(buffer_mask, is_pixmap, swap_method, different_gpu);
            let front = buffer_mask & 1 != 0 || is_pixmap || swap_method == 0x8061;
            &&& p.back == (buffer_mask & 2 != 0)
            &&& (p.front == FrontPlan::Free) == !front
            &&& front ==> (p.front == FrontPlan::PixmapBuffer <==> (is_pixmap && !different_gpu))
            &&& (p.image_mask & 1 != 0) == front
            &&& (p.image_mask & 2 != 0) == (buffer_mask & 2 != 0)
            &&& p.image_mask & !3u32 == 0
        }),
{
    let p = buffers_plan_of(buffer_mask, is_pixmap, swap_method, different_gpu);
    let front = buffer_mask & 1 != 0 || is_pixmap || swap_method == 0x8061;
    let back = buffer_mask & 2 != 0;
    let m = p.image_mask;
    assert(m == (if front { 1u32 } else { 0u32 }) | (if back { 2u32 } else { 0u32 }));
    assert((m & 1 != 0) == front && (m & 2 != 0) == back && m & !3u32 == 0) by (bit_vector)
        requires
            m == (if front { 1u32 } else { 0u32 }) | (if back { 2u32 } else { 0u32 }),
    ;
}

} // verus!
