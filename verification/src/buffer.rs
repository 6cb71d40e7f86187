//! Double-buffered pixel memory shared with the compositor.
//!
//! A pool owns two slots. A slot belongs to the client until a commit hands
//! it to the compositor, and comes back only when the compositor releases it.
//! Nothing here writes to a slot that the compositor holds.

use vstd::prelude::*;

verus! {

/// Number of slots in a pool.
pub const SLOT_COUNT: usize = 2;

/// Bytes of one pixel in the 32-bit ARGB format.
pub const BYTES_PER_PIXEL: i32 = 4;

/// What a buffer object carries so that its release finds its slot again.
#[derive(Clone, Copy, PartialEq, Eq, Structural, Debug)]
pub struct BufferTag {
    pub monitor_name: u32,
    pub index: usize,
}

/// Why a slot cannot be laid out.
#[derive(Clone, Copy, PartialEq, Eq, Structural, Debug)]
pub enum BufferError {
    /// The width or the height is not positive.
    Empty,
    /// The slot needs more bytes than a signed 32-bit size can say.
    TooLarge,
}

/// Why a frame cannot be committed.
#[derive(Clone, Copy, PartialEq, Eq, Structural, Debug)]
pub enum CommitError {
    /// The output has no buffer pool yet.
    NoBufferState,
    /// The frame does not have the byte length of a slot.
    FrameSize,
}

/// The number under which the backing file of a slot is created.
pub open spec fn backing_name(tag: BufferTag) -> u32 {
    ((tag.monitor_name * 2 + tag.index) % 0x1_0000_0000) as u32
}

/// `len` bytes that repeat the four bytes of `color`.
pub open spec fn solid(len: int, color: Seq<u8>) -> Seq<u8> {
    Seq::new(len as nat, |k: int| color[k % 4])
}

/// The mathematical content of a [`BufferSlot`].
pub struct SlotModel {
    pub tag: BufferTag,
    pub width: int,
    pub height: int,
    pub stride: int,
    pub size: int,
    pub bytes: Seq<u8>,
    pub in_use: bool,
}

impl SlotModel {
    /// The geometry is positive, the stride is four bytes a pixel, the size
    /// is `stride * height` and fits a signed 32-bit number, and the memory
    /// has exactly that many bytes.
    pub open spec fn wf(self) -> bool {
        &&& 0 < self.width
        &&& 0 < self.height
        &&& self.stride == self.width * 4
        &&& self.size == self.stride * self.height
        &&& self.size <= i32::MAX
        &&& self.bytes.len() == self.size
    }
}

/// The mathematical content of a [`BufferState`].
pub struct PoolModel {
    pub slots: Seq<SlotModel>,
    pub dirty: bool,
    pub next_index: int,
}

impl PoolModel {
    /// Two well-formed slots of one geometry, tagged with their own index for
    /// one output, and a cursor that points at one of them.
    pub open spec fn wf(self) -> bool {
        &&& self.slots.len() == 2
        &&& 0 <= self.next_index < 2
        &&& forall|i: int| 0 <= i < 2 ==> (#[trigger] self.slots[i]).wf()
        &&& forall|i: int| 0 <= i < 2 ==> (#[trigger] self.slots[i]).tag.index == i
        &&& self.slots[0].tag.monitor_name == self.slots[1].tag.monitor_name
        &&& self.slots[0].width == self.slots[1].width
        &&& self.slots[0].height == self.slots[1].height
    }

    /// The slot that the next commit takes: the one under the cursor if it is
    /// free, else the other one if that is free.
    pub open spec fn free_slot(self) -> Option<int> {
        let first = self.next_index;
        let second = (self.next_index + 1) % 2;
        if !self.slots[first].in_use {
            Some(first)
        } else if !self.slots[second].in_use {
            Some(second)
        } else {
            None
        }
    }

    /// The pool once slot `index` is taken: the cursor stands behind it.
    pub open spec fn acquired(self, index: int) -> PoolModel {
        PoolModel { next_index: (index + 1) % 2, ..self }
    }

    /// The pool after a commit of `frame` into slot `index`.
    pub open spec fn presented(self, index: int, frame: Seq<u8>) -> PoolModel {
        PoolModel {
            slots: self.slots.update(
                index,
                SlotModel { bytes: frame, in_use: true, ..self.slots[index] },
            ),
            dirty: false,
            next_index: (index + 1) % 2,
        }
    }

    /// The pool after an attempt to commit `frame`: unchanged where no slot is
    /// free.
    pub open spec fn committed(self, frame: Seq<u8>) -> PoolModel {
        match self.free_slot() {
            Some(index) => self.presented(index, frame),
            None => self,
        }
    }

    /// The pool after the compositor released slot `index`.
    pub open spec fn released(self, index: int) -> PoolModel {
        if 0 <= index < self.slots.len() {
            PoolModel {
                slots: self.slots.update(index, SlotModel { in_use: false, ..self.slots[index] }),
                ..self
            }
        } else {
            self
        }
    }

    /// The pool after its content was declared stale.
    pub open spec fn marked_dirty(self) -> PoolModel {
        PoolModel { dirty: true, ..self }
    }

    /// The pool after every slot that the client owns was painted in `color`.
    pub open spec fn filled(self, color: Seq<u8>) -> PoolModel {
        PoolModel {
            slots: Seq::new(
                self.slots.len(),
                |i: int|
                    if self.slots[i].in_use {
                        self.slots[i]
                    } else {
                        SlotModel { bytes: solid(self.slots[i].size, color), ..self.slots[i] }
                    },
            ),
            dirty: true,
            ..self
        }
    }

    /// How many slots the compositor holds.
    pub open spec fn in_flight(self) -> nat {
        let first: nat = if self.slots[0].in_use { 1 } else { 0 };
        let second: nat = if self.slots[1].in_use { 1 } else { 0 };
        first + second
    }

    /// `later` holds, in every slot that the compositor holds in `self`, the
    /// bytes that `self` holds there.
    pub open spec fn keeps_lent_memory(self, later: PoolModel) -> bool {
        forall|i: int|
            0 <= i < self.slots.len() && (#[trigger] self.slots[i]).in_use ==> later.slots[i].bytes
                == self.slots[i].bytes
    }
}

/// One region of pixel memory and who owns it.
pub struct BufferSlot {
    tag: BufferTag,
    width: i32,
    height: i32,
    stride: i32,
    size: i32,
    bytes: Vec<u8>,
    in_use: bool,
}

impl View for BufferSlot {
    type V = SlotModel;

    closed spec fn view(&self) -> SlotModel {
        SlotModel {
            tag: self.tag,
            width: self.width as int,
            height: self.height as int,
            stride: self.stride as int,
            size: self.size as int,
            bytes: self.bytes@,
            in_use: self.in_use,
        }
    }
}

/// Copies `src` over `dst`, byte for byte.
fn overwrite(dst: &mut Vec<u8>, src: &Vec<u8>)
    requires
        old(dst).len() == src.len(),
    ensures
        final(dst)@ == src@,
{
    let n = src.len();
    let mut k: usize = 0;
    while k < n
        invariant
            n == src.len(),
            dst.len() == n,
            k <= n,
            forall|j: int| 0 <= j < k ==> dst[j] == src[j],
        decreases n - k,
    {
        dst[k] = src[k];
        k += 1;
    }
}

/// Paints `dst` with the four bytes of `color`, pixel after pixel.
pub(crate) fn paint(dst: &mut Vec<u8>, color: &[u8; 4])
    ensures
        final(dst)@ == solid(old(dst).len() as int, color@),
{
    let n = dst.len();
    let mut k: usize = 0;
    while k < n
        invariant
            dst.len() == n,
            k <= n,
            forall|j: int| 0 <= j < k ==> dst[j] == color@[j % 4],
        decreases n - k,
    {
        dst[k] = color[k % 4];
        k += 1;
    }
}

impl BufferSlot {
    /// A slot is well formed when its model is.
    pub open spec fn wf(&self) -> bool {
        self@.wf()
    }

    /// Lays out slot `index` of output `monitor_name` for a surface of
    /// `width` by `height` pixels: four bytes a pixel, rows without padding,
    /// zeroed memory, owned by the client.
    pub fn new(monitor_name: u32, index: usize, width: i32, height: i32) -> (slot: Result<
        BufferSlot,
        BufferError,
    >)
        ensures
            if width <= 0 || height <= 0 {
                slot == Err::<BufferSlot, BufferError>(BufferError::Empty)
            } else if width * 4 * height > i32::MAX {
                slot == Err::<BufferSlot, BufferError>(BufferError::TooLarge)
            } else {
                slot is Ok
            },
            slot matches Ok(s) ==> {
                &&& s.wf()
                &&& s@.tag == (BufferTag { monitor_name, index })
                &&& s@.width == width
                &&& s@.height == height
                &&& s@.bytes == Seq::new((width * 4 * height) as nat, |k: int| 0u8)
                &&& !s@.in_use
            },
    {
        if width <= 0 || height <= 0 {
            return Err(BufferError::Empty);
        }
        let stride: i32 = match width.checked_mul(BYTES_PER_PIXEL) {
            Some(stride) => stride,
            None => {
                assert(width * 4 * height > i32::MAX) by (nonlinear_arith)
                    requires
                        width * 4 > i32::MAX,
                        height >= 1,
                ;
                return Err(BufferError::TooLarge);
            },
        };
        let size: i32 = match stride.checked_mul(height) {
            Some(size) => size,
            None => {
                return Err(BufferError::TooLarge);
            },
        };
        let bytes: Vec<u8> = vec![0u8; size as usize];
        Ok(BufferSlot { tag: BufferTag { monitor_name, index }, width, height, stride, size, bytes, in_use: false })
    }

    /// The tag of the slot's buffer object.
    pub fn tag(&self) -> (tag: BufferTag)
        ensures
            tag == self@.tag,
    {
        self.tag
    }

    /// Width in pixels.
    pub fn width(&self) -> (width: i32)
        ensures
            width == self@.width,
    {
        self.width
    }

    /// Height in pixels.
    pub fn height(&self) -> (height: i32)
        ensures
            height == self@.height,
    {
        self.height
    }

    /// Bytes in a row.
    pub fn stride(&self) -> (stride: i32)
        ensures
            stride == self@.stride,
    {
        self.stride
    }

    /// Bytes in the whole slot.
    pub fn size(&self) -> (size: i32)
        ensures
            size == self@.size,
    {
        self.size
    }

    /// Whether the compositor holds the slot.
    pub fn in_use(&self) -> (in_use: bool)
        ensures
            in_use == self@.in_use,
    {
        self.in_use
    }

    /// The pixel memory.
    pub fn bytes(&self) -> (bytes: &Vec<u8>)
        ensures
            bytes@ == self@.bytes,
    {
        &self.bytes
    }

    /// The number under which the backing file of the slot is created: twice
    /// the output's name plus the slot's index, wrapping at 32 bits.
    pub fn backing_name(&self) -> (name: u32)
        ensures
            name == backing_name(self@.tag),
    {
        let wide: u64 = self.tag.index as u64;
        let index: u32 = #[verifier::truncate] (wide as u32);
        assert(index == wide % 0x1_0000_0000) by (bit_vector)
            requires
                index == wide as u32,
        ;
        let doubled: u32 = self.tag.monitor_name.wrapping_mul(2);
        let name: u32 = doubled.wrapping_add(index);
        name
    }

    /// Paints every pixel of the slot in `color`.
    pub fn fill_solid_color(&mut self, color: [u8; 4])
        requires
            old(self).wf(),
            !old(self)@.in_use,
        ensures
            final(self)@ == (SlotModel { bytes: solid(old(self)@.size, color@), ..old(self)@ }),
            final(self).wf(),
    {
        paint(&mut self.bytes, &color);
    }
}

/// The two slots of one output, the stale flag and the round-robin cursor.
pub struct BufferState {
    buffers: [BufferSlot; 2],
    dirty: bool,
    next_index: usize,
}

impl View for BufferState {
    type V = PoolModel;

    closed spec fn view(&self) -> PoolModel {
        PoolModel {
            slots: Seq::new(2, |i: int| self.buffers[i]@),
            dirty: self.dirty,
            next_index: self.next_index as int,
        }
    }
}

impl BufferState {
    /// A pool is well formed when its model is.
    pub open spec fn wf(&self) -> bool {
        self@.wf()
    }

    /// Lays out the two slots of output `name` for a surface of `width` by
    /// `height` pixels. The new pool is stale and both slots are free.
    pub fn new(name: u32, width: i32, height: i32) -> (pool: Result<BufferState, BufferError>)
        ensures
            if width <= 0 || height <= 0 {
                pool == Err::<BufferState, BufferError>(BufferError::Empty)
            } else if width * 4 * height > i32::MAX {
                pool == Err::<BufferState, BufferError>(BufferError::TooLarge)
            } else {
                pool is Ok
            },
            pool matches Ok(p) ==> {
                &&& p.wf()
                &&& p@.dirty
                &&& p@.next_index == 0
                &&& forall|i: int|
                    0 <= i < 2 ==> {
                        &&& (#[trigger] p@.slots[i]).tag == (BufferTag {
                            monitor_name: name,
                            index: i as usize,
                        })
                        &&& p@.slots[i].width == width
                        &&& p@.slots[i].height == height
                        &&& p@.slots[i].bytes == Seq::new(
                            (width * 4 * height) as nat,
                            |k: int| 0u8,
                        )
                        &&& !p@.slots[i].in_use
                    }
            },
    {
        let buffer_0 = match BufferSlot::new(name, 0, width, height) {
            Ok(slot) => slot,
            Err(e) => {
                return Err(e);
            },
        };
        let buffer_1 = match BufferSlot::new(name, 1, width, height) {
            Ok(slot) => slot,
            Err(e) => {
                return Err(e);
            },
        };
        Ok(BufferState { buffers: [buffer_0, buffer_1], dirty: true, next_index: 0 })
    }

    /// Whether the content differs from the frame committed last.
    pub fn is_dirty(&self) -> (dirty: bool)
        ensures
            dirty == self@.dirty,
    {
        self.dirty
    }

    /// Slot `index`.
    pub fn slot(&self, index: usize) -> (slot: &BufferSlot)
        requires
            index < SLOT_COUNT,
        ensures
            slot@ == self@.slots[index as int],
    {
        &self.buffers[index]
    }

    /// Declares the content stale. Doing so again changes nothing more.
    pub fn mark_dirty(&mut self)
        ensures
            final(self)@ == old(self)@.marked_dirty(),
    {
        self.dirty = true;
    }

    /// Paints every slot that the client owns in `color` and declares the
    /// content stale. A slot that the compositor holds is left alone.
    pub fn fill_solid_color(&mut self, color: [u8; 4])
        requires
            old(self).wf(),
        ensures
            final(self)@ == old(self)@.filled(color@),
            final(self).wf(),
            old(self)@.keeps_lent_memory(final(self)@),
    {
        let mut index: usize = 0;
        while index < SLOT_COUNT
            invariant
                index <= 2,
                self.wf(),
                self.dirty == old(self).dirty,
                self.next_index == old(self).next_index,
                forall|i: int|
                    0 <= i < index ==> (#[trigger] self@.slots[i]) == old(self)@.filled(
                        color@,
                    ).slots[i],
                forall|i: int| index <= i < 2 ==> (#[trigger] self@.slots[i]) == old(self)@.slots[i],
            decreases 2 - index,
        {
            if !self.buffers[index].in_use {
                self.buffers[index].fill_solid_color(color);
            }
            index += 1;
        }
        self.dirty = true;
        assert(self@.slots =~= old(self)@.filled(color@).slots);
    }

    /// Picks the slot for the next commit: the first free one from the
    /// cursor on, and moves the cursor behind it. Returns `None`, and leaves
    /// the cursor, where the compositor holds both slots.
    pub fn acquire_free_slot(&mut self) -> (index: Option<usize>)
        requires
            old(self).wf(),
        ensures
            match index {
                Some(i) => {
                    &&& old(self)@.free_slot() == Some(i as int)
                    &&& i < SLOT_COUNT
                    &&& !old(self)@.slots[i as int].in_use
                    &&& final(self)@ == old(self)@.acquired(i as int)
                },
                None => old(self)@.free_slot().is_none() && final(self)@ == old(self)@,
            },
            final(self).wf(),
    {
        let total: usize = SLOT_COUNT;
        let mut offset: usize = 0;
        while offset < total
            invariant
                total == 2,
                offset <= total,
                self.wf(),
                *self == *old(self),
                offset >= 1 ==> self@.slots[self@.next_index].in_use,
                offset >= 2 ==> self@.slots[(self@.next_index + 1) % 2].in_use,
            decreases total - offset,
        {
            let index: usize = (self.next_index + offset) % total;
            if !self.buffers[index].in_use {
                self.next_index = (index + 1) % total;
                return Some(index);
            }
            offset += 1;
        }
        None
    }

    /// Commits `frame`: writes it into a free slot, hands that slot to the
    /// compositor and clears the stale flag. Returns the slot's index for the
    /// caller to attach, or `None`, with nothing changed, where no slot is
    /// free. A frame of the wrong length is refused, with nothing changed.
    pub fn commit(&mut self, frame: &Vec<u8>) -> (outcome: Result<Option<usize>, CommitError>)
        requires
            old(self).wf(),
        ensures
            if frame@.len() != old(self)@.slots[0].size {
                outcome == Err::<Option<usize>, CommitError>(CommitError::FrameSize)
            } else {
                outcome is Ok
            },
            outcome is Err ==> final(self)@ == old(self)@,
            outcome matches Ok(slot) ==> {
                &&& final(self)@ == old(self)@.committed(frame@)
                &&& match slot {
                    Some(i) => old(self)@.free_slot() == Some(i as int) && i < SLOT_COUNT,
                    None => old(self)@.free_slot().is_none(),
                }
            },
            final(self).wf(),
            old(self)@.keeps_lent_memory(final(self)@),
    {
        if frame.len() != self.buffers[0].bytes.len() {
            return Err(CommitError::FrameSize);
        }
        let index = match self.acquire_free_slot() {
            Some(index) => index,
            None => {
                return Ok(None);
            },
        };
        overwrite(&mut self.buffers[index].bytes, frame);
        self.buffers[index].in_use = true;
        self.dirty = false;
        assert(self@.slots =~= old(self)@.committed(frame@).slots);
        Ok(Some(index))
    }

    /// Takes slot `index` back from the compositor. An index that names no
    /// slot changes nothing.
    pub fn release(&mut self, index: usize)
        requires
            old(self).wf(),
        ensures
            final(self)@ == old(self)@.released(index as int),
            final(self).wf(),
    {
        if index < SLOT_COUNT {
            self.buffers[index].in_use = false;
            assert(self@.slots =~= old(self)@.released(index as int).slots);
        }
    }
}

/// One operation on a pool, as the laws below see it.
pub enum PoolOp {
    /// A commit of `frame`.
    Commit { frame: Seq<u8> },
    /// The release notification for slot `index`.
    Release { index: int },
    /// The content became stale.
    MarkDirty,
}

impl PoolModel {
    /// The pool after `op`.
    pub open spec fn apply(self, op: PoolOp) -> PoolModel {
        match op {
            PoolOp::Commit { frame } => self.committed(frame),
            PoolOp::Release { index } => self.released(index),
            PoolOp::MarkDirty => self.marked_dirty(),
        }
    }

    /// The slot that `op` hands to the compositor, if it hands one over.
    pub open spec fn lends(self, op: PoolOp) -> Option<int> {
        match op {
            PoolOp::Commit { frame } => self.free_slot(),
            _ => None,
        }
    }

    /// The pool after the first `count` operations of `ops`.
    pub open spec fn after_ops(self, ops: Seq<PoolOp>, count: int) -> PoolModel
        decreases count,
    {
        if count <= 0 {
            self
        } else {
            self.after_ops(ops, count - 1).apply(ops[count - 1])
        }
    }

    /// Whether every frame committed by `ops` has the length of a slot.
    pub open spec fn frames_fit(self, ops: Seq<PoolOp>) -> bool {
        forall|k: int|
            0 <= k < ops.len() ==> (#[trigger] ops[k] matches PoolOp::Commit { frame }
                ==> frame.len() == self.slots[0].size)
    }
}

/// Every operation keeps a well-formed pool well formed, with the geometry
/// it had.
pub proof fn law_pool_stays_well_formed(pool: PoolModel, op: PoolOp)
    requires
        pool.wf(),
        op matches PoolOp::Commit { frame } ==> frame.len() == pool.slots[0].size,
    ensures
        pool.apply(op).wf(),
        pool.apply(op).slots[0].size == pool.slots[0].size,
{
}

/// A commit takes a slot that the client owns, and no other: the slot is
/// free before, lent after, and the other slot is as it was.
pub proof fn law_commit_takes_free_slot(pool: PoolModel, frame: Seq<u8>)
    requires
        pool.wf(),
    ensures
        match pool.free_slot() {
            Some(i) => {
                &&& 0 <= i < 2
                &&& !pool.slots[i].in_use
                &&& pool.committed(frame).slots[i].in_use
                &&& pool.committed(frame).slots[i].bytes == frame
                &&& pool.committed(frame).slots[1 - i] == pool.slots[1 - i]
                &&& pool.committed(frame).in_flight() == pool.in_flight() + 1
            },
            None => pool.in_flight() == 2 && pool.committed(frame) == pool,
        },
{
}

/// No operation writes to memory that the compositor holds, and a lent slot
/// stays lent until its own release arrives.
pub proof fn law_lent_slot_is_left_alone(pool: PoolModel, op: PoolOp, slot: int)
    requires
        pool.wf(),
        0 <= slot < 2,
        pool.slots[slot].in_use,
    ensures
        pool.apply(op).slots[slot].bytes == pool.slots[slot].bytes,
        op != (PoolOp::Release { index: slot }) ==> pool.apply(op).slots[slot].in_use,
        pool.keeps_lent_memory(pool.apply(op)),
{
}

/// A release frees the slot it names and touches nothing else; the number of
/// lent slots goes down by one exactly when that slot was lent.
pub proof fn law_release_frees_one_slot(pool: PoolModel, index: int)
    requires
        pool.wf(),
    ensures
        pool.released(index).dirty == pool.dirty,
        pool.released(index).next_index == pool.next_index,
        forall|i: int|
            0 <= i < 2 && i != index ==> #[trigger] pool.released(index).slots[i] == pool.slots[i],
        0 <= index < 2 ==> {
            &&& !pool.released(index).slots[index].in_use
            &&& pool.released(index).slots[index].bytes == pool.slots[index].bytes
            &&& pool.released(index).in_flight() == pool.in_flight() - (if pool.slots[index].in_use {
                1int
            } else {
                0int
            })
        },
        !(0 <= index < 2) ==> pool.released(index) == pool,
{
}

/// Two commits with no release between them take different slots, and a
/// third finds none.
pub proof fn law_back_to_back_commits(pool: PoolModel, first: Seq<u8>, second: Seq<u8>, third: Seq<u8>)
    requires
        pool.wf(),
    ensures
        pool.free_slot() matches Some(i) ==> pool.committed(first).free_slot() != Some(i),
        pool.committed(first).committed(second).free_slot().is_none() || pool.free_slot().is_none(),
        pool.free_slot().is_some() && pool.committed(first).free_slot().is_some()
            ==> pool.committed(first).committed(second).committed(third) == pool.committed(
            first,
        ).committed(second),
{
}

/// Over any run of commits, releases and stale marks, a slot that one commit
/// took is not taken by a later commit unless its release came in between.
pub proof fn law_no_slot_lent_twice(pool: PoolModel, ops: Seq<PoolOp>, earlier: int, later: int)
    requires
        pool.wf(),
        pool.frames_fit(ops),
        0 <= earlier < later < ops.len(),
        pool.after_ops(ops, earlier).lends(ops[earlier]).is_some(),
        pool.after_ops(ops, later).lends(ops[later]) == pool.after_ops(ops, earlier).lends(
            ops[earlier],
        ),
    ensures
        exists|between: int|
            earlier < between < later && #[trigger] ops[between] == (PoolOp::Release {
                index: pool.after_ops(ops, earlier).lends(ops[earlier]).unwrap(),
            }),
{
    let slot = pool.after_ops(ops, earlier).lends(ops[earlier]).unwrap();
    let release = PoolOp::Release { index: slot };
    if forall|between: int| earlier < between < later ==> #[trigger] ops[between] != release {
        lemma_run_stays_well_formed(pool, ops, earlier);
        lemma_stays_lent(pool, ops, slot, earlier + 1, later);
    }
}

/// A run of fitting operations keeps the pool well formed.
proof fn lemma_run_stays_well_formed(pool: PoolModel, ops: Seq<PoolOp>, count: int)
    requires
        pool.wf(),
        pool.frames_fit(ops),
        0 <= count <= ops.len(),
    ensures
        pool.after_ops(ops, count).wf(),
        pool.after_ops(ops, count).slots[0].size == pool.slots[0].size,
    decreases count,
{
    if count > 0 {
        lemma_run_stays_well_formed(pool, ops, count - 1);
        law_pool_stays_well_formed(pool.after_ops(ops, count - 1), ops[count - 1]);
    }
}

/// A slot lent after `from` operations is still lent after `to` operations
/// when none of the operations in between releases it.
proof fn lemma_stays_lent(pool: PoolModel, ops: Seq<PoolOp>, slot: int, from: int, to: int)
    requires
        pool.wf(),
        pool.frames_fit(ops),
        0 <= slot < 2,
        0 <= from <= to <= ops.len(),
        pool.after_ops(ops, from).slots[slot].in_use,
        forall|between: int|
            from <= between < to ==> #[trigger] ops[between] != (PoolOp::Release { index: slot }),
    ensures
        pool.after_ops(ops, to).slots[slot].in_use,
    decreases to - from,
{
    if from < to {
        lemma_stays_lent(pool, ops, slot, from, to - 1);
        lemma_run_stays_well_formed(pool, ops, to - 1);
        law_lent_slot_is_left_alone(pool.after_ops(ops, to - 1), ops[to - 1], slot);
    }
}

/// Marking a pool stale twice is marking it once; a commit that finds a slot
/// clears the mark, so one redraw answers any number of marks; a commit that
/// finds none changes nothing, so the mark is still there for the next try.
pub proof fn law_dirty_flag(pool: PoolModel, frame: Seq<u8>)
    requires
        pool.wf(),
    ensures
        pool.marked_dirty().marked_dirty() == pool.marked_dirty(),
        pool.marked_dirty().dirty,
        pool.marked_dirty().free_slot() == pool.free_slot(),
        pool.free_slot().is_some() ==> !pool.marked_dirty().marked_dirty().committed(frame).dirty,
        pool.free_slot().is_none() ==> pool.marked_dirty().committed(frame) == pool.marked_dirty(),
{
}

} // verus!
