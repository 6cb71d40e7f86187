//! One output: its surface, its negotiated size and its buffer pool.

use vstd::prelude::*;
use crate::buffer::{BufferError, BufferState, BufferTag, CommitError, PoolModel, solid};

verus! {

/// Width taken where the compositor proposes none.
pub const FALLBACK_WIDTH: u32 = 1920;

/// Height taken where the compositor proposes none.
pub const FALLBACK_HEIGHT: u32 = 1080;

/// The four bytes of the placeholder colour, an opaque blue, as they lie in
/// memory.
pub const PLACEHOLDER: [u8; 4] = [0xFF, 0x00, 0x00, 0xFF];

/// The size that a surface gets for a proposed size: a zero is replaced by
/// the fallback of its axis, anything else is taken as it is.
pub open spec fn negotiated(width: u32, height: u32) -> (u32, u32) {
    (
        if width == 0 { FALLBACK_WIDTH } else { width },
        if height == 0 { FALLBACK_HEIGHT } else { height },
    )
}

/// Applies the fallback policy to a proposed size.
pub fn negotiate(width: u32, height: u32) -> (size: (u32, u32))
    ensures
        size == negotiated(width, height),
        width == 0 ==> size.0 == 1920,
        height == 0 ==> size.1 == 1080,
        width != 0 ==> size.0 == width,
        height != 0 ==> size.1 == height,
{
    let final_width: u32 = if width == 0 { FALLBACK_WIDTH } else { width };
    let final_height: u32 = if height == 0 { FALLBACK_HEIGHT } else { height };
    (final_width, final_height)
}

/// What the caller does to a surface for one commit: attach the buffer
/// tagged `tag` at the origin, mark `width` by `height` pixels from the
/// origin as damaged, and commit the surface.
#[derive(Clone, Copy, PartialEq, Eq, Structural, Debug)]
pub struct SurfaceCommit {
    pub tag: BufferTag,
    pub width: i32,
    pub height: i32,
}

/// Why an output cannot get its surface.
#[derive(Clone, Copy, PartialEq, Eq, Structural, Debug)]
pub enum SurfaceError {
    /// The output named `name` has no output handle.
    MissingOutput { name: u32 },
    /// The output has its surface already; a surface is made once.
    AlreadyCreated,
}

/// Why a proposed size cannot be taken.
#[derive(Clone, Copy, PartialEq, Eq, Structural, Debug)]
pub enum ConfigureError {
    /// The output has no lock surface that could be configured.
    NoLockSurface,
    /// No buffer pool can be laid out for the size.
    Buffer(BufferError),
}

/// What a configure did to an output.
#[derive(Clone, Copy, PartialEq, Eq, Structural, Debug)]
pub struct Configured {
    /// The size in effect.
    pub width: u32,
    pub height: u32,
    /// Whether a new pool was laid out, for which the caller has to create
    /// the backing memory and the buffer objects.
    pub pool_created: bool,
    /// The commit of the first frame of a new pool.
    pub commit: Option<SurfaceCommit>,
}

/// The mathematical content of a [`Monitor`].
pub struct MonitorModel {
    pub name: u32,
    pub output: Option<u32>,
    pub lock_surface: Option<u32>,
    pub dimensions: (u32, u32),
    pub pool: Option<PoolModel>,
}

impl MonitorModel {
    /// A pool exists only under a lock surface, is well formed, is tagged
    /// with the output's name and has the negotiated size.
    pub open spec fn wf(self) -> bool {
        self.pool matches Some(pool) ==> {
            &&& self.lock_surface.is_some()
            &&& pool.wf()
            &&& pool.slots[0].tag.monitor_name == self.name
            &&& pool.slots[0].width == self.dimensions.0
            &&& pool.slots[0].height == self.dimensions.1
        }
    }

    /// Whether the output waits for a redraw.
    pub open spec fn is_dirty(self) -> bool {
        self.pool matches Some(pool) && pool.dirty
    }

    /// Whether a configure to `size` lays out a new pool: there is none, or
    /// the size has changed.
    pub open spec fn needs_pool(self, size: (u32, u32)) -> bool {
        self.pool.is_none() || self.dimensions != size
    }

    /// The pool that a configure to `size` creates and commits at once:
    /// both slots painted in the placeholder colour, the first one lent.
    pub open spec fn first_pool(self, size: (u32, u32)) -> PoolModel {
        let bytes = solid(size.0 * 4 * size.1, PLACEHOLDER@);
        PoolModel {
            slots: Seq::new(
                2,
                |i: int|
                    crate::buffer::SlotModel {
                        tag: BufferTag { monitor_name: self.name, index: i as usize },
                        width: size.0 as int,
                        height: size.1 as int,
                        stride: size.0 * 4,
                        size: size.0 * 4 * size.1,
                        bytes,
                        in_use: i == 0,
                    },
            ),
            dirty: false,
            next_index: 1,
        }
    }

    /// The output after a configure that proposes `width` by `height`.
    pub open spec fn configured(self, width: u32, height: u32) -> MonitorModel {
        let size = negotiated(width, height);
        MonitorModel {
            dimensions: size,
            pool: Some(
                if self.needs_pool(size) {
                    self.first_pool(size)
                } else {
                    self.pool.unwrap().marked_dirty()
                },
            ),
            ..self
        }
    }

    /// The output after an attempt to commit `frame`.
    pub open spec fn committed(self, frame: Seq<u8>) -> MonitorModel {
        match self.pool {
            Some(pool) => MonitorModel { pool: Some(pool.committed(frame)), ..self },
            None => self,
        }
    }

    /// The frame that a redraw commits while no picture of the form is
    /// drawn: the placeholder colour over the whole surface.
    pub open spec fn placeholder_frame(self) -> Seq<u8> {
        solid(self.dimensions.0 * 4 * self.dimensions.1, PLACEHOLDER@)
    }

    /// The output after a redraw: a stale output commits the placeholder
    /// frame if a slot is free; any other output stays as it is.
    pub open spec fn redrawn(self) -> MonitorModel {
        if self.is_dirty() {
            self.committed(self.placeholder_frame())
        } else {
            self
        }
    }

    /// What a redraw asks the caller to do to the surface.
    pub open spec fn redraw_commit(self) -> Option<SurfaceCommit> {
        if self.is_dirty() {
            match self.pool.unwrap().free_slot() {
                Some(i) => Some(
                    SurfaceCommit {
                        tag: BufferTag { monitor_name: self.name, index: i as usize },
                        width: self.dimensions.0 as i32,
                        height: self.dimensions.1 as i32,
                    },
                ),
                None => None,
            }
        } else {
            None
        }
    }

    /// The output after its content was declared stale.
    pub open spec fn marked_dirty(self) -> MonitorModel {
        match self.pool {
            Some(pool) => MonitorModel { pool: Some(pool.marked_dirty()), ..self },
            None => self,
        }
    }

    /// The output after the release of its slot `index`.
    pub open spec fn released(self, index: int) -> MonitorModel {
        match self.pool {
            Some(pool) => MonitorModel { pool: Some(pool.released(index)), ..self },
            None => self,
        }
    }
}

/// One output of the compositor.
pub struct Monitor {
    name: u32,
    output: Option<u32>,
    lock_surface: Option<u32>,
    dimensions: (u32, u32),
    buffer_state: Option<BufferState>,
}

impl View for Monitor {
    type V = MonitorModel;

    closed spec fn view(&self) -> MonitorModel {
        MonitorModel {
            name: self.name,
            output: self.output,
            lock_surface: self.lock_surface,
            dimensions: self.dimensions,
            pool: match self.buffer_state {
                Some(pool) => Some(pool@),
                None => None,
            },
        }
    }
}

impl Default for Monitor {
    /// An output that is named 0 and has nothing yet.
    fn default() -> (monitor: Self)
        ensures
            monitor@ == (MonitorModel {
                name: 0,
                output: None,
                lock_surface: None,
                dimensions: (0u32, 0u32),
                pool: None,
            }),
            monitor.wf(),
    {
        Monitor { name: 0, output: None, lock_surface: None, dimensions: (0, 0), buffer_state: None }
    }
}

impl Monitor {
    /// An output is well formed when its model is.
    pub open spec fn wf(&self) -> bool {
        self@.wf()
    }

    /// The same output under the name `n`.
    pub fn with_name(self, n: u32) -> (monitor: Self)
        ensures
            monitor@ == (MonitorModel { name: n, ..self@ }),
    {
        let mut monitor = self;
        monitor.name = n;
        monitor
    }

    /// The same output with its handle bound at `version`.
    pub fn with_output(self, version: u32) -> (monitor: Self)
        ensures
            monitor@ == (MonitorModel { output: Some(version), ..self@ }),
    {
        let mut monitor = self;
        monitor.output = Some(version);
        monitor
    }

    /// The name that the compositor gave the output.
    pub fn name(&self) -> (name: u32)
        ensures
            name == self@.name,
    {
        self.name
    }

    /// The version at which the output handle is bound, if it is.
    pub fn output(&self) -> (output: Option<u32>)
        ensures
            output == self@.output,
    {
        self.output
    }

    /// The identity of the lock surface, once it is made.
    pub fn lock_surface(&self) -> (lock_surface: Option<u32>)
        ensures
            lock_surface == self@.lock_surface,
    {
        self.lock_surface
    }

    /// The negotiated size in pixels.
    pub fn dimensions(&self) -> (dimensions: (u32, u32))
        ensures
            dimensions == self@.dimensions,
    {
        self.dimensions
    }

    /// The buffer pool, once a size is negotiated.
    pub fn buffer_state(&self) -> (pool: Option<&BufferState>)
        ensures
            match pool {
                Some(p) => self@.pool == Some(p@),
                None => self@.pool.is_none(),
            },
    {
        self.buffer_state.as_ref()
    }

    /// Whether the output waits for a redraw.
    pub fn is_dirty(&self) -> (dirty: bool)
        ensures
            dirty == self@.is_dirty(),
    {
        match &self.buffer_state {
            Some(pool) => pool.is_dirty(),
            None => false,
        }
    }

    /// Records the surface and the lock surface that were made for this
    /// output; `lock_surface` is the identity under which configure events
    /// will name it. An output without a handle cannot get a surface, and no
    /// output gets a second one.
    pub fn create_surface_and_lock(&mut self, lock_surface: u32) -> (outcome: Result<
        (),
        SurfaceError,
    >)
        ensures
            outcome == if old(self)@.output.is_none() {
                Err::<(), SurfaceError>(SurfaceError::MissingOutput { name: old(self)@.name })
            } else if old(self)@.lock_surface.is_some() {
                Err::<(), SurfaceError>(SurfaceError::AlreadyCreated)
            } else {
                Ok::<(), SurfaceError>(())
            },
            outcome is Ok ==> final(self)@ == (MonitorModel {
                lock_surface: Some(lock_surface),
                ..old(self)@
            }),
            outcome is Err ==> final(self)@ == old(self)@,
            old(self).wf() ==> final(self).wf(),
    {
        if self.output.is_none() {
            return Err(SurfaceError::MissingOutput { name: self.name });
        }
        if self.lock_surface.is_some() {
            return Err(SurfaceError::AlreadyCreated);
        }
        self.lock_surface = Some(lock_surface);
        Ok(())
    }

    /// Takes the size that the compositor proposes, after the fallback
    /// policy. Where the output has no pool, or the size has changed, a pool
    /// is laid out, painted in the placeholder colour, and its first frame is
    /// committed at once; else the pool is kept and declared stale.
    ///
    /// A new pool starts with nothing pending: the caller destroys the
    /// buffer objects of the pool it replaces before it creates the new
    /// ones, so that no release of an old buffer is taken for a new slot.
    pub fn configure(&mut self, width: u32, height: u32) -> (outcome: Result<
        Configured,
        ConfigureError,
    >)
        requires
            old(self).wf(),
        ensures
            final(self).wf(),
            ({
                let size = negotiated(width, height);
                if old(self)@.lock_surface.is_none() {
                    outcome == Err::<Configured, ConfigureError>(ConfigureError::NoLockSurface)
                } else if old(self)@.needs_pool(size) && size.0 * 4 * size.1 > i32::MAX {
                    outcome == Err::<Configured, ConfigureError>(
                        ConfigureError::Buffer(BufferError::TooLarge),
                    )
                } else {
                    outcome is Ok
                }
            }),
            outcome is Err ==> final(self)@ == old(self)@,
            outcome matches Ok(done) ==> {
                &&& final(self)@ == old(self)@.configured(width, height)
                &&& (done.width, done.height) == negotiated(width, height)
                &&& done.pool_created == old(self)@.needs_pool(negotiated(width, height))
                &&& done.commit == if done.pool_created {
                    Some(
                        SurfaceCommit {
                            tag: BufferTag { monitor_name: old(self)@.name, index: 0 },
                            width: done.width as i32,
                            height: done.height as i32,
                        },
                    )
                } else {
                    None
                }
            },
    {
        if self.lock_surface.is_none() {
            return Err(ConfigureError::NoLockSurface);
        }
        let (final_width, final_height) = negotiate(width, height);
        let keep = match &self.buffer_state {
            Some(_) => self.dimensions.0 == final_width && self.dimensions.1 == final_height,
            None => false,
        };
        if keep {
            match &mut self.buffer_state {
                Some(pool) => pool.mark_dirty(),
                None => {},
            }
            return Ok(
                Configured { width: final_width, height: final_height, pool_created: false, commit: None },
            );
        }
        if final_width > 0x7fff_ffff || final_height > 0x7fff_ffff {
            assert(final_width * 4 * final_height > i32::MAX) by (nonlinear_arith)
                requires
                    final_width >= 1,
                    final_height >= 1,
                    final_width > 0x7fff_ffff || final_height > 0x7fff_ffff,
            ;
            return Err(ConfigureError::Buffer(BufferError::TooLarge));
        }
        let pixel_width: i32 = final_width as i32;
        let pixel_height: i32 = final_height as i32;
        let mut pool = match BufferState::new(self.name, pixel_width, pixel_height) {
            Ok(pool) => pool,
            Err(e) => {
                return Err(ConfigureError::Buffer(e));
            },
        };
        pool.fill_solid_color(PLACEHOLDER);
        let mut frame: Vec<u8> = vec![0u8; pool.slot(0).size() as usize];
        crate::buffer::paint(&mut frame, &PLACEHOLDER);
        let committed = pool.commit(&frame);
        let commit = match committed {
            Ok(Some(index)) => Some(
                SurfaceCommit {
                    tag: BufferTag { monitor_name: self.name, index },
                    width: pixel_width,
                    height: pixel_height,
                },
            ),
            _ => None,
        };
        assert(pool@.slots =~= old(self)@.first_pool((final_width, final_height)).slots);
        self.dimensions = (final_width, final_height);
        self.buffer_state = Some(pool);
        Ok(Configured { width: final_width, height: final_height, pool_created: true, commit })
    }

    /// Commits `frame` to the output: writes it into a free slot and hands
    /// that slot to the compositor. Returns what the caller has to do to the
    /// surface, or `None`, with nothing changed, where the compositor holds
    /// both slots: the commit is then tried again later.
    pub fn commit(&mut self, frame: &Vec<u8>) -> (outcome: Result<Option<SurfaceCommit>, CommitError>)
        requires
            old(self).wf(),
        ensures
            final(self).wf(),
            match old(self)@.pool {
                None => outcome == Err::<Option<SurfaceCommit>, CommitError>(
                    CommitError::NoBufferState,
                ),
                Some(pool) => if frame@.len() != pool.slots[0].size {
                    outcome == Err::<Option<SurfaceCommit>, CommitError>(CommitError::FrameSize)
                } else {
                    outcome is Ok
                },
            },
            outcome is Err ==> final(self)@ == old(self)@,
            outcome matches Ok(commit) ==> {
                &&& final(self)@ == old(self)@.committed(frame@)
                &&& commit == match old(self)@.pool.unwrap().free_slot() {
                    Some(i) => Some(
                        SurfaceCommit {
                            tag: BufferTag { monitor_name: old(self)@.name, index: i as usize },
                            width: old(self)@.dimensions.0 as i32,
                            height: old(self)@.dimensions.1 as i32,
                        },
                    ),
                    None => None,
                }
            },
    {
        let name = self.name;
        match &mut self.buffer_state {
            None => Err(CommitError::NoBufferState),
            Some(pool) => {
                let pixel_width: i32 = pool.slot(0).width();
                let pixel_height: i32 = pool.slot(0).height();
                match pool.commit(frame) {
                    Err(e) => Err(e),
                    Ok(None) => Ok(None),
                    Ok(Some(index)) => Ok(
                        Some(
                            SurfaceCommit {
                                tag: BufferTag { monitor_name: name, index },
                                width: pixel_width,
                                height: pixel_height,
                            },
                        ),
                    ),
                }
            },
        }
    }

    /// Redraws the output if it is stale: commits the placeholder frame, and
    /// returns what the caller has to do to the surface. A stale output whose
    /// slots are both with the compositor stays stale, for the next turn.
    pub fn redraw(&mut self) -> (commit: Option<SurfaceCommit>)
        requires
            old(self).wf(),
        ensures
            final(self).wf(),
            final(self)@ == old(self)@.redrawn(),
            commit == old(self)@.redraw_commit(),
    {
        if !self.is_dirty() {
            return None;
        }
        let size: usize = match &self.buffer_state {
            Some(pool) => pool.slot(0).size() as usize,
            None => 0,
        };
        let mut frame: Vec<u8> = vec![0u8; size];
        crate::buffer::paint(&mut frame, &PLACEHOLDER);
        assert(frame@ == self@.placeholder_frame());
        match self.commit(&frame) {
            Ok(commit) => commit,
            Err(_) => None,
        }
    }

    /// Takes slot `index` back from the compositor. Without a pool, or for
    /// an index that names no slot, nothing changes.
    pub fn release(&mut self, index: usize)
        requires
            old(self).wf(),
        ensures
            final(self).wf(),
            final(self)@ == old(self)@.released(index as int),
    {
        match &mut self.buffer_state {
            Some(pool) => pool.release(index),
            None => {},
        }
    }

    /// Declares the content of the output stale, if it has a pool.
    pub fn mark_dirty(&mut self)
        requires
            old(self).wf(),
        ensures
            final(self).wf(),
            final(self)@ == old(self)@.marked_dirty(),
    {
        match &mut self.buffer_state {
            Some(pool) => pool.mark_dirty(),
            None => {},
        }
    }
}

} // verus!
