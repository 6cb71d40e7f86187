//! The session: the bound globals, the outputs and the lock lifecycle, with
//! one handler for each kind of event. A handler changes the session and
//! hands back the requests that the caller has to send.

use vstd::prelude::*;
use vstd::std_specs::iter::IteratorSpec;
use std::collections::HashMap;
use crate::buffer::{BufferError, BufferTag, CommitError};
use crate::monitor::{Configured, ConfigureError, Monitor, MonitorModel, SurfaceCommit, SurfaceError};
use crate::registry::{Bound, GlobalKind, InitError, bind_version, classify, kind_of, pick_version, supported, supported_version};
use crate::session::{LockSession, LockState, LoopStep, SessionEvent, AUTO_UNLOCK_WINDOW_MS};

verus! {

broadcast use vstd::std_specs::hash::group_hash_axioms;

/// What the caller creates for one slot of a new pool: a sealable anonymous
/// file named after `backing_name` and `size` bytes long, a shared writable
/// mapping of it, a pool object over the same file, and in it one buffer
/// object at offset 0 with this geometry in the 32-bit ARGB format, tagged
/// with `tag`.
#[derive(Clone, Copy, PartialEq, Eq, Structural, Debug)]
pub struct SlotLayout {
    pub tag: BufferTag,
    pub backing_name: u32,
    pub width: i32,
    pub height: i32,
    pub stride: i32,
    pub size: i32,
}

/// A request that the caller has to send to the compositor.
#[derive(Clone, Copy, PartialEq, Eq, Structural, Debug)]
pub enum Request {
    /// Bind the global advertised as `name` at `version`.
    Bind { name: u32, global: GlobalKind, version: u32 },
    /// Acknowledge the configure with `serial` on the lock surface of `output`.
    AckConfigure { output: u32, serial: u32 },
    /// Create the backing memory and the buffer object of one slot.
    CreateSlot(SlotLayout),
    /// Copy the slot's bytes into its mapping, then attach, damage and commit.
    Present(SurfaceCommit),
    /// Unlock the session and destroy the lock object.
    UnlockAndDestroy,
}

/// An event of the lock object.
#[derive(Clone, Copy, PartialEq, Eq, Structural, Debug)]
pub enum LockEvent {
    Locked,
    Finished,
    /// Any event that the client does not know.
    Other,
}

/// An event of a buffer object.
#[derive(Clone, Copy, PartialEq, Eq, Structural, Debug)]
pub enum BufferEvent {
    Release,
    /// Any event that the client does not know.
    Other,
}

/// An event of a lock surface.
#[derive(Clone, Copy, PartialEq, Eq, Structural, Debug)]
pub enum LockSurfaceEvent {
    Configure { width: u32, height: u32, serial: u32 },
    /// Any event that the client does not know.
    Other,
}

/// Why the lock cannot be requested.
#[derive(Clone, Copy, PartialEq, Eq, Structural, Debug)]
pub enum LockError {
    /// A required global was not advertised.
    Missing(InitError),
    /// The lock was requested before.
    NotIdle,
}

/// Why an output of the session cannot get its surface.
#[derive(Clone, Copy, PartialEq, Eq, Structural, Debug)]
pub enum AttachError {
    /// No lock object exists yet.
    NoLock,
    /// The session has no output of that name.
    UnknownOutput,
    /// Another output has a lock surface of that identity.
    DuplicateSurface,
    /// The output itself refused.
    Surface(SurfaceError),
}

/// Why a frame cannot be committed to an output of the session.
#[derive(Clone, Copy, PartialEq, Eq, Structural, Debug)]
pub enum PresentError {
    /// The session has no output of that name.
    UnknownOutput,
    /// The output itself refused.
    Commit(CommitError),
}

/// The mathematical content of a [`Locker`]: the outputs are kept by the
/// name that the compositor gave them.
pub struct LockerModel {
    pub lock_manager: Option<Bound>,
    pub lock: bool,
    pub compositor: Option<Bound>,
    pub shared_memory: Option<Bound>,
    pub monitors: Map<u32, MonitorModel>,
    pub session: LockSession,
}

impl LockerModel {
    /// The outputs are finitely many, every output is well formed and kept
    /// under its own name, no two outputs share a lock surface, and a
    /// session that waits or is locked has its lock object.
    pub open spec fn wf(self) -> bool {
        &&& self.monitors.dom().finite()
        &&& forall|k: u32|
            self.monitors.contains_key(k) ==> (#[trigger] self.monitors[k]).wf()
                && self.monitors[k].name == k
        &&& forall|j: u32, k: u32|
            self.monitors.contains_key(j) && self.monitors.contains_key(k) && j != k && (
            #[trigger] self.monitors[j]).lock_surface.is_some() ==> self.monitors[j].lock_surface
                != (#[trigger] self.monitors[k]).lock_surface
        &&& self.session.state == LockState::Waiting || self.session.state == LockState::Locked
            ==> self.lock
    }

    /// Whether some output is named `name`.
    pub open spec fn has_output(self, name: u32) -> bool {
        self.monitors.contains_key(name)
    }

    /// Whether the output named `name` has the lock surface `surface`.
    pub open spec fn owns(self, name: u32, surface: u32) -> bool {
        self.monitors.contains_key(name) && self.monitors[name].lock_surface == Some(surface)
    }

    /// Whether some output has the lock surface `surface`.
    pub open spec fn has_surface(self, surface: u32) -> bool {
        exists|k: u32| #[trigger] self.owns(k, surface)
    }

    /// The name of the output with the lock surface `surface`.
    pub open spec fn surface_owner(self, surface: u32) -> u32 {
        choose|k: u32| #[trigger] self.owns(k, surface)
    }

    /// The first required global that is missing, in the order lock manager,
    /// compositor, shared memory, outputs.
    pub open spec fn missing(self) -> Option<InitError> {
        if self.lock_manager.is_none() {
            Some(InitError::NoLockManager)
        } else if self.compositor.is_none() {
            Some(InitError::NoCompositor)
        } else if self.shared_memory.is_none() {
            Some(InitError::NoSharedMemory)
        } else if self.monitors.is_empty() {
            Some(InitError::NoOutputs)
        } else {
            None
        }
    }

    /// The output that an advertisement of `name` creates.
    pub open spec fn fresh_output(name: u32, version: u32) -> MonitorModel {
        MonitorModel {
            name,
            output: Some(version),
            lock_surface: None,
            dimensions: (0u32, 0u32),
            pool: None,
        }
    }

    /// The session with `monitor` as the output named `name`.
    pub open spec fn with_monitor(self, name: u32, monitor: MonitorModel) -> LockerModel {
        LockerModel { monitors: self.monitors.insert(name, monitor), ..self }
    }

    /// The session after the global `name` of kind `kind` was bound at
    /// `version`. An output advertised again under a known name takes the
    /// place of the old one.
    pub open spec fn bound(self, name: u32, kind: GlobalKind, version: u32) -> LockerModel {
        match kind {
            GlobalKind::LockManager => LockerModel {
                lock_manager: Some(Bound { name, version }),
                ..self
            },
            GlobalKind::Compositor => LockerModel {
                compositor: Some(Bound { name, version }),
                ..self
            },
            GlobalKind::SharedMemory => LockerModel {
                shared_memory: Some(Bound { name, version }),
                ..self
            },
            GlobalKind::Output => self.with_monitor(name, Self::fresh_output(name, version)),
        }
    }

    /// The session after the release notification tagged `tag`.
    pub open spec fn released(self, tag: BufferTag) -> LockerModel {
        if self.has_output(tag.monitor_name) {
            self.with_monitor(
                tag.monitor_name,
                self.monitors[tag.monitor_name].released(tag.index as int),
            )
        } else {
            self
        }
    }

    /// The session after a configure of the lock surface `surface`.
    pub open spec fn configured(self, surface: u32, width: u32, height: u32) -> LockerModel {
        if self.has_surface(surface) {
            let name = self.surface_owner(surface);
            self.with_monitor(name, self.monitors[name].configured(width, height))
        } else {
            self
        }
    }

    /// The session after an attempt to commit `frame` to the output `name`.
    pub open spec fn committed(self, name: u32, frame: Seq<u8>) -> LockerModel {
        if self.has_output(name) {
            self.with_monitor(name, self.monitors[name].committed(frame))
        } else {
            self
        }
    }

    /// The session after the content of every output was declared stale.
    pub open spec fn marked_dirty(self) -> LockerModel {
        LockerModel {
            monitors: Map::new(
                |k: u32| self.monitors.contains_key(k),
                |k: u32| self.monitors[k].marked_dirty(),
            ),
            ..self
        }
    }

    /// The session after every stale output was redrawn.
    pub open spec fn redrawn(self) -> LockerModel {
        LockerModel {
            monitors: Map::new(
                |k: u32| self.monitors.contains_key(k),
                |k: u32| self.monitors[k].redrawn(),
            ),
            ..self
        }
    }

    /// Whether a redraw asks for `request`: it is the commit of a stale
    /// output that has a free slot.
    pub open spec fn asks(self, request: Request) -> bool {
        &&& request matches Request::Present(commit)
        &&& self.monitors.contains_key(commit.tag.monitor_name)
        &&& self.monitors[commit.tag.monitor_name].redraw_commit() == Some(commit)
    }

    /// Whether `requests` are the commits that a redraw asks for, each once.
    /// The outputs are walked in no given order, so the order is open.
    pub open spec fn redraw_list(self, requests: Seq<Request>) -> bool {
        &&& requests.no_duplicates()
        &&& forall|r: Request| #[trigger] requests.contains(r) <==> self.asks(r)
    }

    /// Whether `requests` are the requests of a turn of the event loop at
    /// `now`: the commits of the stale outputs, then the automatic unlock if
    /// it is due.
    pub open spec fn turn_list(self, now: u64, requests: Seq<Request>) -> bool {
        if self.session.unlock_due(now) {
            &&& requests.len() > 0
            &&& requests.last() == Request::UnlockAndDestroy
            &&& self.redraw_list(requests.drop_last())
        } else {
            self.redraw_list(requests)
        }
    }

    /// Whether `names` are the names of the outputs that wait for a redraw,
    /// each once.
    pub open spec fn dirty_list(self, names: Seq<u32>) -> bool {
        &&& names.no_duplicates()
        &&& forall|k: u32|
            #[trigger] names.contains(k) <==> self.monitors.contains_key(k)
                && self.monitors[k].is_dirty()
    }

    /// Whether `names` are the names of all outputs, each once.
    pub open spec fn output_list(self, names: Seq<u32>) -> bool {
        &&& names.no_duplicates()
        &&& forall|k: u32| #[trigger] names.contains(k) <==> self.monitors.contains_key(k)
    }
}

/// The requests that answer a configure of the output `output`: the
/// acknowledgement first; then, for a new pool, its two slots and the commit
/// of its first frame.
pub open spec fn configure_requests(output: u32, serial: u32, done: Configured) -> Seq<Request> {
    let ack = seq![Request::AckConfigure { output, serial }];
    if done.pool_created {
        let slots = Seq::new(2, |i: int| Request::CreateSlot(slot_layout(output, i, done)));
        match done.commit {
            Some(commit) => ack + slots + seq![Request::Present(commit)],
            None => ack + slots,
        }
    } else {
        ack
    }
}

/// Whether `after` and `outcome` are what a configure of the lock surface
/// `surface` makes of `before`. A surface that no output owns changes
/// nothing and asks for nothing. Otherwise the configure fails, with
/// nothing changed, exactly where a new pool is due and its size does not
/// fit; else the owner of the surface is configured and the requests are
/// those of [`configure_requests`].
pub open spec fn configure_answer(
    before: LockerModel,
    after: LockerModel,
    surface: u32,
    width: u32,
    height: u32,
    serial: u32,
    outcome: Result<Vec<Request>, ConfigureError>,
) -> bool {
    if before.has_surface(surface) {
        let monitor = before.monitors[before.surface_owner(surface)];
        let size = crate::monitor::negotiated(width, height);
        if monitor.needs_pool(size) && size.0 * 4 * size.1 > i32::MAX {
            &&& outcome matches Err(e)
            &&& e == ConfigureError::Buffer(BufferError::TooLarge)
            &&& after == before
        } else {
            &&& outcome matches Ok(requests)
            &&& after == before.configured(surface, width, height)
            &&& requests@ == configure_requests(
                monitor.name,
                serial,
                configure_outcome(monitor, width, height),
            )
        }
    } else {
        &&& outcome matches Ok(requests)
        &&& requests@.len() == 0
        &&& after == before
    }
}

/// What a configure that is taken reports of the output `monitor`: the size
/// in effect, whether a pool was laid out, and the commit of its first frame.
pub open spec fn configure_outcome(monitor: MonitorModel, width: u32, height: u32) -> Configured {
    let size = crate::monitor::negotiated(width, height);
    Configured {
        width: size.0,
        height: size.1,
        pool_created: monitor.needs_pool(size),
        commit: if monitor.needs_pool(size) {
            Some(
                SurfaceCommit {
                    tag: BufferTag { monitor_name: monitor.name, index: 0 },
                    width: size.0 as i32,
                    height: size.1 as i32,
                },
            )
        } else {
            None
        },
    }
}

/// The layout of slot `index` of the pool that `done` created for `output`.
pub open spec fn slot_layout(output: u32, index: int, done: Configured) -> SlotLayout {
    let tag = BufferTag { monitor_name: output, index: index as usize };
    SlotLayout {
        tag,
        backing_name: crate::buffer::backing_name(tag),
        width: done.width as i32,
        height: done.height as i32,
        stride: (done.width * 4) as i32,
        size: (done.width * 4 * done.height) as i32,
    }
}

/// Pushing a value that a sequence without duplicates does not hold gives
/// a sequence without duplicates that holds what it held and the value.
proof fn lemma_push_fresh<A>(s: Seq<A>, a: A)
    requires
        s.no_duplicates(),
        !s.contains(a),
    ensures
        s.push(a).no_duplicates(),
        forall|b: A| #[trigger] s.push(a).contains(b) <==> s.contains(b) || b == a,
{
    assert forall|b: A| #[trigger] s.push(a).contains(b) <==> s.contains(b) || b == a by {
        if s.contains(b) {
            let j = choose|j: int| 0 <= j < s.len() && s[j] == b;
            assert(s.push(a)[j] == b);
        }
        if b == a {
            assert(s.push(a)[s.len() as int] == b);
        }
    }
}

/// The first `i + 1` values of a sequence without duplicates are its first
/// `i` values and one that is not among them.
proof fn lemma_take_next<A>(s: Seq<A>, i: int)
    requires
        s.no_duplicates(),
        0 <= i < s.len(),
    ensures
        !s.take(i).contains(s[i]),
        forall|b: A| #[trigger] s.take(i + 1).contains(b) <==> s.take(i).contains(b) || b == s[i],
{
    assert(s.take(i + 1) =~= s.take(i).push(s[i]));
    if s.take(i).contains(s[i]) {
        let j = choose|j: int| 0 <= j < i && s.take(i)[j] == s[i];
        assert(s[j] == s[i]);
    }
    assert(s.take(i).no_duplicates());
    lemma_push_fresh(s.take(i), s[i]);
}

/// The state of the client.
pub struct Locker {
    lock_manager: Option<Bound>,
    lock: bool,
    compositor: Option<Bound>,
    shared_memory: Option<Bound>,
    monitors: HashMap<u32, Monitor>,
    session: LockSession,
}

/// The models of the outputs in `monitors`.
pub closed spec fn models(monitors: Map<u32, Monitor>) -> Map<u32, MonitorModel> {
    Map::new(|k: u32| monitors.contains_key(k), |k: u32| monitors[k]@)
}

impl View for Locker {
    type V = LockerModel;

    closed spec fn view(&self) -> LockerModel {
        LockerModel {
            lock_manager: self.lock_manager,
            lock: self.lock,
            compositor: self.compositor,
            shared_memory: self.shared_memory,
            monitors: models(self.monitors@),
            session: self.session,
        }
    }
}

impl Default for Locker {
    /// A session that has seen nothing yet.
    fn default() -> (locker: Self)
        ensures
            locker@ == (LockerModel {
                lock_manager: None,
                lock: false,
                compositor: None,
                shared_memory: None,
                monitors: Map::empty(),
                session: LockSession {
                    state: LockState::Idle,
                    auto_unlock_deadline: None,
                    auto_unlock_sent: false,
                },
            }),
            locker.wf(),
    {
        let locker = Locker {
            lock_manager: None,
            lock: false,
            compositor: None,
            shared_memory: None,
            monitors: HashMap::new(),
            session: LockSession::new(),
        };
        assert(locker@.monitors =~= Map::empty());
        locker
    }
}

impl Locker {
    /// A session is well formed when its model is.
    pub open spec fn wf(&self) -> bool {
        self@.wf()
    }

    /// Takes the output named `name` out of the session, for it to be
    /// changed and put back.
    fn take(&mut self, name: u32) -> (monitor: Option<Monitor>)
        ensures
            match monitor {
                Some(m) => old(self)@.has_output(name) && m@ == old(self)@.monitors[name]
                    && final(self).monitors@ == old(self).monitors@.remove(name),
                None => !old(self)@.has_output(name) && final(self).monitors@ == old(
                    self,
                ).monitors@,
            },
            final(self).lock_manager == old(self).lock_manager,
            final(self).lock == old(self).lock,
            final(self).compositor == old(self).compositor,
            final(self).shared_memory == old(self).shared_memory,
            final(self).session == old(self).session,
    {
        self.monitors.remove(&name)
    }

    /// Puts `monitor` into the session as the output named `name`.
    fn put(&mut self, name: u32, monitor: Monitor)
        ensures
            final(self).monitors@ == old(self).monitors@.insert(name, monitor),
            final(self)@.monitors == models(old(self).monitors@).insert(name, monitor@),
            final(self).lock_manager == old(self).lock_manager,
            final(self).lock == old(self).lock,
            final(self).compositor == old(self).compositor,
            final(self).shared_memory == old(self).shared_memory,
            final(self).session == old(self).session,
    {
        self.monitors.insert(name, monitor);
        assert(self@.monitors =~= models(old(self).monitors@).insert(name, monitor@));
    }

    /// The names of all outputs, in no given order.
    pub fn outputs(&self) -> (names: Vec<u32>)
        ensures
            self@.output_list(names@),
    {
        let mut names: Vec<u32> = Vec::new();
        let ghost all = self.monitors.keys().remaining().unref();
        for k in it: self.monitors.keys()
            invariant
                all == it.seq().unref(),
                names@ == all.take(it.index() as int),
        {
            names.push(*k);
            assert(names@ =~= all.take(it.index() + 1));
        }
        assert(names@ =~= all);
        assert forall|k: u32| #[trigger] names@.contains(k) <==> self@.monitors.contains_key(k) by {
            assert(all.to_set().contains(k) <==> all.contains(k));
        }
        names
    }

    /// Finds the output with the lock surface `surface`.
    fn find_surface(&self, surface: u32) -> (owner: Option<u32>)
        ensures
            match owner {
                Some(k) => self@.owns(k, surface),
                None => !self@.has_surface(surface),
            },
            self.wf() && self@.has_surface(surface) ==> owner == Some(
                self@.surface_owner(surface),
            ),
    {
        let names = self.outputs();
        let mut i: usize = 0;
        while i < names.len()
            invariant
                i <= names.len(),
                self@.output_list(names@),
                forall|j: int| 0 <= j < i ==> !self@.owns(#[trigger] names@[j], surface),
            decreases names.len() - i,
        {
            let name = names[i];
            assert(names@.contains(name));
            match self.monitors.get(&name) {
                Some(monitor) => {
                    if monitor.lock_surface() == Some(surface) {
                        return Some(name);
                    }
                },
                None => {},
            }
            i += 1;
        }
        assert forall|k: u32| !self@.owns(k, surface) by {
            if self@.monitors.contains_key(k) {
                assert(names@.contains(k));
                let j = choose|j: int| 0 <= j < names@.len() && names@[j] == k;
                assert(!self@.owns(names@[j], surface));
            }
        }
        None
    }

    /// The lock lifecycle as it stands.
    pub fn session(&self) -> (session: LockSession)
        ensures
            session == self@.session,
    {
        self.session
    }

    /// Where the lock request stands.
    pub fn state(&self) -> (state: LockState)
        ensures
            state == self@.session.state,
    {
        self.session.state
    }

    /// Whether the lock object exists.
    pub fn has_lock(&self) -> (lock: bool)
        ensures
            lock == self@.lock,
    {
        self.lock
    }

    /// How the global of kind `kind` is bound, if it is. For outputs the
    /// answer is `None`: they are found by name.
    pub fn global(&self, kind: GlobalKind) -> (bound: Option<Bound>)
        ensures
            bound == match kind {
                GlobalKind::LockManager => self@.lock_manager,
                GlobalKind::Compositor => self@.compositor,
                GlobalKind::SharedMemory => self@.shared_memory,
                GlobalKind::Output => None,
            },
    {
        match kind {
            GlobalKind::LockManager => self.lock_manager,
            GlobalKind::Compositor => self.compositor,
            GlobalKind::SharedMemory => self.shared_memory,
            GlobalKind::Output => None,
        }
    }

    /// How many outputs the session knows.
    pub fn output_count(&self) -> (count: usize)
        ensures
            count == self@.monitors.len(),
    {
        assert(self@.monitors.dom() =~= self.monitors@.dom());
        self.monitors.len()
    }

    /// The output named `name`.
    pub fn monitor(&self, name: u32) -> (monitor: Option<&Monitor>)
        ensures
            match monitor {
                Some(m) => self@.has_output(name) && m@ == self@.monitors[name],
                None => !self@.has_output(name),
            },
    {
        self.monitors.get(&name)
    }

    /// Records that the global `name` of kind `kind` is bound, at the smaller
    /// of the version `offered` and the version `supported`, and hands back
    /// the bind request. An output is created for an output global.
    pub fn bind_global(&mut self, name: u32, kind: GlobalKind, offered: u32, supported: u32) -> (request:
        Request)
        requires
            old(self).wf(),
        ensures
            final(self).wf(),
            request == (Request::Bind {
                name,
                global: kind,
                version: bind_version(offered, supported),
            }),
            final(self)@ == old(self)@.bound(name, kind, bind_version(offered, supported)),
    {
        let version = pick_version(offered, supported);
        match kind {
            GlobalKind::LockManager => {
                self.lock_manager = Some(Bound { name, version });
            },
            GlobalKind::Compositor => {
                self.compositor = Some(Bound { name, version });
            },
            GlobalKind::SharedMemory => {
                self.shared_memory = Some(Bound { name, version });
            },
            GlobalKind::Output => {
                let monitor = Monitor::default().with_name(name).with_output(version);
                self.put(name, monitor);
            },
        }
        Request::Bind { name, global: kind, version }
    }

    /// Handles the advertisement of the global `name` with the interface
    /// `interface` at `version`. An interface that the client has no use for
    /// changes nothing. Any other is bound, at the smaller of the version
    /// offered and the highest version that the client supports.
    pub fn on_global(&mut self, name: u32, interface: &String, version: u32) -> (request: Option<
        Request,
    >)
        requires
            old(self).wf(),
        ensures
            final(self).wf(),
            match kind_of(interface@) {
                None => request.is_none() && final(self)@ == old(self)@,
                Some(kind) => {
                    let bound = bind_version(version, supported(kind));
                    &&& request == Some(Request::Bind { name, global: kind, version: bound })
                    &&& final(self)@ == old(self)@.bound(name, kind, bound)
                },
            },
    {
        match classify(interface) {
            None => None,
            Some(kind) => {
                let supported = supported_version(kind);
                Some(self.bind_global(name, kind, version, supported))
            },
        }
    }

    /// Tells whether the advertisement brought all that the client needs: a
    /// lock manager, a compositor, shared memory and at least one output.
    pub fn is_initialized(&self) -> (outcome: Result<(), InitError>)
        ensures
            outcome == match self@.missing() {
                Some(e) => Err::<(), InitError>(e),
                None => Ok::<(), InitError>(()),
            },
    {
        if self.lock_manager.is_none() {
            return Err(InitError::NoLockManager);
        }
        if self.compositor.is_none() {
            return Err(InitError::NoCompositor);
        }
        if self.shared_memory.is_none() {
            return Err(InitError::NoSharedMemory);
        }
        assert(self@.monitors.dom() =~= self.monitors@.dom());
        if self.monitors.is_empty() {
            return Err(InitError::NoOutputs);
        }
        Ok(())
    }

    /// Requests the lock: the session must have all its globals and must be
    /// idle. On success the lock object exists and the session waits; the
    /// caller then makes a surface for each output.
    pub fn request_lock(&mut self) -> (outcome: Result<(), LockError>)
        requires
            old(self).wf(),
        ensures
            final(self).wf(),
            outcome == match old(self)@.missing() {
                Some(e) => Err::<(), LockError>(LockError::Missing(e)),
                None => if old(self)@.session.state == LockState::Idle {
                    Ok::<(), LockError>(())
                } else {
                    Err::<(), LockError>(LockError::NotIdle)
                },
            },
            outcome is Err ==> final(self)@ == old(self)@,
            outcome is Ok ==> final(self)@ == (LockerModel {
                lock: true,
                session: old(self)@.session.after(SessionEvent::RequestLock),
                ..old(self)@
            }),
            outcome is Ok ==> final(self)@.session.state == LockState::Waiting,
    {
        match self.is_initialized() {
            Err(e) => {
                return Err(LockError::Missing(e));
            },
            Ok(()) => {},
        }
        if !self.session.request_lock() {
            return Err(LockError::NotIdle);
        }
        self.lock = true;
        Ok(())
    }

    /// Records the surface and the lock surface made for the output `name`.
    /// That needs the lock object, an output of that name which has its
    /// handle and no surface yet, and an identity that no other output uses.
    pub fn create_surface_and_lock(&mut self, name: u32, lock_surface: u32) -> (outcome: Result<
        (),
        AttachError,
    >)
        requires
            old(self).wf(),
        ensures
            final(self).wf(),
            outcome == if !old(self)@.lock {
                Err::<(), AttachError>(AttachError::NoLock)
            } else if !old(self)@.has_output(name) {
                Err::<(), AttachError>(AttachError::UnknownOutput)
            } else if old(self)@.has_surface(lock_surface) {
                Err::<(), AttachError>(AttachError::DuplicateSurface)
            } else if old(self)@.monitors[name].output.is_none() {
                Err::<(), AttachError>(
                    AttachError::Surface(SurfaceError::MissingOutput { name }),
                )
            } else if old(self)@.monitors[name].lock_surface.is_some() {
                Err::<(), AttachError>(AttachError::Surface(SurfaceError::AlreadyCreated))
            } else {
                Ok::<(), AttachError>(())
            },
            outcome is Err ==> final(self)@ == old(self)@,
            outcome is Ok ==> final(self)@ == old(self)@.with_monitor(
                name,
                MonitorModel { lock_surface: Some(lock_surface), ..old(self)@.monitors[name] },
            ),
    {
        if !self.lock {
            return Err(AttachError::NoLock);
        }
        if !self.monitors.contains_key(&name) {
            return Err(AttachError::UnknownOutput);
        }
        if self.find_surface(lock_surface).is_some() {
            return Err(AttachError::DuplicateSurface);
        }
        match self.take(name) {
            Some(monitor) => {
                let mut monitor = monitor;
                let made = monitor.create_surface_and_lock(lock_surface);
                self.put(name, monitor);
                match made {
                    Err(e) => {
                        assert(self@.monitors =~= old(self)@.monitors);
                        Err(AttachError::Surface(e))
                    },
                    Ok(()) => {
                        assert(self@.monitors =~= old(self)@.monitors.insert(
                            name,
                            MonitorModel {
                                lock_surface: Some(lock_surface),
                                ..old(self)@.monitors[name]
                            },
                        ));
                        assert forall|k: u32| !old(self)@.owns(k, lock_surface) by {}
                        assert forall|j: u32, k: u32|
                            self@.monitors.contains_key(j) && self@.monitors.contains_key(k) && j
                                != k && (#[trigger] self@.monitors[j]).lock_surface.is_some() implies self@.monitors[j].lock_surface
                            != (#[trigger] self@.monitors[k]).lock_surface by {
                            assert(!old(self)@.owns(j, lock_surface));
                            assert(!old(self)@.owns(k, lock_surface));
                        }
                        Ok(())
                    },
                }
            },
            None => Err(AttachError::UnknownOutput),
        }
    }

    /// Handles an event of the lock object at time `now`. `locked` moves a
    /// waiting session to locked and arms the automatic unlock; `finished`
    /// ends the session; anything else is ignored.
    pub fn on_lock_event(&mut self, event: LockEvent, now: u64)
        requires
            old(self).wf(),
            event == LockEvent::Locked && old(self)@.session.state == LockState::Waiting ==> now
                + AUTO_UNLOCK_WINDOW_MS <= u64::MAX,
        ensures
            final(self).wf(),
            final(self)@ == (LockerModel {
                session: match event {
                    LockEvent::Locked => old(self)@.session.after(SessionEvent::Locked { now }),
                    LockEvent::Finished => old(self)@.session.after(SessionEvent::Finished),
                    LockEvent::Other => old(self)@.session,
                },
                ..old(self)@
            }),
    {
        match event {
            LockEvent::Locked => {
                self.session.on_locked(now);
            },
            LockEvent::Finished => {
                self.session.on_finished();
            },
            LockEvent::Other => {},
        }
    }

    /// Handles the release notification tagged `tag`: the slot `tag.index`
    /// of the output `tag.monitor_name` is the client's again. A tag that
    /// names no output, no pool or no slot changes nothing.
    pub fn on_release(&mut self, tag: BufferTag)
        requires
            old(self).wf(),
        ensures
            final(self).wf(),
            final(self)@ == old(self)@.released(tag),
    {
        match self.take(tag.monitor_name) {
            Some(monitor) => {
                let mut monitor = monitor;
                monitor.release(tag.index);
                self.put(tag.monitor_name, monitor);
                assert(self@.monitors =~= old(self)@.released(tag).monitors);
            },
            None => {
                assert(self@.monitors =~= old(self)@.monitors);
            },
        }
    }

    /// Handles an event of the buffer object tagged `tag`: a release frees
    /// the slot, anything else is ignored.
    pub fn on_buffer_event(&mut self, tag: BufferTag, event: BufferEvent)
        requires
            old(self).wf(),
        ensures
            final(self).wf(),
            final(self)@ == match event {
                BufferEvent::Release => old(self)@.released(tag),
                BufferEvent::Other => old(self)@,
            },
    {
        match event {
            BufferEvent::Release => self.on_release(tag),
            BufferEvent::Other => {},
        }
    }

    /// Handles a configure of the lock surface `surface`. The output that
    /// owns the surface takes the proposed size after the fallback policy;
    /// the requests start with the acknowledgement of `serial` and go on with
    /// what a new pool needs. A surface that no output owns changes nothing
    /// and asks for nothing.
    pub fn on_configure(&mut self, surface: u32, width: u32, height: u32, serial: u32) -> (outcome:
        Result<Vec<Request>, ConfigureError>)
        requires
            old(self).wf(),
        ensures
            final(self).wf(),
            configure_answer(old(self)@, final(self)@, surface, width, height, serial, outcome),
    {
        let name = match self.find_surface(surface) {
            Some(name) => name,
            None => {
                return Ok(Vec::new());
            },
        };
        let mut monitor = match self.take(name) {
            Some(monitor) => monitor,
            None => {
                return Ok(Vec::new());
            },
        };
        let done = match monitor.configure(width, height) {
            Ok(done) => done,
            Err(e) => {
                self.put(name, monitor);
                assert(self@.monitors =~= old(self)@.monitors);
                return Err(e);
            },
        };
        let mut requests: Vec<Request> = Vec::new();
        requests.push(Request::AckConfigure { output: name, serial });
        if done.pool_created {
            match monitor.buffer_state() {
                Some(pool) => {
                    let mut index: usize = 0;
                    while index < 2
                        invariant
                            index <= 2,
                            pool.wf(),
                            pool@.slots[0].tag.monitor_name == name,
                            pool@.slots[0].width == done.width,
                            pool@.slots[0].height == done.height,
                            requests@ == seq![Request::AckConfigure { output: name, serial }]
                                + Seq::new(
                                index as nat,
                                |i: int| Request::CreateSlot(slot_layout(name, i, done)),
                            ),
                        decreases 2 - index,
                    {
                        let slot = pool.slot(index);
                        requests.push(
                            Request::CreateSlot(
                                SlotLayout {
                                    tag: slot.tag(),
                                    backing_name: slot.backing_name(),
                                    width: slot.width(),
                                    height: slot.height(),
                                    stride: slot.stride(),
                                    size: slot.size(),
                                },
                            ),
                        );
                        index += 1;
                        assert(requests@ =~= seq![Request::AckConfigure { output: name, serial }]
                            + Seq::new(
                            index as nat,
                            |i: int| Request::CreateSlot(slot_layout(name, i, done)),
                        ));
                    }
                },
                None => {},
            }
            match done.commit {
                Some(commit) => {
                    requests.push(Request::Present(commit));
                },
                None => {},
            }
        }
        assert(requests@ =~= configure_requests(name, serial, done));
        self.put(name, monitor);
        assert(self@.monitors =~= old(self)@.configured(surface, width, height).monitors);
        Ok(requests)
    }

    /// Handles an event of the lock surface `surface`: a configure is taken
    /// as [`Locker::on_configure`] takes it, anything else is ignored.
    pub fn on_lock_surface_event(&mut self, surface: u32, event: LockSurfaceEvent) -> (outcome:
        Result<Vec<Request>, ConfigureError>)
        requires
            old(self).wf(),
        ensures
            final(self).wf(),
            match event {
                LockSurfaceEvent::Configure { width, height, serial } => configure_answer(
                    old(self)@,
                    final(self)@,
                    surface,
                    width,
                    height,
                    serial,
                    outcome,
                ),
                LockSurfaceEvent::Other => {
                    &&& outcome matches Ok(requests)
                    &&& requests@.len() == 0
                    &&& final(self)@ == old(self)@
                },
            },
    {
        match event {
            LockSurfaceEvent::Configure { width, height, serial } => self.on_configure(
                surface,
                width,
                height,
                serial,
            ),
            LockSurfaceEvent::Other => Ok(Vec::new()),
        }
    }

    /// The names of the outputs that wait for a redraw, in no given order.
    pub fn dirty_outputs(&self) -> (names: Vec<u32>)
        ensures
            self@.dirty_list(names@),
    {
        let all = self.outputs();
        let mut names: Vec<u32> = Vec::new();
        let mut i: usize = 0;
        while i < all.len()
            invariant
                i <= all.len(),
                self@.output_list(all@),
                names@.no_duplicates(),
                forall|k: u32|
                    #[trigger] names@.contains(k) <==> all@.take(i as int).contains(k)
                        && self@.monitors.contains_key(k) && self@.monitors[k].is_dirty(),
            decreases all.len() - i,
        {
            let name = all[i];
            assert(all@.contains(name));
            proof {
                lemma_take_next(all@, i as int);
            }
            let dirty = match self.monitors.get(&name) {
                Some(monitor) => monitor.is_dirty(),
                None => false,
            };
            if dirty {
                proof {
                    lemma_push_fresh(names@, name);
                }
                names.push(name);
            }
            i += 1;
        }
        assert(all@.take(i as int) =~= all@);
        names
    }

    /// Commits `frame` to the output `name`, as [`Monitor::commit`] does.
    pub fn commit(&mut self, name: u32, frame: &Vec<u8>) -> (outcome: Result<
        Option<SurfaceCommit>,
        PresentError,
    >)
        requires
            old(self).wf(),
        ensures
            final(self).wf(),
            !old(self)@.has_output(name) ==> outcome == Err::<Option<SurfaceCommit>, PresentError>(
                PresentError::UnknownOutput,
            ),
            old(self)@.has_output(name) ==> {
                let monitor = old(self)@.monitors[name];
                &&& match monitor.pool {
                    None => outcome == Err::<Option<SurfaceCommit>, PresentError>(
                        PresentError::Commit(CommitError::NoBufferState),
                    ),
                    Some(pool) => if frame@.len() != pool.slots[0].size {
                        outcome == Err::<Option<SurfaceCommit>, PresentError>(
                            PresentError::Commit(CommitError::FrameSize),
                        )
                    } else {
                        outcome is Ok
                    },
                }
                &&& outcome matches Ok(commit) ==> commit == match monitor.pool.unwrap().free_slot() {
                    Some(i) => Some(
                        SurfaceCommit {
                            tag: BufferTag { monitor_name: name, index: i as usize },
                            width: monitor.dimensions.0 as i32,
                            height: monitor.dimensions.1 as i32,
                        },
                    ),
                    None => None,
                }
            },
            outcome is Err ==> final(self)@ == old(self)@,
            outcome is Ok ==> final(self)@ == old(self)@.committed(name, frame@),
    {
        let mut monitor = match self.take(name) {
            Some(monitor) => monitor,
            None => {
                assert(self@.monitors =~= old(self)@.monitors);
                return Err(PresentError::UnknownOutput);
            },
        };
        let committed = monitor.commit(frame);
        self.put(name, monitor);
        match committed {
            Err(e) => {
                assert(self@.monitors =~= old(self)@.monitors);
                Err(PresentError::Commit(e))
            },
            Ok(commit) => {
                assert(self@.monitors =~= old(self)@.committed(name, frame@).monitors);
                Ok(commit)
            },
        }
    }

    /// Declares the content of every output stale: a key was pressed or the
    /// animation has moved on. The next turn redraws the outputs that have a
    /// free slot, and the others keep the mark until they have one.
    pub fn mark_dirty(&mut self)
        requires
            old(self).wf(),
        ensures
            final(self).wf(),
            final(self)@ == old(self)@.marked_dirty(),
    {
        let names = self.outputs();
        let mut i: usize = 0;
        while i < names.len()
            invariant
                i <= names.len(),
                old(self)@.output_list(names@),
                self.lock_manager == old(self).lock_manager,
                self.lock == old(self).lock,
                self.compositor == old(self).compositor,
                self.shared_memory == old(self).shared_memory,
                self.session == old(self).session,
                old(self).wf(),
                self@.monitors.dom() == old(self)@.monitors.dom(),
                forall|j: int|
                    0 <= j < i ==> self@.monitors[#[trigger] names@[j]] == old(
                        self,
                    )@.monitors[names@[j]].marked_dirty(),
                forall|j: int|
                    i <= j < names@.len() ==> self@.monitors[#[trigger] names@[j]] == old(
                        self,
                    )@.monitors[names@[j]],
            decreases names.len() - i,
        {
            let name = names[i];
            assert(names@.contains(name));
            let ghost model = self@;
            match self.take(name) {
                Some(monitor) => {
                    let mut monitor = monitor;
                    monitor.mark_dirty();
                    self.put(name, monitor);
                },
                None => {},
            }
            assert(self@.monitors =~= model.monitors.insert(
                name,
                old(self)@.monitors[name].marked_dirty(),
            ));
            i += 1;
        }
        assert(self@.monitors =~= old(self)@.marked_dirty().monitors) by {
            assert forall|k: u32| old(self)@.monitors.contains_key(k) implies self@.monitors[k]
                == old(self)@.monitors[k].marked_dirty() by {
                assert(names@.contains(k));
                let j = choose|j: int| 0 <= j < names@.len() && names@[j] == k;
                assert(self@.monitors[names@[j]] == old(self)@.monitors[names@[j]].marked_dirty());
            }
        }
        proof {
            lemma_marked_stays_well_formed(old(self)@);
        }
    }

    /// Redraws every stale output, as [`Monitor::redraw`] does, and hands
    /// back the commits, one for each output that had a free slot.
    pub fn redraw(&mut self) -> (requests: Vec<Request>)
        requires
            old(self).wf(),
        ensures
            final(self).wf(),
            final(self)@ == old(self)@.redrawn(),
            old(self)@.redraw_list(requests@),
    {
        let names = self.outputs();
        let mut requests: Vec<Request> = Vec::new();
        let mut i: usize = 0;
        while i < names.len()
            invariant
                i <= names.len(),
                old(self)@.output_list(names@),
                self.lock_manager == old(self).lock_manager,
                self.lock == old(self).lock,
                self.compositor == old(self).compositor,
                self.shared_memory == old(self).shared_memory,
                self.session == old(self).session,
                old(self).wf(),
                self@.monitors.dom() == old(self)@.monitors.dom(),
                forall|j: int|
                    0 <= j < i ==> self@.monitors[#[trigger] names@[j]] == old(
                        self,
                    )@.monitors[names@[j]].redrawn(),
                forall|j: int|
                    i <= j < names@.len() ==> self@.monitors[#[trigger] names@[j]] == old(
                        self,
                    )@.monitors[names@[j]],
                requests@.no_duplicates(),
                forall|r: Request|
                    #[trigger] requests@.contains(r) <==> old(self)@.asks(r) && names@.take(
                        i as int,
                    ).contains(r->Present_0.tag.monitor_name),
            decreases names.len() - i,
        {
            let name = names[i];
            assert(names@.contains(name));
            let ghost model = self@;
            let ghost before = requests@;
            let mut commit: Option<SurfaceCommit> = None;
            match self.take(name) {
                Some(monitor) => {
                    let mut monitor = monitor;
                    commit = monitor.redraw();
                    self.put(name, monitor);
                },
                None => {},
            }
            assert(self@.monitors =~= model.monitors.insert(
                name,
                old(self)@.monitors[name].redrawn(),
            ));
            assert(commit == old(self)@.monitors[name].redraw_commit());
            match commit {
                Some(commit) => {
                    requests.push(Request::Present(commit));
                },
                None => {},
            }
            proof {
                let done = names@.take(i as int);
                let next = names@.take(i + 1);
                lemma_take_next(names@, i as int);
                let owner = old(self)@.monitors[name];
                if commit.is_some() {
                    let added = Request::Present(commit.unwrap());
                    assert(old(self)@.asks(added));
                    assert(!before.contains(added));
                    lemma_push_fresh(before, added);
                    assert(requests@ =~= before.push(added));
                }
                assert forall|r: Request|
                    #[trigger] requests@.contains(r) <==> old(self)@.asks(r) && next.contains(
                        r->Present_0.tag.monitor_name,
                    ) by {
                    if old(self)@.asks(r) && r->Present_0.tag.monitor_name == name {
                        assert(owner.redraw_commit() == Some(r->Present_0));
                        assert(commit == Some(r->Present_0));
                    }
                }
            }
            i += 1;
        }
        proof {
            assert(names@.take(i as int) =~= names@);
            assert(self@.monitors =~= old(self)@.redrawn().monitors) by {
                assert forall|k: u32| old(self)@.monitors.contains_key(k) implies self@.monitors[k]
                    == old(self)@.monitors[k].redrawn() by {
                    assert(names@.contains(k));
                    let j = choose|j: int| 0 <= j < names@.len() && names@[j] == k;
                    assert(self@.monitors[names@[j]] == old(self)@.monitors[names@[j]].redrawn());
                }
            }
            lemma_redrawn_stays_well_formed(old(self)@);
        }
        requests
    }

    /// One turn of the event loop at time `now`, after the incoming
    /// messages, `dispatched` of them, were handled: every stale output is
    /// redrawn, then the session decides whether the loop ends, whether the
    /// automatic unlock goes out, and how long to sleep. The requests are the
    /// commits and, behind them, the unlock where it is due.
    pub fn turn(&mut self, now: u64, dispatched: usize) -> (outcome: (Vec<Request>, LoopStep))
        requires
            old(self).wf(),
        ensures
            final(self).wf(),
            final(self)@ == (LockerModel {
                session: old(self)@.session.after(SessionEvent::Tick { now }),
                ..old(self)@.redrawn()
            }),
            old(self)@.turn_list(now, outcome.0@),
            outcome.1 == old(self)@.session.step_at(now, dispatched),
    {
        let mut requests = self.redraw();
        let ghost presents = requests@;
        let step = self.session.poll(now, dispatched);
        match step {
            LoopStep::Continue { unlock: true, sleep_ms } => {
                requests.push(Request::UnlockAndDestroy);
                assert(requests@.drop_last() =~= presents);
            },
            _ => {},
        }
        (requests, step)
    }
}

/// A release notification frees the slot that its tag names on the output
/// that its tag names, and touches nothing else: not the other slot, not
/// the slot of the same index on another output, not the globals, not the
/// lock lifecycle.
pub proof fn law_release_is_routed_by_tag(session: LockerModel, tag: BufferTag)
    requires
        session.wf(),
    ensures
        ({
            let after = session.released(tag);
            &&& after.wf()
            &&& after.monitors.dom() == session.monitors.dom()
            &&& after.lock_manager == session.lock_manager
            &&& after.lock == session.lock
            &&& after.compositor == session.compositor
            &&& after.shared_memory == session.shared_memory
            &&& after.session == session.session
            &&& forall|k: u32|
                session.monitors.contains_key(k) && k != tag.monitor_name
                    ==> #[trigger] after.monitors[k] == session.monitors[k]
            &&& session.monitors.contains_key(tag.monitor_name)
                ==> after.monitors[tag.monitor_name] == session.monitors[tag.monitor_name].released(
                tag.index as int,
            )
            &&& forall|k: u32, slot: int|
                session.monitors.contains_key(k) && (#[trigger] session.monitors[k]).pool.is_some()
                    && 0 <= slot < 2 ==> {
                    let before_slot = session.monitors[k].pool.unwrap().slots[slot];
                    let after_slot = (#[trigger] after.monitors[k].pool.unwrap().slots[slot]);
                    if k == tag.monitor_name && slot == tag.index {
                        after_slot == (crate::buffer::SlotModel { in_use: false, ..before_slot })
                    } else {
                        after_slot == before_slot
                    }
                }
        }),
{
    let after = session.released(tag);
    if session.has_output(tag.monitor_name) {
        let owner = session.monitors[tag.monitor_name];
        if owner.pool.is_some() {
            crate::buffer::law_release_frees_one_slot(owner.pool.unwrap(), tag.index as int);
        }
        assert(after.monitors.dom() =~= session.monitors.dom());
    }
}

/// Redrawing the stale outputs keeps the session well formed.
proof fn lemma_redrawn_stays_well_formed(session: LockerModel)
    requires
        session.wf(),
    ensures
        session.redrawn().wf(),
{
    let redrawn = session.redrawn();
    assert(redrawn.monitors.dom() =~= session.monitors.dom());
    assert forall|k: u32| redrawn.monitors.contains_key(k) implies (
    #[trigger] redrawn.monitors[k]).wf() && redrawn.monitors[k].name == k by {
        let monitor = session.monitors[k];
        if monitor.is_dirty() {
            crate::buffer::law_pool_stays_well_formed(
                monitor.pool.unwrap(),
                crate::buffer::PoolOp::Commit { frame: monitor.placeholder_frame() },
            );
        }
    }
}

/// Declaring every output stale keeps the session well formed.
proof fn lemma_marked_stays_well_formed(session: LockerModel)
    requires
        session.wf(),
    ensures
        session.marked_dirty().wf(),
{
    assert(session.marked_dirty().monitors.dom() =~= session.monitors.dom());
}

/// Handling an event never breaks the session: binding a global, a
/// configure that is taken, a commit of a frame of the right length, a
/// stale mark and a redraw all lead from a well-formed session to a
/// well-formed one.
pub proof fn law_session_stays_well_formed(
    session: LockerModel,
    name: u32,
    kind: GlobalKind,
    version: u32,
    surface: u32,
    width: u32,
    height: u32,
    frame: Seq<u8>,
)
    requires
        session.wf(),
    ensures
        session.bound(name, kind, version).wf(),
        session.redrawn().wf(),
        session.marked_dirty().wf(),
        ({
            let size = crate::monitor::negotiated(width, height);
            size.0 * 4 * size.1 <= i32::MAX ==> session.configured(surface, width, height).wf()
        }),
        session.has_output(name) && session.monitors[name].pool.is_some() && frame.len()
            == session.monitors[name].pool.unwrap().slots[0].size ==> session.committed(
            name,
            frame,
        ).wf(),
{
    lemma_redrawn_stays_well_formed(session);
    lemma_marked_stays_well_formed(session);
    let size = crate::monitor::negotiated(width, height);
    if size.0 * 4 * size.1 <= i32::MAX && session.has_surface(surface) {
        let owner = session.surface_owner(surface);
        assert(session.owns(owner, surface));
    }
    if session.has_output(name) && session.monitors[name].pool.is_some() && frame.len()
        == session.monitors[name].pool.unwrap().slots[0].size {
        crate::buffer::law_pool_stays_well_formed(
            session.monitors[name].pool.unwrap(),
            crate::buffer::PoolOp::Commit { frame },
        );
    }
}

} // verus!
