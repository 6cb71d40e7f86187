//! The globals that the client binds from the compositor's advertisement.

use vstd::prelude::*;
use vstd::string::StringExecFns;
use wayland_client::protocol::wl_compositor::WlCompositor;
use wayland_client::protocol::wl_output::WlOutput;
use wayland_client::protocol::wl_shm::WlShm;
use wayland_client::Proxy;
use wayland_protocols::ext::session_lock::v1::client::ext_session_lock_manager_v1::ExtSessionLockManagerV1;

verus! {

/// The kinds of global that the client binds.
#[derive(Clone, Copy, PartialEq, Eq, Structural, Debug)]
pub enum GlobalKind {
    LockManager,
    Compositor,
    SharedMemory,
    Output,
}

/// A global that was bound: the name under which the compositor advertised
/// it and the version that was asked for.
#[derive(Clone, Copy, PartialEq, Eq, Structural, Debug)]
pub struct Bound {
    pub name: u32,
    pub version: u32,
}

/// Which required global is missing after the advertisement.
#[derive(Clone, Copy, PartialEq, Eq, Structural, Debug)]
pub enum InitError {
    NoLockManager,
    NoCompositor,
    NoSharedMemory,
    NoOutputs,
}

/// The kind of global that an interface name stands for, if the client
/// binds it at all.
pub open spec fn kind_of(interface: Seq<char>) -> Option<GlobalKind> {
    if interface == "ext_session_lock_manager_v1"@ {
        Some(GlobalKind::LockManager)
    } else if interface == "wl_compositor"@ {
        Some(GlobalKind::Compositor)
    } else if interface == "wl_shm"@ {
        Some(GlobalKind::SharedMemory)
    } else if interface == "wl_output"@ {
        Some(GlobalKind::Output)
    } else {
        None
    }
}

/// The version to bind at: the smaller of what the compositor offers and
/// what the client supports.
pub open spec fn bind_version(offered: u32, supported: u32) -> u32 {
    if offered <= supported {
        offered
    } else {
        supported
    }
}

/// Tells which kind of global an advertised interface is.
pub fn classify(interface: &String) -> (kind: Option<GlobalKind>)
    ensures
        kind == kind_of(interface@),
{
    if *interface == String::from_str("ext_session_lock_manager_v1") {
        Some(GlobalKind::LockManager)
    } else if *interface == String::from_str("wl_compositor") {
        Some(GlobalKind::Compositor)
    } else if *interface == String::from_str("wl_shm") {
        Some(GlobalKind::SharedMemory)
    } else if *interface == String::from_str("wl_output") {
        Some(GlobalKind::Output)
    } else {
        None
    }
}

/// Picks the version to bind at.
pub fn pick_version(offered: u32, supported: u32) -> (version: u32)
    ensures
        version == bind_version(offered, supported),
        version <= offered,
        version <= supported,
{
    if offered <= supported {
        offered
    } else {
        supported
    }
}

/// The highest version of each kind of global that the client supports:
/// the version that the protocol descriptions of wayland-client and
/// wayland-protocols give the interface.
pub open spec fn supported(kind: GlobalKind) -> u32 {
    match kind {
        GlobalKind::LockManager => 1,
        GlobalKind::Compositor => 7,
        GlobalKind::SharedMemory => 3,
        GlobalKind::Output => 4,
    }
}

/// `ExtSessionLockManagerV1::interface().version` of wayland-protocols: the
/// version that `ext-session-lock-v1.xml`, from which the crate generates
/// the interface, gives `ext_session_lock_manager_v1`.
#[verifier::external_body]
fn lock_manager_version() -> (version: u32)
    ensures
        version == 1,
{
    ExtSessionLockManagerV1::interface().version
}

/// `WlCompositor::interface().version` of wayland-client: the version that
/// `wayland.xml`, from which the crate generates the interface, gives
/// `wl_compositor`.
#[verifier::external_body]
fn compositor_version() -> (version: u32)
    ensures
        version == 7,
{
    WlCompositor::interface().version
}

/// `WlShm::interface().version` of wayland-client: the version that
/// `wayland.xml`, from which the crate generates the interface, gives
/// `wl_shm`.
#[verifier::external_body]
fn shared_memory_version() -> (version: u32)
    ensures
        version == 3,
{
    WlShm::interface().version
}

/// `WlOutput::interface().version` of wayland-client: the version that
/// `wayland.xml`, from which the crate generates the interface, gives
/// `wl_output`.
#[verifier::external_body]
fn output_version() -> (version: u32)
    ensures
        version == 4,
{
    WlOutput::interface().version
}

/// The highest version of `kind` that the client supports, as the protocol
/// crates give it.
pub(crate) fn supported_version(kind: GlobalKind) -> (version: u32)
    ensures
        version == supported(kind),
{
    match kind {
        GlobalKind::LockManager => lock_manager_version(),
        GlobalKind::Compositor => compositor_version(),
        GlobalKind::SharedMemory => shared_memory_version(),
        GlobalKind::Output => output_version(),
    }
}

impl InitError {
    /// The sentence that reports the missing global.
    pub fn message(&self) -> (text: String)
        ensures
            text@ == match *self {
                InitError::NoLockManager => "could not find a lock manager in the registry advertisement"@,
                InitError::NoCompositor => "could not find a compositor in the registry advertisement"@,
                InitError::NoSharedMemory => "could not find shared memory in the registry advertisement"@,
                InitError::NoOutputs => "could not find any outputs in the registry advertisement"@,
            },
    {
        match self {
            InitError::NoLockManager => String::from_str(
                "could not find a lock manager in the registry advertisement",
            ),
            InitError::NoCompositor => String::from_str(
                "could not find a compositor in the registry advertisement",
            ),
            InitError::NoSharedMemory => String::from_str(
                "could not find shared memory in the registry advertisement",
            ),
            InitError::NoOutputs => String::from_str(
                "could not find any outputs in the registry advertisement",
            ),
        }
    }
}

} // verus!
