use lilac::buffer::{BufferError, BufferTag, CommitError};
use lilac::monitor::{
    negotiate, ConfigureError, Configured, Monitor, SurfaceCommit, SurfaceError, FALLBACK_HEIGHT,
    FALLBACK_WIDTH, PLACEHOLDER,
};

fn output(name: u32) -> Monitor {
    let mut monitor = Monitor::default().with_name(name).with_output(4);
    monitor.create_surface_and_lock(100 + name).unwrap();
    monitor
}

fn placeholder(pixels: usize) -> Vec<u8> {
    let mut frame = Vec::new();
    for _ in 0..pixels {
        frame.extend_from_slice(&[0xFF, 0x00, 0x00, 0xFF]);
    }
    frame
}

#[test]
fn zero_is_replaced_by_the_fallback() {
    assert_eq!(negotiate(0, 0), (1920, 1080));
    assert_eq!(negotiate(0, 600), (1920, 600));
    assert_eq!(negotiate(800, 0), (800, 1080));
    assert_eq!(FALLBACK_WIDTH, 1920);
    assert_eq!(FALLBACK_HEIGHT, 1080);
}

#[test]
fn nonzero_proposals_pass_through() {
    assert_eq!(negotiate(800, 600), (800, 600));
    assert_eq!(negotiate(1, 1), (1, 1));
    assert_eq!(negotiate(1920, 1080), (1920, 1080));
    assert_eq!(negotiate(u32::MAX, u32::MAX), (u32::MAX, u32::MAX));
    assert_eq!(negotiate(3840, 1), (3840, 1));
}

#[test]
fn placeholder_is_opaque_blue() {
    assert_eq!(PLACEHOLDER, [0xFF, 0x00, 0x00, 0xFF]);
    assert_eq!(PLACEHOLDER, 0xFF0000FFu32.to_le_bytes());
    assert_eq!(PLACEHOLDER, 0xFF0000FFu32.to_be_bytes());
}

#[test]
fn default_monitor_has_nothing() {
    let monitor = Monitor::default();
    assert_eq!(monitor.name(), 0);
    assert_eq!(monitor.output(), None);
    assert_eq!(monitor.lock_surface(), None);
    assert_eq!(monitor.dimensions(), (0, 0));
    assert!(monitor.buffer_state().is_none());
    assert!(!monitor.is_dirty());
}

#[test]
fn builders_set_one_field_each() {
    let monitor = Monitor::default().with_name(42);
    assert_eq!(monitor.name(), 42);
    assert_eq!(monitor.output(), None);
    let monitor = monitor.with_output(3);
    assert_eq!(monitor.name(), 42);
    assert_eq!(monitor.output(), Some(3));
    assert_eq!(monitor.lock_surface(), None);
}

#[test]
fn surface_needs_the_output_handle() {
    let mut monitor = Monitor::default().with_name(9);
    assert_eq!(
        monitor.create_surface_and_lock(1),
        Err(SurfaceError::MissingOutput { name: 9 })
    );
    assert_eq!(monitor.lock_surface(), None);
}

#[test]
fn surface_is_made_once() {
    let mut monitor = Monitor::default().with_name(9).with_output(4);
    assert_eq!(monitor.create_surface_and_lock(11), Ok(()));
    assert_eq!(monitor.lock_surface(), Some(11));
    assert_eq!(monitor.create_surface_and_lock(12), Err(SurfaceError::AlreadyCreated));
    assert_eq!(monitor.lock_surface(), Some(11));
}

#[test]
fn configure_without_lock_surface_is_refused() {
    let mut monitor = Monitor::default().with_name(9).with_output(4);
    assert_eq!(monitor.configure(10, 10), Err(ConfigureError::NoLockSurface));
    assert_eq!(monitor.dimensions(), (0, 0));
    assert!(monitor.buffer_state().is_none());
}

#[test]
fn first_configure_creates_paints_and_commits() {
    let mut monitor = output(7);
    let done = monitor.configure(3, 2).unwrap();
    assert_eq!(
        done,
        Configured {
            width: 3,
            height: 2,
            pool_created: true,
            commit: Some(SurfaceCommit {
                tag: BufferTag { monitor_name: 7, index: 0 },
                width: 3,
                height: 2,
            }),
        }
    );
    assert_eq!(monitor.dimensions(), (3, 2));
    assert!(!monitor.is_dirty());
    let pool = monitor.buffer_state().unwrap();
    assert!(pool.slot(0).in_use());
    assert!(!pool.slot(1).in_use());
    assert_eq!(pool.slot(0).bytes(), &placeholder(6));
    assert_eq!(pool.slot(1).bytes(), &placeholder(6));
    assert_eq!(pool.slot(0).stride(), 12);
    assert_eq!(pool.slot(0).size(), 24);
    assert_eq!(pool.slot(1).tag(), BufferTag { monitor_name: 7, index: 1 });
}

#[test]
fn configure_with_zero_takes_the_fallback_size() {
    let mut monitor = output(1);
    let done = monitor.configure(0, 0).unwrap();
    assert_eq!((done.width, done.height), (1920, 1080));
    assert_eq!(monitor.dimensions(), (1920, 1080));
    assert_eq!(monitor.buffer_state().unwrap().slot(0).size(), 8_294_400);
    assert_eq!(
        done.commit,
        Some(SurfaceCommit { tag: BufferTag { monitor_name: 1, index: 0 }, width: 1920, height: 1080 })
    );
    let mut other = output(2);
    let done = other.configure(0, 5).unwrap();
    assert_eq!((done.width, done.height), (1920, 5));
    let mut third = output(3);
    let done = third.configure(5, 0).unwrap();
    assert_eq!((done.width, done.height), (5, 1080));
}

#[test]
fn configure_of_the_same_size_keeps_the_pool_and_marks_it_stale() {
    let mut monitor = output(7);
    monitor.configure(2, 2).unwrap();
    let picture = vec![5u8; 16];
    assert!(monitor.commit(&picture).unwrap().is_some());
    assert!(!monitor.is_dirty());
    let done = monitor.configure(2, 2).unwrap();
    assert_eq!(done, Configured { width: 2, height: 2, pool_created: false, commit: None });
    assert!(monitor.is_dirty());
    let pool = monitor.buffer_state().unwrap();
    assert!(pool.slot(0).in_use() && pool.slot(1).in_use());
    assert_eq!(pool.slot(1).bytes(), &picture);
}

#[test]
fn configure_of_another_size_lays_out_a_new_pool() {
    let mut monitor = output(7);
    monitor.configure(2, 2).unwrap();
    monitor.commit(&vec![5u8; 16]).unwrap();
    let done = monitor.configure(4, 1).unwrap();
    assert!(done.pool_created);
    assert_eq!(
        done.commit,
        Some(SurfaceCommit { tag: BufferTag { monitor_name: 7, index: 0 }, width: 4, height: 1 })
    );
    assert_eq!(monitor.dimensions(), (4, 1));
    let pool = monitor.buffer_state().unwrap();
    assert!(pool.slot(0).in_use());
    assert!(!pool.slot(1).in_use());
    assert_eq!(pool.slot(1).bytes(), &placeholder(4));
}

#[test]
fn configure_too_large_is_refused_and_changes_nothing() {
    let mut monitor = output(7);
    assert_eq!(
        monitor.configure(65536, 8192),
        Err(ConfigureError::Buffer(BufferError::TooLarge))
    );
    assert_eq!(
        monitor.configure(u32::MAX, 1),
        Err(ConfigureError::Buffer(BufferError::TooLarge))
    );
    assert_eq!(
        monitor.configure(1, 0x8000_0000),
        Err(ConfigureError::Buffer(BufferError::TooLarge))
    );
    assert_eq!(monitor.dimensions(), (0, 0));
    assert!(monitor.buffer_state().is_none());
    monitor.configure(2, 2).unwrap();
    assert_eq!(
        monitor.configure(65536, 8192),
        Err(ConfigureError::Buffer(BufferError::TooLarge))
    );
    assert_eq!(monitor.dimensions(), (2, 2));
    assert_eq!(monitor.buffer_state().unwrap().slot(0).size(), 16);
}

#[test]
fn commit_without_pool_is_refused() {
    let mut monitor = output(7);
    assert_eq!(monitor.commit(&vec![0u8; 4]), Err(CommitError::NoBufferState));
}

#[test]
fn commit_reports_the_surface_requests() {
    let mut monitor = output(7);
    monitor.configure(2, 3).unwrap();
    let picture = vec![1u8; 24];
    assert_eq!(
        monitor.commit(&picture),
        Ok(Some(SurfaceCommit { tag: BufferTag { monitor_name: 7, index: 1 }, width: 2, height: 3 }))
    );
    assert_eq!(monitor.commit(&picture), Ok(None));
    assert_eq!(monitor.commit(&vec![0u8; 23]), Err(CommitError::FrameSize));
    monitor.release(0);
    assert_eq!(
        monitor.commit(&picture),
        Ok(Some(SurfaceCommit { tag: BufferTag { monitor_name: 7, index: 0 }, width: 2, height: 3 }))
    );
}

#[test]
fn redraw_commits_the_placeholder_only_when_stale() {
    let mut monitor = output(7);
    assert_eq!(monitor.redraw(), None);
    monitor.configure(1, 2).unwrap();
    assert_eq!(monitor.redraw(), None);
    monitor.mark_dirty();
    assert_eq!(
        monitor.redraw(),
        Some(SurfaceCommit { tag: BufferTag { monitor_name: 7, index: 1 }, width: 1, height: 2 })
    );
    assert!(!monitor.is_dirty());
    assert_eq!(monitor.buffer_state().unwrap().slot(1).bytes(), &placeholder(2));
    monitor.mark_dirty();
    assert_eq!(monitor.redraw(), None);
    assert!(monitor.is_dirty());
    monitor.release(1);
    assert_eq!(
        monitor.redraw(),
        Some(SurfaceCommit { tag: BufferTag { monitor_name: 7, index: 1 }, width: 1, height: 2 })
    );
}

#[test]
fn release_and_mark_without_pool_change_nothing() {
    let mut monitor = output(7);
    monitor.release(0);
    monitor.mark_dirty();
    assert!(monitor.buffer_state().is_none());
    assert!(!monitor.is_dirty());
}
