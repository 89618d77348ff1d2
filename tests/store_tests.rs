use winit::store::{Change, WindowRecord, WindowStore};
use winit::types::WindowId;

fn record(surface: u64, kill_switch: Option<bool>) -> WindowRecord {
    WindowRecord {
        surface,
        newsize: None,
        size: (800, 600),
        need_refresh: false,
        need_frame_refresh: false,
        closed: false,
        kill_switch,
        frame_alive: true,
        current_dpi: 1,
        new_dpi: None,
    }
}

fn wid(surface: u64) -> WindowId {
    WindowId { surface }
}

#[test]
fn cleanup_reports_each_killed_window_once() {
    let mut store = WindowStore::new();
    for s in 1..=5u64 {
        store.register(record(s, Some(false)));
    }
    store.apply(2, Change::Kill);
    store.apply(4, Change::Kill);
    store.apply(5, Change::Kill);
    assert_eq!(store.cleanup(), vec![wid(2), wid(4), wid(5)]);
    assert_eq!(store.cleanup(), Vec::<WindowId>::new());
    let left: Vec<u64> = store.windows.iter().map(|w| w.surface).collect();
    assert_eq!(left, vec![1, 3]);
}

#[test]
fn raw_parts_windows_are_never_killed() {
    let mut store = WindowStore::new();
    store.register(record(7, None));
    store.apply(7, Change::Kill);
    assert_eq!(store.windows[0].kill_switch, None);
    assert!(store.cleanup().is_empty());
    assert_eq!(store.windows.len(), 1);
}

#[test]
fn drain_resets_one_shot_flags() {
    let mut store = WindowStore::new();
    store.register(record(1, Some(false)));
    store.apply(1, Change::Configure(Some((1024, 768))));
    store.apply(1, Change::Close);
    let first = store.for_each();
    assert_eq!(first.len(), 1);
    assert_eq!(first[0].newsize, Some((1024, 768)));
    assert_eq!(first[0].size, (1024, 768));
    assert!(first[0].refresh);
    assert!(first[0].frame_refresh);
    assert!(first[0].closed);
    assert_eq!(first[0].wid, wid(1));
    let second = store.for_each();
    assert_eq!(second[0].newsize, None);
    assert!(!second[0].refresh);
    assert!(!second[0].frame_refresh);
    assert!(!second[0].closed);
    assert_eq!(second[0].size, (1024, 768));
}

#[test]
fn drain_keeps_size_when_frame_is_gone() {
    let mut store = WindowStore::new();
    store.register(record(1, Some(false)));
    store.apply(1, Change::FrameGone);
    store.apply(1, Change::Configure(Some((10, 20))));
    let ups = store.for_each();
    assert!(!ups[0].frame_alive);
    assert_eq!(ups[0].size, (800, 600));
    assert_eq!(store.windows[0].size, (800, 600));
    assert_eq!(store.windows[0].newsize, None);
}

#[test]
fn dpi_change_is_delivered_once_and_becomes_current() {
    let mut store = WindowStore::new();
    store.register(record(1, Some(false)));
    store.register(record(2, Some(false)));
    store.dpi_change(2, 2);
    let ups = store.for_each();
    assert_eq!(ups[0].new_dpi, None);
    assert_eq!(ups[1].new_dpi, Some(2));
    assert_eq!(store.windows[1].current_dpi, 2);
    assert_eq!(store.windows[1].new_dpi, None);
    assert_eq!(store.for_each()[1].new_dpi, None);
}

#[test]
fn find_wid_and_inner_size_by_surface() {
    let mut store = WindowStore::new();
    store.register(record(3, Some(false)));
    assert_eq!(store.find_wid(3), Some(wid(3)));
    assert_eq!(store.find_wid(4), None);
    store.apply(3, Change::Resize((300, 200)));
    assert_eq!(store.inner_size(3), Some((300, 200)));
    assert_eq!(store.inner_size(4), None);
}

#[test]
fn refresh_sets_only_the_frame_flag() {
    let mut store = WindowStore::new();
    store.register(record(1, Some(false)));
    store.apply(1, Change::Refresh);
    let ups = store.for_each();
    assert!(ups[0].frame_refresh);
    assert!(!ups[0].refresh);
    assert_eq!(ups[0].newsize, None);
}
