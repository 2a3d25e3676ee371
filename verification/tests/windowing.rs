use better_panic::frame::Frame;
use better_panic::window::compute_window;

fn app_frame(name: &str) -> Frame {
    Frame {
        name: Some(name.to_string()),
        lineno: Some(5),
        filename: Some("src/main.rs".to_string()),
    }
}

fn post_panic_frame() -> Frame {
    Frame { name: Some("core::panicking::panic_fmt".to_string()), lineno: None, filename: None }
}

fn runtime_init_frame() -> Frame {
    Frame {
        name: Some("std::rt::lang_start::{{closure}}".to_string()),
        lineno: None,
        filename: Some("src/libstd/rt.rs".to_string()),
    }
}

fn call_once_frame() -> Frame {
    Frame {
        name: Some("std::ops::function::FnOnce::call_once::h0123456789abcdef".to_string()),
        lineno: None,
        filename: None,
    }
}

#[test]
fn window_synthetic_sequence() {
    let frames = vec![
        post_panic_frame(),
        post_panic_frame(),
        app_frame("app::fn_a"),
        app_frame("app::fn_b"),
        runtime_init_frame(),
        runtime_init_frame(),
    ];
    let (lo, hi) = compute_window(&frames);
    assert_eq!((lo, hi), (2, 4));
    assert_eq!(frames[lo].name, Some("app::fn_a".to_string()));
    assert_eq!(frames[hi - 1].name, Some("app::fn_b".to_string()));
}

#[test]
fn window_without_markers_keeps_everything() {
    let frames = vec![app_frame("app::fn_a"), app_frame("app::fn_b")];
    assert_eq!(compute_window(&frames), (0, 2));
}

#[test]
fn window_of_empty_sequence() {
    let frames: Vec<Frame> = Vec::new();
    assert_eq!(compute_window(&frames), (0, 0));
}

#[test]
fn window_drops_trailing_call_once() {
    let frames = vec![app_frame("app::fn_a"), app_frame("app::fn_b"), call_once_frame()];
    assert_eq!(compute_window(&frames), (0, 2));
}

#[test]
fn window_keeps_inner_call_once() {
    let frames = vec![app_frame("app::fn_a"), call_once_frame(), app_frame("app::fn_b")];
    assert_eq!(compute_window(&frames), (0, 3));
}

#[test]
fn window_empty_when_runtime_init_is_first() {
    let frames = vec![runtime_init_frame(), app_frame("app::fn_a")];
    let (lo, hi) = compute_window(&frames);
    assert!(lo >= hi);
}

#[test]
fn window_rerun_is_stable() {
    let frames = vec![
        post_panic_frame(),
        app_frame("app::fn_a"),
        app_frame("app::fn_b"),
        runtime_init_frame(),
    ];
    let (lo, hi) = compute_window(&frames);
    let windowed: Vec<Frame> = frames[lo..hi].to_vec();
    assert_eq!(compute_window(&windowed), (0, windowed.len()));
}
