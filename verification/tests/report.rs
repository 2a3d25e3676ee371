use better_panic::frame::Frame;
use better_panic::render::{render_report, segments_to_string, Location};
use better_panic::{debug_install, install, Settings, Verbosity};

fn app_frame(name: &str, file: &str, line: u32) -> Frame {
    Frame {
        name: Some(name.to_string()),
        lineno: Some(line),
        filename: Some(file.to_string()),
    }
}

fn boom_location() -> Option<Location> {
    Some(Location { file: "main.rs".to_string(), line: 10 })
}

fn render_text(
    s: &Settings,
    payload: &str,
    location: &Option<Location>,
    thread: &Option<String>,
    frames: &Vec<Frame>,
    snippets: &Vec<Option<String>>,
) -> String {
    let segments = render_report(s, payload, location, thread, frames, snippets);
    segments_to_string(&segments)
}

#[test]
fn end_to_end_default_settings() {
    let frames = vec![app_frame("app::run", "src/app.rs", 7)];
    let snippets = vec![None];
    let out = render_text(
        &Settings::default(),
        "boom",
        &boom_location(),
        &Some("worker".to_string()),
        &frames,
        &snippets,
    );
    assert!(out.contains("The application panicked (crashed)."));
    assert!(out.contains("\n  boom\n"));
    assert!(out.contains("in main.rs, line 10"));
    assert!(out.contains("thread: worker"));
}

#[test]
fn minimal_omits_backtrace() {
    let frames = vec![app_frame("app::run", "src/app.rs", 7)];
    let snippets = vec![None];
    let out = render_text(
        &Settings::default().verbosity(Verbosity::Minimal),
        "boom",
        &boom_location(),
        &None,
        &frames,
        &snippets,
    );
    // The order-stating header opens the block; the omission notice
    // follows it and the block stops there.
    let header = out.find("Backtrace (most recent call first):").unwrap();
    let notice = out
        .find("Backtrace omitted. Run with RUST_BACKTRACE=1 to display it.")
        .unwrap();
    assert!(header < notice);
    assert!(!out.contains("Run with RUST_BACKTRACE=full"));
    assert!(!out.contains("  File \""));
}

#[test]
fn medium_includes_frames_and_snippet_notice() {
    let frames = vec![app_frame("app::run", "src/app.rs", 7)];
    let snippets = vec![None];
    let out = render_text(
        &Settings::default().verbosity(Verbosity::Medium),
        "boom",
        &boom_location(),
        &None,
        &frames,
        &snippets,
    );
    // Header first, then the snippet notice, then the frames.
    let header = out.find("Backtrace (most recent call first):").unwrap();
    let notice = out
        .find("Run with RUST_BACKTRACE=full to include source snippets.")
        .unwrap();
    let frame_line = out.find("  File \"src/app.rs\", line 7, in app::run\n").unwrap();
    assert!(header < notice);
    assert!(notice < frame_line);
}

#[test]
fn full_includes_trimmed_snippet() {
    let frames = vec![app_frame("app::run", "src/app.rs", 7)];
    let snippets = vec![Some("   let x = 1;  ".to_string())];
    let out = render_text(
        &Settings::default().verbosity(Verbosity::Full),
        "boom",
        &boom_location(),
        &None,
        &frames,
        &snippets,
    );
    assert!(out.contains("  File \"src/app.rs\", line 7, in app::run\n    let x = 1;\n"));
}

#[test]
fn full_with_missing_snippet_prints_header_only() {
    let frames = vec![app_frame("app::run", "src/app.rs", 7)];
    let snippets = vec![None];
    let out = render_text(
        &Settings::default().verbosity(Verbosity::Full),
        "boom",
        &boom_location(),
        &None,
        &frames,
        &snippets,
    );
    assert!(out.contains("  File \"src/app.rs\", line 7, in app::run\n"));
    assert!(!out.contains("\n    "));
}

#[test]
fn most_recent_first_orders_frames() {
    let frames = vec![
        app_frame("app::inner", "src/a.rs", 1),
        app_frame("app::outer", "src/b.rs", 2),
    ];
    let snippets = vec![None, None];
    let s = Settings::default().verbosity(Verbosity::Medium);
    let out = render_text(&s, "boom", &boom_location(), &None, &frames, &snippets);
    assert!(out.contains("Backtrace (most recent call first):"));
    let inner = out.find("app::inner").unwrap();
    let outer = out.find("app::outer").unwrap();
    assert!(inner < outer);
}

#[test]
fn most_recent_last_reverses_frames() {
    let frames = vec![
        app_frame("app::inner", "src/a.rs", 1),
        app_frame("app::outer", "src/b.rs", 2),
    ];
    let snippets = vec![None, None];
    let s = Settings::default().verbosity(Verbosity::Medium).most_recent_first(false);
    let out = render_text(&s, "boom", &boom_location(), &None, &frames, &snippets);
    assert!(out.contains("Backtrace (most recent call last):"));
    let inner = out.find("app::inner").unwrap();
    let outer = out.find("app::outer").unwrap();
    assert!(outer < inner);
    assert!(out.contains("  File \"src/a.rs\", line 1, in app::inner\n"));
    assert!(out.contains("  File \"src/b.rs\", line 2, in app::outer\n"));
}

#[test]
fn backtrace_after_message() {
    let frames = vec![app_frame("app::run", "src/app.rs", 7)];
    let snippets = vec![None];
    let s = Settings::default().verbosity(Verbosity::Medium).backtrace_first(false);
    let out = render_text(&s, "boom", &boom_location(), &None, &frames, &snippets);
    let greeting = out.find("The application panicked (crashed).").unwrap();
    let header = out.find("Backtrace (most recent call first):").unwrap();
    assert!(greeting < header);
}

#[test]
fn lineno_suffix_style() {
    let frames = vec![app_frame("app::run", "src/app.rs", 7)];
    let snippets = vec![None];
    let s = Settings::default().verbosity(Verbosity::Medium).lineno_suffix(true);
    let out = render_text(&s, "boom", &boom_location(), &None, &frames, &snippets);
    assert!(out.contains("in main.rs:10"));
    assert!(out.contains("  File \"src/app.rs:7\", in app::run\n"));
}

#[test]
fn multiline_payload_indented() {
    let frames: Vec<Frame> = Vec::new();
    let snippets: Vec<Option<String>> = Vec::new();
    let out = render_text(
        &Settings::default(),
        "first\nsecond",
        &boom_location(),
        &None,
        &frames,
        &snippets,
    );
    assert!(out.contains("\n  first\n  second\n"));
}

#[test]
fn payload_trailing_newline_yields_one_line() {
    let frames: Vec<Frame> = Vec::new();
    let snippets: Vec<Option<String>> = Vec::new();
    let out = render_text(
        &Settings::default(),
        "boom\n",
        &boom_location(),
        &None,
        &frames,
        &snippets,
    );
    assert!(out.contains("\n  boom\nin "));
}

#[test]
fn unknown_location_and_unnamed_thread() {
    let frames: Vec<Frame> = Vec::new();
    let snippets: Vec<Option<String>> = Vec::new();
    let out = render_text(&Settings::default(), "boom", &None, &None, &frames, &snippets);
    assert!(out.contains("in <unknown>\n"));
    assert!(out.contains("thread: <unnamed>\n"));
}

#[test]
fn unresolved_frame_uses_placeholders() {
    let frames = vec![Frame { name: None, lineno: None, filename: None }];
    let snippets = vec![None];
    let s = Settings::default().verbosity(Verbosity::Medium);
    let out = render_text(&s, "boom", &boom_location(), &None, &frames, &snippets);
    assert!(out.contains("  File \"<unknown>\", line 0, in <unknown>\n"));
}

#[test]
fn custom_message_is_printed() {
    let frames: Vec<Frame> = Vec::new();
    let snippets: Vec<Option<String>> = Vec::new();
    let s = Settings::default().message("It broke.".to_string());
    let out = render_text(&s, "boom", &boom_location(), &None, &frames, &snippets);
    assert!(out.contains("It broke.\n"));
    assert!(!out.contains("The application panicked (crashed)."));
}

#[test]
fn full_has_no_snippet_notice() {
    let frames = vec![app_frame("app::run", "src/app.rs", 7)];
    let snippets = vec![None];
    let out = render_text(
        &Settings::default().verbosity(Verbosity::Full),
        "boom",
        &boom_location(),
        &None,
        &frames,
        &snippets,
    );
    assert!(!out.contains("Run with RUST_BACKTRACE=full"));
}

#[test]
fn payload_lone_trailing_carriage_return_kept() {
    let frames: Vec<Frame> = Vec::new();
    let snippets: Vec<Option<String>> = Vec::new();
    let out = render_text(
        &Settings::default(),
        "boom\r",
        &boom_location(),
        &None,
        &frames,
        &snippets,
    );
    assert!(out.contains("\n  boom\r\nin "));
}

#[test]
fn payload_placeholder_for_unrecognized_payload() {
    assert_eq!(better_panic::render::payload_text(None), "Box<Any>");
    assert_eq!(better_panic::render::payload_text(Some("boom")), "boom");
}

#[test]
fn new_derives_verbosity_from_signal() {
    let s = Settings::new(&Some("full".to_string()));
    assert_eq!(s.verbosity, Verbosity::Full);
    let s = Settings::new(&Some("1".to_string()));
    assert_eq!(s.verbosity, Verbosity::Medium);
    let s = Settings::new(&None);
    assert_eq!(s.verbosity, Verbosity::Minimal);
    assert_eq!(s.message, "The application panicked (crashed).".to_string());
}

#[test]
fn install_builds_settings_from_signal() {
    let s = install(false, &Some("full".to_string()));
    assert_eq!(s.verbosity, Verbosity::Full);
    let s = install(false, &None);
    assert_eq!(s.verbosity, Verbosity::Minimal);
    let s = install(true, &None);
    assert_eq!(s.verbosity, Verbosity::Full);
    assert!(s.backtrace_first);
    assert!(s.most_recent_first);
    assert!(!s.lineno_suffix);
}

#[test]
fn debug_install_builds_full_settings() {
    let s = debug_install();
    assert_eq!(s.verbosity, Verbosity::Full);
    assert_eq!(s.message, "The application panicked (crashed).".to_string());
}
