use better_panic::frame::Frame;
use better_panic::render::trim_filename;
use better_panic::Verbosity;

fn named(name: &str) -> Frame {
    Frame { name: Some(name.to_string()), lineno: None, filename: None }
}

#[test]
fn hash_suffix_stripped() {
    let f = named("foo::bar::h0123456789abcdef");
    assert_eq!(f.name_without_hash(), Some("foo::bar".to_string()));
}

#[test]
fn hash_suffix_non_hex_unchanged() {
    let f = named("foo::bar::hZZZZZZZZZZZZZZZZ");
    assert_eq!(f.name_without_hash(), Some("foo::bar::hZZZZZZZZZZZZZZZZ".to_string()));
}

#[test]
fn hash_suffix_short_name_unchanged() {
    // Exactly 19 characters: the marker and digits alone, with nothing
    // before them, never count as a suffix.
    let f = named("::h0123456789abcdef");
    assert_eq!(f.name_without_hash(), Some("::h0123456789abcdef".to_string()));
}

#[test]
fn hash_suffix_uppercase_hex_stripped() {
    let f = named("x::h0123456789ABCDEF");
    assert_eq!(f.name_without_hash(), Some("x".to_string()));
}

#[test]
fn name_without_hash_absent() {
    let f = Frame { name: None, lineno: Some(3), filename: None };
    assert_eq!(f.name_without_hash(), None);
}

#[test]
fn dependency_code_by_symbol_prefix() {
    assert!(named("std::io::copy").is_dependency_code());
    assert!(named("core::fmt::write").is_dependency_code());
    assert!(!named("myapp::run").is_dependency_code());
}

#[test]
fn dependency_code_by_file() {
    let f = Frame {
        name: Some("myapp::run".to_string()),
        lineno: Some(1),
        filename: Some("/rustc/abc/library/std/src/io/mod.rs".to_string()),
    };
    assert!(f.is_dependency_code());
    let g = Frame {
        name: Some("myapp::run".to_string()),
        lineno: Some(1),
        filename: Some("/home/u/.cargo/registry/src/index/dep-1.0/src/lib.rs".to_string()),
    };
    assert!(g.is_dependency_code());
    let h = Frame {
        name: Some("myapp::run".to_string()),
        lineno: Some(1),
        filename: Some("src/<macro expansion>".to_string()),
    };
    assert!(h.is_dependency_code());
}

#[test]
fn post_panic_by_file_marker() {
    let f = Frame {
        name: None,
        lineno: None,
        filename: Some("/old/libcore/panicking.rs".to_string()),
    };
    assert!(f.is_post_panic_code());
}

#[test]
fn post_panic_by_symbol_with_hash() {
    let f = named("core::panicking::panic_fmt::h0123456789abcdef");
    assert!(f.is_post_panic_code());
    assert!(!named("myapp::run").is_post_panic_code());
}

#[test]
fn runtime_init_by_name_alone() {
    let with_file = Frame {
        name: Some("std::rt::lang_start::{{closure}}".to_string()),
        lineno: None,
        filename: Some("src/libstd/rt.rs".to_string()),
    };
    assert!(with_file.is_runtime_init_code());
    // The name-carrying cases hold even when the file path is absent.
    let missing_file = named("std::rt::lang_start::{{closure}}");
    assert!(missing_file.is_runtime_init_code());
    let short_backtrace = named("std::sys::backtrace::__rust_start_short_backtrace");
    assert!(short_backtrace.is_runtime_init_code());
    assert!(!named("myapp::run").is_runtime_init_code());
}

#[test]
fn runtime_init_closure_placeholder_needs_file() {
    let f = Frame {
        name: Some("{{closure}}".to_string()),
        lineno: None,
        filename: Some("src/libtest/lib.rs".to_string()),
    };
    assert!(f.is_runtime_init_code());
    // The closure placeholder alone says nothing without the harness path.
    assert!(!named("{{closure}}").is_runtime_init_code());
}

#[test]
fn call_once_trampoline() {
    let f = named("std::ops::function::FnOnce::call_once::h0123456789abcdef");
    assert!(f.is_call_once());
    assert!(!named("myapp::run").is_call_once());
}

#[test]
fn trim_rustc_path() {
    // "/rustc/" plus a 40-character revision hash plus the separating
    // slash is exactly 48 characters.
    let p = "/rustc/0123456789abcdef0123456789abcdef01234567/library/std/src/panic.rs";
    assert_eq!(trim_filename(p), "rust:library/std/src/panic.rs".to_string());
}

#[test]
fn trim_bracket_component() {
    assert_eq!(trim_filename("/home/user/<anon>"), "<anon>".to_string());
}

#[test]
fn trim_plain_path_unchanged() {
    assert_eq!(trim_filename("src/main.rs"), "src/main.rs".to_string());
}

#[test]
fn trim_short_rustc_path_unchanged() {
    assert_eq!(trim_filename("/rustc/short"), "/rustc/short".to_string());
}

#[test]
fn verbosity_from_signal() {
    assert_eq!(Verbosity::from_signal(&None), Verbosity::Minimal);
    assert_eq!(Verbosity::from_signal(&Some("1".to_string())), Verbosity::Medium);
    assert_eq!(Verbosity::from_signal(&Some("full".to_string())), Verbosity::Full);
}

#[test]
fn verbosity_total_order() {
    assert!(Verbosity::Full.at_least(&Verbosity::Medium));
    assert!(Verbosity::Medium.at_least(&Verbosity::Medium));
    assert!(!Verbosity::Minimal.at_least(&Verbosity::Medium));
    assert!(Verbosity::Minimal.level() < Verbosity::Medium.level());
    assert!(Verbosity::Medium.level() < Verbosity::Full.level());
}

#[test]
fn verbosity_env_value() {
    assert_eq!(Verbosity::Minimal.env_value(), "");
    assert_eq!(Verbosity::Medium.env_value(), "1");
    assert_eq!(Verbosity::Full.env_value(), "full");
}
