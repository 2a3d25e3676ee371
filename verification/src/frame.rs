//! One entry of a resolved call stack, and the heuristic predicates that
//! classify it.
//!
//! A frame carries an optional symbol name, source file path and line
//! number; any field may be absent.  The predicates are maintained
//! allow-lists of exact and prefix string patterns observed across the
//! common standard-library, panic-runtime and test-harness implementations;
//! none of them can be derived structurally from a resolved symbol.
use vstd::prelude::*;
use vstd::string::StrSliceExecFns;

use crate::text;
use crate::text::{ends_with, occurs_in, starts_with};

verus! {

/// The mathematical content of a `Frame`: its fields as character sequences.
#[verifier::ext_equal]
pub struct FrameView {
    pub name: Option<Seq<char>>,
    pub lineno: Option<u32>,
    pub filename: Option<Seq<char>>,
}

/// One entry of a resolved call stack.  A frame with no name and no file is
/// still printable; every predicate handles absent fields.
#[derive(Debug, Clone)]
pub struct Frame {
    /// Demangled-or-raw symbol name; absent if unresolved.
    pub name: Option<String>,
    /// Source line number; absent if unknown.
    pub lineno: Option<u32>,
    /// Source file path; absent if unknown.
    pub filename: Option<String>,
}

impl View for Frame {
    type V = FrameView;

    open spec fn view(&self) -> FrameView {
        FrameView {
            name: text::opt_view(self.name),
            lineno: self.lineno,
            filename: text::opt_view(self.filename),
        }
    }
}

/// Whether `c` is a hexadecimal digit.
pub open spec fn is_hex_digit(c: char) -> bool {
    ||| ('0' <= c && c <= '9')
    ||| ('a' <= c && c <= 'f')
    ||| ('A' <= c && c <= 'F')
}

/// Whether `c` is a hexadecimal digit.
pub fn hex_digit(c: char) -> (r: bool)
    ensures
        r == is_hex_digit(c),
{
    ('0' <= c && c <= '9') || ('a' <= c && c <= 'f') || ('A' <= c && c <= 'F')
}

/// Whether `name` ends in a compiler-generated disambiguation suffix: the
/// marker `::h` followed by exactly 16 hexadecimal characters, recognized
/// only when the name is longer than the 19 characters the suffix takes.
pub open spec fn has_hash_suffix(name: Seq<char>) -> bool {
    &&& name.len() > 19
    &&& name.subrange(name.len() - 19, name.len() - 16) == "::h"@
    &&& (forall|i: int| name.len() - 16 <= i < name.len() ==> is_hex_digit(name[i]))
}

/// `name` with its disambiguation suffix stripped if it has one, and
/// unchanged otherwise.
pub open spec fn spec_name_without_hash(name: Seq<char>) -> Seq<char> {
    if has_hash_suffix(name) {
        name.subrange(0, name.len() - 19)
    } else {
        name
    }
}

/// A name shorter than 20 characters is never stripped.
pub proof fn lemma_short_name_never_stripped(name: Seq<char>)
    requires
        name.len() < 20,
    ensures
        spec_name_without_hash(name) == name,
{
}

/// `name` with its disambiguation suffix stripped if it has one.
pub fn strip_hash_suffix(name: &str) -> (r: String)
    ensures
        r@ == spec_name_without_hash(name@),
{
    let n = name.unicode_len();
    if n <= 19 {
        return name.to_owned();
    }
    let marker = name.substring_char(n - 19, n - 16);
    if !text::str_eq(marker, "::h") {
        return name.to_owned();
    }
    let mut i = n - 16;
    while i < n
        invariant
            n == name@.len(),
            n > 19,
            n - 16 <= i <= n,
            forall|j: int| n - 16 <= j < i ==> is_hex_digit(name@[j]),
        decreases n - i,
    {
        if !hex_digit(name.get_char(i)) {
            return name.to_owned();
        }
        i += 1;
    }
    assert(has_hash_suffix(name@));
    name.substring_char(0, n - 19).to_owned()
}

/// Whether a symbol name carries one of the known runtime, standard-library
/// or thread-startup prefixes.
pub open spec fn spec_is_dep_sym(name: Seq<char>) -> bool {
    ||| starts_with(name, "std::"@)
    ||| starts_with(name, "core::"@)
    ||| starts_with(name, "backtrace::backtrace::"@)
    ||| starts_with(name, "_rust_begin_unwind"@)
    ||| starts_with(name, "better_panic::"@)
    ||| starts_with(name, "__rust_"@)
    ||| starts_with(name, "___rust_"@)
    ||| starts_with(name, "__pthread"@)
    ||| starts_with(name, "_main"@)
    ||| starts_with(name, "main"@)
    ||| starts_with(name, "__scrt_common_main_seh"@)
    ||| starts_with(name, "BaseThreadInitThunk"@)
    ||| starts_with(name, "_start"@)
    ||| starts_with(name, "__libc_start_main"@)
    ||| starts_with(name, "start_thread"@)
}

fn is_dep_sym(name: &str) -> (r: bool)
    ensures
        r == spec_is_dep_sym(name@),
{
    text::str_starts_with(name, "std::") || text::str_starts_with(name, "core::")
        || text::str_starts_with(name, "backtrace::backtrace::") || text::str_starts_with(
        name,
        "_rust_begin_unwind",
    ) || text::str_starts_with(name, "better_panic::") || text::str_starts_with(name, "__rust_")
        || text::str_starts_with(name, "___rust_") || text::str_starts_with(name, "__pthread")
        || text::str_starts_with(name, "_main") || text::str_starts_with(name, "main")
        || text::str_starts_with(name, "__scrt_common_main_seh") || text::str_starts_with(
        name,
        "BaseThreadInitThunk",
    ) || text::str_starts_with(name, "_start") || text::str_starts_with(name, "__libc_start_main")
        || text::str_starts_with(name, "start_thread")
}

/// Whether a file path points into the runtime source tree, a fetched
/// third-party package cache, or macro-expanded synthetic code.
pub open spec fn spec_is_dep_file(file: Seq<char>) -> bool {
    ||| file.contains('<')
    ||| starts_with(file, "rust:"@)
    ||| starts_with(file, "/rustc/"@)
    ||| starts_with(file, "src/libstd/"@)
    ||| starts_with(file, "src/libpanic_unwind/"@)
    ||| starts_with(file, "src/libtest/"@)
    ||| occurs_in(file, "/.cargo/registry/src/"@)
}

fn is_dep_file(file: &str) -> (r: bool)
    ensures
        r == spec_is_dep_file(file@),
{
    text::str_contains_char(file, '<') || text::str_starts_with(file, "rust:")
        || text::str_starts_with(file, "/rustc/") || text::str_starts_with(file, "src/libstd/")
        || text::str_starts_with(file, "src/libpanic_unwind/") || text::str_starts_with(
        file,
        "src/libtest/",
    ) || text::str_contains(file, "/.cargo/registry/src/")
}

/// The frame is attributed to the standard library, the runtime or a
/// third-party package rather than the application under diagnosis.  This
/// only affects presentation styling, never windowing.
pub open spec fn spec_is_dependency_code(f: FrameView) -> bool {
    ||| (f.name matches Some(name) && spec_is_dep_sym(name))
    ||| (f.filename matches Some(file) && spec_is_dep_file(file))
}

/// Whether a hash-stripped symbol name belongs to the panic-dispatch
/// machinery itself.
pub open spec fn spec_is_post_panic_sym(n: Seq<char>) -> bool {
    ||| starts_with(n, "_rust_begin_unwind"@)
    ||| starts_with(n, "panic_bounds_check"@)
    ||| starts_with(n, "core::result::unwrap_failed"@)
    ||| starts_with(n, "core::panicking::panic_fmt"@)
    ||| starts_with(n, "core::panicking::panic_bounds_check"@)
    ||| starts_with(n, "color_backtrace::create_panic_handler"@)
    ||| starts_with(n, "std::panicking::begin_panic"@)
    ||| starts_with(n, "begin_panic_fmt"@)
    ||| starts_with(n, "rust_begin_panic"@)
    ||| starts_with(n, "panic_fmt"@)
    ||| ends_with(n, "__rust_end_short_backtrace"@)
}

fn is_post_panic_sym(n: &str) -> (r: bool)
    ensures
        r == spec_is_post_panic_sym(n@),
{
    text::str_starts_with(n, "_rust_begin_unwind") || text::str_starts_with(
        n,
        "panic_bounds_check",
    ) || text::str_starts_with(n, "core::result::unwrap_failed") || text::str_starts_with(
        n,
        "core::panicking::panic_fmt",
    ) || text::str_starts_with(n, "core::panicking::panic_bounds_check")
        || text::str_starts_with(n, "color_backtrace::create_panic_handler")
        || text::str_starts_with(n, "std::panicking::begin_panic") || text::str_starts_with(
        n,
        "begin_panic_fmt",
    ) || text::str_starts_with(n, "rust_begin_panic") || text::str_starts_with(n, "panic_fmt")
        || text::str_ends_with(n, "__rust_end_short_backtrace")
}

/// The frame belongs to functions called after the panic was already in
/// progress; such frames carry no useful information for a reader.
pub open spec fn spec_is_post_panic_code(f: FrameView) -> bool {
    ||| (f.filename matches Some(file) && occurs_in(file, "libcore/panicking.rs"@))
    ||| (f.name matches Some(name) && spec_is_post_panic_sym(spec_name_without_hash(name)))
}

/// Whether a hash-stripped symbol name belongs to process or thread
/// bootstrap code on its own, with no look at the file path.
pub open spec fn spec_is_runtime_init_sym(n: Seq<char>) -> bool {
    ||| starts_with(n, "std::rt::lang_start::"@)
    ||| starts_with(n, "test::run_test::run_test_inner::"@)
    ||| ends_with(n, "__rust_start_short_backtrace"@)
}

fn is_runtime_init_sym(n: &str) -> (r: bool)
    ensures
        r == spec_is_runtime_init_sym(n@),
{
    text::str_starts_with(n, "std::rt::lang_start::") || text::str_starts_with(
        n,
        "test::run_test::run_test_inner::",
    ) || text::str_ends_with(n, "__rust_start_short_backtrace")
}

/// The frame belongs to language-runtime bootstrap code near the far end
/// of the stack: its hash-stripped name carries a bootstrap marker on its
/// own, or — as a narrow, test-harness special case — the name is the
/// closure placeholder and the file is exactly the harness's main source
/// file.  A frame with no name never matches; the file path is consulted
/// only in the closure-placeholder case.
pub open spec fn spec_is_runtime_init_code(f: FrameView) -> bool {
    f.name matches Some(name) && {
        let n = spec_name_without_hash(name);
        ||| spec_is_runtime_init_sym(n)
        ||| (n == "{{closure}}"@ && (f.filename matches Some(file) && file
            == "src/libtest/lib.rs"@))
    }
}

/// The frame is a generic "invoke a boxed callable" trampoline.
pub open spec fn spec_is_call_once(f: FrameView) -> bool {
    f.name matches Some(name) && ends_with(spec_name_without_hash(name), "FnOnce::call_once"@)
}

impl Frame {
    /// The symbol name with its compiler-generated disambiguation suffix
    /// stripped if present, and unchanged otherwise; absent when the frame
    /// has no name.
    pub fn name_without_hash(&self) -> (r: Option<String>)
        ensures
            match self@.name {
                Option::Some(n) => r matches Option::Some(s) && s@ == spec_name_without_hash(n),
                Option::None => r is None,
            },
    {
        match &self.name {
            Option::Some(name) => Option::Some(strip_hash_suffix(name.as_str())),
            Option::None => Option::None,
        }
    }

    /// Whether this frame is attributed to the standard library, the
    /// runtime or a third-party package.
    pub fn is_dependency_code(&self) -> (r: bool)
        ensures
            r == spec_is_dependency_code(self@),
    {
        if let Option::Some(name) = &self.name {
            if is_dep_sym(name.as_str()) {
                return true;
            }
        }
        if let Option::Some(file) = &self.filename {
            if is_dep_file(file.as_str()) {
                return true;
            }
        }
        false
    }

    /// Whether this frame belongs to the panic-dispatch machinery itself.
    pub fn is_post_panic_code(&self) -> (r: bool)
        ensures
            r == spec_is_post_panic_code(self@),
    {
        if let Option::Some(file) = &self.filename {
            if text::str_contains(file.as_str(), "libcore/panicking.rs") {
                return true;
            }
        }
        match self.name_without_hash() {
            Option::Some(n) => is_post_panic_sym(n.as_str()),
            Option::None => false,
        }
    }

    /// Whether this frame belongs to language-runtime bootstrap code.
    pub fn is_runtime_init_code(&self) -> (r: bool)
        ensures
            r == spec_is_runtime_init_code(self@),
    {
        match self.name_without_hash() {
            Option::Some(n) => {
                if is_runtime_init_sym(n.as_str()) {
                    true
                } else if text::str_eq(n.as_str(), "{{closure}}") {
                    match &self.filename {
                        Option::Some(file) => text::str_eq(file.as_str(), "src/libtest/lib.rs"),
                        Option::None => false,
                    }
                } else {
                    false
                }
            },
            Option::None => false,
        }
    }

    /// Whether this frame is a generic "invoke a boxed callable" trampoline.
    pub fn is_call_once(&self) -> (r: bool)
        ensures
            r == spec_is_call_once(self@),
    {
        match self.name_without_hash() {
            Option::Some(n) => text::str_ends_with(n.as_str(), "FnOnce::call_once"),
            Option::None => false,
        }
    }
}

} // verus!
