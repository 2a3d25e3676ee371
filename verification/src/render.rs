//! The rendering pipeline: turns the panic payload, location, thread name
//! and the windowed, ordered frame list into a sequence of styled text
//! segments, ready to be written to a terminal.
//!
//! A segment pairs a piece of text with the visual tone it is printed in;
//! the plain text of a report is the concatenation of its segments' texts.
//! Writing the segments out — and reading the source lines that `Full`
//! verbosity shows — is left to the embedding binary.
use vstd::prelude::*;
use vstd::string::{StrSliceExecFns, StringExecFns};

use crate::frame::{
    Frame, FrameView, spec_is_dependency_code, spec_name_without_hash,
};
use crate::text;
use crate::text::{after_last_slash, dec_string, opt_view, spec_trim, starts_with};
use crate::window::{compute_window, frames_view, spec_window};
use crate::{Settings, SettingsView, Verbosity};

verus! {

/// The visual treatment of one piece of report text.
#[derive(Debug, Clone, Copy, PartialEq, Eq, Structural)]
pub enum Tone {
    /// Unstyled text.
    Plain,
    /// Emphasis for the greeting and the backtrace header.
    Bold,
    /// Payload lines, line numbers and the thread name.
    Yellow,
    /// File names.
    Underlined,
    /// Source snippet lines.
    Dim,
    /// Function names attributed to dependency or runtime code.
    Cyan,
    /// Function names attributed to the application.
    Green,
}

/// The mathematical content of a `Segment`.
#[verifier::ext_equal]
pub struct SegmentView {
    pub text: Seq<char>,
    pub tone: Tone,
}

/// One piece of report text together with its tone.
#[derive(Debug, Clone)]
pub struct Segment {
    pub text: String,
    pub tone: Tone,
}

impl View for Segment {
    type V = SegmentView;

    open spec fn view(&self) -> SegmentView {
        SegmentView { text: self.text@, tone: self.tone }
    }
}

/// A segment view with the given tone and text.
pub open spec fn seg(tone: Tone, text: Seq<char>) -> SegmentView {
    SegmentView { text, tone }
}

/// The views of a sequence of segments.
pub open spec fn segs_view(ss: Seq<Segment>) -> Seq<SegmentView> {
    Seq::new(ss.len(), |i: int| ss[i]@)
}

/// The plain text of a sequence of segments: their texts concatenated.
pub open spec fn segs_text(ss: Seq<SegmentView>) -> Seq<char>
    decreases ss.len(),
{
    if ss.len() == 0 {
        Seq::empty()
    } else {
        segs_text(ss.drop_last()) + ss.last().text
    }
}

/// The views of a sequence of optional strings.
pub open spec fn opts_view(ss: Seq<Option<String>>) -> Seq<Option<Seq<char>>> {
    Seq::new(ss.len(), |i: int| opt_view(ss[i]))
}

/// The mathematical content of a `Location`.
#[verifier::ext_equal]
pub struct LocationView {
    pub file: Seq<char>,
    pub line: u32,
}

/// The source location a panic originated from.
#[derive(Debug, Clone)]
pub struct Location {
    /// The file the panic was raised in.
    pub file: String,
    /// The 1-indexed line the panic was raised on.
    pub line: u32,
}

impl View for Location {
    type V = LocationView;

    open spec fn view(&self) -> LocationView {
        LocationView { file: self.file@, line: self.line }
    }
}

/// The trimming transform applied to every displayed path: a path into the
/// runtime source tree loses its marker and fixed-width revision hash and
/// gains a short `rust:` tag; a path whose final component is wrapped in
/// angle brackets (a synthetic, macro-expanded location) shows only that
/// component; any other path is shown unchanged.
pub open spec fn spec_trim_filename(file: Seq<char>) -> Seq<char> {
    if starts_with(file, "/rustc/"@) {
        if file.len() >= 48 {
            "rust:"@ + file.subrange(48, file.len() as int)
        } else {
            file
        }
    } else {
        let base = after_last_slash(file);
        if base.len() >= 1 && base[0] == '<' && base.last() == '>' {
            base
        } else {
            file
        }
    }
}

/// Trims a displayed path as `spec_trim_filename` describes.
pub fn trim_filename(file: &str) -> (r: String)
    ensures
        r@ == spec_trim_filename(file@),
{
    let n = file.unicode_len();
    if text::str_starts_with(file, "/rustc/") {
        if n >= 48 {
            let mut s = String::from_str("rust:");
            s.append(file.substring_char(48, n));
            s
        } else {
            file.to_owned()
        }
    } else {
        let base = text::str_after_last_slash(file);
        let bn = base.unicode_len();
        if bn >= 1 && base.as_str().get_char(0) == '<' && base.as_str().get_char(bn - 1) == '>' {
            base
        } else {
            file.to_owned()
        }
    }
}

/// The name a frame is displayed under: its hash-stripped symbol name, or a
/// placeholder when the symbol is unresolved.
pub open spec fn spec_display_name(f: FrameView) -> Seq<char> {
    match f.name {
        Option::Some(n) => spec_name_without_hash(n),
        Option::None => "<unknown>"@,
    }
}

/// The file a frame is displayed under: its trimmed path, or a placeholder
/// when the path is unknown.
pub open spec fn spec_display_file(f: FrameView) -> Seq<char> {
    match f.filename {
        Option::Some(p) => spec_trim_filename(p),
        Option::None => "<unknown>"@,
    }
}

/// The line number a frame is displayed under; 0 when unknown.
pub open spec fn spec_display_lineno(f: FrameView) -> u32 {
    match f.lineno {
        Option::Some(l) => l,
        Option::None => 0u32,
    }
}

/// The segments printed for one windowed frame: the header line naming the
/// file, line number and function — the function name toned by whether the
/// frame is dependency code — and, at `Full` verbosity, the trimmed source
/// snippet indented below it when one is available.
pub open spec fn spec_frame_segments(
    f: FrameView,
    snippet: Option<Seq<char>>,
    s: SettingsView,
) -> Seq<SegmentView> {
    let name_tone = if spec_is_dependency_code(f) {
        Tone::Cyan
    } else {
        Tone::Green
    };
    let file = spec_display_file(f);
    let num = dec_string(spec_display_lineno(f) as int);
    let name = spec_display_name(f);
    let head = if s.lineno_suffix {
        seq![
            seg(Tone::Plain, "  File \""@),
            seg(Tone::Underlined, file),
            seg(Tone::Plain, ":"@),
            seg(Tone::Yellow, num),
            seg(Tone::Plain, "\", in "@),
            seg(name_tone, name),
            seg(Tone::Plain, "\n"@),
        ]
    } else {
        seq![
            seg(Tone::Plain, "  File \""@),
            seg(Tone::Underlined, file),
            seg(Tone::Plain, "\", line "@),
            seg(Tone::Yellow, num),
            seg(Tone::Plain, ", in "@),
            seg(name_tone, name),
            seg(Tone::Plain, "\n"@),
        ]
    };
    let snip = if s.verbosity == Verbosity::Full && f.lineno is Some && f.filename is Some
        && snippet is Some {
        seq![
            seg(Tone::Plain, "    "@),
            seg(Tone::Dim, spec_trim(snippet->0)),
            seg(Tone::Plain, "\n"@),
        ]
    } else {
        Seq::<SegmentView>::empty()
    };
    head + snip
}

/// Renders one windowed frame, as `spec_frame_segments` describes.  The
/// snippet is the raw source line an embedding read for this frame, if any;
/// it is shown only at `Full` verbosity and only when the frame knows both
/// its file and its line.
pub fn render_frame(f: &Frame, snippet: &Option<String>, s: &Settings) -> (out: Vec<Segment>)
    ensures
        segs_view(out@) == spec_frame_segments(f@, opt_view(*snippet), s@),
{
    let name: String = match f.name_without_hash() {
        Option::Some(n) => n,
        Option::None => String::from_str("<unknown>"),
    };
    let name_tone = if f.is_dependency_code() {
        Tone::Cyan
    } else {
        Tone::Green
    };
    let file: String = match &f.filename {
        Option::Some(p) => trim_filename(p.as_str()),
        Option::None => String::from_str("<unknown>"),
    };
    let num: String = text::u32_to_string(
        match f.lineno {
            Option::Some(l) => l,
            Option::None => 0u32,
        },
    );
    let mut out: Vec<Segment> = Vec::new();
    out.push(Segment { text: String::from_str("  File \""), tone: Tone::Plain });
    out.push(Segment { text: file, tone: Tone::Underlined });
    if s.lineno_suffix {
        out.push(Segment { text: String::from_str(":"), tone: Tone::Plain });
        out.push(Segment { text: num, tone: Tone::Yellow });
        out.push(Segment { text: String::from_str("\", in "), tone: Tone::Plain });
    } else {
        out.push(Segment { text: String::from_str("\", line "), tone: Tone::Plain });
        out.push(Segment { text: num, tone: Tone::Yellow });
        out.push(Segment { text: String::from_str(", in "), tone: Tone::Plain });
    }
    out.push(Segment { text: name, tone: name_tone });
    out.push(Segment { text: String::from_str("\n"), tone: Tone::Plain });
    let show_snippet = match (s.verbosity, f.lineno, &f.filename, snippet) {
        (Verbosity::Full, Option::Some(_), Option::Some(_), Option::Some(_)) => true,
        _ => false,
    };
    if show_snippet {
        if let Option::Some(raw) = snippet {
            out.push(Segment { text: String::from_str("    "), tone: Tone::Plain });
            out.push(Segment { text: text::str_trim(raw.as_str()), tone: Tone::Dim });
            out.push(Segment { text: String::from_str("\n"), tone: Tone::Plain });
        }
    }
    assert(segs_view(out@) =~= spec_frame_segments(f@, opt_view(*snippet), s@));
    out
}

/// The header line of the backtrace block, stating the display order.
pub open spec fn spec_backtrace_header(most_recent_first: bool) -> Seq<char> {
    if most_recent_first {
        "Backtrace (most recent call first):"@
    } else {
        "Backtrace (most recent call last):"@
    }
}

/// The elements `lo..hi` of `s`, in that order when `most_recent_first`
/// holds and reversed otherwise.
pub open spec fn displayed<A>(s: Seq<A>, lo: int, hi: int, most_recent_first: bool) -> Seq<A> {
    if most_recent_first {
        s.subrange(lo, hi)
    } else {
        s.subrange(lo, hi).reverse()
    }
}

/// The segments of the first `k` displayed frames, in display order.
pub open spec fn spec_frames_chunk(
    disp: Seq<FrameView>,
    dsnips: Seq<Option<Seq<char>>>,
    s: SettingsView,
    k: int,
) -> Seq<SegmentView>
    decreases k,
{
    if k <= 0 {
        Seq::empty()
    } else {
        spec_frames_chunk(disp, dsnips, s, k - 1) + spec_frame_segments(
            disp[k - 1],
            dsnips[k - 1],
            s,
        )
    }
}

/// The backtrace block: its order-stating header first; at `Minimal`
/// verbosity the omission notice and nothing further; otherwise the
/// snippet notice at `Medium`, then every windowed frame in display order.
pub open spec fn spec_backtrace_segments(
    frames: Seq<FrameView>,
    snips: Seq<Option<Seq<char>>>,
    s: SettingsView,
) -> Seq<SegmentView> {
    let w = spec_window(frames);
    let disp = displayed(frames, w.0, w.1, s.most_recent_first);
    let dsnips = displayed(snips, w.0, w.1, s.most_recent_first);
    seq![
        seg(Tone::Bold, spec_backtrace_header(s.most_recent_first)),
        seg(Tone::Plain, "\n"@),
    ] + (if s.verbosity == Verbosity::Minimal {
        seq![
            seg(Tone::Plain, "Backtrace omitted. Run with RUST_BACKTRACE=1 to display it.\n"@),
        ]
    } else {
        (if s.verbosity == Verbosity::Medium {
            seq![
                seg(Tone::Plain, "Run with RUST_BACKTRACE=full to include source snippets.\n"@),
            ]
        } else {
            Seq::<SegmentView>::empty()
        }) + spec_frames_chunk(disp, dsnips, s, disp.len() as int)
    })
}

/// Renders the backtrace block, as `spec_backtrace_segments` describes.
/// `snippets` carries, for each frame of `frames`, the raw source line an
/// embedding read for it, if any.
pub fn render_backtrace(
    frames: &Vec<Frame>,
    snippets: &Vec<Option<String>>,
    s: &Settings,
) -> (out: Vec<Segment>)
    requires
        snippets@.len() == frames@.len(),
    ensures
        segs_view(out@) == spec_backtrace_segments(frames_view(frames@), opts_view(snippets@), s@),
{
    let ghost fv = frames_view(frames@);
    let ghost sv = opts_view(snippets@);
    let mut out: Vec<Segment> = Vec::new();
    if s.most_recent_first {
        out.push(
            Segment {
                text: String::from_str("Backtrace (most recent call first):"),
                tone: Tone::Bold,
            },
        );
    } else {
        out.push(
            Segment {
                text: String::from_str("Backtrace (most recent call last):"),
                tone: Tone::Bold,
            },
        );
    }
    out.push(Segment { text: String::from_str("\n"), tone: Tone::Plain });
    if s.verbosity == Verbosity::Minimal {
        out.push(
            Segment {
                text: String::from_str(
                    "Backtrace omitted. Run with RUST_BACKTRACE=1 to display it.\n",
                ),
                tone: Tone::Plain,
            },
        );
        assert(segs_view(out@) =~= spec_backtrace_segments(fv, sv, s@));
        return out;
    }
    if s.verbosity == Verbosity::Medium {
        out.push(
            Segment {
                text: String::from_str(
                    "Run with RUST_BACKTRACE=full to include source snippets.\n",
                ),
                tone: Tone::Plain,
            },
        );
    }
    let (lo, hi) = compute_window(frames);
    let ghost disp = displayed(fv, lo as int, hi as int, s@.most_recent_first);
    let ghost dsnips = displayed(sv, lo as int, hi as int, s@.most_recent_first);
    let ghost prefix = segs_view(out@);
    assert(segs_view(out@) =~= prefix + spec_frames_chunk(disp, dsnips, s@, 0));
    let count = hi - lo;
    let mut k: usize = 0;
    while k < count
        invariant
            count == hi - lo,
            lo <= hi,
            hi <= frames@.len(),
            snippets@.len() == frames@.len(),
            k <= count,
            fv == frames_view(frames@),
            sv == opts_view(snippets@),
            (lo as int, hi as int) == spec_window(fv),
            disp == displayed(fv, lo as int, hi as int, s@.most_recent_first),
            dsnips == displayed(sv, lo as int, hi as int, s@.most_recent_first),
            segs_view(out@) == prefix + spec_frames_chunk(disp, dsnips, s@, k as int),
        decreases count - k,
    {
        let idx = if s.most_recent_first {
            lo + k
        } else {
            hi - 1 - k
        };
        proof {
            assert(disp[k as int] == fv[idx as int]);
            assert(dsnips[k as int] == sv[idx as int]);
            assert(fv[idx as int] == frames@[idx as int]@);
            assert(sv[idx as int] == opt_view(snippets@[idx as int]));
        }
        let mut fsegs = render_frame(&frames[idx], &snippets[idx], s);
        let ghost pre = segs_view(out@);
        let ghost fsegs_v = segs_view(fsegs@);
        out.append(&mut fsegs);
        proof {
            assert(segs_view(out@) =~= pre + fsegs_v);
            assert(segs_view(out@) =~= prefix + spec_frames_chunk(disp, dsnips, s@, k + 1));
        }
        k += 1;
    }
    assert(segs_view(out@) =~= spec_backtrace_segments(fv, sv, s@));
    out
}

/// The segments of the first `k` payload lines: each line indented and
/// toned.
pub open spec fn spec_payload_chunk(lines: Seq<Seq<char>>, k: int) -> Seq<SegmentView>
    decreases k,
{
    if k <= 0 {
        Seq::empty()
    } else {
        spec_payload_chunk(lines, k - 1) + seq![
            seg(Tone::Plain, "  "@),
            seg(Tone::Yellow, lines[k - 1]),
            seg(Tone::Plain, "\n"@),
        ]
    }
}

/// The view of an optional location.
pub open spec fn opt_loc_view(o: Option<Location>) -> Option<LocationView> {
    match o {
        Option::Some(l) => Option::Some(l@),
        Option::None => Option::None,
    }
}

/// The segments naming the panic's origin: the trimmed file and the line
/// number in the configured style, or a placeholder when the runtime
/// provided no location.
pub open spec fn spec_location_segments(
    location: Option<LocationView>,
    s: SettingsView,
) -> Seq<SegmentView> {
    match location {
        Option::Some(loc) => if s.lineno_suffix {
            seq![
                seg(Tone::Underlined, spec_trim_filename(loc.file)),
                seg(Tone::Plain, ":"@),
                seg(Tone::Yellow, dec_string(loc.line as int)),
                seg(Tone::Plain, "\n"@),
            ]
        } else {
            seq![
                seg(Tone::Underlined, spec_trim_filename(loc.file)),
                seg(Tone::Plain, ", line "@),
                seg(Tone::Yellow, dec_string(loc.line as int)),
                seg(Tone::Plain, "\n"@),
            ]
        },
        Option::None => seq![seg(Tone::Plain, "<unknown>\n"@)],
    }
}

/// The displayed thread name, with a placeholder for an unnamed thread.
pub open spec fn spec_thread_name(thread_name: Option<Seq<char>>) -> Seq<char> {
    match thread_name {
        Option::Some(t) => t,
        Option::None => "<unnamed>"@,
    }
}

/// The panic-info block: the greeting, each payload line, the origin
/// location and the thread name.
pub open spec fn spec_panic_info_segments(
    payload: Seq<char>,
    location: Option<LocationView>,
    thread_name: Option<Seq<char>>,
    s: SettingsView,
) -> Seq<SegmentView> {
    let lines = text::spec_lines(payload);
    seq![seg(Tone::Bold, s.message), seg(Tone::Plain, "\n"@)] + spec_payload_chunk(
        lines,
        lines.len() as int,
    ) + seq![seg(Tone::Plain, "in "@)] + spec_location_segments(location, s) + seq![
        seg(Tone::Plain, "thread: "@),
        seg(Tone::Yellow, spec_thread_name(thread_name)),
        seg(Tone::Plain, "\n"@),
    ]
}

/// Renders the panic-info block, as `spec_panic_info_segments` describes.
pub fn render_panic_info(
    payload: &str,
    location: &Option<Location>,
    thread_name: &Option<String>,
    s: &Settings,
) -> (out: Vec<Segment>)
    ensures
        segs_view(out@) == spec_panic_info_segments(
            payload@,
            opt_loc_view(*location),
            opt_view(*thread_name),
            s@,
        ),
{
    let mut out: Vec<Segment> = Vec::new();
    out.push(Segment { text: s.message.clone(), tone: Tone::Bold });
    out.push(Segment { text: String::from_str("\n"), tone: Tone::Plain });
    let ghost head = seq![seg(Tone::Bold, s@.message), seg(Tone::Plain, "\n"@)];
    let lines = text::split_lines(payload);
    let ghost linesv = text::strings_view(lines@);
    assert(segs_view(out@) =~= head + spec_payload_chunk(linesv, 0));
    let mut k: usize = 0;
    while k < lines.len()
        invariant
            k <= lines@.len(),
            linesv == text::strings_view(lines@),
            head == seq![seg(Tone::Bold, s@.message), seg(Tone::Plain, "\n"@)],
            segs_view(out@) == head + spec_payload_chunk(linesv, k as int),
        decreases lines@.len() - k,
    {
        assert(linesv[k as int] == lines@[k as int]@);
        let ghost pre = segs_view(out@);
        let ghost piece = seq![
            seg(Tone::Plain, "  "@),
            seg(Tone::Yellow, linesv[k as int]),
            seg(Tone::Plain, "\n"@),
        ];
        out.push(Segment { text: String::from_str("  "), tone: Tone::Plain });
        out.push(Segment { text: lines[k].clone(), tone: Tone::Yellow });
        out.push(Segment { text: String::from_str("\n"), tone: Tone::Plain });
        proof {
            assert(segs_view(out@) =~~= pre + piece);
            assert(spec_payload_chunk(linesv, k + 1) == spec_payload_chunk(linesv, k as int)
                + piece);
            assert(segs_view(out@) =~~= head + spec_payload_chunk(linesv, k + 1));
        }
        k += 1;
    }
    assert(linesv.len() == lines@.len());
    let ghost mid = head + spec_payload_chunk(linesv, linesv.len() as int);
    out.push(Segment { text: String::from_str("in "), tone: Tone::Plain });
    match location {
        Option::Some(loc) => {
            out.push(Segment { text: trim_filename(loc.file.as_str()), tone: Tone::Underlined });
            if s.lineno_suffix {
                out.push(Segment { text: String::from_str(":"), tone: Tone::Plain });
            } else {
                out.push(Segment { text: String::from_str(", line "), tone: Tone::Plain });
            }
            out.push(Segment { text: text::u32_to_string(loc.line), tone: Tone::Yellow });
            out.push(Segment { text: String::from_str("\n"), tone: Tone::Plain });
        },
        Option::None => {
            out.push(Segment { text: String::from_str("<unknown>\n"), tone: Tone::Plain });
        },
    }
    assert(segs_view(out@) =~= mid + seq![seg(Tone::Plain, "in "@)] + spec_location_segments(
        opt_loc_view(*location),
        s@,
    ));
    out.push(Segment { text: String::from_str("thread: "), tone: Tone::Plain });
    match thread_name {
        Option::Some(t) => {
            out.push(Segment { text: t.clone(), tone: Tone::Yellow });
        },
        Option::None => {
            out.push(Segment { text: String::from_str("<unnamed>"), tone: Tone::Yellow });
        },
    }
    out.push(Segment { text: String::from_str("\n"), tone: Tone::Plain });
    assert(segs_view(out@) =~= spec_panic_info_segments(
        payload@,
        opt_loc_view(*location),
        opt_view(*thread_name),
        s@,
    ));
    out
}

/// The text a report shows for the panic payload: the payload itself when
/// the event carried one recognizable as text, and a fixed placeholder
/// otherwise.
pub open spec fn spec_payload_text(payload: Option<Seq<char>>) -> Seq<char> {
    match payload {
        Option::Some(p) => p,
        Option::None => "Box<Any>"@,
    }
}

/// The payload text a report shows: the payload itself when the event
/// carried one recognizable as text, and a fixed placeholder otherwise.
pub fn payload_text<'a>(payload: Option<&'a str>) -> (r: &'a str)
    ensures
        r@ == spec_payload_text(text::opt_str_view(payload)),
{
    match payload {
        Option::Some(p) => p,
        Option::None => "Box<Any>",
    }
}

/// The whole report: the backtrace block and the panic-info block separated
/// by a blank line, in the order `backtrace_first` selects.  Each block's
/// internal structure is the same in both orders.
pub open spec fn spec_report_segments(
    s: SettingsView,
    payload: Seq<char>,
    location: Option<LocationView>,
    thread_name: Option<Seq<char>>,
    frames: Seq<FrameView>,
    snips: Seq<Option<Seq<char>>>,
) -> Seq<SegmentView> {
    if s.backtrace_first {
        spec_backtrace_segments(frames, snips, s) + seq![seg(Tone::Plain, "\n"@)]
            + spec_panic_info_segments(payload, location, thread_name, s)
    } else {
        spec_panic_info_segments(payload, location, thread_name, s) + seq![
            seg(Tone::Plain, "\n"@),
        ] + spec_backtrace_segments(frames, snips, s)
    }
}

/// Renders the whole report for one panic event, as `spec_report_segments`
/// describes.  `payload` is the panic's message, `location` its origin if
/// known, `thread_name` the name of the thread it was raised on if any;
/// `snippets` carries, for each frame, the raw source line an embedding
/// read for it, if any.
pub fn render_report(
    s: &Settings,
    payload: &str,
    location: &Option<Location>,
    thread_name: &Option<String>,
    frames: &Vec<Frame>,
    snippets: &Vec<Option<String>>,
) -> (out: Vec<Segment>)
    requires
        snippets@.len() == frames@.len(),
    ensures
        segs_view(out@) == spec_report_segments(
            s@,
            payload@,
            opt_loc_view(*location),
            opt_view(*thread_name),
            frames_view(frames@),
            opts_view(snippets@),
        ),
{
    let mut out: Vec<Segment> = Vec::new();
    if s.backtrace_first {
        let mut bt = render_backtrace(frames, snippets, s);
        let ghost btv = segs_view(bt@);
        out.append(&mut bt);
        out.push(Segment { text: String::from_str("\n"), tone: Tone::Plain });
        let mut pi = render_panic_info(payload, location, thread_name, s);
        let ghost pre = segs_view(out@);
        let ghost piv = segs_view(pi@);
        out.append(&mut pi);
        assert(segs_view(out@) =~= pre + piv);
        assert(pre =~= btv + seq![seg(Tone::Plain, "\n"@)]);
    } else {
        let mut pi = render_panic_info(payload, location, thread_name, s);
        let ghost piv = segs_view(pi@);
        out.append(&mut pi);
        out.push(Segment { text: String::from_str("\n"), tone: Tone::Plain });
        let mut bt = render_backtrace(frames, snippets, s);
        let ghost pre = segs_view(out@);
        let ghost btv = segs_view(bt@);
        out.append(&mut bt);
        assert(segs_view(out@) =~= pre + btv);
        assert(pre =~= piv + seq![seg(Tone::Plain, "\n"@)]);
    }
    assert(segs_view(out@) =~= spec_report_segments(
        s@,
        payload@,
        opt_loc_view(*location),
        opt_view(*thread_name),
        frames_view(frames@),
        opts_view(snippets@),
    ));
    out
}

/// Flattens a rendered report to its plain text, without tones.
pub fn segments_to_string(segs: &Vec<Segment>) -> (r: String)
    ensures
        r@ == segs_text(segs_view(segs@)),
{
    let mut r = String::new();
    let mut i: usize = 0;
    while i < segs.len()
        invariant
            i <= segs@.len(),
            r@ == segs_text(segs_view(segs@).subrange(0, i as int)),
        decreases segs@.len() - i,
    {
        r.append(segs[i].text.as_str());
        proof {
            let sv = segs_view(segs@);
            assert(sv.subrange(0, i + 1).drop_last() =~= sv.subrange(0, i as int));
            assert(sv.subrange(0, i + 1).last() == sv[i as int]);
        }
        i += 1;
    }
    proof {
        assert(segs_view(segs@).subrange(0, segs@.len() as int) =~= segs_view(segs@));
    }
    r
}

/// The frames the report displays: the windowed slice in its natural
/// innermost-first order when `most_recent_first` is set, and reversed
/// otherwise.
pub open spec fn displayed_window(
    frames: Seq<FrameView>,
    most_recent_first: bool,
) -> Seq<FrameView> {
    displayed(frames, spec_window(frames).0, spec_window(frames).1, most_recent_first)
}

/// The two display orders show the same frames: one order is exactly the
/// reverse of the other, and both hold the same multiset of frames.
pub proof fn lemma_display_order(frames: Seq<FrameView>)
    ensures
        displayed_window(frames, false) == displayed_window(frames, true).reverse(),
        displayed_window(frames, true).to_multiset() == displayed_window(
            frames,
            false,
        ).to_multiset(),
{
    let win = frames.subrange(spec_window(frames).0, spec_window(frames).1);
    win.lemma_reverse_to_multiset();
}

/// At `Full` verbosity a frame that knows its file and line, and for which
/// a source line was read, is followed by exactly that line, trimmed and
/// indented; when no source line is available the header stands alone,
/// unchanged.
pub proof fn lemma_full_snippet(f: FrameView, raw: Seq<char>, s: SettingsView)
    requires
        s.verbosity == Verbosity::Full,
        f.lineno is Some,
        f.filename is Some,
    ensures
        spec_frame_segments(f, Option::Some(raw), s) == spec_frame_segments(
            f,
            Option::None,
            s,
        ) + seq![
            seg(Tone::Plain, "    "@),
            seg(Tone::Dim, spec_trim(raw)),
            seg(Tone::Plain, "\n"@),
        ],
{
    assert(spec_frame_segments(f, Option::Some(raw), s) =~= spec_frame_segments(
        f,
        Option::None,
        s,
    ) + seq![
        seg(Tone::Plain, "    "@),
        seg(Tone::Dim, spec_trim(raw)),
        seg(Tone::Plain, "\n"@),
    ]);
}

/// Below `Full` verbosity a frame's segments never depend on any source
/// line that may have been read for it.
pub proof fn lemma_no_snippet_below_full(
    f: FrameView,
    snippet: Option<Seq<char>>,
    s: SettingsView,
)
    requires
        s.verbosity != Verbosity::Full,
    ensures
        spec_frame_segments(f, snippet, s) == spec_frame_segments(f, Option::None, s),
{
    assert(spec_frame_segments(f, snippet, s) =~= spec_frame_segments(f, Option::None, s));
}

/// At `Minimal` verbosity the backtrace block is independent of the
/// frames: it is exactly the order-stating header followed by the omission
/// notice, nothing further, and no per-frame line is ever included.
pub proof fn lemma_minimal_omits_backtrace(
    s: SettingsView,
    frames1: Seq<FrameView>,
    snips1: Seq<Option<Seq<char>>>,
    frames2: Seq<FrameView>,
    snips2: Seq<Option<Seq<char>>>,
)
    requires
        s.verbosity == Verbosity::Minimal,
    ensures
        spec_backtrace_segments(frames1, snips1, s) == spec_backtrace_segments(
            frames2,
            snips2,
            s,
        ),
        segs_text(spec_backtrace_segments(frames1, snips1, s)) == spec_backtrace_header(
            s.most_recent_first,
        ) + "\n"@ + "Backtrace omitted. Run with RUST_BACKTRACE=1 to display it.\n"@,
{
    let block = seq![
        seg(Tone::Bold, spec_backtrace_header(s.most_recent_first)),
        seg(Tone::Plain, "\n"@),
        seg(Tone::Plain, "Backtrace omitted. Run with RUST_BACKTRACE=1 to display it.\n"@),
    ];
    let header = spec_backtrace_header(s.most_recent_first);
    let notice = "Backtrace omitted. Run with RUST_BACKTRACE=1 to display it.\n"@;
    assert(spec_backtrace_segments(frames1, snips1, s) =~= block);
    assert(spec_backtrace_segments(frames2, snips2, s) =~= block);
    assert(block.drop_last().drop_last().drop_last() =~= Seq::<SegmentView>::empty());
    assert(segs_text(block.drop_last().drop_last().drop_last()) == Seq::<char>::empty());
    assert(segs_text(block.drop_last().drop_last()) =~= header);
    assert(segs_text(block.drop_last()) =~= header + "\n"@);
    assert(segs_text(block) =~= header + "\n"@ + notice);
}

} // verus!
