//! Target selection for a recording: scores the enumerated windows
//! against an optional hint, picks the best match, and falls back to
//! full-display capture when nothing qualifies.
//!
//! Enumerating windows and reading their titles is platform work done
//! outside the library; selection itself is a pure function of the
//! enumerated metadata and the hint.

use vstd::prelude::*;

use crate::errors::Error;
use crate::text::{
    lower_of, seq_has, spec_filtered_digits_u32, spec_rfind, spec_trim_end, spec_trimmed, str_has,
    to_lower,
};

verus! {

/// One enumerated top-level window, as the platform reports it to the
/// selector.
#[derive(Debug)]
pub struct CandidateWindow {
    /// Opaque platform handle, passed back in the chosen target.
    pub handle: u64,
    pub title: String,
    pub process_id: u32,
    pub width: i32,
    pub height: i32,
}

/// The capture source chosen for one recording: a single window, with its
/// title cached at selection time, or a whole display.
#[derive(Debug)]
pub enum CaptureTarget {
    Window { handle: u64, title: String },
    Display { handle: u64 },
}

/// The optional targeting hint read from configuration at recording
/// start: a title substring and/or a process id.
#[derive(Debug)]
pub struct TargetSelectionHint {
    pub title: Option<String>,
    pub pid: Option<u32>,
}

/// What parsing the raw configured hint yields: the title is trimmed and
/// a trailing `(PID: 123)` marker, when present, supplies the process id
/// unless one was configured explicitly; an empty title is no title.
pub open spec fn spec_parse_target_hint(
    raw_title: Option<Seq<char>>,
    raw_pid: Option<u32>,
) -> (Option<Seq<char>>, Option<u32>) {
    match raw_title {
        None => (None, raw_pid),
        Some(s) => {
            let t = spec_trimmed(s);
            if t.len() == 0 {
                (None, raw_pid)
            } else {
                match spec_rfind(t, "(PID:"@) {
                Some(idx) => {
                    let head = t.subrange(0, idx);
                    let title = head.subrange(0, spec_trim_end(head));
                    let pid = if raw_pid is Some {
                        raw_pid
                    } else {
                        spec_filtered_digits_u32(t.subrange(idx + 5, t.len() as int))
                    };
                    (
                        if title.len() == 0 {
                            None
                        } else {
                            Some(title)
                        },
                        pid,
                    )
                },
                    None => (Some(t), raw_pid),
                }
            }
        },
    }
}

/// Builds the selection hint from the raw configured title and process
/// id, splitting a trailing `(PID: 123)` marker off the title.
pub fn parse_target_hint(raw_title: Option<&str>, raw_pid: Option<u32>) -> (r: TargetSelectionHint)
    ensures
        ({
            let sp = spec_parse_target_hint(
                match raw_title {
                    Some(s) => Some(s@),
                    None => None,
                },
                raw_pid,
            );
            &&& (match (r.title, sp.0) {
                (Some(t), Some(ts)) => t@ == ts,
                (None, None) => true,
                _ => false,
            })
            &&& r.pid == sp.1
        }),
{
    match raw_title {
        None => TargetSelectionHint { title: None, pid: raw_pid },
        Some(raw) => {
            let (title, found_pid) = crate::detector::parse_identifier(raw);
            let pid = match raw_pid {
                Some(p) => Some(p),
                None => found_pid,
            };
            if title.as_str().unicode_len() == 0 {
                TargetSelectionHint { title: None, pid }
            } else {
                TargetSelectionHint { title: Some(title), pid }
            }
        },
    }
}

/// Whether the lowered title mentions one of the game keywords.
pub open spec fn spec_title_keyword_match(title: Seq<char>) -> bool {
    let lower = lower_of(title);
    seq_has(lower, "slippi"@) || seq_has(lower, "dolphin"@) || seq_has(lower, "melee"@)
}

/// The score a window receives against an optional title hint.
pub open spec fn spec_score_window(w: CandidateWindow, hint: Option<Seq<char>>) -> int {
    let lower = lower_of(w.title@);
    (if hint matches Some(h) && seq_has(lower, lower_of(h)) {
        100int
    } else {
        0int
    }) + (if seq_has(lower, "slippi"@) {
        50int
    } else {
        0int
    }) + (if seq_has(lower, "dolphin"@) {
        30int
    } else {
        0int
    }) + (if seq_has(lower, "melee"@) {
        40int
    } else {
        0int
    }) + (if seq_has(lower, "faster"@) {
        20int
    } else {
        0int
    }) + (if seq_has(lower, "discord"@) || seq_has(lower, "chrome"@) || seq_has(lower, "firefox"@) {
        -50int
    } else {
        0int
    }) + (if (w.width as int) * (w.height as int) > 480000 {
        10int
    } else {
        0int
    })
}

/// Scores one window against an optional title hint: a hint match
/// dominates, known-good keywords add, known noise subtracts, and a
/// large-enough area adds a little.
pub fn score_window(w: &CandidateWindow, hint: Option<&str>) -> (r: i32)
    ensures
        r == spec_score_window(
            *w,
            match hint {
                Some(h) => Some(h@),
                None => None,
            },
        ),
{
    let mut score: i32 = 0;
    let lower = to_lower(w.title.as_str());

    match hint {
        Some(h) => {
            let h_lower = to_lower(h);
            if str_has(lower.as_str(), h_lower.as_str()) {
                score = score + 100;
            }
        },
        None => {},
    }
    if str_has(lower.as_str(), "slippi") {
        score = score + 50;
    }
    if str_has(lower.as_str(), "dolphin") {
        score = score + 30;
    }
    if str_has(lower.as_str(), "melee") {
        score = score + 40;
    }
    if str_has(lower.as_str(), "faster") {
        score = score + 20;
    }
    if str_has(lower.as_str(), "discord") || str_has(lower.as_str(), "chrome") || str_has(
        lower.as_str(),
        "firefox",
    ) {
        score = score - 50;
    }
    proof {
        assert((-0x4000_0000_0000_0000) <= (w.width as int) * (w.height as int)
            <= 0x4000_0000_0000_0000) by (nonlinear_arith)
            requires
                (-0x8000_0000) <= w.width as int <= 0x7fff_ffff,
                (-0x8000_0000) <= w.height as int <= 0x7fff_ffff,
        ;
    }
    let area = (w.width as i64) * (w.height as i64);
    if area > 480000 {
        score = score + 10;
    }
    score
}

/// Whether the window passes the hint filter: a title hint must occur in
/// the lowered title; a process-id-only hint must match the process; with
/// no hint the built-in keywords decide.
pub open spec fn spec_passes_filter(w: CandidateWindow, hint: TargetSelectionHint) -> bool {
    match hint.title {
        Some(h) => seq_has(lower_of(w.title@), lower_of(h@)),
        None => match hint.pid {
            Some(p) => w.process_id == p,
            None => spec_title_keyword_match(w.title@),
        },
    }
}

/// The title the surviving candidates are scored against: the hint's
/// title when one is given, else the primary keyword.
pub open spec fn spec_scoring_hint(hint: TargetSelectionHint) -> Option<Seq<char>> {
    match hint.title {
        Some(h) => Some(h@),
        None => match hint.pid {
            Some(_) => None,
            None => Some("slippi"@),
        },
    }
}

/// The score of `ws[i]` under the hint's scoring title.
pub open spec fn spec_hint_score(ws: Seq<CandidateWindow>, hint: TargetSelectionHint, i: int) -> int {
    spec_score_window(ws[i], spec_scoring_hint(hint))
}

/// The index of the window `find_target` picks: the first of the passing
/// windows whose score no other passing window exceeds.
pub open spec fn spec_best_index(ws: Seq<CandidateWindow>, hint: TargetSelectionHint) -> int {
    choose|i: int|
        {
            &&& 0 <= i < ws.len()
            &&& #[trigger] spec_passes_filter(ws[i], hint)
            &&& forall|j: int|
                0 <= j < ws.len() && #[trigger] spec_passes_filter(ws[j], hint) ==> spec_hint_score(
                    ws,
                    hint,
                    j,
                ) <= spec_hint_score(ws, hint, i)
            &&& forall|j: int|
                0 <= j < i && #[trigger] spec_passes_filter(ws[j], hint) ==> spec_hint_score(
                    ws,
                    hint,
                    j,
                ) < spec_hint_score(ws, hint, i)
        }
}

/// Picks the capture target: among the enumerated windows that pass the
/// hint filter, the first highest-scoring one; with no survivor, the
/// primary display. An empty enumeration is fatal.
pub fn find_target(
    hint: &TargetSelectionHint,
    windows: &Vec<CandidateWindow>,
    display_handle: u64,
) -> (r: Result<CaptureTarget, Error>)
    ensures
        windows@.len() == 0 ==> r matches Err(Error::TargetEnumerationFailed),
        windows@.len() > 0 && (exists|i: int|
            0 <= i < windows@.len() && #[trigger] spec_passes_filter(windows@[i], *hint)) ==> (
        r matches Ok(t) && (t matches CaptureTarget::Window { handle, title } && ({
            let b = spec_best_index(windows@, *hint);
            handle == windows@[b].handle && title@ == windows@[b].title@
        }))),
        windows@.len() > 0 && !(exists|i: int|
            0 <= i < windows@.len() && #[trigger] spec_passes_filter(windows@[i], *hint)) ==> (
        r matches Ok(t) && t matches CaptureTarget::Display { handle } && handle == display_handle),
{
    if windows.len() == 0 {
        return Err(Error::TargetEnumerationFailed);
    }
    let scoring_title: Option<&str> = match &hint.title {
        Some(h) => Some(h.as_str()),
        None => match hint.pid {
            Some(_) => None,
            None => Some("slippi"),
        },
    };
    let mut best: Option<usize> = None;
    let mut best_score: i32 = 0;
    let mut i: usize = 0;
    while i < windows.len()
        invariant
            i <= windows@.len(),
            (match scoring_title {
                Some(h) => Some(h@),
                None => None,
            }) == spec_scoring_hint(*hint),
            match best {
                None => forall|j: int|
                    0 <= j < i ==> !#[trigger] spec_passes_filter(windows@[j], *hint),
                Some(b) => {
                    &&& 0 <= b < i
                    &&& spec_passes_filter(windows@[b as int], *hint)
                    &&& best_score == spec_hint_score(windows@, *hint, b as int)
                    &&& forall|j: int|
                        0 <= j < i && #[trigger] spec_passes_filter(windows@[j], *hint)
                            ==> spec_hint_score(windows@, *hint, j) <= best_score
                    &&& forall|j: int|
                        0 <= j < b && #[trigger] spec_passes_filter(windows@[j], *hint)
                            ==> spec_hint_score(windows@, *hint, j) < best_score
                },
            },
        decreases windows@.len() - i,
    {
        let w = &windows[i];
        let passes: bool = match &hint.title {
            Some(h) => {
                let lower = to_lower(w.title.as_str());
                let h_lower = to_lower(h.as_str());
                str_has(lower.as_str(), h_lower.as_str())
            },
            None => match hint.pid {
                Some(p) => w.process_id == p,
                None => {
                    let lower = to_lower(w.title.as_str());
                    str_has(lower.as_str(), "slippi") || str_has(lower.as_str(), "dolphin")
                        || str_has(lower.as_str(), "melee")
                },
            },
        };
        if passes {
            let s = score_window(w, scoring_title);
            match best {
                None => {
                    best = Some(i);
                    best_score = s;
                },
                Some(_) => {
                    if s > best_score {
                        best = Some(i);
                        best_score = s;
                    }
                },
            }
        }
        i = i + 1;
    }
    match best {
        None => Ok(CaptureTarget::Display { handle: display_handle }),
        Some(b) => {
            proof {
                let w = spec_best_index(windows@, *hint);
                assert(spec_passes_filter(windows@[b as int], *hint) && forall|j: int|
                    0 <= j < windows@.len() && #[trigger] spec_passes_filter(windows@[j], *hint)
                        ==> spec_hint_score(windows@, *hint, j) <= spec_hint_score(
                        windows@,
                        *hint,
                        b as int,
                    ));
                if w != b as int {
                    assert(spec_passes_filter(windows@[w], *hint));
                    assert(spec_passes_filter(windows@[b as int], *hint));
                }
            }
            let chosen = &windows[b];
            Ok(
                CaptureTarget::Window {
                    handle: chosen.handle,
                    title: chosen.title.clone(),
                },
            )
        },
    }
}

/// The capture size used for a selected window: the reported extent,
/// lifted to at least 640x480 so a degenerate rectangle never reaches the
/// encoder.
pub fn clamp_capture_size(width: i32, height: i32) -> (r: (u32, u32))
    ensures
        r.0 == (if width < 640 {
            640int
        } else {
            width as int
        }),
        r.1 == (if height < 480 {
            480int
        } else {
            height as int
        }),
{
    let w: u32 = if width < 640 {
        640
    } else {
        width as u32
    };
    let h: u32 = if height < 480 {
        480
    } else {
        height as u32
    };
    (w, h)
}

/// Whether the window matches the parsed identifier: the process id must
/// match when one is demanded, and the title must contain the needle
/// (an empty needle matches any titled window; an untitled window never
/// matches).
pub open spec fn spec_handle_match(w: CandidateWindow, needle: Seq<char>, pid: Option<
    u32,
>) -> bool {
    &&& (pid matches Some(p) ==> w.process_id == p)
    &&& w.title@.len() > 0
    &&& (needle.len() > 0 ==> seq_has(lower_of(w.title@), needle))
}

/// The first window matching the lowered needle and the process-id
/// demand, if any.
pub open spec fn spec_first_handle_match(
    ws: Seq<CandidateWindow>,
    needle: Seq<char>,
    pid: Option<u32>,
) -> Option<int> {
    if exists|i: int| 0 <= i < ws.len() && spec_handle_match(#[trigger] ws[i], needle, pid) {
        Some(
            choose|i: int|
                0 <= i < ws.len() && spec_handle_match(#[trigger] ws[i], needle, pid) && forall|
                    j: int,
                |
                    0 <= j < i ==> !spec_handle_match(#[trigger] ws[j], needle, pid),
        )
    } else {
        None
    }
}

/// The first window matching the needle and the process-id demand.
fn first_handle_match(windows: &Vec<CandidateWindow>, needle: &str, pid: Option<u32>) -> (r:
    Option<usize>)
    ensures
        match r {
            Some(i) => i < windows@.len() && Some(i as int) == spec_first_handle_match(
                windows@,
                needle@,
                pid,
            ),
            None => spec_first_handle_match(windows@, needle@, pid) is None,
        },
{
    let needle_len = needle.unicode_len();
    let mut i: usize = 0;
    while i < windows.len()
        invariant
            i <= windows@.len(),
            needle_len == needle@.len(),
            forall|j: int|
                0 <= j < i ==> !spec_handle_match(#[trigger] windows@[j], needle@, pid),
        decreases windows@.len() - i,
    {
        let w = &windows[i];
        let pid_ok = match pid {
            Some(p) => w.process_id == p,
            None => true,
        };
        let titled = w.title.as_str().unicode_len() > 0;
        let title_ok = if needle_len == 0 {
            true
        } else {
            let lower = to_lower(w.title.as_str());
            str_has(lower.as_str(), needle)
        };
        if pid_ok && titled && title_ok {
            proof {
                assert(spec_handle_match(windows@[i as int], needle@, pid));
                let k = choose|k: int|
                    0 <= k < windows@.len() && spec_handle_match(#[trigger] windows@[k], needle@, pid)
                        && forall|j: int|
                        0 <= j < k ==> !spec_handle_match(#[trigger] windows@[j], needle@, pid);
                if k != i as int {
                    assert(spec_handle_match(windows@[k], needle@, pid));
                }
            }
            return Some(i);
        }
        i = i + 1;
    }
    None
}

/// Finds the window a preview identifier names: first by title and
/// process id together, and, when the process id finds nothing, once
/// more by title alone. An identifier with neither title nor process id
/// names nothing. The first enumerated match wins.
pub fn find_window_handle(identifier: &str, windows: &Vec<CandidateWindow>) -> (r: Option<u64>)
    ensures
        ({
            let parsed = crate::detector::spec_parse_identifier(identifier@);
            let needle = lower_of(parsed.0);
            if parsed.0.len() == 0 && parsed.1 is None {
                r is None
            } else {
                match spec_first_handle_match(windows@, needle, parsed.1) {
                    Some(i) => r == Some(windows@[i].handle),
                    None => match parsed.1 {
                        Some(_) => match spec_first_handle_match(windows@, needle, None) {
                            Some(i) => r == Some(windows@[i].handle),
                            None => r is None,
                        },
                        None => r is None,
                    },
                }
            }
        }),
{
    let (title, pid) = crate::detector::parse_identifier(identifier);
    if title.as_str().unicode_len() == 0 && pid.is_none() {
        return None;
    }
    let needle = to_lower(title.as_str());
    match first_handle_match(windows, needle.as_str(), pid) {
        Some(i) => Some(windows[i].handle),
        None => {
            match pid {
                Some(_) => match first_handle_match(windows, needle.as_str(), None) {
                    Some(i) => Some(windows[i].handle),
                    None => None,
                },
                None => None,
            }
        },
    }
}

/// A hint that matches exactly one enumerated window selects that window,
/// whatever the keyword scores of the others: it is the only window that
/// passes the filter, so it is the first best match.
pub proof fn lemma_unique_hint_match_selected(
    ws: Seq<CandidateWindow>,
    hint: TargetSelectionHint,
    i: int,
)
    requires
        0 <= i < ws.len(),
        spec_passes_filter(ws[i], hint),
        forall|j: int| 0 <= j < ws.len() && j != i ==> !#[trigger] spec_passes_filter(ws[j], hint),
    ensures
        spec_best_index(ws, hint) == i,
{
    let w = spec_best_index(ws, hint);
    assert(spec_passes_filter(ws[i], hint) && (forall|j: int|
        0 <= j < ws.len() && #[trigger] spec_passes_filter(ws[j], hint) ==> spec_hint_score(
            ws,
            hint,
            j,
        ) <= spec_hint_score(ws, hint, i)) && (forall|j: int|
        0 <= j < i && #[trigger] spec_passes_filter(ws[j], hint) ==> spec_hint_score(ws, hint, j)
            < spec_hint_score(ws, hint, i)));
    if w != i {
        assert(spec_passes_filter(ws[w], hint));
    }
}

/// With no hint at all and no keyword match among the windows, nothing
/// passes the filter, so the display fallback is selected.
pub proof fn lemma_no_match_means_fallback(ws: Seq<CandidateWindow>, hint: TargetSelectionHint)
    requires
        hint.title is None,
        hint.pid is None,
        forall|i: int| 0 <= i < ws.len() ==> !#[trigger] spec_title_keyword_match(ws[i].title@),
    ensures
        forall|i: int| 0 <= i < ws.len() ==> !#[trigger] spec_passes_filter(ws[i], hint),
{
}

} // verus!
