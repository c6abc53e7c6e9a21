//! Detection of candidate game windows: scoring heuristics over window
//! metadata, filtering and ranking of an enumerated window list, and
//! parsing of stored window identifiers.
//!
//! Enumerating the desktop's windows is platform work and happens outside
//! the library; everything here is a pure function of the metadata handed
//! in.

use vstd::prelude::*;

use crate::text::{
    chars_of, filtered_digits_u32, leading_digits_u32, lower_of, seq_has, seq_starts_with,
    skip_spaces, spec_filtered_digits_u32, spec_find, spec_leading_digits_u32, spec_rfind,
    spec_skip_spaces, spec_trim_end, spec_trimmed, str_has, str_starts_with, subrange_vec,
    to_lower, trim_end_index, trim_start_index, vec_find, vec_rfind,
};

verus! {

/// Metadata of one top-level window, as the platform enumeration reports
/// it.
#[derive(Debug)]
pub struct GameWindow {
    pub process_name: String,
    pub window_title: String,
    pub width: i32,
    pub height: i32,
    pub process_id: u32,
    pub class_name: String,
    pub is_cloaked: bool,
    pub is_child: bool,
    pub has_owner: bool,
}

impl Clone for GameWindow {
    fn clone(&self) -> (r: Self)
        ensures
            r == *self,
    {
        GameWindow {
            process_name: self.process_name.clone(),
            window_title: self.window_title.clone(),
            width: self.width,
            height: self.height,
            process_id: self.process_id,
            class_name: self.class_name.clone(),
            is_cloaked: self.is_cloaked,
            is_child: self.is_child,
            has_owner: self.has_owner,
        }
    }
}

/// Absolute value.
pub open spec fn spec_abs(x: int) -> int {
    if x < 0 {
        -x
    } else {
        x
    }
}

/// The window's shape is within 0.08 of 4:3 or of 16:9, measured exactly
/// in rationals (0.08 = 2/25).
pub open spec fn spec_aspect_near(w: int, h: int) -> bool {
    h > 0 && (spec_abs(75 * w - 100 * h) < 6 * h || spec_abs(225 * w - 400 * h) < 18 * h)
}

/// The score the window receives as a likely game render window.
pub open spec fn spec_score(w: GameWindow) -> int {
    let title = lower_of(w.window_title@);
    let class = lower_of(w.class_name@);
    (if seq_has(title, "slippi"@) || seq_has(title, "melee"@) || seq_has(title, "dolphin"@) {
        3int
    } else {
        0int
    }) + (if seq_has(title, "launcher"@) || seq_has(title, "settings"@) || seq_has(
        title,
        "configuration"@,
    ) {
        -3int
    } else {
        0int
    }) + (if w.width >= 640 && w.height >= 480 && !w.is_cloaked {
        3int
    } else {
        0int
    }) + (if spec_aspect_near(w.width as int, w.height as int) {
        2int
    } else {
        0int
    }) + (if seq_has(class, "dolphin"@) || seq_has(class, "wxwindownr"@) {
        3int
    } else {
        0int
    }) + (if seq_starts_with(class, "#32770"@) || seq_has(class, "tooltips"@) {
        -4int
    } else {
        0int
    })
}

/// The window's name, title or class mentions the game.
pub open spec fn spec_matches_game_keywords(w: GameWindow) -> bool {
    let pn = lower_of(w.process_name@);
    let tl = lower_of(w.window_title@);
    let cn = lower_of(w.class_name@);
    ||| seq_has(pn, "dolphin"@)
    ||| seq_has(pn, "slippi"@)
    ||| seq_has(pn, "melee"@)
    ||| seq_has(tl, "slippi"@)
    ||| seq_has(tl, "melee"@)
    ||| seq_has(tl, "dolphin"@)
    ||| seq_has(cn, "wxwindownr"@)
}

/// The window is large enough and visible.
pub open spec fn spec_is_valid_candidate(w: GameWindow) -> bool {
    w.width >= 640 && w.height >= 480 && !w.is_cloaked
}

impl GameWindow {
    /// Score this window as a likely game render window; higher is more
    /// likely. Keyword, size, shape and class heuristics each contribute.
    pub fn score(&self) -> (r: i32)
        ensures
            r == spec_score(*self),
    {
        let mut s: i32 = 0;
        let title = to_lower(self.window_title.as_str());
        let class = to_lower(self.class_name.as_str());

        if str_has(title.as_str(), "slippi") || str_has(title.as_str(), "melee") || str_has(
            title.as_str(),
            "dolphin",
        ) {
            s = s + 3;
        }
        if str_has(title.as_str(), "launcher") || str_has(title.as_str(), "settings") || str_has(
            title.as_str(),
            "configuration",
        ) {
            s = s - 3;
        }
        if self.width >= 640 && self.height >= 480 && !self.is_cloaked {
            s = s + 3;
        }
        if aspect_near(self.width, self.height) {
            s = s + 2;
        }
        if str_has(class.as_str(), "dolphin") || str_has(class.as_str(), "wxwindownr") {
            s = s + 3;
        }
        if str_starts_with(class.as_str(), "#32770") || str_has(class.as_str(), "tooltips") {
            s = s - 4;
        }
        s
    }

    /// Whether this window's process name, title or class mentions the
    /// game.
    pub fn matches_game_keywords(&self) -> (r: bool)
        ensures
            r == spec_matches_game_keywords(*self),
    {
        let pn = to_lower(self.process_name.as_str());
        let tl = to_lower(self.window_title.as_str());
        let cn = to_lower(self.class_name.as_str());
        str_has(pn.as_str(), "dolphin") || str_has(pn.as_str(), "slippi") || str_has(
            pn.as_str(),
            "melee",
        ) || str_has(tl.as_str(), "slippi") || str_has(tl.as_str(), "melee") || str_has(
            tl.as_str(),
            "dolphin",
        ) || str_has(cn.as_str(), "wxwindownr")
    }

    /// Whether this window is big enough to be the game and not hidden.
    pub fn is_valid_candidate(&self) -> (r: bool)
        ensures
            r == spec_is_valid_candidate(*self),
    {
        self.width >= 640 && self.height >= 480 && !self.is_cloaked
    }
}

/// Whether a window passes the stored-identifier filters: a process-id
/// filter must match the process, a title filter must occur in the
/// lowered title, and with neither the process name must mention the
/// game.
pub open spec fn spec_open_filter(w: GameWindow, pid_f: Option<u32>, title_f: Option<
    Seq<char>,
>) -> bool {
    &&& (pid_f matches Some(p) ==> w.process_id == p)
    &&& (title_f matches Some(t) ==> seq_has(lower_of(w.window_title@), t))
    &&& (pid_f is None && title_f is None ==> ({
        let pn = lower_of(w.process_name@);
        seq_has(pn, "dolphin"@) || seq_has(pn, "slippi"@) || seq_has(pn, "melee"@)
    }))
}

/// Whether the game window is currently open: some enumerated window
/// passes the stored-identifier filters and scores at least 4.
pub fn check_game_window_open(stored_id: Option<&str>, windows: &Vec<GameWindow>) -> (r: bool)
    ensures
        ({
            let sp = spec_parse_stored_identifier(
                match stored_id {
                    Some(s) => Some(s@),
                    None => None,
                },
            );
            r == exists|i: int|
                0 <= i < windows@.len() && spec_open_filter(#[trigger] windows@[i], sp.0, sp.1)
                    && spec_score(windows@[i]) >= 4
        }),
{
    let (pid_f, title_f) = parse_stored_identifier(stored_id);
    let ghost sp = spec_parse_stored_identifier(
        match stored_id {
            Some(s) => Some(s@),
            None => None,
        },
    );
    let mut i: usize = 0;
    while i < windows.len()
        invariant
            i <= windows@.len(),
            sp == spec_parse_stored_identifier(
                match stored_id {
                    Some(s) => Some(s@),
                    None => None,
                },
            ),
            pid_f == sp.0,
            (match (title_f, sp.1) {
                (Some(t), Some(ts)) => t@ == ts,
                (None, None) => true,
                _ => false,
            }),
            forall|k: int|
                0 <= k < i ==> !(spec_open_filter(#[trigger] windows@[k], sp.0, sp.1) && spec_score(
                    windows@[k],
                ) >= 4),
        decreases windows@.len() - i,
    {
        let w = &windows[i];
        let pid_ok = match pid_f {
            Some(p) => w.process_id == p,
            None => true,
        };
        let title_ok = match &title_f {
            Some(t) => {
                let lower = to_lower(w.window_title.as_str());
                str_has(lower.as_str(), t.as_str())
            },
            None => true,
        };
        let keyword_ok = if pid_f.is_none() && title_f.is_none() {
            let pn = to_lower(w.process_name.as_str());
            str_has(pn.as_str(), "dolphin") || str_has(pn.as_str(), "slippi") || str_has(
                pn.as_str(),
                "melee",
            )
        } else {
            true
        };
        if pid_ok && title_ok && keyword_ok && w.score() >= 4 {
            proof {
                assert(spec_open_filter(windows@[i as int], sp.0, sp.1));
                assert(exists|k: int|
                    0 <= k < windows@.len() && spec_open_filter(#[trigger] windows@[k], sp.0, sp.1)
                        && spec_score(windows@[k]) >= 4);
            }
            return true;
        }
        i = i + 1;
    }
    false
}

/// What parsing a stored window identifier yields: a process-id filter
/// when the identifier carries a `PID:` marker, else the whole identifier,
/// lowercased, as a title filter.
pub open spec fn spec_parse_stored_identifier(id: Option<Seq<char>>) -> (Option<u32>, Option<
    Seq<char>,
>) {
    match id {
        None => (None, None),
        Some(s) => match spec_find(s, "PID:"@) {
            Some(pos) => (spec_leading_digits_u32(s, spec_skip_spaces(s, pos + 4)), None),
            None => (None, Some(lower_of(s))),
        },
    }
}

/// Splits a stored window identifier into a process-id filter and a
/// lowercased title filter; an identifier with a `PID:` marker filters by
/// the number after the marker, any other identifier filters by title.
pub fn parse_stored_identifier(stored_id: Option<&str>) -> (r: (Option<u32>, Option<String>))
    ensures
        ({
            let sp = spec_parse_stored_identifier(
                match stored_id {
                    Some(s) => Some(s@),
                    None => None,
                },
            );
            &&& r.0 == sp.0
            &&& (match (r.1, sp.1) {
                (Some(t), Some(ts)) => t@ == ts,
                (None, None) => true,
                _ => false,
            })
        }),
{
    match stored_id {
        None => (None, None),
        Some(id) => {
            let v = chars_of(id);
            let n = v.len();
            let marker = chars_of("PID:");
            proof {
                reveal_strlit("PID:");
            }
            match vec_find(&v, &marker) {
                Some(pos) => {
                    proof {
                        assert(marker@.len() == 4);
                        assert(pos + 4 <= n);
                    }
                    let start = skip_spaces(&v, pos + 4);
                    (leading_digits_u32(&v, start), None)
                },
                None => {
                    proof {
                        reveal(crate::text::spec_find);
                    }
                    (None, Some(to_lower(id)))
                },
            }
        },
    }
}

/// What parsing a capture-preview identifier yields: the title part with a
/// trailing `(PID:...)` marker split off and read as a number.
pub open spec fn spec_parse_identifier(s: Seq<char>) -> (Seq<char>, Option<u32>) {
    let t = spec_trimmed(s);
    if t.len() == 0 {
        (Seq::empty(), None)
    } else {
        match spec_rfind(t, "(PID:"@) {
            Some(idx) => {
                let head = t.subrange(0, idx);
                (
                    head.subrange(0, spec_trim_end(head)),
                    spec_filtered_digits_u32(t.subrange(idx + 5, t.len() as int)),
                )
            },
            None => (t, None),
        }
    }
}

/// Splits an identifier of the form `Title (PID: 123)` into the title and
/// the process id; without the marker the whole trimmed identifier is the
/// title.
#[verifier::rlimit(30)]
pub fn parse_identifier(identifier: &str) -> (r: (String, Option<u32>))
    ensures
        r.0@ == spec_parse_identifier(identifier@).0,
        r.1 == spec_parse_identifier(identifier@).1,
{
    let v = chars_of(identifier);
    let lo = trim_start_index(&v);
    let hi = trim_end_index(&v);
    if lo >= hi {
        proof {
            assert(identifier@.subrange(lo as int, lo as int) =~= Seq::<char>::empty());
            assert(spec_trimmed(identifier@).len() == 0);
        }
        return (String::new(), None);
    }
    let trimmed = subrange_vec(&v, lo, hi);
    proof {
        assert(spec_trimmed(identifier@) =~= trimmed@);
    }
    let marker = chars_of("(PID:");
    proof {
        reveal_strlit("(PID:");
    }
    match vec_rfind(&trimmed, &marker) {
        Some(idx) => {
            proof {
                assert(trimmed@ =~= identifier@.subrange(lo as int, lo + trimmed@.len()));
            }
            parse_trimmed_with_marker(identifier, &trimmed, lo, idx)
        },
        None => {
            let title = identifier.substring_char(lo, hi);
            proof {
                reveal(crate::text::spec_rfind);
                assert(v@.subrange(lo as int, hi as int) =~= identifier@.subrange(
                    lo as int,
                    hi as int,
                ));
            }
            (String::from_str(title), None)
        },
    }
}

/// Splits the trimmed identifier at a `(PID:` marker found at `idx`: the
/// part before it, trailing whitespace removed, and the digits after it.
fn parse_trimmed_with_marker(identifier: &str, trimmed: &Vec<char>, lo: usize, idx: usize) -> (r: (
    String,
    Option<u32>,
))
    requires
        lo + trimmed@.len() <= identifier@.len(),
        trimmed@ == identifier@.subrange(lo as int, lo + trimmed@.len()),
        idx + 5 <= trimmed@.len(),
    ensures
        r.0@ == ({
            let head = trimmed@.subrange(0, idx as int);
            head.subrange(0, spec_trim_end(head))
        }),
        r.1 == spec_filtered_digits_u32(trimmed@.subrange(idx + 5, trimmed@.len() as int)),
{
    let total = identifier.unicode_len();
    let tl = trimmed.len();
    let head = subrange_vec(trimmed, 0, idx);
    let te = trim_end_index(&head);
    proof {
        assert(identifier@.subrange(lo as int, lo + te as int) =~= head@.subrange(0, te as int));
    }
    let title = identifier.substring_char(lo, lo + te);
    let pid = filtered_digits_u32(trimmed, idx + 5, trimmed.len());
    (String::from_str(title), pid)
}

/// A window that passes the keyword, size and score screens.
pub open spec fn spec_is_candidate(w: GameWindow) -> bool {
    spec_matches_game_keywords(w) && spec_is_valid_candidate(w) && spec_score(w) >= 2
}

/// The looser fallback screen used when nothing passes the score screen:
/// a game keyword in the title, none of the launcher/settings noise, and
/// a valid size.
pub open spec fn spec_fallback_keep(w: GameWindow) -> bool {
    let tl = lower_of(w.window_title@);
    &&& (seq_has(tl, "slippi"@) || seq_has(tl, "melee"@) || seq_has(tl, "dolphin"@))
    &&& !seq_has(tl, "launcher"@)
    &&& !seq_has(tl, "settings"@)
    &&& !seq_has(tl, "configuration"@)
    &&& spec_is_valid_candidate(w)
}

/// The subsequence of `ws` whose elements satisfy `keep`, in order.
pub open spec fn spec_filter_windows(ws: Seq<GameWindow>, keep: spec_fn(GameWindow) -> bool) -> Seq<
    GameWindow,
>
    decreases ws.len(),
{
    if ws.len() == 0 {
        Seq::empty()
    } else if keep(ws.last()) {
        spec_filter_windows(ws.drop_last(), keep).push(ws.last())
    } else {
        spec_filter_windows(ws.drop_last(), keep)
    }
}

/// The windows that pass the candidate screen, in order.
pub open spec fn spec_candidates(ws: Seq<GameWindow>) -> Seq<GameWindow> {
    spec_filter_windows(ws, |w: GameWindow| spec_is_candidate(w))
}

/// The windows that pass the fallback screen, in order.
pub open spec fn spec_fallback(ws: Seq<GameWindow>) -> Seq<GameWindow> {
    spec_filter_windows(ws, |w: GameWindow| spec_fallback_keep(w))
}

/// `x` inserted into `s` before the first element scoring strictly less
/// than `x`; equal scores keep the earlier element first.
pub open spec fn spec_insert_desc(x: GameWindow, s: Seq<GameWindow>) -> Seq<GameWindow>
    decreases s.len(),
{
    if s.len() == 0 {
        seq![x]
    } else if spec_score(x) > spec_score(s[0]) {
        seq![x] + s
    } else {
        seq![s[0]] + spec_insert_desc(x, s.drop_first())
    }
}

/// `s` sorted by score, highest first, stably: elements of equal score
/// keep their relative order.
pub open spec fn spec_sort_desc(s: Seq<GameWindow>) -> Seq<GameWindow>
    decreases s.len(),
{
    if s.len() == 0 {
        Seq::empty()
    } else {
        spec_insert_desc(s.last(), spec_sort_desc(s.drop_last()))
    }
}

/// Two windows that count as duplicates of each other.
pub open spec fn spec_same_window_key(a: GameWindow, b: GameWindow) -> bool {
    &&& a.process_id == b.process_id
    &&& a.width == b.width
    &&& a.height == b.height
    &&& a.class_name@ == b.class_name@
    &&& a.window_title@ == b.window_title@
}

/// `s` with every later duplicate removed; the first occurrence stays.
pub open spec fn spec_dedup(s: Seq<GameWindow>) -> Seq<GameWindow>
    decreases s.len(),
{
    if s.len() == 0 {
        Seq::empty()
    } else {
        let prior = spec_dedup(s.drop_last());
        if exists|j: int| 0 <= j < s.len() - 1 && spec_same_window_key(#[trigger] s[j], s.last()) {
            prior
        } else {
            prior.push(s.last())
        }
    }
}

/// What `find_game_windows` returns: the candidates sorted by score, or
/// the fallback set when no candidate scores high enough, duplicates
/// removed keeping first occurrences.
pub open spec fn spec_find_game_windows(ws: Seq<GameWindow>) -> Seq<GameWindow> {
    let scored = spec_sort_desc(spec_candidates(ws));
    let base = if scored.len() > 0 {
        scored
    } else {
        spec_fallback(ws)
    };
    spec_dedup(base)
}

/// Whether the two windows count as duplicates.
fn same_window_key(a: &GameWindow, b: &GameWindow) -> (r: bool)
    ensures
        r == spec_same_window_key(*a, *b),
{
    a.process_id == b.process_id && a.width == b.width && a.height == b.height && crate::text::str_eq(
        a.class_name.as_str(),
        b.class_name.as_str(),
    ) && crate::text::str_eq(a.window_title.as_str(), b.window_title.as_str())
}

/// Whether an earlier element of `v` is a duplicate of `v[i]`.
fn has_duplicate_before(v: &Vec<GameWindow>, i: usize) -> (r: bool)
    requires
        i < v@.len(),
    ensures
        r == exists|j: int| 0 <= j < i && spec_same_window_key(#[trigger] v@[j], v@[i as int]),
{
    let mut j: usize = 0;
    while j < i
        invariant
            j <= i < v@.len(),
            forall|k: int| 0 <= k < j ==> !spec_same_window_key(#[trigger] v@[k], v@[i as int]),
        decreases i - j,
    {
        if same_window_key(&v[j], &v[i]) {
            return true;
        }
        j = j + 1;
    }
    false
}

/// Inserting before the first strictly smaller score is what
/// `spec_insert_desc` does.
proof fn lemma_insert_desc_at(x: GameWindow, s: Seq<GameWindow>, j: int)
    requires
        0 <= j <= s.len(),
        forall|k: int| 0 <= k < j ==> spec_score(#[trigger] s[k]) >= spec_score(x),
        j == s.len() || spec_score(s[j]) < spec_score(x),
    ensures
        spec_insert_desc(x, s) == s.subrange(0, j) + seq![x] + s.subrange(j, s.len() as int),
    decreases s.len(),
{
    if s.len() == 0 {
        assert(spec_insert_desc(x, s) =~= s.subrange(0, j) + seq![x] + s.subrange(
            j,
            s.len() as int,
        ));
    } else if j == 0 {
        assert(spec_insert_desc(x, s) =~= s.subrange(0, j) + seq![x] + s.subrange(
            j,
            s.len() as int,
        ));
    } else {
        let rest = s.drop_first();
        assert(spec_score(s[0]) >= spec_score(x));
        assert forall|k: int| 0 <= k < j - 1 implies spec_score(#[trigger] rest[k]) >= spec_score(
            x,
        ) by {
            assert(rest[k] == s[k + 1]);
        }
        if j - 1 < rest.len() {
            assert(rest[j - 1] == s[j]);
        }
        lemma_insert_desc_at(x, rest, j - 1);
        assert(spec_insert_desc(x, s) == seq![s[0]] + spec_insert_desc(x, rest));
        assert(seq![s[0]] + (rest.subrange(0, j - 1) + seq![x] + rest.subrange(
            j - 1,
            rest.len() as int,
        )) =~= s.subrange(0, j) + seq![x] + s.subrange(j, s.len() as int));
    }
}

/// Inserts `x` into the score-sorted vector before the first element
/// scoring strictly less than `x`.
fn insert_desc(v: &mut Vec<GameWindow>, x: GameWindow)
    ensures
        final(v)@ == spec_insert_desc(x, old(v)@),
{
    let x_score = x.score();
    let mut j: usize = 0;
    loop
        invariant
            j <= v@.len(),
            v@ == old(v)@,
            x_score == spec_score(x),
            forall|k: int| 0 <= k < j ==> spec_score(#[trigger] v@[k]) >= spec_score(x),
        ensures
            j <= v@.len(),
            v@ == old(v)@,
            forall|k: int| 0 <= k < j ==> spec_score(#[trigger] v@[k]) >= spec_score(x),
            j == v@.len() || spec_score(v@[j as int]) < spec_score(x),
        decreases v@.len() - j,
    {
        if j == v.len() {
            break ;
        }
        if v[j].score() < x_score {
            break ;
        }
        j = j + 1;
    }
    proof {
        lemma_insert_desc_at(x, v@, j as int);
    }
    v.insert(j, x);
    proof {
        assert(final(v)@ =~= old(v)@.subrange(0, j as int) + seq![x] + old(v)@.subrange(
            j as int,
            old(v)@.len() as int,
        ));
    }
}

/// Filters, ranks and de-duplicates the enumerated windows: keeps the
/// windows that look like the game, sorts them by score with the best
/// first (equal scores keep enumeration order), falls back to a looser
/// title screen when none scores high enough, and drops duplicates,
/// keeping each first occurrence.
pub fn find_game_windows(windows: Vec<GameWindow>) -> (r: Vec<GameWindow>)
    ensures
        r@ == spec_find_game_windows(windows@),
{
    let mut scored: Vec<GameWindow> = Vec::new();
    let mut i: usize = 0;
    while i < windows.len()
        invariant
            i <= windows@.len(),
            scored@ == spec_candidates(windows@.subrange(0, i as int)),
        decreases windows@.len() - i,
    {
        let ghost prefix = windows@.subrange(0, i as int);
        let ghost next = windows@.subrange(0, i + 1 as int);
        proof {
            assert(next.drop_last() =~= prefix);
            assert(next.last() == windows@[i as int]);
        }
        let w = &windows[i];
        if w.matches_game_keywords() && w.is_valid_candidate() && w.score() >= 2 {
            scored.push(w.clone());
        }
        i = i + 1;
    }
    proof {
        assert(windows@.subrange(0, windows@.len() as int) =~= windows@);
    }

    let mut sorted: Vec<GameWindow> = Vec::new();
    let mut i2: usize = 0;
    while i2 < scored.len()
        invariant
            i2 <= scored@.len(),
            sorted@ == spec_sort_desc(scored@.subrange(0, i2 as int)),
        decreases scored@.len() - i2,
    {
        let ghost prefix = scored@.subrange(0, i2 as int);
        let ghost next = scored@.subrange(0, i2 + 1 as int);
        proof {
            assert(next.drop_last() =~= prefix);
            assert(next.last() == scored@[i2 as int]);
        }
        insert_desc(&mut sorted, scored[i2].clone());
        i2 = i2 + 1;
    }
    proof {
        assert(scored@.subrange(0, scored@.len() as int) =~= scored@);
    }

    let base: Vec<GameWindow> = if sorted.len() > 0 {
        sorted
    } else {
        let mut fallback: Vec<GameWindow> = Vec::new();
        let mut i3: usize = 0;
        while i3 < windows.len()
            invariant
                i3 <= windows@.len(),
                fallback@ == spec_fallback(windows@.subrange(0, i3 as int)),
            decreases windows@.len() - i3,
        {
            let ghost prefix = windows@.subrange(0, i3 as int);
            let ghost next = windows@.subrange(0, i3 + 1 as int);
            proof {
                assert(next.drop_last() =~= prefix);
                assert(next.last() == windows@[i3 as int]);
            }
            let w = &windows[i3];
            let tl = to_lower(w.window_title.as_str());
            let keyword = str_has(tl.as_str(), "slippi") || str_has(tl.as_str(), "melee")
                || str_has(tl.as_str(), "dolphin");
            let noise = str_has(tl.as_str(), "launcher") || str_has(tl.as_str(), "settings")
                || str_has(tl.as_str(), "configuration");
            if keyword && !noise && w.is_valid_candidate() {
                fallback.push(w.clone());
            }
            i3 = i3 + 1;
        }
        proof {
            assert(windows@.subrange(0, windows@.len() as int) =~= windows@);
        }
        fallback
    };

    let mut out: Vec<GameWindow> = Vec::new();
    let mut i4: usize = 0;
    while i4 < base.len()
        invariant
            i4 <= base@.len(),
            out@ == spec_dedup(base@.subrange(0, i4 as int)),
        decreases base@.len() - i4,
    {
        let ghost prefix = base@.subrange(0, i4 as int);
        let ghost next = base@.subrange(0, i4 + 1 as int);
        proof {
            assert(next.drop_last() =~= prefix);
            assert(next.last() == base@[i4 as int]);
            assert(forall|j: int| 0 <= j < i4 ==> next[j] == #[trigger] base@[j]);
        }
        if !has_duplicate_before(&base, i4) {
            out.push(base[i4].clone());
        }
        i4 = i4 + 1;
    }
    proof {
        assert(base@.subrange(0, base@.len() as int) =~= base@);
    }
    out
}

/// Whether `w` by `h` is within 0.08 of 4:3 or 16:9.
fn aspect_near(w: i32, h: i32) -> (r: bool)
    ensures
        r == spec_aspect_near(w as int, h as int),
{
    if h <= 0 {
        return false;
    }
    let wi = w as i64;
    let hi = h as i64;
    let d43 = 75 * wi - 100 * hi;
    let d43_abs = if d43 < 0 {
        -d43
    } else {
        d43
    };
    let d169 = 225 * wi - 400 * hi;
    let d169_abs = if d169 < 0 {
        -d169
    } else {
        d169
    };
    d43_abs < 6 * hi || d169_abs < 18 * hi
}

} // verus!
