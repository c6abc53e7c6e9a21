//! Character-level text helpers: equality, substring search, trimming and
//! digit parsing, stated over the `Seq<char>` view of strings.
//!
//! Window titles are arbitrary Unicode, so everything here works on
//! character indices, never byte offsets.

use vstd::prelude::*;

verus! {

/// The needle occurs in the haystack starting at character index `i`.
pub open spec fn seq_matches_at(hay: Seq<char>, needle: Seq<char>, i: int) -> bool {
    &&& 0 <= i
    &&& i + needle.len() <= hay.len()
    &&& forall|j: int| 0 <= j < needle.len() ==> hay[i + j] == #[trigger] needle[j]
}

/// The needle occurs somewhere in the haystack.
pub open spec fn seq_has(hay: Seq<char>, needle: Seq<char>) -> bool {
    exists|i: int| seq_matches_at(hay, needle, i)
}

/// What `str::to_lowercase` returns for the given characters; the result
/// depends on the characters alone.
pub uninterp spec fn lower_of(s: Seq<char>) -> Seq<char>;

/// Relies on str::to_lowercase: Unicode lowercasing of every character,
/// a pure function of the input characters; an empty string stays empty.
#[verifier::external_body]
pub(crate) fn to_lower(s: &str) -> (r: String)
    ensures
        r@ == lower_of(s@),
        s@.len() == 0 ==> r@.len() == 0,
{
    s.to_lowercase()
}

/// Character-for-character string equality.
pub fn str_eq(a: &str, b: &str) -> (r: bool)
    ensures
        r == (a@ == b@),
{
    let n = a.unicode_len();
    let m = b.unicode_len();
    if n != m {
        return false;
    }
    let mut i: usize = 0;
    while i < n
        invariant
            n == a@.len(),
            n == b@.len(),
            i <= n,
            forall|j: int| 0 <= j < i ==> a@[j] == b@[j],
        decreases n - i,
    {
        if a.get_char(i) != b.get_char(i) {
            return false;
        }
        i = i + 1;
    }
    proof {
        assert(a@ =~= b@);
    }
    true
}

/// The characters of `s`, in order, as a vector.
pub fn chars_of(s: &str) -> (v: Vec<char>)
    ensures
        v@ == s@,
{
    let n = s.unicode_len();
    let mut v: Vec<char> = Vec::new();
    let mut i: usize = 0;
    while i < n
        invariant
            n == s@.len(),
            i <= n,
            v@ == s@.subrange(0, i as int),
        decreases n - i,
    {
        v.push(s.get_char(i));
        proof {
            assert(v@ =~= s@.subrange(0, i + 1 as int));
        }
        i = i + 1;
    }
    proof {
        assert(v@ =~= s@);
    }
    v
}

/// The needle occurs in the haystack at character position `i`.
fn vec_matches_at(hay: &Vec<char>, needle: &Vec<char>, i: usize) -> (r: bool)
    requires
        i + needle@.len() <= hay@.len(),
    ensures
        r == seq_matches_at(hay@, needle@, i as int),
{
    let hay_len = hay.len();
    let mut j: usize = 0;
    while j < needle.len()
        invariant
            i + needle@.len() <= hay@.len(),
            hay@.len() <= usize::MAX,
            j <= needle@.len(),
            forall|k: int| 0 <= k < j ==> hay@[i + k] == needle@[k],
        decreases needle@.len() - j,
    {
        if hay[i + j] != needle[j] {
            return false;
        }
        j = j + 1;
    }
    true
}

/// Naive substring search over character vectors.
pub fn vec_has(hay: &Vec<char>, needle: &Vec<char>) -> (r: bool)
    ensures
        r == seq_has(hay@, needle@),
{
    if needle.len() > hay.len() {
        proof {
            assert(forall|i: int| !seq_matches_at(hay@, needle@, i));
        }
        return false;
    }
    if needle.len() == 0 {
        proof {
            assert(seq_matches_at(hay@, needle@, 0));
        }
        return true;
    }
    let last = hay.len() - needle.len();
    let mut i: usize = 0;
    loop
        invariant
            1 <= needle@.len() <= hay@.len(),
            hay@.len() <= usize::MAX,
            last == hay@.len() - needle@.len(),
            i <= last + 1,
            forall|k: int| 0 <= k < i ==> !seq_matches_at(hay@, needle@, k),
        decreases last + 1 - i,
    {
        if i > last {
            proof {
                assert(forall|k: int| k > last as int ==> !seq_matches_at(hay@, needle@, k));
            }
            return false;
        }
        if vec_matches_at(hay, needle, i) {
            return true;
        }
        i = i + 1;
    }
}

/// Case-sensitive substring search on strings.
pub fn str_has(hay: &str, needle: &str) -> (r: bool)
    ensures
        r == seq_has(hay@, needle@),
{
    let h = chars_of(hay);
    let n = chars_of(needle);
    vec_has(&h, &n)
}

/// The needle occurs at the very start of the haystack.
pub open spec fn seq_starts_with(hay: Seq<char>, needle: Seq<char>) -> bool {
    seq_matches_at(hay, needle, 0)
}

/// Whether `hay` begins with `needle`.
pub fn str_starts_with(hay: &str, needle: &str) -> (r: bool)
    ensures
        r == seq_starts_with(hay@, needle@),
{
    let h = chars_of(hay);
    let n = chars_of(needle);
    if n.len() > h.len() {
        return false;
    }
    vec_matches_at(&h, &n, 0)
}

/// The position of the first occurrence of the needle, if there is one.
#[verifier::opaque]
pub open spec fn spec_find(hay: Seq<char>, needle: Seq<char>) -> Option<int> {
    if seq_has(hay, needle) {
        Some(
            choose|i: int|
                seq_matches_at(hay, needle, i) && forall|k: int|
                    0 <= k < i ==> !seq_matches_at(hay, needle, k),
        )
    } else {
        None
    }
}

/// The position of the last occurrence of the needle, if there is one.
#[verifier::opaque]
pub open spec fn spec_rfind(hay: Seq<char>, needle: Seq<char>) -> Option<int> {
    if seq_has(hay, needle) {
        Some(
            choose|i: int|
                seq_matches_at(hay, needle, i) && forall|k: int|
                    i < k ==> !seq_matches_at(hay, needle, k),
        )
    } else {
        None
    }
}

/// Index of the first occurrence of the needle in `hay`.
pub fn vec_find(hay: &Vec<char>, needle: &Vec<char>) -> (r: Option<usize>)
    requires
        needle@.len() >= 1,
    ensures
        match r {
            Some(i) => {
                &&& Some(i as int) == spec_find(hay@, needle@)
                &&& seq_matches_at(hay@, needle@, i as int)
                &&& forall|k: int| 0 <= k < i ==> !seq_matches_at(hay@, needle@, k)
            },
            None => !seq_has(hay@, needle@),
        },
{
    if needle.len() > hay.len() {
        proof {
            assert(forall|i: int| !seq_matches_at(hay@, needle@, i));
        }
        return None;
    }
    let last = hay.len() - needle.len();
    let mut i: usize = 0;
    loop
        invariant
            1 <= needle@.len() <= hay@.len(),
            hay@.len() <= usize::MAX,
            last == hay@.len() - needle@.len(),
            i <= last + 1,
            forall|k: int| 0 <= k < i ==> !seq_matches_at(hay@, needle@, k),
        decreases last + 1 - i,
    {
        if i > last {
            proof {
                assert(forall|k: int| k > last as int ==> !seq_matches_at(hay@, needle@, k));
            }
            return None;
        }
        if vec_matches_at(hay, needle, i) {
            proof {
                reveal(spec_find);
                let w = choose|j: int|
                    seq_matches_at(hay@, needle@, j) && forall|k: int|
                        0 <= k < j ==> !seq_matches_at(hay@, needle@, k);
                assert(seq_matches_at(hay@, needle@, i as int) && forall|k: int|
                    0 <= k < i as int ==> !seq_matches_at(hay@, needle@, k));
                if w != i as int {
                    assert(seq_matches_at(hay@, needle@, w));
                    assert(seq_matches_at(hay@, needle@, i as int));
                }
            }
            return Some(i);
        }
        i = i + 1;
    }
}

/// Index of the last occurrence of the needle in `hay`.
pub fn vec_rfind(hay: &Vec<char>, needle: &Vec<char>) -> (r: Option<usize>)
    requires
        needle@.len() >= 1,
    ensures
        match r {
            Some(i) => {
                &&& Some(i as int) == spec_rfind(hay@, needle@)
                &&& seq_matches_at(hay@, needle@, i as int)
                &&& forall|k: int| (i as int) < k ==> !seq_matches_at(hay@, needle@, k)
            },
            None => !seq_has(hay@, needle@),
        },
{
    if needle.len() > hay.len() {
        proof {
            assert(forall|i: int| !seq_matches_at(hay@, needle@, i));
        }
        return None;
    }
    let last = hay.len() - needle.len();
    let mut i: usize = last + 1;
    loop
        invariant
            1 <= needle@.len() <= hay@.len(),
            hay@.len() <= usize::MAX,
            last == hay@.len() - needle@.len(),
            i <= last + 1,
            forall|k: int| i <= k ==> !seq_matches_at(hay@, needle@, k),
        decreases i,
    {
        if i == 0 {
            return None;
        }
        i = i - 1;
        if vec_matches_at(hay, needle, i) {
            proof {
                reveal(spec_rfind);
                let w = choose|j: int|
                    seq_matches_at(hay@, needle@, j) && forall|k: int|
                        j < k ==> !seq_matches_at(hay@, needle@, k);
                assert(seq_matches_at(hay@, needle@, i as int) && forall|k: int|
                    (i as int) < k ==> !seq_matches_at(hay@, needle@, k));
                if w != i as int {
                    assert(seq_matches_at(hay@, needle@, w));
                    assert(seq_matches_at(hay@, needle@, i as int));
                }
            }
            return Some(i);
        }
    }
}

/// A copy of `v[from..to]`.
pub fn subrange_vec(v: &Vec<char>, from: usize, to: usize) -> (out: Vec<char>)
    requires
        from <= to <= v@.len(),
    ensures
        out@ == v@.subrange(from as int, to as int),
{
    let mut out: Vec<char> = Vec::new();
    let mut k: usize = from;
    while k < to
        invariant
            from <= k <= to <= v@.len(),
            out@ == v@.subrange(from as int, k as int),
        decreases to - k,
    {
        out.push(v[k]);
        proof {
            assert(out@ =~= v@.subrange(from as int, k + 1 as int));
        }
        k = k + 1;
    }
    out
}

/// The characters trimming removes: the set with the Unicode
/// `White_Space` property, the same set `str::trim` removes.
pub open spec fn spec_is_space(c: char) -> bool {
    ||| 0x09 <= c as u32 <= 0x0D
    ||| c as u32 == 0x20
    ||| c as u32 == 0x85
    ||| c as u32 == 0xA0
    ||| c as u32 == 0x1680
    ||| 0x2000 <= c as u32 <= 0x200A
    ||| c as u32 == 0x2028
    ||| c as u32 == 0x2029
    ||| c as u32 == 0x202F
    ||| c as u32 == 0x205F
    ||| c as u32 == 0x3000
}

/// Whether `c` is one of the whitespace characters trimming removes.
pub fn is_space(c: char) -> (r: bool)
    ensures
        r == spec_is_space(c),
{
    let u = c as u32;
    (0x09 <= u && u <= 0x0D) || u == 0x20 || u == 0x85 || u == 0xA0 || u == 0x1680 || (0x2000 <= u
        && u <= 0x200A) || u == 0x2028 || u == 0x2029 || u == 0x202F || u == 0x205F || u == 0x3000
}

/// Whether `c` is an ASCII decimal digit.
pub open spec fn spec_is_digit(c: char) -> bool {
    48 <= c as u32 <= 57
}

/// Whether `c` is an ASCII decimal digit.
pub fn is_digit(c: char) -> (r: bool)
    ensures
        r == spec_is_digit(c),
{
    let u = c as u32;
    48 <= u && u <= 57
}

/// The digit characters of `s`, in order.
pub open spec fn spec_digits(s: Seq<char>) -> Seq<char>
    decreases s.len(),
{
    if s.len() == 0 {
        Seq::empty()
    } else if spec_is_digit(s.last()) {
        spec_digits(s.drop_last()).push(s.last())
    } else {
        spec_digits(s.drop_last())
    }
}

/// The number written by a sequence of digit characters, most significant
/// first.
pub open spec fn spec_digits_value(ds: Seq<char>) -> int
    decreases ds.len(),
{
    if ds.len() == 0 {
        0
    } else {
        spec_digits_value(ds.drop_last()) * 10 + (ds.last() as u32 - 48)
    }
}

/// The number written by digit characters is never negative.
proof fn lemma_digits_value_nonneg(ds: Seq<char>)
    requires
        forall|i: int| 0 <= i < ds.len() ==> spec_is_digit(ds[i]),
    ensures
        spec_digits_value(ds) >= 0,
    decreases ds.len(),
{
    if ds.len() > 0 {
        lemma_digits_value_nonneg(ds.drop_last());
    }
}

/// Every character the digit filter keeps is a digit.
proof fn lemma_digits_all_digits(s: Seq<char>)
    ensures
        forall|i: int| 0 <= i < spec_digits(s).len() ==> spec_is_digit(spec_digits(s)[i]),
    decreases s.len(),
{
    if s.len() > 0 {
        lemma_digits_all_digits(s.drop_last());
        if spec_is_digit(s.last()) {
            let ds = spec_digits(s.drop_last()).push(s.last());
            assert forall|i: int| 0 <= i < ds.len() implies spec_is_digit(ds[i]) by {
                if i < ds.len() - 1 {
                    assert(ds[i] == spec_digits(s.drop_last())[i]);
                } else {
                    assert(ds[i] == s.last());
                }
            }
            assert(spec_digits(s) == ds);
        }
    }
}

/// What parsing the digit characters found in `s` as a `u32` yields:
/// `None` when there is no digit at all or the written number is too large.
pub open spec fn spec_filtered_digits_u32(s: Seq<char>) -> Option<u32> {
    let ds = spec_digits(s);
    if ds.len() == 0 || spec_digits_value(ds) > u32::MAX {
        None
    } else {
        Some(spec_digits_value(ds) as u32)
    }
}

/// Collects the digit characters of `v[from..to]` and reads them as a
/// number, as parsing the filtered digit string would.
pub fn filtered_digits_u32(v: &Vec<char>, from: usize, to: usize) -> (r: Option<u32>)
    requires
        from <= to <= v@.len(),
    ensures
        r == spec_filtered_digits_u32(v@.subrange(from as int, to as int)),
{
    let mut i: usize = from;
    let mut value: u32 = 0;
    let mut any_digit = false;
    let mut overflowed = false;
    while i < to
        invariant
            from <= i <= to <= v@.len(),
            any_digit == (spec_digits(v@.subrange(from as int, i as int)).len() > 0),
            !overflowed ==> value == spec_digits_value(
                spec_digits(v@.subrange(from as int, i as int)),
            ),
            overflowed ==> spec_digits_value(spec_digits(v@.subrange(from as int, i as int)))
                > u32::MAX,
        decreases to - i,
    {
        let ghost prefix = v@.subrange(from as int, i as int);
        let ghost next = v@.subrange(from as int, i + 1 as int);
        proof {
            assert(next.drop_last() =~= prefix);
            assert(next.last() == v@[i as int]);
        }
        let c = v[i];
        if is_digit(c) {
            let d: u32 = c as u32 - 48;
            proof {
                assert(spec_digits(next) =~= spec_digits(prefix).push(c));
                let ds2 = spec_digits(prefix).push(c);
                assert(ds2.drop_last() =~= spec_digits(prefix));
                assert(ds2.last() == c);
                assert(spec_digits_value(ds2) == spec_digits_value(spec_digits(prefix)) * 10 + (
                c as u32 - 48));
                lemma_digits_all_digits(prefix);
                lemma_digits_value_nonneg(spec_digits(prefix));
            }
            if overflowed {
                proof {
                    let old_val = spec_digits_value(spec_digits(prefix));
                    assert(old_val * 10 >= old_val) by (nonlinear_arith)
                        requires
                            old_val >= 0,
                    ;
                }
            } else {
                match value.checked_mul(10) {
                    Some(scaled) => {
                        match scaled.checked_add(d) {
                            Some(total) => {
                                value = total;
                            },
                            None => {
                                overflowed = true;
                            },
                        }
                    },
                    None => {
                        overflowed = true;
                    },
                }
            }
            any_digit = true;
        } else {
            proof {
                assert(spec_digits(next) =~= spec_digits(prefix));
            }
        }
        i = i + 1;
    }
    if !any_digit || overflowed {
        None
    } else {
        Some(value)
    }
}

/// First index at or after `from` holding a non-whitespace character
/// (`s.len()` if there is none).
#[verifier::opaque]
pub open spec fn spec_skip_spaces(s: Seq<char>, from: int) -> int {
    if exists|i: int| from <= i < s.len() && !spec_is_space(s[i]) {
        choose|i: int|
            from <= i < s.len() && !spec_is_space(s[i]) && forall|j: int|
                from <= j < i ==> spec_is_space(s[j])
    } else {
        s.len() as int
    }
}

/// First index at or after `from` holding a non-whitespace character.
pub fn skip_spaces(v: &Vec<char>, from: usize) -> (r: usize)
    requires
        from <= v@.len(),
    ensures
        r == spec_skip_spaces(v@, from as int),
        from <= r <= v@.len(),
{
    let mut i: usize = from;
    while i < v.len()
        invariant
            from <= i <= v@.len(),
            forall|j: int| from <= j < i ==> spec_is_space(v@[j]),
        decreases v@.len() - i,
    {
        if !is_space(v[i]) {
            proof {
                reveal(spec_skip_spaces);
            }
            return i;
        }
        i = i + 1;
    }
    proof {
        reveal(spec_skip_spaces);
        assert(!(exists|k: int| from <= k < v@.len() && !spec_is_space(v@[k])));
    }
    i
}

/// First index at or after `from` whose character is not a digit
/// (`s.len()` if all are digits).
#[verifier::opaque]
pub open spec fn spec_digit_run_end(s: Seq<char>, from: int) -> int {
    if exists|i: int| from <= i < s.len() && !spec_is_digit(s[i]) {
        choose|i: int|
            from <= i < s.len() && !spec_is_digit(s[i]) && forall|j: int|
                from <= j < i ==> spec_is_digit(s[j])
    } else {
        s.len() as int
    }
}

/// What parsing the run of digit characters starting at `from` as a `u32`
/// yields: `None` when the run is empty or the number is too large.
pub open spec fn spec_leading_digits_u32(s: Seq<char>, from: int) -> Option<u32> {
    let ds = s.subrange(from, spec_digit_run_end(s, from));
    if ds.len() == 0 || spec_digits_value(ds) > u32::MAX {
        None
    } else {
        Some(spec_digits_value(ds) as u32)
    }
}

/// Reads the digit characters starting at `from`, stopping at the first
/// non-digit, as a number.
pub fn leading_digits_u32(v: &Vec<char>, from: usize) -> (r: Option<u32>)
    requires
        from <= v@.len(),
    ensures
        r == spec_leading_digits_u32(v@, from as int),
{
    let mut i: usize = from;
    let mut value: u32 = 0;
    let mut overflowed = false;
    loop
        invariant
            from <= i <= v@.len(),
            forall|j: int| from <= j < i ==> spec_is_digit(v@[j]),
            !overflowed ==> value == spec_digits_value(v@.subrange(from as int, i as int)),
            overflowed ==> spec_digits_value(v@.subrange(from as int, i as int)) > u32::MAX,
        decreases v@.len() - i,
    {
        let ghost prefix = v@.subrange(from as int, i as int);
        proof {
            lemma_digits_value_nonneg(prefix);
        }
        if i == v.len() || !is_digit(v[i]) {
            proof {
                reveal(spec_digit_run_end);
                if i < v@.len() {
                    assert(spec_digit_run_end(v@, from as int) == i as int);
                } else {
                    assert(!(exists|k: int|
                        from <= k < v@.len() && !spec_is_digit(v@[k])));
                }
            }
            if i == from || overflowed {
                return None;
            }
            return Some(value);
        }
        let c = v[i];
        let d: u32 = c as u32 - 48;
        let ghost next = v@.subrange(from as int, i + 1 as int);
        proof {
            assert(next.drop_last() =~= prefix);
            assert(next.last() == v@[i as int]);
            assert(spec_digits_value(next) == spec_digits_value(prefix) * 10 + d);
        }
        if overflowed {
            proof {
                let old_val = spec_digits_value(prefix);
                assert(old_val * 10 >= old_val) by (nonlinear_arith)
                    requires
                        old_val >= 0,
                ;
            }
        } else {
            match value.checked_mul(10) {
                Some(scaled) => {
                    match scaled.checked_add(d) {
                        Some(total) => {
                            value = total;
                        },
                        None => {
                            overflowed = true;
                        },
                    }
                },
                None => {
                    overflowed = true;
                },
            }
        }
        i = i + 1;
    }
}

/// Index of the first character that is not whitespace (`s.len()` if all are).
#[verifier::opaque]
pub open spec fn spec_trim_start(s: Seq<char>) -> int {
    if exists|i: int| 0 <= i < s.len() && !spec_is_space(s[i]) {
        choose|i: int|
            0 <= i < s.len() && !spec_is_space(s[i]) && forall|j: int|
                0 <= j < i ==> spec_is_space(s[j])
    } else {
        s.len() as int
    }
}

/// One past the last character that is not whitespace (`0` if all are).
#[verifier::opaque]
pub open spec fn spec_trim_end(s: Seq<char>) -> int {
    if exists|i: int| 0 <= i < s.len() && !spec_is_space(s[i]) {
        1 + choose|i: int|
            0 <= i < s.len() && !spec_is_space(s[i]) && forall|j: int|
                i < j < s.len() ==> spec_is_space(s[j])
    } else {
        0
    }
}

/// The trimmed span of `s`: whitespace stripped from both ends.
pub open spec fn spec_trimmed(s: Seq<char>) -> Seq<char> {
    if spec_trim_start(s) <= spec_trim_end(s) {
        s.subrange(spec_trim_start(s), spec_trim_end(s))
    } else {
        Seq::empty()
    }
}

/// First index holding a non-whitespace character, or the length.
pub fn trim_start_index(v: &Vec<char>) -> (r: usize)
    ensures
        r == spec_trim_start(v@),
        r <= v@.len(),
{
    let mut i: usize = 0;
    while i < v.len()
        invariant
            i <= v@.len(),
            forall|j: int| 0 <= j < i ==> spec_is_space(v@[j]),
        decreases v@.len() - i,
    {
        if !is_space(v[i]) {
            proof {
                reveal(spec_trim_start);
            }
            return i;
        }
        i = i + 1;
    }
    proof {
        reveal(spec_trim_start);
        assert(!(exists|k: int| 0 <= k < v@.len() && !spec_is_space(v@[k])));
    }
    i
}

/// One past the last non-whitespace character, or zero.
pub fn trim_end_index(v: &Vec<char>) -> (r: usize)
    ensures
        r == spec_trim_end(v@),
        r <= v@.len(),
{
    let mut i: usize = v.len();
    while i > 0
        invariant
            i <= v@.len(),
            forall|j: int| i <= j < v@.len() ==> spec_is_space(v@[j]),
        decreases i,
    {
        if !is_space(v[i - 1]) {
            proof {
                reveal(spec_trim_end);
            }
            return i;
        }
        i = i - 1;
    }
    proof {
        reveal(spec_trim_end);
        assert(!(exists|k: int| 0 <= k < v@.len() && !spec_is_space(v@[k])));
    }
    0
}

} // verus!
