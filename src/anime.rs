use vstd::prelude::*;
use crate::text::{
    chars_of, digit, eq_ci, has_word_at, is_digit, is_letter, is_ws, letter, string_of, word_at, ws,
};

verus! {

/// Title and episode number read from a file name.
#[derive(Debug)]
pub struct AnimeInfo {
    pub title: String,
    pub episode: Option<i32>,
}

pub open spec fn episode_word() -> Seq<char> {
    seq!['e', 'p', 'i', 's', 'o', 'd', 'e']
}

pub open spec fn ep_word() -> Seq<char> {
    seq!['e', 'p']
}

pub open spec fn e_word() -> Seq<char> {
    seq!['e']
}

fn episode_vec() -> (r: Vec<char>)
    ensures
        r@ == episode_word(),
{
    let r = vec!['e', 'p', 'i', 's', 'o', 'd', 'e'];
    assert(r@ =~= episode_word());
    r
}

fn ep_vec() -> (r: Vec<char>)
    ensures
        r@ == ep_word(),
{
    let r = vec!['e', 'p'];
    assert(r@ =~= ep_word());
    r
}

fn e_vec() -> (r: Vec<char>)
    ensures
        r@ == e_word(),
{
    let r = vec!['e'];
    assert(r@ =~= e_word());
    r
}

// ---------------------------------------------------------------------------
// Episode number: a marker word (`episode`, `ep` or `e`, any case) that no
// letter precedes, an optional `.`, optional whitespace, then digits.

/// First index at or after `q` that is not whitespace.
pub open spec fn skip_ws_from(s: Seq<char>, q: int) -> int
    decreases s.len() - q,
{
    if 0 <= q < s.len() && is_ws(s[q]) {
        skip_ws_from(s, q + 1)
    } else {
        q
    }
}

/// First index at or after `q` that is not a digit.
pub open spec fn digits_end(s: Seq<char>, q: int) -> int
    decreases s.len() - q,
{
    if 0 <= q < s.len() && is_digit(s[q]) {
        digits_end(s, q + 1)
    } else {
        q
    }
}

/// Where the digits start after a marker word that ends at `q`.
pub open spec fn digits_start(s: Seq<char>, q: int) -> int {
    let q1 = if 0 <= q < s.len() && s[q] == '.' {
        q + 1
    } else {
        q
    };
    skip_ws_from(s, q1)
}

pub open spec fn number_follows(s: Seq<char>, q: int) -> bool {
    let d = digits_start(s, q);
    0 <= d < s.len() && is_digit(s[d])
}

/// End of the episode marker word that starts at `p` and is followed by a
/// number, or -1 where there is none. The longer words are tried first.
pub open spec fn marker_end(s: Seq<char>, p: int) -> int {
    if word_at(s, p, episode_word()) && number_follows(s, p + 7) {
        p + 7
    } else if word_at(s, p, ep_word()) && number_follows(s, p + 2) {
        p + 2
    } else if word_at(s, p, e_word()) && number_follows(s, p + 1) {
        p + 1
    } else {
        -1
    }
}

pub open spec fn word_start(s: Seq<char>, p: int) -> bool {
    p == 0 || (0 < p <= s.len() && !is_letter(s[p - 1]))
}

/// An episode marker followed by a number starts at `p`.
pub open spec fn marker_at(s: Seq<char>, p: int) -> bool {
    0 <= p < s.len() && word_start(s, p) && marker_end(s, p) >= 0
}

/// The first position at or after `k` where a marker starts, or -1.
pub open spec fn first_marker_from(s: Seq<char>, k: int) -> int
    decreases s.len() - k,
{
    if k < 0 || k >= s.len() {
        -1
    } else if marker_at(s, k) {
        k
    } else {
        first_marker_from(s, k + 1)
    }
}

/// The number written by the decimal digits `d`.
pub open spec fn digits_value(d: Seq<char>) -> nat
    decreases d.len(),
{
    if d.len() == 0 {
        0
    } else {
        digits_value(d.drop_last()) * 10 + ((d.last() as nat) - ('0' as nat)) as nat
    }
}

/// The number that follows the marker at `p`.
pub open spec fn marker_number(s: Seq<char>, p: int) -> nat {
    let a = digits_start(s, marker_end(s, p));
    digits_value(s.subrange(a, digits_end(s, a)))
}

/// The episode of a file name: the number after its first marker, where it
/// fits an `i32`.
pub open spec fn episode_of(s: Seq<char>) -> Option<i32> {
    let p = first_marker_from(s, 0);
    if p < 0 {
        None
    } else if marker_number(s, p) <= i32::MAX {
        Some(marker_number(s, p) as i32)
    } else {
        None
    }
}

fn skip_ws(s: &Vec<char>, q: usize) -> (r: usize)
    requires
        q <= s@.len(),
    ensures
        r == skip_ws_from(s@, q as int),
        q <= r <= s@.len(),
{
    let mut i = q;
    while i < s.len() && ws(s[i])
        invariant
            q <= i <= s@.len(),
            skip_ws_from(s@, i as int) == skip_ws_from(s@, q as int),
        decreases s@.len() - i,
    {
        i = i + 1;
    }
    i
}

fn digit_run_end(s: &Vec<char>, q: usize) -> (r: usize)
    requires
        q <= s@.len(),
    ensures
        r == digits_end(s@, q as int),
        q <= r <= s@.len(),
        forall|k: int| q <= k < r ==> is_digit(#[trigger] s@[k]),
{
    let mut i = q;
    while i < s.len() && digit(s[i])
        invariant
            q <= i <= s@.len(),
            digits_end(s@, i as int) == digits_end(s@, q as int),
            forall|k: int| q <= k < i ==> is_digit(#[trigger] s@[k]),
        decreases s@.len() - i,
    {
        i = i + 1;
    }
    i
}

fn number_start(s: &Vec<char>, q: usize) -> (r: usize)
    requires
        q <= s@.len(),
    ensures
        r == digits_start(s@, q as int),
        r <= s@.len(),
{
    let q1 = if q < s.len() && s[q] == '.' {
        q + 1
    } else {
        q
    };
    skip_ws(s, q1)
}

fn follows_number(s: &Vec<char>, q: usize) -> (r: bool)
    requires
        q <= s@.len(),
    ensures
        r == number_follows(s@, q as int),
{
    let d = number_start(s, q);
    d < s.len() && digit(s[d])
}

fn find_marker_end(s: &Vec<char>, p: usize) -> (r: Option<usize>)
    requires
        p < s@.len(),
    ensures
        r is Some <==> marker_end(s@, p as int) >= 0,
        r is Some ==> r->0 == marker_end(s@, p as int) && r->0 <= s@.len(),
{
    let w7 = episode_vec();
    let w2 = ep_vec();
    let w1 = e_vec();
    let room = s.len() - p;
    assert(episode_word().len() == 7 && ep_word().len() == 2 && e_word().len() == 1);
    if room >= 7 && has_word_at(s, p, &w7) && follows_number(s, p + 7) {
        Some(p + 7)
    } else if room >= 2 && has_word_at(s, p, &w2) && follows_number(s, p + 2) {
        Some(p + 2)
    } else if has_word_at(s, p, &w1) && follows_number(s, p + 1) {
        Some(p + 1)
    } else {
        None
    }
}

const I32_CAP: u64 = 0x8000_0000;

proof fn lemma_cap_step(v: nat, d: nat)
    requires
        d < 10,
    ensures
        ({
            let c = if v < I32_CAP { v } else { I32_CAP as nat };
            let n = c * 10 + d;
            (if n < I32_CAP { n } else { I32_CAP as nat }) == (if v * 10 + d < I32_CAP {
                v * 10 + d
            } else {
                I32_CAP as nat
            })
        }),
{
    if v >= I32_CAP {
        assert(v * 10 + d >= I32_CAP) by (nonlinear_arith)
            requires
                v >= I32_CAP,
        ;
        assert(I32_CAP * 10 + d >= I32_CAP);
    }
}

/// The value of the digits `s[a..b]`, where it fits an `i32`.
fn parse_digits(s: &Vec<char>, a: usize, b: usize) -> (r: Option<i32>)
    requires
        a <= b <= s@.len(),
        forall|k: int| a <= k < b ==> is_digit(#[trigger] s@[k]),
    ensures
        r == (if digits_value(s@.subrange(a as int, b as int)) <= i32::MAX {
            Some(digits_value(s@.subrange(a as int, b as int)) as i32)
        } else {
            None::<i32>
        }),
{
    let mut acc: u64 = 0;
    let mut i = a;
    while i < b
        invariant
            a <= i <= b <= s@.len(),
            forall|k: int| a <= k < b ==> is_digit(#[trigger] s@[k]),
            acc == (if digits_value(s@.subrange(a as int, i as int)) < I32_CAP {
                digits_value(s@.subrange(a as int, i as int))
            } else {
                I32_CAP as nat
            }),
        decreases b - i,
    {
        let d = (s[i] as u32 - '0' as u32) as u64;
        proof {
            let pre = s@.subrange(a as int, i as int);
            let next = s@.subrange(a as int, i + 1);
            assert(next.drop_last() =~= pre);
            assert(next.last() == s@[i as int]);
            lemma_cap_step(digits_value(pre), d as nat);
        }
        let n = acc * 10 + d;
        acc = if n < I32_CAP {
            n
        } else {
            I32_CAP
        };
        i = i + 1;
    }
    if acc < I32_CAP {
        Some(acc as i32)
    } else {
        None
    }
}

/// The episode number of a file name.
pub fn episode_number(s: &Vec<char>) -> (r: Option<i32>)
    ensures
        r == episode_of(s@),
{
    let mut p: usize = 0;
    while p < s.len()
        invariant
            p <= s@.len(),
            first_marker_from(s@, p as int) == first_marker_from(s@, 0),
        decreases s@.len() - p,
    {
        if p == 0 || !letter(s[p - 1]) {
            match find_marker_end(s, p) {
                Some(q) => {
                    let a = number_start(s, q);
                    let b = digit_run_end(s, a);
                    return parse_digits(s, a, b);
                },
                None => {},
            }
        }
        p = p + 1;
    }
    None
}

// ---------------------------------------------------------------------------
// Title: drop a video extension, turn `_`, `-` and `.` into spaces, replace
// each `[...]` and `(...)` group by a space, drop episode marker words with
// their numbers, and join the remaining words with single spaces.

pub open spec fn has_video_ext(s: Seq<char>) -> bool {
    &&& s.len() >= 4
    &&& s[s.len() - 4] == '.'
    &&& (word_at(s, s.len() - 3, seq!['m', 'k', 'v']) || word_at(s, s.len() - 3, seq!['m', 'p', '4']))
}

pub open spec fn strip_ext(s: Seq<char>) -> Seq<char> {
    if has_video_ext(s) {
        s.take(s.len() - 4)
    } else {
        s
    }
}

pub open spec fn sep_to_space(c: char) -> char {
    if c == '_' || c == '-' || c == '.' {
        ' '
    } else {
        c
    }
}

/// Scan state while removing groups: the output so far, whether a group is
/// open, and what the open group holds.
pub open spec fn group_step(st: (Seq<char>, bool, Seq<char>), c: char, o: char, cl: char) -> (
    Seq<char>,
    bool,
    Seq<char>,
) {
    if st.1 {
        if c == cl {
            (st.0.push(' '), false, Seq::empty())
        } else {
            (st.0, true, st.2.push(c))
        }
    } else if c == o {
        (st.0, true, Seq::empty())
    } else {
        (st.0.push(c), false, st.2)
    }
}

pub open spec fn group_scan(s: Seq<char>, o: char, cl: char) -> (Seq<char>, bool, Seq<char>)
    decreases s.len(),
{
    if s.len() == 0 {
        (Seq::empty(), false, Seq::empty())
    } else {
        group_step(group_scan(s.drop_last(), o, cl), s.last(), o, cl)
    }
}

/// `s` with each group from an `o` to the next `cl` replaced by one space;
/// an `o` that no `cl` follows stays as it is.
pub open spec fn strip_groups(s: Seq<char>, o: char, cl: char) -> Seq<char> {
    let st = group_scan(s, o, cl);
    if st.1 {
        st.0 + seq![o] + st.2
    } else {
        st.0
    }
}

pub open spec fn prepared(s: Seq<char>) -> Seq<char> {
    strip_groups(strip_groups(strip_ext(s).map_values(|c: char| sep_to_space(c)), '[', ']'), '(', ')')
}

pub open spec fn is_marker_word(w: Seq<char>) -> bool {
    (w.len() == 7 && word_at(w, 0, episode_word())) || (w.len() == 2 && word_at(w, 0, ep_word()))
        || (w.len() == 1 && word_at(w, 0, e_word()))
}

pub open spec fn tagged_with(w: Seq<char>, m: Seq<char>) -> bool {
    w.len() > m.len() && word_at(w, 0, m) && is_digit(w[m.len() as int])
}

/// A marker word with its number attached (`E05`, `ep001`).
pub open spec fn is_tagged_number(w: Seq<char>) -> bool {
    tagged_with(w, episode_word()) || tagged_with(w, ep_word()) || tagged_with(w, e_word())
}

pub open spec fn starts_digit(w: Seq<char>) -> bool {
    w.len() > 0 && is_digit(w[0])
}

/// Adds word `w` to the title `st.0`; `st.1` says that the word before was a
/// bare marker, whose number `w` may be.
pub open spec fn word_step(st: (Seq<char>, bool), w: Seq<char>) -> (Seq<char>, bool) {
    if st.1 && starts_digit(w) {
        (st.0, false)
    } else if is_marker_word(w) {
        (st.0, true)
    } else if is_tagged_number(w) {
        (st.0, false)
    } else if st.0.len() == 0 {
        (w, false)
    } else {
        (st.0 + seq![' '] + w, false)
    }
}

pub open spec fn title_step(st: (Seq<char>, bool, Seq<char>), c: char) -> (Seq<char>, bool, Seq<char>) {
    if is_ws(c) {
        if st.2.len() > 0 {
            let t = word_step((st.0, st.1), st.2);
            (t.0, t.1, Seq::empty())
        } else {
            st
        }
    } else {
        (st.0, st.1, st.2.push(c))
    }
}

pub open spec fn title_scan(s: Seq<char>) -> (Seq<char>, bool, Seq<char>)
    decreases s.len(),
{
    if s.len() == 0 {
        (Seq::empty(), false, Seq::empty())
    } else {
        title_step(title_scan(s.drop_last()), s.last())
    }
}

/// The words of `s`, less episode markers and their numbers, joined by single spaces.
pub open spec fn join_words(s: Seq<char>) -> Seq<char> {
    let st = title_scan(s);
    if st.2.len() > 0 {
        word_step((st.0, st.1), st.2).0
    } else {
        st.0
    }
}

pub open spec fn title_of(s: Seq<char>) -> Seq<char> {
    join_words(prepared(s))
}

fn video_ext(s: &Vec<char>) -> (r: bool)
    ensures
        r == has_video_ext(s@),
{
    let n = s.len();
    if n < 4 || s[n - 4] != '.' {
        return false;
    }
    let mkv = vec!['m', 'k', 'v'];
    let mp4 = vec!['m', 'p', '4'];
    assert(mkv@ =~= seq!['m', 'k', 'v']);
    assert(mp4@ =~= seq!['m', 'p', '4']);
    has_word_at(s, n - 3, &mkv) || has_word_at(s, n - 3, &mp4)
}

/// Drops a video extension, then turns separators into spaces.
fn spaced(s: &Vec<char>) -> (r: Vec<char>)
    ensures
        r@ == strip_ext(s@).map_values(|c: char| sep_to_space(c)),
{
    let n = if video_ext(s) {
        s.len() - 4
    } else {
        s.len()
    };
    let ghost src = strip_ext(s@);
    assert(src.len() == n && forall|k: int| 0 <= k < n ==> src[k] == s@[k]);
    let mut r: Vec<char> = Vec::new();
    let mut i: usize = 0;
    while i < n
        invariant
            n <= s@.len(),
            src.len() == n,
            forall|k: int| 0 <= k < n ==> src[k] == s@[k],
            i <= n,
            r@ == src.take(i as int).map_values(|c: char| sep_to_space(c)),
        decreases n - i,
    {
        let c = s[i];
        let d = if c == '_' || c == '-' || c == '.' {
            ' '
        } else {
            c
        };
        r.push(d);
        i = i + 1;
        assert(r@ =~= src.take(i as int).map_values(|c: char| sep_to_space(c)));
    }
    assert(src.take(n as int) =~= src);
    r
}

/// Replaces each group from `o` to the next `cl` by one space.
fn remove_groups(s: &Vec<char>, o: char, cl: char) -> (r: Vec<char>)
    ensures
        r@ == strip_groups(s@, o, cl),
{
    let mut out: Vec<char> = Vec::new();
    let mut inside = false;
    let mut held: Vec<char> = Vec::new();
    let mut i: usize = 0;
    while i < s.len()
        invariant
            i <= s@.len(),
            (out@, inside, held@) == group_scan(s@.take(i as int), o, cl),
        decreases s@.len() - i,
    {
        let c = s[i];
        assert(s@.take(i + 1).drop_last() =~= s@.take(i as int));
        if inside {
            if c == cl {
                out.push(' ');
                inside = false;
                held = Vec::new();
            } else {
                held.push(c);
            }
        } else if c == o {
            inside = true;
            held = Vec::new();
        } else {
            out.push(c);
        }
        i = i + 1;
        assert((out@, inside, held@) =~~= group_scan(s@.take(i as int), o, cl));
    }
    assert(s@.take(s@.len() as int) =~= s@);
    if inside {
        out.push(o);
        let mut k: usize = 0;
        let ghost base = out@;
        while k < held.len()
            invariant
                k <= held@.len(),
                out@ == base + held@.take(k as int),
            decreases held@.len() - k,
        {
            out.push(held[k]);
            k = k + 1;
            assert(out@ =~= base + held@.take(k as int));
        }
        assert(held@.take(held@.len() as int) =~= held@);
    }
    out
}

fn tagged(w: &Vec<char>, m: &Vec<char>) -> (r: bool)
    ensures
        r == tagged_with(w@, m@),
{
    w.len() > m.len() && has_word_at(w, 0, m) && digit(w[m.len()])
}

/// Adds word `w` to `out`, as `word_step` says.
fn add_word(out: &mut Vec<char>, after_marker: bool, w: &Vec<char>) -> (r: bool)
    ensures
        (final(out)@, r) == word_step((old(out)@, after_marker), w@),
{
    let w7 = episode_vec();
    let w2 = ep_vec();
    let w1 = e_vec();
    if after_marker && w.len() > 0 && digit(w[0]) {
        return false;
    }
    if (w.len() == 7 && has_word_at(w, 0, &w7)) || (w.len() == 2 && has_word_at(w, 0, &w2)) || (
    w.len() == 1 && has_word_at(w, 0, &w1)) {
        return true;
    }
    if tagged(w, &w7) || tagged(w, &w2) || tagged(w, &w1) {
        return false;
    }
    let ghost before = out@;
    if out.len() > 0 {
        out.push(' ');
    }
    let ghost mid = out@;
    let mut k: usize = 0;
    while k < w.len()
        invariant
            k <= w@.len(),
            out@ == mid + w@.take(k as int),
        decreases w@.len() - k,
    {
        out.push(w[k]);
        k = k + 1;
        assert(out@ =~= mid + w@.take(k as int));
    }
    assert(w@.take(w@.len() as int) =~= w@);
    proof {
        if before.len() == 0 {
            assert(out@ =~= w@);
        } else {
            assert(out@ =~= before + seq![' '] + w@);
        }
    }
    false
}

/// Splits `s` into words and joins those that are kept, as `join_words` says.
fn words_joined(s: &Vec<char>) -> (r: Vec<char>)
    ensures
        r@ == join_words(s@),
{
    let mut out: Vec<char> = Vec::new();
    let mut pending = false;
    let mut cur: Vec<char> = Vec::new();
    let mut i: usize = 0;
    while i < s.len()
        invariant
            i <= s@.len(),
            (out@, pending, cur@) == title_scan(s@.take(i as int)),
        decreases s@.len() - i,
    {
        let c = s[i];
        assert(s@.take(i + 1).drop_last() =~= s@.take(i as int));
        if ws(c) {
            if cur.len() > 0 {
                pending = add_word(&mut out, pending, &cur);
                cur = Vec::new();
            }
        } else {
            cur.push(c);
        }
        i = i + 1;
        assert((out@, pending, cur@) =~~= title_scan(s@.take(i as int)));
    }
    assert(s@.take(s@.len() as int) =~= s@);
    if cur.len() > 0 {
        add_word(&mut out, pending, &cur);
    }
    out
}

/// The title of a file name, as `title_of` says.
pub fn clean_title(filename: &str) -> (r: String)
    ensures
        r@ == title_of(filename@),
{
    let s = chars_of(filename);
    let a = spaced(&s);
    let b = remove_groups(&a, '[', ']');
    let c = remove_groups(&b, '(', ')');
    let w = words_joined(&c);
    string_of(&w)
}

impl AnimeInfo {
    /// Reads the title and the episode number of a file name.
    pub fn from_filename(filename: &str) -> (r: AnimeInfo)
        ensures
            r.title@ == title_of(filename@),
            r.episode == episode_of(filename@),
    {
        let s = chars_of(filename);
        let episode = episode_number(&s);
        let title = clean_title(filename);
        AnimeInfo { title, episode }
    }
}

proof fn lemma_first_marker_is(s: Seq<char>, k: int, p: int)
    requires
        0 <= k <= p,
        marker_at(s, p),
        forall|j: int| 0 <= j < p ==> !marker_at(s, j),
    ensures
        first_marker_from(s, k) == p,
    decreases p - k,
{
    if k < p {
        lemma_first_marker_is(s, k + 1, p);
    }
}

proof fn lemma_no_marker_from(s: Seq<char>, k: int)
    requires
        0 <= k,
        forall|j: int| 0 <= j < s.len() ==> !marker_at(s, j),
    ensures
        first_marker_from(s, k) == -1,
    decreases s.len() - k,
{
    if k < s.len() {
        lemma_no_marker_from(s, k + 1);
    }
}

/// A file name whose first episode marker stands at `p` has as episode
/// exactly the number written after that marker, where it fits an `i32`.
pub proof fn lemma_marker_gives_episode(s: Seq<char>, p: int)
    requires
        marker_at(s, p),
        forall|j: int| 0 <= j < p ==> !marker_at(s, j),
        marker_number(s, p) <= i32::MAX,
    ensures
        episode_of(s) == Some(marker_number(s, p) as i32),
{
    lemma_first_marker_is(s, 0, p);
}

/// A file name with no episode marker word followed by digits (a bare
/// trailing number, say) has no episode.
pub proof fn lemma_no_marker_no_episode(s: Seq<char>)
    requires
        forall|j: int| 0 <= j < s.len() ==> !marker_at(s, j),
    ensures
        episode_of(s) is None,
{
    lemma_no_marker_from(s, 0);
}

} // verus!
