//! Character-sequence ground work for the chat patterns: substring matching,
//! counting and searching, character classes and their maximal runs, and
//! splitting on a separator. Everything is stated over `Seq<char>` views.

use vstd::prelude::*;

verus! {

/// The pattern `pat` occurs in `s` at position `i`.
pub open spec fn match_at(s: Seq<char>, pat: Seq<char>, i: int) -> bool {
    &&& 0 <= i
    &&& i + pat.len() <= s.len()
    &&& forall|j: int| 0 <= j < pat.len() ==> s[i + j] == pat[j]
}

/// How many positions at or after `i` the pattern occurs at.
pub open spec fn match_count_from(s: Seq<char>, pat: Seq<char>, i: int) -> nat
    decreases s.len() - i + 1,
{
    if i < 0 || i + pat.len() > s.len() {
        0
    } else {
        (if match_at(s, pat, i) {
            1nat
        } else {
            0nat
        }) + match_count_from(s, pat, i + 1)
    }
}

/// How many positions of `s` the pattern occurs at.
pub open spec fn match_count(s: Seq<char>, pat: Seq<char>) -> nat {
    match_count_from(s, pat, 0)
}

/// The first position at or after `i` where the pattern occurs, if any.
pub open spec fn find_from(s: Seq<char>, pat: Seq<char>, i: int) -> Option<int>
    decreases s.len() - i + 1,
{
    if i < 0 || i + pat.len() > s.len() {
        None
    } else if match_at(s, pat, i) {
        Some(i)
    } else {
        find_from(s, pat, i + 1)
    }
}

/// The first position of `s` where the pattern occurs, if any.
pub open spec fn find(s: Seq<char>, pat: Seq<char>) -> Option<int> {
    find_from(s, pat, 0)
}

/// `s` begins with `pre`.
pub open spec fn starts_with(s: Seq<char>, pre: Seq<char>) -> bool {
    match_at(s, pre, 0)
}

/// `s` split on every occurrence of the non-empty separator, left to right.
/// The result always has at least one element.
pub open spec fn split_by(s: Seq<char>, sep: Seq<char>) -> Seq<Seq<char>>
    recommends
        sep.len() > 0,
    decreases s.len() when sep.len() > 0
{
    match find(s, sep) {
        Option::None => seq![s],
        Option::Some(i) => if 0 <= i && i + sep.len() <= s.len() {
            seq![s.subrange(0, i)] + split_by(s.subrange(i + sep.len(), s.len() as int), sep)
        } else {
            // `find` never returns an out-of-range position; this arm only
            // keeps the recursion well-founded.
            seq![s]
        },
    }
}

/// What a found position means: it is in range, the pattern occurs there,
/// and at no earlier position at or after `i`.
pub proof fn lemma_find_from_props(s: Seq<char>, pat: Seq<char>, i: int)
    requires
        0 <= i,
    ensures
        match find_from(s, pat, i) {
            Option::Some(k) => {
                &&& i <= k
                &&& k + pat.len() <= s.len()
                &&& match_at(s, pat, k)
                &&& forall|j: int| i <= j < k ==> !match_at(s, pat, j)
            },
            Option::None => forall|j: int| i <= j ==> !match_at(s, pat, j),
        },
    decreases s.len() - i + 1,
{
    if i + pat.len() > s.len() {
        assert forall|j: int| i <= j implies !match_at(s, pat, j) by {}
    } else if !match_at(s, pat, i) {
        lemma_find_from_props(s, pat, i + 1);
    }
}

/// The character sequences of a sequence of strings.
pub open spec fn views_of(q: Seq<String>) -> Seq<Seq<char>> {
    Seq::new(q.len(), |i: int| q[i]@)
}

/// Appending a string appends its characters to the sequence of views.
pub proof fn lemma_views_of_push(q: Seq<String>, x: String)
    ensures
        views_of(q.push(x)) == views_of(q).push(x@),
{
    assert(views_of(q.push(x)) =~= views_of(q).push(x@));
}

/// Dropping the front string drops the front view.
pub proof fn lemma_views_of_drop_first(q: Seq<String>)
    requires
        q.len() > 0,
    ensures
        views_of(q.drop_first()) == views_of(q).drop_first(),
{
    assert(views_of(q.drop_first()) =~= views_of(q).drop_first());
}

/// Splitting never yields an empty list: even a separator-free string is
/// one piece.
pub proof fn lemma_split_by_nonempty(s: Seq<char>, sep: Seq<char>)
    requires
        sep.len() > 0,
    ensures
        split_by(s, sep).len() >= 1,
{
}

/// `s` split on every occurrence of the non-empty separator.
pub fn split_by_exec(s: &str, sep: &str) -> (r: Vec<String>)
    requires
        sep@.len() > 0,
    ensures
        views_of(r@) == split_by(s@, sep@),
{
    let mut out: Vec<String> = Vec::new();
    let mut rest: &str = s;
    proof {
        assert(views_of(out@) =~= Seq::<Seq<char>>::empty());
        assert(views_of(out@) + split_by(rest@, sep@) =~= split_by(s@, sep@));
    }
    loop
        invariant
            sep@.len() > 0,
            views_of(out@) + split_by(rest@, sep@) == split_by(s@, sep@),
        decreases rest@.len(),
    {
        let rn = rest.unicode_len();
        let sn = sep.unicode_len();
        match find_first(rest, sep) {
            Option::None => {
                let ghost old_out = out@;
                out.push(rest.to_owned());
                proof {
                    lemma_views_of_push(old_out, out@[out@.len() - 1]);
                    assert(views_of(old_out) + split_by(rest@, sep@) =~= views_of(out@));
                }
                return out;
            },
            Option::Some(i) => {
                proof {
                    lemma_find_from_props(rest@, sep@, 0);
                }
                let piece = rest.substring_char(0, i);
                let tail = rest.substring_char(i + sn, rn);
                let ghost old_out = out@;
                out.push(piece.to_owned());
                proof {
                    lemma_views_of_push(old_out, out@[out@.len() - 1]);
                    assert(views_of(out@) + split_by(tail@, sep@) =~= views_of(old_out) + split_by(
                        rest@,
                        sep@,
                    ));
                }
                rest = tail;
            },
        }
    }
}

/// A word character: a letter, a digit or an underscore.
pub open spec fn is_word_char(c: char) -> bool {
    ||| 'a' <= c <= 'z'
    ||| 'A' <= c <= 'Z'
    ||| '0' <= c <= '9'
    ||| c == '_'
}

/// The character classes the chat patterns are built from.
#[derive(Clone, Copy, PartialEq, Eq, Structural, Debug)]
pub enum CharClass {
    /// Word characters: what a player name is made of.
    Word,
    /// Word characters or `+`: what a rank tag between brackets is made of.
    WordPlus,
    /// Word characters, apostrophe, comma or space: what a captured
    /// map-name list is made of.
    NameList,
}

/// Membership of `c` in the class.
pub open spec fn in_class(cl: CharClass, c: char) -> bool {
    match cl {
        CharClass::Word => is_word_char(c),
        CharClass::WordPlus => is_word_char(c) || c == '+',
        CharClass::NameList => is_word_char(c) || c == '\'' || c == ',' || c == ' ',
    }
}

/// The end of the maximal run of class characters that starts at `i`: the
/// least position at or after `i` that is out of bounds or holds a
/// character outside the class.
pub open spec fn run_end(s: Seq<char>, cl: CharClass, i: int) -> int
    decreases s.len() - i when 0 <= i <= s.len()
{
    if i < 0 || i >= s.len() {
        i
    } else if in_class(cl, s[i]) {
        run_end(s, cl, i + 1)
    } else {
        i
    }
}

/// A run's end never lies before its start and never passes the end of the
/// sequence.
pub proof fn lemma_run_end_bounds(s: Seq<char>, cl: CharClass, i: int)
    requires
        0 <= i <= s.len(),
    ensures
        i <= run_end(s, cl, i) <= s.len(),
    decreases s.len() - i,
{
    if i < s.len() && in_class(cl, s[i]) {
        lemma_run_end_bounds(s, cl, i + 1);
    }
}

/// Everything inside the run is in the class, and the character just past
/// the run, if there is one, is not.
pub proof fn lemma_run_end_chars(s: Seq<char>, cl: CharClass, i: int)
    requires
        0 <= i <= s.len(),
    ensures
        forall|j: int| i <= j < run_end(s, cl, i) ==> in_class(cl, s[j]),
        run_end(s, cl, i) < s.len() ==> !in_class(cl, s[run_end(s, cl, i)]),
    decreases s.len() - i,
{
    if i < s.len() && in_class(cl, s[i]) {
        lemma_run_end_chars(s, cl, i + 1);
        lemma_run_end_bounds(s, cl, i + 1);
    }
}

/// Two text fragments are the same sequence of characters.
pub fn str_eq(a: &str, b: &str) -> (r: bool)
    ensures
        r == (a@ == b@),
{
    let na = a.unicode_len();
    let nb = b.unicode_len();
    if na != nb {
        return false;
    }
    let mut i: usize = 0;
    while i < na
        invariant
            na == a@.len(),
            na == b@.len(),
            0 <= i <= na,
            forall|j: int| 0 <= j < i ==> a@[j] == b@[j],
        decreases na - i,
    {
        if a.get_char(i) != b.get_char(i) {
            return false;
        }
        i = i + 1;
    }
    proof {
        assert(a@ =~= b@);
    }
    true
}

/// Decides `match_at` for a position that is in range.
pub fn match_at_exec(s: &str, pat: &str, i: usize) -> (r: bool)
    requires
        i + pat@.len() <= s@.len(),
    ensures
        r == match_at(s@, pat@, i as int),
{
    let np = pat.unicode_len();
    let ns = s.unicode_len();
    let mut j: usize = 0;
    while j < np
        invariant
            np == pat@.len(),
            ns == s@.len(),
            i + np <= ns,
            0 <= j <= np,
            forall|k: int| 0 <= k < j ==> s@[i + k] == pat@[k],
        decreases np - j,
    {
        if s.get_char(i + j) != pat.get_char(j) {
            return false;
        }
        j = j + 1;
    }
    true
}

/// The first position of `s` where the non-empty pattern occurs, if any.
pub fn find_first(s: &str, pat: &str) -> (r: Option<usize>)
    requires
        pat@.len() > 0,
    ensures
        match r {
            Option::Some(i) => find(s@, pat@) == Option::Some(i as int),
            Option::None => find(s@, pat@) is None,
        },
{
    let ns = s.unicode_len();
    let np = pat.unicode_len();
    if np > ns {
        return None;
    }
    let mut i: usize = 0;
    while i <= ns - np
        invariant
            ns == s@.len(),
            np == pat@.len(),
            0 < np <= ns,
            i as int <= ns - np + 1,
            find(s@, pat@) == find_from(s@, pat@, i as int),
        decreases ns - i,
    {
        if match_at_exec(s, pat, i) {
            return Some(i);
        }
        i = i + 1;
    }
    None
}

/// How many positions of `s` the non-empty pattern occurs at.
pub fn count_matches(s: &str, pat: &str) -> (r: usize)
    requires
        pat@.len() > 0,
    ensures
        r as nat == match_count(s@, pat@),
{
    let ns = s.unicode_len();
    let np = pat.unicode_len();
    if np > ns {
        return 0;
    }
    let mut i: usize = 0;
    let mut c: usize = 0;
    while i <= ns - np
        invariant
            ns == s@.len(),
            np == pat@.len(),
            0 < np <= ns,
            i as int <= ns - np + 1,
            c <= i,
            c as nat + match_count_from(s@, pat@, i as int) == match_count(s@, pat@),
        decreases ns - i,
    {
        if match_at_exec(s, pat, i) {
            c = c + 1;
        }
        i = i + 1;
    }
    c
}

/// The end of the maximal run of class characters that starts at `i`.
pub fn run_end_exec(s: &str, cl: CharClass, i: usize) -> (r: usize)
    requires
        i <= s@.len(),
    ensures
        r as int == run_end(s@, cl, i as int),
        i <= r <= s@.len(),
{
    let ns = s.unicode_len();
    let mut j: usize = i;
    while j < ns && in_class_exec(cl, s.get_char(j))
        invariant
            ns == s@.len(),
            i <= j <= ns,
            run_end(s@, cl, i as int) == run_end(s@, cl, j as int),
        decreases ns - j,
    {
        j = j + 1;
    }
    j
}

/// Membership of `c` in the class.
pub fn in_class_exec(cl: CharClass, c: char) -> (r: bool)
    ensures
        r == in_class(cl, c),
{
    let word = ('a' <= c && c <= 'z') || ('A' <= c && c <= 'Z') || ('0' <= c && c <= '9') || c
        == '_';
    match cl {
        CharClass::Word => word,
        CharClass::WordPlus => word || c == '+',
        CharClass::NameList => word || c == '\'' || c == ',' || c == ' ',
    }
}

} // verus!
