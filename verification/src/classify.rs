//! The chat classifier and event matcher: ordinary player speech is
//! discarded; what is left is matched, finish event first, against the
//! locale's two lifecycle patterns.

use vstd::prelude::*;

use crate::locale::{finish_prefix, lemma_pattern_lens, selection_marker, Locale};
use crate::text::{
    find_first, in_class, in_class_exec, lemma_find_from_props, match_at, match_at_exec, run_end,
    run_end_exec, split_by, split_by_exec, starts_with, views_of, CharClass,
};

verus! {

/// Ordinary player speech of the plain shape: a non-empty run of word
/// characters followed by `: `.
pub open spec fn is_plain_chat(s: Seq<char>) -> bool {
    let r = run_end(s, CharClass::Word, 0);
    &&& r > 0
    &&& r + 2 <= s.len()
    &&& s[r] == ':'
    &&& s[r + 1] == ' '
}

/// Ordinary player speech with a rank or guild tag: a bracketed non-empty
/// run of word characters or `+`, a space, then the plain shape again.
pub open spec fn is_prefixed_chat(s: Seq<char>) -> bool {
    &&& s.len() > 0
    &&& s[0] == '['
    &&& {
        let b = run_end(s, CharClass::WordPlus, 1);
        &&& b > 1
        &&& b + 2 <= s.len()
        &&& s[b] == ']'
        &&& s[b + 1] == ' '
        &&& {
            let w = run_end(s, CharClass::Word, b + 2);
            &&& w > b + 2
            &&& w + 2 <= s.len()
            &&& s[w] == ':'
            &&& s[w + 1] == ' '
        }
    }
}

/// Ordinary player speech of either shape; such a message never reaches
/// the state machine.
pub open spec fn is_player_chat(s: Seq<char>) -> bool {
    is_plain_chat(s) || is_prefixed_chat(s)
}

/// Ordinary player speech of either shape.
pub fn is_player_chat_exec(msg: &str) -> (r: bool)
    ensures
        r == is_player_chat(msg@),
{
    let n = msg.unicode_len();
    let w0 = run_end_exec(msg, CharClass::Word, 0);
    let plain = w0 > 0 && w0 < n && w0 + 1 < n && msg.get_char(w0) == ':' && msg.get_char(w0 + 1)
        == ' ';
    if plain {
        return true;
    }
    if n == 0 || msg.get_char(0) != '[' {
        return false;
    }
    let b = run_end_exec(msg, CharClass::WordPlus, 1);
    if !(b > 1 && b < n && b + 1 < n && msg.get_char(b) == ']' && msg.get_char(b + 1) == ' ') {
        return false;
    }
    let w = run_end_exec(msg, CharClass::Word, b + 2);
    w > b + 2 && w < n && w + 1 < n && msg.get_char(w) == ':' && msg.get_char(w + 1) == ' '
}

/// The message announces that the current map is finished.
pub open spec fn is_finish(msg: Seq<char>, l: Locale) -> bool {
    starts_with(msg, finish_prefix(l))
}

/// `s` begins with `pre`.
pub fn starts_with_exec(s: &str, pre: &str) -> (r: bool)
    ensures
        r == starts_with(s@, pre@),
{
    let ns = s.unicode_len();
    let np = pre.unicode_len();
    if np > ns {
        return false;
    }
    match_at_exec(s, pre, 0)
}

/// The selection pattern matches at `i`: the marker occurs there and is
/// followed by at least one map-name-list character.
pub open spec fn sel_match_at(s: Seq<char>, m: Seq<char>, i: int) -> bool {
    &&& match_at(s, m, i)
    &&& i + m.len() < s.len()
    &&& in_class(CharClass::NameList, s[i + m.len()])
}

/// The first position at or after `i` where the selection pattern
/// matches, if any.
pub open spec fn find_sel_from(s: Seq<char>, m: Seq<char>, i: int) -> Option<int>
    decreases s.len() - i + 1,
{
    if i < 0 || i + m.len() >= s.len() {
        Option::None
    } else if sel_match_at(s, m, i) {
        Option::Some(i)
    } else {
        find_sel_from(s, m, i + 1)
    }
}

/// What a found selection position means.
pub proof fn lemma_find_sel_from_props(s: Seq<char>, m: Seq<char>, i: int)
    requires
        0 <= i,
    ensures
        match find_sel_from(s, m, i) {
            Option::Some(k) => {
                &&& i <= k
                &&& k + m.len() < s.len()
                &&& sel_match_at(s, m, k)
            },
            Option::None => true,
        },
    decreases s.len() - i + 1,
{
    if i + m.len() < s.len() && !sel_match_at(s, m, i) {
        lemma_find_sel_from_props(s, m, i + 1);
    }
}

/// The captured map-name list of a "maps selected" announcement: the
/// maximal run of map-name-list characters that follows the first match of
/// the selection pattern.
pub open spec fn selection_capture(s: Seq<char>, m: Seq<char>) -> Option<Seq<char>> {
    match find_sel_from(s, m, 0) {
        Option::None => Option::None,
        Option::Some(i) => Option::Some(
            s.subrange(i + m.len(), run_end(s, CharClass::NameList, i + m.len())),
        ),
    }
}

/// The separator between two captured map names.
pub open spec fn name_separator() -> Seq<char> {
    ", "@
}

/// The separator between two captured map names.
pub fn name_separator_exec() -> (r: &'static str)
    ensures
        r@ == name_separator(),
        r@.len() == 2,
{
    proof {
        reveal_strlit(", ");
    }
    ", "
}

/// The ordered list of map names a "maps selected" announcement declares,
/// if the message is one: the capture split on `, `. The list is never
/// empty.
pub open spec fn selection_names(msg: Seq<char>, l: Locale) -> Option<Seq<Seq<char>>> {
    match selection_capture(msg, selection_marker(l)) {
        Option::None => Option::None,
        Option::Some(c) => Option::Some(split_by(c, name_separator())),
    }
}

/// The first position where the selection pattern matches, if any.
pub fn find_selection(s: &str, m: &str) -> (r: Option<usize>)
    requires
        m@.len() > 0,
    ensures
        match r {
            Option::Some(i) => find_sel_from(s@, m@, 0) == Option::Some(i as int),
            Option::None => find_sel_from(s@, m@, 0) is None,
        },
{
    let ns = s.unicode_len();
    let mn = m.unicode_len();
    if mn >= ns {
        return None;
    }
    let mut i: usize = 0;
    while i < ns - mn
        invariant
            ns == s@.len(),
            mn == m@.len(),
            0 < mn < ns,
            i as int <= ns - mn,
            find_sel_from(s@, m@, 0) == find_sel_from(s@, m@, i as int),
        decreases ns - i,
    {
        if match_at_exec(s, m, i) && in_class_exec(CharClass::NameList, s.get_char(i + mn)) {
            return Some(i);
        }
        i = i + 1;
    }
    None
}

/// The captured map-name list of a "maps selected" announcement, if the
/// message is one.
pub fn selection_capture_exec(msg: &str, m: &str) -> (r: Option<String>)
    requires
        m@.len() > 0,
    ensures
        match r {
            Option::Some(c) => selection_capture(msg@, m@) == Option::Some(c@),
            Option::None => selection_capture(msg@, m@) is None,
        },
{
    match find_selection(msg, m) {
        Option::None => None,
        Option::Some(i) => {
            proof {
                lemma_find_sel_from_props(msg@, m@, 0);
            }
            // The length call also bounds `i + m@.len()` by `usize`.
            let _n: usize = msg.unicode_len();
            let st = i + m.unicode_len();
            let e = run_end_exec(msg, CharClass::NameList, st);
            Some(msg.substring_char(st, e).to_owned())
        },
    }
}

/// A system message's meaning for the state machine, if it has one.
pub enum ChatEvent {
    /// The current map is finished.
    MapFinished,
    /// The maps for the coming session were selected, in this order.
    MapsSelected(Vec<String>),
}

/// Matches a system message against the locale's two lifecycle patterns,
/// finish event first; a message that matches neither means nothing.
pub fn classify_message(msg: &str, locale: Locale) -> (r: Option<ChatEvent>)
    ensures
        is_finish(msg@, locale) ==> r == Option::Some(ChatEvent::MapFinished),
        !is_finish(msg@, locale) && selection_names(msg@, locale) is Some ==> ({
            &&& r matches Option::Some(ChatEvent::MapsSelected(v))
            &&& views_of(v@) == selection_names(msg@, locale).unwrap()
            &&& v@.len() > 0
        }),
        !is_finish(msg@, locale) && selection_names(msg@, locale) is None ==> r is None,
{
    proof {
        lemma_pattern_lens(locale);
    }
    if starts_with_exec(msg, locale.finish_prefix()) {
        return Some(ChatEvent::MapFinished);
    }
    match selection_capture_exec(msg, locale.selection_marker()) {
        Option::None => None,
        Option::Some(cap) => {
            let names = split_by_exec(cap.as_str(), name_separator_exec());
            proof {
                crate::text::lemma_split_by_nonempty(cap@, name_separator());
            }
            Some(ChatEvent::MapsSelected(names))
        },
    }
}

} // verus!
