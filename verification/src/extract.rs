//! The chat extractor: it recognises the `[CHAT] ` envelope, strips
//! display-formatting escape sequences, and hands on the bare message
//! payload; every other line is discarded.

use vstd::prelude::*;

use crate::text::{count_matches, find, find_first, lemma_find_from_props, match_count};

verus! {

/// The in-band character that starts a two-character formatting escape.
pub const FORMAT_ESCAPE: char = '\u{00a7}';

/// The envelope a client writes around in-game chat lines.
pub open spec fn chat_marker() -> Seq<char> {
    "[CHAT] "@
}

/// The envelope a client writes around in-game chat lines.
pub fn chat_marker_exec() -> (r: &'static str)
    ensures
        r@ == chat_marker(),
{
    "[CHAT] "
}

/// The envelope marker is seven characters long.
pub proof fn lemma_chat_marker_len()
    ensures
        chat_marker().len() == 7,
{
    reveal_strlit("[CHAT] ");
}

/// `s` with every formatting escape removed, left to right: an escape
/// character followed by one arbitrary character vanishes; a lone trailing
/// escape character stays.
pub open spec fn strip_escapes(s: Seq<char>) -> Seq<char>
    decreases s.len(),
{
    if s.len() == 0 {
        Seq::empty()
    } else if s[0] == FORMAT_ESCAPE && s.len() >= 2 {
        strip_escapes(s.subrange(2, s.len() as int))
    } else {
        seq![s[0]] + strip_escapes(s.subrange(1, s.len() as int))
    }
}

/// A sequence with no escape sequence in it is unchanged by stripping.
/// (An escape character in the last position starts no sequence.)
pub proof fn lemma_strip_escapes_identity(s: Seq<char>)
    requires
        forall|i: int| 0 <= i < s.len() - 1 ==> s[i] != FORMAT_ESCAPE,
    ensures
        strip_escapes(s) == s,
    decreases s.len(),
{
    if s.len() == 0 {
        assert(strip_escapes(s) =~= s);
    } else {
        let rest = s.subrange(1, s.len() as int);
        assert(forall|i: int| 0 <= i < rest.len() - 1 ==> rest[i] == s[i + 1]);
        lemma_strip_escapes_identity(rest);
        assert(seq![s[0]] + rest =~= s);
    }
}

/// `s` with every formatting escape removed.
pub fn strip_escapes_exec(s: &str) -> (r: String)
    ensures
        r@ == strip_escapes(s@),
{
    let n = s.unicode_len();
    let mut r = String::new();
    let mut i: usize = 0;
    proof {
        assert(s@.subrange(0, n as int) =~= s@);
    }
    while i < n
        invariant
            n == s@.len(),
            i <= n,
            r@ + strip_escapes(s@.subrange(i as int, n as int)) == strip_escapes(s@),
        decreases n - i,
    {
        let ghost t = s@.subrange(i as int, n as int);
        let c = s.get_char(i);
        if c == FORMAT_ESCAPE && i + 1 < n {
            proof {
                assert(t.subrange(2, t.len() as int) =~= s@.subrange(i + 2, n as int));
            }
            i = i + 2;
        } else {
            let ghost r0 = r@;
            let piece = s.substring_char(i, i + 1);
            r.append(piece);
            proof {
                assert(piece@ =~= seq![s@[i as int]]);
                assert(t.subrange(1, t.len() as int) =~= s@.subrange(i + 1, n as int));
                assert(strip_escapes(t) == seq![t[0]] + strip_escapes(
                    s@.subrange(i + 1, n as int),
                ));
                assert(r@ + strip_escapes(s@.subrange(i + 1, n as int)) =~= r0 + strip_escapes(t));
            }
            i = i + 1;
        }
    }
    proof {
        assert(s@.subrange(n as int, n as int) =~= Seq::<char>::empty());
        assert(r@ + Seq::<char>::empty() =~= r@);
    }
    r
}

/// The message payload of a chat line, if the line is one: the line must
/// hold the envelope marker exactly once; after stripping escapes, the
/// payload is everything that follows the marker's first occurrence, and
/// must be non-empty.
pub open spec fn extract_chat(line: Seq<char>) -> Option<Seq<char>> {
    if match_count(line, chat_marker()) != 1 {
        Option::None
    } else {
        let stripped = strip_escapes(line);
        match find(stripped, chat_marker()) {
            Option::None => Option::None,
            Option::Some(i) => {
                let payload = stripped.subrange(i + chat_marker().len(), stripped.len() as int);
                if payload.len() == 0 {
                    Option::None
                } else {
                    Option::Some(payload)
                }
            },
        }
    }
}

/// The message payload of a chat line, or nothing for a line that is not a
/// bare chat line.
pub fn extract_chat_exec(line: &str) -> (r: Option<String>)
    ensures
        match r {
            Option::Some(msg) => extract_chat(line@) == Option::Some(msg@),
            Option::None => extract_chat(line@) is None,
        },
{
    let marker = chat_marker_exec();
    proof {
        lemma_chat_marker_len();
    }
    if count_matches(line, marker) != 1 {
        return None;
    }
    let stripped = strip_escapes_exec(line);
    let st = stripped.as_str();
    match find_first(st, marker) {
        Option::None => None,
        Option::Some(i) => {
            proof {
                lemma_find_from_props(st@, marker@, 0);
            }
            let sn = st.unicode_len();
            let mlen = marker.unicode_len();
            if i + mlen == sn {
                return None;
            }
            let payload = st.substring_char(i + mlen, sn);
            Some(payload.to_owned())
        },
    }
}

} // verus!
