//! The read-only map-metadata dictionary and the rendering of the
//! user-facing notification body for an activated map. The dictionary is
//! loaded once at session start from an external document; the caller
//! hands it in as plain values.

use vstd::prelude::*;

use crate::text::str_eq;

verus! {

/// Static descriptive metadata of one map. A missing tip renders as
/// `no tip`; a missing skip tip renders as nothing.
pub struct MapInfo {
    pub difficulty: String,
    pub tip: Option<String>,
    pub portal_skip: bool,
    pub portal_skip_tip: Option<String>,
}

/// The dictionary: map name to metadata, first entry with a name wins.
pub struct MapInfoTable {
    pub entries: Vec<(String, MapInfo)>,
}

/// The metadata of the first entry carrying `name`, if any.
pub open spec fn lookup_spec(es: Seq<(String, MapInfo)>, name: Seq<char>) -> Option<MapInfo>
    decreases es.len(),
{
    if es.len() == 0 {
        Option::None
    } else if es[0].0@ == name {
        Option::Some(es[0].1)
    } else {
        lookup_spec(es.drop_first(), name)
    }
}

/// The tip to show: the map's own, or `no tip`.
pub open spec fn tip_text(t: Option<String>) -> Seq<char> {
    match t {
        Option::None => "no tip"@,
        Option::Some(s) => s@,
    }
}

/// The skip marker, shown only when the map has a portal skip.
pub open spec fn skip_text(portal_skip: bool) -> Seq<char> {
    if portal_skip {
        " | SKIP"@
    } else {
        Seq::empty()
    }
}

/// The parenthesized skip tip, shown only when the map has one.
pub open spec fn skip_tip_text(t: Option<String>) -> Seq<char> {
    match t {
        Option::None => Seq::empty(),
        Option::Some(s) => " ("@ + s@ + ")"@,
    }
}

/// One human-readable line for a known map: difficulty, tip, skip marker
/// and skip tip.
pub open spec fn info_line(info: MapInfo) -> Seq<char> {
    info.difficulty@ + " | "@ + tip_text(info.tip) + skip_text(info.portal_skip) + skip_tip_text(
        info.portal_skip_tip,
    )
}

/// The info line of the named map, or nothing at all for an unknown map.
pub open spec fn info_line_for(es: Seq<(String, MapInfo)>, name: Seq<char>) -> Seq<char> {
    match lookup_spec(es, name) {
        Option::None => Seq::empty(),
        Option::Some(info) => info_line(info),
    }
}

/// The body of the "map activated" notification: the map's name on the
/// first line, its info line (possibly empty) on the second.
pub open spec fn activation_body(name: Seq<char>, es: Seq<(String, MapInfo)>) -> Seq<char> {
    "You are now on "@ + name + "\n"@ + info_line_for(es, name)
}

impl MapInfoTable {
    /// The metadata of the named map, if the dictionary knows it.
    pub fn lookup(&self, name: &str) -> (r: Option<&MapInfo>)
        ensures
            match r {
                Option::Some(info) => lookup_spec(self.entries@, name@) == Option::Some(*info),
                Option::None => lookup_spec(self.entries@, name@) is None,
            },
    {
        let es = &self.entries;
        let mut i: usize = 0;
        proof {
            assert(es@.skip(0) =~= es@);
        }
        while i < es.len()
            invariant
                es@ == self.entries@,
                i <= es@.len(),
                lookup_spec(es@, name@) == lookup_spec(es@.skip(i as int), name@),
            decreases es@.len() - i,
        {
            let ghost rest = es@.skip(i as int);
            proof {
                assert(rest[0] == es@[i as int]);
                assert(rest.drop_first() =~= es@.skip(i + 1));
            }
            if str_eq(es[i].0.as_str(), name) {
                proof {
                    assert(lookup_spec(rest, name@) == Option::Some(rest[0].1));
                }
                return Some(&es[i].1);
            }
            i = i + 1;
        }
        proof {
            assert(es@.skip(es@.len() as int) =~= Seq::<(String, MapInfo)>::empty());
        }
        None
    }

    /// The info line of the named map, or the empty string for an
    /// unknown map: a lookup miss is valid, not an error.
    pub fn render_info(&self, name: &str) -> (r: String)
        ensures
            r@ == info_line_for(self.entries@, name@),
    {
        match self.lookup(name) {
            Option::None => {
                let r = String::new();
                r
            },
            Option::Some(info) => {
                let mut r = String::new();
                r.append(info.difficulty.as_str());
                r.append(" | ");
                match &info.tip {
                    Option::None => r.append("no tip"),
                    Option::Some(t) => r.append(t.as_str()),
                }
                if info.portal_skip {
                    r.append(" | SKIP");
                }
                match &info.portal_skip_tip {
                    Option::None => {},
                    Option::Some(t) => {
                        r.append(" (");
                        r.append(t.as_str());
                        r.append(")");
                    },
                }
                proof {
                    assert(r@ =~= info_line(*info));
                }
                r
            },
        }
    }
}

/// The body of the "map activated" notification for `map`: handed to the
/// notifier whenever a map becomes current.
pub fn handle_map(map: &str, table: &MapInfoTable) -> (body: String)
    ensures
        body@ == activation_body(map@, table.entries@),
{
    let mut r = String::new();
    r.append("You are now on ");
    r.append(map);
    r.append("\n");
    let info = table.render_info(map);
    r.append(info.as_str());
    proof {
        assert(r@ =~= activation_body(map@, table.entries@));
    }
    r
}

} // verus!
