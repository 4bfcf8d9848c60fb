//! Resolution of the client's log file path, as pure decisions: the
//! caller supplies the environment values and the directory listing, and
//! gets back the path the session should tail. Opening, listing and
//! checking files stays with the caller.

use vstd::prelude::*;

verus! {

/// One entry of a log directory's listing: its path and the moment it
/// was last modified, as a count on a fixed scale (larger is more
/// recent).
pub struct LogDirEntry {
    pub path: String,
    pub modified: u64,
}

/// `p` is the path of the first most-recently-modified entry: no entry
/// is more recent, and every earlier entry is strictly older.
pub open spec fn is_first_latest(es: Seq<LogDirEntry>, p: Seq<char>) -> bool {
    exists|k: int|
        #![auto]
        {
            &&& 0 <= k < es.len()
            &&& p == es[k].path@
            &&& forall|j: int| 0 <= j < es.len() ==> es[j].modified <= es[k].modified
            &&& forall|j: int| 0 <= j < k ==> es[j].modified < es[k].modified
        }
}

/// The path of the most recently modified entry of a directory listing,
/// the first of several equally recent ones; nothing for an empty
/// listing.
pub fn get_latest_file_path(entries: &Vec<LogDirEntry>) -> (r: Option<String>)
    ensures
        entries@.len() == 0 ==> r is None,
        entries@.len() > 0 ==> (r matches Option::Some(p) && is_first_latest(entries@, p@)),
{
    if entries.len() == 0 {
        return None;
    }
    let mut best: usize = 0;
    let mut i: usize = 1;
    while i < entries.len()
        invariant
            entries@.len() > 0,
            best < i <= entries@.len(),
            forall|j: int| 0 <= j < i ==> entries@[j].modified <= entries@[best as int].modified,
            forall|j: int| 0 <= j < best ==> entries@[j].modified < entries@[best as int].modified,
        decreases entries@.len() - i,
    {
        if entries[i].modified > entries[best].modified {
            best = i;
        }
        i = i + 1;
    }
    let p = entries[best].path.clone();
    proof {
        let k = best as int;
        assert(0 <= k < entries@.len() && p@ == entries@[k].path@ && (forall|j: int|
            0 <= j < entries@.len() ==> entries@[j].modified <= entries@[k].modified) && (forall|
            j: int,
        |
            0 <= j < k ==> entries@[j].modified < entries@[k].modified));
    }
    Some(p)
}

/// The directory a particular client writes its game logs under, given
/// the user's home directory (the value of the `HOME` environment
/// variable, if it is set).
pub fn get_lunar_client_directory_path(home: Option<String>) -> (r: Option<String>)
    ensures
        home is None ==> r is None,
        home matches Option::Some(h) ==> r matches Option::Some(p) && p@ == h@
            + "/.lunarclient/logs/game"@,
{
    match home {
        Option::None => None,
        Option::Some(h) => Some(h.concat("/.lunarclient/logs/game")),
    }
}

/// The log file to tail for that client: the most recently modified file
/// in its log directory. The caller resolves the directory with
/// `get_lunar_client_directory_path`, lists it, and hands the listing
/// in; without a home directory there is no log path.
pub fn get_lunar_client_log_path(home: Option<String>, entries: &Vec<LogDirEntry>) -> (r: Option<
    String,
>)
    ensures
        home is None ==> r is None,
        home is Some && entries@.len() == 0 ==> r is None,
        home is Some && entries@.len() > 0 ==> (r matches Option::Some(p) && is_first_latest(
            entries@,
            p@,
        )),
{
    match home {
        Option::None => None,
        Option::Some(_) => get_latest_file_path(entries),
    }
}

/// The fixed log file of a client that keeps one, given the value of the
/// platform's application-data environment variable; on platforms
/// without one there is no log path.
pub fn get_badlion_log_path(appdata: Option<String>) -> (r: Option<String>)
    ensures
        appdata is None ==> r is None,
        appdata matches Option::Some(a) ==> r matches Option::Some(p) && p@ == a@
            + "\\.minecraft\\logs\\blclient\\minecraft\\latest.log"@,
{
    match appdata {
        Option::None => None,
        Option::Some(a) => Some(a.concat("\\.minecraft\\logs\\blclient\\minecraft\\latest.log")),
    }
}

} // verus!
