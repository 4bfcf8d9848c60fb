//! The game state machine: it owns the queue of selected maps and the
//! current-map pointer, consumes one log line at a time, and says which
//! notifications the session owes the user. Its whole behaviour is stated
//! by the spec-level transition `step_line`, and every transition function
//! is proved against it.

use vstd::prelude::*;

use crate::classify::{
    is_finish, is_player_chat, selection_names, name_separator, classify_message,
    is_player_chat_exec, ChatEvent,
};
use crate::cursor::LogCursor;
use crate::extract::{extract_chat, extract_chat_exec};
use crate::locale::Locale;
use crate::text::{lemma_views_of_drop_first, str_eq, views_of};

verus! {

/// The mathematical state of the machine: the queued map names, the map
/// the session is currently on (none while idle), and the dedup token,
/// which holds the last fully processed raw line.
pub ghost struct MachineView {
    pub queue: Seq<Seq<char>>,
    pub current_map: Option<Seq<char>>,
    pub last_line: Seq<char>,
}

/// What one processed line asks the caller to announce: a "game started"
/// notification listing all selected maps, and a "map activated"
/// notification naming the map that just became current.
pub ghost struct OutputView {
    pub game_started: Option<Seq<Seq<char>>>,
    pub activated: Option<Seq<char>>,
}

/// No notification owed.
pub open spec fn no_output() -> OutputView {
    OutputView { game_started: Option::None, activated: Option::None }
}

/// One system message applied to the machine, finish event first. A
/// finish event pops the front of a non-empty queue and activates it; on
/// an empty queue it is a harmless no-op. A selection event replaces the
/// queue wholesale with the captured names, announces them all, and
/// immediately activates the first. A message that matches neither
/// pattern changes nothing.
pub open spec fn step_event(s: MachineView, msg: Seq<char>, l: Locale) -> (MachineView, OutputView) {
    if is_finish(msg, l) {
        if s.queue.len() > 0 {
            (
                MachineView { queue: s.queue.drop_first(), current_map: Option::Some(s.queue[0]), ..s },
                OutputView { game_started: Option::None, activated: Option::Some(s.queue[0]) },
            )
        } else {
            (s, no_output())
        }
    } else {
        match selection_names(msg, l) {
            Option::None => (s, no_output()),
            Option::Some(ns) => (
                MachineView { queue: ns.drop_first(), current_map: Option::Some(ns[0]), ..s },
                OutputView { game_started: Option::Some(ns), activated: Option::Some(ns[0]) },
            ),
        }
    }
}

/// One raw log line applied to the machine. A line equal to the dedup
/// token is skipped outright; any other line becomes the new token, and
/// its chat payload, if it has one and is not player speech, is applied
/// as a system message.
pub open spec fn step_line(s: MachineView, line: Seq<char>, l: Locale) -> (MachineView, OutputView) {
    if line == s.last_line {
        (s, no_output())
    } else {
        let s1 = MachineView { last_line: line, ..s };
        match extract_chat(line) {
            Option::None => (s1, no_output()),
            Option::Some(msg) => if is_player_chat(msg) {
                (s1, no_output())
            } else {
                step_event(s1, msg, l)
            },
        }
    }
}

/// The line is dropped without reaching the state machine: it is not a
/// bare chat line, or it is player speech, or it matches neither
/// lifecycle pattern.
pub open spec fn is_discarded(line: Seq<char>, l: Locale) -> bool {
    match extract_chat(line) {
        Option::None => true,
        Option::Some(msg) => is_player_chat(msg) || (!is_finish(msg, l) && selection_names(
            msg,
            l,
        ) is None),
    }
}

/// The machine after the same line was applied `n` times in a row.
pub open spec fn replay_line(s: MachineView, line: Seq<char>, l: Locale, n: nat) -> MachineView
    decreases n,
{
    if n == 0 {
        s
    } else {
        step_line(replay_line(s, line, l, (n - 1) as nat), line, l).0
    }
}

/// Popping on a finish event removes exactly the front element of a
/// non-empty queue and activates it; on an empty queue the event is a
/// no-op and no error.
pub proof fn lemma_finish_pops_front(s: MachineView, msg: Seq<char>, l: Locale)
    requires
        is_finish(msg, l),
    ensures
        s.queue.len() > 0 ==> {
            &&& step_event(s, msg, l).0.queue == s.queue.drop_first()
            &&& step_event(s, msg, l).1.activated == Option::Some(s.queue[0])
            &&& step_event(s, msg, l).1.game_started is None
        },
        s.queue.len() == 0 ==> {
            &&& step_event(s, msg, l).0 == s
            &&& step_event(s, msg, l).1 == no_output()
        },
{
}

/// A selection event replaces the queue with exactly the captured,
/// order-preserving list minus its first element, and the "game started"
/// announcement lists all captured names, the first included.
pub proof fn lemma_selection_replaces_queue(s: MachineView, msg: Seq<char>, l: Locale)
    requires
        !is_finish(msg, l),
        selection_names(msg, l) is Some,
    ensures
        step_event(s, msg, l).0.queue == selection_names(msg, l).unwrap().drop_first(),
        step_event(s, msg, l).1.game_started == Option::Some(selection_names(msg, l).unwrap()),
        step_event(s, msg, l).1.activated == Option::Some(selection_names(msg, l).unwrap()[0]),
{
}

/// Discarding is idempotent: however often a discarded line is replayed,
/// the queue and the current map stay what they were, and no replay emits
/// a notification.
pub proof fn lemma_discard_idempotent(s: MachineView, line: Seq<char>, l: Locale, n: nat)
    requires
        is_discarded(line, l),
    ensures
        replay_line(s, line, l, n).queue == s.queue,
        replay_line(s, line, l, n).current_map == s.current_map,
        step_line(replay_line(s, line, l, n), line, l).1 == no_output(),
    decreases n,
{
    if n > 0 {
        lemma_discard_idempotent(s, line, l, (n - 1) as nat);
    }
}

/// What one processed line asks the caller to announce.
pub struct PollOutput {
    /// All maps of a fresh selection, to be announced together.
    pub game_started: Option<Vec<String>>,
    /// The map that just became current.
    pub activated: Option<String>,
}

impl View for PollOutput {
    type V = OutputView;

    open spec fn view(&self) -> OutputView {
        OutputView {
            game_started: match self.game_started {
                Option::None => Option::None,
                Option::Some(v) => Option::Some(views_of(v@)),
            },
            activated: match self.activated {
                Option::None => Option::None,
                Option::Some(s) => Option::Some(s@),
            },
        }
    }
}

impl PollOutput {
    /// No notification owed.
    pub fn none() -> (out: PollOutput)
        ensures
            out@ == no_output(),
    {
        PollOutput { game_started: None, activated: None }
    }
}

/// Everything one session owns: the line cursor, the chosen locale, and
/// the machine state.
pub struct SessionState {
    pub cursor: LogCursor,
    pub locale: Locale,
    pub queue: Vec<String>,
    pub current_map: Option<String>,
    pub last_line: String,
}

impl SessionState {
    /// The machine part of the session, as mathematics.
    pub open spec fn machine_view(&self) -> MachineView {
        MachineView {
            queue: views_of(self.queue@),
            current_map: match self.current_map {
                Option::None => Option::None,
                Option::Some(s) => Option::Some(s@),
            },
            last_line: self.last_line@,
        }
    }

    /// A fresh session: empty queue, no current map, empty dedup token,
    /// cursor at the tail of a file that currently has `total_lines`
    /// lines.
    pub fn new(locale: Locale, file_path: String, total_lines: usize) -> (s: SessionState)
        ensures
            s.locale == locale,
            s.cursor.file_path == file_path,
            total_lines > 0 ==> s.cursor.next_line_index == total_lines - 1,
            total_lines == 0 ==> s.cursor.next_line_index == 0,
            s.queue@.len() == 0,
            s.current_map is None,
            s.last_line@.len() == 0,
            s.machine_view().queue == Seq::<Seq<char>>::empty(),
            s.machine_view().current_map is None,
            s.machine_view().last_line == Seq::<char>::empty(),
    {
        let s = SessionState {
            cursor: LogCursor::new(file_path, total_lines),
            locale,
            queue: Vec::new(),
            current_map: None,
            last_line: String::new(),
        };
        proof {
            assert(views_of(s.queue@) =~= Seq::<Seq<char>>::empty());
        }
        s
    }

    /// A finish event: pop the front of a non-empty queue and activate
    /// it; an empty queue makes the event a harmless no-op.
    pub fn on_finish_event(&mut self) -> (out: PollOutput)
        ensures
            final(self).cursor == old(self).cursor,
            final(self).locale == old(self).locale,
            final(self).last_line == old(self).last_line,
            out@.game_started is None,
            old(self).queue@.len() > 0 ==> {
                &&& final(self).queue@ == old(self).queue@.drop_first()
                &&& final(self).current_map == Option::Some(old(self).queue@[0])
                &&& out.activated == Option::Some(old(self).queue@[0])
            },
            old(self).queue@.len() == 0 ==> {
                &&& *final(self) == *old(self)
                &&& out.activated is None
            },
    {
        if self.queue.len() > 0 {
            let m = self.queue.remove(0);
            self.current_map = Some(m.clone());
            proof {
                assert(old(self).queue@.remove(0) =~= old(self).queue@.drop_first());
            }
            PollOutput { game_started: None, activated: Some(m) }
        } else {
            PollOutput { game_started: None, activated: None }
        }
    }

    /// A selection event: replace the queue wholesale with the captured
    /// names, announce them all, and immediately activate the first.
    pub fn on_selection_event(&mut self, maps: Vec<String>) -> (out: PollOutput)
        requires
            maps@.len() > 0,
        ensures
            final(self).cursor == old(self).cursor,
            final(self).locale == old(self).locale,
            final(self).last_line == old(self).last_line,
            final(self).queue@ == maps@.drop_first(),
            final(self).current_map == Option::Some(maps@[0]),
            out.activated == Option::Some(maps@[0]),
            out.game_started matches Option::Some(g) && g@ == maps@,
    {
        let all = clone_names(&maps);
        self.queue = maps;
        let first = self.queue.remove(0);
        self.current_map = Some(first.clone());
        proof {
            assert(maps@.remove(0) =~= maps@.drop_first());
        }
        PollOutput { game_started: Some(all), activated: Some(first) }
    }

    /// One raw log line, after the cursor already advanced past it: skip
    /// it if it equals the dedup token, otherwise remember it and run it
    /// through extraction, classification and the state machine.
    pub fn process_line(&mut self, line: &str) -> (out: PollOutput)
        ensures
            final(self).cursor == old(self).cursor,
            final(self).locale == old(self).locale,
            (final(self).machine_view(), out@) == step_line(
                old(self).machine_view(),
                line@,
                old(self).locale,
            ),
    {
        if str_eq(line, self.last_line.as_str()) {
            return PollOutput::none();
        }
        self.last_line = line.to_owned();
        let msg = match extract_chat_exec(line) {
            None => {
                return PollOutput::none();
            },
            Some(m) => m,
        };
        if is_player_chat_exec(msg.as_str()) {
            return PollOutput::none();
        }
        let ghost s1 = MachineView { last_line: line@, ..old(self).machine_view() };
        match classify_message(msg.as_str(), self.locale) {
            None => PollOutput::none(),
            Some(ChatEvent::MapFinished) => {
                let out = self.on_finish_event();
                proof {
                    if s1.queue.len() > 0 {
                        lemma_views_of_drop_first(old(self).queue@);
                    }
                }
                out
            },
            Some(ChatEvent::MapsSelected(names)) => {
                let ghost ns = selection_names(msg@, old(self).locale).unwrap();
                let ghost names0 = names@;
                let out = self.on_selection_event(names);
                proof {
                    lemma_views_of_drop_first(names0);
                    assert(views_of(final(self).queue@) =~= ns.drop_first());
                    assert(out@.game_started == Option::Some(ns));
                }
                out
            },
        }
    }

    /// One poll over the file's current lines: take the line at the
    /// cursor if one exists, advance past it, and process it.
    pub fn on_poll(&mut self, lines: &Vec<String>) -> (out: PollOutput)
        ensures
            final(self).locale == old(self).locale,
            final(self).cursor.file_path == old(self).cursor.file_path,
            final(self).cursor.next_line_index >= old(self).cursor.next_line_index,
            lines@.len() <= old(self).cursor.next_line_index ==> {
                &&& *final(self) == *old(self)
                &&& out@ == no_output()
            },
            lines@.len() > old(self).cursor.next_line_index ==> {
                &&& final(self).cursor.next_line_index == old(self).cursor.next_line_index + 1
                &&& (final(self).machine_view(), out@) == step_line(
                    old(self).machine_view(),
                    lines@[old(self).cursor.next_line_index as int]@,
                    old(self).locale,
                )
            },
    {
        let line = match self.cursor.poll(lines) {
            None => {
                return PollOutput::none();
            },
            Some(l) => l,
        };
        self.process_line(line.as_str())
    }
}

/// The captured names joined with `, `, in their captured order.
pub open spec fn join_names(ns: Seq<Seq<char>>) -> Seq<char>
    decreases ns.len(),
{
    if ns.len() == 0 {
        Seq::empty()
    } else if ns.len() == 1 {
        ns[0]
    } else {
        ns[0] + name_separator() + join_names(ns.drop_first())
    }
}

/// The body of the "game started" notification: all selected maps, the
/// first included, between brackets.
pub open spec fn game_started_body(ns: Seq<Seq<char>>) -> Seq<char> {
    "Game started! Maps: ["@ + join_names(ns) + "]"@
}

/// Joining one more name appends a separator and the name, except to an
/// empty list.
proof fn lemma_join_snoc(ns: Seq<Seq<char>>, x: Seq<char>)
    ensures
        ns.len() == 0 ==> join_names(ns.push(x)) == x,
        ns.len() > 0 ==> join_names(ns.push(x)) == join_names(ns) + name_separator() + x,
    decreases ns.len(),
{
    let ns2 = ns.push(x);
    if ns.len() == 0 {
        assert(ns2[0] == x);
    } else if ns.len() == 1 {
        assert(ns2.drop_first() =~= seq![x]);
        assert(join_names(ns2.drop_first()) == x);
    } else {
        assert(ns2.drop_first() =~= ns.drop_first().push(x));
        lemma_join_snoc(ns.drop_first(), x);
        assert(ns[0] + name_separator() + (join_names(ns.drop_first()) + name_separator() + x) =~= (
        ns[0] + name_separator() + join_names(ns.drop_first())) + name_separator() + x);
    }
}

/// The body of the "game started" notification for these maps.
pub fn render_game_started(maps: &Vec<String>) -> (r: String)
    ensures
        r@ == game_started_body(views_of(maps@)),
{
    let ghost ns = views_of(maps@);
    let mut r = String::new();
    r.append("Game started! Maps: [");
    let mut i: usize = 0;
    proof {
        assert(ns.subrange(0, 0) =~= Seq::<Seq<char>>::empty());
        assert(Seq::<char>::empty() + "Game started! Maps: ["@ =~= "Game started! Maps: ["@);
    }
    while i < maps.len()
        invariant
            i <= maps@.len(),
            ns == views_of(maps@),
            r@ == "Game started! Maps: ["@ + join_names(ns.subrange(0, i as int)),
        decreases maps@.len() - i,
    {
        let ghost done = ns.subrange(0, i as int);
        if i > 0 {
            r.append(", ");
            proof {
                reveal_strlit(", ");
            }
        }
        r.append(maps[i].as_str());
        proof {
            assert(ns.subrange(0, i + 1) =~= done.push(maps@[i as int]@));
            lemma_join_snoc(done, maps@[i as int]@);
            assert(r@ =~= "Game started! Maps: ["@ + join_names(ns.subrange(0, i + 1)));
        }
        i = i + 1;
    }
    r.append("]");
    proof {
        assert(ns.subrange(0, maps@.len() as int) =~= ns);
    }
    r
}

/// A copy of a name list, element for element.
fn clone_names(v: &Vec<String>) -> (r: Vec<String>)
    ensures
        r@ == v@,
{
    let mut r: Vec<String> = Vec::new();
    let mut i: usize = 0;
    while i < v.len()
        invariant
            i <= v@.len(),
            r@ =~= v@.subrange(0, i as int),
        decreases v@.len() - i,
    {
        r.push(v[i].clone());
        i = i + 1;
    }
    proof {
        assert(v@.subrange(0, v@.len() as int) =~= v@);
    }
    r
}

} // verus!
