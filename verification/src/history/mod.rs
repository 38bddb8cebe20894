//! The ranking of a command history.
//!
//! Lines are taken in the order in which they were written. A line that the
//! exclusions match is kept as it is, tagged for deletion. Any other line is
//! trimmed of its trailing white space; when it comes for the first time it
//! goes to the end of the list, and each time it comes again it changes
//! places with the entry half way between it and the front. Commands that
//! are used often so climb to the front, and no command is listed twice.

pub mod laws;

use vstd::prelude::*;
use vstd::string::StringExecFns;
use crate::exclude::Exclusions;
use crate::text::{trim_end, trimmed};

verus! {

/// What is to become of a command.
#[derive(Clone, Copy, Debug, PartialEq, Eq)]
pub enum CommandStatus {
    /// An ordinary command, ranked and listed once.
    Save,
    /// A line that the exclusions matched.
    Delete,
}

/// One entry of the ranked list.
#[derive(Debug, PartialEq, Eq)]
pub struct Command {
    pub raw: String,
    pub status: CommandStatus,
}

/// The mathematical content of a [`Command`].
pub struct Entry {
    pub raw: Seq<char>,
    pub status: CommandStatus,
}

impl DeepView for Command {
    type V = Entry;

    open spec fn deep_view(&self) -> Entry {
        Entry { raw: self.raw@, status: self.status }
    }
}

impl Command {
    pub fn new(raw: String, status: CommandStatus) -> (command: Self)
        ensures
            command.raw == raw,
            command.status == status,
    {
        Self { raw, status }
    }
}

/// Whether the entry is the saved command `raw`.
pub open spec fn is_saved(entry: Entry, raw: Seq<char>) -> bool {
    entry.status is Save && entry.raw == raw
}

/// The first place at which the list holds the saved command `raw`. Entries
/// tagged for deletion are passed over, whatever their text.
pub open spec fn position_of(list: Seq<Entry>, raw: Seq<char>) -> Option<int>
    decreases list.len(),
{
    if list.len() == 0 {
        None
    } else {
        match position_of(list.drop_last(), raw) {
            Some(i) => Some(i),
            None => if is_saved(list.last(), raw) {
                Some(list.len() - 1)
            } else {
                None
            },
        }
    }
}

/// The list with the entries at `i` and `j` exchanged.
pub open spec fn swapped(list: Seq<Entry>, i: int, j: int) -> Seq<Entry> {
    list.update(i, list[j]).update(j, list[i])
}

/// The entry that a line makes when it comes for the first time.
pub open spec fn entry_of(line: Seq<char>, excluded: bool) -> Entry {
    if excluded {
        Entry { raw: line, status: CommandStatus::Delete }
    } else {
        Entry { raw: trimmed(line), status: CommandStatus::Save }
    }
}

/// The list after one more line. An excluded line is appended as it is. Any
/// other line is trimmed and looked up among the saved commands: if it is
/// there at place `i`, it changes places with the entry at `i / 2`; if not,
/// it is appended.
pub open spec fn absorbed(list: Seq<Entry>, line: Seq<char>, excluded: bool) -> Seq<Entry> {
    if excluded {
        list.push(entry_of(line, true))
    } else {
        match position_of(list, trimmed(line)) {
            Some(i) => swapped(list, i, i / 2),
            None => list.push(entry_of(line, false)),
        }
    }
}

/// The ranked list of a sequence of lines.
pub open spec fn ranked(lines: Seq<Seq<char>>, is_excluded: spec_fn(Seq<char>) -> bool) -> Seq<Entry>
    decreases lines.len(),
{
    if lines.len() == 0 {
        Seq::empty()
    } else {
        absorbed(ranked(lines.drop_last(), is_excluded), lines.last(), is_excluded(lines.last()))
    }
}

/// No saved command is listed twice.
pub open spec fn saved_once(list: Seq<Entry>) -> bool {
    forall|i: int, j: int|
        0 <= i < j < list.len() && list[i].status is Save && list[j].status is Save ==> list[i].raw
            != list[j].raw
}

/// Where `position_of` finds the command, it is the first saved entry with
/// that text; where it finds none, there is none.
pub proof fn lemma_position_of(list: Seq<Entry>, raw: Seq<char>)
    ensures
        match position_of(list, raw) {
            Some(i) => {
                &&& 0 <= i < list.len()
                &&& is_saved(list[i], raw)
                &&& forall|j: int| 0 <= j < i ==> !is_saved(#[trigger] list[j], raw)
            },
            None => forall|j: int| 0 <= j < list.len() ==> !is_saved(#[trigger] list[j], raw),
        },
    decreases list.len(),
{
    if list.len() > 0 {
        lemma_position_of(list.drop_last(), raw);
        assert(forall|j: int| 0 <= j < list.len() - 1 ==> list.drop_last()[j] == list[j]);
    }
}

/// The first saved entry with the text `raw` is where `position_of` finds it.
pub proof fn lemma_position_is_first(list: Seq<Entry>, raw: Seq<char>, i: int)
    requires
        0 <= i < list.len(),
        is_saved(list[i], raw),
        forall|j: int| 0 <= j < i ==> !is_saved(#[trigger] list[j], raw),
    ensures
        position_of(list, raw) == Some(i),
{
    lemma_position_of(list, raw);
}

/// `<[T]>::swap` of the standard library, called on the whole vector: it
/// exchanges the elements at `i` and `j` and leaves the others alone. It
/// panics where an index is out of bounds, which `requires` leaves out.
#[verifier::external_body]
fn swap_places(commands: &mut Vec<Command>, i: usize, j: usize)
    requires
        i < old(commands)@.len(),
        j < old(commands)@.len(),
    ensures
        final(commands)@ == old(commands)@.update(i as int, old(commands)@[j as int]).update(
            j as int,
            old(commands)@[i as int],
        ),
{
    commands.swap(i, j)
}

/// The first place at which the list holds the saved command `raw`.
pub fn position(commands: &Vec<Command>, raw: &String) -> (found: Option<usize>)
    ensures
        match found {
            Some(i) => position_of(commands.deep_view(), raw@) == Some(i as int),
            None => position_of(commands.deep_view(), raw@) is None,
        },
{
    let mut i: usize = 0;
    while i < commands.len()
        invariant
            i <= commands.len(),
            forall|j: int| 0 <= j < i ==> !is_saved(#[trigger] commands.deep_view()[j], raw@),
        decreases commands.len() - i,
    {
        let saved = match commands[i].status {
            CommandStatus::Save => true,
            CommandStatus::Delete => false,
        };
        if saved && commands[i].raw == *raw {
            proof {
                lemma_position_is_first(commands.deep_view(), raw@, i as int);
            }
            return Some(i);
        }
        i += 1;
    }
    proof {
        lemma_position_of(commands.deep_view(), raw@);
    }
    None
}

/// Takes one more line into the list; `excluded` says whether the exclusions
/// matched the line as it was read.
pub fn absorb(commands: &mut Vec<Command>, line: &str, excluded: bool)
    ensures
        final(commands).deep_view() == absorbed(old(commands).deep_view(), line@, excluded),
{
    if excluded {
        commands.push(Command::new(line.to_owned(), CommandStatus::Delete));
        proof {
            assert(commands.deep_view() =~= old(commands).deep_view().push(entry_of(line@, true)));
        }
        return ;
    }
    let raw = trim_end(line).to_owned();
    match position(commands, &raw) {
        Some(i) => {
            proof {
                lemma_position_of(commands.deep_view(), raw@);
            }
            swap_places(commands, i, i / 2);
            proof {
                assert(commands.deep_view() =~= swapped(
                    old(commands).deep_view(),
                    i as int,
                    i as int / 2,
                ));
            }
        },
        None => {
            commands.push(Command::new(raw, CommandStatus::Save));
            proof {
                assert(commands.deep_view() =~= old(commands).deep_view().push(
                    entry_of(line@, false),
                ));
            }
        },
    }
}

/// Ranks the lines of a history: the list that comes of taking the lines in
/// turn, each tagged by the exclusions as it stands. No saved command is
/// listed twice.
pub fn rank(lines: &Vec<String>, exclusions: &Exclusions) -> (commands: Vec<Command>)
    ensures
        commands.deep_view() == ranked(lines.deep_view(), exclusions.predicate()),
        saved_once(commands.deep_view()),
{
    let mut commands: Vec<Command> = Vec::new();
    let mut i: usize = 0;
    proof {
        assert(commands.deep_view() =~= Seq::<Entry>::empty());
    }
    while i < lines.len()
        invariant
            i <= lines.len(),
            commands.deep_view() == ranked(lines.deep_view().take(i as int), exclusions.predicate()),
        decreases lines.len() - i,
    {
        let line = lines[i].as_str();
        let excluded = exclusions.is_excluded(line);
        absorb(&mut commands, line, excluded);
        proof {
            let all = lines.deep_view();
            assert(all.take(i + 1).drop_last() =~= all.take(i as int));
            assert(all.take(i + 1).last() == line@);
        }
        i += 1;
    }
    proof {
        assert(lines.deep_view().take(i as int) =~= lines.deep_view());
        lemma_ranked_saved_once(lines.deep_view(), exclusions.predicate());
    }
    commands
}

/// Taking a line into a list in which no saved command is listed twice
/// gives such a list again.
pub proof fn lemma_absorbed_saved_once(list: Seq<Entry>, line: Seq<char>, excluded: bool)
    requires
        saved_once(list),
    ensures
        saved_once(absorbed(list, line, excluded)),
{
    let next = absorbed(list, line, excluded);
    lemma_position_of(list, trimmed(line));
    if !excluded && position_of(list, trimmed(line)) is Some {
        let a = position_of(list, trimmed(line))->Some_0;
        let b = a / 2;
        assert forall|i: int, j: int|
            0 <= i < j < next.len() && next[i].status is Save && next[j].status is Save implies next[i].raw
            != next[j].raw by {
            let i0 = if i == a {
                b
            } else if i == b {
                a
            } else {
                i
            };
            let j0 = if j == a {
                b
            } else if j == b {
                a
            } else {
                j
            };
            assert(next[i] == list[i0] && next[j] == list[j0]);
            assert(i0 != j0);
            if i0 < j0 {
                assert(list[i0].raw != list[j0].raw);
            } else {
                assert(list[j0].raw != list[i0].raw);
            }
        }
    } else {
        assert forall|i: int, j: int|
            0 <= i < j < next.len() && next[i].status is Save && next[j].status is Save implies next[i].raw
            != next[j].raw by {
            if j < list.len() {
                assert(next[i] == list[i] && next[j] == list[j]);
            } else {
                assert(next[i] == list[i]);
                assert(!is_saved(list[i], trimmed(line)));
            }
        }
    }
}

/// In the ranked list of any lines, no saved command is listed twice: there
/// is at most one saved entry for each trimmed text.
pub proof fn lemma_ranked_saved_once(lines: Seq<Seq<char>>, is_excluded: spec_fn(Seq<char>) -> bool)
    ensures
        saved_once(ranked(lines, is_excluded)),
    decreases lines.len(),
{
    if lines.len() > 0 {
        lemma_ranked_saved_once(lines.drop_last(), is_excluded);
        lemma_absorbed_saved_once(
            ranked(lines.drop_last(), is_excluded),
            lines.last(),
            is_excluded(lines.last()),
        );
    }
}

/// What is written for a list: the text of each entry, in the order of the
/// list, each followed by a line feed. Entries tagged for deletion are
/// written like the others: the tag is for the eye.
pub open spec fn written(list: Seq<Entry>) -> Seq<char>
    decreases list.len(),
{
    if list.len() == 0 {
        Seq::empty()
    } else {
        written(list.drop_last()) + list.last().raw + seq!['\n']
    }
}

/// The text of the history file for these commands.
pub fn history_text(commands: &[Command]) -> (text: String)
    ensures
        text@ == written(commands.deep_view()),
{
    let mut text = String::new();
    let mut i: usize = 0;
    proof {
        reveal_strlit("\n");
        assert(commands.deep_view().take(0) =~= Seq::<Entry>::empty());
    }
    while i < commands.len()
        invariant
            i <= commands.len(),
            text@ == written(commands.deep_view().take(i as int)),
            "\n"@ == seq!['\n'],
        decreases commands.len() - i,
    {
        text.append(commands[i].raw.as_str());
        text.append("\n");
        proof {
            let all = commands.deep_view();
            assert(all.take(i + 1).drop_last() =~= all.take(i as int));
            assert(all.take(i + 1).last().raw == commands[i as int].raw@);
        }
        i += 1;
    }
    proof {
        assert(commands.deep_view().take(i as int) =~= commands.deep_view());
    }
    text
}

/// The rows that the review of `len` commands asks of the terminal: one for
/// each command up to twenty, and five around them. The count of commands is
/// taken as a 16-bit number, so it starts again from nought at 65536.
pub open spec fn viewport_rows(len: nat) -> nat {
    let shown = len % 65536;
    if shown < 20 {
        shown + 5
    } else {
        25
    }
}

/// The height of the viewport in which `len` commands are reviewed.
pub fn list_height(len: usize) -> (height: u16)
    ensures
        height == viewport_rows(len as nat),
{
    let shown: usize = len % 65536;
    if shown < 20 {
        (shown + 5) as u16
    } else {
        25
    }
}

} // verus!
