//! What holds of every ranked list.

use vstd::prelude::*;
use vstd::multiset::Multiset;
use crate::history::{
    absorbed, entry_of, is_saved, lemma_position_of, lemma_ranked_saved_once, position_of, ranked,
    swapped, Entry,
};
use crate::text::{lemma_trimmed_idempotent, trimmed};

verus! {

/// No two lines that are not excluded have the same text once trimmed.
pub open spec fn no_repeats(lines: Seq<Seq<char>>, is_excluded: spec_fn(Seq<char>) -> bool) -> bool {
    forall|i: int, j: int|
        0 <= i < j < lines.len() && !is_excluded(lines[i]) && !is_excluded(lines[j]) ==> trimmed(
            lines[i],
        ) != trimmed(lines[j])
}

/// One entry for each line, in the order of the lines.
pub open spec fn listed(lines: Seq<Seq<char>>, is_excluded: spec_fn(Seq<char>) -> bool) -> Seq<Entry> {
    Seq::new(lines.len(), |k: int| entry_of(lines[k], is_excluded(lines[k])))
}

/// The texts of the entries, in their order.
pub open spec fn raws(list: Seq<Entry>) -> Seq<Seq<char>> {
    Seq::new(list.len(), |k: int| list[k].raw)
}

/// What an entry adds to the lines tagged for deletion.
pub open spec fn deleted_raw(entry: Entry) -> Multiset<Seq<char>> {
    if entry.status is Delete {
        Multiset::singleton(entry.raw)
    } else {
        Multiset::empty()
    }
}

/// The texts of the entries tagged for deletion, each as often as it is
/// listed.
pub open spec fn deleted_raws(list: Seq<Entry>) -> Multiset<Seq<char>>
    decreases list.len(),
{
    if list.len() == 0 {
        Multiset::empty()
    } else {
        deleted_raws(list.drop_last()).add(deleted_raw(list.last()))
    }
}

/// The lines that are excluded, each as often as it occurs.
pub open spec fn excluded_lines(
    lines: Seq<Seq<char>>,
    is_excluded: spec_fn(Seq<char>) -> bool,
) -> Multiset<Seq<char>>
    decreases lines.len(),
{
    if lines.len() == 0 {
        Multiset::empty()
    } else {
        let before = excluded_lines(lines.drop_last(), is_excluded);
        if is_excluded(lines.last()) {
            before.add(Multiset::singleton(lines.last()))
        } else {
            before
        }
    }
}

/// The texts of the saved commands of a list.
pub open spec fn saved_raws(list: Seq<Entry>) -> Set<Seq<char>> {
    Set::new(|raw: Seq<char>| exists|i: int| 0 <= i < list.len() && is_saved(#[trigger] list[i], raw))
}

/// The trimmed texts of the lines that are not excluded.
pub open spec fn kept_texts(lines: Seq<Seq<char>>, is_excluded: spec_fn(Seq<char>) -> bool) -> Set<
    Seq<char>,
> {
    Set::new(
        |raw: Seq<char>|
            exists|k: int|
                0 <= k < lines.len() && !is_excluded(#[trigger] lines[k]) && trimmed(lines[k])
                    == raw,
    )
}

/// Lines without repeats are ranked in their own order: the ranked list has
/// one entry for each line, at the place of the line, with the text trimmed
/// unless the line is excluded.
pub proof fn lemma_ranked_without_repeats(
    lines: Seq<Seq<char>>,
    is_excluded: spec_fn(Seq<char>) -> bool,
)
    requires
        no_repeats(lines, is_excluded),
    ensures
        ranked(lines, is_excluded) == listed(lines, is_excluded),
    decreases lines.len(),
{
    if lines.len() == 0 {
        assert(ranked(lines, is_excluded) =~= listed(lines, is_excluded));
    } else {
        let front = lines.drop_last();
        let n = front.len() as int;
        assert(no_repeats(front, is_excluded)) by {
            assert forall|i: int, j: int|
                0 <= i < j < front.len() && !is_excluded(front[i]) && !is_excluded(
                    front[j],
                ) implies trimmed(front[i]) != trimmed(front[j]) by {
                assert(front[i] == lines[i] && front[j] == lines[j]);
            }
        }
        lemma_ranked_without_repeats(front, is_excluded);
        let list = ranked(front, is_excluded);
        let line = lines.last();
        if !is_excluded(line) {
            lemma_position_of(list, trimmed(line));
            if position_of(list, trimmed(line)) is Some {
                let i = position_of(list, trimmed(line))->Some_0;
                assert(list[i] == entry_of(front[i], is_excluded(front[i])));
                assert(front[i] == lines[i] && line == lines[n]);
                assert(false);
            }
        }
        assert(absorbed(list, line, is_excluded(line)) =~= listed(lines, is_excluded)) by {
            assert forall|k: int| 0 <= k < n implies front[k] == lines[k] by {}
        }
    }
}

/// Every entry of a ranked list is as the ranking made it: a saved command
/// is trimmed, and an entry tagged for deletion is a line that is excluded.
pub proof fn lemma_ranked_entries(lines: Seq<Seq<char>>, is_excluded: spec_fn(Seq<char>) -> bool)
    ensures
        ranked(lines, is_excluded).len() <= lines.len(),
        forall|i: int|
            0 <= i < ranked(lines, is_excluded).len() ==> {
                let entry = #[trigger] ranked(lines, is_excluded)[i];
                if entry.status is Save {
                    trimmed(entry.raw) == entry.raw
                } else {
                    is_excluded(entry.raw)
                }
            },
    decreases lines.len(),
{
    if lines.len() > 0 {
        lemma_ranked_entries(lines.drop_last(), is_excluded);
        let list = ranked(lines.drop_last(), is_excluded);
        let line = lines.last();
        let next = ranked(lines, is_excluded);
        lemma_position_of(list, trimmed(line));
        lemma_trimmed_idempotent(line);
        assert forall|i: int| 0 <= i < next.len() implies {
            let entry = #[trigger] next[i];
            if entry.status is Save {
                trimmed(entry.raw) == entry.raw
            } else {
                is_excluded(entry.raw)
            }
        } by {
            if !is_excluded(line) && position_of(list, trimmed(line)) is Some {
                let a = position_of(list, trimmed(line))->Some_0;
                let i0 = if i == a {
                    a / 2
                } else if i == a / 2 {
                    a
                } else {
                    i
                };
                assert(next[i] == list[i0]);
            } else if i < list.len() {
                assert(next[i] == list[i]);
            }
        }
    }
}

/// Ranking what is already ranked changes nothing: where no saved command of
/// the ranked list is itself excluded, the ranked list of its texts is the
/// same list.
pub proof fn lemma_rank_idempotent(lines: Seq<Seq<char>>, is_excluded: spec_fn(Seq<char>) -> bool)
    requires
        forall|i: int|
            0 <= i < ranked(lines, is_excluded).len() && (#[trigger] ranked(
                lines,
                is_excluded,
            )[i]).status is Save ==> !is_excluded(ranked(lines, is_excluded)[i].raw),
    ensures
        ranked(raws(ranked(lines, is_excluded)), is_excluded) == ranked(lines, is_excluded),
{
    let list = ranked(lines, is_excluded);
    let again = raws(list);
    lemma_ranked_entries(lines, is_excluded);
    lemma_ranked_saved_once(lines, is_excluded);
    assert(no_repeats(again, is_excluded)) by {
        assert forall|i: int, j: int|
            0 <= i < j < again.len() && !is_excluded(again[i]) && !is_excluded(
                again[j],
            ) implies trimmed(again[i]) != trimmed(again[j]) by {
            assert(list[i].status is Save && list[j].status is Save);
            assert(list[i].raw != list[j].raw);
        }
    }
    lemma_ranked_without_repeats(again, is_excluded);
    assert(listed(again, is_excluded) =~= list) by {
        assert forall|k: int| 0 <= k < list.len() implies listed(again, is_excluded)[k]
            == list[k] by {
            let entry = list[k];
            assert(again[k] == entry.raw);
        }
    }
}

/// Replacing an entry takes its part out of the deleted texts and puts the
/// part of the new entry in.
proof fn lemma_deleted_raws_update(list: Seq<Entry>, i: int, entry: Entry)
    requires
        0 <= i < list.len(),
    ensures
        deleted_raws(list.update(i, entry)).add(deleted_raw(list[i])) == deleted_raws(list).add(
            deleted_raw(entry),
        ),
    decreases list.len(),
{
    broadcast use vstd::multiset::group_multiset_axioms;

    let changed = list.update(i, entry);
    let front = list.drop_last();
    let left = deleted_raws(changed).add(deleted_raw(list[i]));
    let right = deleted_raws(list).add(deleted_raw(entry));
    assert(deleted_raws(list) == deleted_raws(front).add(deleted_raw(list.last())));
    assert(deleted_raws(changed) == deleted_raws(changed.drop_last()).add(
        deleted_raw(changed.last()),
    ));
    if i == list.len() - 1 {
        assert(changed.drop_last() =~= front);
        assert forall|raw: Seq<char>| left.count(raw) == right.count(raw) by {}
    } else {
        assert(changed.drop_last() =~= front.update(i, entry));
        lemma_deleted_raws_update(front, i, entry);
        assert(front[i] == list[i]);
        let inner_left = deleted_raws(front.update(i, entry)).add(deleted_raw(list[i]));
        let inner_right = deleted_raws(front).add(deleted_raw(entry));
        assert forall|raw: Seq<char>| left.count(raw) == right.count(raw) by {
            assert(inner_left.count(raw) == inner_right.count(raw));
        }
    }
    assert(left =~= right);
}

/// Exchanging two entries leaves the deleted texts as they are.
proof fn lemma_deleted_raws_swapped(list: Seq<Entry>, i: int, j: int)
    requires
        0 <= i < list.len(),
        0 <= j < list.len(),
    ensures
        deleted_raws(swapped(list, i, j)) == deleted_raws(list),
{
    broadcast use vstd::multiset::group_multiset_axioms;

    let first = list.update(i, list[j]);
    let both = swapped(list, i, j);
    if i == j {
        assert(both =~= list);
    } else {
        lemma_deleted_raws_update(list, i, list[j]);
        lemma_deleted_raws_update(first, j, list[i]);
        assert(first[j] == list[j]);
        let a = deleted_raws(first).add(deleted_raw(list[i]));
        let b = deleted_raws(list).add(deleted_raw(list[j]));
        let c = deleted_raws(both).add(deleted_raw(list[j]));
        let d = deleted_raws(first).add(deleted_raw(list[i]));
        assert(a == b && c == d);
        assert forall|raw: Seq<char>| deleted_raws(both).count(raw) == deleted_raws(list).count(
            raw,
        ) by {
            assert(c.count(raw) == b.count(raw));
        }
        assert(deleted_raws(both) =~= deleted_raws(list));
    }
}

/// Excluded lines are never merged, neither with a saved command nor with
/// each other: the entries tagged for deletion are the excluded lines, each
/// as often as it occurs.
pub proof fn lemma_excluded_lines_all_listed(
    lines: Seq<Seq<char>>,
    is_excluded: spec_fn(Seq<char>) -> bool,
)
    ensures
        deleted_raws(ranked(lines, is_excluded)) == excluded_lines(lines, is_excluded),
    decreases lines.len(),
{
    broadcast use vstd::multiset::group_multiset_axioms;

    if lines.len() > 0 {
        lemma_excluded_lines_all_listed(lines.drop_last(), is_excluded);
        let list = ranked(lines.drop_last(), is_excluded);
        let line = lines.last();
        lemma_position_of(list, trimmed(line));
        if is_excluded(line) {
            assert(list.push(entry_of(line, true)).drop_last() =~= list);
        } else if position_of(list, trimmed(line)) is Some {
            let a = position_of(list, trimmed(line))->Some_0;
            lemma_deleted_raws_swapped(list, a, a / 2);
        } else {
            assert(list.push(entry_of(line, false)).drop_last() =~= list);
            assert(deleted_raws(list).add(Multiset::empty()) =~= deleted_raws(list));
        }
    }
}

/// The saved commands of a ranked list are the trimmed texts of the lines
/// that are not excluded. As no saved command is listed twice, each of these
/// texts is listed exactly once.
pub proof fn lemma_saved_are_the_kept_lines(
    lines: Seq<Seq<char>>,
    is_excluded: spec_fn(Seq<char>) -> bool,
)
    ensures
        saved_raws(ranked(lines, is_excluded)) == kept_texts(lines, is_excluded),
    decreases lines.len(),
{
    let next = ranked(lines, is_excluded);
    if lines.len() == 0 {
        assert(saved_raws(next) =~= kept_texts(lines, is_excluded));
    } else {
        let front = lines.drop_last();
        let n = front.len() as int;
        lemma_saved_are_the_kept_lines(front, is_excluded);
        let list = ranked(front, is_excluded);
        let line = lines.last();
        lemma_position_of(list, trimmed(line));
        assert forall|raw: Seq<char>| saved_raws(next).contains(raw) implies kept_texts(
            lines,
            is_excluded,
        ).contains(raw) by {
            let i = choose|i: int| 0 <= i < next.len() && is_saved(#[trigger] next[i], raw);
            if !is_excluded(line) && position_of(list, trimmed(line)) is Some {
                let a = position_of(list, trimmed(line))->Some_0;
                let i0 = if i == a {
                    a / 2
                } else if i == a / 2 {
                    a
                } else {
                    i
                };
                assert(next[i] == list[i0]);
                assert(saved_raws(list).contains(raw));
            } else if i < list.len() {
                assert(next[i] == list[i]);
                assert(saved_raws(list).contains(raw));
            } else {
                assert(lines[n] == line);
            }
            if saved_raws(list).contains(raw) {
                assert(kept_texts(front, is_excluded).contains(raw));
                let k = choose|k: int|
                    0 <= k < front.len() && !is_excluded(#[trigger] front[k]) && trimmed(front[k])
                        == raw;
                assert(lines[k] == front[k]);
            }
        }
        assert forall|raw: Seq<char>| kept_texts(lines, is_excluded).contains(raw) implies saved_raws(
            next,
        ).contains(raw) by {
            let k = choose|k: int|
                0 <= k < lines.len() && !is_excluded(#[trigger] lines[k]) && trimmed(lines[k])
                    == raw;
            if k < n {
                assert(front[k] == lines[k]);
                assert(kept_texts(front, is_excluded).contains(raw));
                assert(saved_raws(list).contains(raw));
                let i = choose|i: int| 0 <= i < list.len() && is_saved(#[trigger] list[i], raw);
                if !is_excluded(line) && position_of(list, trimmed(line)) is Some {
                    let a = position_of(list, trimmed(line))->Some_0;
                    let i1 = if i == a {
                        a / 2
                    } else if i == a / 2 {
                        a
                    } else {
                        i
                    };
                    assert(next[i1] == list[i]);
                } else {
                    assert(next[i] == list[i]);
                }
            } else {
                assert(lines[k] == line);
                if position_of(list, trimmed(line)) is Some {
                    let a = position_of(list, trimmed(line))->Some_0;
                    assert(next[a / 2] == list[a]);
                } else {
                    assert(next[list.len() as int] == entry_of(line, false));
                }
            }
        }
        assert(saved_raws(next) =~= kept_texts(lines, is_excluded));
    }
}

} // verus!
