//! Which of the packs there are are on.
//!
//! Finding the packs is reading directories; deciding which are on, given what was found and what
//! was on before, is this.
use crate::text::same_text;
use vstd::prelude::*;

verus! {

/// The id the pack that ships with the server goes by, as vanilla names it.
pub const VANILLA_PACK_ID: &'static str = "vanilla";

/// Where a pack came from, which decides whether it is on unless told otherwise.
#[derive(Debug, Clone, Copy, PartialEq, Eq, Structural)]
pub enum PackSource {
    /// The pack inside the executable.
    BuiltIn,
    /// A pack a player dropped in the datapack directory.
    World,
}

/// Whether a pack of this id was found.
pub open spec fn found_id(available: Seq<(Seq<char>, PackSource)>, id: Seq<char>) -> bool {
    exists|i: int| 0 <= i < available.len() && (#[trigger] available[i]).0 == id
}

/// The ids that were on and are still there, in the order they were on, the built-in pack left
/// out.
pub open spec fn still_there(previous: Seq<Seq<char>>, available: Seq<(Seq<char>, PackSource)>) -> Seq<
    Seq<char>,
>
    decreases previous.len(),
{
    if previous.len() == 0 {
        seq![]
    } else {
        let before = still_there(previous.drop_last(), available);
        let id = previous.last();
        if id != VANILLA_PACK_ID@ && found_id(available, id) {
            before.push(id)
        } else {
            before
        }
    }
}

/// `selected` with every pack of the datapack directory not on yet after it, in the order found.
pub open spec fn with_new(selected: Seq<Seq<char>>, available: Seq<(Seq<char>, PackSource)>) -> Seq<
    Seq<char>,
>
    decreases available.len(),
{
    if available.len() == 0 {
        selected
    } else {
        let before = with_new(selected, available.drop_last());
        let (id, source) = available.last();
        if source == PackSource::World && !before.contains(id) {
            before.push(id)
        } else {
            before
        }
    }
}

/// What is on after looking again: the built-in pack at the bottom, then every pack that was on
/// and is still there, where it was, then every pack of the directory that was not on.
pub open spec fn reselected(previous: Seq<Seq<char>>, available: Seq<(Seq<char>, PackSource)>) -> Seq<
    Seq<char>,
> {
    with_new(seq![VANILLA_PACK_ID@] + still_there(previous, available), available)
}

/// The ids of what was found.
pub open spec fn found_view(available: Seq<(String, PackSource)>) -> Seq<(Seq<char>, PackSource)> {
    available.map_values(|p: (String, PackSource)| (p.0@, p.1))
}

/// The texts of a list of ids.
pub open spec fn ids_of(v: Seq<String>) -> Seq<Seq<char>> {
    v.map_values(|s: String| s@)
}

/// Whether a pack of this id was found.
fn is_found(available: &Vec<(String, PackSource)>, id: &str) -> (r: bool)
    ensures
        r == found_id(found_view(available@), id@),
{
    let mut i: usize = 0;
    while i < available.len()
        invariant
            i <= available.len(),
            forall|k: int| 0 <= k < i ==> (#[trigger] available@[k]).0@ != id@,
        decreases available.len() - i,
    {
        if same_text(available[i].0.as_str(), id) {
            assert(found_view(available@)[i as int].0 == id@);
            return true;
        }
        i = i + 1;
    }
    assert forall|k: int| 0 <= k < found_view(available@).len() implies (
    #[trigger] found_view(available@)[k]).0 != id@ by {
        assert(found_view(available@)[k].0 == available@[k].0@);
    }
    false
}

/// Whether `id` is among `ids`.
fn is_among(ids: &Vec<String>, id: &str) -> (r: bool)
    ensures
        r == ids_of(ids@).contains(id@),
{
    let mut i: usize = 0;
    while i < ids.len()
        invariant
            i <= ids.len(),
            forall|k: int| 0 <= k < i ==> (#[trigger] ids@[k])@ != id@,
        decreases ids.len() - i,
    {
        if same_text(ids[i].as_str(), id) {
            assert(ids_of(ids@)[i as int] == id@);
            return true;
        }
        i = i + 1;
    }
    assert forall|k: int| 0 <= k < ids_of(ids@).len() implies ids_of(ids@)[k] != id@ by {
        assert(ids_of(ids@)[k] == ids@[k]@);
    }
    false
}

/// Which packs are on after looking again, given which were on before and what was found (in the
/// order of their ids). A pack that was on and is still there stays where it was, so looking
/// again does not reshuffle; a pack that is gone is let go.
pub fn reselect(previous: &Vec<String>, available: &Vec<(String, PackSource)>) -> (r: Vec<String>)
    ensures
        ids_of(r@) == reselected(ids_of(previous@), found_view(available@)),
{
    let mut selected: Vec<String> = Vec::new();
    selected.push(String::from_str(VANILLA_PACK_ID));
    let ghost prev = ids_of(previous@);
    let ghost found = found_view(available@);
    let mut i: usize = 0;
    assert(prev.take(0) =~= Seq::<Seq<char>>::empty());
    assert(ids_of(selected@) =~= seq![VANILLA_PACK_ID@] + still_there(prev.take(0), found));
    while i < previous.len()
        invariant
            i <= previous.len(),
            prev == ids_of(previous@),
            found == found_view(available@),
            ids_of(selected@) == seq![VANILLA_PACK_ID@] + still_there(prev.take(i as int), found),
        decreases previous.len() - i,
    {
        assert(prev.take(i + 1).drop_last() =~= prev.take(i as int));
        assert(prev.take(i + 1).last() == previous@[i as int]@);
        let id = previous[i].as_str();
        let ghost before = selected@;
        if !same_text(id, VANILLA_PACK_ID) && is_found(available, id) {
            selected.push(String::from_str(id));
            assert(ids_of(selected@) =~= ids_of(before).push(id@));
        }
        i = i + 1;
    }
    assert(prev.take(previous.len() as int) =~= prev);
    let ghost start = ids_of(selected@);
    let mut j: usize = 0;
    assert(found.take(0) =~= Seq::<(Seq<char>, PackSource)>::empty());
    while j < available.len()
        invariant
            j <= available.len(),
            found == found_view(available@),
            ids_of(selected@) == with_new(start, found.take(j as int)),
        decreases available.len() - j,
    {
        assert(found.take(j + 1).drop_last() =~= found.take(j as int));
        assert(found.take(j + 1).last() == (available@[j as int].0@, available@[j as int].1));
        let ghost before = selected@;
        if available[j].1 == PackSource::World && !is_among(&selected, available[j].0.as_str()) {
            selected.push(available[j].0.clone());
            assert(ids_of(selected@) =~= ids_of(before).push(available@[j as int].0@));
        }
        j = j + 1;
    }
    assert(found.take(available.len() as int) =~= found);
    selected
}

/// The ids asked for that name a pack there is, in the order asked.
pub open spec fn known_only(ids: Seq<Seq<char>>, available: Seq<(Seq<char>, PackSource)>) -> Seq<
    Seq<char>,
>
    decreases ids.len(),
{
    if ids.len() == 0 {
        seq![]
    } else {
        let before = known_only(ids.drop_last(), available);
        if found_id(available, ids.last()) {
            before.push(ids.last())
        } else {
            before
        }
    }
}

/// Which packs are on when a set is asked for, in the order asked: an id that names no pack there
/// is is dropped.
pub fn select_known(ids: Vec<String>, available: &Vec<(String, PackSource)>) -> (r: Vec<String>)
    ensures
        ids_of(r@) == known_only(ids_of(ids@), found_view(available@)),
{
    let mut kept: Vec<String> = Vec::new();
    let ghost asked = ids_of(ids@);
    let mut i: usize = 0;
    assert(asked.take(0) =~= Seq::<Seq<char>>::empty());
    assert(ids_of(kept@) =~= Seq::<Seq<char>>::empty());
    while i < ids.len()
        invariant
            i <= ids.len(),
            asked == ids_of(ids@),
            ids_of(kept@) == known_only(asked.take(i as int), found_view(available@)),
        decreases ids.len() - i,
    {
        assert(asked.take(i + 1).drop_last() =~= asked.take(i as int));
        assert(asked.take(i + 1).last() == ids@[i as int]@);
        let ghost before = kept@;
        if is_found(available, ids[i].as_str()) {
            kept.push(ids[i].clone());
            assert(ids_of(kept@) =~= ids_of(before).push(ids@[i as int]@));
        }
        i = i + 1;
    }
    assert(asked.take(ids.len() as int) =~= asked);
    kept
}

proof fn lemma_with_new_keeps_start(selected: Seq<Seq<char>>, available: Seq<(Seq<char>, PackSource)>)
    ensures
        with_new(selected, available).len() >= selected.len(),
        forall|k: int| 0 <= k < selected.len() ==> with_new(selected, available)[k] == selected[k],
    decreases available.len(),
{
    if available.len() > 0 {
        lemma_with_new_keeps_start(selected, available.drop_last());
    }
}

proof fn lemma_with_new_has_world(selected: Seq<Seq<char>>, available: Seq<(Seq<char>, PackSource)>)
    ensures
        forall|i: int|
            0 <= i < available.len() && (#[trigger] available[i]).1 == PackSource::World
                ==> with_new(selected, available).contains(available[i].0),
        forall|k: int|
            selected.len() <= k < with_new(selected, available).len() ==> found_id(
                available,
                #[trigger] with_new(selected, available)[k],
            ),
    decreases available.len(),
{
    if available.len() > 0 {
        let rest = available.drop_last();
        lemma_with_new_has_world(selected, rest);
        let before = with_new(selected, rest);
        let after = with_new(selected, available);
        assert forall|i: int|
            0 <= i < available.len() && (#[trigger] available[i]).1
                == PackSource::World implies after.contains(available[i].0) by {
            if i < available.len() - 1 {
                assert(rest[i] == available[i]);
                let k = choose|k: int| 0 <= k < before.len() && before[k] == available[i].0;
                assert(after[k] == before[k]);
            } else {
                if !before.contains(available[i].0) {
                    assert(after[before.len() as int] == available[i].0);
                }
            }
        }
        lemma_with_new_keeps_start(selected, rest);
        assert forall|k: int| selected.len() <= k < after.len() implies found_id(
            available,
            #[trigger] after[k],
        ) by {
            if k < before.len() {
                assert(after[k] == before[k]);
                if found_id(rest, before[k]) {
                    let i = choose|i: int| 0 <= i < rest.len() && (#[trigger] rest[i]).0 == before[k];
                    assert(available[i] == rest[i]);
                }
            } else {
                assert(available[available.len() - 1].0 == after[k]);
            }
        }
    }
}

proof fn lemma_still_there_found(previous: Seq<Seq<char>>, available: Seq<(Seq<char>, PackSource)>)
    ensures
        forall|k: int|
            0 <= k < still_there(previous, available).len() ==> found_id(
                available,
                #[trigger] still_there(previous, available)[k],
            ) && still_there(previous, available)[k] != VANILLA_PACK_ID@,
    decreases previous.len(),
{
    if previous.len() > 0 {
        lemma_still_there_found(previous.drop_last(), available);
        let before = still_there(previous.drop_last(), available);
        let after = still_there(previous, available);
        assert forall|k: int| 0 <= k < after.len() implies found_id(available, #[trigger] after[k])
            && after[k] != VANILLA_PACK_ID@ by {
            if k < before.len() {
                assert(after[k] == before[k]);
            }
        }
    }
}

/// After looking again, the built-in pack is at the bottom of the stack; every pack on is one that
/// was found; and every pack found in the datapack directory is on.
pub proof fn lemma_reselected(previous: Seq<Seq<char>>, available: Seq<(Seq<char>, PackSource)>)
    ensures
        reselected(previous, available).len() > 0,
        reselected(previous, available)[0] == VANILLA_PACK_ID@,
        forall|k: int|
            1 <= k < reselected(previous, available).len() ==> found_id(
                available,
                #[trigger] reselected(previous, available)[k],
            ),
        forall|i: int|
            0 <= i < available.len() && (#[trigger] available[i]).1 == PackSource::World
                ==> reselected(previous, available).contains(available[i].0),
{
    let start = seq![VANILLA_PACK_ID@] + still_there(previous, available);
    lemma_with_new_keeps_start(start, available);
    lemma_with_new_has_world(start, available);
    lemma_still_there_found(previous, available);
    let r = reselected(previous, available);
    assert(r[0] == start[0]);
    assert forall|k: int| 1 <= k < r.len() implies found_id(available, #[trigger] r[k]) by {
        if k < start.len() {
            assert(r[k] == start[k]);
            assert(start[k] == still_there(previous, available)[k - 1]);
        }
    }
}

} // verus!
