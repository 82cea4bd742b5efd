//! Files in a pack stack, and the pairing of a directory with the extension its files carry,
//! which is what turns a file location into the id of the thing inside it.
use crate::identifier::{
    lemma_loc_before_order, loc_before, location_of, outcome, Identifier, IdentifierError,
    RejectedLocation,
};
use crate::text::{ends_with, has_suffix, joined, strip_prefix, strip_suffix, without_prefix, without_suffix};
use vstd::prelude::*;

verus! {

/// A file, and which pack it came out of.
pub struct Resource {
    pub source: String,
    pub data: Vec<u8>,
}

/// The pairing of a directory with the extension its files carry.
///
/// Vanilla's `FileToIdConverter`: `tags/block` plus `.json` maps
/// `minecraft:tags/block/logs.json` to `minecraft:logs` and back.
pub struct FileToId {
    prefix: String,
    extension: &'static str,
}

/// The path of the file that holds the thing at `path`.
pub open spec fn file_path(prefix: Seq<char>, extension: Seq<char>, path: Seq<char>) -> Seq<char> {
    prefix + seq!['/'] + path + extension
}

/// The path of the thing a file at `path` holds, where the file is in the directory and carries
/// the extension.
pub open spec fn thing_path(prefix: Seq<char>, extension: Seq<char>, path: Seq<char>) -> Option<
    Seq<char>,
> {
    match without_prefix(path, prefix) {
        Some(rest) => match without_prefix(rest, seq!['/']) {
            Some(inner) => without_suffix(inner, extension),
            None => None,
        },
        None => None,
    }
}

/// A location that was built, as its two halves, or nothing where it could not be.
pub open spec fn built(r: Result<(Seq<char>, Seq<char>), RejectedLocation>) -> Option<(Seq<char>, Seq<char>)> {
    match r {
        Ok(id) => Some(id),
        Err(_) => None,
    }
}

/// An identifier, if there is one, as its two halves.
pub open spec fn halves(r: Option<Identifier>) -> Option<(Seq<char>, Seq<char>)> {
    match r {
        Some(id) => Some(id@),
        None => None,
    }
}

impl FileToId {
    /// The directory the files are in.
    pub closed spec fn directory(&self) -> Seq<char> {
        self.prefix@
    }

    /// The extension the files carry.
    pub closed spec fn suffix(&self) -> Seq<char> {
        self.extension@
    }

    /// JSON files in `prefix`.
    pub fn json(prefix: &str) -> (r: Self)
        ensures
            r.directory() == prefix@,
            r.suffix() == ".json"@,
    {
        FileToId { prefix: String::from_str(prefix), extension: ".json" }
    }

    /// The file the thing of this id lives in.
    pub fn id_to_file(&self, id: &Identifier) -> (r: Option<Identifier>)
        ensures
            halves(r) == built(location_of(id@.0, file_path(self.directory(), self.suffix(), id@.1))),
    {
        proof {
            reveal_strlit("/");
            assert("/"@ =~= seq!['/']);
        }
        let mut path = joined(self.prefix.as_str(), "/");
        path.append(id.path());
        path.append(self.extension);
        assert(path@ =~= file_path(self.directory(), self.suffix(), id@.1));
        match id.with_path(path.as_str()) {
            Ok(file) => Some(file),
            Err(_) => None,
        }
    }

    /// The id of the thing this file holds.
    pub fn file_to_id(&self, file: &Identifier) -> (r: Option<Identifier>)
        ensures
            halves(r) == match thing_path(self.directory(), self.suffix(), file@.1) {
                Some(path) => built(location_of(file@.0, path)),
                None => None,
            },
    {
        proof {
            reveal_strlit("/");
            assert("/"@ =~= seq!['/']);
        }
        let rest = match strip_prefix(file.path(), self.prefix.as_str()) {
            Some(rest) => rest,
            None => return None,
        };
        let inner = match strip_prefix(rest, "/") {
            Some(inner) => inner,
            None => return None,
        };
        let path = match strip_suffix(inner, self.extension) {
            Some(path) => path,
            None => return None,
        };
        match file.with_path(path) {
            Ok(id) => Some(id),
            Err(_) => None,
        }
    }

    /// The location of the thing a file at `file` holds, where it holds one.
    pub open spec fn thing_of(&self, file: (Seq<char>, Seq<char>)) -> Option<(Seq<char>, Seq<char>)> {
        match thing_path(self.directory(), self.suffix(), file.1) {
            Some(path) => built(location_of(file.0, path)),
            None => None,
        }
    }

    /// A listing of files turned into one of the things they hold: each file's location becomes
    /// the thing's, in the same order, and a file that holds no thing is left out.
    pub fn things<T>(&self, files: Vec<(Identifier, T)>) -> (r: Vec<(Identifier, T)>)
        ensures
            r@.map_values(|e: (Identifier, T)| (e.0@, e.1)) == things_from(*self, files@),
    {
        let ghost all = files@;
        let mut files = files;
        let mut out: Vec<(Identifier, T)> = Vec::new();
        let ghost mut k: int = 0;
        assert(all.skip(0) =~= all);
        while files.len() > 0
            invariant
                0 <= k <= all.len(),
                files@ == all.skip(k),
                out@.map_values(|e: (Identifier, T)| (e.0@, e.1)) == things_from(*self, all.take(k)),
            decreases files.len(),
        {
            let (file, thing) = files.remove(0);
            let ghost before = out@;
            proof {
                assert(all.take(k + 1).drop_last() =~= all.take(k));
                assert(all.take(k + 1).last() == (file, thing));
                assert(files@ =~= all.skip(k + 1));
                k = k + 1;
            }
            match self.file_to_id(&file) {
                Some(id) => {
                    out.push((id, thing));
                    assert(out@.map_values(|e: (Identifier, T)| (e.0@, e.1)) =~= before.map_values(
                        |e: (Identifier, T)| (e.0@, e.1),
                    ).push((id@, thing)));
                },
                None => {},
            }
        }
        assert(all.take(k) =~= all);
        out
    }

    /// Whether a file carries the extension.
    pub fn matches(&self, id: &Identifier) -> (r: bool)
        ensures
            r == ends_with(id@.1, self.suffix()),
    {
        has_suffix(id.path(), self.extension)
    }
}

/// A listing of files as the things they hold, in order, less the files that hold none.
pub open spec fn things_from<T>(converter: FileToId, files: Seq<(Identifier, T)>) -> Seq<
    ((Seq<char>, Seq<char>), T),
>
    decreases files.len(),
{
    if files.len() == 0 {
        Seq::empty()
    } else {
        let before = things_from(converter, files.drop_last());
        match converter.thing_of(files.last().0@) {
            Some(loc) => before.push((loc, files.last().1)),
            None => before,
        }
    }
}

/// A file's location turned into the thing's and back is where it started: the thing a file at
/// `file_path(prefix, extension, path)` holds is at `path`, in the same namespace, wherever that
/// file's location is one at all.
pub proof fn lemma_file_round_trip(
    prefix: Seq<char>,
    extension: Seq<char>,
    namespace: Seq<char>,
    path: Seq<char>,
)
    requires
        location_of(namespace, file_path(prefix, extension, path)) is Ok,
    ensures
        thing_path(prefix, extension, file_path(prefix, extension, path)) == Some(path),
        location_of(namespace, path) == Ok::<(Seq<char>, Seq<char>), RejectedLocation>(
            (namespace, path),
        ),
{
    let whole = file_path(prefix, extension, path);
    let rest = seq!['/'] + path + extension;
    let inner = path + extension;
    assert(whole.take(prefix.len() as int) =~= prefix);
    assert(whole.skip(prefix.len() as int) =~= rest);
    assert(rest.take(1) =~= seq!['/']);
    assert(rest.skip(1) =~= inner);
    assert(inner.skip(inner.len() - extension.len()) =~= extension);
    assert(inner.take(inner.len() - extension.len()) =~= path);
    assert forall|i: int| 0 <= i < path.len() implies crate::text::is_path_char(#[trigger] path[i]) by {
        assert(path[i] == whole[prefix.len() + 1 + i]);
    }
}

/// Building a location the file's way round and reading it back gives the thing it was built
/// for: whatever `id_to_file` gives, `file_to_id` turns back into the same location.
pub proof fn lemma_id_round_trip(converter: FileToId, namespace: Seq<char>, path: Seq<char>)
    requires
        location_of(namespace, file_path(converter.directory(), converter.suffix(), path)) is Ok,
    ensures
        match thing_path(
            converter.directory(),
            converter.suffix(),
            file_path(converter.directory(), converter.suffix(), path),
        ) {
            Some(p) => built(location_of(namespace, p)) == Some((namespace, path)),
            None => false,
        },
{
    lemma_file_round_trip(converter.directory(), converter.suffix(), namespace, path);
}


/// What each pack of a stack answered when asked for one location, lowest priority first: the
/// pack's id and the file's bytes, where it carries the file.
pub open spec fn answers_view(answers: Seq<(String, Option<Vec<u8>>)>) -> Seq<
    (Seq<char>, Option<Seq<u8>>),
> {
    answers.map_values(
        |a: (String, Option<Vec<u8>>)|
            (
                a.0@,
                match a.1 {
                    Some(d) => Some(d@),
                    None => None,
                },
            ),
    )
}

/// The copy that wins: the one of the highest pack that carries the file.
pub open spec fn winning_copy(answers: Seq<(Seq<char>, Option<Seq<u8>>)>) -> Option<
    (Seq<char>, Seq<u8>),
>
    decreases answers.len(),
{
    if answers.len() == 0 {
        None
    } else {
        match answers.last().1 {
            Some(data) => Some((answers.last().0, data)),
            None => winning_copy(answers.drop_last()),
        }
    }
}

/// Every copy, lowest priority first.
pub open spec fn every_copy(answers: Seq<(Seq<char>, Option<Seq<u8>>)>) -> Seq<(Seq<char>, Seq<u8>)>
    decreases answers.len(),
{
    if answers.len() == 0 {
        seq![]
    } else {
        let before = every_copy(answers.drop_last());
        match answers.last().1 {
            Some(data) => before.push((answers.last().0, data)),
            None => before,
        }
    }
}

/// A file as which pack it came out of and its bytes.
pub open spec fn resource_view(r: Resource) -> (Seq<char>, Seq<u8>) {
    (r.source@, r.data@)
}

/// Of every copy, lowest priority first, the last is the one that wins, and there is none exactly
/// when nothing wins.
pub proof fn lemma_last_copy_wins(answers: Seq<(Seq<char>, Option<Seq<u8>>)>)
    ensures
        (every_copy(answers).len() == 0) == (winning_copy(answers) is None),
        every_copy(answers).len() > 0 ==> winning_copy(answers) == Some(every_copy(answers).last()),
    decreases answers.len(),
{
    if answers.len() > 0 {
        lemma_last_copy_wins(answers.drop_last());
    }
}

/// What to do next in looking for the copy of a file that wins: ask a pack, or stop, having found
/// it in a pack or in none.
#[derive(Debug, Clone, Copy, PartialEq, Eq, Structural)]
pub enum Asking {
    /// Ask the pack at this place whether it carries the file.
    Ask(usize),
    /// The pack at this place carries it, and is the highest that does.
    Found(usize),
    /// No pack carries it.
    Nowhere,
}

/// Where asking starts: at the highest of `packs` packs, since the last pack to carry a file wins
/// it.
pub open spec fn first_step(packs: nat) -> Asking {
    if packs == 0 {
        Asking::Nowhere
    } else {
        Asking::Ask((packs - 1) as usize)
    }
}

/// What follows the answer of the pack at `asked`: it carries the file, and the search is over; or
/// it does not, and the pack below is asked, where there is one.
pub open spec fn next_step(asked: usize, carries: bool) -> Asking {
    if carries {
        Asking::Found(asked)
    } else if asked == 0 {
        Asking::Nowhere
    } else {
        Asking::Ask((asked - 1) as usize)
    }
}

/// Where asking for a file among `packs` packs starts.
pub fn start_asking(packs: usize) -> (r: Asking)
    ensures
        r == first_step(packs as nat),
{
    if packs == 0 {
        Asking::Nowhere
    } else {
        Asking::Ask(packs - 1)
    }
}

/// What to do once the pack at `asked` has answered whether it `carries` the file.
pub fn after_answer(asked: usize, carries: bool) -> (r: Asking)
    ensures
        r == next_step(asked, carries),
{
    if carries {
        Asking::Found(asked)
    } else if asked == 0 {
        Asking::Nowhere
    } else {
        Asking::Ask(asked - 1)
    }
}

/// The places asked, and where asking ends, following the steps from `step` for at most `fuel`
/// answers, where the pack at `i` answers `answers[i]`.
pub open spec fn walk(answers: Seq<(Seq<char>, Option<Seq<u8>>)>, step: Asking, fuel: nat) -> (
    Seq<int>,
    Asking,
)
    decreases fuel,
{
    match step {
        Asking::Ask(i) => if fuel == 0 || i >= answers.len() {
            (seq![], step)
        } else {
            let (rest, end) = walk(answers, next_step(i, answers[i as int].1 is Some), (fuel - 1) as nat);
            (seq![i as int] + rest, end)
        },
        _ => (seq![], step),
    }
}

/// The places from `i` down to the highest that carries the file, or to the bottom where none
/// does.
pub open spec fn down_to_a_copy(answers: Seq<(Seq<char>, Option<Seq<u8>>)>, i: int) -> Seq<int>
    decreases i + 1,
{
    if i < 0 {
        seq![]
    } else if answers[i].1 is Some {
        seq![i]
    } else {
        seq![i] + down_to_a_copy(answers, i - 1)
    }
}

/// The highest place at or below `i` that carries the file, if any does.
pub open spec fn highest_copy(answers: Seq<(Seq<char>, Option<Seq<u8>>)>, i: int) -> Option<int>
    decreases i + 1,
{
    if i < 0 {
        None
    } else if answers[i].1 is Some {
        Some(i)
    } else {
        highest_copy(answers, i - 1)
    }
}

proof fn lemma_walk_down(answers: Seq<(Seq<char>, Option<Seq<u8>>)>, i: int)
    requires
        0 <= i < answers.len(),
        answers.len() <= usize::MAX,
    ensures
        walk(answers, Asking::Ask(i as usize), (i + 1) as nat) == (
            down_to_a_copy(answers, i),
            match highest_copy(answers, i) {
                Some(j) => Asking::Found(j as usize),
                None => Asking::Nowhere,
            },
        ),
    decreases i,
{
    let step = next_step(i as usize, answers[i].1 is Some);
    assert((i as usize) as int == i);
    assert(walk(answers, Asking::Ask(i as usize), (i + 1) as nat) == (
        seq![i] + walk(answers, step, i as nat).0,
        walk(answers, step, i as nat).1,
    ));
    if answers[i].1 is Some {
        assert(seq![i] + Seq::<int>::empty() =~= seq![i]);
    } else if i == 0 {
        assert(seq![i] + Seq::<int>::empty() =~= seq![i]);
        assert(down_to_a_copy(answers, i - 1) == Seq::<int>::empty());
    } else {
        lemma_walk_down(answers, i - 1);
        assert(((i - 1) as usize) as int == i - 1);
    }
}

proof fn lemma_highest_copy_wins(answers: Seq<(Seq<char>, Option<Seq<u8>>)>)
    ensures
        match highest_copy(answers, answers.len() - 1) {
            Some(j) => 0 <= j < answers.len() && (answers[j].1 matches Some(data)
                && winning_copy(answers) == Some((answers[j].0, data))),
            None => winning_copy(answers) is None,
        },
    decreases answers.len(),
{
    if answers.len() > 0 {
        let before = answers.drop_last();
        lemma_highest_copy_wins(before);
        lemma_highest_copy_same(answers, before, before.len() - 1);
    }
}

proof fn lemma_highest_copy_same(
    answers: Seq<(Seq<char>, Option<Seq<u8>>)>,
    before: Seq<(Seq<char>, Option<Seq<u8>>)>,
    i: int,
)
    requires
        answers.len() > 0,
        before == answers.drop_last(),
        i < before.len(),
    ensures
        highest_copy(answers, i) == highest_copy(before, i),
    decreases i + 1,
{
    if i >= 0 {
        assert(answers[i] == before[i]);
        lemma_highest_copy_same(answers, before, i - 1);
    }
}

/// Looking for the copy of a file that wins asks the packs from the highest down, stops at the
/// first that carries it, and asks no other: the places asked are the highest down to the highest
/// that carries the file (or all of them where none does), and what is found is the winning copy.
pub proof fn lemma_asking_finds_the_winner(answers: Seq<(Seq<char>, Option<Seq<u8>>)>)
    requires
        answers.len() <= usize::MAX,
    ensures
        walk(answers, first_step(answers.len()), answers.len()).0 == down_to_a_copy(
            answers,
            answers.len() - 1,
        ),
        match walk(answers, first_step(answers.len()), answers.len()).1 {
            Asking::Found(j) => answers[j as int].1 matches Some(data) && winning_copy(answers)
                == Some((answers[j as int].0, data)),
            Asking::Nowhere => winning_copy(answers) is None,
            Asking::Ask(_) => false,
        },
{
    lemma_highest_copy_wins(answers);
    if answers.len() > 0 {
        lemma_walk_down(answers, answers.len() - 1);
    }
}

/// The winning copy of a location, out of what every pack of the stack answered for it.
pub fn winning(answers: Vec<(String, Option<Vec<u8>>)>) -> (r: Option<Resource>)
    ensures
        match r {
            Some(res) => winning_copy(answers_view(answers@)) == Some(resource_view(res)),
            None => winning_copy(answers_view(answers@)) is None,
        },
{
    let ghost all = answers_view(answers@);
    assert(all.take(answers@.len() as int) =~= all);
    let mut left = answers;
    while left.len() > 0
        invariant
            all == answers_view(answers@),
            answers_view(left@) == all.take(left@.len() as int),
            left@.len() <= all.len(),
            winning_copy(all) == winning_copy(all.take(left@.len() as int)),
        decreases left.len(),
    {
        let ghost n = left@.len();
        let ghost was = left@;
        let (source, data) = left.pop().unwrap();
        assert(left@ =~= was.drop_last());
        assert(was[n - 1] == (source, data));
        assert(answers_view(was)[n - 1] == all.take(n as int).last());
        assert(all.take(n as int).drop_last() =~= all.take(n - 1));
        assert(answers_view(left@) =~= all.take(n - 1));
        match data {
            Some(bytes) => {
                assert(all.take(n as int).last() == (source@, Some(bytes@)));
                assert(winning_copy(all.take(n as int)) == Some((source@, bytes@)));
                return Some(Resource { source, data: bytes });
            },
            None => {},
        }
    }
    None
}

/// Every copy of a location, lowest priority first, out of what every pack answered for it.
pub fn stacked(answers: Vec<(String, Option<Vec<u8>>)>) -> (r: Vec<Resource>)
    ensures
        r@.map_values(|res: Resource| resource_view(res)) == every_copy(answers_view(answers@)),
{
    let ghost all = answers_view(answers@);
    let mut copies: Vec<Resource> = Vec::new();
    let mut rest = answers;
    let mut taken: usize = 0;
    let ghost n = all.len();
    let total = rest.len();
    assert(n == total);
    assert(answers_view(rest@) =~= all.skip(0));
    assert(all.take(0) =~= Seq::<(Seq<char>, Option<Seq<u8>>)>::empty());
    assert(copies@.map_values(|res: Resource| resource_view(res)) =~= every_copy(all.take(0)));
    while rest.len() > 0
        invariant
            n == all.len(),
            n <= usize::MAX,
            taken + rest@.len() == n,
            answers_view(rest@) == all.skip(taken as int),
            copies@.map_values(|res: Resource| resource_view(res)) == every_copy(
                all.take(taken as int),
            ),
        decreases rest.len(),
    {
        let ghost before = copies@;
        let ghost was = rest@;
        let (source, data) = rest.remove(0);
        assert(rest@ =~= was.drop_first());
        assert(was[0] == (source, data));
        assert(answers_view(was)[0] == all[taken as int]);
        assert forall|k: int| 0 <= k < rest@.len() implies #[trigger] answers_view(rest@)[k]
            == all.skip(taken + 1)[k] by {
            assert(rest@[k] == was[k + 1]);
            assert(answers_view(was)[k + 1] == all.skip(taken as int)[k + 1]);
        }
        assert(all.take(taken + 1).drop_last() =~= all.take(taken as int));
        assert(all.take(taken + 1).last() == all[taken as int]);
        assert(answers_view(rest@) =~= all.skip(taken + 1));
        match data {
            Some(bytes) => {
                copies.push(Resource { source, data: bytes });
                assert(copies@.map_values(|res: Resource| resource_view(res)) =~= before.map_values(
                    |res: Resource| resource_view(res),
                ).push((all[taken as int].0, all[taken as int].1.unwrap())));
            },
            None => {},
        }
        taken = taken + 1;
    }
    assert(all.take(n as int) =~= all);
    copies
}

/// The listed locations something was found for, each with what was found, in listing order.
pub open spec fn kept_found<T>(ids: Seq<Identifier>, found: Seq<Option<T>>) -> Seq<(Identifier, T)>
    decreases ids.len(),
{
    if ids.len() == 0 || found.len() == 0 {
        Seq::empty()
    } else {
        let before = kept_found(ids.drop_last(), found.drop_last());
        match found.last() {
            Some(t) => before.push((ids.last(), t)),
            None => before,
        }
    }
}

/// The listed locations whose stack of copies is not empty, each with its stack, in listing
/// order.
pub open spec fn kept_stacks<T>(ids: Seq<Identifier>, stacks: Seq<Vec<T>>) -> Seq<(Identifier, Vec<T>)>
    decreases ids.len(),
{
    if ids.len() == 0 || stacks.len() == 0 {
        Seq::empty()
    } else {
        let before = kept_stacks(ids.drop_last(), stacks.drop_last());
        if stacks.last()@.len() > 0 {
            before.push((ids.last(), stacks.last()))
        } else {
            before
        }
    }
}

/// A listing of the winning copies: each listed location with the copy found for it, leaving out
/// those no pack carries.
pub fn found_only<T>(ids: Vec<Identifier>, found: Vec<Option<T>>) -> (r: Vec<(Identifier, T)>)
    requires
        ids.len() == found.len(),
    ensures
        r@ == kept_found(ids@, found@),
{
    let ghost all_ids = ids@;
    let ghost all_found = found@;
    let mut ids = ids;
    let mut found = found;
    let mut out: Vec<(Identifier, T)> = Vec::new();
    let ghost mut k: int = 0;
    assert(all_ids.skip(0) =~= all_ids);
    assert(all_found.skip(0) =~= all_found);
    while ids.len() > 0
        invariant
            0 <= k <= all_ids.len(),
            all_ids.len() == all_found.len(),
            ids@ == all_ids.skip(k),
            found@ == all_found.skip(k),
            out@ == kept_found(all_ids.take(k), all_found.take(k)),
        decreases ids.len(),
    {
        let id = ids.remove(0);
        let f = found.remove(0);
        proof {
            assert(all_ids.take(k + 1).drop_last() =~= all_ids.take(k));
            assert(all_found.take(k + 1).drop_last() =~= all_found.take(k));
            assert(ids@ =~= all_ids.skip(k + 1));
            assert(found@ =~= all_found.skip(k + 1));
            k = k + 1;
        }
        match f {
            Some(t) => out.push((id, t)),
            None => {},
        }
    }
    assert(all_ids.take(k) =~= all_ids);
    assert(all_found.take(k) =~= all_found);
    out
}

/// A listing of the stacks: each listed location with its copies, leaving out those no pack
/// carries.
pub fn stacks_only<T>(ids: Vec<Identifier>, stacks: Vec<Vec<T>>) -> (r: Vec<(Identifier, Vec<T>)>)
    requires
        ids.len() == stacks.len(),
    ensures
        r@ == kept_stacks(ids@, stacks@),
{
    let ghost all_ids = ids@;
    let ghost all_stacks = stacks@;
    let mut ids = ids;
    let mut stacks = stacks;
    let mut out: Vec<(Identifier, Vec<T>)> = Vec::new();
    let ghost mut k: int = 0;
    assert(all_ids.skip(0) =~= all_ids);
    assert(all_stacks.skip(0) =~= all_stacks);
    while ids.len() > 0
        invariant
            0 <= k <= all_ids.len(),
            all_ids.len() == all_stacks.len(),
            ids@ == all_ids.skip(k),
            stacks@ == all_stacks.skip(k),
            out@ == kept_stacks(all_ids.take(k), all_stacks.take(k)),
        decreases ids.len(),
    {
        let id = ids.remove(0);
        let stack = stacks.remove(0);
        proof {
            assert(all_ids.take(k + 1).drop_last() =~= all_ids.take(k));
            assert(all_stacks.take(k + 1).drop_last() =~= all_stacks.take(k));
            assert(ids@ =~= all_ids.skip(k + 1));
            assert(stacks@ =~= all_stacks.skip(k + 1));
            k = k + 1;
        }
        if stack.len() > 0 {
            out.push((id, stack));
        }
    }
    assert(all_ids.take(k) =~= all_ids);
    assert(all_stacks.take(k) =~= all_stacks);
    out
}

/// The listing of winners and the listing of stacks name the same locations in the same order,
/// and each location's winner is the last copy of its stack, wherever each winner and each stack
/// is what `winning` and `stacked` make of what the packs answered for that location.
pub proof fn lemma_listings_agree(
    ids: Seq<Identifier>,
    answers: Seq<Seq<(Seq<char>, Option<Seq<u8>>)>>,
    found: Seq<Option<Resource>>,
    stacks: Seq<Vec<Resource>>,
)
    requires
        answers.len() == ids.len(),
        found.len() == ids.len(),
        stacks.len() == ids.len(),
        forall|i: int|
            0 <= i < ids.len() ==> match #[trigger] found[i] {
                Some(res) => winning_copy(answers[i]) == Some(resource_view(res)),
                None => winning_copy(answers[i]) is None,
            },
        forall|i: int|
            0 <= i < ids.len() ==> (#[trigger] stacks[i])@.map_values(|res: Resource| resource_view(res))
                == every_copy(answers[i]),
    ensures
        kept_found(ids, found).len() == kept_stacks(ids, stacks).len(),
        forall|j: int|
            0 <= j < kept_found(ids, found).len() ==> {
                &&& (#[trigger] kept_found(ids, found)[j]).0 == kept_stacks(ids, stacks)[j].0
                &&& resource_view(kept_found(ids, found)[j].1) == resource_view(
                    kept_stacks(ids, stacks)[j].1@.last(),
                )
            },
    decreases ids.len(),
{
    if ids.len() > 0 {
        let n = ids.len() - 1;
        assert forall|i: int| 0 <= i < n implies match #[trigger] found.drop_last()[i] {
            Some(res) => winning_copy(answers.drop_last()[i]) == Some(resource_view(res)),
            None => winning_copy(answers.drop_last()[i]) is None,
        } by {
            assert(found[i] == found.drop_last()[i]);
        }
        assert forall|i: int| 0 <= i < n implies (#[trigger] stacks.drop_last()[i])@.map_values(
            |res: Resource| resource_view(res),
        ) == every_copy(answers.drop_last()[i]) by {
            assert(stacks[i] == stacks.drop_last()[i]);
        }
        lemma_listings_agree(ids.drop_last(), answers.drop_last(), found.drop_last(), stacks.drop_last());
        lemma_last_copy_wins(answers[n]);
        let last = stacks[n]@;
        assert(found[n] == found.last());
        assert(stacks[n] == stacks.last());
        let views = last.map_values(|res: Resource| resource_view(res));
        assert(views.len() == last.len());
        if last.len() > 0 {
            assert(views.last() == resource_view(last.last()));
        }
    }
}

/// Whether the locations come in strictly rising order: by path, then by namespace.
pub open spec fn ascending(v: Seq<Identifier>) -> bool {
    forall|i: int, j: int| 0 <= i < j < v.len() ==> loc_before(#[trigger] v[i]@, #[trigger] v[j]@)
}

/// Whether the list holds a location.
pub open spec fn holds_location(v: Seq<Identifier>, loc: (Seq<char>, Seq<char>)) -> bool {
    exists|i: int| 0 <= i < v.len() && (#[trigger] v[i])@ == loc
}

/// Whether entry `e` of a listing of what was found came from place `i` of the listed locations.
pub open spec fn came_from<T>(ids: Seq<Identifier>, found: Seq<Option<T>>, i: int, e: (Identifier, T)) -> bool {
    0 <= i < ids.len() && ids[i] == e.0 && found[i] == Some(e.1)
}

/// Whether entry `e` of a listing of what was found came from some place of the listed locations.
pub open spec fn from_some_place<T>(ids: Seq<Identifier>, found: Seq<Option<T>>, e: (Identifier, T)) -> bool {
    exists|i: int| #[trigger] came_from(ids, found, i, e)
}

/// The locations a listing of what was found names, in order.
pub open spec fn keys_of<T>(entries: Seq<(Identifier, T)>) -> Seq<Identifier> {
    entries.map_values(|e: (Identifier, T)| e.0)
}

/// Every entry of a listing of what was found came from some place of the listed locations.
proof fn lemma_kept_found_sources<T>(ids: Seq<Identifier>, found: Seq<Option<T>>)
    requires
        ids.len() == found.len(),
    ensures
        forall|j: int|
            0 <= j < kept_found(ids, found).len() ==> from_some_place(
                ids,
                found,
                #[trigger] kept_found(ids, found)[j],
            ),
    decreases ids.len(),
{
    if ids.len() > 0 {
        let n = ids.len() - 1;
        let fi = ids.drop_last();
        let ff = found.drop_last();
        lemma_kept_found_sources(fi, ff);
        let before = kept_found(fi, ff);
        let all = kept_found(ids, found);
        assert forall|j: int| 0 <= j < all.len() implies from_some_place(ids, found, #[trigger] all[j]) by {
            if j < before.len() {
                assert(all[j] == before[j]);
                let i = choose|i: int| #[trigger] came_from(fi, ff, i, before[j]);
                assert(fi[i] == ids[i] && ff[i] == found[i]);
                assert(came_from(ids, found, i, all[j]));
            } else {
                assert(found.last() == found[n]);
                assert(ids.last() == ids[n]);
                assert(found[n] is Some);
                assert(all == before.push((ids[n], found[n]->0)));
                assert(all[j] == (ids[n], found[n]->0));
                assert(came_from(ids, found, n, all[j]));
            }
        }
    } else {
        assert(kept_found(ids, found).len() == 0);
    }
}

/// Every listed location something was found for is in the listing, with what was found.
proof fn lemma_kept_found_keeps<T>(ids: Seq<Identifier>, found: Seq<Option<T>>)
    requires
        ids.len() == found.len(),
    ensures
        forall|i: int|
            0 <= i < ids.len() && found[i] is Some ==> exists|j: int|
                0 <= j < kept_found(ids, found).len() && #[trigger] kept_found(ids, found)[j] == (
                ids[i],
                found[i]->0,
            ),
    decreases ids.len(),
{
    if ids.len() > 0 {
        let n = ids.len() - 1;
        let fi = ids.drop_last();
        let ff = found.drop_last();
        lemma_kept_found_keeps(fi, ff);
        let before = kept_found(fi, ff);
        let all = kept_found(ids, found);
        assert(found.last() == found[n]);
        assert forall|i: int| 0 <= i < ids.len() && found[i] is Some implies exists|j: int|
            0 <= j < all.len() && #[trigger] all[j] == (ids[i], found[i]->0) by {
            if i < n {
                assert(fi[i] == ids[i] && ff[i] == found[i]);
                let j = choose|j: int|
                    0 <= j < before.len() && #[trigger] before[j] == (fi[i], ff[i]->0);
                assert(all[j] == before[j]);
            } else {
                assert(all[before.len() as int] == (ids[i], found[i]->0));
            }
        }
    }
}

/// A listing of what was found keeps the order of the listed locations.
proof fn lemma_kept_found_ascending<T>(ids: Seq<Identifier>, found: Seq<Option<T>>)
    requires
        ids.len() == found.len(),
        ascending(ids),
    ensures
        ascending(keys_of(kept_found(ids, found))),
    decreases ids.len(),
{
    if ids.len() > 0 {
        let n = ids.len() - 1;
        let fi = ids.drop_last();
        let ff = found.drop_last();
        assert forall|a: int, b: int| 0 <= a < b < fi.len() implies loc_before(
            #[trigger] fi[a]@,
            #[trigger] fi[b]@,
        ) by {
            assert(fi[a] == ids[a] && fi[b] == ids[b]);
        }
        lemma_kept_found_ascending(fi, ff);
        lemma_kept_found_sources(fi, ff);
        let before = kept_found(fi, ff);
        let all = kept_found(ids, found);
        let keys = keys_of(all);
        let kb = keys_of(before);
        assert(found.last() == found[n]);
        assert forall|a: int, b: int| 0 <= a < b < keys.len() implies loc_before(
            #[trigger] keys[a]@,
            #[trigger] keys[b]@,
        ) by {
            assert(all[a] == before[a]);
            assert(keys[a] == all[a].0 && keys[b] == all[b].0);
            if b < before.len() {
                assert(all[b] == before[b]);
                assert(kb[a] == before[a].0 && kb[b] == before[b].0);
            } else {
                let i = choose|i: int| #[trigger] came_from(fi, ff, i, before[a]);
                assert(ids[i] == fi[i]);
                assert(all[b].0 == ids[n]);
            }
        }
    }
}

/// What listing the winning copies comes to: the locations some pack lists and `filter` accepts
/// that some pack carries, each once, in order by path and then namespace, each with its winning
/// copy. `ids` are the locations as `locations` gives them, and each of `found` is what `winning`
/// makes of what the packs answered for the location at its place.
pub proof fn lemma_list_holds_the_winners<F: Fn(&Identifier) -> bool>(
    listings: Seq<Vec<Identifier>>,
    filter: F,
    ids: Seq<Identifier>,
    answers: Seq<Seq<(Seq<char>, Option<Seq<u8>>)>>,
    found: Seq<Option<Resource>>,
)
    requires
        ascending(ids),
        forall|loc: (Seq<char>, Seq<char>)|
            #![trigger holds_location(ids, loc)]
            holds_location(ids, loc) == (listed_by_some(listings, loc) && accepts(filter, loc)),
        answers.len() == ids.len(),
        found.len() == ids.len(),
        forall|i: int|
            0 <= i < ids.len() ==> match #[trigger] found[i] {
                Some(res) => winning_copy(answers[i]) == Some(resource_view(res)),
                None => winning_copy(answers[i]) is None,
            },
    ensures
        ascending(keys_of(kept_found(ids, found))),
        forall|j: int|
            0 <= j < kept_found(ids, found).len() ==> {
                let loc = (#[trigger] kept_found(ids, found)[j]).0@;
                &&& listed_by_some(listings, loc)
                &&& accepts(filter, loc)
                &&& exists|i: int|
                    0 <= i < ids.len() && #[trigger] ids[i]@ == loc && winning_copy(answers[i])
                        == Some(resource_view(kept_found(ids, found)[j].1))
            },
        forall|i: int|
            0 <= i < ids.len() && winning_copy(answers[i]) is Some ==> exists|j: int|
                0 <= j < kept_found(ids, found).len() && (#[trigger] kept_found(ids, found)[j]).0
                    == ids[i],
{
    lemma_kept_found_sources(ids, found);
    lemma_kept_found_keeps(ids, found);
    lemma_kept_found_ascending(ids, found);
    let all = kept_found(ids, found);
    assert forall|j: int| 0 <= j < all.len() implies {
        let loc = (#[trigger] all[j]).0@;
        &&& listed_by_some(listings, loc)
        &&& accepts(filter, loc)
        &&& exists|i: int|
            0 <= i < ids.len() && #[trigger] ids[i]@ == loc && winning_copy(answers[i]) == Some(
                resource_view(all[j].1),
            )
    } by {
        let i = choose|i: int| #[trigger] came_from(ids, found, i, all[j]);
        assert(holds_location(ids, ids[i]@));
        assert(found[i] == Some(all[j].1));
    }
    assert forall|i: int| 0 <= i < ids.len() && winning_copy(answers[i]) is Some implies exists|j: int|
        0 <= j < all.len() && (#[trigger] all[j]).0 == ids[i] by {
        assert(found[i] is Some);
        let j = choose|j: int| 0 <= j < all.len() && #[trigger] all[j] == (ids[i], found[i]->0);
    }
}

/// Adds a location to a rising list, in its place, unless it is there already.
fn add_location(v: &mut Vec<Identifier>, id: Identifier)
    requires
        ascending(old(v)@),
    ensures
        ascending(final(v)@),
        forall|loc: (Seq<char>, Seq<char>)|
            #![trigger holds_location(final(v)@, loc)]
            holds_location(final(v)@, loc) == (holds_location(old(v)@, loc) || loc == id@),
{
    let mut i: usize = 0;
    while i < v.len()
        invariant
            i <= v.len(),
            forall|j: int| 0 <= j < i ==> loc_before(#[trigger] v@[j]@, id@),
        ensures
            i <= v.len(),
            forall|j: int| 0 <= j < i ==> loc_before(#[trigger] v@[j]@, id@),
            i < v.len() ==> !loc_before(v@[i as int]@, id@),
        decreases v.len() - i,
    {
        if !v[i].precedes(&id) {
            break;
        }
        i = i + 1;
    }
    if i < v.len() && v[i].same_as(&id) {
        return;
    }
    let ghost s = v@;
    proof {
        if i < s.len() {
            lemma_loc_before_order(id@, s[i as int]@, id@);
        }
    }
    v.insert(i, id);
    proof {
        let t = v@;
        assert(t =~= s.take(i as int) + seq![id] + s.skip(i as int));
        assert forall|a: int, b: int| 0 <= a < b < t.len() implies loc_before(
            #[trigger] t[a]@,
            #[trigger] t[b]@,
        ) by {
            if b < i {
                assert(t[a] == s[a] && t[b] == s[b]);
            } else if b == i {
                assert(t[a] == s[a]);
            } else if a == i {
                assert(t[b] == s[b - 1]);
                if b - 1 > i {
                    assert(loc_before(s[i as int]@, s[b - 1]@));
                    lemma_loc_before_order(id@, s[i as int]@, s[b - 1]@);
                }
            } else if a < i {
                assert(t[a] == s[a] && t[b] == s[b - 1]);
                assert(loc_before(s[a]@, id@));
                assert(loc_before(id@, s[i as int]@));
                lemma_loc_before_order(s[a]@, id@, s[i as int]@);
                if b - 1 > i {
                    lemma_loc_before_order(s[a]@, s[i as int]@, s[b - 1]@);
                }
            } else {
                assert(t[a] == s[a - 1] && t[b] == s[b - 1]);
            }
        }
        assert forall|loc: (Seq<char>, Seq<char>)| #[trigger] holds_location(t, loc) == (
        holds_location(s, loc) || loc == id@) by {
            if holds_location(s, loc) {
                let j = choose|j: int| 0 <= j < s.len() && (#[trigger] s[j])@ == loc;
                if j < i {
                    assert(t[j] == s[j]);
                } else {
                    assert(t[j + 1] == s[j]);
                }
            }
            if loc == id@ {
                assert(t[i as int] == id);
            }
            if holds_location(t, loc) {
                let j = choose|j: int| 0 <= j < t.len() && (#[trigger] t[j])@ == loc;
                if j < i {
                    assert(t[j] == s[j]);
                } else if j > i {
                    assert(t[j] == s[j - 1]);
                }
            }
        }
    }
}

/// Whether `filter` can be asked about any location, and gives one answer for each.
pub open spec fn filters_steadily<F: Fn(&Identifier) -> bool>(filter: F) -> bool {
    &&& forall|id: &Identifier| call_requires(filter, (id,))
    &&& forall|a: &Identifier, b: &Identifier, x: bool, y: bool|
        #![trigger call_ensures(filter, (a,), x), call_ensures(filter, (b,), y)]
        a@ == b@ && call_ensures(filter, (a,), x) && call_ensures(filter, (b,), y) ==> x == y
}

/// Whether `filter` accepts a location.
pub open spec fn accepts<F: Fn(&Identifier) -> bool>(filter: F, loc: (Seq<char>, Seq<char>)) -> bool {
    exists|id: &Identifier| id@ == loc && call_ensures(filter, (id,), true)
}

/// Whether some pack listed a location.
pub open spec fn listed_by_some(listings: Seq<Vec<Identifier>>, loc: (Seq<char>, Seq<char>)) -> bool {
    exists|i: int| 0 <= i < listings.len() && holds_location(#[trigger] listings[i]@, loc)
}

/// Every location the packs listed that `filter` accepts, each once, by path and then namespace.
pub fn locations<F: Fn(&Identifier) -> bool>(listings: &Vec<Vec<Identifier>>, filter: &F) -> (r:
    Vec<Identifier>)
    requires
        filters_steadily(*filter),
    ensures
        ascending(r@),
        forall|loc: (Seq<char>, Seq<char>)|
            #![trigger holds_location(r@, loc)]
            holds_location(r@, loc) == (listed_by_some(listings@, loc) && accepts(*filter, loc)),
{
    let mut found: Vec<Identifier> = Vec::new();
    let mut i: usize = 0;
    while i < listings.len()
        invariant
            i <= listings.len(),
            filters_steadily(*filter),
            ascending(found@),
            forall|loc: (Seq<char>, Seq<char>)|
                #![trigger holds_location(found@, loc)]
                holds_location(found@, loc) == ((exists|k: int|
                    0 <= k < i && holds_location(#[trigger] listings@[k]@, loc)) && accepts(
                    *filter,
                    loc,
                )),
        decreases listings.len() - i,
    {
        let listing = &listings[i];
        let mut j: usize = 0;
        while j < listing.len()
            invariant
                j <= listing.len(),
                i < listings.len(),
                *listing == listings@[i as int],
                filters_steadily(*filter),
                ascending(found@),
                forall|loc: (Seq<char>, Seq<char>)|
                    #![trigger holds_location(found@, loc)]
                    holds_location(found@, loc) == (((exists|k: int|
                        0 <= k < i && holds_location(#[trigger] listings@[k]@, loc)) || (exists|
                        m: int,
                    | 0 <= m < j && (#[trigger] listing@[m])@ == loc)) && accepts(*filter, loc)),
            decreases listing.len() - j,
        {
            let id = &listing[j];
            let keep = filter(id);
            proof {
                if keep {
                    assert(accepts(*filter, id@));
                } else if accepts(*filter, id@) {
                    let w = choose|w: &Identifier| w@ == id@ && call_ensures(*filter, (w,), true);
                    assert(call_ensures(*filter, (w,), true));
                    assert(call_ensures(*filter, (id,), keep));
                }
            }
            if keep {
                add_location(&mut found, id.duplicate());
            }
            proof {
                assert forall|loc: (Seq<char>, Seq<char>)| #[trigger]
                    holds_location(found@, loc) == (((exists|k: int|
                        0 <= k < i && holds_location(#[trigger] listings@[k]@, loc)) || (exists|
                        m: int,
                    | 0 <= m < j + 1 && (#[trigger] listing@[m])@ == loc)) && accepts(*filter, loc)) by {
                    if loc == id@ {
                        assert(listing@[j as int]@ == loc);
                    }
                }
            }
            j = j + 1;
        }
        proof {
            assert forall|loc: (Seq<char>, Seq<char>)| #[trigger]
                holds_location(found@, loc) == ((exists|k: int|
                    0 <= k < i + 1 && holds_location(#[trigger] listings@[k]@, loc)) && accepts(
                    *filter,
                    loc,
                )) by {
                if holds_location(listings@[i as int]@, loc) {
                    let m = choose|m: int|
                        0 <= m < listing@.len() && (#[trigger] listing@[m])@ == loc;
                }
            }
        }
        i = i + 1;
    }
    found
}

} // verus!
