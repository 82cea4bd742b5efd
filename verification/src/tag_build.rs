//! The lines every pack declared for each tag, and flattening them into a registry.
//!
//! Tags refer to each other freely, so building them is a dependency order followed by a
//! flattening: what a query sees is a plain set, never a reference to follow.
use crate::identifier::{lemma_loc_before_order, loc_before, Identifier};
use crate::json::json_of_bytes;
use crate::manager::Resource;
use crate::tag::{
    full_name, lines_of, parse_tag_file, replaces, values_of, Line, Location, TagEntry, TagRegistry,
};
use vstd::prelude::*;

verus! {

/// The lines declared for one tag, each with the pack that declared it.
pub type Declared = Seq<(TagEntry, Seq<char>)>;

/// Lines as they are held, with the name of their pack as text.
pub open spec fn sourced(lines: Seq<(TagEntry, String)>) -> Declared {
    lines.map_values(|p: (TagEntry, String)| (p.0, p.1@))
}

/// Declared lines as what each reads as, with its pack.
pub open spec fn plain_lines(lines: Declared) -> Seq<(Line, Seq<char>)> {
    lines.map_values(|p: (TagEntry, Seq<char>)| (p.0.line(), p.1))
}

/// The lines a tag was declared with, in the order the packs contributed them.
pub struct RawTags {
    entries: Vec<(Identifier, Vec<(TagEntry, String)>)>,
}

impl View for RawTags {
    /// Each tag, in the order of its location, with its lines.
    type V = Seq<(Location, Declared)>;

    closed spec fn view(&self) -> Self::V {
        self.entries@.map_values(
            |p: (Identifier, Vec<(TagEntry, String)>)| (p.0@, sourced(p.1@)),
        )
    }
}

/// The lines declared for `id`, if it is declared at all.
pub open spec fn declared(raw: Seq<(Location, Declared)>, id: Location) -> Option<Declared>
    decreases raw.len(),
{
    if raw.len() == 0 {
        None
    } else if raw[0].0 == id {
        Some(raw[0].1)
    } else {
        declared(raw.drop_first(), id)
    }
}

proof fn lemma_declared_found(raw: Seq<(Location, Declared)>, id: Location, i: int)
    requires
        0 <= i < raw.len(),
        raw[i].0 == id,
        forall|j: int| 0 <= j < i ==> (#[trigger] raw[j]).0 != id,
    ensures
        declared(raw, id) == Some(raw[i].1),
    decreases i,
{
    if i > 0 {
        lemma_declared_found(raw.drop_first(), id, i - 1);
    }
}

proof fn lemma_declared_absent(raw: Seq<(Location, Declared)>, id: Location)
    requires
        forall|j: int| 0 <= j < raw.len() ==> (#[trigger] raw[j]).0 != id,
    ensures
        declared(raw, id) is None,
    decreases raw.len(),
{
    if raw.len() > 0 {
        lemma_declared_absent(raw.drop_first(), id);
    }
}

proof fn lemma_declared_in(raw: Seq<(Location, Declared)>, id: Location)
    requires
        declared(raw, id) is Some,
    ensures
        exists|i: int| 0 <= i < raw.len() && (#[trigger] raw[i]).0 == id,
    decreases raw.len(),
{
    if raw[0].0 == id {
        assert(raw[0].0 == id);
    } else {
        lemma_declared_in(raw.drop_first(), id);
        let i = choose|i: int| 0 <= i < raw.len() - 1 && (#[trigger] raw.drop_first()[i]).0 == id;
        assert(raw[i + 1].0 == id);
    }
}

impl RawTags {
    /// The locations are held in order, path first and then namespace, each once.
    pub closed spec fn wf(&self) -> bool {
        forall|i: int, j: int|
            0 <= i < j < self@.len() ==> loc_before(#[trigger] self@[i].0, #[trigger] self@[j].0)
    }

    /// Whether no tag is declared.
    pub fn is_empty(&self) -> (r: bool)
        ensures
            r == (self@.len() == 0),
    {
        self.entries.len() == 0
    }

    /// Where `id` sits among the declared tags, if it is one.
    fn find(&self, id: &Identifier) -> (r: Option<usize>)
        ensures
            match r {
                Some(k) => k < self@.len() && self@[k as int].0 == id@ && declared(self@, id@)
                    == Some(self@[k as int].1),
                None => declared(self@, id@) is None,
            },
    {
        let mut k: usize = 0;
        while k < self.entries.len()
            invariant
                k <= self.entries.len(),
                forall|j: int| 0 <= j < k ==> (#[trigger] self@[j]).0 != id@,
            decreases self.entries.len() - k,
        {
            if self.entries[k].0.same_as(id) {
                proof {
                    lemma_declared_found(self@, id@, k as int);
                }
                return Some(k);
            }
            k = k + 1;
        }
        proof {
            lemma_declared_absent(self@, id@);
        }
        None
    }

    /// Adds the lines one pack declares for `id`, after those declared so far, or in their place
    /// where the pack says to replace them.
    pub fn add_lines(&mut self, id: &Identifier, lines: Vec<TagEntry>, replace: bool, source: &str)
        requires
            old(self).wf(),
        ensures
            final(self).wf(),
            declared(final(self)@, id@) == Some(
                (if replace {
                    Seq::empty()
                } else {
                    match declared(old(self)@, id@) {
                        Some(before) => before,
                        None => Seq::empty(),
                    }
                }) + lines@.map_values(|e: TagEntry| (e, source@)),
            ),
            forall|other: Location|
                other != id@ ==> declared(final(self)@, other) == declared(old(self)@, other),
    {
        let mut added: Vec<(TagEntry, String)> = Vec::new();
        let mut lines = lines;
        let ghost given = lines@;
        let count = lines.len();
        assert(given.len() == count);
        let mut taken: usize = 0;
        while lines.len() > 0
            invariant
                given.len() <= usize::MAX,
                taken + lines@.len() == given.len(),
                lines@ == given.skip(taken as int),
                sourced(added@) == given.take(taken as int).map_values(
                    |e: TagEntry| (e, source@),
                ),
            decreases lines.len(),
        {
            let entry = lines.remove(0);
            let ghost before = added@;
            added.push((entry, String::from_str(source)));
            proof {
                assert(given.take(taken + 1) =~= given.take(taken as int).push(entry));
                assert(given.skip(taken + 1) =~= given.skip(taken as int).drop_first());
                assert(sourced(added@) =~= sourced(before).push((entry, source@)));
            }
            taken = taken + 1;
        }
        proof {
            assert(given.take(taken as int) =~= given);
        }
        let mut k: usize = 0;
        while k < self.entries.len()
            invariant
                k <= self.entries.len(),
                forall|j: int| 0 <= j < k ==> loc_before(#[trigger] self@[j].0, id@),
            ensures
                k <= self.entries.len(),
                forall|j: int| 0 <= j < k ==> loc_before(#[trigger] self@[j].0, id@),
                k < self.entries.len() ==> !loc_before(self@[k as int].0, id@),
            decreases self.entries.len() - k,
        {
            let ahead = self.entries[k].0.precedes(id);
            assert(self@[k as int].0 == self.entries@[k as int].0@);
            if !ahead {
                break;
            }
            k = k + 1;
        }
        let ghost old_view = self@;
        proof {
            assert forall|j: int| 0 <= j < k implies (#[trigger] old_view[j]).0 != id@ by {
                assert(loc_before(old_view[j].0, id@));
                lemma_loc_before_order(id@, id@, id@);
            }
        }
        if k < self.entries.len() && self.entries[k].0.same_as(id) {
            proof {
                lemma_declared_found(old_view, id@, k as int);
            }
            let (key, mut held) = self.entries.remove(k);
            let ghost held_before = held@;
            if replace {
                held = Vec::new();
            }
            let ghost base = held@;
            let mut rest = added;
            held.append(&mut rest);
            proof {
                assert(sourced(held@) =~= sourced(base) + sourced(added@));
            }
            self.entries.insert(k, (key, held));
            proof {
                assert(self@ =~= old_view.update(k as int, (id@, sourced(held@))));
                lemma_declared_found(self@, id@, k as int);
                if replace {
                    assert(sourced(base) =~= Seq::<(TagEntry, Seq<char>)>::empty());
                } else {
                    assert(sourced(base) == sourced(held_before));
                }
                assert forall|other: Location| other != id@ implies declared(self@, other)
                    == declared(old_view, other) by {
                    lemma_declared_replaced(old_view, self@, other, k as int);
                }
                assert forall|i: int, j: int| 0 <= i < j < self@.len() implies loc_before(
                    #[trigger] self@[i].0,
                    #[trigger] self@[j].0,
                ) by {
                    assert(loc_before(old_view[i].0, old_view[j].0));
                }
            }
        } else {
            let ghost after_id = k < old_view.len() ==> loc_before(id@, old_view[k as int].0);
            proof {
                if k < old_view.len() {
                    assert(!loc_before(old_view[k as int].0, id@));
                    assert(old_view[k as int].0 != id@);
                    lemma_loc_before_order(id@, old_view[k as int].0, id@);
                }
            }
            assert(declared(old_view, id@) is None) by {
                assert forall|j: int| 0 <= j < old_view.len() implies (
                #[trigger] old_view[j]).0 != id@ by {
                    if j > k {
                        assert(loc_before(old_view[k as int].0, old_view[j].0));
                        lemma_loc_before_order(id@, old_view[k as int].0, old_view[j].0);
                        lemma_loc_before_order(id@, id@, id@);
                    } else if j == k {
                        assert(old_view[k as int].0 != id@);
                    }
                }
                lemma_declared_absent(old_view, id@);
            }
            self.entries.insert(k, (id.duplicate(), added));
            proof {
                assert(self@ =~= old_view.insert(k as int, (id@, sourced(added@))));
                lemma_declared_found(self@, id@, k as int);
                assert forall|other: Location| other != id@ implies declared(self@, other)
                    == declared(old_view, other) by {
                    lemma_declared_inserted(old_view, self@, other, k as int);
                }
                assert forall|i: int, j: int| 0 <= i < j < self@.len() implies loc_before(
                    #[trigger] self@[i].0,
                    #[trigger] self@[j].0,
                ) by {
                    if i < k && j == k {
                        assert(self@[i] == old_view[i]);
                        assert(loc_before(old_view[i].0, id@));
                    } else if i == k && j == k + 1 {
                    } else if i == k && j > k + 1 {
                        assert(loc_before(old_view[k as int].0, old_view[j - 1].0));
                        lemma_loc_before_order(id@, old_view[k as int].0, old_view[j - 1].0);
                    } else if i < k && j > k {
                        assert(loc_before(old_view[i].0, old_view[j - 1].0));
                    } else if j < k {
                        assert(loc_before(old_view[i].0, old_view[j].0));
                    } else {
                        assert(loc_before(old_view[i - 1].0, old_view[j - 1].0));
                    }
                }
            }
        }
    }
}

/// The locations a list of identifiers holds, in its order.
pub open spec fn locations(ids: Seq<Identifier>) -> Seq<Location> {
    ids.map_values(|i: Identifier| i@)
}

/// The walk that orders the tags, at `id`: a tag already placed, or one whose walk is under way
/// (a reference that would close a cycle), is passed over; one that is not declared is placed at
/// once; a declared one has every tag it names walked first, and is placed after them.
pub open spec fn visit_from(
    raw: Seq<(Location, Declared)>,
    id: Location,
    ordered: Seq<Location>,
    path: Seq<Location>,
) -> Seq<Location>
    decreases raw.len() - path.len(), 0int, 0int,
{
    if ordered.contains(id) || path.contains(id) {
        ordered
    } else {
        match declared(raw, id) {
            None => ordered.push(id),
            Some(lines) => if path.len() >= raw.len() {
                ordered
            } else {
                let after = visit_lines(raw, lines, 0, ordered, path.push(id));
                if after.contains(id) {
                    after
                } else {
                    after.push(id)
                }
            },
        }
    }
}

/// The walk over a tag's lines from the `i`th on: each that names a tag is walked in turn.
pub open spec fn visit_lines(
    raw: Seq<(Location, Declared)>,
    lines: Declared,
    i: int,
    ordered: Seq<Location>,
    path: Seq<Location>,
) -> Seq<Location>
    decreases raw.len() - path.len(), 1int, lines.len() - i,
{
    if i < 0 || i >= lines.len() {
        ordered
    } else {
        let next = if lines[i].0.is_tag {
            visit_from(raw, lines[i].0.id@, ordered, path)
        } else {
            ordered
        };
        visit_lines(raw, lines, i + 1, next, path)
    }
}

/// The walk started from each of the first `n` declared tags in turn.
pub open spec fn visit_keys(raw: Seq<(Location, Declared)>, n: int) -> Seq<Location>
    decreases n,
{
    if n <= 0 {
        Seq::empty()
    } else {
        visit_from(raw, raw[n - 1].0, visit_keys(raw, n - 1), Seq::empty())
    }
}

/// Every tag, with the ones it refers to ahead of it, a reference that would close a cycle
/// dropped; and every location a tag names that is not declared, where the walk met it.
pub open spec fn order_of(raw: Seq<(Location, Declared)>) -> Seq<Location> {
    visit_keys(raw, raw.len() as int)
}

/// A walk is never deeper than there are tags: every location on it is a declared tag, and none
/// is there twice.
proof fn lemma_path_shorter(raw: Seq<(Location, Declared)>, path: Seq<Location>, id: Location)
    requires
        path.no_duplicates(),
        forall|j: int| 0 <= j < path.len() ==> declared(raw, #[trigger] path[j]) is Some,
        declared(raw, id) is Some,
        !path.contains(id),
    ensures
        path.len() < raw.len(),
{
    broadcast use vstd::seq_lib::seq_to_set_is_finite;

    let keys = raw.map_values(|p: (Location, Declared)| p.0);
    let longer = path.push(id);
    assert(longer.no_duplicates()) by {
        assert forall|a: int, b: int| 0 <= a < longer.len() && 0 <= b < longer.len() && a != b
            implies longer[a] != longer[b] by {
            if a == path.len() {
                assert(path[b] == longer[b]);
            } else if b == path.len() {
                assert(path[a] == longer[a]);
            }
        }
    }
    assert forall|x: Location| longer.to_set().contains(x) implies keys.to_set().contains(x) by {
        let j = choose|j: int| 0 <= j < longer.len() && longer[j] == x;
        if j < path.len() {
            assert(declared(raw, path[j]) is Some);
        }
        lemma_declared_in(raw, x);
        let i = choose|i: int| 0 <= i < raw.len() && (#[trigger] raw[i]).0 == x;
        assert(keys[i] == x);
    }
    longer.unique_seq_to_set();
    keys.lemma_cardinality_of_set();
    vstd::set_lib::lemma_len_subset(longer.to_set(), keys.to_set());
}

/// Whether `id` is among `ids`, by location.
fn holds_id(ids: &Vec<Identifier>, id: &Identifier) -> (r: bool)
    ensures
        r == locations(ids@).contains(id@),
{
    let mut j: usize = 0;
    while j < ids.len()
        invariant
            j <= ids.len(),
            forall|k: int| 0 <= k < j ==> (#[trigger] ids@[k])@ != id@,
        decreases ids.len() - j,
    {
        if ids[j].same_as(id) {
            assert(locations(ids@)[j as int] == id@);
            return true;
        }
        j = j + 1;
    }
    assert(!locations(ids@).contains(id@)) by {
        if locations(ids@).contains(id@) {
            let k = choose|k: int| 0 <= k < ids@.len() && locations(ids@)[k] == id@;
            assert(ids@[k]@ == id@);
        }
    }
    false
}

impl RawTags {
    /// Walks from `id`: see `visit_from`.
    fn visit(&self, id: &Identifier, ordered: &mut Vec<Identifier>, path: &mut Vec<Identifier>)
        requires
            locations(old(path)@).no_duplicates(),
            forall|j: int|
                0 <= j < old(path)@.len() ==> declared(self@, #[trigger] locations(old(path)@)[j])
                    is Some,
        ensures
            locations(final(ordered)@) == visit_from(
                self@,
                id@,
                locations(old(ordered)@),
                locations(old(path)@),
            ),
            locations(final(path)@) == locations(old(path)@),
        decreases self@.len() - old(path)@.len(),
    {
        let ghost start = locations(ordered@);
        let ghost trail = locations(path@);
        assert(trail.len() == path@.len());
        if holds_id(ordered, id) || holds_id(path, id) {
            return;
        }
        match self.find(id) {
            None => {
                ordered.push(id.duplicate());
                assert(locations(ordered@) =~= start.push(id@));
            },
            Some(k) => {
                proof {
                    lemma_path_shorter(self@, trail, id@);
                }
                path.push(id.duplicate());
                assert(locations(path@) =~= trail.push(id@));
                let ghost lines = self@[k as int].1;
                let ghost deeper = trail.push(id@);
                proof {
                    assert(deeper.no_duplicates()) by {
                        assert forall|a: int, b: int|
                            0 <= a < deeper.len() && 0 <= b < deeper.len() && a != b implies deeper[a]
                            != deeper[b] by {
                            if a == trail.len() {
                                assert(trail[b] == deeper[b]);
                            } else if b == trail.len() {
                                assert(trail[a] == deeper[a]);
                            }
                        }
                    }
                }
                let mut i: usize = 0;
                while i < self.entries[k].1.len()
                    invariant
                        k < self@.len(),
                        k < self.entries@.len(),
                        i <= self.entries@[k as int].1@.len(),
                        lines == sourced(self.entries@[k as int].1@),
                        lines == self@[k as int].1,
                        locations(path@) == deeper,
                        path@.len() == deeper.len(),
                        deeper.len() == trail.len() + 1,
                        trail.len() == old(path)@.len(),
                        trail.len() < self@.len(),
                        deeper.no_duplicates(),
                        forall|j: int|
                            0 <= j < deeper.len() ==> declared(self@, #[trigger] deeper[j]) is Some,
                        visit_lines(self@, lines, i as int, locations(ordered@), deeper)
                            == visit_lines(self@, lines, 0, start, deeper),
                    decreases self.entries@[k as int].1@.len() - i,
                {
                    let entry = &self.entries[k].1[i].0;
                    assert(lines[i as int].0 == *entry);
                    if entry.is_tag {
                        self.visit(&entry.id, ordered, path);
                    }
                    i = i + 1;
                }
                let ghost full = path@;
                let _ = path.pop();
                assert(path@ =~= full.drop_last());
                assert(locations(path@) =~= trail) by {
                    assert forall|j: int| 0 <= j < trail.len() implies locations(path@)[j]
                        == trail[j] by {
                        assert(locations(full)[j] == deeper[j]);
                    }
                }
                if !holds_id(ordered, id) {
                    ordered.push(id.duplicate());
                    assert(locations(ordered@) =~= visit_lines(self@, lines, 0, start, deeper).push(
                        id@,
                    ));
                }
            },
        }
    }

    /// Every tag, with the ones it refers to ahead of it: see `order_of`.
    fn order(&self) -> (r: Vec<Identifier>)
        ensures
            locations(r@) == order_of(self@),
    {
        let mut ordered: Vec<Identifier> = Vec::new();
        let mut path: Vec<Identifier> = Vec::new();
        let mut i: usize = 0;
        assert(locations(ordered@) =~= visit_keys(self@, 0));
        while i < self.entries.len()
            invariant
                i <= self.entries@.len(),
                locations(ordered@) == visit_keys(self@, i as int),
                locations(path@) == Seq::<Location>::empty(),
            decreases self.entries@.len() - i,
        {
            assert(self@[i as int].0 == self.entries@[i as int].0@);
            self.visit(&self.entries[i].0, &mut ordered, &mut path);
            i = i + 1;
        }
        ordered
    }
}

/// What `lookup` answers for `id`: the index, in the registry the tags are over, of the element
/// it names, if there is one.
pub open spec fn found_by<F: Fn(&Identifier) -> Option<u32>>(lookup: F, id: Identifier) -> Option<
    u32,
> {
    choose|r: Option<u32>| call_ensures(lookup, (&id,), r)
}

/// Whether `lookup` can be asked about any location, and gives one answer for each.
pub open spec fn answers_alike<F: Fn(&Identifier) -> Option<u32>>(lookup: F) -> bool {
    &&& forall|a: &Identifier| call_requires(lookup, (a,))
    &&& forall|a: &Identifier, r1: Option<u32>, r2: Option<u32>|
        #![trigger call_ensures(lookup, (a,), r1), call_ensures(lookup, (a,), r2)]
        call_ensures(lookup, (a,), r1) && call_ensures(lookup, (a,), r2) ==> r1 == r2
}

/// `acc` with each of `xs` after it, in order, those it already holds left out.
pub open spec fn add_new(acc: Seq<u32>, xs: Seq<u32>) -> Seq<u32>
    decreases xs.len(),
{
    if xs.len() == 0 {
        acc
    } else {
        let before = add_new(acc, xs.drop_last());
        if before.contains(xs.last()) {
            before
        } else {
            before.push(xs.last())
        }
    }
}

/// Of the tags flattened so far, the last one whose whole name is `name`.
pub open spec fn latest(built: Seq<(Location, Seq<u32>)>, name: Seq<char>) -> Option<int>
    decreases built.len(),
{
    if built.len() == 0 {
        None
    } else if full_name(built.last().0) == name {
        Some(built.len() - 1)
    } else {
        latest(built.drop_last(), name)
    }
}

/// The whole names of the tags flattened so far, each once, in the order they first came.
pub open spec fn names_of(built: Seq<(Location, Seq<u32>)>) -> Seq<Seq<char>>
    decreases built.len(),
{
    if built.len() == 0 {
        Seq::empty()
    } else {
        let before = names_of(built.drop_last());
        let name = full_name(built.last().0);
        if before.contains(name) {
            before
        } else {
            before.push(name)
        }
    }
}

/// A registry holds exactly the tags of `model`, put in in that order: its handles, what each
/// holds, and its names are those of the model.
pub open spec fn holds(registry: TagRegistry, model: Seq<(Location, Seq<u32>)>) -> bool {
    &&& registry.wf()
    &&& registry.built() == model.len()
    &&& forall|t: int| 0 <= t < model.len() ==> #[trigger] registry.members(t) == model[t].1
    &&& forall|name: Seq<char>| #[trigger] registry.handle(name) == latest(model, name)
    &&& registry.name_list() == names_of(model)
}

/// What a tag declared with `lines` holds, and whether every line it requires was found:
/// a line naming a tag takes what that tag holds among those flattened so far, a line naming an
/// element takes what `lookup` finds for it, and an element already held is not taken twice.
pub open spec fn resolved<F: Fn(&Identifier) -> Option<u32>>(
    lines: Declared,
    built: Seq<(Location, Seq<u32>)>,
    lookup: F,
) -> (Seq<u32>, bool)
    decreases lines.len(),
{
    if lines.len() == 0 {
        (Seq::empty(), true)
    } else {
        let (elements, complete) = resolved(lines.drop_last(), built, lookup);
        let entry = lines.last().0;
        let found: Option<Seq<u32>> = if entry.is_tag {
            match latest(built, full_name(entry.id@)) {
                Some(t) => Some(built[t].1),
                None => None,
            }
        } else {
            match found_by(lookup, entry.id) {
                Some(e) => Some(seq![e]),
                None => None,
            }
        };
        match found {
            Some(xs) => (add_new(elements, xs), complete),
            None => (elements, complete && !entry.required),
        }
    }
}

/// The tags flattened by taking the locations of `order` in turn: a declared one whose required
/// lines were all found is put in, with what it holds; any other is left out.
pub open spec fn built_by<F: Fn(&Identifier) -> Option<u32>>(
    raw: Seq<(Location, Declared)>,
    order: Seq<Location>,
    lookup: F,
) -> Seq<(Location, Seq<u32>)>
    decreases order.len(),
{
    if order.len() == 0 {
        Seq::empty()
    } else {
        let before = built_by(raw, order.drop_last(), lookup);
        match declared(raw, order.last()) {
            None => before,
            Some(lines) => {
                let (elements, complete) = resolved(lines, before, lookup);
                if complete {
                    before.push((order.last(), elements))
                } else {
                    before
                }
            },
        }
    }
}

/// `add_new` never takes an element twice.
pub proof fn lemma_add_new_unique(acc: Seq<u32>, xs: Seq<u32>)
    requires
        acc.no_duplicates(),
    ensures
        add_new(acc, xs).no_duplicates(),
    decreases xs.len(),
{
    if xs.len() > 0 {
        lemma_add_new_unique(acc, xs.drop_last());
        let before = add_new(acc, xs.drop_last());
        if !before.contains(xs.last()) {
            let after = before.push(xs.last());
            assert forall|a: int, b: int| 0 <= a < after.len() && 0 <= b < after.len() && a != b
                implies after[a] != after[b] by {
                if a == before.len() {
                    assert(before[b] == after[b]);
                } else if b == before.len() {
                    assert(before[a] == after[a]);
                }
            }
        }
    }
}

/// What `add_new` ends with holds what it started with and each of `xs`, and nothing else.
pub proof fn lemma_add_new_holds(acc: Seq<u32>, xs: Seq<u32>, x: u32)
    ensures
        add_new(acc, xs).contains(x) <==> (acc.contains(x) || xs.contains(x)),
    decreases xs.len(),
{
    broadcast use vstd::seq_lib::lemma_seq_contains_after_push;

    if xs.len() > 0 {
        lemma_add_new_holds(acc, xs.drop_last(), x);
        assert(xs =~= xs.drop_last().push(xs.last()));
    } else {
        assert(!xs.contains(x));
    }
}

/// A tag never holds an element twice.
proof fn lemma_resolved_unique<F: Fn(&Identifier) -> Option<u32>>(
    lines: Declared,
    built: Seq<(Location, Seq<u32>)>,
    lookup: F,
)
    ensures
        resolved(lines, built, lookup).0.no_duplicates(),
    decreases lines.len(),
{
    if lines.len() > 0 {
        lemma_resolved_unique(lines.drop_last(), built, lookup);
        let before = resolved(lines.drop_last(), built, lookup).0;
        let entry = lines.last().0;
        if entry.is_tag {
            match latest(built, full_name(entry.id@)) {
                Some(t) => lemma_add_new_unique(before, built[t].1),
                None => {},
            }
        } else {
            match found_by(lookup, entry.id) {
                Some(e) => lemma_add_new_unique(before, seq![e]),
                None => {},
            }
        }
    } else {
        assert(Seq::<u32>::empty().no_duplicates());
    }
}

/// No flattened tag holds an element twice.
proof fn lemma_built_unique<F: Fn(&Identifier) -> Option<u32>>(
    raw: Seq<(Location, Declared)>,
    order: Seq<Location>,
    lookup: F,
)
    ensures
        forall|t: int|
            0 <= t < built_by(raw, order, lookup).len() ==> (#[trigger] built_by(
                raw,
                order,
                lookup,
            )[t]).1.no_duplicates(),
    decreases order.len(),
{
    if order.len() > 0 {
        lemma_built_unique(raw, order.drop_last(), lookup);
        let before = built_by(raw, order.drop_last(), lookup);
        match declared(raw, order.last()) {
            None => {},
            Some(lines) => {
                lemma_resolved_unique(lines, before, lookup);
                let after = built_by(raw, order, lookup);
                assert forall|t: int| 0 <= t < after.len() implies (
                #[trigger] after[t]).1.no_duplicates() by {
                    if t < before.len() {
                        assert(after[t] == before[t]);
                    }
                }
            },
        }
    }
}

/// No name is among the names flattened so far exactly when no tag so far has it.
proof fn lemma_names_of(built: Seq<(Location, Seq<u32>)>, name: Seq<char>)
    ensures
        latest(built, name) is None <==> !names_of(built).contains(name),
    decreases built.len(),
{
    broadcast use vstd::seq_lib::lemma_seq_contains_after_push;

    if built.len() > 0 {
        lemma_names_of(built.drop_last(), name);
    }
}

/// Putting a tag into a registry that holds `model` gives one that holds `model` with it on the
/// end.
proof fn lemma_insert_holds(
    before: TagRegistry,
    after: TagRegistry,
    model: Seq<(Location, Seq<u32>)>,
    name: Location,
    elements: Seq<u32>,
)
    requires
        holds(before, model),
        after.wf(),
        after.built() == before.built() + 1,
        after.members(before.built() as int) == elements,
        forall|t: int| 0 <= t < before.built() ==> after.members(t) == before.members(t),
        after.handle(full_name(name)) == Some(before.built() as int),
        forall|other: Seq<char>|
            other != full_name(name) ==> after.handle(other) == before.handle(other),
        before.handle(full_name(name)) is None ==> after.name_list() == before.name_list().push(
            full_name(name),
        ),
        before.handle(full_name(name)) is Some ==> after.name_list() == before.name_list(),
    ensures
        holds(after, model.push((name, elements))),
{
    let longer = model.push((name, elements));
    assert(longer.drop_last() =~= model);
    assert forall|t: int| 0 <= t < longer.len() implies #[trigger] after.members(t)
        == longer[t].1 by {
        if t < model.len() {
            assert(before.members(t) == model[t].1);
        }
    }
    assert forall|other: Seq<char>| #[trigger] after.handle(other) == latest(longer, other) by {
        if other != full_name(name) {
            assert(before.handle(other) == latest(model, other));
        }
    }
    lemma_names_of(model, full_name(name));
    assert(before.handle(full_name(name)) == latest(model, full_name(name)));
}

/// `add_new` with one element: the element on the end, unless it is there already.
proof fn lemma_add_new_one(acc: Seq<u32>, x: u32)
    ensures
        add_new(acc, seq![x]) == (if acc.contains(x) {
            acc
        } else {
            acc.push(x)
        }),
{
    let rest = seq![x].drop_last();
    assert(rest =~= Seq::<u32>::empty());
    assert(add_new(acc, rest) == acc);
    assert(seq![x].last() == x);
}

/// Adds `x` to `v` unless `v` holds it already.
fn add_one(v: &mut Vec<u32>, x: u32)
    ensures
        final(v)@ == add_new(old(v)@, seq![x]),
{
    proof {
        lemma_add_new_one(v@, x);
    }
    let mut j: usize = 0;
    while j < v.len()
        invariant
            j <= v.len(),
            v@ == old(v)@,
            forall|k: int| 0 <= k < j ==> v@[k] != x,
        decreases v.len() - j,
    {
        if v[j] == x {
            assert(v@.contains(x)) by {
                assert(v@[j as int] == x);
            }
            proof {
                lemma_add_new_one(old(v)@, x);
            }
            return;
        }
        j = j + 1;
    }
    assert(!v@.contains(x));
    v.push(x);
}

/// Adds each of `xs` to `v` in turn, leaving out what `v` holds already.
fn add_all(v: &mut Vec<u32>, xs: &[u32])
    ensures
        final(v)@ == add_new(old(v)@, xs@),
{
    let ghost start = v@;
    let mut i: usize = 0;
    assert(xs@.take(0) =~= Seq::<u32>::empty());
    while i < xs.len()
        invariant
            i <= xs.len(),
            v@ == add_new(start, xs@.take(i as int)),
        decreases xs.len() - i,
    {
        let ghost before = v@;
        add_one(v, xs[i]);
        proof {
            lemma_add_new_one(before, xs@[i as int]);
            assert(xs@.take(i + 1).drop_last() =~= xs@.take(i as int));
            assert(xs@.take(i + 1).last() == xs@[i as int]);
        }
        i = i + 1;
    }
    assert(xs@.take(xs.len() as int) =~= xs@);
}

/// Turns one tag's lines into what it holds, or `None` where a line it requires names nothing
/// there is.
fn resolve<F: Fn(&Identifier) -> Option<u32>>(
    lines: &Vec<(TagEntry, String)>,
    lookup: &F,
    built: &TagRegistry,
    Ghost(model): Ghost<Seq<(Location, Seq<u32>)>>,
) -> (r: Option<Vec<u32>>)
    requires
        holds(*built, model),
        answers_alike(*lookup),
    ensures
        ({
            let (elements, complete) = resolved(sourced(lines@), model, *lookup);
            &&& (r is Some <==> complete)
            &&& (r matches Some(v) ==> v@ == elements)
        }),
{
    let mut elements: Vec<u32> = Vec::new();
    let mut complete = true;
    let mut i: usize = 0;
    let ghost all = sourced(lines@);
    assert(all.take(0) =~= Seq::<(TagEntry, Seq<char>)>::empty());
    while i < lines.len()
        invariant
            i <= lines.len(),
            all == sourced(lines@),
            holds(*built, model),
            answers_alike(*lookup),
            (elements@, complete) == resolved(all.take(i as int), model, *lookup),
        decreases lines.len() - i,
    {
        let entry = &lines[i].0;
        proof {
            assert(all.take(i + 1).drop_last() =~= all.take(i as int));
            assert(all.take(i + 1).last().0 == *entry);
        }
        if entry.is_tag {
            match built.get(&entry.id) {
                Some(tag) => {
                    let members = built.elements(tag);
                    add_all(&mut elements, members);
                },
                None => {
                    if entry.required {
                        complete = false;
                    }
                },
            }
        } else {
            let answer = lookup(&entry.id);
            proof {
                let chosen = found_by(*lookup, entry.id);
                assert(call_ensures(*lookup, (&entry.id,), chosen));
            }
            match answer {
                Some(e) => {
                    add_one(&mut elements, e);
                },
                None => {
                    if entry.required {
                        complete = false;
                    }
                },
            }
        }
        i = i + 1;
    }
    assert(all.take(lines.len() as int) =~= all);
    if complete {
        Some(elements)
    } else {
        None
    }
}

impl RawTags {
    /// Flattens every tag into the elements it holds, in the order `order_of` walks them.
    ///
    /// `lookup` turns an element's id into its index in the registry the tags are over, and
    /// `element_count` is how many of those there are. A tag that requires a line naming
    /// nothing there is, or a tag that failed, is left out.
    pub fn build<F: Fn(&Identifier) -> Option<u32>>(&self, element_count: usize, lookup: F) -> (r:
        TagRegistry)
        requires
            answers_alike(lookup),
        ensures
            holds(r, built_by(self@, order_of(self@), lookup)),
            r.element_count() == element_count,
            forall|t: int| 0 <= t < r.built() ==> (#[trigger] r.members(t)).no_duplicates(),
    {
        let order = self.order();
        let mut registry = TagRegistry::new(element_count);
        let ghost mut model: Seq<(Location, Seq<u32>)> = Seq::empty();
        let ghost walk = locations(order@);
        assert(walk.take(0) =~= Seq::<Location>::empty());
        assert(forall|name: Seq<char>| registry.handle(name) == latest(model, name));
        assert(registry.name_list() == names_of(model));
        let mut i: usize = 0;
        while i < order.len()
            invariant
                i <= order.len(),
                walk == locations(order@),
                holds(registry, model),
                registry.element_count() == element_count,
                answers_alike(lookup),
                model == built_by(self@, walk.take(i as int), lookup),
            decreases order.len() - i,
        {
            proof {
                assert(walk.take(i + 1).drop_last() =~= walk.take(i as int));
                assert(walk.take(i + 1).last() == order@[i as int]@);
            }
            let id = &order[i];
            match self.find(id) {
                None => {},
                Some(k) => {
                    match resolve(&self.entries[k].1, &lookup, &registry, Ghost(model)) {
                        Some(elements) => {
                            let ghost before = registry;
                            let ghost held = elements@;
                            registry.insert(id, elements);
                            proof {
                                lemma_insert_holds(before, registry, model, id@, held);
                                model = model.push((id@, held));
                            }
                        },
                        None => {},
                    }
                },
            }
            i = i + 1;
        }
        proof {
            assert(walk.take(order.len() as int) =~= walk);
            lemma_built_unique(self@, walk, lookup);
            assert forall|t: int| 0 <= t < registry.built() implies (#[trigger] registry.members(
                t,
            )).no_duplicates() by {
                assert(registry.members(t) == model[t].1);
            }
        }
        registry
    }
}

impl Default for RawTags {
    /// No tag declared at all.
    fn default() -> (r: Self)
        ensures
            r@ == Seq::<(Location, Declared)>::empty(),
            r.wf(),
    {
        let r = RawTags { entries: Vec::new() };
        assert(r@ =~= Seq::<(Location, Declared)>::empty());
        r
    }
}

/// A pack's files for one tag, as the name of each file's pack and the file's bytes.
pub open spec fn stack_view(stack: Seq<Resource>) -> Seq<(Seq<char>, Seq<u8>)> {
    stack.map_values(|r: Resource| (r.source@, r.data@))
}

/// Every tag's files, as its location and its stack of files, lowest priority first.
pub open spec fn stacks_view(stacks: Seq<(Identifier, Vec<Resource>)>) -> Seq<
    (Location, Seq<(Seq<char>, Seq<u8>)>),
> {
    stacks.map_values(|p: (Identifier, Vec<Resource>)| (p.0@, stack_view(p.1@)))
}

/// What one pack's file does to the lines declared so far: adds its lines after them, or in
/// their place where it says to replace them; a file that is not JSON changes nothing.
pub open spec fn after_file(before: Seq<(Line, Seq<char>)>, source: Seq<char>, data: Seq<u8>) -> Seq<
    (Line, Seq<char>),
> {
    match json_of_bytes(data) {
        None => before,
        Some(file) => (if replaces(file) {
            Seq::empty()
        } else {
            before
        }) + lines_of(values_of(file)).map_values(|l: Line| (l, source)),
    }
}

/// What a stack of files, lowest priority first, does to the lines declared so far.
pub open spec fn after_stack(before: Seq<(Line, Seq<char>)>, stack: Seq<(Seq<char>, Seq<u8>)>) -> Seq<
    (Line, Seq<char>),
>
    decreases stack.len(),
{
    if stack.len() == 0 {
        before
    } else {
        after_file(after_stack(before, stack.drop_last()), stack.last().0, stack.last().1)
    }
}

/// The lines `id` is declared with once every stack of files is read, if it has a stack.
pub open spec fn loaded(stacks: Seq<(Location, Seq<(Seq<char>, Seq<u8>)>)>, id: Location) -> Option<
    Seq<(Line, Seq<char>)>,
>
    decreases stacks.len(),
{
    if stacks.len() == 0 {
        None
    } else {
        let before = loaded(stacks.drop_last(), id);
        if stacks.last().0 == id {
            Some(
                after_stack(
                    match before {
                        Some(lines) => lines,
                        None => Seq::empty(),
                    },
                    stacks.last().1,
                ),
            )
        } else {
            before
        }
    }
}

/// A file that says to replace drops everything declared before it: whatever lines the tag had
/// before its stack was read and whatever the files below the replacing one said, it ends with
/// what the replacing file and the ones above it say.
pub proof fn lemma_replace_drops_what_came_before(
    before: Seq<(Line, Seq<char>)>,
    stack: Seq<(Seq<char>, Seq<u8>)>,
    k: int,
)
    requires
        0 <= k < stack.len(),
        json_of_bytes(stack[k].1) matches Some(file) && replaces(file),
    ensures
        after_stack(before, stack) == after_stack(Seq::empty(), stack.skip(k)),
    decreases stack.len(),
{
    let top = stack.skip(k);
    assert(top.last() == stack.last());
    if k == stack.len() - 1 {
        assert(top.drop_last() =~= Seq::<(Seq<char>, Seq<u8>)>::empty());
        assert(top[0] == stack[k]);
    } else {
        assert(stack.drop_last()[k] == stack[k]);
        lemma_replace_drops_what_came_before(before, stack.drop_last(), k);
        assert(top.drop_last() =~= stack.drop_last().skip(k));
    }
}

/// Declared lines as what each reads as, if there are any.
pub open spec fn plain_declared(d: Option<Declared>) -> Option<Seq<(Line, Seq<char>)>> {
    match d {
        Some(lines) => Some(plain_lines(lines)),
        None => None,
    }
}

proof fn lemma_plain_lines_add(before: Declared, lines: Seq<TagEntry>, source: Seq<char>)
    ensures
        plain_lines(before + lines.map_values(|e: TagEntry| (e, source))) == plain_lines(before)
            + lines.map_values(|e: TagEntry| e.line()).map_values(|l: Line| (l, source)),
{
    assert(plain_lines(before + lines.map_values(|e: TagEntry| (e, source))) =~= plain_lines(
        before,
    ) + lines.map_values(|e: TagEntry| e.line()).map_values(|l: Line| (l, source)));
}

impl RawTags {
    /// Reads every tag's stack of files: `stacks` holds, for each tag, the file each pack that
    /// declares it carries, lowest priority first.
    ///
    /// A pack that declares a tag adds to what the packs below it declared, unless it says
    /// `"replace": true`, which drops everything declared so far. A file that is not JSON is
    /// passed over; a tag whose files all are is declared with no lines.
    pub fn load(stacks: &Vec<(Identifier, Vec<Resource>)>) -> (r: Self)
        ensures
            r.wf(),
            forall|id: Location| #[trigger]
                plain_declared(declared(r@, id)) == loaded(stacks_view(stacks@), id),
    {
        let mut tags = RawTags::default();
        let ghost all = stacks_view(stacks@);
        let mut i: usize = 0;
        assert(all.take(0) =~= Seq::<(Location, Seq<(Seq<char>, Seq<u8>)>)>::empty());
        while i < stacks.len()
            invariant
                i <= stacks.len(),
                all == stacks_view(stacks@),
                tags.wf(),
                forall|id: Location| #[trigger]
                    plain_declared(declared(tags@, id)) == loaded(all.take(i as int), id),
            decreases stacks.len() - i,
        {
            let id = &stacks[i].0;
            let stack = &stacks[i].1;
            let ghost files = stack_view(stack@);
            let ghost base: Seq<(Line, Seq<char>)> = match declared(tags@, id@) {
                Some(lines) => plain_lines(lines),
                None => Seq::empty(),
            };
            proof {
                assert(all.take(i + 1).drop_last() =~= all.take(i as int));
                assert(all.take(i + 1).last() == (id@, files));
                assert(plain_declared(declared(tags@, id@)) == loaded(all.take(i as int), id@));
                assert(base == match loaded(all.take(i as int), id@) {
                    Some(lines) => lines,
                    None => Seq::<(Line, Seq<char>)>::empty(),
                });
                assert(loaded(all.take(i + 1), id@) == Some(after_stack(base, files)));
            }
            tags.add_lines(id, Vec::new(), false, "");
            proof {
                assert(plain_lines(
                    match declared(tags@, id@) {
                        Some(lines) => lines,
                        None => Seq::empty(),
                    },
                ) =~= base);
            }
            let mut j: usize = 0;
            while j < stack.len()
                invariant
                    j <= stack.len(),
                    i < stacks.len(),
                    all == stacks_view(stacks@),
                    files == stack_view(stack@),
                    tags.wf(),
                    declared(tags@, id@) is Some,
                    plain_declared(declared(tags@, id@)) == Some(
                        after_stack(base, files.take(j as int)),
                    ),
                    forall|other: Location|
                        other != id@ ==> #[trigger] plain_declared(declared(tags@, other))
                            == loaded(all.take(i as int), other),
                decreases stack.len() - j,
            {
                let resource = &stack[j];
                proof {
                    assert(files.take(j + 1).drop_last() =~= files.take(j as int));
                    assert(files.take(j + 1).last() == (resource.source@, resource.data@));
                }
                let ghost held = declared(tags@, id@)->0;
                match parse_tag_file(resource.data.as_slice()) {
                    Ok((lines, replace)) => {
                        let ghost read = lines@;
                        tags.add_lines(id, lines, replace, resource.source.as_str());
                        proof {
                            if replace {
                                lemma_plain_lines_add(Seq::empty(), read, resource.source@);
                                assert(plain_lines(Seq::<(TagEntry, Seq<char>)>::empty())
                                    =~= Seq::<(Line, Seq<char>)>::empty());
                            } else {
                                lemma_plain_lines_add(held, read, resource.source@);
                            }
                        }
                    },
                    Err(_) => {},
                }
                j = j + 1;
            }
            proof {
                assert(files.take(stack.len() as int) =~= files);
                assert forall|other: Location| #[trigger]
                    plain_declared(declared(tags@, other)) == loaded(all.take(i + 1), other) by {
                    if other != id@ {
                        assert(loaded(all.take(i + 1), other) == loaded(all.take(i as int), other));
                    }
                }
            }
            i = i + 1;
        }
        assert(all.take(stacks.len() as int) =~= all);
        tags
    }
}

/// The last tag of a name is one of the tags flattened so far.
proof fn lemma_latest_bounds(built: Seq<(Location, Seq<u32>)>, name: Seq<char>)
    ensures
        latest(built, name) matches Some(t) ==> 0 <= t < built.len() && full_name(built[t].0)
            == name,
    decreases built.len(),
{
    if built.len() > 0 && full_name(built.last().0) != name {
        lemma_latest_bounds(built.drop_last(), name);
    }
}

/// Once a line a tag requires is missing, the tag stays incomplete whatever follows it.
proof fn lemma_resolved_incomplete<F: Fn(&Identifier) -> Option<u32>>(
    lines: Declared,
    built: Seq<(Location, Seq<u32>)>,
    lookup: F,
    n: int,
)
    requires
        0 <= n <= lines.len(),
        !resolved(lines.take(n), built, lookup).1,
    ensures
        !resolved(lines, built, lookup).1,
    decreases lines.len() - n,
{
    if n < lines.len() {
        assert(lines.take(n + 1).drop_last() =~= lines.take(n));
        lemma_resolved_incomplete(lines, built, lookup, n + 1);
    } else {
        assert(lines.take(n) =~= lines);
    }
}

/// A complete tag holds what every tag it requires holds, and such a tag was flattened before
/// it; and it holds everything its earlier lines gave it.
proof fn lemma_resolved_takes<F: Fn(&Identifier) -> Option<u32>>(
    lines: Declared,
    built: Seq<(Location, Seq<u32>)>,
    lookup: F,
    j: int,
)
    requires
        resolved(lines, built, lookup).1,
        0 <= j < lines.len(),
        lines[j].0.is_tag,
        lines[j].0.required,
    ensures
        latest(built, full_name(lines[j].0.id@)) matches Some(t) && 0 <= t < built.len() && (
        forall|x: u32| built[t].1.contains(x) ==> resolved(lines, built, lookup).0.contains(x)),
    decreases lines.len(),
{
    lemma_latest_bounds(built, full_name(lines[j].0.id@));
    let shorter = lines.drop_last();
    let before = resolved(shorter, built, lookup);
    let entry = lines.last().0;
    if j == lines.len() - 1 {
        let t = latest(built, full_name(entry.id@))->0;
        assert forall|x: u32| built[t].1.contains(x) implies resolved(
            lines,
            built,
            lookup,
        ).0.contains(x) by {
            lemma_add_new_holds(before.0, built[t].1, x);
        }
    } else {
        assert(shorter[j] == lines[j]);
        lemma_resolved_takes(shorter, built, lookup, j);
        let t = latest(built, full_name(lines[j].0.id@))->0;
        assert forall|x: u32| built[t].1.contains(x) implies resolved(
            lines,
            built,
            lookup,
        ).0.contains(x) by {
            assert(before.0.contains(x));
            if entry.is_tag {
                match latest(built, full_name(entry.id@)) {
                    Some(u) => lemma_add_new_holds(before.0, built[u].1, x),
                    None => {},
                }
            } else {
                match found_by(lookup, entry.id) {
                    Some(e) => lemma_add_new_holds(before.0, seq![e], x),
                    None => {},
                }
            }
        }
    }
}

/// A tag that names another takes its contents: where a flattened tag has a line that requires
/// another tag, that tag was flattened before it, and everything it holds is held by the tag
/// that names it. A tag that depends on one that failed therefore fails too.
pub proof fn lemma_tag_takes_named_contents<F: Fn(&Identifier) -> Option<u32>>(
    raw: Seq<(Location, Declared)>,
    order: Seq<Location>,
    lookup: F,
    b: int,
    j: int,
)
    requires
        0 <= b < built_by(raw, order, lookup).len(),
        declared(raw, built_by(raw, order, lookup)[b].0) matches Some(lines) && 0 <= j
            < lines.len() && lines[j].0.is_tag && lines[j].0.required,
    ensures
        ({
            let model = built_by(raw, order, lookup);
            let lines = declared(raw, model[b].0)->0;
            exists|t: int|
                0 <= t < b && full_name(#[trigger] model[t].0) == full_name(lines[j].0.id@) && (
                forall|x: u32| model[t].1.contains(x) ==> model[b].1.contains(x))
        }),
    decreases order.len(),
{
    let model = built_by(raw, order, lookup);
    let lines = declared(raw, model[b].0)->0;
    let before = built_by(raw, order.drop_last(), lookup);
    if b < before.len() {
        assert(model[b] == before[b]);
        lemma_tag_takes_named_contents(raw, order.drop_last(), lookup, b, j);
        let t = choose|t: int|
            0 <= t < b && full_name(#[trigger] before[t].0) == full_name(lines[j].0.id@) && (
            forall|x: u32| before[t].1.contains(x) ==> before[b].1.contains(x));
        assert(model[t] == before[t]);
    } else {
        lemma_resolved_takes(lines, before, lookup, j);
        lemma_latest_bounds(before, full_name(lines[j].0.id@));
        let t = latest(before, full_name(lines[j].0.id@))->0;
        assert(model[t] == before[t]);
    }
}

/// Whether one line of a tag gives it `x`: a line naming a tag gives what the latest of that name
/// among `built` holds, and a line naming an element gives what `lookup` finds for it.
pub open spec fn line_gives<F: Fn(&Identifier) -> Option<u32>>(
    entry: TagEntry,
    built: Seq<(Location, Seq<u32>)>,
    lookup: F,
    x: u32,
) -> bool {
    if entry.is_tag {
        latest(built, full_name(entry.id@)) matches Some(t) && built[t].1.contains(x)
    } else {
        found_by(lookup, entry.id) == Some(x)
    }
}

/// What a tag's lines resolve to holds exactly what some line gives it.
proof fn lemma_resolved_holds<F: Fn(&Identifier) -> Option<u32>>(
    lines: Declared,
    built: Seq<(Location, Seq<u32>)>,
    lookup: F,
    x: u32,
)
    ensures
        resolved(lines, built, lookup).0.contains(x) <==> exists|j: int|
            0 <= j < lines.len() && line_gives(#[trigger] lines[j].0, built, lookup, x),
    decreases lines.len(),
{
    if lines.len() == 0 {
        assert(!Seq::<u32>::empty().contains(x));
    } else {
        let shorter = lines.drop_last();
        lemma_resolved_holds(shorter, built, lookup, x);
        let before = resolved(shorter, built, lookup).0;
        let entry = lines.last().0;
        let n = lines.len() - 1;
        assert(lines[n] == lines.last());
        if entry.is_tag {
            match latest(built, full_name(entry.id@)) {
                Some(t) => lemma_add_new_holds(before, built[t].1, x),
                None => {},
            }
        } else {
            match found_by(lookup, entry.id) {
                Some(e) => {
                    lemma_add_new_holds(before, seq![e], x);
                    assert(seq![e].contains(x) <==> e == x) by {
                        if e == x {
                            assert(seq![e][0] == x);
                        }
                    }
                },
                None => {},
            }
        }
        if exists|j: int| 0 <= j < lines.len() && line_gives(#[trigger] lines[j].0, built, lookup, x) {
            let j = choose|j: int|
                0 <= j < lines.len() && line_gives(#[trigger] lines[j].0, built, lookup, x);
            if j < n {
                assert(shorter[j] == lines[j]);
            }
        }
        if exists|j: int|
            0 <= j < shorter.len() && line_gives(#[trigger] shorter[j].0, built, lookup, x) {
            let j = choose|j: int|
                0 <= j < shorter.len() && line_gives(#[trigger] shorter[j].0, built, lookup, x);
            assert(shorter[j] == lines[j]);
        }
    }
}

/// Flattening only ever adds tags at the end: what was flattened from a shorter order is where
/// the longer one starts.
proof fn lemma_built_by_grows<F: Fn(&Identifier) -> Option<u32>>(
    raw: Seq<(Location, Declared)>,
    order: Seq<Location>,
    lookup: F,
    b: int,
)
    requires
        0 <= b < built_by(raw, order, lookup).len(),
    ensures
        ({
            let model = built_by(raw, order, lookup);
            &&& declared(raw, model[b].0) matches Some(lines)
            &&& resolved(lines, model.take(b), lookup) == (model[b].1, true)
        }),
    decreases order.len(),
{
    let model = built_by(raw, order, lookup);
    let before = built_by(raw, order.drop_last(), lookup);
    if b < before.len() {
        lemma_built_by_grows(raw, order.drop_last(), lookup, b);
        assert(model[b] == before[b]);
        assert(model.take(b) =~= before.take(b));
    } else {
        assert(model.take(b) =~= before);
    }
}

/// A flattened tag is a plain set of elements, with no reference left to follow: it holds an
/// element exactly when one of its lines gives it that element, either naming it or naming a tag
/// flattened before it that holds it, and it holds no element twice.
pub proof fn lemma_flattened_holds_exactly<F: Fn(&Identifier) -> Option<u32>>(
    raw: Seq<(Location, Declared)>,
    order: Seq<Location>,
    lookup: F,
    b: int,
    x: u32,
)
    requires
        0 <= b < built_by(raw, order, lookup).len(),
    ensures
        ({
            let model = built_by(raw, order, lookup);
            &&& declared(raw, model[b].0) matches Some(lines)
            &&& model[b].1.no_duplicates()
            &&& model[b].1.contains(x) <==> exists|j: int|
                0 <= j < lines.len() && line_gives(#[trigger] lines[j].0, model.take(b), lookup, x)
        }),
{
    let model = built_by(raw, order, lookup);
    lemma_built_by_grows(raw, order, lookup, b);
    let lines = declared(raw, model[b].0)->0;
    lemma_resolved_holds(lines, model.take(b), lookup, x);
    lemma_resolved_unique(lines, model.take(b), lookup);
}

/// A missing required reference sinks the tag: where a tag requires an element `lookup` does
/// not find, or a tag that is not flattened before it, nothing of that location is flattened.
pub proof fn lemma_missing_required_sinks<F: Fn(&Identifier) -> Option<u32>>(
    raw: Seq<(Location, Declared)>,
    order: Seq<Location>,
    lookup: F,
    id: Location,
    j: int,
)
    requires
        declared(raw, id) matches Some(lines) && 0 <= j < lines.len() && lines[j].0.required
            && !lines[j].0.is_tag && found_by(lookup, lines[j].0.id) is None,
    ensures
        forall|t: int|
            0 <= t < built_by(raw, order, lookup).len() ==> (#[trigger] built_by(
                raw,
                order,
                lookup,
            )[t]).0 != id,
    decreases order.len(),
{
    if order.len() > 0 {
        lemma_missing_required_sinks(raw, order.drop_last(), lookup, id, j);
        let before = built_by(raw, order.drop_last(), lookup);
        let model = built_by(raw, order, lookup);
        if order.last() == id {
            let lines = declared(raw, id)->0;
            assert(!resolved(lines.take(j + 1), before, lookup).1) by {
                assert(lines.take(j + 1).drop_last() =~= lines.take(j));
                assert(lines.take(j + 1).last() == lines[j]);
            }
            lemma_resolved_incomplete(lines, before, lookup, j + 1);
            assert(model == before);
        }
        assert forall|t: int| 0 <= t < model.len() implies (#[trigger] model[t]).0 != id by {
            if t < before.len() {
                assert(model[t] == before[t]);
            }
        }
    }
}

/// Putting one tag's lines in place of another's with the same location leaves every other
/// location's lines alone.
proof fn lemma_declared_replaced(
    before: Seq<(Location, Declared)>,
    after: Seq<(Location, Declared)>,
    other: Location,
    k: int,
)
    requires
        0 <= k < before.len(),
        after.len() == before.len(),
        after[k].0 == before[k].0,
        before[k].0 != other,
        forall|j: int| 0 <= j < before.len() && j != k ==> after[j] == before[j],
    ensures
        declared(after, other) == declared(before, other),
    decreases before.len(),
{
    if k > 0 {
        assert(after[0] == before[0]);
        lemma_declared_replaced(before.drop_first(), after.drop_first(), other, k - 1);
    } else {
        assert(after.drop_first() =~= before.drop_first());
    }
}

/// Putting a new location in leaves every other location's lines alone.
proof fn lemma_declared_inserted(
    before: Seq<(Location, Declared)>,
    after: Seq<(Location, Declared)>,
    other: Location,
    k: int,
)
    requires
        0 <= k <= before.len(),
        after.len() == before.len() + 1,
        after[k].0 != other,
        forall|j: int| 0 <= j < k ==> after[j] == before[j],
        forall|j: int| k < j < after.len() ==> after[j] == before[j - 1],
    ensures
        declared(after, other) == declared(before, other),
    decreases before.len(),
{
    if k > 0 {
        assert(after[0] == before[0]);
        lemma_declared_inserted(before.drop_first(), after.drop_first(), other, k - 1);
    } else {
        assert(after.drop_first() =~= before);
    }
}

} // verus!
