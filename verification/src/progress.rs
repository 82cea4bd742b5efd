//! What a player has done, and what that earns them.
use crate::advancements::{group_met, satisfied, Advancement, Advancements};
use crate::keyed::{
    file_under, filed, filing, find_filed, keys_sorted, lemma_filed_at, lemma_filing_placed,
    placed, unfile,
};
use crate::trigger::Trigger;
use vstd::prelude::*;

verus! {

/// The names `granted` holds, as a test on names.
pub open spec fn granted_in(granted: Map<Seq<char>, i64>) -> spec_fn(Seq<char>) -> bool {
    |name: Seq<char>| granted.contains_key(name)
}

/// Whether what is granted finishes the advancement.
pub open spec fn done_with(granted: Map<Seq<char>, i64>, a: Advancement) -> bool {
    satisfied(a.requirements@, granted_in(granted))
}

/// How far along one advancement a player is: when each criterion was granted, as milliseconds
/// since the epoch, in the order of the criteria's names.
#[derive(Debug)]
pub struct AdvancementProgress {
    criteria: Vec<(String, i64)>,
}

impl View for AdvancementProgress {
    type V = Map<Seq<char>, i64>;

    closed spec fn view(&self) -> Map<Seq<char>, i64> {
        filing(self.criteria@)
    }
}

impl Default for AdvancementProgress {
    fn default() -> (r: Self)
        ensures
            r.wf(),
            r@ == Map::<Seq<char>, i64>::empty(),
    {
        let r = AdvancementProgress { criteria: Vec::new() };
        assert(r@ =~= Map::<Seq<char>, i64>::empty());
        r
    }
}

/// The map of the pairs, later pairs over earlier ones.
pub open spec fn collected(pairs: Seq<(String, i64)>) -> Map<Seq<char>, i64>
    decreases pairs.len(),
{
    if pairs.len() == 0 {
        Map::empty()
    } else {
        collected(pairs.drop_last()).insert(pairs.last().0@, pairs.last().1)
    }
}

impl AdvancementProgress {
    /// Whether the criteria are kept in the order of their names.
    pub closed spec fn wf(&self) -> bool {
        keys_sorted(self.criteria@)
    }

    pub fn is_granted(&self, criterion: &str) -> (r: bool)
        ensures
            r == self@.contains_key(criterion@),
    {
        find_filed(&self.criteria, criterion).is_some()
    }

    /// When a criterion was granted, if it was.
    pub fn when_granted(&self, criterion: &str) -> (r: Option<i64>)
        ensures
            r == (if self@.contains_key(criterion@) {
                Some(self@[criterion@])
            } else {
                None
            }),
    {
        match find_filed(&self.criteria, criterion) {
            Some(i) => Some(self.criteria[i].1),
            None => None,
        }
    }

    /// Whether enough criteria are granted for the advancement to be finished.
    pub fn is_done(&self, advancement: &Advancement) -> (r: bool)
        ensures
            r == done_with(self@, *advancement),
    {
        let groups = &advancement.requirements.0;
        let ghost yes = granted_in(self@);
        let ghost req = advancement.requirements@;
        if groups.len() == 0 {
            return false;
        }
        let mut i: usize = 0;
        while i < groups.len()
            invariant
                i <= groups.len(),
                groups.len() > 0,
                yes == granted_in(self@),
                req == advancement.requirements@,
                *groups == advancement.requirements.0,
                forall|k: int| 0 <= k < i ==> group_met(#[trigger] req[k], yes),
            decreases groups.len() - i,
        {
            let group = &groups[i];
            assert(req[i as int] == group@.map_values(|s: String| s@));
            let mut j: usize = 0;
            let mut any = false;
            while j < group.len() && !any
                invariant
                    j <= group.len(),
                    yes == granted_in(self@),
                    req[i as int] == group@.map_values(|s: String| s@),
                    any <==> exists|m: int| 0 <= m < j && yes(#[trigger] req[i as int][m]),
                decreases group.len() - j,
            {
                any = self.is_granted(group[j].as_str());
                assert(req[i as int][j as int] == group@[j as int]@);
                j = j + 1;
            }
            if !any {
                assert(!group_met(req[i as int], yes));
                return false;
            }
            i = i + 1;
        }
        true
    }

    /// Whether anything is granted.
    pub fn has_progress(&self) -> (r: bool)
        ensures
            r == (self@ != Map::<Seq<char>, i64>::empty()),
    {
        if self.criteria.len() == 0 {
            assert(self@ =~= Map::<Seq<char>, i64>::empty());
            false
        } else {
            assert(filed(self.criteria@, self.criteria@[0].0@) is Some);
            assert(self@.contains_key(self.criteria@[0].0@));
            true
        }
    }

    /// Every criterion granted, with when, in the order of their names.
    pub fn entries(&self) -> (r: &[(String, i64)])
        requires
            self.wf(),
        ensures
            keys_sorted(r@),
            filing(r@) == self@,
    {
        self.criteria.as_slice()
    }

    /// Progress made of the pairs given, a later pair over an earlier one of the same name.
    pub fn from_entries(pairs: Vec<(String, i64)>) -> (r: Self)
        ensures
            r.wf(),
            r@ == collected(pairs@),
    {
        let mut criteria: Vec<(String, i64)> = Vec::new();
        let mut i: usize = 0;
        assert(filing(criteria@) =~= collected(pairs@.take(0)));
        while i < pairs.len()
            invariant
                i <= pairs.len(),
                keys_sorted(criteria@),
                filing(criteria@) == collected(pairs@.take(i as int)),
            decreases pairs.len() - i,
        {
            assert(pairs@.take(i + 1).drop_last() =~= pairs@.take(i as int));
            assert(pairs@.take(i + 1).last() == pairs@[i as int]);
            proof {
                lemma_filing_placed(criteria@, pairs@[i as int].0, pairs@[i as int].1);
            }
            file_under(&mut criteria, pairs[i].0.clone(), pairs[i].1);
            i = i + 1;
        }
        assert(pairs@.take(pairs.len() as int) =~= pairs@);
        AdvancementProgress { criteria }
    }

    /// Grants a criterion at `now`.
    fn grant(&mut self, criterion: &str, now: i64)
        requires
            old(self).wf(),
        ensures
            final(self).wf(),
            final(self)@ == old(self)@.insert(criterion@, now),
    {
        let name = String::from_str(criterion);
        proof {
            lemma_filing_placed(self.criteria@, name, now);
        }
        file_under(&mut self.criteria, name, now);
    }

    /// Takes a criterion back, and says whether it was granted.
    fn take_back(&mut self, criterion: &str) -> (r: bool)
        requires
            old(self).wf(),
        ensures
            final(self).wf(),
            final(self)@ == old(self)@.remove(criterion@),
            r == old(self)@.contains_key(criterion@),
    {
        unfile(&mut self.criteria, criterion).is_some()
    }
}

/// What came of granting a criterion.
#[derive(Debug, Clone, Copy, PartialEq, Eq, Structural)]
pub enum Award {
    /// It was already granted, or there is no such advancement, so nothing happened.
    Already,
    /// It was granted, and the advancement is still unfinished.
    Progressed,
    /// It was granted, and that finished the advancement.
    Completed,
}

/// What a player has of one advancement: nothing where they have no entry for it.
pub open spec fn granted_so_far(state: Map<Seq<char>, Map<Seq<char>, i64>>, name: Seq<char>) -> Map<
    Seq<char>,
    i64,
> {
    if state.contains_key(name) {
        state[name]
    } else {
        Map::empty()
    }
}

/// What granting `criterion` of the advancement `name` at `now` does: nothing where there is no
/// such advancement or it is granted already; else the criterion is granted, and it says whether
/// that finished the advancement.
pub open spec fn awarded(
    state: Map<Seq<char>, Map<Seq<char>, i64>>,
    listing: Seq<(String, Advancement)>,
    name: Seq<char>,
    criterion: Seq<char>,
    now: i64,
) -> (Map<Seq<char>, Map<Seq<char>, i64>>, Award) {
    match filed(listing, name) {
        None => (state, Award::Already),
        Some(a) => {
            let before = granted_so_far(state, name);
            if before.contains_key(criterion) {
                (state, Award::Already)
            } else {
                let after = before.insert(criterion, now);
                (
                    state.insert(name, after),
                    if !done_with(before, a) && done_with(after, a) {
                        Award::Completed
                    } else {
                        Award::Progressed
                    },
                )
            }
        },
    }
}

/// What taking back `criterion` of `name` does, and whether it was granted. An advancement left
/// with nothing granted is not kept.
pub open spec fn revoked(state: Map<Seq<char>, Map<Seq<char>, i64>>, name: Seq<char>, criterion: Seq<
    char,
>) -> (Map<Seq<char>, Map<Seq<char>, i64>>, bool) {
    if !state.contains_key(name) {
        (state, false)
    } else {
        let left = state[name].remove(criterion);
        (
            if left == Map::<Seq<char>, i64>::empty() {
                state.remove(name)
            } else {
                state.insert(name, left)
            },
            state[name].contains_key(criterion),
        )
    }
}

/// Whether every advancement kept has something granted.
pub open spec fn kept_nonempty(state: Map<Seq<char>, Map<Seq<char>, i64>>) -> bool {
    forall|name: Seq<char>| #[trigger]
        state.contains_key(name) ==> state[name] != Map::<Seq<char>, i64>::empty()
}

/// Everything one player has done: what they have granted of each advancement, by name. Only the
/// advancements with something granted are kept.
#[derive(Debug)]
pub struct PlayerAdvancements {
    progress: Vec<(String, AdvancementProgress)>,
}

/// What each entry holds.
pub open spec fn progress_view() -> spec_fn(AdvancementProgress) -> Map<Seq<char>, i64> {
    |p: AdvancementProgress| p@
}

/// What a player made of these entries, one after another, has done: each entry with something
/// granted put under its name, over whatever an earlier one put there; an entry with nothing granted
/// changes nothing.
pub open spec fn players_from(entries: Seq<(String, AdvancementProgress)>) -> Map<
    Seq<char>,
    Map<Seq<char>, i64>,
>
    decreases entries.len(),
{
    if entries.len() == 0 {
        Map::empty()
    } else {
        let before = players_from(entries.drop_last());
        let (name, p) = entries.last();
        if p@ != Map::<Seq<char>, i64>::empty() {
            before.insert(name@, p@)
        } else {
            before
        }
    }
}

impl View for PlayerAdvancements {
    type V = Map<Seq<char>, Map<Seq<char>, i64>>;

    closed spec fn view(&self) -> Map<Seq<char>, Map<Seq<char>, i64>> {
        filing(self.progress@).map_values(progress_view())
    }
}

impl Default for PlayerAdvancements {
    fn default() -> (r: Self)
        ensures
            r.wf(),
            r@ == Map::<Seq<char>, Map<Seq<char>, i64>>::empty(),
    {
        let r = PlayerAdvancements { progress: Vec::new() };
        assert(r@ =~= Map::<Seq<char>, Map<Seq<char>, i64>>::empty());
        r
    }
}

/// What an event granted.
#[derive(Debug)]
pub struct Granted {
    /// Every advancement that gained a criterion, finished or not, once per criterion gained.
    pub moved: Vec<String>,
    /// The ones that were finished by it.
    pub completed: Vec<String>,
}

impl Granted {
    pub fn is_empty(&self) -> (r: bool)
        ensures
            r == (self.moved@.len() == 0),
    {
        self.moved.len() == 0
    }
}

/// Whether `meets` can be asked about any trigger, and gives one answer for each.
pub open spec fn meets_steadily<F: Fn(&Trigger) -> bool>(meets: F) -> bool {
    &&& forall|t: Trigger| call_requires(meets, (&t,))
    &&& forall|t: Trigger, x: bool, y: bool|
        #![trigger call_ensures(meets, (&t,), x), call_ensures(meets, (&t,), y)]
        call_ensures(meets, (&t,), x) && call_ensures(meets, (&t,), y) ==> x == y
}

/// Whether the event meets a criterion waiting for `t`.
pub open spec fn fires<F: Fn(&Trigger) -> bool>(meets: F, t: Trigger) -> bool {
    call_ensures(meets, (&t,), true)
}

/// The criteria of one advancement the event meets, in the order of their names.
pub open spec fn wanted_in<F: Fn(&Trigger) -> bool>(
    name: Seq<char>,
    criteria: Seq<(String, crate::advancements::Criterion)>,
    meets: F,
) -> Seq<(Seq<char>, Seq<char>)>
    decreases criteria.len(),
{
    if criteria.len() == 0 {
        seq![]
    } else {
        wanted_in(name, criteria.drop_last(), meets) + if fires(meets, criteria.last().1.trigger) {
            seq![(name, criteria.last().0@)]
        } else {
            seq![]
        }
    }
}

/// Every criterion the event meets: advancement by advancement, criterion by criterion.
pub open spec fn wanted<F: Fn(&Trigger) -> bool>(
    listing: Seq<(String, Advancement)>,
    meets: F,
) -> Seq<(Seq<char>, Seq<char>)>
    decreases listing.len(),
{
    if listing.len() == 0 {
        seq![]
    } else {
        wanted(listing.drop_last(), meets) + wanted_in(
            listing.last().0@,
            listing.last().1.criteria@,
            meets,
        )
    }
}

/// What granting the criteria one after another does: the state after, every advancement that
/// moved once per criterion gained, and those that were finished.
pub open spec fn offered(
    state: Map<Seq<char>, Map<Seq<char>, i64>>,
    listing: Seq<(String, Advancement)>,
    pairs: Seq<(Seq<char>, Seq<char>)>,
    now: i64,
) -> (Map<Seq<char>, Map<Seq<char>, i64>>, Seq<Seq<char>>, Seq<Seq<char>>)
    decreases pairs.len(),
{
    if pairs.len() == 0 {
        (state, seq![], seq![])
    } else {
        let (s, moved, completed) = offered(state, listing, pairs.drop_last(), now);
        let name = pairs.last().0;
        let (after, award) = awarded(s, listing, name, pairs.last().1, now);
        match award {
            Award::Completed => (after, moved.push(name), completed.push(name)),
            Award::Progressed => (after, moved.push(name), completed),
            Award::Already => (after, moved, completed),
        }
    }
}

/// The names of a list of texts.
pub open spec fn texts_of(v: Seq<String>) -> Seq<Seq<char>> {
    v.map_values(|s: String| s@)
}

impl PlayerAdvancements {
    /// Whether the entries are kept in the order of their names, each with something granted.
    pub closed spec fn wf(&self) -> bool {
        &&& keys_sorted(self.progress@)
        &&& forall|i: int|
            0 <= i < self.progress@.len() ==> (#[trigger] self.progress@[i]).1.wf()
                && self.progress@[i].1@ != Map::<Seq<char>, i64>::empty()
    }

    /// A well-formed player keeps only advancements with something granted.
    pub proof fn lemma_wf_kept_nonempty(&self)
        requires
            self.wf(),
        ensures
            kept_nonempty(self@),
    {
        assert forall|name: Seq<char>| #[trigger] self@.contains_key(name) implies self@[name]
            != Map::<Seq<char>, i64>::empty() by {
            crate::keyed::lemma_filed_some(self.progress@, name);
            let j = choose|j: int|
                0 <= j < self.progress@.len() && (#[trigger] self.progress@[j]).0@ == name
                    && filed(self.progress@, name) == Some(self.progress@[j].1);
            assert(self.progress@[j].1@ != Map::<Seq<char>, i64>::empty());
        }
    }

    /// Takes out the entry of `name`, if there is one.
    fn take_entry(&mut self, name: &str) -> (r: Option<AdvancementProgress>)
        requires
            old(self).wf(),
        ensures
            final(self).wf(),
            final(self)@ == old(self)@.remove(name@),
            match r {
                Some(p) => p.wf() && old(self)@.contains_key(name@) && p@ == old(self)@[name@] && p@
                    != Map::<Seq<char>, i64>::empty(),
                None => !old(self)@.contains_key(name@),
            },
    {
        let ghost before = self.progress@;
        let r = unfile(&mut self.progress, name);
        proof {
            assert(self@ =~= old(self)@.remove(name@));
            if r is Some {
                crate::keyed::lemma_filed_some(before, name@);
            }
            assert forall|i: int| 0 <= i < self.progress@.len() implies (
            #[trigger] self.progress@[i]).1.wf() && self.progress@[i].1@ != Map::<
                Seq<char>,
                i64,
            >::empty() by {
                let q = self.progress@[i].0@;
                lemma_filed_at(self.progress@, i);
                assert(filing(self.progress@).contains_key(q));
                assert(filing(before).remove(name@).contains_key(q));
                assert(filing(before).contains_key(q));
                assert(filed(before, q) is Some);
                assert(filing(self.progress@)[q] == filing(before)[q]);
                assert(filed(before, q) == Some(self.progress@[i].1));
                crate::keyed::lemma_filed_some(before, q);
            }
        }
        r
    }

    /// Puts an entry for `name` back.
    fn put_entry(&mut self, name: &str, p: AdvancementProgress)
        requires
            old(self).wf(),
            p.wf(),
            p@ != Map::<Seq<char>, i64>::empty(),
        ensures
            final(self).wf(),
            final(self)@ == old(self)@.insert(name@, p@),
    {
        let key = String::from_str(name);
        let ghost before = self.progress@;
        proof {
            lemma_filing_placed(before, key, p);
        }
        file_under(&mut self.progress, key, p);
        proof {
            assert(self@ =~= old(self)@.insert(name@, p@));
            assert forall|i: int| 0 <= i < self.progress@.len() implies (
            #[trigger] self.progress@[i]).1.wf() && self.progress@[i].1@ != Map::<
                Seq<char>,
                i64,
            >::empty() by {
                lemma_filed_at(self.progress@, i);
                let q = self.progress@[i].0@;
                crate::keyed::lemma_filed_placed(before, key, p, q);
                if q != name@ {
                    crate::keyed::lemma_filed_some(before, q);
                }
            }
        }
    }

    /// Grants one criterion, and says whether that finished the advancement.
    pub fn award(&mut self, advancements: &Advancements, name: &str, criterion: &str, now: i64) -> (r:
        Award)
        requires
            old(self).wf(),
        ensures
            final(self).wf(),
            (final(self)@, r) == awarded(old(self)@, advancements.listing(), name@, criterion@, now),
    {
        let advancement = match advancements.get_by_name(name) {
            Some(a) => a,
            None => return Award::Already,
        };
        let mut progress = match self.take_entry(name) {
            Some(p) => p,
            None => AdvancementProgress::default(),
        };
        if progress.is_granted(criterion) {
            self.put_entry(name, progress);
            assert(self@ =~= old(self)@);
            return Award::Already;
        }
        let was_done = progress.is_done(advancement);
        progress.grant(criterion, now);
        let now_done = progress.is_done(advancement);
        assert(progress@.contains_key(criterion@));
        assert(progress@ != Map::<Seq<char>, i64>::empty()) by {
            if progress@ == Map::<Seq<char>, i64>::empty() {
                assert(!Map::<Seq<char>, i64>::empty().contains_key(criterion@));
            }
        }
        self.put_entry(name, progress);
        if !was_done && now_done {
            Award::Completed
        } else {
            Award::Progressed
        }
    }

    /// Takes a criterion back, which is what `/advancement revoke` does, and says whether it was
    /// granted.
    pub fn revoke(&mut self, name: &str, criterion: &str) -> (r: bool)
        requires
            old(self).wf(),
        ensures
            final(self).wf(),
            (final(self)@, r) == revoked(old(self)@, name@, criterion@),
    {
        let mut progress = match self.take_entry(name) {
            Some(p) => p,
            None => {
                assert(self@ =~= old(self)@);
                return false;
            },
        };
        let removed = progress.take_back(criterion);
        if progress.has_progress() {
            self.put_entry(name, progress);
        }
        removed
    }

    /// What the player has of an advancement, if they have anything.
    pub fn get(&self, name: &str) -> (r: Option<&AdvancementProgress>)
        ensures
            match r {
                Some(p) => self@.contains_key(name@) && p@ == self@[name@],
                None => !self@.contains_key(name@),
            },
    {
        match find_filed(&self.progress, name) {
            Some(i) => Some(&self.progress[i].1),
            None => None,
        }
    }

    /// Whether the player has finished an advancement there is.
    pub fn is_done(&self, advancements: &Advancements, name: &str) -> (r: bool)
        ensures
            r == (self@.contains_key(name@) && match filed(advancements.listing(), name@) {
                Some(a) => done_with(self@[name@], a),
                None => false,
            }),
    {
        match (self.get(name), advancements.get_by_name(name)) {
            (Some(progress), Some(advancement)) => progress.is_done(advancement),
            _ => false,
        }
    }

    /// Every advancement the player has something of, with what, in the order of their names.
    pub fn entries(&self) -> (r: &[(String, AdvancementProgress)])
        requires
            self.wf(),
        ensures
            keys_sorted(r@),
            filing(r@).map_values(progress_view()) == self@,
    {
        self.progress.as_slice()
    }

    /// A player made of the entries given, a later entry over an earlier one of the same name, and
    /// those with nothing granted left out.
    pub fn from_entries(entries: Vec<(String, AdvancementProgress)>) -> (r: Self)
        requires
            forall|i: int| 0 <= i < entries@.len() ==> (#[trigger] entries@[i]).1.wf(),
        ensures
            r.wf(),
            r@ == players_from(entries@),
    {
        let mut r = PlayerAdvancements::default();
        let ghost all = entries@;
        let mut entries = entries;
        let mut k: usize = 0;
        assert(all.take(0) =~= Seq::<(String, AdvancementProgress)>::empty());
        assert(all.skip(0) =~= all);
        assert(all.len() == entries.len());
        while entries.len() > 0
            invariant
                r.wf(),
                k <= all.len(),
                all.len() <= usize::MAX,
                entries@ == all.skip(k as int),
                r@ == players_from(all.take(k as int)),
                forall|i: int| 0 <= i < entries@.len() ==> (#[trigger] entries@[i]).1.wf(),
            decreases entries.len(),
        {
            let ghost before = entries@;
            let (name, p) = entries.remove(0);
            assert(p == before[0].1);
            assert(name == before[0].0);
            assert(before[0] == all[k as int]);
            assert(all.take(k as int + 1).drop_last() =~= all.take(k as int));
            assert(all.take(k as int + 1).last() == all[k as int]);
            assert(entries@ =~= all.skip(k as int + 1));
            assert forall|i: int| 0 <= i < entries@.len() implies (#[trigger] entries@[i]).1.wf() by {
                assert(entries@[i] == before[i + 1]);
            }
            if p.has_progress() {
                r.put_entry(name.as_str(), p);
            }
            k = k + 1;
        }
        assert(all.take(k as int) =~= all);
        r
    }

    /// Offers an event to every criterion waiting for it, granting the ones it meets, and says
    /// which advancements moved and which of them that finished.
    pub fn offer<F: Fn(&Trigger) -> bool>(
        &mut self,
        advancements: &Advancements,
        now: i64,
        meets: F,
    ) -> (r: Granted)
        requires
            old(self).wf(),
            meets_steadily(meets),
        ensures
            final(self).wf(),
            (final(self)@, texts_of(r.moved@), texts_of(r.completed@)) == offered(
                old(self)@,
                advancements.listing(),
                wanted(advancements.listing(), meets),
                now,
            ),
    {
        let list = advancements.iter();
        let ghost listing = advancements.listing();
        let mut granting: Vec<(String, String)> = Vec::new();
        let mut i: usize = 0;
        assert(listing.take(0) =~= Seq::<(String, Advancement)>::empty());
        while i < list.len()
            invariant
                i <= list.len(),
                list@ == listing,
                meets_steadily(meets),
                granting@.map_values(|p: (String, String)| (p.0@, p.1@)) == wanted(
                    listing.take(i as int),
                    meets,
                ),
            decreases list.len() - i,
        {
            let name = &list[i].0;
            let criteria = &list[i].1.criteria;
            let ghost start = granting@.map_values(|p: (String, String)| (p.0@, p.1@));
            let mut j: usize = 0;
            assert(criteria@.take(0) =~= Seq::<(String, crate::advancements::Criterion)>::empty());
            assert(start =~= start + wanted_in(name@, criteria@.take(0), meets));
            while j < criteria.len()
                invariant
                    j <= criteria.len(),
                    meets_steadily(meets),
                    granting@.map_values(|p: (String, String)| (p.0@, p.1@)) == start + wanted_in(
                        name@,
                        criteria@.take(j as int),
                        meets,
                    ),
                decreases criteria.len() - j,
            {
                assert(criteria@.take(j + 1).drop_last() =~= criteria@.take(j as int));
                assert(criteria@.take(j + 1).last() == criteria@[j as int]);
                let fired = meets(&criteria[j].1.trigger);
                proof {
                    let t = criteria@[j as int].1.trigger;
                    assert(call_ensures(meets, (&t,), fired));
                    if !fired && fires(meets, t) {
                        assert(call_ensures(meets, (&t,), true));
                    }
                    assert(fired == fires(meets, t));
                }
                let ghost was = granting@;
                if fired {
                    granting.push((name.clone(), criteria[j].0.clone()));
                    assert(granting@.map_values(|p: (String, String)| (p.0@, p.1@)) =~= was.map_values(
                        |p: (String, String)| (p.0@, p.1@),
                    ).push((name@, criteria@[j as int].0@)));
                } else {
                    assert(granting@ == was);
                }
                assert(start + wanted_in(name@, criteria@.take(j + 1), meets) =~= start + wanted_in(
                    name@,
                    criteria@.take(j as int),
                    meets,
                ) + if fired {
                    seq![(name@, criteria@[j as int].0@)]
                } else {
                    seq![]
                });
                j = j + 1;
            }
            assert(criteria@.take(criteria.len() as int) =~= criteria@);
            assert(listing.take(i + 1).drop_last() =~= listing.take(i as int));
            assert(listing.take(i + 1).last() == listing[i as int]);
            i = i + 1;
        }
        assert(listing.take(list.len() as int) =~= listing);
        let ghost pairs = granting@.map_values(|p: (String, String)| (p.0@, p.1@));
        let mut moved: Vec<String> = Vec::new();
        let mut completed: Vec<String> = Vec::new();
        let mut k: usize = 0;
        assert(pairs.take(0) =~= Seq::<(Seq<char>, Seq<char>)>::empty());
        while k < granting.len()
            invariant
                k <= granting.len(),
                pairs == granting@.map_values(|p: (String, String)| (p.0@, p.1@)),
                listing == advancements.listing(),
                self.wf(),
                (self@, texts_of(moved@), texts_of(completed@)) == offered(
                    old(self)@,
                    listing,
                    pairs.take(k as int),
                    now,
                ),
            decreases granting.len() - k,
        {
            assert(pairs.take(k + 1).drop_last() =~= pairs.take(k as int));
            assert(pairs.take(k + 1).last() == pairs[k as int]);
            let name = &granting[k].0;
            let ghost moved_before = moved@;
            let ghost completed_before = completed@;
            match self.award(advancements, name.as_str(), granting[k].1.as_str(), now) {
                Award::Completed => {
                    moved.push(name.clone());
                    completed.push(name.clone());
                    assert(texts_of(moved@) =~= texts_of(moved_before).push(name@));
                    assert(texts_of(completed@) =~= texts_of(completed_before).push(name@));
                },
                Award::Progressed => {
                    moved.push(name.clone());
                    assert(texts_of(moved@) =~= texts_of(moved_before).push(name@));
                },
                Award::Already => {},
            }
            k = k + 1;
        }
        assert(pairs.take(granting.len() as int) =~= pairs);
        Granted { moved, completed }
    }
}

/// Granting the same criterion twice does nothing the second time, and says so.
pub proof fn lemma_award_twice(
    state: Map<Seq<char>, Map<Seq<char>, i64>>,
    listing: Seq<(String, Advancement)>,
    name: Seq<char>,
    criterion: Seq<char>,
    first: i64,
    second: i64,
)
    ensures
        ({
            let (after, _) = awarded(state, listing, name, criterion, first);
            awarded(after, listing, name, criterion, second) == (after, Award::Already)
        }),
{
}

/// Taking back a criterion that was just granted, and was not before, leaves the player as they
/// were, and says it was granted.
pub proof fn lemma_revoke_undoes_award(
    state: Map<Seq<char>, Map<Seq<char>, i64>>,
    listing: Seq<(String, Advancement)>,
    name: Seq<char>,
    criterion: Seq<char>,
    now: i64,
)
    requires
        kept_nonempty(state),
        filed(listing, name) is Some,
        !granted_so_far(state, name).contains_key(criterion),
    ensures
        revoked(awarded(state, listing, name, criterion, now).0, name, criterion) == (state, true),
{
    let before = granted_so_far(state, name);
    let after = state.insert(name, before.insert(criterion, now));
    assert(before.insert(criterion, now).remove(criterion) =~= before);
    if before == Map::<Seq<char>, i64>::empty() {
        assert(!state.contains_key(name));
        assert(after.remove(name) =~= state);
    } else {
        assert(state.contains_key(name));
        assert(after.insert(name, before) =~= state);
    }
}

/// Granting a criterion is reported as finishing the advancement exactly when the advancement was
/// unfinished before and is finished after.
pub proof fn lemma_completed_exactly_when_finished(
    state: Map<Seq<char>, Map<Seq<char>, i64>>,
    listing: Seq<(String, Advancement)>,
    name: Seq<char>,
    criterion: Seq<char>,
    now: i64,
)
    requires
        filed(listing, name) is Some,
        !granted_so_far(state, name).contains_key(criterion),
    ensures
        ({
            let a = filed(listing, name).unwrap();
            let (after, award) = awarded(state, listing, name, criterion, now);
            &&& after.contains_key(name)
            &&& after[name].contains_key(criterion)
            &&& (award == Award::Completed) == (!done_with(granted_so_far(state, name), a)
                && done_with(after[name], a))
            &&& award != Award::Already
        }),
{
}

/// Granting keeps only advancements with something granted.
pub proof fn lemma_award_keeps_nonempty(
    state: Map<Seq<char>, Map<Seq<char>, i64>>,
    listing: Seq<(String, Advancement)>,
    name: Seq<char>,
    criterion: Seq<char>,
    now: i64,
)
    requires
        kept_nonempty(state),
    ensures
        kept_nonempty(awarded(state, listing, name, criterion, now).0),
{
    let (after, _) = awarded(state, listing, name, criterion, now);
    assert forall|n: Seq<char>| #[trigger] after.contains_key(n) implies after[n] != Map::<
        Seq<char>,
        i64,
    >::empty() by {
        if n == name && after != state {
            let m = granted_so_far(state, name).insert(criterion, now);
            assert(m.contains_key(criterion));
        }
    }
}

} // verus!
