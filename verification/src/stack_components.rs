//! What an item stack carries beyond its name and its count.
//!
//! A stack does not carry the whole map of components — it carries a **patch** over what the item
//! type already says, so a plain diamond sword says nothing at all and a named one says only the
//! name. The patch is kept sorted by kind, so two stacks that say the same thing are the same
//! however they were built, which is what lets them merge.
use crate::components::{component_id, ComponentType};
use crate::enchantments::{is_enchantment, Enchantment};
use crate::wire_ids::ENCHANTMENTS;
use vstd::prelude::*;

verus! {

/// What shape a component's payload is on the wire.
#[derive(Debug, Clone, Copy, PartialEq, Eq, Structural)]
pub enum Shape {
    /// Nothing follows at all, as for `unbreakable`.
    Nothing,
    /// A variable-length number, as for `damage`.
    Number,
    /// One byte, as for `enchantment_glint_override`.
    Flag,
    /// Four bytes of packed colour, as for `dyed_color`.
    Colour,
    /// A piece of text, as for `custom_name`.
    Text,
    /// A list of text, as for `lore`.
    Lines,
    /// A map of enchantment to level.
    Enchantments,
    /// A compound this server does not read into anything, kept as it arrived.
    Nbt,
}

/// What a component is worth on one stack.
#[derive(Debug, PartialEq)]
pub enum ComponentValue {
    Nothing,
    Number(i32),
    Flag(bool),
    Colour(i32),
    /// A piece of text, kept as the NBT it travels as.
    Text(Vec<u8>),
    Lines(Vec<Vec<u8>>),
    /// Each entry is an enchantment as this server numbers it, and a level.
    Enchantments(Vec<(u16, u16)>),
    /// Kept as the bytes it arrived as, so it survives a round trip without being understood.
    Nbt(Vec<u8>),
}

/// What a component is worth, as plain values.
pub enum Worth {
    Nothing,
    Number(i32),
    Flag(bool),
    Colour(i32),
    Text(Seq<u8>),
    Lines(Seq<Seq<u8>>),
    Enchantments(Seq<(u16, u16)>),
    Nbt(Seq<u8>),
}

impl View for ComponentValue {
    type V = Worth;

    open spec fn view(&self) -> Worth {
        match self {
            ComponentValue::Nothing => Worth::Nothing,
            ComponentValue::Number(n) => Worth::Number(*n),
            ComponentValue::Flag(b) => Worth::Flag(*b),
            ComponentValue::Colour(c) => Worth::Colour(*c),
            ComponentValue::Text(t) => Worth::Text(t@),
            ComponentValue::Lines(l) => Worth::Lines(l@.map_values(|line: Vec<u8>| line@)),
            ComponentValue::Enchantments(e) => Worth::Enchantments(e@),
            ComponentValue::Nbt(n) => Worth::Nbt(n@),
        }
    }
}

/// The shape a value is.
pub open spec fn shape_of_worth(w: Worth) -> Shape {
    match w {
        Worth::Nothing => Shape::Nothing,
        Worth::Number(_) => Shape::Number,
        Worth::Flag(_) => Shape::Flag,
        Worth::Colour(_) => Shape::Colour,
        Worth::Text(_) => Shape::Text,
        Worth::Lines(_) => Shape::Lines,
        Worth::Enchantments(_) => Shape::Enchantments,
        Worth::Nbt(_) => Shape::Nbt,
    }
}

/// A copy of some bytes.
fn copy_bytes(bytes: &Vec<u8>) -> (r: Vec<u8>)
    ensures
        r@ == bytes@,
{
    let mut out: Vec<u8> = Vec::new();
    let mut i: usize = 0;
    while i < bytes.len()
        invariant
            i <= bytes@.len(),
            out@ == bytes@.take(i as int),
        decreases bytes.len() - i,
    {
        out.push(bytes[i]);
        i = i + 1;
        assert(out@ =~= bytes@.take(i as int));
    }
    assert(bytes@.take(i as int) =~= bytes@);
    out
}

/// Whether two runs of bytes are the same.
fn same_bytes(a: &Vec<u8>, b: &Vec<u8>) -> (r: bool)
    ensures
        r == (a@ == b@),
{
    if a.len() != b.len() {
        return false;
    }
    let mut i: usize = 0;
    while i < a.len()
        invariant
            a@.len() == b@.len(),
            i <= a@.len(),
            forall|j: int| 0 <= j < i ==> a@[j] == b@[j],
        decreases a.len() - i,
    {
        if a[i] != b[i] {
            return false;
        }
        i = i + 1;
    }
    assert(a@ =~= b@);
    true
}

impl ComponentValue {
    /// Which shape it is, which is what says how it is written.
    pub fn shape(&self) -> (r: Shape)
        ensures
            r == shape_of_worth(self@),
    {
        match self {
            ComponentValue::Nothing => Shape::Nothing,
            ComponentValue::Number(_) => Shape::Number,
            ComponentValue::Flag(_) => Shape::Flag,
            ComponentValue::Colour(_) => Shape::Colour,
            ComponentValue::Text(_) => Shape::Text,
            ComponentValue::Lines(_) => Shape::Lines,
            ComponentValue::Enchantments(_) => Shape::Enchantments,
            ComponentValue::Nbt(_) => Shape::Nbt,
        }
    }

    /// A copy of it.
    pub fn duplicate(&self) -> (r: ComponentValue)
        ensures
            r@ == self@,
    {
        match self {
            ComponentValue::Nothing => ComponentValue::Nothing,
            ComponentValue::Number(n) => ComponentValue::Number(*n),
            ComponentValue::Flag(b) => ComponentValue::Flag(*b),
            ComponentValue::Colour(c) => ComponentValue::Colour(*c),
            ComponentValue::Text(t) => ComponentValue::Text(copy_bytes(t)),
            ComponentValue::Lines(lines) => {
                let mut out: Vec<Vec<u8>> = Vec::new();
                let mut i: usize = 0;
                while i < lines.len()
                    invariant
                        i <= lines@.len(),
                        out@.len() == i,
                        forall|j: int| 0 <= j < i ==> (#[trigger] out@[j])@ == lines@[j]@,
                    decreases lines.len() - i,
                {
                    out.push(copy_bytes(&lines[i]));
                    i = i + 1;
                }
                let r = ComponentValue::Lines(out);
                assert(out@.map_values(|line: Vec<u8>| line@) =~= lines@.map_values(
                    |line: Vec<u8>| line@,
                ));
                r
            },
            ComponentValue::Enchantments(held) => {
                let mut out: Vec<(u16, u16)> = Vec::new();
                let mut i: usize = 0;
                while i < held.len()
                    invariant
                        i <= held@.len(),
                        out@ == held@.take(i as int),
                    decreases held.len() - i,
                {
                    out.push(held[i]);
                    i = i + 1;
                    assert(out@ =~= held@.take(i as int));
                }
                assert(held@.take(i as int) =~= held@);
                ComponentValue::Enchantments(out)
            },
            ComponentValue::Nbt(n) => ComponentValue::Nbt(copy_bytes(n)),
        }
    }

    /// Whether two values are the same.
    pub fn same_as(&self, other: &ComponentValue) -> (r: bool)
        ensures
            r == (self@ == other@),
    {
        match self {
            ComponentValue::Nothing => match other {
                ComponentValue::Nothing => true,
                _ => false,
            },
            ComponentValue::Number(a) => match other {
                ComponentValue::Number(b) => *a == *b,
                _ => false,
            },
            ComponentValue::Flag(a) => match other {
                ComponentValue::Flag(b) => *a == *b,
                _ => false,
            },
            ComponentValue::Colour(a) => match other {
                ComponentValue::Colour(b) => *a == *b,
                _ => false,
            },
            ComponentValue::Text(a) => match other {
                ComponentValue::Text(b) => same_bytes(a, b),
                _ => false,
            },
            ComponentValue::Nbt(a) => match other {
                ComponentValue::Nbt(b) => same_bytes(a, b),
                _ => false,
            },
            ComponentValue::Enchantments(a) => match other {
                ComponentValue::Enchantments(b) => same_pairs(a, b),
                _ => false,
            },
            ComponentValue::Lines(a) => match other {
                ComponentValue::Lines(b) => same_lines(a, b),
                _ => false,
            },
        }
    }
}

/// Whether two runs of pairs are the same.
fn same_pairs(a: &Vec<(u16, u16)>, b: &Vec<(u16, u16)>) -> (r: bool)
    ensures
        r == (a@ == b@),
{
    if a.len() != b.len() {
        return false;
    }
    let mut i: usize = 0;
    while i < a.len()
        invariant
            a@.len() == b@.len(),
            i <= a@.len(),
            forall|j: int| 0 <= j < i ==> a@[j] == b@[j],
        decreases a.len() - i,
    {
        if a[i].0 != b[i].0 || a[i].1 != b[i].1 {
            assert(a@[i as int] != b@[i as int]);
            return false;
        }
        i = i + 1;
    }
    assert(a@ =~= b@);
    true
}

/// Whether two lists of lines are the same.
fn same_lines(a: &Vec<Vec<u8>>, b: &Vec<Vec<u8>>) -> (r: bool)
    ensures
        r == (a@.map_values(|line: Vec<u8>| line@) == b@.map_values(|line: Vec<u8>| line@)),
{
    let ghost va = a@.map_values(|line: Vec<u8>| line@);
    let ghost vb = b@.map_values(|line: Vec<u8>| line@);
    if a.len() != b.len() {
        assert(va.len() != vb.len());
        return false;
    }
    let mut i: usize = 0;
    while i < a.len()
        invariant
            a@.len() == b@.len(),
            va == a@.map_values(|line: Vec<u8>| line@),
            vb == b@.map_values(|line: Vec<u8>| line@),
            i <= a@.len(),
            forall|j: int| 0 <= j < i ==> va[j] == vb[j],
        decreases a.len() - i,
    {
        if !same_bytes(&a[i], &b[i]) {
            assert(va[i as int] != vb[i as int]);
            return false;
        }
        i = i + 1;
    }
    assert(va =~= vb);
    true
}

/// What shape a kind of component is, where this server knows.
pub open spec fn known_shape(kind: ComponentType) -> Option<Shape> {
    match kind {
        ComponentType::MaxStackSize | ComponentType::MaxDamage | ComponentType::Damage
        | ComponentType::RepairCost | ComponentType::Rarity | ComponentType::MapId
        | ComponentType::OminousBottleAmplifier => Some(Shape::Number),
        ComponentType::Unbreakable | ComponentType::CreativeSlotLock => Some(Shape::Nothing),
        ComponentType::EnchantmentGlintOverride => Some(Shape::Flag),
        ComponentType::DyedColor | ComponentType::MapColor => Some(Shape::Colour),
        ComponentType::CustomName | ComponentType::ItemName => Some(Shape::Text),
        ComponentType::Lore => Some(Shape::Lines),
        ComponentType::Enchantments | ComponentType::StoredEnchantments => Some(
            Shape::Enchantments,
        ),
        ComponentType::CustomData | ComponentType::BlockEntityData | ComponentType::Bees => Some(
            Shape::Nbt,
        ),
        _ => None,
    }
}

/// What shape a kind of component is, where this server knows.
///
/// Everything not named here is one this server cannot read, and reading one is an error rather
/// than a guess.
pub fn shape_of(kind: ComponentType) -> (r: Option<Shape>)
    ensures
        r == known_shape(kind),
{
    match kind {
        ComponentType::MaxStackSize | ComponentType::MaxDamage | ComponentType::Damage
        | ComponentType::RepairCost | ComponentType::Rarity | ComponentType::MapId
        | ComponentType::OminousBottleAmplifier => Some(Shape::Number),
        ComponentType::Unbreakable | ComponentType::CreativeSlotLock => Some(Shape::Nothing),
        ComponentType::EnchantmentGlintOverride => Some(Shape::Flag),
        ComponentType::DyedColor | ComponentType::MapColor => Some(Shape::Colour),
        ComponentType::CustomName | ComponentType::ItemName => Some(Shape::Text),
        ComponentType::Lore => Some(Shape::Lines),
        ComponentType::Enchantments | ComponentType::StoredEnchantments => Some(
            Shape::Enchantments,
        ),
        ComponentType::CustomData | ComponentType::BlockEntityData | ComponentType::Bees => Some(
            Shape::Nbt,
        ),
        _ => None,
    }
}

/// The patch one stack carries over what its type already says.
#[derive(Debug)]
pub struct Components {
    set: Vec<(ComponentType, ComponentValue)>,
    /// What the type has and this stack does not, which is how a component is taken away.
    removed: Vec<ComponentType>,
}

/// A patch, as what it sets, in order of kind, and what it takes away, in order of kind.
pub struct Patch {
    pub set: Seq<(ComponentType, Worth)>,
    pub removed: Seq<ComponentType>,
}

/// Whether kinds are in order of their numbers, each once.
pub open spec fn kinds_in_order(kinds: Seq<ComponentType>) -> bool {
    forall|a: int, b: int| 0 <= a < b < kinds.len() ==> component_id(kinds[a]) < component_id(kinds[b])
}

/// The kinds a patch sets, in order.
pub open spec fn set_kinds(set: Seq<(ComponentType, Worth)>) -> Seq<ComponentType> {
    set.map_values(|p: (ComponentType, Worth)| p.0)
}

/// What a patch sets `kind` to, if it sets it.
pub open spec fn setting(set: Seq<(ComponentType, Worth)>, kind: ComponentType) -> Option<Worth>
    decreases set.len(),
{
    if set.len() == 0 {
        None
    } else if set[0].0 == kind {
        Some(set[0].1)
    } else {
        setting(set.drop_first(), kind)
    }
}

impl View for Components {
    type V = Patch;

    closed spec fn view(&self) -> Patch {
        Patch {
            set: self.set@.map_values(|p: (ComponentType, ComponentValue)| (p.0, p.1@)),
            removed: self.removed@,
        }
    }
}

/// Where a kind goes among kinds in order: after every one with a smaller number.
pub open spec fn kind_place(kinds: Seq<ComponentType>, kind: ComponentType) -> int
    decreases kinds.len(),
{
    if kinds.len() == 0 {
        0
    } else if component_id(kinds[0]) < component_id(kind) {
        1 + kind_place(kinds.drop_first(), kind)
    } else {
        0
    }
}

/// Kinds in order with one taken out wherever it is.
pub open spec fn without_kind(kinds: Seq<ComponentType>, kind: ComponentType) -> Seq<ComponentType> {
    kinds.filter(|k: ComponentType| k != kind)
}

/// Where `kind` sits among kinds in order, found by walking them.
fn kind_position(kinds: &Vec<ComponentType>, kind: ComponentType) -> (r: (usize, bool))
    requires
        kinds_in_order(kinds@),
    ensures
        r.0 <= kinds@.len(),
        r.0 == kind_place(kinds@, kind),
        r.1 == (r.0 < kinds@.len() && kinds@[r.0 as int] == kind),
        r.1 == kinds@.contains(kind),
{
    let id = kind.id();
    let mut at: usize = 0;
    assert(kinds@.skip(0) =~= kinds@);
    while at < kinds.len() && kinds[at].id() < id
        invariant
            at <= kinds@.len(),
            id == component_id(kind),
            kinds_in_order(kinds@),
            forall|j: int| 0 <= j < at ==> component_id(#[trigger] kinds@[j]) < id,
            kind_place(kinds@, kind) == at + kind_place(kinds@.skip(at as int), kind),
        decreases kinds.len() - at,
    {
        assert(kinds@.skip(at as int)[0] == kinds@[at as int]);
        assert(kinds@.skip(at as int).drop_first() =~= kinds@.skip(at + 1));
        at = at + 1;
    }
    if at < kinds.len() {
        assert(kinds@.skip(at as int)[0] == kinds@[at as int]);
    }
    let found = at < kinds.len() && kinds[at] == kind;
    proof {
        if kinds@.contains(kind) {
            let k = choose|k: int| 0 <= k < kinds@.len() && kinds@[k] == kind;
            if k < at {
                assert(component_id(kinds@[k]) < id);
            } else if k > at {
                assert(component_id(kinds@[at as int]) < component_id(kinds@[k]));
                crate::components::lemma_component_id_injective(kinds@[at as int], kind);
            }
        }
    }
    (at, found)
}

impl Components {
    /// The patch is in order of kind and says each kind once, and no kind is both set and taken
    /// away.
    pub closed spec fn wf(&self) -> bool {
        &&& kinds_in_order(set_kinds(self@.set))
        &&& kinds_in_order(self@.removed)
        &&& forall|k: ComponentType| !(set_kinds(self@.set).contains(k) && self@.removed.contains(k))
    }

    /// Nothing beyond what the item type says.
    pub fn none() -> (r: Self)
        ensures
            r.wf(),
            r@.set == Seq::<(ComponentType, Worth)>::empty(),
            r@.removed == Seq::<ComponentType>::empty(),
    {
        let r = Components { set: Vec::new(), removed: Vec::new() };
        assert(r@.set =~= Seq::<(ComponentType, Worth)>::empty());
        r
    }

    /// Whether it says anything at all.
    pub fn is_empty(&self) -> (r: bool)
        ensures
            r == (self@.set.len() == 0 && self@.removed.len() == 0),
    {
        self.set.len() == 0 && self.removed.len() == 0
    }

    /// The kinds it sets, in order.
    fn kinds(&self) -> (r: Vec<ComponentType>)
        ensures
            r@ == set_kinds(self@.set),
    {
        let mut out: Vec<ComponentType> = Vec::new();
        let mut i: usize = 0;
        while i < self.set.len()
            invariant
                i <= self.set@.len(),
                out@ == set_kinds(self@.set).take(i as int),
            decreases self.set.len() - i,
        {
            out.push(self.set[i].0);
            i = i + 1;
            assert(out@ =~= set_kinds(self@.set).take(i as int));
        }
        assert(set_kinds(self@.set).take(i as int) =~= set_kinds(self@.set));
        out
    }

    /// Takes `kind` off the list of what is taken away, wherever it is.
    fn restore(&mut self, kind: ComponentType)
        requires
            kinds_in_order(old(self)@.removed),
        ensures
            final(self)@.set == old(self)@.set,
            final(self)@.removed == without_kind(old(self)@.removed, kind),
            kinds_in_order(final(self)@.removed),
            !final(self)@.removed.contains(kind),
            forall|k: ComponentType| k != kind ==> (final(self)@.removed.contains(k)
                <==> old(self)@.removed.contains(k)),
    {
        let ghost before = self@.removed;
        let (at, found) = kind_position(&self.removed, kind);
        if found {
            self.removed.remove(at);
            proof {
                lemma_remove_in_order(before, at as int);
            }
        } else {
            proof {
                lemma_filter_absent(before, kind);
            }
        }
    }

    /// Sets one, replacing whatever was there.
    pub fn set(&mut self, kind: ComponentType, value: ComponentValue)
        requires
            old(self).wf(),
        ensures
            final(self).wf(),
            setting(final(self)@.set, kind) == Some(value@),
            forall|k: ComponentType| k != kind ==> setting(final(self)@.set, k) == setting(
                old(self)@.set,
                k,
            ),
            final(self)@.removed == without_kind(old(self)@.removed, kind),
            !final(self)@.removed.contains(kind),
            forall|k: ComponentType| k != kind ==> (final(self)@.removed.contains(k)
                <==> old(self)@.removed.contains(k)),
    {
        self.restore(kind);
        let kinds = self.kinds();
        let (at, found) = kind_position(&kinds, kind);
        let ghost before = self@.set;
        if found {
            let _ = self.set.remove(at);
            self.set.insert(at, (kind, value));
            proof {
                assert(self@.set =~= before.update(at as int, (kind, value@)));
                lemma_setting_update(before, at as int, kind, value@);
            }
        } else {
            self.set.insert(at, (kind, value));
            proof {
                assert(self@.set =~= before.insert(at as int, (kind, value@)));
                lemma_setting_insert(before, at as int, kind, value@);
            }
        }
        proof {
            assert forall|k: ComponentType|
                !(set_kinds(self@.set).contains(k) && self@.removed.contains(k)) by {
                lemma_setting_iff(self@.set, k);
                lemma_setting_iff(before, k);
                lemma_setting_iff(old(self)@.set, k);
                if k != kind {
                    assert(setting(self@.set, k) == setting(old(self)@.set, k));
                    assert(!(set_kinds(old(self)@.set).contains(k) && old(self)@.removed.contains(
                        k,
                    )));
                }
            }
        }
    }

    /// Takes one away, which for a component the type provides means saying so outright.
    pub fn remove(&mut self, kind: ComponentType)
        requires
            old(self).wf(),
        ensures
            final(self).wf(),
            setting(final(self)@.set, kind) is None,
            forall|k: ComponentType| k != kind ==> setting(final(self)@.set, k) == setting(
                old(self)@.set,
                k,
            ),
            final(self)@.removed.contains(kind),
            forall|k: ComponentType| k != kind ==> (final(self)@.removed.contains(k)
                <==> old(self)@.removed.contains(k)),
    {
        let kinds = self.kinds();
        let (at, found) = kind_position(&kinds, kind);
        let ghost before = self@.set;
        if found {
            let _ = self.set.remove(at);
            proof {
                assert(self@.set =~= before.remove(at as int));
                lemma_setting_remove(before, at as int, kind);
            }
        } else {
            proof {
                lemma_setting_absent(before, kind);
            }
        }
        let ghost held = self@.removed;
        let (place, there) = kind_position(&self.removed, kind);
        if !there {
            self.removed.insert(place, kind);
            proof {
                lemma_insert_in_order(held, place as int, kind);
            }
        }
        proof {
            assert forall|k: ComponentType|
                !(set_kinds(self@.set).contains(k) && self@.removed.contains(k)) by {
                lemma_setting_iff(self@.set, k);
                lemma_setting_iff(before, k);
                if k != kind {
                    assert(setting(self@.set, k) == setting(before, k));
                    assert(self@.removed.contains(k) == held.contains(k));
                    assert(!(set_kinds(old(self)@.set).contains(k) && old(self)@.removed.contains(
                        k,
                    )));
                } else {
                    assert(setting(self@.set, k) is None);
                }
            }
        }
    }

    /// What one is worth on this stack, where the stack says.
    pub fn get(&self, kind: ComponentType) -> (r: Option<&ComponentValue>)
        requires
            self.wf(),
        ensures
            match setting(self@.set, kind) {
                Some(w) => r matches Some(v) && v@ == w,
                None => r is None,
            },
    {
        let kinds = self.kinds();
        let (at, found) = kind_position(&kinds, kind);
        if found {
            proof {
                lemma_setting_at(self@.set, at as int, kind);
            }
            Some(&self.set[at].1)
        } else {
            proof {
                lemma_setting_absent(self@.set, kind);
            }
            None
        }
    }

    /// How damaged it is.
    pub fn damage(&self) -> (r: i32)
        requires
            self.wf(),
        ensures
            r == match setting(self@.set, ComponentType::Damage) {
                Some(Worth::Number(d)) => d,
                _ => 0,
            },
    {
        match self.get(ComponentType::Damage) {
            Some(ComponentValue::Number(damage)) => *damage,
            _ => 0,
        }
    }

    /// Everything it is enchanted with, and how strongly, in the order it holds them: the
    /// enchantments this server knows, each as the registry gives it.
    pub fn enchantments(&self) -> (r: Vec<(Enchantment, u16)>)
        requires
            self.wf(),
        ensures
            r@.len() == known_levels(enchanted(self@.set)).len(),
            forall|i: int|
                #![trigger r@[i]]
                0 <= i < r@.len() ==> is_enchantment(r@[i].0, r@[i].0.id as int) && (
                r@[i].0.id,
                r@[i].1,
            ) == known_levels(enchanted(self@.set))[i],
    {
        let mut found: Vec<(Enchantment, u16)> = Vec::new();
        match self.get(ComponentType::Enchantments) {
            Some(ComponentValue::Enchantments(held)) => {
                let ghost all = held@;
                assert(enchanted(self@.set) == all);
                let mut i: usize = 0;
                assert(all.take(0) =~= Seq::<(u16, u16)>::empty());
                while i < held.len()
                    invariant
                        i <= held@.len(),
                        all == held@,
                        found@.len() == known_levels(all.take(i as int)).len(),
                        forall|j: int|
                            #![trigger found@[j]]
                            0 <= j < found@.len() ==> is_enchantment(
                                found@[j].0,
                                found@[j].0.id as int,
                            ) && (found@[j].0.id, found@[j].1) == known_levels(all.take(i as int))[j],
                    decreases held.len() - i,
                {
                    assert(all.take(i as int + 1).drop_last() =~= all.take(i as int));
                    assert(all.take(i as int + 1).last() == all[i as int]);
                    let (id, level) = held[i];
                    match Enchantment::from_id(id) {
                        Some(e) => {
                            found.push((e, level));
                        },
                        None => {},
                    }
                    i = i + 1;
                }
                assert(all.take(held@.len() as int) =~= all);
            },
            _ => {},
        }
        found
    }

    /// What level of the enchantment numbered `enchantment` it carries.
    pub fn enchantment(&self, enchantment: u16) -> (r: u16)
        requires
            self.wf(),
        ensures
            r == match setting(self@.set, ComponentType::Enchantments) {
                Some(Worth::Enchantments(held)) => level_in(held, enchantment),
                _ => 0,
            },
    {
        let found = self.get(ComponentType::Enchantments);
        match found {
            Some(ComponentValue::Enchantments(held)) => {
                assert(found->0@ == Worth::Enchantments(held@));
                let mut i: usize = 0;
                assert(held@.skip(0) =~= held@);
                while i < held.len()
                    invariant
                        i <= held@.len(),
                        setting(self@.set, ComponentType::Enchantments) == Some(
                            Worth::Enchantments(held@),
                        ),
                        level_in(held@, enchantment) == level_in(held@.skip(i as int), enchantment),
                    decreases held.len() - i,
                {
                    assert(held@.skip(i as int)[0] == held@[i as int]);
                    if held[i].0 == enchantment {
                        return held[i].1;
                    }
                    assert(held@.skip(i as int).drop_first() =~= held@.skip(i + 1));
                    i = i + 1;
                }
                0
            },
            _ => 0,
        }
    }

    /// Everything the stack sets, and to what, in order of kind.
    pub fn iter(&self) -> (r: Vec<(ComponentType, &ComponentValue)>)
        ensures
            r@.map_values(|p: (ComponentType, &ComponentValue)| (p.0, p.1@)) == self@.set,
    {
        let mut out: Vec<(ComponentType, &ComponentValue)> = Vec::new();
        let mut i: usize = 0;
        while i < self.set.len()
            invariant
                i <= self.set@.len(),
                out@.len() == i,
                forall|j: int|
                    0 <= j < i ==> (#[trigger] out@[j]).0 == self.set@[j].0 && *out@[j].1
                        == self.set@[j].1,
            decreases self.set.len() - i,
        {
            out.push((self.set[i].0, &self.set[i].1));
            i = i + 1;
        }
        assert(out@.map_values(|p: (ComponentType, &ComponentValue)| (p.0, p.1@)) =~= self@.set)
            by {
            assert forall|j: int| 0 <= j < out@.len() implies out@.map_values(
                |p: (ComponentType, &ComponentValue)| (p.0, p.1@),
            )[j] == self@.set[j] by {
                assert(self@.set[j] == (self.set@[j].0, self.set@[j].1@));
            }
        }
        out
    }

    /// Everything the stack sets, in order of kind.
    pub fn kinds_set(&self) -> (r: Vec<ComponentType>)
        ensures
            r@ == set_kinds(self@.set),
    {
        self.kinds()
    }

    /// Everything the stack takes away, in order of kind.
    pub fn removed(&self) -> (r: Vec<ComponentType>)
        ensures
            r@ == self@.removed,
    {
        let mut out: Vec<ComponentType> = Vec::new();
        let mut i: usize = 0;
        while i < self.removed.len()
            invariant
                i <= self.removed@.len(),
                out@ == self@.removed.take(i as int),
            decreases self.removed.len() - i,
        {
            out.push(self.removed[i]);
            i = i + 1;
            assert(out@ =~= self@.removed.take(i as int));
        }
        assert(self@.removed.take(i as int) =~= self@.removed);
        out
    }

    /// A copy of it.
    pub fn duplicate(&self) -> (r: Components)
        ensures
            r@ == self@,
            self.wf() ==> r.wf(),
    {
        let mut set: Vec<(ComponentType, ComponentValue)> = Vec::new();
        let mut i: usize = 0;
        while i < self.set.len()
            invariant
                i <= self.set@.len(),
                set@.len() == i,
                forall|j: int| 0 <= j < i ==> (#[trigger] set@[j]).0 == self.set@[j].0 && set@[j].1@
                    == self.set@[j].1@,
            decreases self.set.len() - i,
        {
            set.push((self.set[i].0, self.set[i].1.duplicate()));
            i = i + 1;
        }
        let r = Components { set, removed: self.removed() };
        assert(r@.set =~= self@.set);
        r
    }

    /// Whether two patches say the same thing.
    pub fn same_as(&self, other: &Components) -> (r: bool)
        ensures
            r == (self@.set == other@.set && self@.removed == other@.removed),
    {
        if self.set.len() != other.set.len() || self.removed.len() != other.removed.len() {
            proof {
                if self.set.len() != other.set.len() {
                    assert(self@.set.len() != other@.set.len());
                }
            }
            return false;
        }
        let mut i: usize = 0;
        while i < self.set.len()
            invariant
                self.set@.len() == other.set@.len(),
                i <= self.set@.len(),
                forall|j: int| 0 <= j < i ==> self@.set[j] == other@.set[j],
            decreases self.set.len() - i,
        {
            if self.set[i].0 != other.set[i].0 || !self.set[i].1.same_as(&other.set[i].1) {
                assert(self@.set[i as int] != other@.set[i as int]);
                return false;
            }
            assert(self@.set[i as int] == other@.set[i as int]);
            i = i + 1;
        }
        assert(self@.set =~= other@.set);
        let mut k: usize = 0;
        while k < self.removed.len()
            invariant
                self.removed@.len() == other.removed@.len(),
                k <= self.removed@.len(),
                forall|j: int| 0 <= j < k ==> self@.removed[j] == other@.removed[j],
            decreases self.removed.len() - k,
        {
            if self.removed[k] != other.removed[k] {
                return false;
            }
            k = k + 1;
        }
        assert(self@.removed =~= other@.removed);
        true
    }
}

/// What a set of settings holds of enchantments, as the pairs of number and level it lists.
pub open spec fn enchanted(set: Seq<(ComponentType, Worth)>) -> Seq<(u16, u16)> {
    match setting(set, ComponentType::Enchantments) {
        Some(Worth::Enchantments(held)) => held,
        _ => seq![],
    }
}

/// The pairs of number and level whose number names an enchantment this server knows.
pub open spec fn known_levels(held: Seq<(u16, u16)>) -> Seq<(u16, u16)>
    decreases held.len(),
{
    if held.len() == 0 {
        seq![]
    } else if held.last().0 < ENCHANTMENTS {
        known_levels(held.drop_last()).push(held.last())
    } else {
        known_levels(held.drop_last())
    }
}

/// The level an enchantment has among those held, nought where it is not held.
pub open spec fn level_in(held: Seq<(u16, u16)>, enchantment: u16) -> u16
    decreases held.len(),
{
    if held.len() == 0 {
        0
    } else if held[0].0 == enchantment {
        held[0].1
    } else {
        level_in(held.drop_first(), enchantment)
    }
}

proof fn lemma_setting_first(set: Seq<(ComponentType, Worth)>, at: int, kind: ComponentType)
    requires
        0 <= at < set.len(),
        set[at].0 == kind,
        forall|j: int| 0 <= j < at ==> set[j].0 != kind,
    ensures
        setting(set, kind) == Some(set[at].1),
    decreases at,
{
    if at > 0 {
        lemma_setting_first(set.drop_first(), at - 1, kind);
    }
}

/// In settings kept in order of kind, what a kind is set to is what the entry for it holds.
pub proof fn lemma_setting_at(set: Seq<(ComponentType, Worth)>, at: int, kind: ComponentType)
    requires
        kinds_in_order(set_kinds(set)),
        0 <= at < set.len(),
        set[at].0 == kind,
    ensures
        setting(set, kind) == Some(set[at].1),
{
    assert forall|j: int| 0 <= j < at implies set[j].0 != kind by {
        assert(component_id(set_kinds(set)[j]) < component_id(set_kinds(set)[at]));
    }
    lemma_setting_first(set, at, kind);
}

/// A patch sets a kind exactly when the kind is among those it sets.
pub proof fn lemma_setting_iff(set: Seq<(ComponentType, Worth)>, kind: ComponentType)
    ensures
        setting(set, kind) is Some <==> set_kinds(set).contains(kind),
    decreases set.len(),
{
    if set.len() > 0 {
        lemma_setting_iff(set.drop_first(), kind);
        if set_kinds(set).contains(kind) && set[0].0 != kind {
            let j = choose|j: int| 0 <= j < set_kinds(set).len() && set_kinds(set)[j] == kind;
            assert(set_kinds(set.drop_first())[j - 1] == kind);
        }
        if set[0].0 != kind && set_kinds(set.drop_first()).contains(kind) {
            let j = choose|j: int|
                0 <= j < set_kinds(set.drop_first()).len() && set_kinds(set.drop_first())[j] == kind;
            assert(set_kinds(set)[j + 1] == kind);
        }
        if set[0].0 == kind {
            assert(set_kinds(set)[0] == kind);
        }
    }
}

proof fn lemma_setting_absent(set: Seq<(ComponentType, Worth)>, kind: ComponentType)
    requires
        !set_kinds(set).contains(kind),
    ensures
        setting(set, kind) is None,
{
    lemma_setting_iff(set, kind);
}

/// Two patches in order whose kinds, with one left aside, are the same elements in the same
/// relative places, set every other kind alike.
proof fn lemma_others_alike(
    set: Seq<(ComponentType, Worth)>,
    after: Seq<(ComponentType, Worth)>,
    kind: ComponentType,
    k: ComponentType,
)
    requires
        kinds_in_order(set_kinds(set)),
        kinds_in_order(set_kinds(after)),
        k != kind,
        forall|j: int|
            0 <= j < set.len() && set[j].0 != kind ==> exists|i: int|
                0 <= i < after.len() && after[i] == set[j],
        forall|i: int|
            0 <= i < after.len() && after[i].0 != kind ==> exists|j: int|
                0 <= j < set.len() && set[j] == after[i],
    ensures
        setting(after, k) == setting(set, k),
{
    lemma_setting_iff(set, k);
    lemma_setting_iff(after, k);
    if set_kinds(set).contains(k) {
        let j = choose|j: int| 0 <= j < set_kinds(set).len() && set_kinds(set)[j] == k;
        assert(set[j].0 == k);
        let i = choose|i: int| 0 <= i < after.len() && after[i] == set[j];
        lemma_setting_at(set, j, k);
        lemma_setting_at(after, i, k);
    } else if set_kinds(after).contains(k) {
        let i = choose|i: int| 0 <= i < set_kinds(after).len() && set_kinds(after)[i] == k;
        assert(after[i].0 == k);
        let j = choose|j: int| 0 <= j < set.len() && set[j] == after[i];
        assert(set_kinds(set)[j] == k);
    }
}

proof fn lemma_setting_update(set: Seq<(ComponentType, Worth)>, at: int, kind: ComponentType, w: Worth)
    requires
        kinds_in_order(set_kinds(set)),
        0 <= at < set.len(),
        set[at].0 == kind,
    ensures
        kinds_in_order(set_kinds(set.update(at, (kind, w)))),
        setting(set.update(at, (kind, w)), kind) == Some(w),
        forall|k: ComponentType| k != kind ==> setting(set.update(at, (kind, w)), k) == setting(
            set,
            k,
        ),
{
    let after = set.update(at, (kind, w));
    assert(set_kinds(after) =~= set_kinds(set));
    lemma_setting_at(after, at, kind);
    assert forall|k: ComponentType| k != kind implies setting(after, k) == setting(set, k) by {
        assert forall|j: int| 0 <= j < set.len() && set[j].0 != kind implies exists|i: int|
            0 <= i < after.len() && after[i] == set[j] by {
            assert(after[j] == set[j]);
        }
        assert forall|i: int| 0 <= i < after.len() && after[i].0 != kind implies exists|j: int|
            0 <= j < set.len() && set[j] == after[i] by {
            assert(set[i] == after[i]);
        }
        lemma_others_alike(set, after, kind, k);
    }
}

proof fn lemma_setting_insert(set: Seq<(ComponentType, Worth)>, at: int, kind: ComponentType, w: Worth)
    requires
        kinds_in_order(set_kinds(set)),
        at == kind_place(set_kinds(set), kind),
        0 <= at <= set.len(),
        !set_kinds(set).contains(kind),
    ensures
        kinds_in_order(set_kinds(set.insert(at, (kind, w)))),
        setting(set.insert(at, (kind, w)), kind) == Some(w),
        forall|k: ComponentType| k != kind ==> setting(set.insert(at, (kind, w)), k) == setting(
            set,
            k,
        ),
{
    let after = set.insert(at, (kind, w));
    let kinds = set_kinds(set);
    lemma_kind_place(kinds, kind);
    assert(set_kinds(after) =~= kinds.insert(at, kind));
    lemma_insert_in_order(kinds, at, kind);
    lemma_setting_at(after, at, kind);
    assert forall|k: ComponentType| k != kind implies setting(after, k) == setting(set, k) by {
        assert forall|j: int| 0 <= j < set.len() && set[j].0 != kind implies exists|i: int|
            0 <= i < after.len() && after[i] == set[j] by {
            if j < at {
                assert(after[j] == set[j]);
            } else {
                assert(after[j + 1] == set[j]);
            }
        }
        assert forall|i: int| 0 <= i < after.len() && after[i].0 != kind implies exists|j: int|
            0 <= j < set.len() && set[j] == after[i] by {
            if i < at {
                assert(set[i] == after[i]);
            } else if i > at {
                assert(set[i - 1] == after[i]);
            }
        }
        lemma_others_alike(set, after, kind, k);
    }
}

proof fn lemma_setting_remove(set: Seq<(ComponentType, Worth)>, at: int, kind: ComponentType)
    requires
        kinds_in_order(set_kinds(set)),
        0 <= at < set.len(),
        set[at].0 == kind,
    ensures
        kinds_in_order(set_kinds(set.remove(at))),
        setting(set.remove(at), kind) is None,
        forall|k: ComponentType| k != kind ==> setting(set.remove(at), k) == setting(set, k),
{
    let after = set.remove(at);
    assert(set_kinds(after) =~= set_kinds(set).remove(at));
    lemma_remove_in_order(set_kinds(set), at);
    assert(!set_kinds(after).contains(kind)) by {
        if set_kinds(after).contains(kind) {
            let j = choose|j: int| 0 <= j < set_kinds(after).len() && set_kinds(after)[j] == kind;
            if j < at {
                assert(component_id(set_kinds(set)[j]) < component_id(set_kinds(set)[at]));
            } else {
                assert(component_id(set_kinds(set)[at]) < component_id(set_kinds(set)[j + 1]));
            }
        }
    }
    lemma_setting_absent(after, kind);
    assert forall|k: ComponentType| k != kind implies setting(after, k) == setting(set, k) by {
        assert forall|j: int| 0 <= j < set.len() && set[j].0 != kind implies exists|i: int|
            0 <= i < after.len() && after[i] == set[j] by {
            if j < at {
                assert(after[j] == set[j]);
            } else {
                assert(j != at);
                assert(after[j - 1] == set[j]);
            }
        }
        assert forall|i: int| 0 <= i < after.len() && after[i].0 != kind implies exists|j: int|
            0 <= j < set.len() && set[j] == after[i] by {
            if i < at {
                assert(set[i] == after[i]);
            } else {
                assert(set[i + 1] == after[i]);
            }
        }
        lemma_others_alike(set, after, kind, k);
    }
}

/// Where a kind goes among kinds in order: after every smaller one, before every larger one.
proof fn lemma_kind_place(kinds: Seq<ComponentType>, kind: ComponentType)
    requires
        kinds_in_order(kinds),
    ensures
        0 <= kind_place(kinds, kind) <= kinds.len(),
        forall|j: int| 0 <= j < kind_place(kinds, kind) ==> component_id(kinds[j]) < component_id(
            kind,
        ),
        forall|j: int|
            kind_place(kinds, kind) <= j < kinds.len() ==> component_id(kinds[j]) >= component_id(
                kind,
            ),
    decreases kinds.len(),
{
    if kinds.len() > 0 {
        lemma_kind_place(kinds.drop_first(), kind);
        if component_id(kinds[0]) < component_id(kind) {
            assert forall|j: int| 0 <= j < kind_place(kinds, kind) implies component_id(kinds[j])
                < component_id(kind) by {
                if j > 0 {
                    assert(kinds[j] == kinds.drop_first()[j - 1]);
                }
            }
            assert forall|j: int| kind_place(kinds, kind) <= j < kinds.len() implies component_id(
                kinds[j],
            ) >= component_id(kind) by {
                assert(kinds[j] == kinds.drop_first()[j - 1]);
            }
        } else {
            assert forall|j: int| 0 <= j < kinds.len() implies component_id(kinds[j])
                >= component_id(kind) by {
                if j > 0 {
                    assert(component_id(kinds[0]) < component_id(kinds[j]));
                }
            }
        }
    }
}

proof fn lemma_insert_in_order(kinds: Seq<ComponentType>, at: int, kind: ComponentType)
    requires
        kinds_in_order(kinds),
        at == kind_place(kinds, kind),
        !kinds.contains(kind),
    ensures
        kinds_in_order(kinds.insert(at, kind)),
        kinds.insert(at, kind).contains(kind),
        forall|k: ComponentType| k != kind ==> (kinds.insert(at, kind).contains(k)
            <==> kinds.contains(k)),
{
    lemma_kind_place(kinds, kind);
    let after = kinds.insert(at, kind);
    assert(after[at] == kind);
    assert forall|a: int, b: int| 0 <= a < b < after.len() implies component_id(after[a])
        < component_id(after[b]) by {
        if b < at {
        } else if a < at && b == at {
        } else if a == at {
            assert(after[b] == kinds[b - 1]);
            assert(kinds[b - 1] != kind);
            crate::components::lemma_component_id_injective(kinds[b - 1], kind);
        } else if a < at {
            assert(after[b] == kinds[b - 1]);
        } else {
            assert(after[a] == kinds[a - 1]);
            assert(after[b] == kinds[b - 1]);
        }
    }
    assert forall|k: ComponentType| k != kind implies (after.contains(k) <==> kinds.contains(k)) by {
        if after.contains(k) {
            let j = choose|j: int| 0 <= j < after.len() && after[j] == k;
            if j < at {
                assert(kinds[j] == k);
            } else {
                assert(kinds[j - 1] == k);
            }
        }
        if kinds.contains(k) {
            let j = choose|j: int| 0 <= j < kinds.len() && kinds[j] == k;
            if j < at {
                assert(after[j] == k);
            } else {
                assert(after[j + 1] == k);
            }
        }
    }
}

proof fn lemma_remove_in_order(kinds: Seq<ComponentType>, at: int)
    requires
        kinds_in_order(kinds),
        0 <= at < kinds.len(),
    ensures
        kinds_in_order(kinds.remove(at)),
        kinds.remove(at) == without_kind(kinds, kinds[at]),
{
    let after = kinds.remove(at);
    let kind = kinds[at];
    assert forall|a: int, b: int| 0 <= a < b < after.len() implies component_id(after[a])
        < component_id(after[b]) by {
        if b < at {
        } else if a < at {
            assert(after[b] == kinds[b + 1]);
        } else {
            assert(after[a] == kinds[a + 1]);
            assert(after[b] == kinds[b + 1]);
        }
    }
    lemma_filter_in_order(kinds, at);
}

proof fn lemma_filter_in_order(kinds: Seq<ComponentType>, at: int)
    requires
        kinds_in_order(kinds),
        0 <= at < kinds.len(),
    ensures
        kinds.remove(at) == without_kind(kinds, kinds[at]),
    decreases kinds.len(),
{
    let kind = kinds[at];
    reveal(Seq::filter);
    if at == kinds.len() - 1 {
        assert(kinds.drop_last() =~= kinds.remove(at));
        lemma_filter_absent(kinds.drop_last(), kind);
    } else {
        lemma_filter_in_order(kinds.drop_last(), at);
        assert(kinds.remove(at) =~= kinds.drop_last().remove(at).push(kinds.last()));
        assert(kinds.last() != kind) by {
            assert(component_id(kinds[at]) < component_id(kinds[kinds.len() - 1]));
        }
    }
}

proof fn lemma_filter_absent(kinds: Seq<ComponentType>, kind: ComponentType)
    requires
        !kinds.contains(kind),
    ensures
        without_kind(kinds, kind) == kinds,
    decreases kinds.len(),
{
    reveal(Seq::filter);
    if kinds.len() > 0 {
        lemma_filter_absent(kinds.drop_last(), kind);
        assert(kinds.drop_last().push(kinds.last()) =~= kinds);
    }
}


/// Kinds in order, sorted: every later one has a larger number than the first.
proof fn lemma_first_smallest(kinds: Seq<ComponentType>, j: int)
    requires
        kinds_in_order(kinds),
        0 < j < kinds.len(),
    ensures
        component_id(kinds[0]) < component_id(kinds[j]),
{
}

/// Two lists of kinds in order that hold the same kinds are the same list.
proof fn lemma_same_kinds_same_order(a: Seq<ComponentType>, b: Seq<ComponentType>)
    requires
        kinds_in_order(a),
        kinds_in_order(b),
        forall|k: ComponentType| a.contains(k) == b.contains(k),
    ensures
        a == b,
    decreases a.len() + b.len(),
{
    if a.len() == 0 && b.len() > 0 {
        assert(b.contains(b[0]));
    } else if b.len() == 0 && a.len() > 0 {
        assert(a.contains(a[0]));
    } else if a.len() > 0 {
        assert(a.contains(a[0]) && b.contains(b[0]));
        let i = choose|i: int| 0 <= i < b.len() && b[i] == a[0];
        let j = choose|j: int| 0 <= j < a.len() && a[j] == b[0];
        if i > 0 {
            lemma_first_smallest(b, i);
        }
        if j > 0 {
            lemma_first_smallest(a, j);
        }
        assert(i == 0 || j == 0 || false) by {
            if i > 0 && j > 0 {
                assert(component_id(b[0]) < component_id(a[0]));
                assert(component_id(a[0]) < component_id(b[0]));
            }
        }
        crate::components::lemma_component_id_injective(a[0], b[0]);
        assert(a[0] == b[0]) by {
            if i == 0 {
            } else {
                assert(j == 0);
            }
        }
        let (ra, rb) = (a.drop_first(), b.drop_first());
        assert forall|k: ComponentType| ra.contains(k) == rb.contains(k) by {
            if ra.contains(k) {
                let m = choose|m: int| 0 <= m < ra.len() && ra[m] == k;
                assert(a[m + 1] == k);
                lemma_first_smallest(a, m + 1);
                assert(k != a[0]);
                assert(b.contains(k));
                let n = choose|n: int| 0 <= n < b.len() && b[n] == k;
                assert(n != 0);
                assert(rb[n - 1] == k);
            }
            if rb.contains(k) {
                let m = choose|m: int| 0 <= m < rb.len() && rb[m] == k;
                assert(b[m + 1] == k);
                lemma_first_smallest(b, m + 1);
                assert(k != b[0]);
                assert(a.contains(k));
                let n = choose|n: int| 0 <= n < a.len() && a[n] == k;
                assert(n != 0);
                assert(ra[n - 1] == k);
            }
        }
        lemma_same_kinds_same_order(ra, rb);
        assert(a =~= seq![a[0]] + ra);
        assert(b =~= seq![b[0]] + rb);
    }
}

/// Two stacks are the same stack however their components were put on them: two well-formed
/// patches that set every kind to the same thing and take away the same kinds are one patch.
pub proof fn lemma_same_settings_same_patch(a: Patch, b: Patch)
    requires
        kinds_in_order(set_kinds(a.set)),
        kinds_in_order(set_kinds(b.set)),
        kinds_in_order(a.removed),
        kinds_in_order(b.removed),
        forall|k: ComponentType| #[trigger] setting(a.set, k) == setting(b.set, k),
        forall|k: ComponentType| #[trigger] a.removed.contains(k) == b.removed.contains(k),
    ensures
        a.set == b.set,
        a.removed == b.removed,
{
    lemma_same_kinds_same_order(a.removed, b.removed);
    assert forall|k: ComponentType| set_kinds(a.set).contains(k) == set_kinds(b.set).contains(k) by {
        lemma_setting_iff(a.set, k);
        lemma_setting_iff(b.set, k);
        assert(setting(a.set, k) == setting(b.set, k));
    }
    lemma_same_kinds_same_order(set_kinds(a.set), set_kinds(b.set));
    assert(a.set.len() == set_kinds(a.set).len());
    assert forall|i: int| 0 <= i < a.set.len() implies a.set[i] == b.set[i] by {
        assert(set_kinds(a.set)[i] == set_kinds(b.set)[i]);
        lemma_setting_at(a.set, i, a.set[i].0);
        lemma_setting_at(b.set, i, b.set[i].0);
        assert(setting(a.set, a.set[i].0) == setting(b.set, a.set[i].0));
    }
    assert(a.set =~= b.set);
}


impl Components {
    /// A well-formed patch keeps what it sets, and what it takes away, in order of kind.
    pub proof fn lemma_wf_in_order(&self)
        requires
            self.wf(),
        ensures
            kinds_in_order(set_kinds(self@.set)),
            kinds_in_order(self@.removed),
    {
    }
}


} // verus!
