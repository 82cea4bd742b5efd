//! A row of slots, and putting a stack away into it.
//!
//! Partial stacks of the same thing are filled before an empty slot is used — otherwise picking
//! up a second handful of dirt makes a second stack of it. What counts as "the same thing" is the
//! kind *and* everything the stack says about itself: a named sword does not merge into a plain
//! one.
use crate::stack_components::{Components, Patch};
use vstd::prelude::*;

verus! {

/// A kind of item, as the registry numbers it.
#[derive(Debug, Clone, Copy, PartialEq, Eq, Structural, Hash)]
pub struct ItemID(pub i32);

/// One slot's worth of items: a count, a kind, and a patch of components over what that kind
/// already says.
#[derive(Debug)]
pub struct InventorySlot {
    pub count: i32,
    pub item_id: Option<ItemID>,
    /// What this stack says that its kind does not.
    pub components: Components,
}

/// A stack, as plain values.
pub struct Stack {
    pub count: int,
    pub item_id: Option<ItemID>,
    pub components: Patch,
}

impl View for InventorySlot {
    type V = Stack;

    open spec fn view(&self) -> Stack {
        Stack { count: self.count as int, item_id: self.item_id, components: self.components@ }
    }
}

/// Whether a stack holds nothing.
pub open spec fn empty_stack(s: Stack) -> bool {
    s.count <= 0 || s.item_id is None
}

/// Whether two stacks are the same thing, and so may be merged: the same kind and the same patch.
pub open spec fn same_thing(a: Stack, b: Stack) -> bool {
    a.item_id == b.item_id && a.components.set == b.components.set && a.components.removed
        == b.components.removed
}

/// Nothing at all, as a stack.
pub open spec fn nothing() -> Stack {
    Stack {
        count: 0,
        item_id: None,
        components: Patch {
            set: Seq::empty(),
            removed: Seq::empty(),
        },
    }
}

impl InventorySlot {
    /// Nothing at all.
    pub fn empty() -> (r: Self)
        ensures
            r@ == nothing(),
            r.components.wf(),
    {
        InventorySlot { count: 0, item_id: None, components: Components::none() }
    }

    /// A plain stack of something, with nothing said about it.
    pub fn of(item: ItemID, count: i32) -> (r: Self)
        ensures
            r@ == (Stack { count: count as int, item_id: Some(item), components: nothing().components }),
            r.components.wf(),
    {
        InventorySlot { count, item_id: Some(item), components: Components::none() }
    }

    /// Whether there is anything here.
    pub fn is_empty(&self) -> (r: bool)
        ensures
            r == empty_stack(self@),
    {
        self.count <= 0 || self.item_id.is_none()
    }

    /// Whether two stacks are the same thing, and so may be merged.
    ///
    /// The same kind is not enough: a named sword and a plain one are two different things however
    /// alike they look, which is why the whole patch is compared.
    pub fn same_thing_as(&self, other: &Self) -> (r: bool)
        ensures
            r == same_thing(self@, other@),
    {
        self.item_id == other.item_id && self.components.same_as(&other.components)
    }

    /// A copy of it.
    pub fn duplicate(&self) -> (r: Self)
        ensures
            r@ == self@,
            self.components.wf() ==> r.components.wf(),
    {
        InventorySlot {
            count: self.count,
            item_id: self.item_id,
            components: self.components.duplicate(),
        }
    }
}

/// What can go wrong asking for a slot.
#[derive(Debug, Clone, Copy, PartialEq, Eq, Structural)]
pub enum InventoryError {
    /// There is no slot at that index.
    InvalidSlotIndex(usize),
    /// There is nothing in that slot.
    ItemNotFound,
    /// There is no empty slot.
    InventoryFull,
}

/// How many slots a player's inventory has: a crafting result, a two by two grid, the armour,
/// the main store, the hotbar, and the off hand last.
pub const DEFAULT_PLAYER_SIZE: usize = 46;

/// Where what is held in the other hand sits.
pub const OFFHAND_SLOT: usize = 45;

/// Where the nine hotbar slots start.
pub const HOTBAR_START: usize = 36;

/// Where the hotbar slots end.
pub const HOTBAR_END: usize = 45;

/// Where the twenty-seven main slots start.
pub const MAIN_START: usize = 9;

/// Where the main slots end.
pub const MAIN_END: usize = 36;

/// Whether a slot holds a stack of this kind.
pub open spec fn holds_kind(slot: Option<Stack>, item: ItemID) -> bool {
    match slot {
        Some(s) => s.item_id == Some(item),
        None => false,
    }
}

/// Every slot, or nothing where it is empty.
#[derive(Debug)]
pub struct Inventory {
    pub slots: Vec<Option<InventorySlot>>,
}

/// What a client has to be told about one slot: which it is, and what is in it now.
#[derive(Debug)]
pub struct SlotUpdate {
    pub slot_index: u8,
    pub slot: InventorySlot,
}

/// What a client is shown of a slot: what it holds, or an empty stack.
pub open spec fn shown_view(slot: Option<Stack>) -> Stack {
    match slot {
        Some(s) => s,
        None => nothing(),
    }
}

/// What a client is shown of a slot.
fn shown(slot: &Option<InventorySlot>) -> (r: InventorySlot)
    ensures
        r@ == shown_view(match slot {
            Some(s) => Some(s@),
            None => None,
        }),
{
    match slot {
        Some(s) => s.duplicate(),
        None => InventorySlot::empty(),
    }
}

/// What is in each slot.
pub open spec fn contents(slots: Seq<Option<InventorySlot>>) -> Seq<Option<Stack>> {
    slots.map_values(
        |s: Option<InventorySlot>|
            match s {
                Some(held) => Some(held@),
                None => None,
            },
    )
}

/// The numbers from `start` up to, not including, `end`.
pub open spec fn run(start: int, end: int) -> Seq<int> {
    Seq::new((if end > start {
        end - start
    } else {
        0
    }) as nat, |i: int| start + i)
}

/// The slots a stack is merged into, in the order vanilla looks at them: for a player, what is in
/// hand first, then the off hand, then the hotbar and the main store; anything else is a plain
/// row of slots walked in order.
pub open spec fn merge_order_of(len: int, in_hand: Option<u8>) -> Seq<int> {
    if len != DEFAULT_PLAYER_SIZE {
        run(0, len)
    } else {
        (match in_hand {
            Some(slot) => if slot < 9 {
                seq![HOTBAR_START + slot]
            } else {
                Seq::empty()
            },
            None => Seq::empty(),
        }) + seq![OFFHAND_SLOT as int] + run(HOTBAR_START as int, HOTBAR_END as int) + run(
            MAIN_START as int,
            MAIN_END as int,
        )
    }
}

/// For a player, merging looks at the held slot first where there is one, then the off hand, then
/// every hotbar slot, and every hotbar slot before any slot of the main store: so a matching stack
/// in the hotbar with room is topped up before one in the main store.
pub proof fn lemma_hotbar_before_main(in_hand: Option<u8>, h: int, m: int)
    requires
        HOTBAR_START <= h < HOTBAR_END,
        MAIN_START <= m < MAIN_END,
    ensures
        ({
            let order = merge_order_of(DEFAULT_PLAYER_SIZE as int, in_hand);
            &&& exists|p: int, q: int|
                0 <= p < q < order.len() && #[trigger] order[p] == h && #[trigger] order[q] == m
            &&& forall|p: int, q: int|
                0 <= p < order.len() && 0 <= q < order.len() && #[trigger] order[p] == h
                    && #[trigger] order[q] == m ==> p < q
            &&& in_hand matches Some(slot) ==> (slot < 9 ==> order[0] == HOTBAR_START + slot)
            &&& order.contains(OFFHAND_SLOT as int)
        }),
{
    let order = merge_order_of(DEFAULT_PLAYER_SIZE as int, in_hand);
    let first: Seq<int> = match in_hand {
        Some(slot) => if slot < 9 {
            seq![HOTBAR_START + slot]
        } else {
            Seq::empty()
        },
        None => Seq::empty(),
    };
    let hot = run(HOTBAR_START as int, HOTBAR_END as int);
    let main = run(MAIN_START as int, MAIN_END as int);
    assert(order == first + seq![OFFHAND_SLOT as int] + hot + main);
    let f = first.len() as int;
    let p = f + 1 + (h - HOTBAR_START);
    let q = f + 1 + hot.len() + (m - MAIN_START);
    assert(order[p] == hot[h - HOTBAR_START]);
    assert(order[q] == main[m - MAIN_START]);
    assert(order[f] == OFFHAND_SLOT as int);
    assert forall|p: int, q: int|
        0 <= p < order.len() && 0 <= q < order.len() && #[trigger] order[p] == h
            && #[trigger] order[q] == m implies p < q by {
        if q < f {
            assert(order[q] == first[q]);
        } else if f < q < f + 1 + hot.len() {
            assert(order[q] == hot[q - f - 1]);
        }
        if p >= f + 1 + hot.len() {
            assert(order[p] == main[p - f - 1 - hot.len()]);
        } else if f < p {
            assert(order[p] == hot[p - f - 1]);
        }
    }
}

/// The slots a stack that fitted nowhere is put into: the same order less the off hand, which is
/// topped up but never given something new.
pub open spec fn placement_order_of(len: int) -> Seq<int> {
    if len != DEFAULT_PLAYER_SIZE {
        run(0, len)
    } else {
        run(HOTBAR_START as int, HOTBAR_END as int) + run(MAIN_START as int, MAIN_END as int)
    }
}

/// Topping up the stack at `at` with what is `left` of `item`, if it is the same thing and has
/// room below `ceiling`.
pub open spec fn merge_step(
    slots: Seq<Option<Stack>>,
    at: int,
    item: Stack,
    left: int,
    ceiling: int,
) -> (Seq<Option<Stack>>, int) {
    if left <= 0 || at < 0 || at >= slots.len() {
        (slots, left)
    } else {
        match slots[at] {
            None => (slots, left),
            Some(held) => if !same_thing(held, item) || ceiling - held.count <= 0 {
                (slots, left)
            } else {
                let moved = if ceiling - held.count < left {
                    ceiling - held.count
                } else {
                    left
                };
                (slots.update(at, Some(Stack { count: held.count + moved, ..held })), left - moved)
            },
        }
    }
}

/// Topping up each slot of `order` in turn.
pub open spec fn merged(
    slots: Seq<Option<Stack>>,
    order: Seq<int>,
    item: Stack,
    left: int,
    ceiling: int,
) -> (Seq<Option<Stack>>, int)
    decreases order.len(),
{
    if order.len() == 0 {
        (slots, left)
    } else {
        let (s, l) = merged(slots, order.drop_last(), item, left, ceiling);
        merge_step(s, order.last(), item, l, ceiling)
    }
}

/// Putting as much of what is `left` of `item` as a stack holds into the slot at `at`, if it is
/// empty.
pub open spec fn place_step(
    slots: Seq<Option<Stack>>,
    at: int,
    item: Stack,
    left: int,
    ceiling: int,
) -> (Seq<Option<Stack>>, int) {
    if left <= 0 || at < 0 || at >= slots.len() || slots[at] is Some {
        (slots, left)
    } else {
        let moved = if ceiling < left {
            ceiling
        } else {
            left
        };
        (slots.update(at, Some(Stack { count: moved, ..item })), left - moved)
    }
}

/// Putting the rest into each empty slot of `order` in turn.
pub open spec fn placed(
    slots: Seq<Option<Stack>>,
    order: Seq<int>,
    item: Stack,
    left: int,
    ceiling: int,
) -> (Seq<Option<Stack>>, int)
    decreases order.len(),
{
    if order.len() == 0 {
        (slots, left)
    } else {
        let (s, l) = placed(slots, order.drop_last(), item, left, ceiling);
        place_step(s, order.last(), item, l, ceiling)
    }
}

/// What putting `item` away comes to: the slots afterwards, and how much of it would not fit.
pub open spec fn put_away(slots: Seq<Option<Stack>>, item: Stack, in_hand: Option<u8>, ceiling: int) -> (
    Seq<Option<Stack>>,
    int,
) {
    let (s1, l1) = merged(slots, merge_order_of(slots.len() as int, in_hand), item, item.count, ceiling);
    placed(s1, placement_order_of(slots.len() as int), item, l1, ceiling)
}

/// How many items the slots hold altogether.
pub open spec fn total(slots: Seq<Option<Stack>>) -> int
    decreases slots.len(),
{
    if slots.len() == 0 {
        0
    } else {
        total(slots.drop_last()) + match slots.last() {
            Some(s) => s.count,
            None => 0,
        }
    }
}

/// Whether every stack is far enough above nought that room below a ceiling can be worked out.
pub open spec fn counts_in_range(slots: Seq<Option<Stack>>, ceiling: int) -> bool {
    forall|i: int|
        0 <= i < slots.len() ==> match #[trigger] slots[i] {
            Some(s) => s.count >= ceiling - i32::MAX,
            None => true,
        }
}

/// Changing one slot changes the total by the difference.
pub proof fn lemma_total_update(slots: Seq<Option<Stack>>, at: int, new: Option<Stack>)
    requires
        0 <= at < slots.len(),
    ensures
        total(slots.update(at, new)) == total(slots) - (match slots[at] {
            Some(s) => s.count,
            None => 0,
        }) + (match new {
            Some(s) => s.count,
            None => 0,
        }),
    decreases slots.len(),
{
    let after = slots.update(at, new);
    if at == slots.len() - 1 {
        assert(after.drop_last() =~= slots.drop_last());
    } else {
        lemma_total_update(slots.drop_last(), at, new);
        assert(after.drop_last() =~= slots.drop_last().update(at, new));
    }
}

/// Topping up moves items from what is left into the slots, and loses none.
pub proof fn lemma_merged_keeps(
    slots: Seq<Option<Stack>>,
    order: Seq<int>,
    item: Stack,
    left: int,
    ceiling: int,
)
    ensures
        total(merged(slots, order, item, left, ceiling).0) + merged(slots, order, item, left, ceiling).1
            == total(slots) + left,
        merged(slots, order, item, left, ceiling).0.len() == slots.len(),
        left <= 0 ==> merged(slots, order, item, left, ceiling) == (slots, left),
    decreases order.len(),
{
    if order.len() > 0 {
        lemma_merged_keeps(slots, order.drop_last(), item, left, ceiling);
        let (s, l) = merged(slots, order.drop_last(), item, left, ceiling);
        let at = order.last();
        if !(l <= 0 || at < 0 || at >= s.len()) {
            match s[at] {
                Some(held) => if !(!same_thing(held, item) || ceiling - held.count <= 0) {
                    let moved = if ceiling - held.count < l {
                        ceiling - held.count
                    } else {
                        l
                    };
                    lemma_total_update(s, at, Some(Stack { count: held.count + moved, ..held }));
                },
                None => {},
            }
        }
    }
}

/// Putting into empty slots moves items from what is left into the slots, and loses none.
pub proof fn lemma_placed_keeps(
    slots: Seq<Option<Stack>>,
    order: Seq<int>,
    item: Stack,
    left: int,
    ceiling: int,
)
    ensures
        total(placed(slots, order, item, left, ceiling).0) + placed(slots, order, item, left, ceiling).1
            == total(slots) + left,
        placed(slots, order, item, left, ceiling).0.len() == slots.len(),
        left <= 0 ==> placed(slots, order, item, left, ceiling) == (slots, left),
    decreases order.len(),
{
    if order.len() > 0 {
        lemma_placed_keeps(slots, order.drop_last(), item, left, ceiling);
        let (s, l) = placed(slots, order.drop_last(), item, left, ceiling);
        let at = order.last();
        if !(l <= 0 || at < 0 || at >= s.len() || s[at] is Some) {
            let moved = if ceiling < l {
                ceiling
            } else {
                l
            };
            lemma_total_update(s, at, Some(Stack { count: moved, ..item }));
        }
    }
}

/// Putting a stack away loses nothing and makes nothing up: what the slots hold afterwards and
/// what comes back add up to what they held before and the stack.
pub proof fn lemma_put_away_keeps_count(
    slots: Seq<Option<Stack>>,
    item: Stack,
    in_hand: Option<u8>,
    ceiling: int,
)
    ensures
        total(put_away(slots, item, in_hand, ceiling).0) + put_away(slots, item, in_hand, ceiling).1
            == total(slots) + item.count,
        put_away(slots, item, in_hand, ceiling).0.len() == slots.len(),
{
    let order = merge_order_of(slots.len() as int, in_hand);
    lemma_merged_keeps(slots, order, item, item.count, ceiling);
    let (s1, l1) = merged(slots, order, item, item.count, ceiling);
    lemma_placed_keeps(s1, placement_order_of(slots.len() as int), item, l1, ceiling);
}

/// How many items the slots hold of the same thing as `item`.
pub open spec fn total_like(slots: Seq<Option<Stack>>, item: Stack) -> int
    decreases slots.len(),
{
    if slots.len() == 0 {
        0
    } else {
        total_like(slots.drop_last(), item) + match slots.last() {
            Some(s) => if same_thing(s, item) {
                s.count
            } else {
                0
            },
            None => 0,
        }
    }
}

/// How many of the same thing as `item` one slot holds.
pub open spec fn count_like(slot: Option<Stack>, item: Stack) -> int {
    match slot {
        Some(s) => if same_thing(s, item) {
            s.count
        } else {
            0
        },
        None => 0,
    }
}

/// Whether going from `before` to `after` changed only slots that were empty or held the same
/// thing as `item`, and left each slot it changed holding that thing, at most `ceiling` of it.
pub open spec fn changed_only_like(
    before: Seq<Option<Stack>>,
    after: Seq<Option<Stack>>,
    item: Stack,
    ceiling: int,
) -> bool {
    &&& after.len() == before.len()
    &&& forall|i: int|
        0 <= i < before.len() && #[trigger] after[i] != before[i] ==> {
            &&& after[i] is Some
            &&& same_thing(shown_view(after[i]), item)
            &&& shown_view(after[i]).count <= ceiling
            &&& (before[i] is None || same_thing(shown_view(before[i]), item))
        }
}

/// Changing one slot changes the count of `item`'s thing by the difference.
proof fn lemma_total_like_update(slots: Seq<Option<Stack>>, at: int, new: Option<Stack>, item: Stack)
    requires
        0 <= at < slots.len(),
    ensures
        total_like(slots.update(at, new), item) == total_like(slots, item) - count_like(
            slots[at],
            item,
        ) + count_like(new, item),
    decreases slots.len(),
{
    let after = slots.update(at, new);
    if at == slots.len() - 1 {
        assert(after.drop_last() =~= slots.drop_last());
    } else {
        lemma_total_like_update(slots.drop_last(), at, new, item);
        assert(after.drop_last() =~= slots.drop_last().update(at, new));
    }
}

/// Two rounds that each touch only `item`'s thing together touch only that.
proof fn lemma_changed_only_like_chain(
    a: Seq<Option<Stack>>,
    b: Seq<Option<Stack>>,
    c: Seq<Option<Stack>>,
    item: Stack,
    ceiling: int,
)
    requires
        changed_only_like(a, b, item, ceiling),
        changed_only_like(b, c, item, ceiling),
    ensures
        changed_only_like(a, c, item, ceiling),
{
    assert forall|i: int| 0 <= i < a.len() && #[trigger] c[i] != a[i] implies {
        &&& c[i] is Some
        &&& same_thing(shown_view(c[i]), item)
        &&& shown_view(c[i]).count <= ceiling
        &&& (a[i] is None || same_thing(shown_view(a[i]), item))
    } by {
        if b[i] == a[i] {
            assert(c[i] != b[i]);
        } else if c[i] != b[i] {
        }
    }
}

/// Topping up moves items of `item`'s thing from what is left into the slots, and touches
/// nothing else.
proof fn lemma_merged_by_kind(
    slots: Seq<Option<Stack>>,
    order: Seq<int>,
    item: Stack,
    left: int,
    ceiling: int,
)
    ensures
        total_like(merged(slots, order, item, left, ceiling).0, item) + merged(
            slots,
            order,
            item,
            left,
            ceiling,
        ).1 == total_like(slots, item) + left,
        changed_only_like(slots, merged(slots, order, item, left, ceiling).0, item, ceiling),
    decreases order.len(),
{
    if order.len() > 0 {
        lemma_merged_by_kind(slots, order.drop_last(), item, left, ceiling);
        let (s, l) = merged(slots, order.drop_last(), item, left, ceiling);
        let at = order.last();
        let (t, _) = merge_step(s, at, item, l, ceiling);
        if !(l <= 0 || at < 0 || at >= s.len()) {
            match s[at] {
                Some(held) => if !(!same_thing(held, item) || ceiling - held.count <= 0) {
                    let moved = if ceiling - held.count < l {
                        ceiling - held.count
                    } else {
                        l
                    };
                    let new = Some(Stack { count: held.count + moved, ..held });
                    lemma_total_like_update(s, at, new, item);
                    assert(t == s.update(at, new));
                    assert(shown_view(new) == Stack { count: held.count + moved, ..held });
                },
                None => {},
            }
        }
        assert(changed_only_like(s, t, item, ceiling));
        lemma_changed_only_like_chain(slots, s, t, item, ceiling);
    } else {
        assert(changed_only_like(slots, slots, item, ceiling));
    }
}

/// Putting into empty slots moves items of `item`'s thing from what is left into the slots, and
/// touches nothing else.
proof fn lemma_placed_by_kind(
    slots: Seq<Option<Stack>>,
    order: Seq<int>,
    item: Stack,
    left: int,
    ceiling: int,
)
    ensures
        total_like(placed(slots, order, item, left, ceiling).0, item) + placed(
            slots,
            order,
            item,
            left,
            ceiling,
        ).1 == total_like(slots, item) + left,
        changed_only_like(slots, placed(slots, order, item, left, ceiling).0, item, ceiling),
    decreases order.len(),
{
    if order.len() > 0 {
        lemma_placed_by_kind(slots, order.drop_last(), item, left, ceiling);
        let (s, l) = placed(slots, order.drop_last(), item, left, ceiling);
        let at = order.last();
        let (t, _) = place_step(s, at, item, l, ceiling);
        if !(l <= 0 || at < 0 || at >= s.len() || s[at] is Some) {
            let moved = if ceiling < l {
                ceiling
            } else {
                l
            };
            let new = Some(Stack { count: moved, ..item });
            lemma_total_like_update(s, at, new, item);
            assert(t == s.update(at, new));
            assert(shown_view(new) == Stack { count: moved, ..item });
        }
        assert(changed_only_like(s, t, item, ceiling));
        lemma_changed_only_like_chain(slots, s, t, item, ceiling);
    } else {
        assert(changed_only_like(slots, slots, item, ceiling));
    }
}

/// Putting a stack away touches only what is the same thing as it: every slot that held
/// something else holds it still, the count of that thing in the slots and what comes back add
/// up to what there was and the stack, and every slot it fills or tops up ends with at most
/// `ceiling`.
pub proof fn lemma_put_away_by_kind(
    slots: Seq<Option<Stack>>,
    item: Stack,
    in_hand: Option<u8>,
    ceiling: int,
)
    ensures
        total_like(put_away(slots, item, in_hand, ceiling).0, item) + put_away(
            slots,
            item,
            in_hand,
            ceiling,
        ).1 == total_like(slots, item) + item.count,
        changed_only_like(slots, put_away(slots, item, in_hand, ceiling).0, item, ceiling),
{
    let order = merge_order_of(slots.len() as int, in_hand);
    lemma_merged_by_kind(slots, order, item, item.count, ceiling);
    let (s1, l1) = merged(slots, order, item, item.count, ceiling);
    lemma_placed_by_kind(s1, placement_order_of(slots.len() as int), item, l1, ceiling);
    lemma_changed_only_like_chain(
        slots,
        s1,
        placed(s1, placement_order_of(slots.len() as int), item, l1, ceiling).0,
        item,
        ceiling,
    );
}

/// The slot order as a list.
fn run_of(start: usize, end: usize) -> (r: Vec<usize>)
    requires
        start <= end,
    ensures
        r@.map_values(|i: usize| i as int) == run(start as int, end as int),
{
    let mut out: Vec<usize> = Vec::new();
    let mut i = start;
    while i < end
        invariant
            start <= i <= end,
            out@.len() == i - start,
            forall|j: int| 0 <= j < out@.len() ==> out@[j] == start + j,
        decreases end - i,
    {
        out.push(i);
        i = i + 1;
    }
    assert(out@.map_values(|k: usize| k as int) =~= run(start as int, end as int));
    out
}

impl Inventory {
    /// What is in each slot.
    pub open spec fn held(&self) -> Seq<Option<Stack>> {
        contents(self.slots@)
    }

    /// An inventory of `size` empty slots.
    pub fn new(size: usize) -> (r: Self)
        ensures
            r.held() == Seq::new(size as nat, |i: int| None::<Stack>),
    {
        let mut slots: Vec<Option<InventorySlot>> = Vec::new();
        let mut i: usize = 0;
        while i < size
            invariant
                i <= size,
                slots@.len() == i,
                forall|j: int| 0 <= j < slots@.len() ==> slots@[j] is None,
            decreases size - i,
        {
            slots.push(None);
            i = i + 1;
        }
        assert(contents(slots@) =~= Seq::new(size as nat, |k: int| None::<Stack>));
        Inventory { slots }
    }

    /// Empties every slot.
    pub fn clear(&mut self)
        ensures
            final(self).held() == Seq::new(old(self).held().len(), |i: int| None::<Stack>),
    {
        let size = self.slots.len();
        let fresh = Self::new(size);
        self.slots = fresh.slots;
    }

    /// Whether any slot holds this kind of item.
    pub fn contains_item(&self, item_id: i32) -> (r: bool)
        ensures
            r == exists|i: int|
                0 <= i < self.held().len() && holds_kind(#[trigger] self.held()[i], ItemID(item_id)),
    {
        let mut i: usize = 0;
        while i < self.slots.len()
            invariant
                i <= self.slots@.len(),
                forall|j: int| 0 <= j < i ==> !holds_kind(#[trigger] self.held()[j], ItemID(item_id)),
            decreases self.slots.len() - i,
        {
            match &self.slots[i] {
                Some(slot) => match slot.item_id {
                    Some(item) => {
                        if item.0 == item_id {
                            assert(holds_kind(self.held()[i as int], ItemID(item_id)));
                            return true;
                        }
                    },
                    None => {},
                },
                None => {},
            }
            i = i + 1;
        }
        false
    }

    /// Where a stack is merged into, in order: see `merge_order_of`.
    fn merge_order(&self, in_hand: Option<u8>) -> (r: Vec<usize>)
        ensures
            r@.map_values(|i: usize| i as int) == merge_order_of(self.slots@.len() as int, in_hand),
    {
        if self.slots.len() != DEFAULT_PLAYER_SIZE {
            return run_of(0, self.slots.len());
        }
        let mut order: Vec<usize> = Vec::new();
        match in_hand {
            Some(slot) => if slot < 9 {
                order.push(HOTBAR_START + slot as usize);
            },
            None => {},
        }
        let ghost first = order@.map_values(|i: usize| i as int);
        order.push(OFFHAND_SLOT);
        let mut hotbar = run_of(HOTBAR_START, HOTBAR_END);
        let mut main = run_of(MAIN_START, MAIN_END);
        let ghost h = hotbar@;
        let ghost m = main@;
        let ghost o = order@;
        order.append(&mut hotbar);
        order.append(&mut main);
        assert(order@ =~= o + h + m);
        assert(order@.map_values(|i: usize| i as int) =~= first + seq![OFFHAND_SLOT as int] + h.map_values(
            |i: usize| i as int,
        ) + m.map_values(|i: usize| i as int));
        order
    }

    /// Where a stack that fitted nowhere is put, in order: see `placement_order_of`.
    fn placement_order(&self) -> (r: Vec<usize>)
        ensures
            r@.map_values(|i: usize| i as int) == placement_order_of(self.slots@.len() as int),
    {
        if self.slots.len() != DEFAULT_PLAYER_SIZE {
            return run_of(0, self.slots.len());
        }
        let mut order = run_of(HOTBAR_START, HOTBAR_END);
        let mut main = run_of(MAIN_START, MAIN_END);
        let ghost h = order@;
        let ghost m = main@;
        order.append(&mut main);
        assert(order@ =~= h + m);
        assert(order@.map_values(|i: usize| i as int) =~= h.map_values(|i: usize| i as int)
            + m.map_values(|i: usize| i as int));
        order
    }

    /// Tops up the stack at `at` with what is left of `item`: see `merge_step`.
    fn merge_at(&mut self, item: &mut InventorySlot, at: usize, ceiling: i32, Ghost(what): Ghost<Stack>)
        requires
            0 <= ceiling <= 255,
            same_thing(old(item)@, what),
            counts_in_range(old(self).held(), ceiling as int),
        ensures
            (final(self).held(), final(item)@.count) == merge_step(
                old(self).held(),
                at as int,
                what,
                old(item)@.count,
                ceiling as int,
            ),
            final(item)@ == (Stack { count: final(item)@.count, ..old(item)@ }),
            counts_in_range(final(self).held(), ceiling as int),
    {
        let ghost before = self.held();
        if item.count <= 0 || at >= self.slots.len() {
            return;
        }
        proof {
            assert(match before[at as int] {
                Some(s) => s.count >= ceiling - i32::MAX,
                None => true,
            });
        }
        let taken = self.slots.remove(at);
        match taken {
            Some(mut held) => {
                let ghost was = held@;
                assert(before[at as int] == Some(was));
                if held.same_thing_as(&*item) && ceiling - held.count > 0 {
                    let room = ceiling - held.count;
                    let moved = if room < item.count {
                        room
                    } else {
                        item.count
                    };
                    held.count = held.count + moved;
                    item.count = item.count - moved;
                }
                self.slots.insert(at, Some(held));
            },
            None => {
                self.slots.insert(at, None);
            },
        }
        assert(self.held() =~= merge_step(before, at as int, what, old(item)@.count, ceiling as int).0);
    }

    /// Puts as much of what is left of `item` as a stack holds into the slot at `at`, if it is
    /// empty: see `place_step`.
    fn place_at(&mut self, item: &mut InventorySlot, at: usize, ceiling: i32, Ghost(what): Ghost<Stack>)
        requires
            0 <= ceiling <= 255,
            same_thing(old(item)@, what),
        ensures
            (final(self).held(), final(item)@.count) == place_step(
                old(self).held(),
                at as int,
                what,
                old(item)@.count,
                ceiling as int,
            ),
            final(item)@ == (Stack { count: final(item)@.count, ..old(item)@ }),
    {
        let ghost before = self.held();
        if item.count <= 0 || at >= self.slots.len() || self.slots[at].is_some() {
            return;
        }
        let moved = if ceiling < item.count {
            ceiling
        } else {
            item.count
        };
        let mut put = item.duplicate();
        put.count = moved;
        let ghost it = put@;
        self.slots.set(at, Some(put));
        item.count = item.count - moved;
        assert(it == (Stack { count: moved as int, ..what }));
        assert(self.held() =~= before.update(at as int, Some(it)));
    }

    /// Puts as much of a stack away as will fit, and hands back whatever would not.
    ///
    /// `ceiling` is the most of this kind of item that fits in a slot, which is the item's own
    /// answer. Partial stacks of the same thing are filled before an empty slot is used, what is
    /// in hand first; then whatever is left goes somewhere empty, a stack at a time, never into
    /// the off hand. See `put_away`.
    pub fn add_item(&mut self, item: InventorySlot, in_hand: Option<u8>, ceiling: u8) -> (r:
        InventorySlot)
        requires
            counts_in_range(old(self).held(), ceiling as int),
        ensures
            empty_stack(item@) ==> final(self).held() == old(self).held() && r@ == nothing(),
            !empty_stack(item@) ==> ({
                let (slots, left) = put_away(old(self).held(), item@, in_hand, ceiling as int);
                &&& final(self).held() == slots
                &&& left <= 0 ==> r@ == nothing()
                &&& left > 0 ==> r@ == Stack { count: left, ..item@ }
            }),
    {
        if item.is_empty() {
            return InventorySlot::empty();
        }
        let ghost start = self.held();
        let ghost what = item@;
        let mut stack = item;
        let ceiling = ceiling as i32;
        let order = self.merge_order(in_hand);
        let ghost walk = order@.map_values(|i: usize| i as int);
        let mut i: usize = 0;
        assert(walk.take(0) =~= Seq::<int>::empty());
        while i < order.len()
            invariant
                i <= order@.len(),
                walk == order@.map_values(|k: usize| k as int),
                0 <= ceiling <= 255,
                stack@ == (Stack { count: stack@.count, ..what }),
                (self.held(), stack@.count) == merged(start, walk.take(i as int), what, what.count, ceiling as int),
                counts_in_range(self.held(), ceiling as int),
            decreases order.len() - i,
        {
            proof {
                assert(walk.take(i + 1).drop_last() =~= walk.take(i as int));
                assert(walk.take(i + 1).last() == order@[i as int] as int);
            }
            self.merge_at(&mut stack, order[i], ceiling, Ghost(what));
            i = i + 1;
        }
        assert(walk.take(order.len() as int) =~= walk);
        assert(walk == merge_order_of(start.len() as int, in_hand));
        proof {
            lemma_merged_keeps(start, walk, what, what.count, ceiling as int);
        }
        let ghost after_merge = self.held();
        let ghost left_after_merge = stack@.count;
        let places = self.placement_order();
        let ghost spots = places@.map_values(|k: usize| k as int);
        let mut j: usize = 0;
        assert(spots.take(0) =~= Seq::<int>::empty());
        while j < places.len()
            invariant
                j <= places@.len(),
                spots == places@.map_values(|k: usize| k as int),
                0 <= ceiling <= 255,
                stack@ == (Stack { count: stack@.count, ..what }),
                (self.held(), stack@.count) == placed(after_merge, spots.take(j as int), what, left_after_merge, ceiling as int),
            decreases places.len() - j,
        {
            proof {
                assert(spots.take(j + 1).drop_last() =~= spots.take(j as int));
                assert(spots.take(j + 1).last() == places@[j as int] as int);
            }
            self.place_at(&mut stack, places[j], ceiling, Ghost(what));
            j = j + 1;
        }
        assert(spots.take(places.len() as int) =~= spots);
        assert(spots == placement_order_of(start.len() as int));
        if stack.count <= 0 {
            InventorySlot::empty()
        } else {
            stack
        }
    }

    /// Puts a stack into one slot, whatever was there.
    pub fn set_item(&mut self, index: usize, item: InventorySlot) -> (r: Result<(), InventoryError>)
        ensures
            index >= old(self).held().len() ==> r == Err::<(), InventoryError>(
                InventoryError::InvalidSlotIndex(index),
            ) && final(self).held() == old(self).held(),
            index < old(self).held().len() ==> r is Ok && final(self).held() == old(self).held().update(
                index as int,
                Some(item@),
            ),
    {
        if index >= self.slots.len() {
            return Err(InventoryError::InvalidSlotIndex(index));
        }
        let ghost before = self.held();
        let ghost it = item@;
        self.slots.set(index, Some(item));
        assert(self.held() =~= before.update(index as int, Some(it)));
        Ok(())
    }

    /// What is in one slot.
    pub fn get_item(&self, index: usize) -> (r: Result<Option<&InventorySlot>, InventoryError>)
        ensures
            index >= self.held().len() ==> r == Err::<Option<&InventorySlot>, InventoryError>(
                InventoryError::InvalidSlotIndex(index),
            ),
            index < self.held().len() ==> (r matches Ok(found) && match found {
                Some(s) => self.held()[index as int] == Some(s@),
                None => self.held()[index as int] is None,
            }),
    {
        if index >= self.slots.len() {
            return Err(InventoryError::InvalidSlotIndex(index));
        }
        match &self.slots[index] {
            Some(slot) => Ok(Some(slot)),
            None => Ok(None),
        }
    }

    /// Empties one slot that holds something.
    pub fn remove_item(&mut self, index: usize) -> (r: Result<(), InventoryError>)
        ensures
            index >= old(self).held().len() ==> r == Err::<(), InventoryError>(
                InventoryError::InvalidSlotIndex(index),
            ) && final(self).held() == old(self).held(),
            index < old(self).held().len() && old(self).held()[index as int] is None ==> r == Err::<
                (),
                InventoryError,
            >(InventoryError::ItemNotFound) && final(self).held() == old(self).held(),
            index < old(self).held().len() && old(self).held()[index as int] is Some ==> r is Ok
                && final(self).held() == old(self).held().update(index as int, None),
    {
        if index >= self.slots.len() {
            return Err(InventoryError::InvalidSlotIndex(index));
        }
        if self.slots[index].is_none() {
            return Err(InventoryError::ItemNotFound);
        }
        let ghost before = self.held();
        self.slots.set(index, None);
        assert(self.held() =~= before.update(index as int, None));
        Ok(())
    }

    /// The first slot that holds this kind of item.
    pub fn find_item(&self, item_id: ItemID) -> (r: Option<usize>)
        ensures
            match r {
                Some(i) => i < self.held().len() && holds_kind(self.held()[i as int], item_id)
                    && forall|j: int| 0 <= j < i ==> !holds_kind(#[trigger] self.held()[j], item_id),
                None => forall|j: int|
                    0 <= j < self.held().len() ==> !holds_kind(#[trigger] self.held()[j], item_id),
            },
    {
        let mut i: usize = 0;
        while i < self.slots.len()
            invariant
                i <= self.slots@.len(),
                forall|j: int| 0 <= j < i ==> !holds_kind(#[trigger] self.held()[j], item_id),
            decreases self.slots.len() - i,
        {
            match &self.slots[i] {
                Some(slot) => {
                    if slot.item_id == Some(item_id) {
                        return Some(i);
                    }
                },
                None => {},
            }
            i = i + 1;
        }
        None
    }

    /// Puts a stack into the first empty slot, and says what a client has to be told. Unlike
    /// `add_item`, this neither merges with a stack already there nor splits one that is too big.
    pub fn add_item_with_update(&mut self, item: InventorySlot) -> (r: Result<
        SlotUpdate,
        InventoryError,
    >)
        ensures
            match r {
                Ok(update) => exists|i: int|
                    0 <= i < old(self).held().len() && old(self).held()[i] is None && (forall|j: int|
                        0 <= j < i ==> #[trigger] old(self).held()[j] is Some) && update.slot_index
                        == i as u8 && update.slot@ == item@ && final(self).held() == old(
                        self,
                    ).held().update(i, Some(item@)),
                Err(e) => e == InventoryError::InventoryFull && (forall|j: int|
                    0 <= j < old(self).held().len() ==> #[trigger] old(self).held()[j] is Some)
                    && final(self).held() == old(self).held(),
            },
    {
        let mut i: usize = 0;
        while i < self.slots.len()
            invariant
                i <= self.slots@.len(),
                self.held() == old(self).held(),
                forall|j: int| 0 <= j < i ==> #[trigger] self.held()[j] is Some,
            decreases self.slots.len() - i,
        {
            if self.slots[i].is_none() {
                let ghost before = self.held();
                let ghost it = item@;
                let told = item.duplicate();
                self.slots.set(i, Some(item));
                assert(self.held() =~= before.update(i as int, Some(it)));
                return Ok(SlotUpdate { slot_index: i as u8, slot: told });
            }
            i = i + 1;
        }
        Err(InventoryError::InventoryFull)
    }

    /// Puts a stack into one slot, whatever was there, and says what a client has to be told.
    pub fn set_item_with_update(&mut self, index: usize, item: InventorySlot) -> (r: Result<
        SlotUpdate,
        InventoryError,
    >)
        ensures
            index >= old(self).held().len() ==> (r matches Err(e) && e
                == InventoryError::InvalidSlotIndex(index) && final(self).held() == old(self).held()),
            index < old(self).held().len() ==> (r matches Ok(update) && update.slot_index
                == index as u8 && update.slot@ == item@ && final(self).held() == old(
                self,
            ).held().update(index as int, Some(item@))),
    {
        if index >= self.slots.len() {
            return Err(InventoryError::InvalidSlotIndex(index));
        }
        let ghost before = self.held();
        let ghost it = item@;
        let told = item.duplicate();
        self.slots.set(index, Some(item));
        assert(self.held() =~= before.update(index as int, Some(it)));
        Ok(SlotUpdate { slot_index: index as u8, slot: told })
    }

    /// Empties one slot that holds something, and says what a client has to be told.
    pub fn remove_item_with_update(&mut self, index: usize) -> (r: Result<
        SlotUpdate,
        InventoryError,
    >)
        ensures
            index >= old(self).held().len() ==> (r matches Err(e) && e
                == InventoryError::InvalidSlotIndex(index) && final(self).held() == old(self).held()),
            index < old(self).held().len() && old(self).held()[index as int] is None ==> (r matches Err(
                e,
            ) && e == InventoryError::ItemNotFound && final(self).held() == old(self).held()),
            index < old(self).held().len() && old(self).held()[index as int] is Some ==> (r matches Ok(
                update,
            ) && update.slot_index == index as u8 && update.slot@ == nothing() && final(self).held()
                == old(self).held().update(index as int, None)),
    {
        if index >= self.slots.len() {
            return Err(InventoryError::InvalidSlotIndex(index));
        }
        if self.slots[index].is_none() {
            return Err(InventoryError::ItemNotFound);
        }
        let ghost before = self.held();
        self.slots.set(index, None);
        assert(self.held() =~= before.update(index as int, None));
        Ok(SlotUpdate { slot_index: index as u8, slot: InventorySlot::empty() })
    }

    /// Empties one slot, whether or not it held anything, and says what a client has to be told:
    /// a client is told even of a slot that was empty already.
    pub fn clear_slot_with_update(&mut self, index: usize) -> (r: Result<
        SlotUpdate,
        InventoryError,
    >)
        ensures
            index >= old(self).held().len() ==> (r matches Err(e) && e
                == InventoryError::InvalidSlotIndex(index) && final(self).held() == old(self).held()),
            index < old(self).held().len() ==> (r matches Ok(update) && update.slot_index
                == index as u8 && update.slot@ == nothing() && final(self).held() == old(
                self,
            ).held().update(index as int, None)),
    {
        if index >= self.slots.len() {
            return Err(InventoryError::InvalidSlotIndex(index));
        }
        let ghost before = self.held();
        self.slots.set(index, None);
        assert(self.held() =~= before.update(index as int, None));
        Ok(SlotUpdate { slot_index: index as u8, slot: InventorySlot::empty() })
    }

    /// Swaps two slots, and says what a client has to be told: nothing where the two are one
    /// slot, and each slot's new contents otherwise.
    pub fn swap_slots_with_update(&mut self, index_a: usize, index_b: usize) -> (r: Result<
        Vec<SlotUpdate>,
        InventoryError,
    >)
        ensures
            index_a >= old(self).held().len() ==> (r matches Err(e) && e
                == InventoryError::InvalidSlotIndex(index_a) && final(self).held() == old(
                self,
            ).held()),
            index_a < old(self).held().len() && index_b >= old(self).held().len() ==> (r matches Err(
                e,
            ) && e == InventoryError::InvalidSlotIndex(index_b) && final(self).held() == old(
                self,
            ).held()),
            index_a < old(self).held().len() && index_b < old(self).held().len() && index_a
                == index_b ==> (r matches Ok(updates) && updates@.len() == 0 && final(self).held()
                == old(self).held()),
            index_a < old(self).held().len() && index_b < old(self).held().len() && index_a
                != index_b ==> (r matches Ok(updates) && updates@.len() == 2 && updates@[0].slot_index
                == index_a as u8 && updates@[0].slot@ == shown_view(old(self).held()[index_b as int])
                && updates@[1].slot_index == index_b as u8 && updates@[1].slot@ == shown_view(
                old(self).held()[index_a as int],
            ) && final(self).held() == old(self).held().update(
                index_a as int,
                old(self).held()[index_b as int],
            ).update(index_b as int, old(self).held()[index_a as int])),
    {
        if index_a >= self.slots.len() {
            return Err(InventoryError::InvalidSlotIndex(index_a));
        }
        if index_b >= self.slots.len() {
            return Err(InventoryError::InvalidSlotIndex(index_b));
        }
        if index_a == index_b {
            return Ok(Vec::new());
        }
        let ghost before = self.held();
        let mut held_a: Option<InventorySlot> = None;
        self.slots.set_and_swap(index_a, &mut held_a);
        let mut held_b: Option<InventorySlot> = None;
        self.slots.set_and_swap(index_b, &mut held_b);
        let shown_a = shown(&held_b);
        let shown_b = shown(&held_a);
        self.slots.set(index_a, held_b);
        self.slots.set(index_b, held_a);
        assert(self.held() =~= before.update(index_a as int, before[index_b as int]).update(
            index_b as int,
            before[index_a as int],
        ));
        let mut updates: Vec<SlotUpdate> = Vec::new();
        updates.push(SlotUpdate { slot_index: index_a as u8, slot: shown_a });
        updates.push(SlotUpdate { slot_index: index_b as u8, slot: shown_b });
        Ok(updates)
    }
}

} // verus!
