//! What tells an advancement that something happened.
//!
//! A criterion names a trigger and the conditions the event has to meet. Gameplay fires a trigger,
//! every criterion listening for it is offered the event, and the ones whose conditions hold are
//! granted. Most of the game's triggers need gameplay that does not exist here yet: those are read,
//! so an advancement carrying one still loads, and they never fire.
use crate::json::Json;
use crate::text::{same_text, strip_default_namespace, without_default_namespace};
use vstd::prelude::*;

verus! {

/// The event a criterion is waiting for.
#[derive(Debug, Clone, Copy, PartialEq, Eq)]
pub enum Trigger {
    /// Never happens. Vanilla uses it for the roots of trees that are shown but never earned.
    Impossible,
    /// Every tick, for a criterion that only wants the player to exist.
    Tick,
    /// What the player is carrying changed.
    InventoryChanged,
    /// One whose gameplay does not exist yet. Never fires.
    NotYet(&'static str),
}

/// Every trigger the game has whose gameplay does not exist here yet, so one that does not fire
/// is still told apart from one that does not exist.
pub open spec fn not_yet_triggers() -> Seq<Seq<char>> {
    seq!["player_killed_entity"@, "entity_killed_player"@, "enter_block"@, "recipe_unlocked"@, "player_hurt_entity"@, "entity_hurt_player"@, "enchanted_item"@, "filled_bucket"@, "brewed_potion"@, "construct_beacon"@, "used_ender_eye"@, "summoned_entity"@, "bred_animals"@, "location"@, "slept_in_bed"@, "cured_zombie_villager"@, "villager_trade"@, "item_durability_changed"@, "levitation"@, "changed_dimension"@, "tame_animal"@, "placed_block"@, "consume_item"@, "effects_changed"@, "used_totem"@, "nether_travel"@, "fishing_rod_hooked"@, "channeled_lightning"@, "shot_crossbow"@, "spear_mobs"@, "killed_by_arrow"@, "hero_of_the_village"@, "voluntary_exile"@, "slide_down_block"@, "bee_nest_destroyed"@, "target_hit"@, "item_used_on_block"@, "default_block_use"@, "any_block_use"@, "player_generates_container_loot"@, "thrown_item_picked_up_by_entity"@, "thrown_item_picked_up_by_player"@, "player_interacted_with_entity"@, "player_sheared_equipment"@, "started_riding"@, "lightning_strike"@, "using_item"@, "fall_from_height"@, "ride_entity_in_lava"@, "kill_mob_near_sculk_catalyst"@, "allay_drop_item_on_block"@, "avoid_vibration"@, "recipe_crafted"@, "crafter_recipe_crafted"@, "fall_after_explosion"@]
}

/// Which of the triggers that do not fire yet `name` is, if it is one.
pub fn known_trigger(name: &str) -> (r: Option<&'static str>)
    ensures
        match r {
            Some(k) => k@ == name@ && not_yet_triggers().contains(name@),
            None => !not_yet_triggers().contains(name@),
        },
{
    if same_text(name, "player_killed_entity") {
        proof {
            assert(not_yet_triggers()[0] == name@);
        }
        return Some("player_killed_entity");
    }
    if same_text(name, "entity_killed_player") {
        proof {
            assert(not_yet_triggers()[1] == name@);
        }
        return Some("entity_killed_player");
    }
    if same_text(name, "enter_block") {
        proof {
            assert(not_yet_triggers()[2] == name@);
        }
        return Some("enter_block");
    }
    if same_text(name, "recipe_unlocked") {
        proof {
            assert(not_yet_triggers()[3] == name@);
        }
        return Some("recipe_unlocked");
    }
    if same_text(name, "player_hurt_entity") {
        proof {
            assert(not_yet_triggers()[4] == name@);
        }
        return Some("player_hurt_entity");
    }
    if same_text(name, "entity_hurt_player") {
        proof {
            assert(not_yet_triggers()[5] == name@);
        }
        return Some("entity_hurt_player");
    }
    if same_text(name, "enchanted_item") {
        proof {
            assert(not_yet_triggers()[6] == name@);
        }
        return Some("enchanted_item");
    }
    if same_text(name, "filled_bucket") {
        proof {
            assert(not_yet_triggers()[7] == name@);
        }
        return Some("filled_bucket");
    }
    if same_text(name, "brewed_potion") {
        proof {
            assert(not_yet_triggers()[8] == name@);
        }
        return Some("brewed_potion");
    }
    if same_text(name, "construct_beacon") {
        proof {
            assert(not_yet_triggers()[9] == name@);
        }
        return Some("construct_beacon");
    }
    if same_text(name, "used_ender_eye") {
        proof {
            assert(not_yet_triggers()[10] == name@);
        }
        return Some("used_ender_eye");
    }
    if same_text(name, "summoned_entity") {
        proof {
            assert(not_yet_triggers()[11] == name@);
        }
        return Some("summoned_entity");
    }
    if same_text(name, "bred_animals") {
        proof {
            assert(not_yet_triggers()[12] == name@);
        }
        return Some("bred_animals");
    }
    if same_text(name, "location") {
        proof {
            assert(not_yet_triggers()[13] == name@);
        }
        return Some("location");
    }
    if same_text(name, "slept_in_bed") {
        proof {
            assert(not_yet_triggers()[14] == name@);
        }
        return Some("slept_in_bed");
    }
    if same_text(name, "cured_zombie_villager") {
        proof {
            assert(not_yet_triggers()[15] == name@);
        }
        return Some("cured_zombie_villager");
    }
    if same_text(name, "villager_trade") {
        proof {
            assert(not_yet_triggers()[16] == name@);
        }
        return Some("villager_trade");
    }
    if same_text(name, "item_durability_changed") {
        proof {
            assert(not_yet_triggers()[17] == name@);
        }
        return Some("item_durability_changed");
    }
    if same_text(name, "levitation") {
        proof {
            assert(not_yet_triggers()[18] == name@);
        }
        return Some("levitation");
    }
    if same_text(name, "changed_dimension") {
        proof {
            assert(not_yet_triggers()[19] == name@);
        }
        return Some("changed_dimension");
    }
    if same_text(name, "tame_animal") {
        proof {
            assert(not_yet_triggers()[20] == name@);
        }
        return Some("tame_animal");
    }
    if same_text(name, "placed_block") {
        proof {
            assert(not_yet_triggers()[21] == name@);
        }
        return Some("placed_block");
    }
    if same_text(name, "consume_item") {
        proof {
            assert(not_yet_triggers()[22] == name@);
        }
        return Some("consume_item");
    }
    if same_text(name, "effects_changed") {
        proof {
            assert(not_yet_triggers()[23] == name@);
        }
        return Some("effects_changed");
    }
    if same_text(name, "used_totem") {
        proof {
            assert(not_yet_triggers()[24] == name@);
        }
        return Some("used_totem");
    }
    if same_text(name, "nether_travel") {
        proof {
            assert(not_yet_triggers()[25] == name@);
        }
        return Some("nether_travel");
    }
    if same_text(name, "fishing_rod_hooked") {
        proof {
            assert(not_yet_triggers()[26] == name@);
        }
        return Some("fishing_rod_hooked");
    }
    if same_text(name, "channeled_lightning") {
        proof {
            assert(not_yet_triggers()[27] == name@);
        }
        return Some("channeled_lightning");
    }
    if same_text(name, "shot_crossbow") {
        proof {
            assert(not_yet_triggers()[28] == name@);
        }
        return Some("shot_crossbow");
    }
    if same_text(name, "spear_mobs") {
        proof {
            assert(not_yet_triggers()[29] == name@);
        }
        return Some("spear_mobs");
    }
    if same_text(name, "killed_by_arrow") {
        proof {
            assert(not_yet_triggers()[30] == name@);
        }
        return Some("killed_by_arrow");
    }
    if same_text(name, "hero_of_the_village") {
        proof {
            assert(not_yet_triggers()[31] == name@);
        }
        return Some("hero_of_the_village");
    }
    if same_text(name, "voluntary_exile") {
        proof {
            assert(not_yet_triggers()[32] == name@);
        }
        return Some("voluntary_exile");
    }
    if same_text(name, "slide_down_block") {
        proof {
            assert(not_yet_triggers()[33] == name@);
        }
        return Some("slide_down_block");
    }
    if same_text(name, "bee_nest_destroyed") {
        proof {
            assert(not_yet_triggers()[34] == name@);
        }
        return Some("bee_nest_destroyed");
    }
    if same_text(name, "target_hit") {
        proof {
            assert(not_yet_triggers()[35] == name@);
        }
        return Some("target_hit");
    }
    if same_text(name, "item_used_on_block") {
        proof {
            assert(not_yet_triggers()[36] == name@);
        }
        return Some("item_used_on_block");
    }
    if same_text(name, "default_block_use") {
        proof {
            assert(not_yet_triggers()[37] == name@);
        }
        return Some("default_block_use");
    }
    if same_text(name, "any_block_use") {
        proof {
            assert(not_yet_triggers()[38] == name@);
        }
        return Some("any_block_use");
    }
    if same_text(name, "player_generates_container_loot") {
        proof {
            assert(not_yet_triggers()[39] == name@);
        }
        return Some("player_generates_container_loot");
    }
    if same_text(name, "thrown_item_picked_up_by_entity") {
        proof {
            assert(not_yet_triggers()[40] == name@);
        }
        return Some("thrown_item_picked_up_by_entity");
    }
    if same_text(name, "thrown_item_picked_up_by_player") {
        proof {
            assert(not_yet_triggers()[41] == name@);
        }
        return Some("thrown_item_picked_up_by_player");
    }
    if same_text(name, "player_interacted_with_entity") {
        proof {
            assert(not_yet_triggers()[42] == name@);
        }
        return Some("player_interacted_with_entity");
    }
    if same_text(name, "player_sheared_equipment") {
        proof {
            assert(not_yet_triggers()[43] == name@);
        }
        return Some("player_sheared_equipment");
    }
    if same_text(name, "started_riding") {
        proof {
            assert(not_yet_triggers()[44] == name@);
        }
        return Some("started_riding");
    }
    if same_text(name, "lightning_strike") {
        proof {
            assert(not_yet_triggers()[45] == name@);
        }
        return Some("lightning_strike");
    }
    if same_text(name, "using_item") {
        proof {
            assert(not_yet_triggers()[46] == name@);
        }
        return Some("using_item");
    }
    if same_text(name, "fall_from_height") {
        proof {
            assert(not_yet_triggers()[47] == name@);
        }
        return Some("fall_from_height");
    }
    if same_text(name, "ride_entity_in_lava") {
        proof {
            assert(not_yet_triggers()[48] == name@);
        }
        return Some("ride_entity_in_lava");
    }
    if same_text(name, "kill_mob_near_sculk_catalyst") {
        proof {
            assert(not_yet_triggers()[49] == name@);
        }
        return Some("kill_mob_near_sculk_catalyst");
    }
    if same_text(name, "allay_drop_item_on_block") {
        proof {
            assert(not_yet_triggers()[50] == name@);
        }
        return Some("allay_drop_item_on_block");
    }
    if same_text(name, "avoid_vibration") {
        proof {
            assert(not_yet_triggers()[51] == name@);
        }
        return Some("avoid_vibration");
    }
    if same_text(name, "recipe_crafted") {
        proof {
            assert(not_yet_triggers()[52] == name@);
        }
        return Some("recipe_crafted");
    }
    if same_text(name, "crafter_recipe_crafted") {
        proof {
            assert(not_yet_triggers()[53] == name@);
        }
        return Some("crafter_recipe_crafted");
    }
    if same_text(name, "fall_after_explosion") {
        proof {
            assert(not_yet_triggers()[54] == name@);
        }
        return Some("fall_after_explosion");
    }
    proof {
        assert forall|i: int| 0 <= i < not_yet_triggers().len() implies not_yet_triggers()[i]
            != name@ by {
        }
    }
    None
}

/// What a criterion's `trigger` field reads as.
pub enum Reading {
    Impossible,
    Tick,
    InventoryChanged,
    /// One of the triggers that do not fire yet, by its name.
    NotYet(Seq<char>),
    /// There is no trigger named.
    NoTrigger,
    /// The trigger named, as it was written, does not exist.
    Unknown(Seq<char>),
}

/// What a criterion written as `value` waits for: its `trigger`, with or without the
/// `minecraft:` namespace.
pub open spec fn reading_of(value: Json) -> Reading {
    match value.field("trigger"@) {
        Some(t) => match t.text_value() {
            Some(name) => {
                let bare = strip_default_namespace(name);
                if bare == "impossible"@ {
                    Reading::Impossible
                } else if bare == "tick"@ {
                    Reading::Tick
                } else if bare == "inventory_changed"@ {
                    Reading::InventoryChanged
                } else if not_yet_triggers().contains(bare) {
                    Reading::NotYet(bare)
                } else {
                    Reading::Unknown(name)
                }
            },
            None => Reading::NoTrigger,
        },
        None => Reading::NoTrigger,
    }
}

/// What a trigger reads as.
pub open spec fn reads_as(t: Trigger) -> Reading {
    match t {
        Trigger::Impossible => Reading::Impossible,
        Trigger::Tick => Reading::Tick,
        Trigger::InventoryChanged => Reading::InventoryChanged,
        Trigger::NotYet(name) => Reading::NotYet(name@),
    }
}

/// Reads the trigger of a criterion written as `value`: the trigger, or — where it names one
/// that does not exist — the name as written, or nothing where it names none.
pub fn read_trigger(value: &Json) -> (r: Result<Trigger, Option<String>>)
    ensures
        match reading_of(*value) {
            Reading::NoTrigger => r == Err::<Trigger, Option<String>>(None),
            Reading::Unknown(name) => r matches Err(Some(s)) && s@ == name,
            reading => r matches Ok(t) && reads_as(t) == reading,
        },
{
    let name = match value.get("trigger") {
        Some(t) => match t.as_str() {
            Some(name) => name,
            None => return Err(None),
        },
        None => return Err(None),
    };
    let bare = without_default_namespace(name);
    if same_text(bare, "impossible") {
        Ok(Trigger::Impossible)
    } else if same_text(bare, "tick") {
        Ok(Trigger::Tick)
    } else if same_text(bare, "inventory_changed") {
        Ok(Trigger::InventoryChanged)
    } else {
        match known_trigger(bare) {
            Some(known) => Ok(Trigger::NotYet(known)),
            None => Err(Some(String::from_str(name))),
        }
    }
}

/// What a player is carrying, as much of it as a criterion reads.
pub struct Carried<'a> {
    /// Every slot, nothing where it is empty, as an item's registry id and how many.
    pub slots: &'a [Option<(i32, i32)>],
}

/// How many of the slots hold something.
pub open spec fn occupied_in(slots: Seq<Option<(i32, i32)>>) -> int
    decreases slots.len(),
{
    if slots.len() == 0 {
        0
    } else {
        occupied_in(slots.drop_last()) + if slots.last() is Some {
            1int
        } else {
            0int
        }
    }
}

/// How many of the slots hold a full stack: vanilla counts a slot full at the item's own largest
/// stack, which nothing here carries, so only a stack of the most a slot holds, 64, counts.
pub open spec fn full_in(slots: Seq<Option<(i32, i32)>>) -> int
    decreases slots.len(),
{
    if slots.len() == 0 {
        0
    } else {
        full_in(slots.drop_last()) + match slots.last() {
            Some((_, count)) => if count >= 64 {
                1int
            } else {
                0int
            },
            None => 0int,
        }
    }
}

proof fn lemma_occupied_bounded(slots: Seq<Option<(i32, i32)>>)
    ensures
        0 <= occupied_in(slots) <= slots.len(),
    decreases slots.len(),
{
    if slots.len() > 0 {
        lemma_occupied_bounded(slots.drop_last());
    }
}

impl<'a> Carried<'a> {
    /// How many slots hold something.
    pub fn occupied(&self) -> (r: usize)
        ensures
            r == occupied_in(self.slots@),
    {
        let mut count: usize = 0;
        let mut i: usize = 0;
        assert(self.slots@.take(0) =~= Seq::<Option<(i32, i32)>>::empty());
        while i < self.slots.len()
            invariant
                i <= self.slots@.len(),
                count == occupied_in(self.slots@.take(i as int)),
                count <= i,
            decreases self.slots.len() - i,
        {
            assert(self.slots@.take(i + 1).drop_last() =~= self.slots@.take(i as int));
            if self.slots[i].is_some() {
                count = count + 1;
            }
            i = i + 1;
        }
        assert(self.slots@.take(i as int) =~= self.slots@);
        count
    }

    /// How many slots hold a full stack.
    pub fn full(&self) -> (r: usize)
        ensures
            r == full_in(self.slots@),
    {
        let mut count: usize = 0;
        let mut i: usize = 0;
        assert(self.slots@.take(0) =~= Seq::<Option<(i32, i32)>>::empty());
        while i < self.slots.len()
            invariant
                i <= self.slots@.len(),
                count == full_in(self.slots@.take(i as int)),
                count <= i,
            decreases self.slots.len() - i,
        {
            assert(self.slots@.take(i + 1).drop_last() =~= self.slots@.take(i as int));
            match self.slots[i] {
                Some((_, held)) => if held >= 64 {
                    count = count + 1;
                },
                None => {},
            }
            i = i + 1;
        }
        assert(self.slots@.take(i as int) =~= self.slots@);
        count
    }

    /// How many slots are empty.
    pub fn empty(&self) -> (r: usize)
        ensures
            r == self.slots@.len() - occupied_in(self.slots@),
    {
        proof {
            lemma_occupied_bounded(self.slots@);
        }
        self.slots.len() - self.occupied()
    }
}

} // verus!

