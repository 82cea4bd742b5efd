use ferrumc::trigger::Carried;
use ferrumc::advancements::{
    Advancement, AdvancementError, Advancements, Criterion, DisplayInfo, Frame, Requirements,
};
use ferrumc::identifier::Identifier;
use ferrumc::json::{Json, JsonNumber};
use ferrumc::manager::Resource;
use ferrumc::progress::{AdvancementProgress, Award, PlayerAdvancements};
use ferrumc::trigger::Trigger;

/// A `serde_json` value as the library's own.
fn plain(value: &serde_json::Value) -> Json {
    match value {
        serde_json::Value::Null => Json::Null,
        serde_json::Value::Bool(b) => Json::Bool(*b),
        serde_json::Value::Number(n) => Json::Number(JsonNumber {
            as_i64: n.as_i64(),
            as_u64: n.as_u64(),
        }),
        serde_json::Value::String(s) => Json::String(s.clone()),
        serde_json::Value::Array(items) => Json::Array(items.iter().map(plain).collect()),
        serde_json::Value::Object(members) => Json::Object(
            members
                .iter()
                .map(|(k, v)| (k.clone(), plain(v)))
                .collect(),
        ),
    }
}

fn json(text: &str) -> Json {
    plain(&serde_json::from_str(text).expect("the test's own json"))
}

fn no_items(_: &str) -> Option<i32> {
    None
}

fn grass_only(name: &str) -> Option<i32> {
    if name == "minecraft:grass_block" {
        Some(27)
    } else {
        None
    }
}

/// The game's own file for the root of the story tree.
const STORY_ROOT: &str = r#"{
  "criteria": {
    "crafting_table": {
      "conditions": {"items": [{"items": "minecraft:crafting_table"}]},
      "trigger": "minecraft:inventory_changed"
    }
  },
  "display": {
    "announce_to_chat": false,
    "background": "minecraft:gui/advancements/backgrounds/stone",
    "description": {"translate": "advancements.story.root.description"},
    "icon": {"count": 1, "id": "minecraft:grass_block"},
    "show_toast": false,
    "title": {"translate": "advancements.story.root.title"}
  },
  "requirements": [["crafting_table"]],
  "sends_telemetry_event": true
}"#;

fn resource(source: &str, text: &str) -> Resource {
    Resource { source: source.to_string(), data: text.as_bytes().to_vec() }
}

fn loaded() -> Advancements {
    let id = Identifier::parse("minecraft:story/root").expect("a valid location");
    Advancements::load(vec![(id, resource("vanilla", STORY_ROOT))], &grass_only)
}

/// Requirements are an and of ors: every group needs one of its criteria.
#[test]
fn requirements_are_an_and_of_ors() {
    let advancement = Advancement::parse(
        &json(
            r#"{
            "criteria": {
                "a": {"trigger": "minecraft:impossible"},
                "b": {"trigger": "minecraft:impossible"},
                "c": {"trigger": "minecraft:impossible"}
            },
            "requirements": [["a", "b"], ["c"]]
        }"#,
        ),
        &no_items,
    )
    .expect("a readable advancement");

    let met = |granted: &[&str]| advancement.requirements.met(|name| granted.contains(&name));
    assert!(!met(&["a"]), "the second group is unmet");
    assert!(!met(&["c"]), "the first group is unmet");
    assert!(met(&["a", "c"]));
    assert!(met(&["b", "c"]));
}

/// With nothing said, every criterion is its own group, so all of them are needed.
#[test]
fn requirements_default_to_all_of_them() {
    let advancement = Advancement::parse(
        &json(
            r#"{
            "criteria": {
                "a": {"trigger": "minecraft:impossible"},
                "b": {"trigger": "minecraft:impossible"}
            }
        }"#,
        ),
        &no_items,
    )
    .expect("a readable advancement");
    assert!(!advancement.requirements.met(|name| name == "a"));
    assert!(advancement.requirements.met(|_| true));
}

/// Granting a criterion says whether it finished the advancement, and only the first time.
#[test]
fn granting_reports_completion_once() {
    let advancements = loaded();
    let mut player = PlayerAdvancements::default();
    let name = "minecraft:story/root";

    assert_eq!(player.award(&advancements, name, "crafting_table", 1), Award::Completed);
    assert!(player.is_done(&advancements, name));
    assert_eq!(player.award(&advancements, name, "crafting_table", 2), Award::Already);
}

/// A criterion taken back leaves the advancement unfinished, and an empty entry is not kept.
#[test]
fn revoking_undoes_it() {
    let advancements = loaded();
    let mut player = PlayerAdvancements::default();
    let name = "minecraft:story/root";

    player.award(&advancements, name, "crafting_table", 1);
    assert!(player.revoke(name, "crafting_table"));
    assert!(!player.is_done(&advancements, name));
    assert!(player.get(name).is_none(), "nothing is kept for it");
}

/// An advancement with an unknown trigger is refused rather than quietly never firing.
#[test]
fn an_unknown_trigger_is_refused() {
    assert!(Advancement::parse(
        &json(r#"{"criteria": {"a": {"trigger": "mypack:invented"}}}"#),
        &no_items
    )
    .is_err());
    // As is one with no criteria at all, which could never be finished.
    assert!(Advancement::parse(&json(r#"{"criteria": {}}"#), &no_items).is_err());
    // And one whose requirements name a criterion it does not have.
    assert!(Advancement::parse(
        &json(
            r#"{
            "criteria": {"a": {"trigger": "minecraft:impossible"}},
            "requirements": [["b"]]
        }"#
        ),
        &no_items
    )
    .is_err());
}

#[test]
fn each_refusal_says_why() {
    let parse = |text: &str| Advancement::parse(&json(text), &no_items).err();
    assert_eq!(parse("[1, 2]"), Some(AdvancementError::NotAnObject));
    assert_eq!(parse(r#"{"criteria": []}"#), Some(AdvancementError::NoCriteria));
    assert_eq!(
        parse(r#"{"criteria": {"first": {"conditions": {}}}}"#),
        Some(AdvancementError::NoTrigger("first".to_string()))
    );
    assert_eq!(
        parse(r#"{"criteria": {"a": {"trigger": "mypack:invented"}}}"#),
        Some(AdvancementError::UnknownTrigger("mypack:invented".to_string()))
    );
    assert_eq!(
        parse(r#"{"criteria": {"a": {"trigger": "tick"}}, "requirements": [["a"], ["b", "a"]]}"#),
        Some(AdvancementError::UnknownRequirement("b".to_string()))
    );
}

#[test]
fn the_story_root_reads_as_the_game_writes_it() {
    let advancements = loaded();
    assert_eq!(advancements.len(), 1);
    let root = advancements.get_by_name("minecraft:story/root").expect("the story root");
    assert!(root.is_root());
    assert!(root.sends_telemetry_event);
    assert_eq!(root.criteria.len(), 1);
    assert_eq!(root.criteria[0].0, "crafting_table");
    assert_eq!(root.criteria[0].1.trigger, Trigger::InventoryChanged);
    assert_eq!(root.requirements.0, vec![vec!["crafting_table".to_string()]]);

    let display = root.display.as_ref().expect("the story root is shown");
    assert_eq!(display.icon, 27);
    assert_eq!(display.frame, Frame::Task);
    assert!(!display.show_toast);
    assert!(!display.announce_to_chat);
    assert!(!display.hidden);
    assert_eq!(
        display.background.as_ref().map(|id| id.as_str()),
        Some("minecraft:gui/advancements/backgrounds/stone".to_string())
    );
    assert!(display.title.is_some());

    let id = Identifier::parse("minecraft:story/root").expect("a valid location");
    assert!(advancements.get(&id).is_some());
}

#[test]
fn a_display_whose_icon_is_no_item_is_not_shown() {
    let value = json(r#"{"icon": {"id": "minecraft:nothing_at_all"}, "frame": "goal"}"#);
    assert!(DisplayInfo::parse(&value, &grass_only).is_none());
    let value = json(r#"{"icon": {"id": "minecraft:grass_block"}, "frame": "challenge"}"#);
    let display = DisplayInfo::parse(&value, &grass_only).expect("it is shown");
    assert_eq!(display.frame, Frame::Challenge);
    assert!(display.show_toast, "a toast unless told otherwise");
    assert!(display.title.is_none());
}

#[test]
fn a_frame_reads_by_name_and_numbers_as_the_client_does() {
    assert_eq!(Frame::parse("challenge"), Frame::Challenge);
    assert_eq!(Frame::parse("goal"), Frame::Goal);
    assert_eq!(Frame::parse("anything else"), Frame::Task);
    assert_eq!(Frame::Task.index(), 0);
    assert_eq!(Frame::Challenge.index(), 1);
    assert_eq!(Frame::Goal.index(), 2);
}

#[test]
fn rewards_read_what_they_can() {
    let advancement = Advancement::parse(
        &json(
            r#"{
            "criteria": {"a": {"trigger": "tick"}},
            "parent": "minecraft:story/root",
            "rewards": {
                "experience": 50,
                "loot": ["minecraft:chests/abandoned", 7, "Not A Location"],
                "recipes": ["minecraft:bread"],
                "function": "mypack:reward"
            }
        }"#,
        ),
        &no_items,
    )
    .expect("a readable advancement");
    assert!(!advancement.is_root());
    assert_eq!(advancement.rewards.experience, 50);
    assert_eq!(advancement.rewards.loot.len(), 1, "only the one that names a location");
    assert_eq!(advancement.rewards.recipes[0].as_str(), "minecraft:bread");
    assert_eq!(
        advancement.rewards.function.as_ref().map(|id| id.as_str()),
        Some("mypack:reward".to_string())
    );
    assert!(!advancement.sends_telemetry_event);

    let too_much = Advancement::parse(
        &json(r#"{"criteria": {"a": {"trigger": "tick"}}, "rewards": {"experience": 3000000000}}"#),
        &no_items,
    )
    .expect("a readable advancement");
    assert_eq!(too_much.rewards.experience, 0, "more than fits is none");
}

#[test]
fn criteria_come_in_the_order_of_their_names() {
    let advancement = Advancement::parse(
        &json(
            r#"{"criteria": {
                "zebra": {"trigger": "tick"},
                "apple": {"trigger": "minecraft:location"},
                "mango": {"trigger": "impossible"}
            }}"#,
        ),
        &no_items,
    )
    .expect("a readable advancement");
    let names: Vec<&str> = advancement.criteria.iter().map(|(name, _)| name.as_str()).collect();
    assert_eq!(names, vec!["apple", "mango", "zebra"]);
    assert_eq!(advancement.criteria[0].1.trigger, Trigger::NotYet("location"));
    assert_eq!(advancement.requirements.0.len(), 3);
}

#[test]
fn a_criterion_without_its_namespace_reads_the_same() {
    let with = Criterion::parse("a", &json(r#"{"trigger": "minecraft:tick"}"#)).expect("readable");
    let without = Criterion::parse("a", &json(r#"{"trigger": "tick"}"#)).expect("readable");
    assert_eq!(with.trigger, Trigger::Tick);
    assert_eq!(without.trigger, Trigger::Tick);
}

#[test]
fn no_groups_are_never_met() {
    assert!(!Requirements(vec![]).met(|_| true));
}

#[test]
fn a_file_that_is_not_json_or_not_an_advancement_is_passed_over_and_the_later_one_stands() {
    let id = |text: &str| Identifier::parse(text).expect("a valid location");
    let advancements = Advancements::load(
        vec![
            (id("mypack:broken"), resource("mine", "this is not json")),
            (id("mypack:refused"), resource("mine", r#"{"criteria": {}}"#)),
            (id("mypack:twice"), resource("one", r#"{"criteria": {"first": {"trigger": "tick"}}}"#)),
            (id("mypack:twice"), resource("two", r#"{"criteria": {"second": {"trigger": "tick"}}}"#)),
        ],
        &no_items,
    );
    assert_eq!(advancements.len(), 1);
    let twice = advancements.get_by_name("mypack:twice").expect("read");
    assert_eq!(twice.criteria[0].0, "second");
    assert!(advancements.get_by_name("mypack:broken").is_none());
}

#[test]
fn an_event_grants_every_criterion_waiting_for_it() {
    let id = |text: &str| Identifier::parse(text).expect("a valid location");
    let advancements = Advancements::load(
        vec![
            (
                id("mypack:both"),
                resource(
                    "mine",
                    r#"{"criteria": {"ticked": {"trigger": "tick"}, "never": {"trigger": "impossible"}},
                        "requirements": [["ticked"], ["never"]]}"#,
                ),
            ),
            (id("mypack:one"), resource("mine", r#"{"criteria": {"ticked": {"trigger": "tick"}}}"#)),
        ],
        &no_items,
    );
    let mut player = PlayerAdvancements::default();
    let granted = player.offer(&advancements, 5, |trigger| *trigger == Trigger::Tick);
    assert_eq!(granted.moved, vec!["mypack:both".to_string(), "mypack:one".to_string()]);
    assert_eq!(granted.completed, vec!["mypack:one".to_string()]);
    assert!(!granted.is_empty());
    assert_eq!(
        player.get("mypack:both").and_then(|progress| progress.when_granted("ticked")),
        Some(5)
    );

    // The same event again finds nothing new to grant.
    let again = player.offer(&advancements, 6, |trigger| *trigger == Trigger::Tick);
    assert!(again.is_empty());
    assert!(again.completed.is_empty());
}

#[test]
fn granting_something_of_an_advancement_there_is_not_does_nothing() {
    let advancements = loaded();
    let mut player = PlayerAdvancements::default();
    assert_eq!(player.award(&advancements, "mypack:invented", "a", 1), Award::Already);
    assert!(player.get("mypack:invented").is_none());
    assert!(!player.revoke("minecraft:story/root", "crafting_table"));
}

#[test]
fn progress_made_of_its_entries_is_the_same_progress() {
    let advancements = loaded();
    let mut player = PlayerAdvancements::default();
    player.award(&advancements, "minecraft:story/root", "crafting_table", 42);
    let progress = player.get("minecraft:story/root").expect("granted");
    assert!(progress.has_progress());
    assert!(progress.is_granted("crafting_table"));
    let copy = AdvancementProgress::from_entries(progress.entries().to_vec());
    assert_eq!(copy.when_granted("crafting_table"), Some(42));
    assert!(copy.is_done(advancements.get_by_name("minecraft:story/root").expect("there")));
}

#[test]
fn a_player_made_of_entries_keeps_the_later_of_two_and_leaves_out_the_empty() {
    let early = AdvancementProgress::from_entries(vec![("a".to_string(), 1)]);
    let late = AdvancementProgress::from_entries(vec![("b".to_string(), 2)]);
    let nothing = AdvancementProgress::from_entries(vec![]);
    let player = PlayerAdvancements::from_entries(vec![
        ("minecraft:x".to_string(), early),
        ("minecraft:x".to_string(), late),
        ("minecraft:x".to_string(), nothing),
        ("minecraft:y".to_string(), AdvancementProgress::from_entries(vec![])),
    ]);
    let kept = player.get("minecraft:x").expect("x has progress");
    assert!(kept.is_granted("b"));
    assert!(!kept.is_granted("a"));
    assert!(player.get("minecraft:y").is_none());
    assert_eq!(player.entries().len(), 1);
}

#[test]
fn carried_slots_are_counted_taken_empty_and_full() {
    let slots = [Some((1, 64)), None, Some((2, 3)), Some((3, 65)), None];
    let carried = Carried { slots: &slots };
    assert_eq!(carried.occupied(), 3);
    assert_eq!(carried.empty(), 2);
    assert_eq!(carried.full(), 2);
}
