use ferrumc::identifier::Identifier;
use ferrumc::manager::{
    after_answer, found_only, locations, stacked, stacks_only, start_asking, winning, Asking,
    FileToId,
};

fn id(text: &str) -> Identifier {
    Identifier::parse(text).expect("a valid location")
}

#[test]
fn a_file_location_turns_into_the_id_of_what_it_holds_and_back() {
    let tags = FileToId::json("tags/block");
    let file = tags.id_to_file(&id("minecraft:logs")).expect("a file for it");
    assert_eq!(file.as_str(), "minecraft:tags/block/logs.json");
    let back = tags.file_to_id(&file).expect("an id for it");
    assert_eq!(back.as_str(), "minecraft:logs");
    assert!(tags.matches(&file));
    assert!(tags.file_to_id(&id("minecraft:tags/item/logs.json")).is_none());
    assert!(tags.file_to_id(&id("minecraft:tags/block/logs.txt")).is_none());
}

fn answers() -> Vec<(String, Option<Vec<u8>>)> {
    vec![
        ("vanilla".to_string(), Some(b"bottom".to_vec())),
        ("file/other".to_string(), None),
        ("file/mine".to_string(), Some(b"top".to_vec())),
        ("file/last".to_string(), None),
    ]
}

#[test]
fn the_winner_is_the_pack_that_was_found_last() {
    let winner = winning(answers()).expect("two packs have it");
    assert_eq!(winner.source, "file/mine");
    assert_eq!(winner.data, b"top".to_vec());
    assert!(winning(vec![("vanilla".to_string(), None)]).is_none());
}

#[test]
fn every_copy_is_still_reachable_lowest_first() {
    let stack = stacked(answers());
    assert_eq!(stack.len(), 2);
    assert_eq!(stack[0].source, "vanilla");
    assert_eq!(stack[1].source, "file/mine");
}

#[test]
fn a_listing_spans_every_pack_each_location_once_in_order() {
    let listings = vec![
        vec![id("minecraft:tags/block/logs.json"), id("minecraft:tags/block/notes.txt")],
        vec![id("mypack:tags/block/shiny.json"), id("minecraft:tags/block/logs.json")],
    ];
    let json_only = |id: &Identifier| id.path().ends_with(".json");
    let found = locations(&listings, &json_only);
    let texts: Vec<String> = found.iter().map(|id| id.as_str()).collect();
    assert_eq!(texts, vec!["minecraft:tags/block/logs.json", "mypack:tags/block/shiny.json"]);
}

#[test]
fn the_packs_are_asked_from_the_top_down_and_asking_stops_at_the_first_copy() {
    assert_eq!(start_asking(0), Asking::Nowhere);
    assert_eq!(start_asking(3), Asking::Ask(2));
    assert_eq!(after_answer(2, false), Asking::Ask(1));
    assert_eq!(after_answer(1, true), Asking::Found(1));
    assert_eq!(after_answer(0, false), Asking::Nowhere);

    // Three packs, of which the lower two carry the file: the top one is asked, then the middle,
    // and the middle one wins.
    let carries = [true, true, false];
    let mut asked = Vec::new();
    let mut step = start_asking(carries.len());
    while let Asking::Ask(at) = step {
        asked.push(at);
        step = after_answer(at, carries[at]);
    }
    assert_eq!(asked, vec![2, 1]);
    assert_eq!(step, Asking::Found(1));
}

#[test]
fn both_listings_name_the_locations_some_pack_carries() {
    let ids = vec![id("minecraft:a"), id("minecraft:b"), id("minecraft:c")];
    let per_location = vec![
        answers(),
        vec![("vanilla".to_string(), None), ("file/mine".to_string(), None)],
        vec![("vanilla".to_string(), Some(b"only".to_vec())), ("file/mine".to_string(), None)],
    ];
    let found: Vec<_> = per_location.iter().map(|a| winning(a.clone())).collect();
    let stacks: Vec<_> = per_location.iter().map(|a| stacked(a.clone())).collect();
    let winners = found_only(ids.iter().map(|i| i.duplicate()).collect(), found);
    let all = stacks_only(ids, stacks);

    let winner_keys: Vec<String> = winners.iter().map(|(k, _)| k.as_str()).collect();
    let stack_keys: Vec<String> = all.iter().map(|(k, _)| k.as_str()).collect();
    assert_eq!(winner_keys, vec!["minecraft:a".to_string(), "minecraft:c".to_string()]);
    assert_eq!(stack_keys, winner_keys);
    assert_eq!(winners[0].1.source, "file/mine");
    assert_eq!(all[0].1.len(), 2);
    assert_eq!(all[0].1[1].source, winners[0].1.source);
    assert_eq!(winners[1].1.data, b"only".to_vec());
}

#[test]
fn a_listing_of_files_is_keyed_by_the_things_they_hold() {
    let tags = FileToId::json("tags/block");
    let files = vec![
        (id("minecraft:tags/block/logs.json"), 1),
        (id("minecraft:tags/block/readme.txt"), 2),
        (id("other:tags/block/planks.json"), 3),
    ];
    let things = tags.things(files);
    let keys: Vec<(String, i32)> = things.iter().map(|(k, v)| (k.as_str(), *v)).collect();
    assert_eq!(
        keys,
        vec![("minecraft:logs".to_string(), 1), ("other:planks".to_string(), 3)]
    );
}
