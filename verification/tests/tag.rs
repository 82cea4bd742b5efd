use ferrumc::identifier::Identifier;
use ferrumc::json::Json;
use ferrumc::tag::{parse_tag_file, tag_file, TagEntry, TagRegistry};
use ferrumc::manager::Resource;
use ferrumc::tag_build::RawTags;

/// A registry of four things, named a through d, indexed in that order.
fn lookup(id: &Identifier) -> Option<u32> {
    ["a", "b", "c", "d"]
        .iter()
        .position(|name| *name == id.path())
        .map(|index| index as u32)
}

fn raw(files: &[(&str, &str)]) -> RawTags {
    let mut tags = RawTags::default();
    for (name, json) in files {
        let (entries, _) = parse_tag_file(json.as_bytes()).expect("a readable tag file");
        let id = Identifier::parse(name).expect("a valid location");
        tags.add_lines(&id, entries, false, "test");
    }
    tags
}

fn built(files: &[(&str, &str)]) -> TagRegistry {
    raw(files).build(4, lookup)
}

#[test]
fn a_tag_holds_what_it_names() {
    let tags = built(&[(
        "minecraft:letters",
        r#"{"values":["minecraft:a","minecraft:c"]}"#,
    )]);
    let letters = tags
        .get_by_name("minecraft:letters")
        .expect("the tag built");
    assert!(tags.contains(letters, 0));
    assert!(!tags.contains(letters, 1));
    assert!(tags.contains(letters, 2));
    assert_eq!(tags.elements(letters), [0, 2]);
}

#[test]
fn a_tag_that_names_another_takes_its_contents() {
    let tags = built(&[
        ("minecraft:inner", r#"{"values":["minecraft:a"]}"#),
        (
            "minecraft:outer",
            r##"{"values":["#minecraft:inner","minecraft:b"]}"##,
        ),
    ]);
    let outer = tags.get_by_name("minecraft:outer").expect("the tag built");
    assert_eq!(tags.elements(outer), [0, 1]);
}

#[test]
fn an_element_named_twice_appears_once() {
    let tags = built(&[
        ("minecraft:inner", r#"{"values":["minecraft:a"]}"#),
        (
            "minecraft:outer",
            r##"{"values":["minecraft:a","#minecraft:inner"]}"##,
        ),
    ]);
    let outer = tags.get_by_name("minecraft:outer").expect("the tag built");
    assert_eq!(tags.elements(outer), [0]);
}

#[test]
fn a_missing_required_reference_sinks_the_tag_and_what_depends_on_it() {
    let tags = built(&[
        ("minecraft:broken", r#"{"values":["minecraft:nowhere"]}"#),
        (
            "minecraft:depends",
            r##"{"values":["#minecraft:broken","minecraft:a"]}"##,
        ),
    ]);
    assert!(tags.get_by_name("minecraft:broken").is_none());
    assert!(tags.get_by_name("minecraft:depends").is_none());
}

#[test]
fn an_optional_reference_that_is_missing_is_skipped() {
    let tags = built(&[(
        "minecraft:letters",
        r#"{"values":[{"id":"minecraft:nowhere","required":false},"minecraft:a"]}"#,
    )]);
    let letters = tags
        .get_by_name("minecraft:letters")
        .expect("the tag built");
    assert_eq!(tags.elements(letters), [0]);
}

#[test]
fn declaring_a_tag_twice_adds_to_it_unless_it_replaces() {
    let name = Identifier::parse("minecraft:letters").expect("a valid location");
    let mut tags = RawTags::default();
    for (json, source) in [
        (r#"{"values":["minecraft:a"]}"#, "first"),
        (r#"{"values":["minecraft:b"]}"#, "second"),
    ] {
        let (lines, replace) = parse_tag_file(json.as_bytes()).expect("a readable tag file");
        tags.add_lines(&name, lines, replace, source);
    }
    let built = tags.build(4, lookup);
    let letters = built.get(&name).expect("the tag built");
    assert_eq!(built.elements(letters), [0, 1]);

    // The same again, with the second pack replacing rather than adding.
    let mut tags = RawTags::default();
    for (json, source) in [
        (r#"{"values":["minecraft:a"]}"#, "first"),
        (r#"{"replace":true,"values":["minecraft:b"]}"#, "second"),
    ] {
        let (lines, replace) = parse_tag_file(json.as_bytes()).expect("a readable tag file");
        tags.add_lines(&name, lines, replace, source);
    }
    let built = tags.build(4, lookup);
    let letters = built.get(&name).expect("the tag built");
    assert_eq!(built.elements(letters), [1]);
}

#[test]
fn tags_that_require_each_other_both_go() {
    let tags = built(&[
        (
            "minecraft:one",
            r##"{"values":["minecraft:a","#minecraft:two"]}"##,
        ),
        (
            "minecraft:two",
            r##"{"values":["minecraft:b","#minecraft:one"]}"##,
        ),
    ]);
    // The cycle is broken somewhere, so whichever is built first cannot see the other and
    // fails on a reference it required; the other then fails on it.
    assert!(tags.is_empty());
}

#[test]
fn a_cycle_of_optional_references_survives() {
    let tags = built(&[
        (
            "minecraft:one",
            r##"{"values":["minecraft:a",{"id":"#minecraft:two","required":false}]}"##,
        ),
        (
            "minecraft:two",
            r##"{"values":["minecraft:b",{"id":"#minecraft:one","required":false}]}"##,
        ),
    ]);
    let one = tags.get_by_name("minecraft:one").expect("the tag built");
    let two = tags.get_by_name("minecraft:two").expect("the tag built");
    // One of them is built first and sees nothing of the other; the second then takes what
    // the first holds.
    assert!(tags.contains(one, 0));
    assert!(tags.contains(two, 1));
}

#[test]
fn a_tag_named_without_a_namespace_is_read_as_minecraft() {
    let tags = built(&[("minecraft:letters", r#"{"values":["minecraft:d"]}"#)]);
    let by_short = tags.get_by_name("letters").expect("the tag built");
    let by_full = tags.get_by_name("minecraft:letters").expect("the tag built");
    assert_eq!(by_short, by_full);
    assert_eq!(tags.len(), 1);
    assert_eq!(tags.names(), vec!["minecraft:letters"]);
    assert!(!tags.contains(by_full, 4));
}

#[test]
fn loading_reads_each_pack_in_turn_and_passes_over_what_is_not_json() {
    let name = Identifier::parse("minecraft:letters").expect("a valid location");
    let file = |source: &str, json: &str| Resource {
        source: source.to_string(),
        data: json.as_bytes().to_vec(),
    };
    let stacks = vec![(
        name.clone(),
        vec![
            file("first", r#"{"values":["minecraft:c"]}"#),
            file("broken", "not json at all"),
            file("second", r##"{"values":["#minecraft:other", {"id":"minecraft:a","required":false}]}"##),
        ],
    )];
    let tags = RawTags::load(&stacks);
    assert!(!tags.is_empty());
    let built = tags.build(4, lookup);
    // The tag names one that is not there, and requires it.
    assert!(built.get(&name).is_none());

    let stacks = vec![(
        name.clone(),
        vec![
            file("first", r#"{"values":["minecraft:c"]}"#),
            file("second", r#"{"replace":true,"values":["minecraft:b","minecraft:a"]}"#),
        ],
    )];
    let built = RawTags::load(&stacks).build(4, lookup);
    let letters = built.get(&name).expect("the tag built");
    assert_eq!(built.elements(letters), [1, 0]);
}

#[test]
fn a_line_is_written_as_a_file_writes_it() {
    let entry = TagEntry::from_id("#minecraft:logs", false).expect("a valid line");
    assert!(entry.is_tag);
    assert_eq!(entry.describe(), "#minecraft:logs?");
    let plain = TagEntry::from_id("stone", true).expect("a valid line");
    assert_eq!(plain.describe(), "minecraft:stone");
    assert!(TagEntry::from_id("#Stone", true).is_none());
}

#[test]
fn a_file_that_is_not_json_is_refused() {
    assert!(parse_tag_file(b"{").is_err());
    let (entries, replace) = parse_tag_file(br#"{"values":[3, "minecraft:a"]}"#).expect("readable");
    assert_eq!(entries.len(), 1);
    assert!(!replace);
}

#[test]
fn a_read_tag_file_gives_its_lines_and_whether_it_replaces() {
    let file = Json::Object(vec![
        ("replace".to_string(), Json::Bool(true)),
        (
            "values".to_string(),
            Json::Array(vec![
                Json::String("minecraft:stone".to_string()),
                Json::Null,
                Json::Object(vec![
                    ("id".to_string(), Json::String("#minecraft:logs".to_string())),
                    ("required".to_string(), Json::Bool(false)),
                ]),
            ]),
        ),
    ]);
    let (lines, replace) = tag_file(&file);
    assert!(replace);
    assert_eq!(lines.len(), 2);
    assert_eq!(lines[0].id.as_str(), "minecraft:stone");
    assert!(!lines[0].is_tag && lines[0].required);
    assert_eq!(lines[1].id.as_str(), "minecraft:logs");
    assert!(lines[1].is_tag && !lines[1].required);

    let (none, keeps) = tag_file(&Json::Object(vec![]));
    assert!(none.is_empty());
    assert!(!keeps);
}
