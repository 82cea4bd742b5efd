use ferrumc::identifier::{decompose_path, Identifier, IdentifierError};
use std::path::{Path, PathBuf};

#[test]
fn splits_at_the_separator() {
    let id = Identifier::parse("mypack:tags/block/logs").expect("a valid location");
    assert_eq!(id.namespace(), "mypack");
    assert_eq!(id.path(), "tags/block/logs");
    assert_eq!(id.as_str(), "mypack:tags/block/logs");
}

#[test]
fn a_bare_path_is_minecraft() {
    let id = Identifier::parse("stone").expect("a valid location");
    assert_eq!(id.namespace(), "minecraft");
    assert_eq!(id.to_string(), "minecraft:stone");
    // A leading colon means the same thing.
    assert_eq!(Identifier::parse(":stone").expect("a valid location"), id);
}

#[test]
fn rejects_characters_outside_the_allowed_set() {
    assert!(Identifier::parse("Stone").is_err());
    assert!(Identifier::parse("my pack:stone").is_err());
    assert!(Identifier::new("..", "stone").is_err());
    // A slash belongs to the path and not to the namespace.
    assert!(Identifier::new("a/b", "stone").is_err());
}

/// Where a location's file sits under `top`: `top`, then the pieces the library gives for it.
fn resolve_against(id: &Identifier, top: &Path) -> Option<PathBuf> {
    let mut resolved = top.to_path_buf();
    for part in id.file_parts()? {
        resolved.push(part);
    }
    Some(resolved)
}

#[test]
fn a_path_cannot_climb_out_of_the_pack() {
    let root = Path::new("/packs/vanilla/data");
    // Legal characters, and still an escape: this is what the segment rules are for.
    let escaping = Identifier::new("minecraft", "../../etc/passwd").expect("a valid location");
    assert_eq!(resolve_against(&escaping, root), None);
    assert_eq!(decompose_path("a//b"), None);
    assert_eq!(decompose_path("a/./b"), None);

    let ordinary = Identifier::minecraft("tags/block/logs").expect("a valid location");
    assert_eq!(
        resolve_against(&ordinary, root),
        Some(PathBuf::from("/packs/vanilla/data/minecraft/tags/block/logs"))
    );
}

#[test]
fn ordered_by_path_before_namespace() {
    let mut ids = [
        Identifier::parse("zed:a").expect("a valid location"),
        Identifier::parse("alpha:b").expect("a valid location"),
        Identifier::parse("alpha:a").expect("a valid location"),
    ];
    ids.sort();
    assert_eq!(ids.map(|id| id.to_string()), ["alpha:a", "zed:a", "alpha:b"]);
}

#[test]
fn a_path_splits_into_its_segments() {
    assert_eq!(decompose_path("tags/block/logs"), Some(vec!["tags", "block", "logs"]));
    assert_eq!(decompose_path("/a"), None);
    assert_eq!(decompose_path("a/"), None);
    assert_eq!(decompose_path("a/../b"), None);
    assert_eq!(decompose_path("a.b/c-d_e"), Some(vec!["a.b", "c-d_e"]));
}

#[test]
fn each_error_says_what_was_wrong() {
    assert_eq!(
        Identifier::new("My", "x"),
        Err(IdentifierError::Namespace("My:x".to_string()))
    );
    assert_eq!(
        Identifier::new("my", "X"),
        Err(IdentifierError::Path("my:X".to_string()))
    );
    let long = "a".repeat(70_000);
    assert_eq!(
        Identifier::new(&long, "x"),
        Err(IdentifierError::NamespaceTooLong(long.clone()))
    );
    let id = Identifier::parse("a:b").expect("a valid location");
    assert_eq!(id.with_path("c/d").expect("a valid path").to_string(), "a:c/d");
    assert!(id.same_as(&Identifier::new("a", "b").expect("a valid location")));
    assert!(Identifier::parse("z:a").unwrap().precedes(&Identifier::parse("a:b").unwrap()));
}

#[test]
fn a_files_pieces_are_the_namespace_then_each_segment_in_order() {
    let id = Identifier::parse("mypack:tags/block/logs.json").expect("a valid location");
    assert_eq!(id.file_parts(), Some(vec!["mypack", "tags", "block", "logs.json"]));
    let climbing = Identifier::parse("mypack:tags/../x").expect("a valid location");
    assert_eq!(climbing.file_parts(), None);
}

#[test]
fn only_the_path_can_refuse_a_new_path() {
    let id = Identifier::parse("mypack:a").expect("a valid location");
    assert!(matches!(id.with_path("B"), Err(IdentifierError::Path(_))));
    let moved = id.with_path("b/c").expect("a valid path");
    assert_eq!(moved.namespace(), "mypack");
    assert_eq!(moved.path(), "b/c");
    assert_eq!(moved.clone(), moved);
}
