use ferrumc::repository::{reselect, select_known, PackSource, VANILLA_PACK_ID};

fn found(ids: &[(&str, PackSource)]) -> Vec<(String, PackSource)> {
    ids.iter().map(|(id, source)| (id.to_string(), *source)).collect()
}

fn names(ids: &[&str]) -> Vec<String> {
    ids.iter().map(|id| id.to_string()).collect()
}

#[test]
fn the_built_in_pack_is_the_bottom_of_the_stack() {
    let selected = reselect(&vec![], &found(&[(VANILLA_PACK_ID, PackSource::BuiltIn)]));
    assert_eq!(selected, names(&[VANILLA_PACK_ID]));
}

#[test]
fn a_pack_found_in_the_directory_is_turned_on_after_the_built_in_one() {
    let selected = reselect(
        &names(&[VANILLA_PACK_ID]),
        &found(&[("file/mine", PackSource::World), (VANILLA_PACK_ID, PackSource::BuiltIn)]),
    );
    assert_eq!(selected, names(&[VANILLA_PACK_ID, "file/mine"]));
}

#[test]
fn looking_again_keeps_the_order_and_lets_go_of_what_is_gone() {
    let selected = reselect(
        &names(&[VANILLA_PACK_ID, "file/b", "file/gone", "file/a"]),
        &found(&[
            ("file/a", PackSource::World),
            ("file/b", PackSource::World),
            ("file/c", PackSource::World),
            (VANILLA_PACK_ID, PackSource::BuiltIn),
        ]),
    );
    assert_eq!(selected, names(&[VANILLA_PACK_ID, "file/b", "file/a", "file/c"]));
}

#[test]
fn an_unknown_pack_asked_for_is_dropped() {
    let available = found(&[(VANILLA_PACK_ID, PackSource::BuiltIn), ("file/mine", PackSource::World)]);
    let selected = select_known(names(&["file/mine", "file/nowhere", VANILLA_PACK_ID]), &available);
    assert_eq!(selected, names(&["file/mine", VANILLA_PACK_ID]));
}
