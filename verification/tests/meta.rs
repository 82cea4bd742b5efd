use ferrumc::json::Json;
use ferrumc::meta::{MetadataError, PackCompatibility, PackFormat, PackMetadata};
use ferrumc::text::decimal_text;

fn meta(json: &str) -> Result<PackMetadata, MetadataError> {
    PackMetadata::parse(json.as_bytes())
}

#[test]
fn reads_a_min_max_pair() {
    let parsed = meta(r#"{"pack":{"description":"hi","min_format":[107,0],"max_format":[107,5]}}"#)
        .expect("a readable pack.mcmeta");
    assert_eq!(
        parsed.supported_formats,
        (PackFormat::new(107, 0), PackFormat::new(107, 5))
    );
}

#[test]
fn a_bare_major_means_the_whole_major_version() {
    let parsed = meta(r#"{"pack":{"description":"hi","min_format":107,"max_format":107}}"#)
        .expect("a readable pack.mcmeta");
    assert_eq!(
        parsed.supported_formats,
        (PackFormat::new(107, 0), PackFormat::new(107, u32::MAX))
    );
}

#[test]
fn the_old_single_field_only_reaches_the_versions_it_can_name() {
    let parsed = meta(r#"{"pack":{"description":"hi","pack_format":81}}"#)
        .expect("a readable pack.mcmeta");
    assert_eq!(
        parsed.supported_formats,
        (PackFormat::of(81), PackFormat::of(81))
    );
    assert!(matches!(
        meta(r#"{"pack":{"description":"hi","pack_format":107}}"#),
        Err(MetadataError::NeedsMinAndMax)
    ));
}

#[test]
fn half_a_declaration_is_refused() {
    assert!(matches!(
        meta(r#"{"pack":{"description":"hi","min_format":[107,0]}}"#),
        Err(MetadataError::HalfDeclared)
    ));
    assert!(matches!(
        meta(r#"{"pack":{"description":"hi"}}"#),
        Err(MetadataError::NoFormat)
    ));
}

#[test]
fn compares_against_the_running_game() {
    let game = PackFormat::new(107, 1);
    assert_eq!(
        PackCompatibility::of(PackFormat::new(107, 1).minor_range(), game),
        PackCompatibility::Compatible
    );
    assert_eq!(
        PackCompatibility::of((PackFormat::of(80), PackFormat::of(81)), game),
        PackCompatibility::TooOld
    );
    assert_eq!(
        PackCompatibility::of(PackFormat::new(108, 0).minor_range(), game),
        PackCompatibility::TooNew
    );
    // A pack built for 107.0 does not cover 107.1: a minor release can add to the format.
    assert_eq!(
        PackCompatibility::of((PackFormat::of(107), PackFormat::of(107)), game),
        PackCompatibility::TooOld
    );
}

#[test]
fn a_pack_that_names_no_version_is_of_unknown_standing() {
    let unknown = (PackFormat::new(u32::MAX, 0), PackFormat::new(u32::MAX, 0));
    assert_eq!(
        PackCompatibility::of(unknown, PackFormat::new(107, 1)),
        PackCompatibility::Unknown
    );
    assert!(!PackCompatibility::Unknown.is_compatible());
    assert!(PackCompatibility::Compatible.is_compatible());
}

#[test]
fn each_refusal_of_a_pack_file_says_why() {
    assert_eq!(meta("not json").err(), Some(MetadataError::NotJson));
    assert_eq!(meta(r#"{"other":{}}"#).err(), Some(MetadataError::NoPackSection));
    assert_eq!(meta(r#"{"pack":{"pack_format":81}}"#).err(), Some(MetadataError::NoDescription));
    assert_eq!(
        meta(r#"{"pack":{"description":"hi","min_format":[108,0],"max_format":[107,5]}}"#).err(),
        Some(MetadataError::Inverted(PackFormat::new(108, 0), PackFormat::new(107, 5)))
    );
    assert_eq!(
        meta(r#"{"pack":{"description":"hi","max_format":107}}"#).err(),
        Some(MetadataError::HalfDeclared)
    );
}

#[test]
fn the_deprecated_range_reads_in_both_shapes() {
    let listed = meta(r#"{"pack":{"description":"hi","supported_formats":[70,81]}}"#)
        .expect("a readable pack.mcmeta");
    assert_eq!(listed.supported_formats, (PackFormat::of(70), PackFormat::of(81)));
    let named = meta(
        r#"{"pack":{"description":"hi","supported_formats":{"min_inclusive":71,"max_inclusive":80}}}"#,
    )
    .expect("a readable pack.mcmeta");
    assert_eq!(named.supported_formats, (PackFormat::of(71), PackFormat::of(80)));
    assert_eq!(
        meta(r#"{"pack":{"description":"hi","supported_formats":[70,90]}}"#).err(),
        Some(MetadataError::NeedsMinAndMax)
    );
}

#[test]
fn the_description_is_kept_as_it_was_written() {
    let parsed = meta(r#"{"pack":{"description":"plain","pack_format":81}}"#)
        .expect("a readable pack.mcmeta");
    assert_eq!(parsed.description, Json::String("plain".to_string()));
    assert!(PackFormat::new(1, 2).precedes(&PackFormat::new(1, 3)));
    assert!(!PackFormat::new(2, 0).precedes(&PackFormat::new(1, 9)));
}

#[test]
fn a_format_reads_as_major_dot_minor_or_every_minor() {
    assert_eq!(PackFormat::new(81, 0).describe(), "81.0");
    assert_eq!(PackFormat::new(94, 1).describe(), "94.1");
    assert_eq!(PackFormat::new(94, u32::MAX).describe(), "94.*");
    assert_eq!(PackFormat::of(0).describe(), "0.0");
}

#[test]
fn a_number_is_written_out_in_decimal() {
    assert_eq!(decimal_text(0), "0");
    assert_eq!(decimal_text(7), "7");
    assert_eq!(decimal_text(10), "10");
    assert_eq!(decimal_text(4_294_967_295), "4294967295");
    assert_eq!(decimal_text(u64::MAX), "18446744073709551615");
}

#[test]
fn a_read_root_gives_the_pack_section() {
    let number = |n: u64| {
        Json::Number(ferrumc::json::JsonNumber { as_i64: Some(n as i64), as_u64: Some(n) })
    };
    let root = Json::Object(vec![(
        "pack".to_string(),
        Json::Object(vec![
            ("description".to_string(), Json::String("made by hand".to_string())),
            ("pack_format".to_string(), number(15)),
        ]),
    )]);
    let parsed = PackMetadata::from_root(root).expect("a pack section with a format");
    assert_eq!(parsed.description, Json::String("made by hand".to_string()));
    assert_eq!(parsed.supported_formats.0, PackFormat::of(15));
    assert_eq!(parsed.supported_formats.1, PackFormat::of(15));
    assert_eq!(
        PackMetadata::from_root(Json::Object(vec![])).err(),
        Some(MetadataError::NoPackSection)
    );
}
