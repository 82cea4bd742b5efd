//! `pack.mcmeta`: what version of the game a pack was written for, and how it describes itself.
use crate::json::{json_of_bytes, parse_json, Json};
use crate::text::{decimal, decimal_text};
use vstd::prelude::*;

verus! {

/// The last pack format before packs gained a minor version. A pack that claims anything above it
/// has to say so with `min_format`/`max_format`; the older `pack_format` field cannot express it.
pub const LAST_PRE_MINOR: u32 = 81;

/// A pack format version, `major.minor`.
#[derive(Clone, Copy, PartialEq, Eq, Structural, Debug)]
pub struct PackFormat {
    pub major: u32,
    pub minor: u32,
}

/// Whether format `a` is older than format `b`: by major version, then by minor.
pub open spec fn format_before(a: PackFormat, b: PackFormat) -> bool {
    a.major < b.major || (a.major == b.major && a.minor < b.minor)
}

impl PackFormat {
    pub fn new(major: u32, minor: u32) -> (r: Self)
        ensures
            r == (PackFormat { major, minor }),
    {
        PackFormat { major, minor }
    }

    /// The version a bare major number means, which is its first minor release.
    pub fn of(major: u32) -> (r: Self)
        ensures
            r == (PackFormat { major, minor: 0 }),
    {
        Self::new(major, 0)
    }

    /// This major version and every minor release of it, which is what a pack built for the
    /// running game supports.
    pub fn minor_range(self) -> (r: (Self, Self))
        ensures
            r == (self, PackFormat { major: self.major, minor: u32::MAX }),
    {
        (self, Self::new(self.major, u32::MAX))
    }

    /// The format as an operator reads it: `major.minor`, or `major.*` for every minor release of
    /// a major version.
    pub fn describe(&self) -> (r: String)
        ensures
            r@ == if self.minor == u32::MAX {
                decimal(self.major as nat) + ".*"@
            } else {
                decimal(self.major as nat) + "."@ + decimal(self.minor as nat)
            },
    {
        let mut out = decimal_text(self.major as u64);
        if self.minor == u32::MAX {
            out.append(".*");
        } else {
            out.append(".");
            let minor = decimal_text(self.minor as u64);
            out.append(minor.as_str());
        }
        out
    }

    /// Whether this format is older than `other`.
    pub fn precedes(&self, other: &Self) -> (r: bool)
        ensures
            r == format_before(*self, *other),
    {
        self.major < other.major || (self.major == other.major && self.minor < other.minor)
    }
}

/// Whether a pack was written for a game this old or this new.
#[derive(Clone, Copy, PartialEq, Eq, Structural, Debug)]
pub enum PackCompatibility {
    TooOld,
    TooNew,
    /// The pack says nothing about which version it is for.
    Unknown,
    Compatible,
}

/// How a pack that claims `declared` fares against the game's format.
pub open spec fn compatibility(declared: (PackFormat, PackFormat), game: PackFormat) -> PackCompatibility {
    if declared.0.major == u32::MAX {
        PackCompatibility::Unknown
    } else if format_before(declared.1, game) {
        PackCompatibility::TooOld
    } else if format_before(game, declared.0) {
        PackCompatibility::TooNew
    } else {
        PackCompatibility::Compatible
    }
}

impl PackCompatibility {
    /// How a pack that claims `declared` fares against the game's format `game`.
    pub fn of(declared: (PackFormat, PackFormat), game: PackFormat) -> (r: Self)
        ensures
            r == compatibility(declared, game),
    {
        let (min, max) = declared;
        if min.major == u32::MAX {
            PackCompatibility::Unknown
        } else if max.precedes(&game) {
            PackCompatibility::TooOld
        } else if game.precedes(&min) {
            PackCompatibility::TooNew
        } else {
            PackCompatibility::Compatible
        }
    }

    pub fn is_compatible(self) -> (r: bool)
        ensures
            r == (self == PackCompatibility::Compatible),
    {
        match self {
            PackCompatibility::Compatible => true,
            _ => false,
        }
    }
}

/// What a pack says about itself.
#[derive(Debug)]
pub struct PackMetadata {
    /// The description, as the text component the file holds it as.
    pub description: Json,
    /// The lowest and highest pack format the pack claims to work with.
    pub supported_formats: (PackFormat, PackFormat),
}

/// Why a `pack.mcmeta` could not be read.
#[derive(Debug, Clone, Copy, PartialEq, Eq, Structural)]
pub enum MetadataError {
    /// The file is not JSON.
    NotJson,
    /// The file has no `pack` section.
    NoPackSection,
    /// The `pack` section has no description.
    NoDescription,
    /// Only one of `min_format` and `max_format` is there.
    HalfDeclared,
    /// `min_format` is newer than `max_format`.
    Inverted(PackFormat, PackFormat),
    /// A format newer than `LAST_PRE_MINOR` is claimed without `min_format` and `max_format`.
    NeedsMinAndMax,
    /// The file says nothing about which formats it is for.
    NoFormat,
}

/// A whole number read from JSON that fits in 32 bits.
pub open spec fn small(n: Option<u64>) -> Option<u32> {
    match n {
        Some(v) => if v <= u32::MAX {
            Some(v as u32)
        } else {
            None
        },
        None => None,
    }
}

/// A format as it is written: a bare major version, which takes `default_minor`, or a
/// `[major, minor]` pair, whose minor may be left off.
pub open spec fn format_of(value: Json, default_minor: u32) -> Option<PackFormat> {
    match value.u64_value() {
        Some(major) => match small(Some(major)) {
            Some(m) => Some(PackFormat { major: m, minor: default_minor }),
            None => None,
        },
        None => match value.items() {
            None => None,
            Some(pair) => if pair.len() == 0 {
                None
            } else {
                match small(pair[0].u64_value()) {
                    None => None,
                    Some(major) => if pair.len() >= 2 {
                        match small(pair[1].u64_value()) {
                            Some(minor) => Some(PackFormat { major, minor }),
                            None => None,
                        }
                    } else {
                        Some(PackFormat { major, minor: default_minor })
                    },
                }
            },
        },
    }
}

/// A range as it is written: `[min, max]`, or `{"min_inclusive": .., "max_inclusive": ..}`.
pub open spec fn range_of(value: Json) -> Option<(u32, u32)> {
    match value.items() {
        Some(pair) => if pair.len() < 2 {
            None
        } else {
            match (small(pair[0].u64_value()), small(pair[1].u64_value())) {
                (Some(min), Some(max)) => Some((min, max)),
                _ => None,
            }
        },
        None => match (value.field("min_inclusive"@), value.field("max_inclusive"@)) {
            (Some(min), Some(max)) => match (small(min.u64_value()), small(max.u64_value())) {
                (Some(min), Some(max)) => Some((min, max)),
                _ => None,
            },
            _ => None,
        },
    }
}

/// A field of `value` read as a format, where it has the field and it reads as one.
pub open spec fn field_format(value: Json, key: Seq<char>, default_minor: u32) -> Option<PackFormat> {
    match value.field(key) {
        Some(v) => format_of(v, default_minor),
        None => None,
    }
}

/// Which pack formats a `pack` section claims, in vanilla's order of preference: the
/// `min_format`/`max_format` pair, then the deprecated `supported_formats` range, then the
/// single `pack_format`.
pub open spec fn formats_of(pack: Json) -> Result<(PackFormat, PackFormat), MetadataError> {
    match (field_format(pack, "min_format"@, 0), field_format(pack, "max_format"@, u32::MAX)) {
        (Some(min), Some(max)) => if format_before(max, min) {
            Err(MetadataError::Inverted(min, max))
        } else {
            Ok((min, max))
        },
        (Some(_), None) => Err(MetadataError::HalfDeclared),
        (None, Some(_)) => Err(MetadataError::HalfDeclared),
        (None, None) => {
            let range = match pack.field("supported_formats"@) {
                Some(v) => range_of(v),
                None => None,
            };
            match range {
                Some((min, max)) => if max > LAST_PRE_MINOR {
                    Err(MetadataError::NeedsMinAndMax)
                } else {
                    Ok((PackFormat { major: min, minor: 0 }, PackFormat { major: max, minor: 0 }))
                },
                None => {
                    let single = match pack.field("pack_format"@) {
                        Some(v) => v.u64_value(),
                        None => None,
                    };
                    match single {
                        Some(format) => if format > LAST_PRE_MINOR {
                            Err(MetadataError::NeedsMinAndMax)
                        } else {
                            Ok(
                                (
                                    PackFormat { major: format as u32, minor: 0 },
                                    PackFormat { major: format as u32, minor: 0 },
                                ),
                            )
                        },
                        None => Err(MetadataError::NoFormat),
                    }
                },
            }
        },
    }
}

/// What a `pack.mcmeta` of these bytes says: its description and the formats it claims.
pub open spec fn metadata_of(bytes: Seq<u8>) -> Result<(Json, (PackFormat, PackFormat)), MetadataError> {
    match json_of_bytes(bytes) {
        None => Err(MetadataError::NotJson),
        Some(root) => root_metadata(root),
    }
}

/// What a read `pack.mcmeta` says: the description and the formats of its `pack` section.
pub open spec fn root_metadata(root: Json) -> Result<(Json, (PackFormat, PackFormat)), MetadataError> {
    match root.field("pack"@) {
        None => Err(MetadataError::NoPackSection),
        Some(pack) => match pack.field("description"@) {
            None => Err(MetadataError::NoDescription),
            Some(description) => match formats_of(pack) {
                Ok(formats) => Ok((description, formats)),
                Err(e) => Err(e),
            },
        },
    }
}

/// A whole number that fits in 32 bits, as one.
fn narrow(n: Option<u64>) -> (r: Option<u32>)
    ensures
        r == small(n),
{
    match n {
        Some(v) => if v <= 0xffff_ffffu64 {
            Some(v as u32)
        } else {
            None
        },
        None => None,
    }
}

/// A format as it is written: see `format_of`.
fn read_format(value: &Json, default_minor: u32) -> (r: Option<PackFormat>)
    ensures
        r == format_of(*value, default_minor),
{
    match value.as_u64() {
        Some(major) => {
            return match narrow(Some(major)) {
                Some(m) => Some(PackFormat::new(m, default_minor)),
                None => None,
            };
        },
        None => {},
    }
    let pair = match value.as_array() {
        Some(pair) => pair,
        None => return None,
    };
    if pair.len() == 0 {
        return None;
    }
    let major = match narrow(pair[0].as_u64()) {
        Some(major) => major,
        None => return None,
    };
    if pair.len() >= 2 {
        match narrow(pair[1].as_u64()) {
            Some(minor) => Some(PackFormat::new(major, minor)),
            None => None,
        }
    } else {
        Some(PackFormat::new(major, default_minor))
    }
}

/// A range as it is written: see `range_of`.
fn read_range(value: &Json) -> (r: Option<(u32, u32)>)
    ensures
        r == range_of(*value),
{
    match value.as_array() {
        Some(pair) => {
            if pair.len() < 2 {
                return None;
            }
            match (narrow(pair[0].as_u64()), narrow(pair[1].as_u64())) {
                (Some(min), Some(max)) => Some((min, max)),
                _ => None,
            }
        },
        None => match (value.get("min_inclusive"), value.get("max_inclusive")) {
            (Some(min), Some(max)) => match (narrow(min.as_u64()), narrow(max.as_u64())) {
                (Some(min), Some(max)) => Some((min, max)),
                _ => None,
            },
            _ => None,
        },
    }
}

/// A field of `value` read as a format: see `field_format`.
fn read_field_format(value: &Json, key: &str, default_minor: u32) -> (r: Option<PackFormat>)
    ensures
        r == field_format(*value, key@, default_minor),
{
    match value.get(key) {
        Some(v) => read_format(v, default_minor),
        None => None,
    }
}

/// Which pack formats a `pack` section claims: see `formats_of`.
pub fn supported_formats(pack: &Json) -> (r: Result<(PackFormat, PackFormat), MetadataError>)
    ensures
        r == formats_of(*pack),
{
    let min = read_field_format(pack, "min_format", 0);
    let max = read_field_format(pack, "max_format", 0xffff_ffffu32);
    match (min, max) {
        (Some(min), Some(max)) => if max.precedes(&min) {
            Err(MetadataError::Inverted(min, max))
        } else {
            Ok((min, max))
        },
        (Some(_), None) => Err(MetadataError::HalfDeclared),
        (None, Some(_)) => Err(MetadataError::HalfDeclared),
        (None, None) => {
            let range = match pack.get("supported_formats") {
                Some(v) => read_range(v),
                None => None,
            };
            match range {
                Some((min, max)) => if max > LAST_PRE_MINOR {
                    Err(MetadataError::NeedsMinAndMax)
                } else {
                    Ok((PackFormat::of(min), PackFormat::of(max)))
                },
                None => {
                    let single = match pack.get("pack_format") {
                        Some(v) => v.as_u64(),
                        None => None,
                    };
                    match single {
                        Some(format) => if format > LAST_PRE_MINOR as u64 {
                            Err(MetadataError::NeedsMinAndMax)
                        } else {
                            let format = PackFormat::of(format as u32);
                            Ok((format, format))
                        },
                        None => Err(MetadataError::NoFormat),
                    }
                },
            }
        },
    }
}

impl PackMetadata {
    /// Reads a `pack.mcmeta`.
    pub fn parse(bytes: &[u8]) -> (r: Result<Self, MetadataError>)
        ensures
            match r {
                Ok(m) => metadata_of(bytes@) == Ok::<(Json, (PackFormat, PackFormat)), MetadataError>(
                    (m.description, m.supported_formats),
                ),
                Err(e) => metadata_of(bytes@) == Err::<(Json, (PackFormat, PackFormat)), MetadataError>(e),
            },
    {
        match parse_json(bytes) {
            Some(root) => Self::from_root(root),
            None => Err(MetadataError::NotJson),
        }
    }

    /// Reads a `pack.mcmeta` once it is read as JSON.
    pub fn from_root(root: Json) -> (r: Result<Self, MetadataError>)
        ensures
            match r {
                Ok(m) => root_metadata(root) == Ok::<(Json, (PackFormat, PackFormat)), MetadataError>(
                    (m.description, m.supported_formats),
                ),
                Err(e) => root_metadata(root) == Err::<(Json, (PackFormat, PackFormat)), MetadataError>(e),
            },
    {
        let pack = match root.take_field("pack") {
            Some(pack) => pack,
            None => return Err(MetadataError::NoPackSection),
        };
        if pack.get("description").is_none() {
            return Err(MetadataError::NoDescription);
        }
        let formats = match supported_formats(&pack) {
            Ok(formats) => formats,
            Err(e) => return Err(e),
        };
        match pack.take_field("description") {
            Some(description) => Ok(PackMetadata { description, supported_formats: formats }),
            None => Err(MetadataError::NoDescription),
        }
    }
}

} // verus!
