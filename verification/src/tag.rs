//! Tags: named sets over a registry, and the only thing in the game that merges across packs
//! instead of being overridden by the last one to declare it.
//!
//! A tag file lists elements by id, other tags by `#id`, and either of those may be marked
//! optional. Tags refer to each other freely, so building them is a dependency order followed by
//! a flattening: what a query sees is a plain set, never a reference to follow.
use crate::identifier::{outcome, read_location, Identifier};
use crate::json::{parse_json, Json};
use crate::text::{has_char, joined, joined3};
use vstd::prelude::*;
use vstd::string::*;

verus! {

/// A location, as its namespace and its path.
pub type Location = (Seq<char>, Seq<char>);

/// The whole of a location, `namespace:path`, which is what a tag is looked up by.
pub open spec fn full_name(id: Location) -> Seq<char> {
    id.0 + seq![':'] + id.1
}

/// One line of a tag file, as what it names, whether it names a tag, and whether it is required.
pub type Line = (Location, bool, bool);

/// One line of a tag file.
#[derive(Clone, Debug, PartialEq, Eq)]
pub struct TagEntry {
    /// The element, or the tag, this line names.
    pub id: Identifier,
    /// Whether the line names a tag rather than an element.
    pub is_tag: bool,
    /// A line that is not required is skipped when what it names is not there; a required one
    /// that is missing sinks the whole tag.
    pub required: bool,
}

impl TagEntry {
    pub open spec fn line(&self) -> Line {
        (self.id@, self.is_tag, self.required)
    }
}

/// What a line written as `id` — `#id` for a tag — reads as, if its location is one.
pub open spec fn line_from(s: Seq<char>, required: bool) -> Option<Line> {
    let is_tag = s.len() > 0 && s[0] == '#';
    let rest = if is_tag {
        s.skip(1)
    } else {
        s
    };
    match read_location(rest) {
        Ok(id) => Some((id, is_tag, required)),
        Err(_) => None,
    }
}

/// What one value of a tag file's `values` reads as: a string, or an object with an `id` and a
/// `required` that defaults to true.
pub open spec fn line_of(value: Json) -> Option<Line> {
    match value {
        Json::String(s) => line_from(s@, true),
        _ => match value.field("id"@) {
            Some(id) => match id.text_value() {
                Some(text) => {
                    let required = match value.field("required"@) {
                        Some(r) => match r.bool_value() {
                            Some(b) => b,
                            None => true,
                        },
                        None => true,
                    };
                    line_from(text, required)
                },
                None => None,
            },
            None => None,
        },
    }
}

/// A line is required unless it says otherwise: a tag value written as an object with an `id`
/// reads as the same line as that id written alone as a string, which is required, unless the
/// object says `"required": false`, which makes it optional.
pub proof fn lemma_required_unless_said_otherwise(value: Json, id: String)
    requires
        value is Object,
        value.field("id"@) == Some(Json::String(id)),
    ensures
        !(value.field("required"@) matches Some(r) && r.bool_value() == Some(false)) ==> line_of(
            value,
        ) == line_of(Json::String(id)),
        line_of(Json::String(id)) matches Some(l) ==> l.2,
        (value.field("required"@) matches Some(r) && r.bool_value() == Some(false)) ==> line_of(
            value,
        ) == line_from(id@, false),
        forall|b: bool| #[trigger] line_from(id@, b) matches Some(l) ==> l.2 == b,
{
}

/// The lines a list of values reads as, the unreadable ones left out.
pub open spec fn lines_of(values: Seq<Json>) -> Seq<Line>
    decreases values.len(),
{
    if values.len() == 0 {
        Seq::empty()
    } else {
        let before = lines_of(values.drop_last());
        match line_of(values.last()) {
            Some(line) => before.push(line),
            None => before,
        }
    }
}

/// Whether a tag file says to drop what the packs below it declared.
pub open spec fn replaces(file: Json) -> bool {
    match file.field("replace"@) {
        Some(r) => match r.bool_value() {
            Some(b) => b,
            None => false,
        },
        None => false,
    }
}

/// The values a tag file lists, nothing where it lists none.
pub open spec fn values_of(file: Json) -> Seq<Json> {
    match file.field("values"@) {
        Some(v) => match v.items() {
            Some(items) => items,
            None => Seq::empty(),
        },
        None => Seq::empty(),
    }
}

impl TagEntry {
    /// Reads a line written as `id`, or `#id` for a tag.
    pub fn from_id(id: &str, required: bool) -> (r: Option<Self>)
        ensures
            match r {
                Some(e) => line_from(id@, required) == Some(e.line()),
                None => line_from(id@, required) is None,
            },
    {
        let n = id.unicode_len();
        let is_tag = n > 0 && id.get_char(0) == '#';
        let rest = if is_tag {
            id.substring_char(1, n)
        } else {
            id
        };
        match Identifier::parse(rest) {
            Ok(parsed) => Some(TagEntry { id: parsed, is_tag, required }),
            Err(_) => None,
        }
    }

    /// Reads one value of a tag file's `values`.
    pub fn parse(value: &Json) -> (r: Option<Self>)
        ensures
            match r {
                Some(e) => line_of(*value) == Some(e.line()),
                None => line_of(*value) is None,
            },
    {
        match value {
            Json::String(id) => Self::from_id(id.as_str(), true),
            _ => {
                let id = match value.get("id") {
                    Some(id) => id,
                    None => return None,
                };
                let text = match id.as_str() {
                    Some(text) => text,
                    None => return None,
                };
                let required = match value.get("required") {
                    Some(r) => match r.as_bool() {
                        Some(b) => b,
                        None => true,
                    },
                    None => true,
                };
                Self::from_id(text, required)
            },
        }
    }

    /// How the line is written in a file: `#` for a tag, and `?` after one that is optional.
    pub fn describe(&self) -> (r: String)
        ensures
            r@ == (if self.is_tag {
                seq!['#']
            } else {
                Seq::empty()
            }) + full_name(self.id@) + (if self.required {
                Seq::empty()
            } else {
                seq!['?']
            }),
    {
        proof {
            reveal_strlit("#");
            reveal_strlit("?");
            assert("#"@ =~= seq!['#']);
            assert("?"@ =~= seq!['?']);
        }
        let whole = self.id.as_str();
        let mut out = if self.is_tag {
            joined("#", whole.as_str())
        } else {
            whole
        };
        if !self.required {
            out.append("?");
        }
        assert(out@ =~= (if self.is_tag {
            seq!['#']
        } else {
            Seq::empty()
        }) + full_name(self.id@) + (if self.required {
            Seq::empty()
        } else {
            seq!['?']
        }));
        out
    }
}

/// A tag file that is not JSON at all.
#[derive(Debug, Clone, Copy, PartialEq, Eq)]
pub struct NotJson;

/// Reads a tag file: the lines it declares, and whether it drops what came before it.
pub fn parse_tag_file(bytes: &[u8]) -> (r: Result<(Vec<TagEntry>, bool), NotJson>)
    ensures
        match crate::json::json_of_bytes(bytes@) {
            None => r is Err,
            Some(file) => match r {
                Ok((entries, replace)) => replace == replaces(file) && entries@.map_values(
                    |e: TagEntry| e.line(),
                ) == lines_of(values_of(file)),
                Err(_) => false,
            },
        },
{
    let file = match parse_json(bytes) {
        Some(file) => file,
        None => return Err(NotJson),
    };
    Ok(tag_file(&file))
}

/// What a read tag file declares: the lines it holds, in order, less those that are not lines,
/// and whether it drops what came before it.
pub fn tag_file(file: &Json) -> (r: (Vec<TagEntry>, bool))
    ensures
        r.1 == replaces(*file),
        r.0@.map_values(|e: TagEntry| e.line()) == lines_of(values_of(*file)),
{
    let replace = match file.get("replace") {
        Some(r) => match r.as_bool() {
            Some(b) => b,
            None => false,
        },
        None => false,
    };
    let mut entries: Vec<TagEntry> = Vec::new();
    match file.get("values") {
        Some(values) => match values.as_array() {
            Some(items) => {
                let mut i: usize = 0;
                assert(items@.take(0) =~= Seq::<Json>::empty());
                while i < items.len()
                    invariant
                        i <= items.len(),
                        entries@.map_values(|e: TagEntry| e.line()) == lines_of(
                            items@.take(i as int),
                        ),
                    decreases items.len() - i,
                {
                    assert(items@.take(i + 1).drop_last() =~= items@.take(i as int));
                    match TagEntry::parse(&items[i]) {
                        Some(entry) => {
                            entries.push(entry);
                        },
                        None => {},
                    }
                    i = i + 1;
                    assert(entries@.map_values(|e: TagEntry| e.line()) =~= lines_of(
                        items@.take(i as int),
                    ));
                }
                assert(items@.take(items.len() as int) =~= items@);
            },
            None => {
                assert(entries@.map_values(|e: TagEntry| e.line()) =~= Seq::<Line>::empty());
            },
        },
        None => {
            assert(entries@.map_values(|e: TagEntry| e.line()) =~= Seq::<Line>::empty());
        },
    }
    (entries, replace)
}

/// A handle to one tag, resolved once and then asked many times.
///
/// A registry has its own set of tags, so a handle only means anything against the one it came
/// from.
#[derive(Clone, Copy, PartialEq, Eq, Debug)]
pub struct TagId(pub usize);

/// How many 64-bit words it takes to hold one bit per element.
pub open spec fn words_for(count: nat) -> nat {
    if count % 64 == 0 {
        count / 64
    } else {
        count / 64 + 1
    }
}

/// Whether the bit for `e` is set in a row of words.
pub open spec fn bit_set(words: Seq<u64>, e: int) -> bool {
    words[e / 64] & (1u64 << ((e % 64) as u64)) != 0
}

/// Every tag over one registry, flattened.
pub struct TagRegistry {
    /// Each tag's whole name, `namespace:path`, and its handle.
    by_name: Vec<(String, usize)>,
    /// Membership, one bit per element, so a query is a bit test.
    bits: Vec<Vec<u64>>,
    /// The same members in the order the tag declared them, for the callers that walk a tag or
    /// pick out of it by index.
    ordered: Vec<Vec<u32>>,
    element_count: usize,
}

/// The handle `name` has among named handles, if it has one.
pub open spec fn handle_of(by_name: Seq<(String, usize)>, name: Seq<char>) -> Option<int>
    decreases by_name.len(),
{
    if by_name.len() == 0 {
        None
    } else if by_name[0].0@ == name {
        Some(by_name[0].1 as int)
    } else {
        handle_of(by_name.drop_first(), name)
    }
}

proof fn lemma_handle_of_in_bounds(by_name: Seq<(String, usize)>, name: Seq<char>, bound: int)
    requires
        forall|i: int| 0 <= i < by_name.len() ==> (#[trigger] by_name[i]).1 < bound,
    ensures
        handle_of(by_name, name) matches Some(t) ==> 0 <= t < bound,
    decreases by_name.len(),
{
    if by_name.len() > 0 {
        lemma_handle_of_in_bounds(by_name.drop_first(), name, bound);
    }
}

proof fn lemma_handle_of_found(by_name: Seq<(String, usize)>, name: Seq<char>, i: int)
    requires
        0 <= i < by_name.len(),
        by_name[i].0@ == name,
        forall|j: int| 0 <= j < i ==> (#[trigger] by_name[j]).0@ != name,
    ensures
        handle_of(by_name, name) == Some(by_name[i].1 as int),
    decreases i,
{
    if i > 0 {
        lemma_handle_of_found(by_name.drop_first(), name, i - 1);
    }
}

proof fn lemma_handle_of_absent(by_name: Seq<(String, usize)>, name: Seq<char>)
    requires
        forall|j: int| 0 <= j < by_name.len() ==> (#[trigger] by_name[j]).0@ != name,
    ensures
        handle_of(by_name, name) is None,
    decreases by_name.len(),
{
    if by_name.len() > 0 {
        lemma_handle_of_absent(by_name.drop_first(), name);
    }
}

proof fn lemma_or_bit(x: u64, k: u64, j: u64)
    requires
        k < 64,
        j < 64,
    ensures
        ((x | (1u64 << k)) & (1u64 << j) != 0) == ((x & (1u64 << j) != 0) || j == k),
{
    assert(((x | (1u64 << k)) & (1u64 << j) != 0) == ((x & (1u64 << j) != 0) || j == k))
        by (bit_vector)
        requires
            k < 64,
            j < 64,
    ;
}

proof fn lemma_zero_bit(j: u64)
    requires
        j < 64,
    ensures
        0u64 & (1u64 << j) == 0,
{
    assert(0u64 & (1u64 << j) == 0) by (bit_vector);
}

impl TagRegistry {
    /// What the registry holds is consistent: every tag has a row of bits as long as the
    /// registry needs, each bit says whether the tag holds that element, every name has a handle
    /// to a tag there is, and no name is there twice.
    pub closed spec fn wf(&self) -> bool {
        &&& self.bits@.len() == self.ordered@.len()
        &&& forall|t: int|
            0 <= t < self.bits@.len() ==> (#[trigger] self.bits@[t])@.len() == words_for(
                self.element_count as nat,
            )
        &&& forall|t: int, e: int|
            #![trigger bit_set(self.bits@[t]@, e)]
            0 <= t < self.bits@.len() && 0 <= e < self.element_count ==> (bit_set(
                self.bits@[t]@,
                e,
            ) <==> (e <= u32::MAX && self.ordered@[t]@.contains(e as u32)))
        &&& forall|i: int|
            0 <= i < self.by_name@.len() ==> (#[trigger] self.by_name@[i]).1
                < self.ordered@.len()
        &&& forall|i: int, j: int|
            0 <= i < j < self.by_name@.len() ==> (#[trigger] self.by_name@[i]).0@
                != (#[trigger] self.by_name@[j]).0@
    }

    /// The handle a name has, if it has one.
    pub closed spec fn handle(&self, name: Seq<char>) -> Option<int> {
        handle_of(self.by_name@, name)
    }

    /// What a tag holds, in the order it declared it.
    pub closed spec fn members(&self, t: int) -> Seq<u32> {
        self.ordered@[t]@
    }

    /// How many tags have been put in, whether or not a later one took the name.
    pub closed spec fn built(&self) -> nat {
        self.ordered@.len()
    }

    /// How many elements the registry the tags are over has.
    pub closed spec fn element_count(&self) -> nat {
        self.element_count as nat
    }

    /// Every name, in the order the tags were put in.
    pub closed spec fn name_list(&self) -> Seq<Seq<char>> {
        self.by_name@.map_values(|p: (String, usize)| p.0@)
    }

    /// A registry over `element_count` elements, with no tags.
    pub fn new(element_count: usize) -> (r: Self)
        ensures
            r.wf(),
            r.built() == 0,
            r.element_count() == element_count,
            r.name_list() == Seq::<Seq<char>>::empty(),
            forall|name: Seq<char>| r.handle(name) is None,
    {
        let r = TagRegistry {
            by_name: Vec::new(),
            bits: Vec::new(),
            ordered: Vec::new(),
            element_count,
        };
        assert(r.name_list() =~= Seq::<Seq<char>>::empty());
        r
    }

    /// Puts a tag in under a name, which from then on names it.
    pub fn insert(&mut self, name: &Identifier, elements: Vec<u32>)
        requires
            old(self).wf(),
        ensures
            final(self).wf(),
            final(self).built() == old(self).built() + 1,
            final(self).element_count() == old(self).element_count(),
            final(self).members(old(self).built() as int) == elements@,
            forall|t: int| 0 <= t < old(self).built() ==> final(self).members(t) == old(self).members(t),
            final(self).handle(full_name(name@)) == Some(old(self).built() as int),
            forall|other: Seq<char>|
                other != full_name(name@) ==> final(self).handle(other) == old(self).handle(other),
            old(self).handle(full_name(name@)) is None ==> final(self).name_list() == old(self).name_list().push(full_name(name@)),
            old(self).handle(full_name(name@)) is Some ==> final(self).name_list() == old(self).name_list(),
    {
        let count = self.element_count;
        let words = if count % 64 == 0 {
            count / 64
        } else {
            count / 64 + 1
        };
        let mut row: Vec<u64> = Vec::new();
        let mut w: usize = 0;
        while w < words
            invariant
                w <= words,
                row@.len() == w,
                forall|k: int| 0 <= k < w ==> row@[k] == 0u64,
            decreases words - w,
        {
            row.push(0u64);
            w = w + 1;
        }
        proof {
            assert forall|e: int| 0 <= e < count implies !bit_set(row@, e) by {
                lemma_zero_bit((e % 64) as u64);
            }
        }
        let mut i: usize = 0;
        while i < elements.len()
            invariant
                i <= elements.len(),
                count == self.element_count,
                row@.len() == words,
                words == words_for(count as nat),
                forall|e: int|
                    0 <= e < count ==> (bit_set(row@, e) <==> (e <= u32::MAX && elements@.take(
                        i as int,
                    ).contains(e as u32))),
            decreases elements.len() - i,
        {
            let element = elements[i];
            let at = element as usize;
            let ghost before = row@;
            proof {
                if !(at < count) {
                    assert forall|e: int| 0 <= e < count implies (bit_set(row@, e) <==> (bit_set(
                        before,
                        e,
                    ) || e == at)) by {}
                }
            }
            if at < count {
                let word = at / 64;
                let shift = (at % 64) as u64;
                let updated = row[word] | (1u64 << shift);
                row.set(word, updated);
                proof {
                    assert forall|e: int| 0 <= e < count implies (bit_set(row@, e) <==> (
                    bit_set(before, e) || e == at)) by {
                        lemma_or_bit(before[word as int], shift, (e % 64) as u64);
                        if e / 64 == word as int {
                            if e % 64 == shift as int {
                                assert(e == at);
                            }
                        }
                    }
                }
            }
            proof {
                assert(elements@.take(i + 1) =~= elements@.take(i as int).push(element));
                assert forall|e: int| 0 <= e < count implies (bit_set(row@, e) <==> (e <= u32::MAX
                    && elements@.take(i + 1).contains(e as u32))) by {
                    lemma_push_contains(elements@.take(i as int), element, e as u32);
                    assert(bit_set(before, e) <==> (e <= u32::MAX && elements@.take(i as int).contains(
                        e as u32,
                    )));
                    assert(bit_set(row@, e) <==> (bit_set(before, e) || e == at));
                    if e <= u32::MAX && e as u32 == element {
                        assert(e == at);
                    }
                }
            }
            i = i + 1;
        }
        assert(elements@.take(elements.len() as int) =~= elements@);
        let handle = self.ordered.len();
        let whole = name.as_str();
        let ghost old_names = self.by_name@;
        let position = self.position(whole.as_str());
        let found = position.is_some();
        let j: usize = match position {
            Some(j) => j,
            None => 0,
        };
        proof {
            if found {
                lemma_handle_of_found(old_names, whole@, j as int);
            } else {
                lemma_handle_of_absent(old_names, whole@);
            }
        }
        if found {
            let entry_name = whole;
            self.by_name.set(j, (entry_name, handle));
        } else {
            self.by_name.push((whole, handle));
        }
        self.bits.push(row);
        self.ordered.push(elements);
        proof {
            let names = self.by_name@;
            assert forall|other: Seq<char>| other != full_name(name@) implies handle_of(
                names,
                other,
            ) == handle_of(old_names, other) by {
                lemma_handle_shift(old_names, names, other, j as int, found);
            }
            if found {
                lemma_handle_of_found(names, whole@, j as int);
                assert(self.name_list() =~= old(self).name_list());
            } else {
                lemma_handle_of_found(names, whole@, old_names.len() as int);
                assert(self.name_list() =~= old(self).name_list().push(full_name(name@)));
            }
            assert forall|t: int, e: int|
                0 <= t < self.bits@.len() && 0 <= e < self.element_count implies (bit_set(
                self.bits@[t]@,
                e,
            ) <==> (e <= u32::MAX && self.ordered@[t]@.contains(e as u32))) by {
                if t < old(self).bits@.len() {
                    assert(self.bits@[t] == old(self).bits@[t]);
                    assert(self.ordered@[t] == old(self).ordered@[t]);
                }
            }
        }
    }

    /// The handle for this tag, if it exists.
    pub fn get(&self, name: &Identifier) -> (r: Option<TagId>)
        requires
            self.wf(),
        ensures
            match r {
                Some(t) => self.handle(full_name(name@)) == Some(t.0 as int),
                None => self.handle(full_name(name@)) is None,
            },
            r matches Some(t) ==> t.0 < self.built(),
    {
        let whole = name.as_str();
        self.find(whole.as_str())
    }

    /// Where a name sits among the names, if it is there.
    fn position(&self, name: &str) -> (r: Option<usize>)
        ensures
            match r {
                Some(j) => j < self.by_name@.len() && self.by_name@[j as int].0@ == name@ && (forall|
                    k: int,
                | 0 <= k < j ==> (#[trigger] self.by_name@[k]).0@ != name@),
                None => forall|k: int|
                    0 <= k < self.by_name@.len() ==> (#[trigger] self.by_name@[k]).0@ != name@,
            },
    {
        let mut j: usize = 0;
        while j < self.by_name.len()
            invariant
                j <= self.by_name.len(),
                forall|k: int| 0 <= k < j ==> (#[trigger] self.by_name@[k]).0@ != name@,
            decreases self.by_name.len() - j,
        {
            if crate::text::same_text(self.by_name[j].0.as_str(), name) {
                return Some(j);
            }
            j = j + 1;
        }
        None
    }

    fn find(&self, name: &str) -> (r: Option<TagId>)
        requires
            self.wf(),
        ensures
            match r {
                Some(t) => self.handle(name@) == Some(t.0 as int),
                None => self.handle(name@) is None,
            },
            r matches Some(t) ==> t.0 < self.built(),
    {
        match self.position(name) {
            Some(j) => {
                proof {
                    lemma_handle_of_found(self.by_name@, name@, j as int);
                }
                Some(TagId(self.by_name[j].1))
            },
            None => {
                proof {
                    lemma_handle_of_absent(self.by_name@, name@);
                }
                None
            },
        }
    }

    /// The handle for this tag by name. A name without a namespace is read as `minecraft:`.
    pub fn get_by_name(&self, name: &str) -> (r: Option<TagId>)
        requires
            self.wf(),
        ensures
            match r {
                Some(t) => self.handle(qualified(name@)) == Some(t.0 as int),
                None => self.handle(qualified(name@)) is None,
            },
            r matches Some(t) ==> t.0 < self.built(),
    {
        if has_char(name, ':') {
            self.find(name)
        } else {
            let whole = joined("minecraft:", name);
            self.find(whole.as_str())
        }
    }

    /// Whether the tag holds this element.
    pub fn contains(&self, tag: TagId, element: u32) -> (r: bool)
        requires
            self.wf(),
            tag.0 < self.built(),
        ensures
            r == ((element as int) < self.element_count() && self.members(tag.0 as int).contains(
                element,
            )),
    {
        let at = element as usize;
        if at >= self.element_count {
            return false;
        }
        let word = self.bits[tag.0][at / 64];
        let r = word & (1u64 << ((at % 64) as u64)) != 0;
        proof {
            assert(bit_set(self.bits@[tag.0 as int]@, at as int) == r);
            assert((at as int) as u32 == element);
            assert(at as int <= u32::MAX);
        }
        r
    }

    /// The tag's elements, in the order it declared them.
    pub fn elements(&self, tag: TagId) -> (r: &[u32])
        requires
            self.wf(),
            tag.0 < self.built(),
        ensures
            r@ == self.members(tag.0 as int),
    {
        self.ordered[tag.0].as_slice()
    }

    /// Every tag's name.
    pub fn names(&self) -> (r: Vec<&str>)
        ensures
            r@.map_values(|s: &str| s@) == self.name_list(),
    {
        let mut out: Vec<&str> = Vec::new();
        let mut j: usize = 0;
        while j < self.by_name.len()
            invariant
                j <= self.by_name.len(),
                out@.len() == j,
                forall|k: int| 0 <= k < j ==> (#[trigger] out@[k])@ == self.by_name@[k].0@,
            decreases self.by_name.len() - j,
        {
            out.push(self.by_name[j].0.as_str());
            j = j + 1;
        }
        assert(out@.map_values(|s: &str| s@) =~= self.name_list());
        out
    }

    /// How many names there are.
    pub fn len(&self) -> (r: usize)
        ensures
            r == self.name_list().len(),
    {
        self.by_name.len()
    }

    /// Whether there are no tags at all.
    pub fn is_empty(&self) -> (r: bool)
        ensures
            r == (self.name_list().len() == 0),
    {
        self.by_name.len() == 0
    }
}

/// What is in a sequence with one more on the end is what was in it, and the one more.
pub proof fn lemma_push_contains<A>(s: Seq<A>, a: A, x: A)
    ensures
        s.push(a).contains(x) <==> (s.contains(x) || x == a),
{
    if s.push(a).contains(x) {
        let k = choose|k: int| 0 <= k < s.push(a).len() && #[trigger] s.push(a)[k] == x;
        if k < s.len() {
            assert(s[k] == x);
        }
    }
    if s.contains(x) {
        let k = choose|k: int| 0 <= k < s.len() && #[trigger] s[k] == x;
        assert(s.push(a)[k] == x);
    }
    if x == a {
        assert(s.push(a)[s.len() as int] == x);
    }
}

/// A name as a lookup reads it: as it is where it has a namespace, in `minecraft:` where not.
pub open spec fn qualified(name: Seq<char>) -> Seq<char> {
    if name.contains(':') {
        name
    } else {
        "minecraft:"@ + name
    }
}

/// Replacing one name's handle, or adding a name, leaves every other name's handle alone.
proof fn lemma_handle_shift(
    before: Seq<(String, usize)>,
    after: Seq<(String, usize)>,
    other: Seq<char>,
    j: int,
    replaced: bool,
)
    requires
        replaced ==> 0 <= j < before.len() && after.len() == before.len() && (forall|k: int|
            0 <= k < before.len() && k != j ==> after[k] == before[k]) && after[j].0@
            == before[j].0@,
        !replaced ==> after.len() == before.len() + 1 && (forall|k: int|
            0 <= k < before.len() ==> after[k] == before[k]),
        !replaced ==> after[before.len() as int].0@ != other,
        replaced ==> before[j].0@ != other,
    ensures
        handle_of(after, other) == handle_of(before, other),
    decreases before.len(),
{
    if before.len() == 0 {
        assert(after.len() == 1);
        assert(after[0].0@ != other);
        assert(after.drop_first().len() == 0);
    } else if replaced && j == 0 {
        assert(before.drop_first() =~= after.drop_first());
        assert(after[0].0@ == before[0].0@);
    } else if replaced {
        assert(after[0] == before[0]);
        lemma_handle_shift(before.drop_first(), after.drop_first(), other, j - 1, true);
    } else {
        assert(after[0] == before[0]);
        lemma_handle_shift(before.drop_first(), after.drop_first(), other, j, false);
    }
}

} // verus!
