//! Advancements: the tree of things a player has done.
//!
//! An advancement is a set of named criteria, each a trigger with conditions, plus a rule saying
//! which of them together count as done. A trigger fires from gameplay, and every criterion
//! listening for it is offered the event.
use crate::identifier::{read_location, Identifier};
use crate::json::{alike, json_of_bytes, parse_json, Json};
use crate::keyed::{
    placed, file_under, filed, find_filed, has_name, keys_sorted, lemma_filed_has_name, lemma_filed_placed,
    lemma_placed_named, named_by, placed_view,
};
use crate::manager::Resource;
use crate::tag::Location;
use crate::text::same_text;
use crate::trigger::{read_trigger, reading_of, reads_as, Reading, Trigger};
use vstd::prelude::*;

verus! {

/// Where a pack keeps its advancements.
pub const DIRECTORY: &'static str = "advancement";

/// Why an advancement could not be read.
#[derive(Debug, PartialEq, Eq)]
pub enum AdvancementError {
    /// The file is not an object.
    NotAnObject,
    /// It has no criteria, so it could never be finished.
    NoCriteria,
    /// The criterion of this name names no trigger.
    NoTrigger(String),
    /// The trigger of this name does not exist.
    UnknownTrigger(String),
    /// The requirements name a criterion that is not there.
    UnknownRequirement(String),
}

/// Why an advancement was refused, with the text each reason carries.
pub enum Refusal {
    NotAnObject,
    NoCriteria,
    NoTrigger(Seq<char>),
    UnknownTrigger(Seq<char>),
    UnknownRequirement(Seq<char>),
}

impl AdvancementError {
    pub open spec fn fault(&self) -> Refusal {
        match self {
            AdvancementError::NotAnObject => Refusal::NotAnObject,
            AdvancementError::NoCriteria => Refusal::NoCriteria,
            AdvancementError::NoTrigger(n) => Refusal::NoTrigger(n@),
            AdvancementError::UnknownTrigger(n) => Refusal::UnknownTrigger(n@),
            AdvancementError::UnknownRequirement(n) => Refusal::UnknownRequirement(n@),
        }
    }
}

/// Which criteria together count as done: every group has to have one of its criteria granted.
#[derive(Debug)]
pub struct Requirements(pub Vec<Vec<String>>);

impl View for Requirements {
    type V = Seq<Seq<Seq<char>>>;

    open spec fn view(&self) -> Seq<Seq<Seq<char>>> {
        self.0@.map_values(|g: Vec<String>| g@.map_values(|s: String| s@))
    }
}

/// Whether `granted` answers yes for the name `name`.
pub open spec fn says_yes<F: Fn(&str) -> bool>(granted: F, name: Seq<char>) -> bool {
    exists|s: &str| s@ == name && call_ensures(granted, (s,), true)
}

/// Whether `granted` can be asked about any name, and gives one answer for each.
pub open spec fn answers_steadily<F: Fn(&str) -> bool>(granted: F) -> bool {
    &&& forall|s: &str| call_requires(granted, (s,))
    &&& forall|a: &str, b: &str, x: bool, y: bool|
        #![trigger call_ensures(granted, (a,), x), call_ensures(granted, (b,), y)]
        a@ == b@ && call_ensures(granted, (a,), x) && call_ensures(granted, (b,), y) ==> x == y
}

/// Whether some name of the group is granted.
pub open spec fn group_met(group: Seq<Seq<char>>, granted: spec_fn(Seq<char>) -> bool) -> bool {
    exists|j: int| 0 <= j < group.len() && granted(#[trigger] group[j])
}

/// Whether enough is granted: there is at least one group, and every group has a name granted.
pub open spec fn satisfied(groups: Seq<Seq<Seq<char>>>, granted: spec_fn(Seq<char>) -> bool) -> bool {
    &&& groups.len() > 0
    &&& forall|i: int| 0 <= i < groups.len() ==> group_met(#[trigger] groups[i], granted)
}

/// Whether every item is a piece of text.
pub open spec fn all_text(items: Seq<Json>) -> bool {
    forall|i: int| 0 <= i < items.len() ==> (#[trigger] items[i]).text_value() is Some
}

/// The texts of items that are all text.
pub open spec fn texts(items: Seq<Json>) -> Seq<Seq<char>> {
    items.map_values(|j: Json| j.text_value().unwrap())
}

/// Whether a value is a group of names: an array of texts.
pub open spec fn is_group(value: Json) -> bool {
    value.items() matches Some(names) && all_text(names)
}

/// The requirements a value writes down, where it is an array of groups of names.
pub open spec fn requirements_of(value: Json) -> Option<Seq<Seq<Seq<char>>>> {
    match value.items() {
        Some(groups) => if forall|i: int| 0 <= i < groups.len() ==> is_group(#[trigger] groups[i]) {
            Some(groups.map_values(|g: Json| texts(g.items().unwrap())))
        } else {
            None
        },
        None => None,
    }
}

/// Reads a group of names, where every item is one.
fn read_group(items: &Vec<Json>) -> (r: Option<Vec<String>>)
    ensures
        match r {
            Some(names) => all_text(items@) && names@.map_values(|s: String| s@) == texts(items@),
            None => !all_text(items@),
        },
{
    let mut names: Vec<String> = Vec::new();
    let mut i: usize = 0;
    while i < items.len()
        invariant
            i <= items.len(),
            names.len() == i,
            forall|k: int| 0 <= k < i ==> (#[trigger] items@[k]).text_value() == Some(names@[k]@),
        decreases items.len() - i,
    {
        match items[i].as_str() {
            Some(name) => names.push(String::from_str(name)),
            None => return None,
        }
        i = i + 1;
    }
    assert(names@.map_values(|s: String| s@) =~= texts(items@));
    Some(names)
}

impl Requirements {
    /// What a file says when it says nothing: every criterion, each in a group of its own, in the
    /// order of their names.
    fn all_of(criteria: &Vec<(String, Criterion)>) -> (r: Self)
        ensures
            r@ == criteria@.map_values(|p: (String, Criterion)| seq![p.0@]),
    {
        let mut groups: Vec<Vec<String>> = Vec::new();
        let mut i: usize = 0;
        while i < criteria.len()
            invariant
                i <= criteria.len(),
                groups.len() == i,
                forall|k: int|
                    0 <= k < i ==> (#[trigger] groups@[k])@.map_values(|s: String| s@) == seq![
                        criteria@[k].0@,
                    ],
            decreases criteria.len() - i,
        {
            let mut group: Vec<String> = Vec::new();
            group.push(criteria[i].0.clone());
            assert(group@.map_values(|s: String| s@) =~= seq![criteria@[i as int].0@]);
            groups.push(group);
            i = i + 1;
        }
        let r = Requirements(groups);
        assert(r@ =~= criteria@.map_values(|p: (String, Criterion)| seq![p.0@]));
        r
    }

    /// Reads requirements written as an array of groups of names.
    fn parse(value: &Json) -> (r: Option<Self>)
        ensures
            match r {
                Some(req) => requirements_of(*value) == Some(req@),
                None => requirements_of(*value) is None,
            },
    {
        let groups = match value.as_array() {
            Some(groups) => groups,
            None => return None,
        };
        let mut read: Vec<Vec<String>> = Vec::new();
        let mut i: usize = 0;
        while i < groups.len()
            invariant
                i <= groups.len(),
                value.items() == Some(groups@),
                read.len() == i,
                forall|k: int|
                    0 <= k < i ==> is_group(#[trigger] groups@[k]) && read@[k]@.map_values(
                        |s: String| s@,
                    ) == texts(groups@[k].items().unwrap()),
            decreases groups.len() - i,
        {
            let names = match groups[i].as_array() {
                Some(items) => match read_group(items) {
                    Some(names) => names,
                    None => return None,
                },
                None => return None,
            };
            read.push(names);
            i = i + 1;
        }
        let r = Requirements(read);
        assert(r@ =~= groups@.map_values(|g: Json| texts(g.items().unwrap())));
        Some(r)
    }

    /// Whether enough is granted. Requirements with no groups are never met, as vanilla has it.
    pub fn met<F: Fn(&str) -> bool>(&self, granted: F) -> (r: bool)
        requires
            answers_steadily(granted),
        ensures
            r == satisfied(self@, |name: Seq<char>| says_yes(granted, name)),
    {
        let ghost yes = |name: Seq<char>| says_yes(granted, name);
        if self.0.len() == 0 {
            return false;
        }
        let mut i: usize = 0;
        while i < self.0.len()
            invariant
                i <= self.0.len(),
                self.0.len() > 0,
                answers_steadily(granted),
                yes == (|name: Seq<char>| says_yes(granted, name)),
                forall|k: int| 0 <= k < i ==> group_met(#[trigger] self@[k], yes),
            decreases self.0.len() - i,
        {
            let group = &self.0[i];
            assert(self@[i as int] == group@.map_values(|s: String| s@));
            let mut j: usize = 0;
            let mut any = false;
            while j < group.len() && !any
                invariant
                    j <= group.len(),
                    answers_steadily(granted),
                    yes == (|name: Seq<char>| says_yes(granted, name)),
                    self@[i as int] == group@.map_values(|s: String| s@),
                    any <==> exists|m: int| 0 <= m < j && yes(#[trigger] self@[i as int][m]),
                decreases group.len() - j,
            {
                let name = group[j].as_str();
                let b = granted(name);
                proof {
                    assert(self@[i as int][j as int] == name@);
                    if b {
                        assert(says_yes(granted, name@));
                    } else if says_yes(granted, name@) {
                        let w = choose|w: &str| w@ == name@ && call_ensures(granted, (w,), true);
                        assert(call_ensures(granted, (w,), true));
                        assert(call_ensures(granted, (name,), b));
                    }
                    assert(yes(self@[i as int][j as int]) == b);
                }
                any = b;
                j = j + 1;
            }
            if !any {
                assert(!group_met(self@[i as int], yes));
                return false;
            }
            i = i + 1;
        }
        true
    }
}

/// What a criterion of this name, written as `value`, reads as, or why it is refused.
pub open spec fn criterion_outcome(name: Seq<char>, value: Json) -> Result<Reading, Refusal> {
    match reading_of(value) {
        Reading::NoTrigger => Err(Refusal::NoTrigger(name)),
        Reading::Unknown(t) => Err(Refusal::UnknownTrigger(t)),
        reading => Ok(reading),
    }
}

/// One named condition of an advancement.
#[derive(Debug, Clone, Copy)]
pub struct Criterion {
    pub trigger: Trigger,
}

impl Criterion {
    /// Reads the criterion called `name`: its trigger, with or without the `minecraft:`
    /// namespace. One that names no trigger, or one that does not exist, is refused.
    pub fn parse(name: &str, value: &Json) -> (r: Result<Self, AdvancementError>)
        ensures
            match r {
                Ok(c) => criterion_outcome(name@, *value) == Ok::<Reading, Refusal>(
                    reads_as(c.trigger),
                ),
                Err(e) => criterion_outcome(name@, *value) == Err::<Reading, Refusal>(e.fault()),
            },
    {
        match read_trigger(value) {
            Ok(trigger) => Ok(Criterion { trigger }),
            Err(None) => Err(AdvancementError::NoTrigger(String::from_str(name))),
            Err(Some(written)) => Err(AdvancementError::UnknownTrigger(written)),
        }
    }
}

/// What shape an advancement's frame is, which also decides its colour and its announcement.
#[derive(Debug, Clone, Copy, PartialEq, Eq, Structural)]
pub enum Frame {
    Task,
    Challenge,
    Goal,
}

impl Frame {
    /// The frame a name stands for; anything it does not know is a task.
    pub fn parse(name: &str) -> (r: Self)
        ensures
            r == (if name@ == "challenge"@ {
                Frame::Challenge
            } else if name@ == "goal"@ {
                Frame::Goal
            } else {
                Frame::Task
            }),
    {
        if same_text(name, "challenge") {
            Frame::Challenge
        } else if same_text(name, "goal") {
            Frame::Goal
        } else {
            Frame::Task
        }
    }

    /// The number the client reads it as.
    pub fn index(self) -> (r: i32)
        ensures
            r == match self {
                Frame::Task => 0i32,
                Frame::Challenge => 1i32,
                Frame::Goal => 2i32,
            },
    {
        match self {
            Frame::Task => 0,
            Frame::Challenge => 1,
            Frame::Goal => 2,
        }
    }
}

impl Default for Frame {
    fn default() -> (r: Self)
        ensures
            r == Frame::Task,
    {
        Frame::Task
    }
}

/// The locations of those items that are texts naming one, in order; the others are passed over.
pub open spec fn locations_in(items: Seq<Json>) -> Seq<Location>
    decreases items.len(),
{
    if items.len() == 0 {
        seq![]
    } else {
        let before = locations_in(items.drop_last());
        match items.last().text_value() {
            Some(t) => match read_location(t) {
                Ok(loc) => before.push(loc),
                Err(_) => before,
            },
            None => before,
        }
    }
}

/// The locations listed under `key`, nothing where there is no list.
pub open spec fn listed(value: Json, key: Seq<char>) -> Seq<Location> {
    match value.field(key) {
        Some(list) => match list.items() {
            Some(items) => locations_in(items),
            None => seq![],
        },
        None => seq![],
    }
}

/// The location written under `key`, where it is a text that names one.
pub open spec fn location_at(value: Json, key: Seq<char>) -> Option<Location> {
    match value.field(key) {
        Some(v) => match v.text_value() {
            Some(t) => match read_location(t) {
                Ok(loc) => Some(loc),
                Err(_) => None,
            },
            None => None,
        },
        None => None,
    }
}

/// The flag written under `key`, or `default` where there is none.
pub open spec fn flag(value: Json, key: Seq<char>, default: bool) -> bool {
    match value.field(key) {
        Some(v) => match v.bool_value() {
            Some(b) => b,
            None => default,
        },
        None => default,
    }
}

/// The locations of a list of identifiers.
pub open spec fn ids(v: Seq<Identifier>) -> Seq<Location> {
    v.map_values(|id: Identifier| id@)
}

/// The location of an identifier that may be missing.
pub open spec fn opt_id(o: Option<Identifier>) -> Option<Location> {
    match o {
        Some(id) => Some(id@),
        None => None,
    }
}

/// The experience written under `experience`, where it is a whole number that fits; none else.
pub open spec fn experience_in(value: Json) -> i32 {
    match value.field("experience"@) {
        Some(v) => match v.i64_value() {
            Some(x) => if i32::MIN <= x <= i32::MAX {
                x as i32
            } else {
                0
            },
            None => 0,
        },
        None => 0,
    }
}

/// What is given for finishing one.
#[derive(Debug)]
pub struct Rewards {
    pub experience: i32,
    pub loot: Vec<Identifier>,
    pub recipes: Vec<Identifier>,
    pub function: Option<Identifier>,
}

/// Whether `r` is what the rewards written as `value` give.
pub open spec fn rewards_fit(r: Rewards, value: Json) -> bool {
    &&& r.experience == experience_in(value)
    &&& ids(r.loot@) == listed(value, "loot"@)
    &&& ids(r.recipes@) == listed(value, "recipes"@)
    &&& opt_id(r.function) == location_at(value, "function"@)
}

/// Reads the location a piece of text names, where it names one.
fn location_from(value: Option<&Json>) -> (r: Option<Identifier>)
    ensures
        opt_id(r) == match value {
            Some(v) => match v.text_value() {
                Some(t) => match read_location(t) {
                    Ok(loc) => Some(loc),
                    Err(_) => None::<Location>,
                },
                None => None,
            },
            None => None,
        },
{
    match value {
        Some(v) => match v.as_str() {
            Some(t) => match Identifier::parse(t) {
                Ok(id) => Some(id),
                Err(_) => None,
            },
            None => None,
        },
        None => None,
    }
}

impl Default for Rewards {
    fn default() -> (r: Self)
        ensures
            r.experience == 0,
            r.loot@ == Seq::<Identifier>::empty(),
            r.recipes@ == Seq::<Identifier>::empty(),
            r.function is None,
    {
        Rewards { experience: 0, loot: Vec::new(), recipes: Vec::new(), function: None }
    }
}

impl Rewards {
    /// The locations listed under `key`.
    fn list(value: &Json, key: &str) -> (r: Vec<Identifier>)
        ensures
            ids(r@) == listed(*value, key@),
    {
        let mut found: Vec<Identifier> = Vec::new();
        let items = match value.get(key) {
            Some(list) => match list.as_array() {
                Some(items) => items,
                None => {
                    assert(ids(found@) =~= seq![]);
                    return found;
                },
            },
            None => {
                assert(ids(found@) =~= seq![]);
                return found;
            },
        };
        let mut i: usize = 0;
        assert(ids(found@) =~= locations_in(items@.take(0)));
        while i < items.len()
            invariant
                i <= items.len(),
                ids(found@) == locations_in(items@.take(i as int)),
            decreases items.len() - i,
        {
            assert(items@.take(i + 1).drop_last() =~= items@.take(i as int));
            assert(items@.take(i + 1).last() == items@[i as int]);
            match location_from(Some(&items[i])) {
                Some(id) => {
                    found.push(id);
                    assert(ids(found@) =~= locations_in(items@.take(i + 1)));
                },
                None => {},
            }
            i = i + 1;
        }
        assert(items@.take(items.len() as int) =~= items@);
        found
    }

    /// Reads the rewards written as `value`; whatever is missing or unreadable gives nothing.
    fn parse(value: &Json) -> (r: Self)
        ensures
            rewards_fit(r, *value),
    {
        let experience = match value.get("experience") {
            Some(v) => match v.as_i64() {
                Some(x) => if i32::MIN as i64 <= x && x <= i32::MAX as i64 {
                    x as i32
                } else {
                    0
                },
                None => 0,
            },
            None => 0,
        };
        Rewards {
            experience,
            loot: Self::list(value, "loot"),
            recipes: Self::list(value, "recipes"),
            function: location_from(value.get("function")),
        }
    }
}

/// Whether `lookup` can be asked about any name, and gives one answer for each.
pub open spec fn looks_up_steadily<F: Fn(&str) -> Option<i32>>(lookup: F) -> bool {
    &&& forall|s: &str| call_requires(lookup, (s,))
    &&& forall|a: &str, b: &str, x: Option<i32>, y: Option<i32>|
        #![trigger call_ensures(lookup, (a,), x), call_ensures(lookup, (b,), y)]
        a@ == b@ && call_ensures(lookup, (a,), x) && call_ensures(lookup, (b,), y) ==> x == y
}

/// What `lookup` answers for the item called `name`: its registry id, if there is such an item.
pub open spec fn item_named<F: Fn(&str) -> Option<i32>>(lookup: F, name: Seq<char>) -> Option<i32> {
    (choose|p: (&str, Option<i32>)| p.0@ == name && call_ensures(lookup, (p.0,), p.1)).1
}

/// The name of the item a display shows as its icon: `icon.id`.
pub open spec fn icon_name(value: Json) -> Option<Seq<char>> {
    match value.field("icon"@) {
        Some(icon) => match icon.field("id"@) {
            Some(id) => id.text_value(),
            None => None,
        },
        None => None,
    }
}

/// The frame a name stands for.
pub open spec fn frame_named(name: Seq<char>) -> Frame {
    if name == "challenge"@ {
        Frame::Challenge
    } else if name == "goal"@ {
        Frame::Goal
    } else {
        Frame::Task
    }
}

/// Two values that may be missing, alike or both missing.
pub open spec fn alike_opt(a: Option<Json>, b: Option<Json>) -> bool {
    match (a, b) {
        (Some(x), Some(y)) => alike(x, y),
        (None, None) => true,
        _ => false,
    }
}

/// An advancement's entry on the screen. The title and the description are held as the text
/// components they are written as.
#[derive(Debug)]
pub struct DisplayInfo {
    pub title: Option<Json>,
    pub description: Option<Json>,
    /// The item shown as its icon, by registry id.
    pub icon: i32,
    pub frame: Frame,
    /// The texture behind a root's tab, which only a root has.
    pub background: Option<Identifier>,
    pub show_toast: bool,
    pub announce_to_chat: bool,
    pub hidden: bool,
}

/// Whether a display written as `value` can be shown: it is an object whose icon names an item
/// `lookup` knows.
pub open spec fn shown<F: Fn(&str) -> Option<i32>>(value: Json, lookup: F) -> bool {
    &&& value is Object
    &&& icon_name(value) matches Some(name) && item_named(lookup, name) is Some
}

/// Whether `info` is the display written as `value`.
pub open spec fn displays<F: Fn(&str) -> Option<i32>>(info: DisplayInfo, value: Json, lookup: F) -> bool {
    &&& alike_opt(info.title, value.field("title"@))
    &&& alike_opt(info.description, value.field("description"@))
    &&& Some(info.icon) == item_named(lookup, icon_name(value).unwrap())
    &&& info.frame == match value.field("frame"@) {
        Some(f) => match f.text_value() {
            Some(name) => frame_named(name),
            None => Frame::Task,
        },
        None => Frame::Task,
    }
    &&& opt_id(info.background) == location_at(value, "background"@)
    &&& info.show_toast == flag(value, "show_toast"@, true)
    &&& info.announce_to_chat == flag(value, "announce_to_chat"@, true)
    &&& info.hidden == flag(value, "hidden"@, false)
}

/// A copy of a value that may be missing.
fn copy_of(value: Option<&Json>) -> (r: Option<Json>)
    ensures
        alike_opt(
            r,
            match value {
                Some(v) => Some(*v),
                None => None,
            },
        ),
{
    match value {
        Some(v) => Some(v.duplicate()),
        None => None,
    }
}

/// The flag written as `value`, or `default`.
fn flag_from(value: Option<&Json>, default: bool) -> (r: bool)
    ensures
        r == match value {
            Some(v) => match v.bool_value() {
                Some(b) => b,
                None => default,
            },
            None => default,
        },
{
    match value {
        Some(v) => match v.as_bool() {
            Some(b) => b,
            None => default,
        },
        None => default,
    }
}

impl DisplayInfo {
    /// Reads a display, which shows only where it names an icon `lookup` knows.
    pub fn parse<F: Fn(&str) -> Option<i32>>(value: &Json, lookup: &F) -> (r: Option<Self>)
        requires
            looks_up_steadily(*lookup),
        ensures
            r is Some <==> shown(*value, *lookup),
            r matches Some(info) ==> displays(info, *value, *lookup),
    {
        match value {
            Json::Object(_) => {},
            _ => return None,
        }
        let name = match value.get("icon") {
            Some(icon) => match icon.get("id") {
                Some(id) => match id.as_str() {
                    Some(name) => name,
                    None => return None,
                },
                None => return None,
            },
            None => return None,
        };
        let icon = lookup(name);
        proof {
            assert(call_ensures(*lookup, ((name, icon).0,), (name, icon).1));
            let p = choose|p: (&str, Option<i32>)|
                p.0@ == name@ && call_ensures(*lookup, (p.0,), p.1);
            assert(call_ensures(*lookup, (p.0,), p.1));
            assert(call_ensures(*lookup, (name,), icon));
        }
        let icon = match icon {
            Some(icon) => icon,
            None => return None,
        };
        let frame = match value.get("frame") {
            Some(f) => match f.as_str() {
                Some(name) => Frame::parse(name),
                None => Frame::Task,
            },
            None => Frame::Task,
        };
        Some(
            DisplayInfo {
                title: copy_of(value.get("title")),
                description: copy_of(value.get("description")),
                icon,
                frame,
                background: location_from(value.get("background")),
                show_toast: flag_from(value.get("show_toast"), true),
                announce_to_chat: flag_from(value.get("announce_to_chat"), true),
                hidden: flag_from(value.get("hidden"), false),
            },
        )
    }
}


/// What a criterion's trigger reads as.
pub open spec fn criterion_view() -> spec_fn(Criterion) -> Reading {
    |c: Criterion| reads_as(c.trigger)
}

/// The criteria, by name, each with what its trigger reads as.
pub open spec fn readings(c: Seq<(String, Criterion)>) -> Seq<(Seq<char>, Reading)> {
    named_by(c, criterion_view())
}

/// The members of the `criteria` object, where there is one and it is not empty.
pub open spec fn criteria_of(value: Json) -> Option<Seq<(String, Json)>> {
    match value.field("criteria"@) {
        Some(Json::Object(m)) => if m@.len() > 0 {
            Some(m@)
        } else {
            None
        },
        _ => None,
    }
}

/// Why the first criterion, in the order written, that cannot be read is refused.
pub open spec fn first_refused(members: Seq<(String, Json)>) -> Option<Refusal>
    decreases members.len(),
{
    if members.len() == 0 {
        None
    } else {
        match criterion_outcome(members[0].0@, members[0].1) {
            Err(e) => Some(e),
            Ok(_) => first_refused(members.drop_first()),
        }
    }
}

/// The criteria read from the members, each filed under its name, in the order of names; a later
/// one of the same name over an earlier.
pub open spec fn gathered(members: Seq<(String, Json)>) -> Seq<(Seq<char>, Reading)>
    decreases members.len(),
{
    if members.len() == 0 {
        seq![]
    } else {
        let last = members.last();
        let before = gathered(members.drop_last());
        match criterion_outcome(last.0@, last.1) {
            Ok(reading) => placed_view(before, last.0@, reading),
            Err(_) => before,
        }
    }
}

/// Every criterion, each in a group of its own.
pub open spec fn default_groups(criteria: Seq<(Seq<char>, Reading)>) -> Seq<Seq<Seq<char>>> {
    criteria.map_values(|p: (Seq<char>, Reading)| seq![p.0])
}

/// The requirements an advancement written as `value` has: those written, where they can be
/// read, or else every criterion on its own.
pub open spec fn chosen_requirements(
    value: Json,
    criteria: Seq<(Seq<char>, Reading)>,
) -> Seq<Seq<Seq<char>>> {
    match value.field("requirements"@) {
        Some(written) => match requirements_of(written) {
            Some(groups) => groups,
            None => default_groups(criteria),
        },
        None => default_groups(criteria),
    }
}

/// The first name, in order, that no criterion carries.
pub open spec fn missing_from(names: Seq<Seq<char>>, criteria: Seq<(Seq<char>, Reading)>) -> Option<
    Seq<char>,
>
    decreases names.len(),
{
    if names.len() == 0 {
        None
    } else if has_name(criteria, names[0]) {
        missing_from(names.drop_first(), criteria)
    } else {
        Some(names[0])
    }
}

/// The first name, group by group, that no criterion carries.
pub open spec fn missing_in_groups(
    groups: Seq<Seq<Seq<char>>>,
    criteria: Seq<(Seq<char>, Reading)>,
) -> Option<Seq<char>>
    decreases groups.len(),
{
    if groups.len() == 0 {
        None
    } else {
        match missing_from(groups[0], criteria) {
            Some(n) => Some(n),
            None => missing_in_groups(groups.drop_first(), criteria),
        }
    }
}

/// Why an advancement written as `value` is refused, if it is: it is not an object; it has no
/// criteria; a criterion cannot be read; or its requirements name a criterion it does not have.
pub open spec fn refusal_of(value: Json) -> Option<Refusal> {
    if !(value is Object) {
        Some(Refusal::NotAnObject)
    } else {
        match criteria_of(value) {
            None => Some(Refusal::NoCriteria),
            Some(m) => match first_refused(m) {
                Some(e) => Some(e),
                None => match missing_in_groups(chosen_requirements(value, gathered(m)), gathered(m)) {
                    Some(n) => Some(Refusal::UnknownRequirement(n)),
                    None => None,
                },
            },
        }
    }
}

/// One advancement.
#[derive(Debug)]
pub struct Advancement {
    /// The one above it, absent for a root.
    pub parent: Option<Identifier>,
    /// How it appears on the screen. An advancement with none is invisible, which is what every
    /// recipe unlock is.
    pub display: Option<DisplayInfo>,
    pub rewards: Rewards,
    /// The criteria, by name, in the order of their names.
    pub criteria: Vec<(String, Criterion)>,
    pub requirements: Requirements,
    pub sends_telemetry_event: bool,
}

/// Whether `a` is the advancement written as `value`, which is not refused.
pub open spec fn reads_from<F: Fn(&str) -> Option<i32>>(a: Advancement, value: Json, lookup: F) -> bool {
    let m = criteria_of(value).unwrap();
    &&& keys_sorted(a.criteria@)
    &&& readings(a.criteria@) == gathered(m)
    &&& a.requirements@ == chosen_requirements(value, gathered(m))
    &&& opt_id(a.parent) == location_at(value, "parent"@)
    &&& match value.field("display"@) {
        Some(d) => (a.display is Some <==> shown(d, lookup)) && (a.display matches Some(info)
            ==> displays(info, d, lookup)),
        None => a.display is None,
    }
    &&& rewards_fit(
        a.rewards,
        match value.field("rewards"@) {
            Some(r) => r,
            None => Json::Null,
        },
    )
    &&& a.sends_telemetry_event == flag(value, "sends_telemetry_event"@, false)
}

/// The first name of `names` that no criterion carries.
fn check_group(names: &Vec<String>, criteria: &Vec<(String, Criterion)>) -> (r: Option<String>)
    ensures
        match r {
            Some(n) => missing_from(names@.map_values(|s: String| s@), readings(criteria@)) == Some(
                n@,
            ),
            None => missing_from(names@.map_values(|s: String| s@), readings(criteria@)) is None,
        },
{
    let ghost all = names@.map_values(|s: String| s@);
    let mut j: usize = 0;
    assert(all.skip(0) =~= all);
    while j < names.len()
        invariant
            j <= names.len(),
            all == names@.map_values(|s: String| s@),
            missing_from(all, readings(criteria@)) == missing_from(all.skip(j as int), readings(criteria@)),
        decreases names.len() - j,
    {
        assert(all.skip(j as int).drop_first() =~= all.skip(j + 1));
        assert(all.skip(j as int)[0] == names@[j as int]@);
        proof {
            lemma_filed_has_name(criteria@, names@[j as int]@, criterion_view());
        }
        if find_filed(criteria, names[j].as_str()).is_none() {
            return Some(names[j].clone());
        }
        j = j + 1;
    }
    None
}

impl Advancement {
    /// Reads an advancement. What it shows as its icon is found with `lookup`, by the item's name.
    pub fn parse<F: Fn(&str) -> Option<i32>>(value: &Json, lookup: &F) -> (r: Result<
        Self,
        AdvancementError,
    >)
        requires
            looks_up_steadily(*lookup),
        ensures
            match r {
                Ok(a) => refusal_of(*value) is None && reads_from(a, *value, *lookup),
                Err(e) => refusal_of(*value) == Some(e.fault()),
            },
    {
        match value {
            Json::Object(_) => {},
            _ => return Err(AdvancementError::NotAnObject),
        }
        let members = match value.get("criteria") {
            Some(Json::Object(m)) => if m.len() > 0 {
                m
            } else {
                return Err(AdvancementError::NoCriteria);
            },
            _ => return Err(AdvancementError::NoCriteria),
        };
        let ghost m = members@;
        let mut criteria: Vec<(String, Criterion)> = Vec::new();
        let mut i: usize = 0;
        assert(m.skip(0) =~= m);
        assert(readings(criteria@) =~= gathered(m.take(0)));
        assert(criteria_of(*value) == Some(m));
        while i < members.len()
            invariant
                i <= members.len(),
                m == members@,
                criteria_of(*value) == Some(m),
                keys_sorted(criteria@),
                readings(criteria@) == gathered(m.take(i as int)),
                first_refused(m) == first_refused(m.skip(i as int)),
            decreases members.len() - i,
        {
            assert(m.skip(i as int)[0] == m[i as int]);
            assert(m.skip(i as int).drop_first() =~= m.skip(i + 1));
            assert(m.take(i + 1).drop_last() =~= m.take(i as int));
            assert(m.take(i + 1).last() == m[i as int]);
            let c = match Criterion::parse(members[i].0.as_str(), &members[i].1) {
                Ok(c) => c,
                Err(e) => {
                    assert(criteria_of(*value) == Some(m));
                    assert(first_refused(m.skip(i as int)) == Some(e.fault()));
                    assert(first_refused(m) == Some(e.fault()));
                    return Err(e);
                },
            };
            proof {
                lemma_placed_named(criteria@, members@[i as int].0, c, criterion_view());
            }
            file_under(&mut criteria, members[i].0.clone(), c);
            i = i + 1;
        }
        assert(m.take(members.len() as int) =~= m);
        assert(m.skip(members.len() as int) =~= Seq::<(String, Json)>::empty());
        assert(first_refused(m) is None);
        let requirements = match value.get("requirements") {
            Some(written) => match Requirements::parse(written) {
                Some(req) => req,
                None => Requirements::all_of(&criteria),
            },
            None => Requirements::all_of(&criteria),
        };
        assert(criteria@.map_values(|p: (String, Criterion)| seq![p.0@]) =~= default_groups(
            readings(criteria@),
        ));
        let ghost groups = requirements@;
        let mut g: usize = 0;
        assert(groups.skip(0) =~= groups);
        while g < requirements.0.len()
            invariant
                g <= requirements.0.len(),
                groups == requirements@,
                criteria_of(*value) == Some(m),
                first_refused(m) is None,
                readings(criteria@) == gathered(m),
                groups == chosen_requirements(*value, gathered(m)),
                missing_in_groups(groups, readings(criteria@)) == missing_in_groups(
                    groups.skip(g as int),
                    readings(criteria@),
                ),
            decreases requirements.0.len() - g,
        {
            assert(groups.skip(g as int).drop_first() =~= groups.skip(g + 1));
            assert(groups.skip(g as int)[0] == requirements.0@[g as int]@.map_values(
                |s: String| s@,
            ));
            match check_group(&requirements.0[g], &criteria) {
                Some(name) => {
                    assert(criteria_of(*value) == Some(m));
                    assert(first_refused(m) is None);
                    assert(readings(criteria@) == gathered(m));
                    assert(groups == chosen_requirements(*value, gathered(m)));
                    assert(missing_in_groups(groups.skip(g as int), readings(criteria@)) == Some(name@));
                    return Err(AdvancementError::UnknownRequirement(name));
                },
                None => {},
            }
            g = g + 1;
        }
        let rewards = match value.get("rewards") {
            Some(written) => Rewards::parse(written),
            None => {
                let r = Rewards::default();
                assert(ids(r.loot@) =~= seq![]);
                assert(ids(r.recipes@) =~= seq![]);
                r
            },
        };
        let display = match value.get("display") {
            Some(d) => DisplayInfo::parse(d, lookup),
            None => None,
        };
        Ok(
            Advancement {
                parent: location_from(value.get("parent")),
                display,
                rewards,
                criteria,
                requirements,
                sends_telemetry_event: flag_from(value.get("sends_telemetry_event"), false),
            },
        )
    }

    /// Whether it is the root of a tree: it has no parent.
    pub fn is_root(&self) -> (r: bool)
        ensures
            r == self.parent is None,
    {
        self.parent.is_none()
    }
}


/// The name an advancement goes by: its location written out whole, `namespace:path`.
pub open spec fn full_name(id: Location) -> Seq<char> {
    id.0 + seq![':'] + id.1
}

/// The advancements a set of files holds, in the order the files come: each file's name and JSON,
/// where its bytes are JSON and the advancement is not refused. The others are passed over.
pub open spec fn readable(found: Seq<(Identifier, Resource)>) -> Seq<(Seq<char>, Json)>
    decreases found.len(),
{
    if found.len() == 0 {
        seq![]
    } else {
        let before = readable(found.drop_last());
        let (id, resource) = found.last();
        match json_of_bytes(resource.data@) {
            Some(value) => if refusal_of(value) is None {
                before.push((full_name(id@), value))
            } else {
                before
            },
            None => before,
        }
    }
}

/// What the last of them called `name` is written as.
pub open spec fn latest(read: Seq<(Seq<char>, Json)>, name: Seq<char>) -> Option<Json>
    decreases read.len(),
{
    if read.len() == 0 {
        None
    } else if read.last().0 == name {
        Some(read.last().1)
    } else {
        latest(read.drop_last(), name)
    }
}

/// Every advancement the loaded packs declare, by name, in the order of their names.
#[derive(Debug)]
pub struct Advancements {
    by_name: Vec<(String, Advancement)>,
}

impl Advancements {
    /// The advancements, by name, in the order of their names.
    pub closed spec fn listing(&self) -> Seq<(String, Advancement)> {
        self.by_name@
    }

    /// None at all.
    pub fn new() -> (r: Self)
        ensures
            r.listing() == Seq::<(String, Advancement)>::empty(),
    {
        Advancements { by_name: Vec::new() }
    }

    /// Reads every advancement in a set of files, each under the name of its location. A file
    /// that is not JSON, or whose advancement is refused, is passed over; of two under one name
    /// the later stands. What each shows as its icon is found with `lookup`.
    pub fn load<F: Fn(&str) -> Option<i32>>(found: Vec<(Identifier, Resource)>, lookup: &F) -> (r:
        Self)
        requires
            looks_up_steadily(*lookup),
        ensures
            keys_sorted(r.listing()),
            forall|name: Seq<char>|
                #![trigger filed(r.listing(), name)]
                (filed(r.listing(), name) is Some) == (latest(readable(found@), name) is Some),
            forall|name: Seq<char>|
                #![trigger filed(r.listing(), name)]
                filed(r.listing(), name) matches Some(a) ==> reads_from(
                    a,
                    latest(readable(found@), name).unwrap(),
                    *lookup,
                ),
    {
        let mut by_name: Vec<(String, Advancement)> = Vec::new();
        let mut i: usize = 0;
        assert(found@.take(0) =~= Seq::<(Identifier, Resource)>::empty());
        while i < found.len()
            invariant
                i <= found.len(),
                looks_up_steadily(*lookup),
                keys_sorted(by_name@),
                forall|name: Seq<char>|
                    #![trigger filed(by_name@, name)]
                    (filed(by_name@, name) is Some) == (latest(
                        readable(found@.take(i as int)),
                        name,
                    ) is Some),
                forall|name: Seq<char>|
                    #![trigger filed(by_name@, name)]
                    filed(by_name@, name) matches Some(a) ==> reads_from(
                        a,
                        latest(readable(found@.take(i as int)), name).unwrap(),
                        *lookup,
                    ),
            decreases found.len() - i,
        {
            let ghost before = readable(found@.take(i as int));
            assert(found@.take(i + 1).drop_last() =~= found@.take(i as int));
            assert(found@.take(i + 1).last() == found@[i as int]);
            match parse_json(found[i].1.data.as_slice()) {
                Some(value) => match Advancement::parse(&value, lookup) {
                    Ok(advancement) => {
                        let name = found[i].0.as_str();
                        let ghost old_list = by_name@;
                        proof {
                            assert(readable(found@.take(i + 1)) == before.push(
                                (full_name(found@[i as int].0@), value),
                            ));
                            assert(name@ == full_name(found@[i as int].0@));
                            assert forall|q: Seq<char>| #[trigger]
                                filed(placed(old_list, name, advancement), q) == (if q == name@ {
                                    Some(advancement)
                                } else {
                                    filed(old_list, q)
                                }) by {
                                lemma_filed_placed(old_list, name, advancement, q);
                            }
                            assert forall|q: Seq<char>| #[trigger]
                                latest(before.push((name@, value)), q) == (if q == name@ {
                                    Some(value)
                                } else {
                                    latest(before, q)
                                }) by {
                                assert(before.push((name@, value)).drop_last() =~= before);
                            }
                        }
                        file_under(&mut by_name, name, advancement);
                    },
                    Err(_) => {},
                },
                None => {},
            }
            i = i + 1;
        }
        assert(found@.take(found.len() as int) =~= found@);
        Advancements { by_name }
    }

    /// The advancement at a location, if there is one.
    pub fn get(&self, name: &Identifier) -> (r: Option<&Advancement>)
        ensures
            match r {
                Some(a) => filed(self.listing(), full_name(name@)) == Some(*a),
                None => filed(self.listing(), full_name(name@)) is None,
            },
    {
        let whole = name.as_str();
        self.get_by_name(whole.as_str())
    }

    /// The advancement of a name, if there is one.
    pub fn get_by_name(&self, name: &str) -> (r: Option<&Advancement>)
        ensures
            match r {
                Some(a) => filed(self.listing(), name@) == Some(*a),
                None => filed(self.listing(), name@) is None,
            },
    {
        match find_filed(&self.by_name, name) {
            Some(i) => Some(&self.by_name[i].1),
            None => None,
        }
    }

    /// Every advancement with its name, in the order of their names.
    pub fn iter(&self) -> (r: &[(String, Advancement)])
        ensures
            r@ == self.listing(),
    {
        self.by_name.as_slice()
    }

    pub fn len(&self) -> (r: usize)
        ensures
            r == self.listing().len(),
    {
        self.by_name.len()
    }

    pub fn is_empty(&self) -> (r: bool)
        ensures
            r == (self.listing().len() == 0),
    {
        self.by_name.len() == 0
    }
}

} // verus!
