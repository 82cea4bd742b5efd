//! Resource locations: `namespace:path`, the key everything in a datapack is addressed by.
use crate::text::{is_namespace_char, is_path_char, joined3, same_text};
use vstd::prelude::*;
use vstd::string::*;

verus! {

/// The namespace a location gets when it does not say one.
pub const DEFAULT_NAMESPACE: &'static str = "minecraft";

/// The longest namespace a location can hold: its length has to fit in sixteen bits.
pub const LONGEST_NAMESPACE: usize = 65535;

/// Whether `s` is a namespace: made of `[a-z0-9_.-]`, and not `..`.
pub open spec fn valid_namespace_text(s: Seq<char>) -> bool {
    s != seq!['.', '.'] && forall|i: int| 0 <= i < s.len() ==> is_namespace_char(#[trigger] s[i])
}

/// Whether `s` is a path: made of `[a-z0-9/._-]`.
pub open spec fn valid_path_text(s: Seq<char>) -> bool {
    forall|i: int| 0 <= i < s.len() ==> is_path_char(#[trigger] s[i])
}

/// Why a string is not a resource location, as the text the error carries.
pub enum RejectedLocation {
    Namespace(Seq<char>),
    Path(Seq<char>),
    NamespaceTooLong(Seq<char>),
}

/// What building a location from two halves comes to: the halves, or why not.
pub open spec fn location_of(namespace: Seq<char>, path: Seq<char>) -> Result<
    (Seq<char>, Seq<char>),
    RejectedLocation,
> {
    if !valid_namespace_text(namespace) {
        Err(RejectedLocation::Namespace(namespace + seq![':'] + path))
    } else if !valid_path_text(path) {
        Err(RejectedLocation::Path(namespace + seq![':'] + path))
    } else if namespace.len() > LONGEST_NAMESPACE {
        Err(RejectedLocation::NamespaceTooLong(namespace))
    } else {
        Ok((namespace, path))
    }
}

/// Whether `k` is where `c` first occurs in `s`.
pub open spec fn first_at(s: Seq<char>, c: char, k: int) -> bool {
    0 <= k < s.len() && s[k] == c && forall|j: int| 0 <= j < k ==> s[j] != c
}

/// Where `c` first occurs in `s`, if anywhere.
pub open spec fn first_index_of(s: Seq<char>, c: char) -> Option<int> {
    if exists|k: int| first_at(s, c, k) {
        Some(choose|k: int| first_at(s, c, k))
    } else {
        None
    }
}

/// What reading `namespace:path`, or a bare `path` in the default namespace, comes to.
pub open spec fn read_location(s: Seq<char>) -> Result<(Seq<char>, Seq<char>), RejectedLocation> {
    match first_index_of(s, ':') {
        Some(k) => if k == 0 {
            location_of(DEFAULT_NAMESPACE@, s.skip(1))
        } else {
            location_of(s.take(k), s.skip(k + 1))
        },
        None => location_of(DEFAULT_NAMESPACE@, s),
    }
}

/// Where `c` first occurs in `s`, if anywhere.
pub fn find_char(s: &str, c: char) -> (r: Option<usize>)
    ensures
        match r {
            Some(k) => first_index_of(s@, c) == Some(k as int),
            None => first_index_of(s@, c) is None,
        },
{
    let n = s.unicode_len();
    let mut i: usize = 0;
    while i < n
        invariant
            n == s@.len(),
            i <= n,
            forall|j: int| 0 <= j < i ==> s@[j] != c,
        decreases n - i,
    {
        if s.get_char(i) == c {
            assert(first_at(s@, c, i as int));
            let ghost k = choose|k: int| first_at(s@, c, k);
            assert(k == i) by {
                if k < i {
                } else if k > i {
                }
            }
            return Some(i);
        }
        i = i + 1;
    }
    assert(!exists|k: int| first_at(s@, c, k));
    None
}

/// A namespaced identifier.
///
/// The two halves and the whole are each kept, so asking for any of them costs nothing. The path
/// is held first, which is what puts the derived order on path before namespace, as vanilla orders
/// them: a listing groups the same file across namespaces.
#[derive(PartialEq, Eq, PartialOrd, Ord, Hash, Debug)]
pub struct Identifier {
    path: String,
    namespace: String,
}

impl View for Identifier {
    type V = (Seq<char>, Seq<char>);

    closed spec fn view(&self) -> (Seq<char>, Seq<char>) {
        (self.namespace@, self.path@)
    }
}

/// Why a string is not a resource location.
#[derive(Debug, PartialEq, Eq)]
pub enum IdentifierError {
    /// A character outside `[a-z0-9_.-]` in the namespace, or the namespace `..`.
    Namespace(String),
    /// A character outside `[a-z0-9/._-]` in the path.
    Path(String),
    /// A namespace whose length does not fit in sixteen bits.
    NamespaceTooLong(String),
}

impl IdentifierError {
    /// What the error says, as the text it carries.
    pub open spec fn fault(&self) -> RejectedLocation {
        match self {
            IdentifierError::Namespace(m) => RejectedLocation::Namespace(m@),
            IdentifierError::Path(m) => RejectedLocation::Path(m@),
            IdentifierError::NamespaceTooLong(m) => RejectedLocation::NamespaceTooLong(m@),
        }
    }
}

/// What a call that builds a location came to, by the halves it holds or the error it gave.
pub open spec fn outcome(r: Result<Identifier, IdentifierError>) -> Result<
    (Seq<char>, Seq<char>),
    RejectedLocation,
> {
    match r {
        Ok(id) => Ok(id@),
        Err(e) => Err(e.fault()),
    }
}

/// Whether a namespace is made of `[a-z0-9_.-]` and is not `..`.
pub fn valid_namespace(namespace: &str) -> (r: bool)
    ensures
        r == valid_namespace_text(namespace@),
{
    let n = namespace.unicode_len();
    if n == 2 && namespace.get_char(0) == '.' && namespace.get_char(1) == '.' {
        assert(namespace@ =~= seq!['.', '.']);
        return false;
    }
    assert(namespace@ != seq!['.', '.']) by {
        if namespace@ =~= seq!['.', '.'] {
            assert(namespace@[0] == '.');
        }
    }
    let mut i: usize = 0;
    while i < n
        invariant
            n == namespace@.len(),
            i <= n,
            forall|j: int| 0 <= j < i ==> is_namespace_char(#[trigger] namespace@[j]),
        decreases n - i,
    {
        let c = namespace.get_char(i);
        if !(('a' <= c && c <= 'z') || ('0' <= c && c <= '9') || c == '_' || c == '-' || c == '.') {
            return false;
        }
        i = i + 1;
    }
    true
}

/// Whether a path is made of `[a-z0-9/._-]`.
pub fn valid_path(path: &str) -> (r: bool)
    ensures
        r == valid_path_text(path@),
{
    let n = path.unicode_len();
    let mut i: usize = 0;
    while i < n
        invariant
            n == path@.len(),
            i <= n,
            forall|j: int| 0 <= j < i ==> is_path_char(#[trigger] path@[j]),
        decreases n - i,
    {
        let c = path.get_char(i);
        if !(('a' <= c && c <= 'z') || ('0' <= c && c <= '9') || c == '_' || c == '-' || c == '.'
            || c == '/') {
            return false;
        }
        i = i + 1;
    }
    true
}

/// The segments a path splits into at each `/`, empty ones included.
pub open spec fn split_at_slashes(s: Seq<char>) -> Seq<Seq<char>>
    decreases s.len(),
{
    if s.len() == 0 {
        seq![Seq::<char>::empty()]
    } else if s.last() == '/' {
        split_at_slashes(s.drop_last()).push(Seq::<char>::empty())
    } else {
        let before = split_at_slashes(s.drop_last());
        before.update(before.len() - 1, before.last().push(s.last()))
    }
}

/// A segment that can name a file without leaving the pack: not empty, not `.` or `..`, and
/// made of `[-._a-z0-9]`.
pub open spec fn safe_segment(s: Seq<char>) -> bool {
    &&& s.len() > 0
    &&& s != seq!['.']
    &&& s != seq!['.', '.']
    &&& forall|i: int| 0 <= i < s.len() ==> is_namespace_char(#[trigger] s[i])
}

/// The segments a path addresses, or nothing where one of them could climb out of the pack.
pub open spec fn decomposed(s: Seq<char>) -> Option<Seq<Seq<char>>> {
    let segments = split_at_slashes(s);
    if forall|i: int| 0 <= i < segments.len() ==> safe_segment(#[trigger] segments[i]) {
        Some(segments)
    } else {
        None
    }
}

proof fn lemma_split_nonempty(s: Seq<char>)
    ensures
        split_at_slashes(s).len() >= 1,
    decreases s.len(),
{
    if s.len() > 0 {
        lemma_split_nonempty(s.drop_last());
    }
}

/// Whether one segment is safe.
fn segment_is_safe(seg: &str) -> (r: bool)
    ensures
        r == safe_segment(seg@),
{
    let n = seg.unicode_len();
    if n == 0 {
        return false;
    }
    if n == 1 && seg.get_char(0) == '.' {
        assert(seg@ =~= seq!['.']);
        return false;
    }
    if n == 2 && seg.get_char(0) == '.' && seg.get_char(1) == '.' {
        assert(seg@ =~= seq!['.', '.']);
        return false;
    }
    assert(seg@ != seq!['.']) by {
        if seg@ =~= seq!['.'] {
            assert(seg@[0] == '.');
        }
    }
    assert(seg@ != seq!['.', '.']) by {
        if seg@ =~= seq!['.', '.'] {
            assert(seg@[0] == '.' && seg@[1] == '.');
        }
    }
    let mut i: usize = 0;
    while i < n
        invariant
            n == seg@.len(),
            i <= n,
            forall|j: int| 0 <= j < i ==> is_namespace_char(#[trigger] seg@[j]),
        decreases n - i,
    {
        let c = seg.get_char(i);
        if !(('a' <= c && c <= 'z') || ('0' <= c && c <= '9') || c == '_' || c == '-' || c == '.') {
            return false;
        }
        i = i + 1;
    }
    true
}

/// Splits a resource path into the segments it addresses, refusing any that could leave the pack.
///
/// No empty segment, no `.` or `..`, and every segment made of `[-._a-z0-9]`.
pub fn decompose_path(path: &str) -> (r: Option<Vec<&str>>)
    ensures
        match r {
            Some(segments) => decomposed(path@) == Some(segments@.map_values(|s: &str| s@)),
            None => decomposed(path@) is None,
        },
{
    let n = path.unicode_len();
    let mut segments: Vec<&str> = Vec::new();
    let mut start: usize = 0;
    let mut i: usize = 0;
    assert(path@.take(0) =~= Seq::<char>::empty());
    assert(segments@.map_values(|s: &str| s@) =~= Seq::<Seq<char>>::empty());
    assert(path@.subrange(0, 0) =~= Seq::<char>::empty());
    assert(split_at_slashes(Seq::<char>::empty()) =~= seq![Seq::<char>::empty()]);
    while i < n
        invariant
            n == path@.len(),
            start <= i <= n,
            split_at_slashes(path@.take(i as int)) == segments@.map_values(|s: &str| s@).push(
                path@.subrange(start as int, i as int),
            ),
            forall|j: int| 0 <= j < segments.len() ==> safe_segment(#[trigger] segments@[j]@),
        decreases n - i,
    {
        let ghost before = path@.take(i as int);
        assert(path@.take(i + 1).drop_last() =~= before);
        if path.get_char(i) == '/' {
            let seg = path.substring_char(start, i);
            if !segment_is_safe(seg) {
                proof {
                    let t = path@.take(i + 1);
                    assert(t.drop_last() =~= path@.take(i as int));
                    lemma_prefix_segments(path@, i + 1);
                    let k = segments.len() as int;
                    assert(split_at_slashes(t)[k] == seg@);
                    assert(split_at_slashes(path@)[k] == seg@);
                }
                return None;
            }
            segments.push(seg);
            start = i + 1;
            assert(path@.subrange(start as int, (i + 1) as int) =~= Seq::<char>::empty());
        } else {
            assert(path@.subrange(start as int, (i + 1) as int) =~= path@.subrange(
                start as int,
                i as int,
            ).push(path@[i as int]));
        }
        i = i + 1;
        assert(split_at_slashes(path@.take(i as int)) =~= segments@.map_values(|s: &str| s@).push(
            path@.subrange(start as int, i as int),
        ));
    }
    assert(path@.take(n as int) =~= path@);
    let last = path.substring_char(start, n);
    if !segment_is_safe(last) {
        proof {
            let whole = split_at_slashes(path@);
            assert(whole[segments.len() as int] == last@);
        }
        return None;
    }
    segments.push(last);
    assert(split_at_slashes(path@) =~= segments@.map_values(|s: &str| s@));
    Some(segments)
}

/// What a longer path splits into begins with what its start splits into, all but the last
/// segment unchanged.
proof fn lemma_prefix_segments(s: Seq<char>, i: int)
    requires
        0 <= i <= s.len(),
    ensures
        split_at_slashes(s.take(i)).len() <= split_at_slashes(s).len(),
        forall|k: int|
            0 <= k < split_at_slashes(s.take(i)).len() - 1 ==> split_at_slashes(s)[k]
                == split_at_slashes(s.take(i))[k],
    decreases s.len() - i,
{
    lemma_split_nonempty(s.take(i));
    if i < s.len() {
        lemma_prefix_segments(s, i + 1);
        assert(s.take(i + 1).drop_last() =~= s.take(i));
        lemma_split_nonempty(s.take(i + 1));
    } else {
        assert(s.take(i) =~= s);
    }
}

impl Identifier {
    /// Every location held is one `location_of` accepts: a valid namespace that fits, and a valid
    /// path.
    #[verifier::type_invariant]
    spec fn holds_a_location(self) -> bool {
        location_of(self.namespace@, self.path@) is Ok
    }
}

impl Clone for Identifier {
    /// A copy of this location.
    fn clone(&self) -> (r: Self)
        ensures
            r@ == self@,
    {
        self.duplicate()
    }
}

impl Identifier {
    /// Builds a location from its two halves.
    pub fn new(namespace: &str, path: &str) -> (r: Result<Self, IdentifierError>)
        ensures
            outcome(r) == location_of(namespace@, path@),
    {
        proof {
            reveal_strlit(":");
            assert(":"@ =~= seq![':']);
        }
        if !valid_namespace(namespace) {
            return Err(IdentifierError::Namespace(joined3(namespace, ":", path)));
        }
        if !valid_path(path) {
            return Err(IdentifierError::Path(joined3(namespace, ":", path)));
        }
        if namespace.unicode_len() > LONGEST_NAMESPACE {
            return Err(IdentifierError::NamespaceTooLong(String::from_str(namespace)));
        }
        Ok(Identifier {
            path: String::from_str(path),
            namespace: String::from_str(namespace),
        })
    }

    /// A location in the default namespace.
    pub fn minecraft(path: &str) -> (r: Result<Self, IdentifierError>)
        ensures
            outcome(r) == location_of(DEFAULT_NAMESPACE@, path@),
    {
        Self::new(DEFAULT_NAMESPACE, path)
    }

    /// Reads `namespace:path`, or `path` alone in the default namespace. A leading `:` means the
    /// default namespace too.
    pub fn parse(s: &str) -> (r: Result<Self, IdentifierError>)
        ensures
            outcome(r) == read_location(s@),
    {
        match find_char(s, ':') {
            Some(k) => {
                let n = s.unicode_len();
                let rest = s.substring_char(k + 1, n);
                if k == 0 {
                    Self::minecraft(rest)
                } else {
                    let namespace = s.substring_char(0, k);
                    Self::new(namespace, rest)
                }
            },
            None => Self::minecraft(s),
        }
    }

    pub fn namespace(&self) -> (r: &str)
        ensures
            r@ == self@.0,
            valid_namespace_text(r@),
            r@.len() <= LONGEST_NAMESPACE,
    {
        proof {
            use_type_invariant(self);
        }
        self.namespace.as_str()
    }

    pub fn path(&self) -> (r: &str)
        ensures
            r@ == self@.1,
            valid_path_text(r@),
    {
        proof {
            use_type_invariant(self);
        }
        self.path.as_str()
    }

    /// The whole thing, `namespace:path`.
    pub fn as_str(&self) -> (r: String)
        ensures
            r@ == self@.0 + seq![':'] + self@.1,
    {
        proof {
            reveal_strlit(":");
            assert(":"@ =~= seq![':']);
        }
        joined3(self.namespace.as_str(), ":", self.path.as_str())
    }

    /// The whole thing, `namespace:path`, as it is printed.
    pub fn to_string(&self) -> (r: String)
        ensures
            r@ == self@.0 + seq![':'] + self@.1,
    {
        self.as_str()
    }

    /// A copy of this location.
    pub fn duplicate(&self) -> (r: Self)
        ensures
            r@ == self@,
    {
        proof {
            use_type_invariant(self);
        }
        Identifier { path: self.path.clone(), namespace: self.namespace.clone() }
    }

    /// Whether two locations are the same.
    pub fn same_as(&self, other: &Self) -> (r: bool)
        ensures
            r == (self@ == other@),
    {
        same_text(self.namespace.as_str(), other.namespace.as_str()) && same_text(
            self.path.as_str(),
            other.path.as_str(),
        )
    }

    /// Whether this location comes before another: by path first, then by namespace.
    pub fn precedes(&self, other: &Self) -> (r: bool)
        ensures
            r == loc_before(self@, other@),
    {
        let p = compare_text(self.path.as_str(), other.path.as_str());
        if p < 0 {
            true
        } else if p > 0 {
            false
        } else {
            compare_text(self.namespace.as_str(), other.namespace.as_str()) < 0
        }
    }

    /// The same namespace with a different path.
    pub fn with_path(&self, path: &str) -> (r: Result<Self, IdentifierError>)
        ensures
            outcome(r) == location_of(self@.0, path@),
            r is Ok <==> valid_path_text(path@),
            r matches Ok(id) ==> id@ == (self@.0, path@),
            r matches Err(e) ==> e is Path,
    {
        proof {
            use_type_invariant(self);
        }
        Self::new(self.namespace(), path)
    }

    /// The pieces of the path to this location's file under a pack's `data/` directory, in order:
    /// the namespace, then each segment of the path.
    ///
    /// Returns `None` when the path holds a segment that could climb out of the pack, which the
    /// character rules alone allow: `.` and `/` are both legal in a path.
    pub fn file_parts(&self) -> (r: Option<Vec<&str>>)
        ensures
            match r {
                Some(parts) => decomposed(self@.1) matches Some(segments) && parts@.map_values(
                    |s: &str| s@,
                ) == seq![self@.0] + segments,
                None => decomposed(self@.1) is None,
            },
    {
        let segments = match decompose_path(self.path()) {
            Some(segments) => segments,
            None => return None,
        };
        let ghost segs = segments@.map_values(|s: &str| s@);
        let mut parts: Vec<&str> = Vec::new();
        parts.push(self.namespace());
        let mut i: usize = 0;
        while i < segments.len()
            invariant
                i <= segments.len(),
                segs == segments@.map_values(|s: &str| s@),
                parts@.map_values(|s: &str| s@) == seq![self@.0] + segs.take(i as int),
            decreases segments.len() - i,
        {
            let ghost before = parts@;
            assert(segs[i as int] == segments@[i as int]@);
            assert(segs.take(i as int + 1) =~= segs.take(i as int).push(segs[i as int]));
            parts.push(segments[i]);
            assert(parts@ == before.push(segments@[i as int]));
            i = i + 1;
            assert(parts@.map_values(|s: &str| s@) =~= before.map_values(|s: &str| s@).push(
                segs[i - 1],
            ));
        }
        assert(segs.take(i as int) =~= segs);
        Some(parts)
    }
}

/// Whether `a` comes before `b` in the order of their characters, a shorter prefix first.
pub open spec fn text_before(a: Seq<char>, b: Seq<char>) -> bool
    decreases a.len(),
{
    if a.len() == 0 {
        b.len() > 0
    } else if b.len() == 0 {
        false
    } else if a[0] != b[0] {
        (a[0] as u32) < (b[0] as u32)
    } else {
        text_before(a.drop_first(), b.drop_first())
    }
}

proof fn lemma_text_before_skip(a: Seq<char>, b: Seq<char>, i: int)
    requires
        0 <= i <= a.len(),
        i <= b.len(),
        forall|j: int| 0 <= j < i ==> a[j] == b[j],
    ensures
        text_before(a, b) == text_before(a.skip(i), b.skip(i)),
    decreases i,
{
    if i > 0 {
        assert(a.skip(1).skip(i - 1) =~= a.skip(i));
        assert(b.skip(1).skip(i - 1) =~= b.skip(i));
        assert(a.drop_first() =~= a.skip(1));
        assert(b.drop_first() =~= b.skip(1));
        lemma_text_before_skip(a.skip(1), b.skip(1), i - 1);
    } else {
        assert(a.skip(0) =~= a);
        assert(b.skip(0) =~= b);
    }
}

/// Compares two pieces of text character by character: below nought where `a` comes first,
/// nought where they are the same, above nought where `b` does.
pub fn compare_text(a: &str, b: &str) -> (r: i8)
    ensures
        r < 0 <==> text_before(a@, b@),
        r == 0 <==> a@ == b@,
        r > 0 <==> text_before(b@, a@),
{
    let n = a.unicode_len();
    let m = b.unicode_len();
    let mut i: usize = 0;
    while i < n && i < m
        invariant
            n == a@.len(),
            m == b@.len(),
            i <= n,
            i <= m,
            forall|j: int| 0 <= j < i ==> a@[j] == b@[j],
        decreases n - i,
    {
        let x = a.get_char(i);
        let y = b.get_char(i);
        if x != y {
            proof {
                lemma_text_before_skip(a@, b@, i as int);
                lemma_text_before_skip(b@, a@, i as int);
            }
            if (x as u32) < (y as u32) {
                return -1;
            } else {
                return 1;
            }
        }
        i = i + 1;
    }
    proof {
        lemma_text_before_skip(a@, b@, i as int);
        lemma_text_before_skip(b@, a@, i as int);
    }
    if n < m {
        -1
    } else if n > m {
        1
    } else {
        assert(a@ =~= b@);
        0
    }
}

/// Whether location `a` comes before location `b`: by path first, then by namespace.
pub open spec fn loc_before(a: (Seq<char>, Seq<char>), b: (Seq<char>, Seq<char>)) -> bool {
    text_before(a.1, b.1) || (a.1 == b.1 && text_before(a.0, b.0))
}

/// No text comes before itself.
pub proof fn lemma_text_before_irreflexive(a: Seq<char>)
    ensures
        !text_before(a, a),
    decreases a.len(),
{
    if a.len() > 0 {
        lemma_text_before_irreflexive(a.drop_first());
    }
}

/// Of two different texts, one comes before the other.
pub proof fn lemma_text_before_total(a: Seq<char>, b: Seq<char>)
    requires
        a != b,
    ensures
        text_before(a, b) || text_before(b, a),
    decreases a.len(),
{
    if a.len() > 0 && b.len() > 0 && a[0] == b[0] {
        if a.drop_first() == b.drop_first() {
            assert(a =~= seq![a[0]] + a.drop_first());
            assert(b =~= seq![b[0]] + b.drop_first());
        }
        lemma_text_before_total(a.drop_first(), b.drop_first());
    } else if a.len() == 0 {
        assert(b.len() > 0) by {
            if b.len() == 0 {
                assert(a =~= b);
            }
        }
    } else if a.len() > 0 && b.len() > 0 {
        let (x, y) = (a[0], b[0]);
        assert((x as u32) != (y as u32)) by {
            if (x as u32) == (y as u32) {
                vstd::utf8::char_u32_cast(x, x as u32);
                vstd::utf8::char_u32_cast(y, y as u32);
            }
        }
    }
}

/// Coming before is transitive.
pub proof fn lemma_text_before_transitive(a: Seq<char>, b: Seq<char>, c: Seq<char>)
    requires
        text_before(a, b),
        text_before(b, c),
    ensures
        text_before(a, c),
    decreases a.len(),
{
    if a.len() > 0 && a[0] == b[0] && b[0] == c[0] {
        lemma_text_before_transitive(a.drop_first(), b.drop_first(), c.drop_first());
    }
}

/// No text comes both before and after another.
pub proof fn lemma_text_before_asymmetric(a: Seq<char>, b: Seq<char>)
    requires
        text_before(a, b),
    ensures
        !text_before(b, a),
    decreases a.len(),
{
    if a.len() > 0 && b.len() > 0 && a[0] == b[0] {
        lemma_text_before_asymmetric(a.drop_first(), b.drop_first());
    }
}

/// The order on locations is a strict total order: no location comes before itself, it is
/// transitive, and of two different locations one comes before the other.
pub proof fn lemma_loc_before_order(
    a: (Seq<char>, Seq<char>),
    b: (Seq<char>, Seq<char>),
    c: (Seq<char>, Seq<char>),
)
    ensures
        !loc_before(a, a),
        loc_before(a, b) && loc_before(b, c) ==> loc_before(a, c),
        a != b ==> loc_before(a, b) || loc_before(b, a),
        loc_before(a, b) ==> !loc_before(b, a),
{
    lemma_text_before_irreflexive(a.0);
    lemma_text_before_irreflexive(a.1);
    if loc_before(a, b) && loc_before(b, c) {
        if text_before(a.1, b.1) && text_before(b.1, c.1) {
            lemma_text_before_transitive(a.1, b.1, c.1);
        } else if text_before(a.1, b.1) {
        } else if text_before(b.1, c.1) {
        } else {
            lemma_text_before_transitive(a.0, b.0, c.0);
        }
    }
    if a != b {
        if a.1 != b.1 {
            lemma_text_before_total(a.1, b.1);
        } else {
            assert(a.0 != b.0);
            lemma_text_before_total(a.0, b.0);
        }
    }
    if loc_before(a, b) {
        if text_before(a.1, b.1) {
            lemma_text_before_asymmetric(a.1, b.1);
        } else {
            lemma_text_before_asymmetric(a.0, b.0);
            lemma_text_before_irreflexive(b.1);
        }
    }
}

} // verus!
