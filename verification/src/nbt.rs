//! Reading exactly one NBT value out of a stream that carries more after it.
//!
//! An item stack's components sit one after another with no lengths between them, so reading
//! one has to stop exactly where it ends. What comes back is the value's bytes, tag and all,
//! which is what a parser of whole documents expects.
use vstd::prelude::*;

verus! {

/// The tag that closes a compound.
pub const END: u8 = 0;

/// How deep a document may nest before it is treated as malformed.
///
/// A stream is not to be trusted: without this, a compound that opens forever is a stack overflow
/// rather than an error.
pub const DEEPEST: usize = 512;

/// Why a value could not be read.
#[derive(Debug, Clone, Copy, PartialEq, Eq)]
pub enum NbtError {
    /// The stream ended inside the value.
    Ended,
    /// A length was negative.
    NegativeLength,
    /// The value nests deeper than `DEEPEST`.
    TooDeep,
    /// A list of `END` tags that claims to hold something.
    ListOfNothing,
    /// A tag that does not exist.
    NoSuchTag(u8),
}

/// Where `n` more bytes from `at` end, if the stream holds them.
pub open spec fn bytes_at(s: Seq<u8>, at: int, n: int) -> Result<int, NbtError> {
    if at + n > s.len() {
        Err(NbtError::Ended)
    } else {
        Ok(at + n)
    }
}

/// A big-endian count at `at`, four bytes wide and signed or two bytes wide and unsigned: where
/// it ends and what it says.
pub open spec fn count_at(s: Seq<u8>, at: int, wide: bool) -> Result<(int, int), NbtError> {
    if wide {
        if at + 4 > s.len() {
            Err(NbtError::Ended)
        } else if s[at] >= 128 {
            Err(NbtError::NegativeLength)
        } else {
            Ok(
                (
                    at + 4,
                    s[at] * 0x100_0000 + s[at + 1] * 0x1_0000 + s[at + 2] * 0x100 + s[at + 3],
                ),
            )
        }
    } else {
        if at + 2 > s.len() {
            Err(NbtError::Ended)
        } else {
            Ok((at + 2, s[at] * 0x100 + s[at + 1]))
        }
    }
}

/// Where a length at `at` and then that many items of `width` bytes end.
pub open spec fn counted_end(s: Seq<u8>, at: int, wide: bool, width: int) -> Result<int, NbtError> {
    match count_at(s, at, wide) {
        Ok((p, n)) => bytes_at(s, p, n * width),
        Err(e) => Err(e),
    }
}

/// Where the payload of a value of `tag` that starts at `at`, `depth` levels down, ends.
pub open spec fn payload_end(s: Seq<u8>, at: int, tag: u8, depth: int) -> Result<int, NbtError>
    decreases DEEPEST + 1 - depth, 2int, 0int,
{
    if depth > DEEPEST {
        Err(NbtError::TooDeep)
    } else if depth < 0 {
        Err(NbtError::TooDeep)
    } else if tag == 1 {
        bytes_at(s, at, 1)
    } else if tag == 2 {
        bytes_at(s, at, 2)
    } else if tag == 3 || tag == 5 {
        bytes_at(s, at, 4)
    } else if tag == 4 || tag == 6 {
        bytes_at(s, at, 8)
    } else if tag == 7 {
        counted_end(s, at, true, 1)
    } else if tag == 8 {
        counted_end(s, at, false, 1)
    } else if tag == 11 {
        counted_end(s, at, true, 4)
    } else if tag == 12 {
        counted_end(s, at, true, 8)
    } else if tag == 9 {
        if at + 1 > s.len() {
            Err(NbtError::Ended)
        } else {
            let of = s[at];
            match count_at(s, at + 1, true) {
                Err(e) => Err(e),
                Ok((p, n)) => if of == END && n > 0 {
                    Err(NbtError::ListOfNothing)
                } else {
                    list_end(s, p, of, n, depth)
                },
            }
        }
    } else if tag == 10 {
        compound_end(s, at, depth)
    } else {
        Err(NbtError::NoSuchTag(tag))
    }
}

/// Where `n` payloads of `of`, one after another from `at`, end.
pub open spec fn list_end(s: Seq<u8>, at: int, of: u8, n: int, depth: int) -> Result<int, NbtError>
    decreases DEEPEST + 1 - depth, 1int, n,
{
    if n <= 0 {
        Ok(at)
    } else if depth >= DEEPEST + 1 || depth < 0 {
        Err(NbtError::TooDeep)
    } else {
        match payload_end(s, at, of, depth + 1) {
            Err(e) => Err(e),
            Ok(next) => list_end(s, next, of, n - 1, depth),
        }
    }
}

/// Where the entries of a compound from `at` on end: a tag, a name and a payload, over and over,
/// until the tag that ends it.
pub open spec fn compound_end(s: Seq<u8>, at: int, depth: int) -> Result<int, NbtError>
    decreases DEEPEST + 1 - depth, 1int, s.len() - at,
{
    if at + 1 > s.len() {
        Err(NbtError::Ended)
    } else if s[at] == END {
        Ok(at + 1)
    } else if depth >= DEEPEST + 1 || depth < 0 {
        Err(NbtError::TooDeep)
    } else {
        match counted_end(s, at + 1, false, 1) {
            Err(e) => Err(e),
            Ok(q) => match payload_end(s, q, s[at], depth + 1) {
                Err(e) => Err(e),
                Ok(next) => if at < next <= s.len() {
                    compound_end(s, next, depth)
                } else {
                    Err(NbtError::Ended)
                },
            },
        }
    }
}

/// Where one value, in the form the network uses — a tag, then its payload, and no name in front
/// of it — that starts a stream ends.
pub open spec fn one_value(s: Seq<u8>) -> Result<int, NbtError> {
    if s.len() < 1 {
        Err(NbtError::Ended)
    } else if s[0] == END {
        Ok(1)
    } else {
        payload_end(s, 1, s[0], 0)
    }
}

/// A position as a number.
pub open spec fn position(r: Result<usize, NbtError>) -> Result<int, NbtError> {
    match r {
        Ok(p) => Ok(p as int),
        Err(e) => Err(e),
    }
}

/// Where `n` bytes from `at` end.
fn skip(bytes: &[u8], at: usize, n: u64) -> (r: Result<usize, NbtError>)
    requires
        at <= bytes@.len(),
    ensures
        position(r) == bytes_at(bytes@, at as int, n as int),
        r matches Ok(e) ==> at <= e <= bytes@.len(),
{
    let left = bytes.len() - at;
    if n > left as u64 {
        Err(NbtError::Ended)
    } else {
        Ok(at + n as usize)
    }
}

/// A big-endian count at `at`: where it ends and what it says.
fn count(bytes: &[u8], at: usize, wide: bool) -> (r: Result<(usize, u64), NbtError>)
    requires
        at <= bytes@.len(),
    ensures
        match r {
            Ok((p, n)) => count_at(bytes@, at as int, wide) == Ok::<(int, int), NbtError>((p as int, n as int)) && at < p
                <= bytes@.len() && n < 0x8000_0000,
            Err(e) => count_at(bytes@, at as int, wide) == Err::<(int, int), NbtError>(e),
        },
{
    let left = bytes.len() - at;
    if wide {
        if left < 4 {
            return Err(NbtError::Ended);
        }
        if bytes[at] >= 128 {
            return Err(NbtError::NegativeLength);
        }
        let n: u64 = (bytes[at] as u64) * 0x100_0000 + (bytes[at + 1] as u64) * 0x1_0000
            + (bytes[at + 2] as u64) * 0x100 + bytes[at + 3] as u64;
        Ok((at + 4, n))
    } else {
        if left < 2 {
            return Err(NbtError::Ended);
        }
        let n: u64 = (bytes[at] as u64) * 0x100 + bytes[at + 1] as u64;
        Ok((at + 2, n))
    }
}

/// A length at `at` and then that many items of `width` bytes: where they end.
fn counted(bytes: &[u8], at: usize, wide: bool, width: u64) -> (r: Result<usize, NbtError>)
    requires
        at <= bytes@.len(),
        1 <= width <= 8,
    ensures
        position(r) == counted_end(bytes@, at as int, wide, width as int),
        r matches Ok(e) ==> at < e <= bytes@.len(),
{
    match count(bytes, at, wide) {
        Ok((p, n)) => {
            assert(n * width <= 0x8000_0000 * 8) by (nonlinear_arith)
                requires
                    n < 0x8000_0000,
                    width <= 8,
            ;
            skip(bytes, p, n * width)
        },
        Err(e) => Err(e),
    }
}

/// Where the payload of a value of `tag` that starts at `at`, `depth` levels down, ends.
fn payload(bytes: &[u8], at: usize, tag: u8, depth: usize) -> (r: Result<usize, NbtError>)
    requires
        at <= bytes@.len(),
        depth <= DEEPEST + 1,
    ensures
        position(r) == payload_end(bytes@, at as int, tag, depth as int),
        r matches Ok(e) ==> at < e <= bytes@.len(),
    decreases DEEPEST + 1 - depth,
{
    if depth > DEEPEST {
        return Err(NbtError::TooDeep);
    }
    if tag == 1 {
        skip(bytes, at, 1)
    } else if tag == 2 {
        skip(bytes, at, 2)
    } else if tag == 3 || tag == 5 {
        skip(bytes, at, 4)
    } else if tag == 4 || tag == 6 {
        skip(bytes, at, 8)
    } else if tag == 7 {
        counted(bytes, at, true, 1)
    } else if tag == 8 {
        counted(bytes, at, false, 1)
    } else if tag == 11 {
        counted(bytes, at, true, 4)
    } else if tag == 12 {
        counted(bytes, at, true, 8)
    } else if tag == 9 {
        if bytes.len() - at < 1 {
            return Err(NbtError::Ended);
        }
        let of = bytes[at];
        let (start, n) = match count(bytes, at + 1, true) {
            Ok(found) => found,
            Err(e) => return Err(e),
        };
        if of == END && n > 0 {
            return Err(NbtError::ListOfNothing);
        }
        let ghost s = bytes@;
        assert(payload_end(s, at as int, tag, depth as int) == list_end(
            s,
            start as int,
            of,
            n as int,
            depth as int,
        ));
        let mut pos = start;
        let mut i: u64 = 0;
        while i < n
            invariant
                s == bytes@,
                depth <= DEEPEST,
                at < start <= pos <= s.len(),
                i <= n,
                payload_end(s, at as int, tag, depth as int) == list_end(
                    s,
                    start as int,
                    of,
                    n as int,
                    depth as int,
                ),
                list_end(s, start as int, of, n as int, depth as int) == list_end(
                    s,
                    pos as int,
                    of,
                    (n - i) as int,
                    depth as int,
                ),
            decreases n - i,
        {
            match payload(bytes, pos, of, depth + 1) {
                Ok(next) => {
                    pos = next;
                },
                Err(e) => {
                    assert(list_end(s, pos as int, of, (n - i) as int, depth as int) == Err::<
                        int,
                        NbtError,
                    >(e));
                    return Err(e);
                },
            }
            i = i + 1;
        }
        Ok(pos)
    } else if tag == 10 {
        let ghost s = bytes@;
        assert(payload_end(s, at as int, tag, depth as int) == compound_end(
            s,
            at as int,
            depth as int,
        ));
        let mut pos = at;
        loop
            invariant
                s == bytes@,
                depth <= DEEPEST,
                at <= pos <= s.len(),
                payload_end(s, at as int, tag, depth as int) == compound_end(
                    s,
                    at as int,
                    depth as int,
                ),
                compound_end(s, at as int, depth as int) == compound_end(
                    s,
                    pos as int,
                    depth as int,
                ),
            decreases s.len() - pos,
        {
            if bytes.len() - pos < 1 {
                return Err(NbtError::Ended);
            }
            let of = bytes[pos];
            if of == END {
                return Ok(pos + 1);
            }
            let named = match counted(bytes, pos + 1, false, 1) {
                Ok(q) => q,
                Err(e) => return Err(e),
            };
            match payload(bytes, named, of, depth + 1) {
                Ok(next) => {
                    pos = next;
                },
                Err(e) => {
                    return Err(e);
                },
            }
        }
    } else {
        Err(NbtError::NoSuchTag(tag))
    }
}

/// Where one value that starts `bytes` ends.
pub fn value_length(bytes: &[u8]) -> (r: Result<usize, NbtError>)
    ensures
        match r {
            Ok(e) => one_value(bytes@) == Ok::<int, NbtError>(e as int) && 0 < e <= bytes@.len(),
            Err(err) => one_value(bytes@) == Err::<int, NbtError>(err),
        },
{
    if bytes.len() < 1 {
        return Err(NbtError::Ended);
    }
    let tag = bytes[0];
    if tag == END {
        return Ok(1);
    }
    payload(bytes, 1, tag, 0)
}

/// A stream of bytes read from the front.
pub struct ByteStream {
    bytes: Vec<u8>,
    at: usize,
}

impl ByteStream {
    /// What is still to be read.
    pub closed spec fn unread(&self) -> Seq<u8> {
        self.bytes@.skip(self.at as int)
    }

    pub closed spec fn wf(&self) -> bool {
        self.at <= self.bytes@.len()
    }

    /// A stream of these bytes, none read yet.
    pub fn new(bytes: Vec<u8>) -> (r: Self)
        ensures
            r.wf(),
            r.unread() == bytes@,
    {
        let r = ByteStream { bytes, at: 0 };
        assert(r.bytes@.skip(0) =~= r.bytes@);
        r
    }

    /// What is still to be read, as a copy.
    pub fn rest(&self) -> (r: Vec<u8>)
        requires
            self.wf(),
        ensures
            r@ == self.unread(),
    {
        let mut out: Vec<u8> = Vec::new();
        let mut i = self.at;
        while i < self.bytes.len()
            invariant
                self.at <= i <= self.bytes@.len(),
                out@ == self.bytes@.subrange(self.at as int, i as int),
            decreases self.bytes.len() - i,
        {
            out.push(self.bytes[i]);
            i = i + 1;
            assert(out@ =~= self.bytes@.subrange(self.at as int, i as int));
        }
        assert(out@ =~= self.bytes@.skip(self.at as int));
        out
    }
}

/// Whether the first `p` bytes of a stream are the shortest start of it that no longer runs out
/// before reading one value gives an answer: where a malformed value shows itself.
pub open spec fn shows_fault(s: Seq<u8>, p: int) -> bool {
    &&& one_value(s.take(p)) != Err::<int, NbtError>(NbtError::Ended)
    &&& forall|q: int| 0 <= q < p ==> #[trigger] one_value(s.take(q)) == Err::<int, NbtError>(NbtError::Ended)
}

/// How many bytes of `s` reading one value takes before it finds the value malformed.
fn fault_at(s: &Vec<u8>) -> (p: usize)
    requires
        one_value(s@) is Err,
        one_value(s@) != Err::<int, NbtError>(NbtError::Ended),
    ensures
        0 < p <= s@.len(),
        shows_fault(s@, p as int),
{
    let mut prefix: Vec<u8> = Vec::new();
    let mut q: usize = 0;
    assert(s@.take(0).len() == 0);
    while q < s.len()
        invariant
            q <= s@.len(),
            prefix@ == s@.take(q as int),
            forall|k: int| 0 <= k <= q ==> #[trigger] one_value(s@.take(k)) == Err::<int, NbtError>(
                NbtError::Ended,
            ),
        decreases s.len() - q,
    {
        prefix.push(s[q]);
        q = q + 1;
        assert(prefix@ =~= s@.take(q as int));
        match value_length(prefix.as_slice()) {
            Err(NbtError::Ended) => {},
            _ => {
                return q;
            },
        }
    }
    assert(s@.take(s@.len() as int) =~= s@);
    assert(one_value(s@.take(q as int)) == Err::<int, NbtError>(NbtError::Ended));
    q
}

/// Reads one NBT value, in the form the network uses: a tag, then its payload, and no name in
/// front of it.
///
/// Returns the bytes it read, tag and all, and leaves the stream just after them. A value that
/// cannot be read leaves the stream where reading gave up: at its end where it ran out, and
/// otherwise just past the bytes that showed the value to be malformed.
pub fn read_one(reader: &mut ByteStream) -> (r: Result<Vec<u8>, NbtError>)
    requires
        old(reader).wf(),
    ensures
        final(reader).wf(),
        match one_value(old(reader).unread()) {
            Ok(e) => 0 < e <= old(reader).unread().len() && (r matches Ok(v) && v@ == old(
                reader,
            ).unread().take(e) && final(reader).unread() == old(reader).unread().skip(e)),
            Err(err) => {
                let unread = old(reader).unread();
                let left = final(reader).unread();
                &&& r == Err::<Vec<u8>, NbtError>(err)
                &&& err == NbtError::Ended ==> left == Seq::<u8>::empty()
                &&& err != NbtError::Ended ==> exists|p: int|
                    0 < p <= unread.len() && left == unread.skip(p) && #[trigger] shows_fault(unread, p)
            },
        },
{
    let ghost unread = reader.unread();
    proof {
        if one_value(unread) is Ok {
            lemma_one_value_prefix(unread, Seq::<u8>::empty());
        }
    }
    let mut out: Vec<u8> = Vec::new();
    let at = reader.at;
    let mut rest: Vec<u8> = Vec::new();
    let mut i = at;
    while i < reader.bytes.len()
        invariant
            at == reader.at,
            reader.wf(),
            unread == reader.unread(),
            at <= i <= reader.bytes@.len(),
            rest@ == reader.bytes@.subrange(at as int, i as int),
        decreases reader.bytes.len() - i,
    {
        rest.push(reader.bytes[i]);
        i = i + 1;
        assert(rest@ =~= reader.bytes@.subrange(at as int, i as int));
    }
    assert(rest@ =~= unread);
    let end = match value_length(rest.as_slice()) {
        Ok(end) => end,
        Err(e) => {
            match e {
                NbtError::Ended => {
                    reader.at = reader.bytes.len();
                    assert(reader.unread() =~= Seq::<u8>::empty());
                },
                _ => {
                    let p = fault_at(&rest);
                    reader.at = at + p;
                    assert(reader.unread() =~= unread.skip(p as int));
                },
            }
            return Err(e);
        },
    };
    let mut k: usize = 0;
    while k < end
        invariant
            end <= rest@.len(),
            k <= end,
            out@ == rest@.take(k as int),
        decreases end - k,
    {
        out.push(rest[k]);
        k = k + 1;
        assert(out@ =~= rest@.take(k as int));
    }
    reader.at = at + end;
    assert(reader.unread() =~= unread.skip(end as int));
    Ok(out)
}


/// What follows a count does not change it.
proof fn lemma_count_prefix(t: Seq<u8>, rest: Seq<u8>, at: int, wide: bool)
    requires
        0 <= at,
        count_at(t, at, wide) is Ok,
    ensures
        count_at(t + rest, at, wide) == count_at(t, at, wide),
        count_at(t, at, wide)->Ok_0.0 <= t.len(),
        count_at(t, at, wide)->Ok_0.1 >= 0,
        at < count_at(t, at, wide)->Ok_0.0,
{
    let u = t + rest;
    if wide {
        assert(u[at] == t[at] && u[at + 1] == t[at + 1] && u[at + 2] == t[at + 2] && u[at + 3] == t[at + 3]);
    } else {
        assert(u[at] == t[at] && u[at + 1] == t[at + 1]);
    }
}

/// What follows a counted run does not change where it ends.
proof fn lemma_counted_prefix(t: Seq<u8>, rest: Seq<u8>, at: int, wide: bool, width: int)
    requires
        0 <= at,
        0 <= width,
        counted_end(t, at, wide, width) is Ok,
    ensures
        counted_end(t + rest, at, wide, width) == counted_end(t, at, wide, width),
        at < counted_end(t, at, wide, width)->Ok_0 <= t.len(),
{
    lemma_count_prefix(t, rest, at, wide);
    let (p, n) = count_at(t, at, wide)->Ok_0;
    assert(n * width >= 0) by (nonlinear_arith)
        requires
            n >= 0,
            width >= 0,
    ;
}

/// What follows a payload does not change where it ends: reading one never looks past its end.
pub proof fn lemma_payload_prefix(t: Seq<u8>, rest: Seq<u8>, at: int, tag: u8, depth: int)
    requires
        0 <= at,
        payload_end(t, at, tag, depth) is Ok,
    ensures
        payload_end(t + rest, at, tag, depth) == payload_end(t, at, tag, depth),
        at <= payload_end(t, at, tag, depth)->Ok_0 <= t.len(),
    decreases DEEPEST + 1 - depth, 2int, 0int,
{
    let u = t + rest;
    if tag == 7 || tag == 8 {
        lemma_counted_prefix(t, rest, at, tag == 7, 1);
    } else if tag == 11 {
        lemma_counted_prefix(t, rest, at, true, 4);
    } else if tag == 12 {
        lemma_counted_prefix(t, rest, at, true, 8);
    } else if tag == 9 {
        assert(u[at] == t[at]);
        lemma_count_prefix(t, rest, at + 1, true);
        let (p, n) = count_at(t, at + 1, true)->Ok_0;
        lemma_list_prefix(t, rest, p, t[at], n, depth);
    } else if tag == 10 {
        lemma_compound_prefix(t, rest, at, depth);
    }
}

/// What follows a run of payloads does not change where it ends.
proof fn lemma_list_prefix(t: Seq<u8>, rest: Seq<u8>, at: int, of: u8, n: int, depth: int)
    requires
        0 <= at,
        list_end(t, at, of, n, depth) is Ok,
    ensures
        list_end(t + rest, at, of, n, depth) == list_end(t, at, of, n, depth),
        at <= list_end(t, at, of, n, depth)->Ok_0 <= t.len() || (n <= 0 && list_end(
            t,
            at,
            of,
            n,
            depth,
        )->Ok_0 == at),
    decreases DEEPEST + 1 - depth, 1int, n,
{
    if n > 0 && 0 <= depth < DEEPEST + 1 {
        lemma_payload_prefix(t, rest, at, of, depth + 1);
        let next = payload_end(t, at, of, depth + 1)->Ok_0;
        lemma_list_prefix(t, rest, next, of, n - 1, depth);
    }
}

/// What follows a compound does not change where it ends.
proof fn lemma_compound_prefix(t: Seq<u8>, rest: Seq<u8>, at: int, depth: int)
    requires
        0 <= at,
        compound_end(t, at, depth) is Ok,
    ensures
        compound_end(t + rest, at, depth) == compound_end(t, at, depth),
        at < compound_end(t, at, depth)->Ok_0 <= t.len(),
    decreases DEEPEST + 1 - depth, 1int, t.len() - at,
{
    let u = t + rest;
    assert(u[at] == t[at]);
    if t[at] != END {
        lemma_counted_prefix(t, rest, at + 1, false, 1);
        let q = counted_end(t, at + 1, false, 1)->Ok_0;
        lemma_payload_prefix(t, rest, q, t[at], depth + 1);
        let next = payload_end(t, q, t[at], depth + 1)->Ok_0;
        lemma_compound_prefix(t, rest, next, depth);
    }
}

/// One whole value reads as the same value whatever follows it.
pub proof fn lemma_one_value_prefix(t: Seq<u8>, rest: Seq<u8>)
    requires
        one_value(t) is Ok,
    ensures
        one_value(t + rest) == one_value(t),
        0 < one_value(t)->Ok_0 <= t.len(),
{
    let u = t + rest;
    assert(u[0] == t[0]);
    if t[0] != END {
        lemma_payload_prefix(t, rest, 1, t[0], 0);
    }
}

} // verus!
