//! The bytes an item stack travels as: a count, a kind, and the patch of components over what the
//! kind already says, each number as a variable-length integer.
//!
//! A component carries no length. A reader that does not know what shape a component is cannot
//! skip it: it has to read the payload or give up, since everything after it would be read at the
//! wrong offset. So an unknown component is an error here rather than something stepped over.
use crate::components::{component_id, ComponentType};
use crate::inventory::{InventorySlot, ItemID};
use crate::nbt::{one_value, value_length, NbtError};
use crate::stack_components::{
    kinds_in_order, known_shape, lemma_setting_at, set_kinds, setting, shape_of, shape_of_worth,
    ComponentValue, Components, Patch, Shape, Worth,
};
use crate::wire_ids::{
    component_number, component_table, enchantment_number, enchantment_table, kind_at,
    lemma_tables_rise, rises_from, ProtocolVersion, COMPONENT_KINDS, CURRENT, ENCHANTMENTS,
};
use vstd::prelude::*;

verus! {

/// Why bytes could not be read.
#[derive(Debug, Clone, Copy, PartialEq, Eq)]
pub enum WireError {
    /// They stopped before what they were saying did.
    Ended,
    /// A variable-length number ran on past five bytes.
    VarIntTooLong,
    /// A number that names no component in the version read.
    NoSuchComponent(i32),
    /// A component this server has no shape for, and one carries no length to step over.
    Unreadable(ComponentType),
    /// An NBT value that could not be read.
    Nbt(NbtError),
}

/// The bytes of a variable-length number: seven bits a byte, lowest first, the top bit set on
/// every byte but the last.
pub open spec fn var_bytes(u: nat) -> Seq<u8>
    decreases u,
{
    if u < 128 {
        seq![u as u8]
    } else {
        seq![(u % 128 + 128) as u8] + var_bytes(u / 128)
    }
}

/// The bytes a 32-bit number travels as, taken as its unsigned bit pattern.
pub open spec fn var_int(x: i32) -> Seq<u8> {
    var_bytes((x as u32) as nat)
}

/// Writes a number as a variable-length integer.
pub fn write_var_int(out: &mut Vec<u8>, x: i32)
    ensures
        final(out)@ == old(out)@ + var_int(x),
{
    let ghost start = old(out)@;
    let mut u: u32 = x as u32;
    assert(start + var_int(x) =~= out@ + var_bytes(u as nat));
    while u >= 128
        invariant
            start + var_int(x) == out@ + var_bytes(u as nat),
        decreases u,
    {
        let ghost before = out@;
        out.push((u % 128 + 128) as u8);
        assert(before + var_bytes(u as nat) =~= out@ + var_bytes((u / 128) as nat));
        u = u / 128;
    }
    out.push(u as u8);
    assert(start + var_int(x) =~= out@);
}

/// One hundred and twenty-eight to the power `n`.
pub open spec fn pow128(n: nat) -> nat
    decreases n,
{
    if n == 0 {
        1
    } else {
        128 * pow128((n - 1) as nat)
    }
}

/// The variable-length number whose `i`th byte is at `at + i`: what its bytes from there on add
/// up to, and where it ends. It may run to five bytes.
pub open spec fn var_from(s: Seq<u8>, at: int, i: nat) -> Result<(int, int), WireError>
    decreases 5 - i,
{
    if i >= 5 {
        Err(WireError::VarIntTooLong)
    } else if at + i < 0 || at + i >= s.len() {
        Err(WireError::Ended)
    } else if s[at + i] < 128 {
        Ok((s[at + i] as int, at + i + 1))
    } else {
        match var_from(s, at, i + 1) {
            Ok((rest, end)) => Ok(((s[at + i] - 128) + 128 * rest, end)),
            Err(e) => Err(e),
        }
    }
}

/// A sum taken as its lowest 32 bits, as a signed number.
pub open spec fn wrap32(v: int) -> i32 {
    ((v % 0x1_0000_0000) as u32) as i32
}

/// The variable-length integer at `at`, and where it ends.
pub open spec fn var_int_at(s: Seq<u8>, at: int) -> Result<(i32, int), WireError> {
    match var_from(s, at, 0) {
        Ok((v, end)) => Ok((wrap32(v), end)),
        Err(e) => Err(e),
    }
}

proof fn lemma_var_from_bounds(s: Seq<u8>, at: int, i: nat)
    requires
        i <= 5,
    ensures
        var_from(s, at, i) matches Ok((v, end)) ==> 0 <= v < pow128((5 - i) as nat) && at + i < end
            <= s.len() && end <= at + 5,
    decreases 5 - i,
{
    if i < 5 && 0 <= at + i < s.len() {
        let k = (5 - (i + 1)) as nat;
        assert(pow128((5 - i) as nat) == 128 * pow128(k));
        lemma_pow128_grows(0, k);
        if s[at + i] >= 128 {
            lemma_var_from_bounds(s, at, i + 1);
            if let Ok((rest, end)) = var_from(s, at, i + 1) {
                let b = s[at + i];
                assert((b - 128) + 128 * rest < 128 * pow128(k)) by (nonlinear_arith)
                    requires
                        128 <= b < 256,
                        0 <= rest < pow128(k),
                ;
            }
        }
    }
}

/// Reads the variable-length integer at `at`: its value and where it ends.
pub fn read_var_int(bytes: &[u8], at: usize) -> (r: Result<(i32, usize), WireError>)
    requires
        at <= bytes@.len(),
    ensures
        match r {
            Ok((x, end)) => var_int_at(bytes@, at as int) == Ok::<(i32, int), WireError>(
                (x, end as int),
            ) && at < end <= bytes@.len(),
            Err(e) => var_int_at(bytes@, at as int) == Err::<(i32, int), WireError>(e),
        },
{
    let ghost s = bytes@;
    proof {
        lemma_pow_values();
    }
    let mut i: usize = 0;
    let mut val: u64 = 0;
    let mut weight: u64 = 1;
    assert(var_from(s, at as int, 0) == match var_from(s, at as int, 0) {
        Ok((rest, end)) => Ok::<(int, int), WireError>((val + weight * rest, end)),
        Err(e) => Err(e),
    });
    while i < 5
        invariant
            i <= 5,
            at <= s.len(),
            s == bytes@,
            weight == pow128(i as nat),
            val < weight,
            var_from(s, at as int, 0) == match var_from(s, at as int, i as nat) {
                Ok((rest, end)) => Ok::<(int, int), WireError>((val + weight * rest, end)),
                Err(e) => Err(e),
            },
        decreases 5 - i,
    {
        if i >= bytes.len() - at {
            return Err(WireError::Ended);
        }
        let b = bytes[at + i];
        let low = (b % 128) as u64;
        proof {
            lemma_pow_values();
        }
        assert(pow128((i + 1) as nat) == 128 * pow128(i as nat));
        assert(weight <= pow128(4)) by {
            lemma_pow128_grows(i as nat, 4);
        }
        assert(weight <= 268435456);
        assert(low * weight <= 127 * weight) by (nonlinear_arith)
            requires
                low <= 127,
        ;
        if b < 128 {
            let total = val + low * weight;
            proof {
                lemma_var_from_bounds(s, at as int, 0);
                assert(var_from(s, at as int, i as nat) == Ok::<(int, int), WireError>(
                    (b as int, at + i + 1),
                ));
                assert(low == b);
                assert(weight * (b as int) == low * weight) by (nonlinear_arith)
                    requires
                        low == b,
                ;
                assert(var_from(s, at as int, 0) == Ok::<(int, int), WireError>(
                    (total as int, at + i + 1),
                ));
            }
            let x = ((total % 0x1_0000_0000) as u32) as i32;
            return Ok((x, at + i + 1));
        }
        proof {
            let next = var_from(s, at as int, (i + 1) as nat);
            match next {
                Ok((rest, end)) => {
                    assert(val + weight * ((b - 128) + 128 * rest) == (val + low * weight) + (weight
                        * 128) * rest) by (nonlinear_arith)
                        requires
                            low == b - 128,
                    ;
                },
                Err(_) => {},
            }
        }
        val = val + low * weight;
        weight = weight * 128;
        i = i + 1;
    }
    Err(WireError::VarIntTooLong)
}

proof fn lemma_pow_values()
    ensures
        pow128(0) == 1,
        pow128(1) == 128,
        pow128(2) == 16384,
        pow128(3) == 2097152,
        pow128(4) == 268435456,
        pow128(5) == 0x8_0000_0000,
{
    assert(pow128(0) == 1);
    assert(pow128(1) == 128);
    assert(pow128(2) == 16384);
    assert(pow128(3) == 2097152);
    assert(pow128(4) == 268435456);
    assert(pow128(5) == 0x8_0000_0000);
}

proof fn lemma_pow128_grows(a: nat, b: nat)
    requires
        a <= b,
    ensures
        pow128(a) <= pow128(b),
        pow128(a) >= 1,
    decreases b,
{
    if b > 0 && a < b {
        lemma_pow128_grows(a, (b - 1) as nat);
    } else if b > 0 {
        lemma_pow128_grows(0, (b - 1) as nat);
    }
}

/// The bytes of a number, read back at the place they were written, give the number and end where
/// they end.
proof fn lemma_var_bytes_read(s: Seq<u8>, at: int, i: nat, u: nat)
    requires
        i < 5,
        u < pow128((5 - i) as nat),
        0 <= at,
        at + i + var_bytes(u).len() <= s.len(),
        s.subrange(at + i, at + i + var_bytes(u).len()) == var_bytes(u),
    ensures
        var_from(s, at, i) == Ok::<(int, int), WireError>((u as int, at + i + var_bytes(u).len())),
    decreases u,
{
    let b = var_bytes(u);
    assert(s[at + i] == s.subrange(at + i, at + i + b.len())[0]);
    if u >= 128 {
        let rest = var_bytes(u / 128);
        assert(b =~= seq![(u % 128 + 128) as u8] + rest);
        assert(pow128((5 - i) as nat) == 128 * pow128((5 - (i + 1)) as nat));
        assert(u / 128 < pow128((5 - (i + 1)) as nat)) by (nonlinear_arith)
            requires
                u < 128 * pow128((5 - (i + 1)) as nat),
        ;
        assert(i + 1 < 5) by {
            if i + 1 >= 5 {
                assert(pow128(1) == 128 * pow128(0));
            }
        }
        assert(b.drop_first() =~= rest);
        assert(s.subrange(at + i + 1, at + i + 1 + rest.len()) =~= s.subrange(
            at + i,
            at + i + b.len(),
        ).drop_first());
        lemma_var_bytes_read(s, at, i + 1, u / 128);
    }
}

/// A number written as a variable-length integer reads back as itself, and the reading stops
/// exactly where the writing did, whatever follows.
pub proof fn lemma_var_int_round_trip(x: i32, rest: Seq<u8>)
    ensures
        var_int_at(var_int(x) + rest, 0) == Ok::<(i32, int), WireError>((x, var_int(x).len() as int)),
{
    let u = (x as u32) as nat;
    let s = var_int(x) + rest;
    lemma_pow_values();
    assert(s.subrange(0, var_int(x).len() as int) =~= var_int(x));
    lemma_var_bytes_read(s, 0, 0, u);
    assert(((x as u32) as u32) as i32 == x) by (bit_vector);
    assert(u % 0x1_0000_0000 == u);
}


/// The number a client speaking `version` reads a kind of component as, if it knows it at all.
pub open spec fn component_wire(kind: ComponentType, version: ProtocolVersion) -> Option<u16> {
    let n = component_table(version)[component_id(kind)];
    if n < 0 {
        None
    } else {
        Some(n as u16)
    }
}

/// Where `n` first appears in a table, if it does.
pub open spec fn first_place(table: Seq<i32>, n: int) -> Option<int>
    decreases table.len(),
{
    if table.len() == 0 {
        None
    } else if table.last() == n {
        match first_place(table.drop_last(), n) {
            Some(j) => Some(j),
            None => Some(table.len() - 1),
        }
    } else {
        first_place(table.drop_last(), n)
    }
}

/// Where a number is first given, it is given, at a place the table has.
pub proof fn lemma_first_place_bounds(table: Seq<i32>, n: int)
    ensures
        first_place(table, n) matches Some(j) ==> 0 <= j < table.len() && table[j] == n,
    decreases table.len(),
{
    if table.len() > 0 {
        lemma_first_place_bounds(table.drop_last(), n);
    }
}

/// Where `n` first appears in a version's row of a table that has `len` places.
fn first_in<F: Fn(ProtocolVersion, usize) -> i32>(
    version: ProtocolVersion,
    n: u16,
    len: usize,
    number: F,
    Ghost(table): Ghost<Seq<i32>>,
) -> (r: Option<usize>)
    requires
        table.len() == len,
        forall|j: usize| j < len ==> #[trigger] call_requires(number, (version, j)),
        forall|j: usize, x: i32| j < len && #[trigger] call_ensures(number, (version, j), x) ==> x == table[j as int],
    ensures
        match r {
            Some(j) => first_place(table, n as int) == Some(j as int),
            None => first_place(table, n as int) is None,
        },
{
    let mut j: usize = 0;
    assert(table.take(0) =~= Seq::<i32>::empty());
    while j < len
        invariant
            j <= len,
            table.len() == len,
            forall|k: usize| k < len ==> #[trigger] call_requires(number, (version, k)),
            forall|k: usize, x: i32| k < len && #[trigger] call_ensures(number, (version, k), x) ==> x == table[k as int],
            first_place(table.take(j as int), n as int) is None,
        decreases len - j,
    {
        let x = number(version, j);
        assert(table.take(j + 1).drop_last() =~= table.take(j as int));
        if x == n as i32 {
            proof {
                lemma_first_place_prefix(table, n as int, j + 1);
            }
            return Some(j);
        }
        j = j + 1;
    }
    assert(table.take(len as int) =~= table);
    None
}

/// What rises past `last` from place `i` on stays above it and within sixteen bits there.
proof fn lemma_rises_above(t: Seq<i32>, i: int, last: int)
    requires
        0 <= i,
        rises_from(t, i, last),
    ensures
        forall|j: int| i <= j < t.len() && t[j] >= 0 ==> last < #[trigger] t[j] < 0x1_0000,
    decreases t.len() - i,
{
    if i < t.len() {
        if t[i] < 0 {
            lemma_rises_above(t, i + 1, last);
        } else {
            lemma_rises_above(t, i + 1, t[i] as int);
        }
    }
}

/// In what rises from place `i` on, no number is given twice.
proof fn lemma_rises_apart(t: Seq<i32>, i: int, last: int)
    requires
        0 <= i,
        rises_from(t, i, last),
    ensures
        forall|j: int, k: int|
            i <= j < k < t.len() && t[j] >= 0 && t[k] >= 0 ==> #[trigger] t[j] < #[trigger] t[k],
    decreases t.len() - i,
{
    if i < t.len() {
        if t[i] < 0 {
            lemma_rises_apart(t, i + 1, last);
        } else {
            lemma_rises_apart(t, i + 1, t[i] as int);
            lemma_rises_above(t, i + 1, t[i] as int);
        }
    }
}

/// A number given at place `k` and nowhere before it is first given at `k`.
proof fn lemma_first_given_at(t: Seq<i32>, k: int, n: int)
    requires
        0 <= k < t.len(),
        t[k] == n,
        forall|j: int| 0 <= j < k ==> t[j] != n,
    ensures
        first_place(t, n) == Some(k),
    decreases t.len(),
{
    let s = t.drop_last();
    if k == t.len() - 1 {
        lemma_first_place_bounds(s, n);
    } else {
        assert forall|j: int| 0 <= j < k implies s[j] != n by {
            assert(s[j] == t[j]);
        }
        lemma_first_given_at(s, k, n);
    }
}

/// In a table that rises all the way along, each number a place gives fits in sixteen bits and is
/// first given at that place.
proof fn lemma_rising_reads_back(t: Seq<i32>, k: int)
    requires
        rises_from(t, 0, -1),
        0 <= k < t.len(),
        t[k] >= 0,
    ensures
        t[k] < 0x1_0000,
        first_place(t, t[k] as int) == Some(k),
{
    lemma_rises_above(t, 0, -1);
    lemma_rises_apart(t, 0, -1);
    assert forall|j: int| 0 <= j < k implies t[j] != t[k] by {
        if t[j] >= 0 {
            assert(t[j] < t[k]);
        }
    }
    lemma_first_given_at(t, k, t[k] as int);
}

/// The number a client is sent for a kind of component reads back, for that client, as the same
/// kind: where the number first appears in that version's registry is the kind's own place.
#[verifier::spinoff_prover]
pub proof fn lemma_component_numbers_read_back(kind: ComponentType, version: ProtocolVersion)
    ensures
        component_wire(kind, version) matches Some(w) ==> first_place(
            component_table(version),
            w as int,
        ) == Some(component_id(kind)),
{
    let t = component_table(version);
    let k = component_id(kind);
    lemma_tables_rise(version);
    assert(t.len() == COMPONENT_KINDS);
    assert(0 <= k < COMPONENT_KINDS);
    if t[k] >= 0 {
        lemma_rising_reads_back(t, k);
    }
}

/// The number a client is sent for an enchantment reads back, for that client, as the same
/// enchantment.
#[verifier::spinoff_prover]
pub proof fn lemma_enchantment_numbers_read_back(id: u16, version: ProtocolVersion)
    ensures
        enchantment_wire(id, version) matches Some(w) ==> first_place(
            enchantment_table(version),
            w as int,
        ) == Some(id as int),
{
    let t = enchantment_table(version);
    lemma_tables_rise(version);
    assert(t.len() == ENCHANTMENTS);
    if id < ENCHANTMENTS && t[id as int] >= 0 {
        lemma_rising_reads_back(t, id as int);
    }
}

/// Once `n` appears in a prefix, where it first appears is where it first appears in the whole.
proof fn lemma_first_place_prefix(table: Seq<i32>, n: int, k: int)
    requires
        0 < k <= table.len(),
        first_place(table.take(k), n) is Some,
    ensures
        first_place(table, n) == first_place(table.take(k), n),
    decreases table.len() - k,
{
    if k < table.len() {
        assert(table.take(k + 1).drop_last() =~= table.take(k));
        lemma_first_place_prefix(table, n, k + 1);
    } else {
        assert(table.take(k) =~= table);
    }
}

impl ComponentType {
    /// The number a client speaking `version` reads this as, if it knows it at all. None means the
    /// version has no such component: sending one anyway would name whatever sits at that number.
    pub fn wire_id(self, version: ProtocolVersion) -> (r: Option<u16>)
        ensures
            r == component_wire(self, version),
    {
        let n = component_number(version, self.id() as usize);
        if n < 0 {
            None
        } else {
            Some(n as u16)
        }
    }

    /// Which kind a client speaking `version` means by a number.
    pub fn from_wire_id(id: u16, version: ProtocolVersion) -> (r: Option<ComponentType>)
        ensures
            match r {
                Some(kind) => first_place(component_table(version), id as int) == Some(
                    component_id(kind),
                ),
                None => first_place(component_table(version), id as int) is None,
            },
    {
        let at = first_in(version, id, COMPONENT_KINDS, component_number, Ghost(component_table(version)));
        proof {
            lemma_first_place_bounds(component_table(version), id as int);
        }
        match at {
            Some(j) => kind_at(j as u16),
            None => None,
        }
    }
}

/// The number a client speaking `version` reads the enchantment this server numbers `id` as.
pub open spec fn enchantment_wire(id: u16, version: ProtocolVersion) -> Option<u16> {
    if id >= ENCHANTMENTS {
        None
    } else {
        let n = enchantment_table(version)[id as int];
        if n < 0 {
            None
        } else {
            Some(n as u16)
        }
    }
}

/// The number a client speaking `version` reads the enchantment this server numbers `id` as, if
/// there is such an enchantment and the version has it.
pub fn enchantment_wire_id(id: u16, version: ProtocolVersion) -> (r: Option<u16>)
    ensures
        r == enchantment_wire(id, version),
{
    if id >= ENCHANTMENTS {
        return None;
    }
    let n = enchantment_number(version, id as usize);
    if n < 0 {
        None
    } else {
        Some(n as u16)
    }
}

/// Which enchantment, as this server numbers it, a client speaking `version` means by a number.
pub fn enchantment_from_wire_id(wire: u16, version: ProtocolVersion) -> (r: Option<u16>)
    ensures
        match r {
            Some(id) => first_place(enchantment_table(version), wire as int) == Some(id as int),
            None => first_place(enchantment_table(version), wire as int) is None,
        },
{
    let at = first_in(version, wire, ENCHANTMENTS as usize, enchantment_number, Ghost(enchantment_table(version)));
    proof {
        lemma_first_place_bounds(enchantment_table(version), wire as int);
    }
    match at {
        Some(j) => Some(j as u16),
        None => None,
    }
}


/// A length as the count that goes out: the length where it fits in 32 bits, the largest such
/// number where it does not.
pub open spec fn count_of(n: nat) -> i32 {
    if n <= i32::MAX {
        n as i32
    } else {
        i32::MAX
    }
}

/// Four bytes, highest first, of a 32-bit number's bit pattern.
pub open spec fn be_bytes(c: i32) -> Seq<u8> {
    let u = (c as u32) as nat;
    seq![(u / 0x100_0000) as u8, (u / 0x1_0000 % 0x100) as u8, (u / 0x100 % 0x100) as u8, (u % 0x100) as u8]
}

/// Runs of bytes one after another.
pub open spec fn flat(runs: Seq<Seq<u8>>) -> Seq<u8>
    decreases runs.len(),
{
    if runs.len() == 0 {
        seq![]
    } else {
        flat(runs.drop_last()) + runs.last()
    }
}

/// The enchantments a client speaking `version` can be shown, by its own numbers, in order; the
/// ones it has never heard of are left out.
pub open spec fn known_enchantments(held: Seq<(u16, u16)>, version: ProtocolVersion) -> Seq<(u16, u16)>
    decreases held.len(),
{
    if held.len() == 0 {
        seq![]
    } else {
        let before = known_enchantments(held.drop_last(), version);
        match enchantment_wire(held.last().0, version) {
            Some(id) => before.push((id, held.last().1)),
            None => before,
        }
    }
}

/// Pairs of numbers, each pair as two variable-length integers.
pub open spec fn pairs_bytes(pairs: Seq<(u16, u16)>) -> Seq<u8>
    decreases pairs.len(),
{
    if pairs.len() == 0 {
        seq![]
    } else {
        pairs_bytes(pairs.drop_last()) + var_int(pairs.last().0 as i32) + var_int(
            pairs.last().1 as i32,
        )
    }
}

/// The bytes a component's value travels as to a client speaking `version`.
pub open spec fn worth_bytes(w: Worth, version: ProtocolVersion) -> Seq<u8> {
    match w {
        Worth::Nothing => seq![],
        Worth::Number(n) => var_int(n),
        Worth::Flag(b) => seq![if b { 1u8 } else { 0u8 }],
        Worth::Colour(c) => be_bytes(c),
        Worth::Text(t) => t,
        Worth::Lines(lines) => var_int(count_of(lines.len())) + flat(lines),
        Worth::Enchantments(held) => {
            let known = known_enchantments(held, version);
            var_int(count_of(known.len())) + pairs_bytes(known)
        },
        Worth::Nbt(b) => b,
    }
}

/// The components a patch sets that a client speaking `version` has, by its numbers, in order.
pub open spec fn set_on_wire(set: Seq<(ComponentType, Worth)>, version: ProtocolVersion) -> Seq<
    (u16, Worth),
>
    decreases set.len(),
{
    if set.len() == 0 {
        seq![]
    } else {
        let before = set_on_wire(set.drop_last(), version);
        match component_wire(set.last().0, version) {
            Some(id) => before.push((id, set.last().1)),
            None => before,
        }
    }
}

/// The components a patch takes away that a client speaking `version` has, by its numbers.
pub open spec fn removed_on_wire(removed: Seq<ComponentType>, version: ProtocolVersion) -> Seq<u16>
    decreases removed.len(),
{
    if removed.len() == 0 {
        seq![]
    } else {
        let before = removed_on_wire(removed.drop_last(), version);
        match component_wire(removed.last(), version) {
            Some(id) => before.push(id),
            None => before,
        }
    }
}

/// Each component set, as its number and then its value.
pub open spec fn entries_bytes(entries: Seq<(u16, Worth)>, version: ProtocolVersion) -> Seq<u8>
    decreases entries.len(),
{
    if entries.len() == 0 {
        seq![]
    } else {
        entries_bytes(entries.drop_last(), version) + var_int(entries.last().0 as i32) + worth_bytes(
            entries.last().1,
            version,
        )
    }
}

/// Numbers one after another.
pub open spec fn ids_bytes(ids: Seq<u16>) -> Seq<u8>
    decreases ids.len(),
{
    if ids.len() == 0 {
        seq![]
    } else {
        ids_bytes(ids.drop_last()) + var_int(ids.last() as i32)
    }
}

/// The bytes a patch travels as to a client speaking `version`: how many components it sets and
/// how many it takes away, counted after leaving out the ones the client has never heard of, then
/// each set one and its value, then each taken away.
pub open spec fn patch_bytes(p: Patch, version: ProtocolVersion) -> Seq<u8> {
    let set = set_on_wire(p.set, version);
    let removed = removed_on_wire(p.removed, version);
    var_int(count_of(set.len())) + var_int(count_of(removed.len())) + entries_bytes(set, version)
        + ids_bytes(removed)
}

/// Writes a count.
fn write_count(out: &mut Vec<u8>, n: usize)
    ensures
        final(out)@ == old(out)@ + var_int(count_of(n as nat)),
{
    let c: i32 = if n <= i32::MAX as usize {
        n as i32
    } else {
        i32::MAX
    };
    write_var_int(out, c);
}

/// Appends some bytes.
fn write_bytes(out: &mut Vec<u8>, bytes: &Vec<u8>)
    ensures
        final(out)@ == old(out)@ + bytes@,
{
    let ghost start = old(out)@;
    let mut i: usize = 0;
    while i < bytes.len()
        invariant
            i <= bytes@.len(),
            out@ == start + bytes@.take(i as int),
        decreases bytes.len() - i,
    {
        out.push(bytes[i]);
        i = i + 1;
        assert(out@ =~= start + bytes@.take(i as int));
    }
    assert(bytes@.take(i as int) =~= bytes@);
}

/// Writes one value as a client speaking `version` reads it.
fn write_value(out: &mut Vec<u8>, value: &ComponentValue, version: ProtocolVersion)
    ensures
        final(out)@ == old(out)@ + worth_bytes(value@, version),
{
    let ghost start = old(out)@;
    match value {
        ComponentValue::Nothing => {
            assert(out@ =~= start + worth_bytes(value@, version));
        },
        ComponentValue::Number(n) => write_var_int(out, *n),
        ComponentValue::Flag(b) => {
            out.push(if *b { 1u8 } else { 0u8 });
            assert(out@ =~= start + worth_bytes(value@, version));
        },
        ComponentValue::Colour(c) => {
            let u = *c as u32;
            out.push((u / 0x100_0000) as u8);
            out.push((u / 0x1_0000 % 0x100) as u8);
            out.push((u / 0x100 % 0x100) as u8);
            out.push((u % 0x100) as u8);
            assert(out@ =~= start + worth_bytes(value@, version));
        },
        ComponentValue::Text(bytes) => write_bytes(out, bytes),
        ComponentValue::Lines(lines) => {
            write_count(out, lines.len());
            let ghost mid = out@;
            let ghost runs = lines@.map_values(|line: Vec<u8>| line@);
            let mut i: usize = 0;
            assert(runs.take(0) =~= Seq::<Seq<u8>>::empty());
            assert(mid =~= mid + flat(runs.take(0)));
            while i < lines.len()
                invariant
                    i <= lines@.len(),
                    runs == lines@.map_values(|line: Vec<u8>| line@),
                    out@ == mid + flat(runs.take(i as int)),
                decreases lines.len() - i,
            {
                write_bytes(out, &lines[i]);
                assert(runs.take(i + 1).drop_last() =~= runs.take(i as int));
                assert(runs.take(i + 1).last() == lines@[i as int]@);
                assert(out@ =~= mid + flat(runs.take(i + 1)));
                i = i + 1;
            }
            assert(runs.take(lines.len() as int) =~= runs);
            assert(out@ =~= start + worth_bytes(value@, version));
        },
        ComponentValue::Enchantments(held) => {
            let mut known: Vec<(u16, u16)> = Vec::new();
            let mut i: usize = 0;
            assert(held@.take(0) =~= Seq::<(u16, u16)>::empty());
            while i < held.len()
                invariant
                    i <= held@.len(),
                    known@ == known_enchantments(held@.take(i as int), version),
                decreases held.len() - i,
            {
                assert(held@.take(i + 1).drop_last() =~= held@.take(i as int));
                assert(held@.take(i + 1).last() == held@[i as int]);
                match enchantment_wire_id(held[i].0, version) {
                    Some(id) => known.push((id, held[i].1)),
                    None => {},
                }
                i = i + 1;
            }
            assert(held@.take(held.len() as int) =~= held@);
            write_count(out, known.len());
            let ghost mid = out@;
            let mut j: usize = 0;
            assert(known@.take(0) =~= Seq::<(u16, u16)>::empty());
            assert(mid =~= mid + pairs_bytes(known@.take(0)));
            while j < known.len()
                invariant
                    j <= known@.len(),
                    out@ == mid + pairs_bytes(known@.take(j as int)),
                decreases known.len() - j,
            {
                assert(known@.take(j + 1).drop_last() =~= known@.take(j as int));
                assert(known@.take(j + 1).last() == known@[j as int]);
                write_var_int(out, known[j].0 as i32);
                write_var_int(out, known[j].1 as i32);
                assert(out@ =~= mid + pairs_bytes(known@.take(j + 1)));
                j = j + 1;
            }
            assert(known@.take(known.len() as int) =~= known@);
            assert(out@ =~= start + worth_bytes(value@, version));
        },
        ComponentValue::Nbt(bytes) => write_bytes(out, bytes),
    }
}

impl Components {
    /// Writes the patch as a client speaking `version` reads it. Whatever the reader has never
    /// heard of is left out, and counted after the leaving out: a count that does not match what
    /// follows is how a client reads the rest of a container as component numbers.
    pub fn encode(&self, out: &mut Vec<u8>, version: ProtocolVersion)
        requires
            self.wf(),
        ensures
            final(out)@ == old(out)@ + patch_bytes(self@, version),
    {
        let ghost start = old(out)@;
        let ghost set = self@.set;
        let kinds = self.kinds_set();
        let removed = self.removed();
        let mut set_count: usize = 0;
        let mut i: usize = 0;
        assert(set.take(0) =~= Seq::<(ComponentType, Worth)>::empty());
        while i < kinds.len()
            invariant
                i <= kinds@.len(),
                kinds@ == set_kinds(set),
                set == self@.set,
                set_count == set_on_wire(set.take(i as int), version).len(),
                set_count <= i,
            decreases kinds.len() - i,
        {
            assert(set.take(i + 1).drop_last() =~= set.take(i as int));
            assert(set.take(i + 1).last().0 == kinds@[i as int]);
            if kinds[i].wire_id(version).is_some() {
                set_count = set_count + 1;
            }
            i = i + 1;
        }
        assert(set.take(kinds.len() as int) =~= set);
        let mut removed_count: usize = 0;
        let mut k: usize = 0;
        assert(removed@.take(0) =~= Seq::<ComponentType>::empty());
        while k < removed.len()
            invariant
                k <= removed@.len(),
                removed_count == removed_on_wire(removed@.take(k as int), version).len(),
                removed_count <= k,
            decreases removed.len() - k,
        {
            assert(removed@.take(k + 1).drop_last() =~= removed@.take(k as int));
            if removed[k].wire_id(version).is_some() {
                removed_count = removed_count + 1;
            }
            k = k + 1;
        }
        assert(removed@.take(removed.len() as int) =~= removed@);
        write_count(out, set_count);
        write_count(out, removed_count);
        let ghost mid = out@;
        let mut j: usize = 0;
        assert(mid =~= mid + entries_bytes(set_on_wire(set.take(0), version), version));
        while j < kinds.len()
            invariant
                j <= kinds@.len(),
                kinds@ == set_kinds(set),
                set == self@.set,
                self.wf(),
                out@ == mid + entries_bytes(set_on_wire(set.take(j as int), version), version),
            decreases kinds.len() - j,
        {
            assert(set.take(j + 1).drop_last() =~= set.take(j as int));
            assert(set.take(j + 1).last() == set[j as int]);
            assert(set[j as int].0 == kinds@[j as int]);
            let ghost prev = set_on_wire(set.take(j as int), version);
            match kinds[j].wire_id(version) {
                Some(id) => {
                    let ghost before = out@;
                    write_var_int(out, id as i32);
                    proof {
                        self.lemma_wf_in_order();
                        lemma_setting_at(set, j as int, kinds@[j as int]);
                    }
                    let value = self.get(kinds[j]).unwrap();
                    write_value(out, value, version);
                    let ghost next = prev.push((id, set[j as int].1));
                    assert(set_on_wire(set.take(j + 1), version) == next);
                    assert(next.drop_last() =~= prev);
                    assert(entries_bytes(next, version) == entries_bytes(prev, version) + var_int(
                        id as i32,
                    ) + worth_bytes(set[j as int].1, version));
                    assert(out@ =~= before + var_int(id as i32) + worth_bytes(set[j as int].1, version));
                },
                None => {
                    assert(set_on_wire(set.take(j + 1), version) == prev);
                },
            }
            j = j + 1;
        }
        assert(set.take(kinds.len() as int) =~= set);
        let ghost after_set = out@;
        let mut m: usize = 0;
        assert(after_set =~= after_set + ids_bytes(removed_on_wire(removed@.take(0), version)));
        while m < removed.len()
            invariant
                m <= removed@.len(),
                out@ == after_set + ids_bytes(removed_on_wire(removed@.take(m as int), version)),
            decreases removed.len() - m,
        {
            assert(removed@.take(m + 1).drop_last() =~= removed@.take(m as int));
            assert(removed@.take(m + 1).last() == removed@[m as int]);
            let ghost prev = removed_on_wire(removed@.take(m as int), version);
            match removed[m].wire_id(version) {
                Some(id) => {
                    write_var_int(out, id as i32);
                    let ghost next = prev.push(id);
                    assert(removed_on_wire(removed@.take(m + 1), version) == next);
                    assert(next.drop_last() =~= prev);
                    assert(out@ =~= after_set + ids_bytes(next));
                },
                None => {
                    assert(removed_on_wire(removed@.take(m + 1), version) == prev);
                },
            }
            m = m + 1;
        }
        assert(removed@.take(removed.len() as int) =~= removed@);
        assert(out@ =~= start + patch_bytes(self@, version));
    }
}


/// A count as many items as it says, where it says a negative number: none.
pub open spec fn at_least_none(n: i32) -> nat {
    if n < 0 {
        0
    } else {
        n as nat
    }
}

/// The NBT value at `at`, and where it ends.
pub open spec fn nbt_at(s: Seq<u8>, at: int) -> Result<(Seq<u8>, int), WireError> {
    match one_value(s.skip(at)) {
        Ok(e) => Ok((s.subrange(at, at + e), at + e)),
        Err(err) => Err(WireError::Nbt(err)),
    }
}

/// `n` NBT values from `at`, after those already read.
pub open spec fn lines_from(s: Seq<u8>, at: int, n: nat, read: Seq<Seq<u8>>) -> Result<
    (Seq<Seq<u8>>, int),
    WireError,
>
    decreases n,
{
    if n == 0 {
        Ok((read, at))
    } else {
        match nbt_at(s, at) {
            Ok((v, p)) => lines_from(s, p, (n - 1) as nat, read.push(v)),
            Err(e) => Err(e),
        }
    }
}

/// A level as a sixteen-bit number, where it is one; none where it is not.
pub open spec fn level_of(level: i32) -> u16 {
    if 0 <= level <= u16::MAX {
        level as u16
    } else {
        0
    }
}

/// The enchantment this server numbers as a client of its own version numbered it, if any.
pub open spec fn enchantment_read(id: i32) -> Option<u16> {
    if 0 <= id <= u16::MAX {
        match first_place(enchantment_table(CURRENT), id as int) {
            Some(j) => Some(j as u16),
            None => None,
        }
    } else {
        None
    }
}

/// `n` enchantments from `at`, each a number and a level, after those already read; one this
/// server does not know is passed over.
pub open spec fn pairs_from(s: Seq<u8>, at: int, n: nat, read: Seq<(u16, u16)>) -> Result<
    (Seq<(u16, u16)>, int),
    WireError,
>
    decreases n,
{
    if n == 0 {
        Ok((read, at))
    } else {
        match var_int_at(s, at) {
            Ok((id, p)) => match var_int_at(s, p) {
                Ok((level, q)) => pairs_from(
                    s,
                    q,
                    (n - 1) as nat,
                    match enchantment_read(id) {
                        Some(own) => read.push((own, level_of(level))),
                        None => read,
                    },
                ),
                Err(e) => Err(e),
            },
            Err(e) => Err(e),
        }
    }
}

/// Four bytes, highest first, as a 32-bit number.
pub open spec fn from_be(s: Seq<u8>, at: int) -> i32 {
    wrap32(s[at] * 0x100_0000 + s[at + 1] * 0x1_0000 + s[at + 2] * 0x100 + s[at + 3])
}

/// The value of a known shape at `at`, and where it ends.
pub open spec fn worth_at(s: Seq<u8>, at: int, shape: Shape) -> Result<(Worth, int), WireError> {
    match shape {
        Shape::Nothing => Ok((Worth::Nothing, at)),
        Shape::Number => match var_int_at(s, at) {
            Ok((n, p)) => Ok((Worth::Number(n), p)),
            Err(e) => Err(e),
        },
        Shape::Flag => if 0 <= at < s.len() {
            Ok((Worth::Flag(s[at] != 0), at + 1))
        } else {
            Err(WireError::Ended)
        },
        Shape::Colour => if 0 <= at && at + 4 <= s.len() {
            Ok((Worth::Colour(from_be(s, at)), at + 4))
        } else {
            Err(WireError::Ended)
        },
        Shape::Text => match nbt_at(s, at) {
            Ok((t, p)) => Ok((Worth::Text(t), p)),
            Err(e) => Err(e),
        },
        Shape::Lines => match var_int_at(s, at) {
            Ok((n, p)) => match lines_from(s, p, at_least_none(n), seq![]) {
                Ok((lines, q)) => Ok((Worth::Lines(lines), q)),
                Err(e) => Err(e),
            },
            Err(e) => Err(e),
        },
        Shape::Enchantments => match var_int_at(s, at) {
            Ok((n, p)) => match pairs_from(s, p, at_least_none(n), seq![]) {
                Ok((held, q)) => Ok((Worth::Enchantments(held), q)),
                Err(e) => Err(e),
            },
            Err(e) => Err(e),
        },
        Shape::Nbt => match nbt_at(s, at) {
            Ok((t, p)) => Ok((Worth::Nbt(t), p)),
            Err(e) => Err(e),
        },
    }
}

/// The kind a number names in this server's own version, which is the version read.
pub open spec fn kind_read(id: i32) -> Result<ComponentType, WireError> {
    if 0 <= id <= u16::MAX {
        match first_place(component_table(CURRENT), id as int) {
            Some(j) => Ok(choose|k: ComponentType| component_id(k) == j),
            None => Err(WireError::NoSuchComponent(id)),
        }
    } else {
        Err(WireError::NoSuchComponent(id))
    }
}

/// One change read off the wire: a kind set to a value, or taken away.
pub type Op = (ComponentType, Option<Worth>);

/// `n` set components from `at`, each a number and a value, after the changes already read.
pub open spec fn sets_from(s: Seq<u8>, at: int, n: nat, ops: Seq<Op>) -> Result<(Seq<Op>, int), WireError>
    decreases n,
{
    if n == 0 {
        Ok((ops, at))
    } else {
        match var_int_at(s, at) {
            Ok((id, p)) => match kind_read(id) {
                Ok(kind) => match known_shape(kind) {
                    Some(shape) => match worth_at(s, p, shape) {
                        Ok((w, q)) => sets_from(s, q, (n - 1) as nat, ops.push((kind, Some(w)))),
                        Err(e) => Err(e),
                    },
                    None => Err(WireError::Unreadable(kind)),
                },
                Err(e) => Err(e),
            },
            Err(e) => Err(e),
        }
    }
}

/// `n` taken-away components from `at`, each a number, after the changes already read.
pub open spec fn removals_from(s: Seq<u8>, at: int, n: nat, ops: Seq<Op>) -> Result<(Seq<Op>, int), WireError>
    decreases n,
{
    if n == 0 {
        Ok((ops, at))
    } else {
        match var_int_at(s, at) {
            Ok((id, p)) => match kind_read(id) {
                Ok(kind) => removals_from(s, p, (n - 1) as nat, ops.push((kind, None))),
                Err(e) => Err(e),
            },
            Err(e) => Err(e),
        }
    }
}

/// The changes a patch at `at` makes, in the order they come, and where it ends.
pub open spec fn patch_at(s: Seq<u8>, at: int) -> Result<(Seq<Op>, int), WireError> {
    match var_int_at(s, at) {
        Ok((set_count, p)) => match var_int_at(s, p) {
            Ok((removed_count, q)) => match sets_from(s, q, at_least_none(set_count), seq![]) {
                Ok((ops, r)) => removals_from(s, r, at_least_none(removed_count), ops),
                Err(e) => Err(e),
            },
            Err(e) => Err(e),
        },
        Err(e) => Err(e),
    }
}

/// What the changes leave a kind set to: the last change to it, if it was a setting.
pub open spec fn applied(ops: Seq<Op>, kind: ComponentType) -> Option<Worth>
    decreases ops.len(),
{
    if ops.len() == 0 {
        None
    } else if ops.last().0 == kind {
        ops.last().1
    } else {
        applied(ops.drop_last(), kind)
    }
}

/// Whether the changes leave a kind taken away: the last change to it took it away.
pub open spec fn taken(ops: Seq<Op>, kind: ComponentType) -> bool
    decreases ops.len(),
{
    if ops.len() == 0 {
        false
    } else if ops.last().0 == kind {
        ops.last().1 is None
    } else {
        taken(ops.drop_last(), kind)
    }
}

/// Whether a patch is what the changes make of nothing.
pub open spec fn made_by(p: Patch, ops: Seq<Op>) -> bool {
    &&& forall|k: ComponentType| #[trigger] setting(p.set, k) == applied(ops, k)
    &&& forall|k: ComponentType| #[trigger] p.removed.contains(k) == taken(ops, k)
}


/// Reads the NBT value at `at`: its bytes, and where it ends.
fn read_nbt(bytes: &[u8], at: usize) -> (r: Result<(Vec<u8>, usize), WireError>)
    requires
        at <= bytes@.len(),
    ensures
        match nbt_at(bytes@, at as int) {
            Ok((v, e)) => r matches Ok((w, e2)) && w@ == v && e2 == e && at < e2 <= bytes@.len(),
            Err(err) => r == Err::<(Vec<u8>, usize), WireError>(err),
        },
{
    let rest = vstd::slice::slice_subrange(bytes, at, bytes.len());
    assert(rest@ =~= bytes@.skip(at as int));
    match value_length(rest) {
        Ok(e) => {
            let mut out: Vec<u8> = Vec::new();
            let mut k: usize = 0;
            let n = bytes.len();
            while k < e
                invariant
                    n == bytes@.len(),
                    e <= rest@.len(),
                    rest@ == bytes@.skip(at as int),
                    at + rest@.len() == bytes@.len(),
                    k <= e,
                    out@ == bytes@.subrange(at as int, at + k),
                decreases e - k,
            {
                out.push(bytes[at + k]);
                k = k + 1;
                assert(out@ =~= bytes@.subrange(at as int, at + k));
            }
            Ok((out, at + e))
        },
        Err(err) => Err(WireError::Nbt(err)),
    }
}

/// The values of some lines.
pub open spec fn lines_view(lines: Seq<Vec<u8>>) -> Seq<Seq<u8>> {
    lines.map_values(|line: Vec<u8>| line@)
}

/// Reads a count where a negative one means none.
fn read_count(bytes: &[u8], at: usize) -> (r: Result<(u32, usize), WireError>)
    requires
        at <= bytes@.len(),
    ensures
        match var_int_at(bytes@, at as int) {
            Ok((n, e)) => r matches Ok((c, e2)) && c == at_least_none(n) && e2 == e && at < e2
                <= bytes@.len(),
            Err(err) => r == Err::<(u32, usize), WireError>(err),
        },
{
    match read_var_int(bytes, at) {
        Ok((n, e)) => Ok((if n < 0 {
            0
        } else {
            n as u32
        }, e)),
        Err(err) => Err(err),
    }
}

/// Reads a value of a known shape at `at`: the value, and where it ends.
fn read_value(bytes: &[u8], at: usize, shape: Shape) -> (r: Result<(ComponentValue, usize), WireError>)
    requires
        at <= bytes@.len(),
    ensures
        match worth_at(bytes@, at as int, shape) {
            Ok((w, e)) => r matches Ok((v, e2)) && v@ == w && e2 == e && at <= e2 <= bytes@.len(),
            Err(err) => r == Err::<(ComponentValue, usize), WireError>(err),
        },
{
    let ghost s = bytes@;
    match shape {
        Shape::Nothing => Ok((ComponentValue::Nothing, at)),
        Shape::Number => match read_var_int(bytes, at) {
            Ok((n, e)) => Ok((ComponentValue::Number(n), e)),
            Err(err) => Err(err),
        },
        Shape::Flag => {
            if at < bytes.len() {
                Ok((ComponentValue::Flag(bytes[at] != 0), at + 1))
            } else {
                Err(WireError::Ended)
            }
        },
        Shape::Colour => {
            if bytes.len() - at >= 4 {
                let v: u64 = bytes[at] as u64 * 0x100_0000 + bytes[at + 1] as u64 * 0x1_0000
                    + bytes[at + 2] as u64 * 0x100 + bytes[at + 3] as u64;
                let c = ((v % 0x1_0000_0000) as u32) as i32;
                Ok((ComponentValue::Colour(c), at + 4))
            } else {
                Err(WireError::Ended)
            }
        },
        Shape::Text => match read_nbt(bytes, at) {
            Ok((t, e)) => Ok((ComponentValue::Text(t), e)),
            Err(err) => Err(err),
        },
        Shape::Nbt => match read_nbt(bytes, at) {
            Ok((t, e)) => Ok((ComponentValue::Nbt(t), e)),
            Err(err) => Err(err),
        },
        Shape::Lines => {
            let (n, p) = match read_count(bytes, at) {
                Ok(c) => c,
                Err(err) => return Err(err),
            };
            let mut lines: Vec<Vec<u8>> = Vec::new();
            let mut left = n;
            let mut cur = p;
            assert(lines_view(lines@) =~= Seq::<Seq<u8>>::empty());
            while left > 0
                invariant
                    s == bytes@,
                    cur <= bytes@.len(),
                    p <= cur,
                    at <= p,
                    worth_at(s, at as int, shape) == match lines_from(s, p as int, n as nat, seq![]) {
                        Ok((lines, q)) => Ok::<(Worth, int), WireError>((Worth::Lines(lines), q)),
                        Err(e) => Err(e),
                    },
                    lines_from(s, p as int, n as nat, seq![]) == lines_from(
                        s,
                        cur as int,
                        left as nat,
                        lines_view(lines@),
                    ),
                decreases left,
            {
                match read_nbt(bytes, cur) {
                    Ok((line, e)) => {
                        let ghost before = lines@;
                        lines.push(line);
                        assert(lines_view(lines@) =~= lines_view(before).push(line@));
                        cur = e;
                    },
                    Err(err) => return Err(err),
                }
                left = left - 1;
            }
            Ok((ComponentValue::Lines(lines), cur))
        },
        Shape::Enchantments => {
            let (n, p) = match read_count(bytes, at) {
                Ok(c) => c,
                Err(err) => return Err(err),
            };
            let mut held: Vec<(u16, u16)> = Vec::new();
            let mut left = n;
            let mut cur = p;
            while left > 0
                invariant
                    s == bytes@,
                    cur <= bytes@.len(),
                    p <= cur,
                    at <= p,
                    worth_at(s, at as int, shape) == match pairs_from(s, p as int, n as nat, seq![]) {
                        Ok((held, q)) => Ok::<(Worth, int), WireError>((Worth::Enchantments(held), q)),
                        Err(e) => Err(e),
                    },
                    pairs_from(s, p as int, n as nat, seq![]) == pairs_from(
                        s,
                        cur as int,
                        left as nat,
                        held@,
                    ),
                decreases left,
            {
                let (id, q) = match read_var_int(bytes, cur) {
                    Ok(x) => x,
                    Err(err) => return Err(err),
                };
                let (level, e) = match read_var_int(bytes, q) {
                    Ok(x) => x,
                    Err(err) => return Err(err),
                };
                if 0 <= id && id <= 0xFFFF {
                    match enchantment_from_wire_id(id as u16, CURRENT) {
                        Some(own) => {
                            proof {
                                lemma_first_place_bounds(enchantment_table(CURRENT), id as int);
                            }
                            let lv: u16 = if 0 <= level && level <= 0xFFFF {
                                level as u16
                            } else {
                                0
                            };
                            held.push((own, lv));
                        },
                        None => {},
                    }
                }
                cur = e;
                left = left - 1;
            }
            Ok((ComponentValue::Enchantments(held), cur))
        },
    }
}

/// Reads the number of a kind of component, as this server's own version numbers them.
fn read_kind(id: i32) -> (r: Result<ComponentType, WireError>)
    ensures
        r == kind_read(id),
{
    if id < 0 || id > 0xFFFF {
        return Err(WireError::NoSuchComponent(id));
    }
    match ComponentType::from_wire_id(id as u16, CURRENT) {
        Some(kind) => {
            proof {
                let j = component_id(kind);
                let k = choose|k: ComponentType| component_id(k) == j;
                crate::components::lemma_component_id_injective(k, kind);
            }
            Ok(kind)
        },
        None => Err(WireError::NoSuchComponent(id)),
    }
}

impl Components {
    /// Reads a patch at `at`, as this server's own version writes it: the patch, and where it
    /// ends. A component this server has no shape for is refused rather than stepped over.
    pub fn decode(bytes: &[u8], at: usize) -> (r: Result<(Components, usize), WireError>)
        requires
            at <= bytes@.len(),
        ensures
            match patch_at(bytes@, at as int) {
                Ok((ops, e)) => r matches Ok((c, e2)) && e2 == e && c.wf() && made_by(c@, ops),
                Err(err) => r matches Err(e2) && e2 == err,
            },
    {
        let ghost s = bytes@;
        let (set_count, p) = match read_count(bytes, at) {
            Ok(c) => c,
            Err(err) => return Err(err),
        };
        let (removed_count, q) = match read_count(bytes, p) {
            Ok(c) => c,
            Err(err) => return Err(err),
        };
        let mut components = Components::none();
        let ghost mut ops: Seq<Op> = seq![];
        let mut left = set_count;
        let mut cur = q;
        assert(made_by(components@, ops));
        while left > 0
            invariant
                s == bytes@,
                cur <= bytes@.len(),
                components.wf(),
                made_by(components@, ops),
                patch_at(s, at as int) == match sets_from(s, q as int, set_count as nat, seq![]) {
                    Ok((ops, r)) => removals_from(s, r, removed_count as nat, ops),
                    Err(e) => Err(e),
                },
                sets_from(s, q as int, set_count as nat, seq![]) == sets_from(
                    s,
                    cur as int,
                    left as nat,
                    ops,
                ),
            decreases left,
        {
            let (id, p1) = match read_var_int(bytes, cur) {
                Ok(x) => x,
                Err(err) => return Err(err),
            };
            let kind = match read_kind(id) {
                Ok(k) => k,
                Err(err) => return Err(err),
            };
            let shape = match shape_of(kind) {
                Some(shape) => shape,
                None => return Err(WireError::Unreadable(kind)),
            };
            let (value, e) = match read_value(bytes, p1, shape) {
                Ok(x) => x,
                Err(err) => return Err(err),
            };
            let ghost w = value@;
            let ghost old_patch = components@;
            components.set(kind, value);
            proof {
                let next = ops.push((kind, Some(w)));
                assert forall|k: ComponentType| #[trigger] setting(components@.set, k) == applied(next, k) by {
                    assert(next.drop_last() =~= ops);
                }
                assert forall|k: ComponentType| #[trigger] components@.removed.contains(k) == taken(next, k) by {
                    assert(next.drop_last() =~= ops);
                }
                ops = next;
            }
            cur = e;
            left = left - 1;
        }
        let mut gone = removed_count;
        let ghost r0 = cur;
        let ghost ops0 = ops;
        while gone > 0
            invariant
                s == bytes@,
                cur <= bytes@.len(),
                components.wf(),
                made_by(components@, ops),
                patch_at(s, at as int) == removals_from(s, r0 as int, removed_count as nat, ops0),
                removals_from(s, r0 as int, removed_count as nat, ops0) == removals_from(
                    s,
                    cur as int,
                    gone as nat,
                    ops,
                ),
            decreases gone,
        {
            let (id, e) = match read_var_int(bytes, cur) {
                Ok(x) => x,
                Err(err) => return Err(err),
            };
            let kind = match read_kind(id) {
                Ok(k) => k,
                Err(err) => return Err(err),
            };
            components.remove(kind);
            proof {
                let next = ops.push((kind, None::<Worth>));
                assert forall|k: ComponentType| #[trigger] setting(components@.set, k) == applied(next, k) by {
                    assert(next.drop_last() =~= ops);
                }
                assert forall|k: ComponentType| #[trigger] components@.removed.contains(k) == taken(next, k) by {
                    assert(next.drop_last() =~= ops);
                }
                ops = next;
            }
            cur = e;
            gone = gone - 1;
        }
        Ok((components, cur))
    }
}


/// Whether `number` can be asked about any item, and gives one answer for each.
pub open spec fn numbers_steadily<F: Fn(i32) -> i32>(number: F) -> bool {
    &&& forall|x: i32| call_requires(number, (x,))
    &&& forall|x: i32, a: i32, b: i32|
        #![trigger call_ensures(number, (x,), a), call_ensures(number, (x,), b)]
        call_ensures(number, (x,), a) && call_ensures(number, (x,), b) ==> a == b
}

/// What `number` answers for an item.
pub open spec fn number_given<F: Fn(i32) -> i32>(number: F, x: i32) -> i32 {
    choose|r: i32| call_ensures(number, (x,), r)
}

/// The number an item travels as, where there is one; nought where there is none.
pub open spec fn item_bytes<F: Fn(i32) -> i32>(item: Option<ItemID>, number: F) -> Seq<u8> {
    match item {
        Some(id) => var_int(number_given(number, id.0)),
        None => var_int(0),
    }
}

/// The bytes a stack travels as to a client speaking `version`, which numbers items as
/// `number` says: its count, and, where the count is not nought, the item's number and its patch.
pub open spec fn slot_bytes<F: Fn(i32) -> i32>(
    count: i32,
    item: Option<ItemID>,
    p: Patch,
    version: ProtocolVersion,
    number: F,
) -> Seq<u8> {
    var_int(count) + if count == 0 {
        seq![]
    } else {
        item_bytes(item, number) + patch_bytes(p, version)
    }
}

/// A stack read at `at`: its count, its item where the count is not nought, the changes its
/// patch makes, and where it ends.
pub open spec fn slot_at(s: Seq<u8>, at: int) -> Result<(i32, Option<i32>, Seq<Op>, int), WireError> {
    match var_int_at(s, at) {
        Ok((count, p)) => if count == 0 {
            Ok((0, None, seq![], p))
        } else {
            match var_int_at(s, p) {
                Ok((item, q)) => match patch_at(s, q) {
                    Ok((ops, e)) => Ok((count, Some(item), ops, e)),
                    Err(err) => Err(err),
                },
                Err(err) => Err(err),
            }
        },
        Err(err) => Err(err),
    }
}

impl InventorySlot {
    /// Writes the stack as a client speaking `version` reads it, each item as `number` says that
    /// client's version numbers it. An empty slot is its count and nothing after it.
    pub fn encode<F: Fn(i32) -> i32>(&self, out: &mut Vec<u8>, version: ProtocolVersion, number: &F)
        requires
            self.components.wf(),
            numbers_steadily(*number),
        ensures
            final(out)@ == old(out)@ + slot_bytes(
                self.count,
                self.item_id,
                self.components@,
                version,
                *number,
            ),
    {
        let ghost start = old(out)@;
        write_var_int(out, self.count);
        if self.count == 0 {
            assert(out@ =~= start + slot_bytes(self.count, self.item_id, self.components@, version, *number));
            return;
        }
        let ghost mid = out@;
        match self.item_id {
            Some(id) => {
                let n = number(id.0);
                proof {
                    let chosen = number_given(*number, id.0);
                    assert(call_ensures(*number, (id.0,), chosen));
                }
                write_var_int(out, n);
            },
            None => write_var_int(out, 0),
        }
        self.components.encode(out, version);
        assert(out@ =~= start + slot_bytes(self.count, self.item_id, self.components@, version, *number));
    }

    /// Reads a stack at `at`, as this server's own version writes it: the stack, and where it
    /// ends.
    pub fn decode(bytes: &[u8], at: usize) -> (r: Result<(InventorySlot, usize), WireError>)
        requires
            at <= bytes@.len(),
        ensures
            match slot_at(bytes@, at as int) {
                Ok((count, item, ops, e)) => r matches Ok((slot, e2)) && e2 == e && slot.count == count
                    && slot.item_id == (match item {
                    Some(x) => Some(ItemID(x)),
                    None => None,
                }) && slot.components.wf() && made_by(slot.components@, ops),
                Err(err) => r matches Err(e2) && e2 == err,
            },
    {
        let (count, p) = match read_var_int(bytes, at) {
            Ok(x) => x,
            Err(err) => return Err(err),
        };
        if count == 0 {
            let empty = InventorySlot::empty();
            assert(made_by(empty.components@, seq![]));
            return Ok((empty, p));
        }
        let (item, q) = match read_var_int(bytes, p) {
            Ok(x) => x,
            Err(err) => return Err(err),
        };
        let (components, e) = match Components::decode(bytes, q) {
            Ok(x) => x,
            Err(err) => return Err(err),
        };
        Ok((InventorySlot { count, item_id: Some(ItemID(item)), components }, e))
    }
}


/// Runs of bytes one after another are the first run and then the rest.
proof fn lemma_flat_front(runs: Seq<Seq<u8>>)
    requires
        runs.len() > 0,
    ensures
        flat(runs) == runs[0] + flat(runs.drop_first()),
    decreases runs.len(),
{
    if runs.len() == 1 {
        assert(runs.drop_last() =~= Seq::<Seq<u8>>::empty());
        assert(runs.drop_first() =~= Seq::<Seq<u8>>::empty());
        assert(flat(runs) =~= runs[0] + flat(runs.drop_first()));
    } else {
        lemma_flat_front(runs.drop_last());
        assert(runs.drop_last().drop_first() =~= runs.drop_first().drop_last());
        assert(runs.drop_first().last() == runs.last());
        assert(flat(runs) =~= runs[0] + flat(runs.drop_first()));
    }
}

/// Pairs one after another are the first pair and then the rest.
proof fn lemma_pairs_front(pairs: Seq<(u16, u16)>)
    requires
        pairs.len() > 0,
    ensures
        pairs_bytes(pairs) == var_int(pairs[0].0 as i32) + var_int(pairs[0].1 as i32) + pairs_bytes(
            pairs.drop_first(),
        ),
    decreases pairs.len(),
{
    if pairs.len() == 1 {
        assert(pairs.drop_last() =~= Seq::<(u16, u16)>::empty());
        assert(pairs.drop_first() =~= Seq::<(u16, u16)>::empty());
        assert(pairs_bytes(pairs) =~= var_int(pairs[0].0 as i32) + var_int(pairs[0].1 as i32)
            + pairs_bytes(pairs.drop_first()));
    } else {
        lemma_pairs_front(pairs.drop_last());
        assert(pairs.drop_last().drop_first() =~= pairs.drop_first().drop_last());
        assert(pairs.drop_first().last() == pairs.last());
        assert(pairs_bytes(pairs) =~= var_int(pairs[0].0 as i32) + var_int(pairs[0].1 as i32)
            + pairs_bytes(pairs.drop_first()));
    }
}

/// Entries one after another are the first entry and then the rest.
proof fn lemma_entries_front(entries: Seq<(u16, Worth)>, version: ProtocolVersion)
    requires
        entries.len() > 0,
    ensures
        entries_bytes(entries, version) == var_int(entries[0].0 as i32) + worth_bytes(
            entries[0].1,
            version,
        ) + entries_bytes(entries.drop_first(), version),
    decreases entries.len(),
{
    if entries.len() == 1 {
        assert(entries.drop_last() =~= Seq::<(u16, Worth)>::empty());
        assert(entries.drop_first() =~= Seq::<(u16, Worth)>::empty());
        assert(entries_bytes(entries, version) =~= var_int(entries[0].0 as i32) + worth_bytes(
            entries[0].1,
            version,
        ) + entries_bytes(entries.drop_first(), version));
    } else {
        lemma_entries_front(entries.drop_last(), version);
        assert(entries.drop_last().drop_first() =~= entries.drop_first().drop_last());
        assert(entries.drop_first().last() == entries.last());
        assert(entries_bytes(entries, version) =~= var_int(entries[0].0 as i32) + worth_bytes(
            entries[0].1,
            version,
        ) + entries_bytes(entries.drop_first(), version));
    }
}

/// Numbers one after another are the first number and then the rest.
proof fn lemma_ids_front(ids: Seq<u16>)
    requires
        ids.len() > 0,
    ensures
        ids_bytes(ids) == var_int(ids[0] as i32) + ids_bytes(ids.drop_first()),
    decreases ids.len(),
{
    if ids.len() == 1 {
        assert(ids.drop_last() =~= Seq::<u16>::empty());
        assert(ids.drop_first() =~= Seq::<u16>::empty());
        assert(ids_bytes(ids) =~= var_int(ids[0] as i32) + ids_bytes(ids.drop_first()));
    } else {
        lemma_ids_front(ids.drop_last());
        assert(ids.drop_last().drop_first() =~= ids.drop_first().drop_last());
        assert(ids.drop_first().last() == ids.last());
        assert(ids_bytes(ids) =~= var_int(ids[0] as i32) + ids_bytes(ids.drop_first()));
    }
}

/// Whether `piece` sits in `s` at `at`.
pub open spec fn sits_at(s: Seq<u8>, at: int, piece: Seq<u8>) -> bool {
    &&& 0 <= at
    &&& at + piece.len() <= s.len()
    &&& s.subrange(at, at + piece.len()) == piece
}

proof fn lemma_sits_split(s: Seq<u8>, at: int, a: Seq<u8>, b: Seq<u8>)
    requires
        sits_at(s, at, a + b),
    ensures
        sits_at(s, at, a),
        sits_at(s, at + a.len(), b),
{
    let whole = s.subrange(at, at + (a + b).len());
    assert forall|i: int| 0 <= i < a.len() implies s[at + i] == a[i] by {
        assert(whole[i] == s[at + i]);
        assert((a + b)[i] == a[i]);
    }
    assert forall|i: int| 0 <= i < b.len() implies s[at + a.len() + i] == b[i] by {
        assert(whole[a.len() + i] == s[at + a.len() + i]);
        assert((a + b)[a.len() + i] == b[i]);
    }
    assert(s.subrange(at, at + a.len()) =~= a);
    assert(s.subrange(at + a.len(), at + a.len() + b.len()) =~= b);
}

/// A variable-length integer written at `at` reads back there, whatever surrounds it.
proof fn lemma_var_int_at(s: Seq<u8>, at: int, x: i32)
    requires
        sits_at(s, at, var_int(x)),
    ensures
        var_int_at(s, at) == Ok::<(i32, int), WireError>((x, at + var_int(x).len())),
{
    lemma_pow_values();
    lemma_var_bytes_read(s, at, 0, (x as u32) as nat);
    assert(((x as u32) as u32) as i32 == x) by (bit_vector);
}

/// An NBT value that is one whole value, written at `at`, reads back there.
proof fn lemma_nbt_at(s: Seq<u8>, at: int, t: Seq<u8>)
    requires
        sits_at(s, at, t),
        one_value(t) == Ok::<int, NbtError>(t.len() as int),
    ensures
        nbt_at(s, at) == Ok::<(Seq<u8>, int), WireError>((t, at + t.len())),
{
    let more = s.skip(at + t.len());
    assert(s.skip(at) =~= t + more);
    crate::nbt::lemma_one_value_prefix(t, more);
}


/// Whether every run is one whole NBT value.
pub open spec fn whole_values(runs: Seq<Seq<u8>>) -> bool {
    forall|i: int| 0 <= i < runs.len() ==> one_value(#[trigger] runs[i]) == Ok::<int, NbtError>(runs[i].len() as int)
}

/// Whether a component of this kind with this value can be written and read back: the value is
/// the shape the kind is read as; every piece of NBT in it is one whole value; every enchantment is
/// one there is; and every count fits in 32 bits.
pub open spec fn carries(kind: ComponentType, w: Worth) -> bool {
    &&& known_shape(kind) == Some(shape_of_worth(w))
    &&& travels(w)
}

/// Whether a value can be written and read back, whatever kind it is on.
pub open spec fn travels(w: Worth) -> bool {
    match w {
        Worth::Text(t) => one_value(t) == Ok::<int, NbtError>(t.len() as int),
        Worth::Nbt(t) => one_value(t) == Ok::<int, NbtError>(t.len() as int),
        Worth::Lines(lines) => lines.len() <= i32::MAX && whole_values(lines),
        Worth::Enchantments(held) => held.len() <= i32::MAX && forall|i: int|
            0 <= i < held.len() ==> (#[trigger] held[i]).0 < ENCHANTMENTS,
        _ => true,
    }
}

proof fn lemma_lines_read(s: Seq<u8>, at: int, lines: Seq<Seq<u8>>, read: Seq<Seq<u8>>)
    requires
        whole_values(lines),
        sits_at(s, at, flat(lines)),
    ensures
        lines_from(s, at, lines.len() as nat, read) == Ok::<(Seq<Seq<u8>>, int), WireError>(
            (read + lines, at + flat(lines).len()),
        ),
    decreases lines.len(),
{
    if lines.len() == 0 {
        assert(read + lines =~= read);
    } else {
        lemma_flat_front(lines);
        lemma_sits_split(s, at, lines[0], flat(lines.drop_first()));
        assert(one_value(lines[0]) == Ok::<int, NbtError>(lines[0].len() as int));
        lemma_nbt_at(s, at, lines[0]);
        let rest = lines.drop_first();
        assert forall|i: int| 0 <= i < rest.len() implies one_value(#[trigger] rest[i]) == Ok::<
            int,
            NbtError,
        >(rest[i].len() as int) by {
            assert(rest[i] == lines[i + 1]);
        }
        lemma_lines_read(s, at + lines[0].len(), rest, read.push(lines[0]));
        assert(read.push(lines[0]) + rest =~= read + lines);
    }
}

proof fn lemma_identity_first_place(t: Seq<i32>, n: int)
    requires
        forall|j: int| 0 <= j < t.len() ==> #[trigger] t[j] == j,
    ensures
        first_place(t, n) == (if 0 <= n < t.len() {
            Some(n)
        } else {
            None::<int>
        }),
    decreases t.len(),
{
    if t.len() > 0 {
        let d = t.drop_last();
        assert forall|j: int| 0 <= j < d.len() implies #[trigger] d[j] == j by {
            assert(d[j] == t[j]);
        }
        lemma_identity_first_place(d, n);
        assert(t.last() == t.len() - 1);
    }
}

proof fn lemma_current_tables()
    ensures
        forall|j: int| 0 <= j < component_table(CURRENT).len() ==> #[trigger] component_table(CURRENT)[j] == j,
        forall|j: int| 0 <= j < enchantment_table(CURRENT).len() ==> #[trigger] enchantment_table(CURRENT)[j] == j,
        component_table(CURRENT).len() == COMPONENT_KINDS,
        enchantment_table(CURRENT).len() == ENCHANTMENTS,
{
    assert(component_table(CURRENT) =~= Seq::new(COMPONENT_KINDS as nat, |j: int| j as i32));
    assert(enchantment_table(CURRENT) =~= Seq::new(ENCHANTMENTS as nat, |j: int| j as i32));
}

proof fn lemma_known_enchantments_current(held: Seq<(u16, u16)>)
    requires
        forall|i: int| 0 <= i < held.len() ==> (#[trigger] held[i]).0 < ENCHANTMENTS,
    ensures
        known_enchantments(held, CURRENT) == held,
    decreases held.len(),
{
    if held.len() > 0 {
        let d = held.drop_last();
        assert forall|i: int| 0 <= i < d.len() implies (#[trigger] d[i]).0 < ENCHANTMENTS by {
            assert(d[i] == held[i]);
        }
        lemma_known_enchantments_current(d);
        lemma_current_tables();
        assert(held.last().0 < ENCHANTMENTS);
        assert(enchantment_table(CURRENT)[held.last().0 as int] == held.last().0);
        assert(held =~= d.push(held.last()));
    }
}

proof fn lemma_pairs_read(s: Seq<u8>, at: int, held: Seq<(u16, u16)>, read: Seq<(u16, u16)>)
    requires
        forall|i: int| 0 <= i < held.len() ==> (#[trigger] held[i]).0 < ENCHANTMENTS,
        sits_at(s, at, pairs_bytes(held)),
    ensures
        pairs_from(s, at, held.len() as nat, read) == Ok::<(Seq<(u16, u16)>, int), WireError>(
            (read + held, at + pairs_bytes(held).len()),
        ),
    decreases held.len(),
{
    if held.len() == 0 {
        assert(read + held =~= read);
    } else {
        lemma_pairs_front(held);
        let (id, level) = held[0];
        let rest = held.drop_first();
        lemma_sits_split(s, at, var_int(id as i32) + var_int(level as i32), pairs_bytes(rest));
        lemma_sits_split(s, at, var_int(id as i32), var_int(level as i32));
        lemma_var_int_at(s, at, id as i32);
        lemma_var_int_at(s, at + var_int(id as i32).len(), level as i32);
        lemma_current_tables();
        lemma_identity_first_place(enchantment_table(CURRENT), id as int);
        assert(enchantment_read(id as i32) == Some(id));
        assert(level_of(level as i32) == level);
        assert forall|i: int| 0 <= i < rest.len() implies (#[trigger] rest[i]).0 < ENCHANTMENTS by {
            assert(rest[i] == held[i + 1]);
        }
        lemma_pairs_read(
            s,
            at + var_int(id as i32).len() + var_int(level as i32).len(),
            rest,
            read.push((id, level)),
        );
        assert(read.push((id, level)) + rest =~= read + held);
    }
}

proof fn lemma_colour_read(s: Seq<u8>, at: int, c: i32)
    requires
        sits_at(s, at, be_bytes(c)),
    ensures
        from_be(s, at) == c,
{
    let u = (c as u32) as nat;
    let b = be_bytes(c);
    assert(s[at] == b[0] && s[at + 1] == b[1] && s[at + 2] == b[2] && s[at + 3] == b[3]) by {
        assert(s.subrange(at, at + 4)[0] == s[at]);
        assert(s.subrange(at, at + 4)[1] == s[at + 1]);
        assert(s.subrange(at, at + 4)[2] == s[at + 2]);
        assert(s.subrange(at, at + 4)[3] == s[at + 3]);
    }
    assert(u / 0x100_0000 < 0x100);
    assert(b[0] == u / 0x100_0000);
    assert(b[1] == u / 0x1_0000 % 0x100);
    assert(b[2] == u / 0x100 % 0x100);
    assert(b[3] == u % 0x100);
    assert((u / 0x100_0000) * 0x100_0000 + (u / 0x1_0000 % 0x100) * 0x1_0000 + (u / 0x100 % 0x100)
        * 0x100 + u % 0x100 == u) by (nonlinear_arith)
        requires
            u < 0x1_0000_0000,
    ;
    assert(u % 0x1_0000_0000 == u);
    assert(((c as u32) as u32) as i32 == c) by (bit_vector);
}

#[verifier::spinoff_prover]
#[verifier::rlimit(40)]
proof fn lemma_lines_worth_read(s: Seq<u8>, at: int, lines: Seq<Seq<u8>>)
    requires
        lines.len() <= i32::MAX,
        whole_values(lines),
        sits_at(s, at, var_int(count_of(lines.len())) + flat(lines)),
    ensures
        worth_at(s, at, Shape::Lines) == Ok::<(Worth, int), WireError>(
            (Worth::Lines(lines), at + (var_int(count_of(lines.len())) + flat(lines)).len()),
        ),
{
    let n = count_of(lines.len());
    assert(n == lines.len());
    lemma_sits_split(s, at, var_int(n), flat(lines));
    lemma_var_int_at(s, at, n);
    assert(at_least_none(n) == lines.len());
    lemma_lines_read(s, at + var_int(n).len(), lines, seq![]);
    assert(Seq::<Seq<u8>>::empty() + lines =~= lines);
}

#[verifier::spinoff_prover]
#[verifier::rlimit(40)]
proof fn lemma_enchantments_worth_read(s: Seq<u8>, at: int, held: Seq<(u16, u16)>)
    requires
        held.len() <= i32::MAX,
        forall|i: int| 0 <= i < held.len() ==> (#[trigger] held[i]).0 < ENCHANTMENTS,
        sits_at(s, at, worth_bytes(Worth::Enchantments(held), CURRENT)),
    ensures
        worth_at(s, at, Shape::Enchantments) == Ok::<(Worth, int), WireError>(
            (Worth::Enchantments(held), at + worth_bytes(Worth::Enchantments(held), CURRENT).len()),
        ),
{
    lemma_known_enchantments_current(held);
    let n = count_of(held.len());
    assert(n == held.len());
    assert(worth_bytes(Worth::Enchantments(held), CURRENT) == var_int(n) + pairs_bytes(held));
    lemma_sits_split(s, at, var_int(n), pairs_bytes(held));
    lemma_var_int_at(s, at, n);
    lemma_pairs_read(s, at + var_int(n).len(), held, seq![]);
    assert(Seq::<(u16, u16)>::empty() + held =~= held);
}

/// A value written at `at`, as this server's own version writes it, reads back there as itself.
#[verifier::spinoff_prover]
#[verifier::rlimit(40)]
proof fn lemma_worth_read(s: Seq<u8>, at: int, w: Worth)
    requires
        travels(w),
        sits_at(s, at, worth_bytes(w, CURRENT)),
    ensures
        worth_at(s, at, shape_of_worth(w)) == Ok::<(Worth, int), WireError>(
            (w, at + worth_bytes(w, CURRENT).len()),
        ),
{
    match w {
        Worth::Nothing => {},
        Worth::Number(n) => {
            lemma_var_int_at(s, at, n);
        },
        Worth::Flag(b) => {
            assert(s[at] == worth_bytes(w, CURRENT)[0]) by {
                assert(s.subrange(at, at + 1)[0] == s[at]);
            }
        },
        Worth::Colour(c) => {
            lemma_colour_read(s, at, c);
        },
        Worth::Text(t) => {
            lemma_nbt_at(s, at, t);
        },
        Worth::Nbt(t) => {
            lemma_nbt_at(s, at, t);
        },
        Worth::Lines(lines) => {
            lemma_lines_worth_read(s, at, lines);
        },
        Worth::Enchantments(held) => {
            lemma_enchantments_worth_read(s, at, held);
        },
    }
}


/// The changes a patch's own bytes make: each kind it sets, in order, then each it takes away.
pub open spec fn changes(p: Patch) -> Seq<Op> {
    p.set.map_values(|e: (ComponentType, Worth)| (e.0, Some(e.1))) + p.removed.map_values(
        |k: ComponentType| (k, None::<Worth>),
    )
}

/// Whether a patch is in order of kind, each kind once, and no kind both set and taken away.
pub open spec fn in_order(p: Patch) -> bool {
    &&& kinds_in_order(set_kinds(p.set))
    &&& kinds_in_order(p.removed)
    &&& forall|k: ComponentType| !(set_kinds(p.set).contains(k) && p.removed.contains(k))
}

proof fn lemma_component_current(k: ComponentType)
    ensures
        0 <= component_id(k) < COMPONENT_KINDS,
        component_wire(k, CURRENT) == Some(component_id(k) as u16),
        kind_read(component_id(k) as i32) == Ok::<ComponentType, WireError>(k),
{
    lemma_current_tables();
    assert(0 <= component_id(k) < COMPONENT_KINDS);
    lemma_identity_first_place(component_table(CURRENT), component_id(k));
    let c = choose|c: ComponentType| component_id(c) == component_id(k);
    crate::components::lemma_component_id_injective(c, k);
}

proof fn lemma_set_on_wire_current(set: Seq<(ComponentType, Worth)>)
    ensures
        set_on_wire(set, CURRENT) == set.map_values(
            |e: (ComponentType, Worth)| (component_id(e.0) as u16, e.1),
        ),
    decreases set.len(),
{
    if set.len() > 0 {
        lemma_set_on_wire_current(set.drop_last());
        lemma_component_current(set.last().0);
        assert(set_on_wire(set, CURRENT) =~= set.map_values(
            |e: (ComponentType, Worth)| (component_id(e.0) as u16, e.1),
        ));
    } else {
        assert(set_on_wire(set, CURRENT) =~= set.map_values(
            |e: (ComponentType, Worth)| (component_id(e.0) as u16, e.1),
        ));
    }
}

proof fn lemma_removed_on_wire_current(removed: Seq<ComponentType>)
    ensures
        removed_on_wire(removed, CURRENT) == removed.map_values(|k: ComponentType| component_id(k) as u16),
    decreases removed.len(),
{
    if removed.len() > 0 {
        lemma_removed_on_wire_current(removed.drop_last());
        lemma_component_current(removed.last());
    }
    assert(removed_on_wire(removed, CURRENT) =~= removed.map_values(
        |k: ComponentType| component_id(k) as u16,
    ));
}

#[verifier::spinoff_prover]
#[verifier::rlimit(40)]
proof fn lemma_sets_read(s: Seq<u8>, at: int, set: Seq<(ComponentType, Worth)>, ops: Seq<Op>)
    requires
        forall|i: int| 0 <= i < set.len() ==> carries((#[trigger] set[i]).0, set[i].1),
        sits_at(s, at, entries_bytes(set_on_wire(set, CURRENT), CURRENT)),
    ensures
        sets_from(s, at, set.len() as nat, ops) == Ok::<(Seq<Op>, int), WireError>(
            (
                ops + set.map_values(|e: (ComponentType, Worth)| (e.0, Some(e.1))),
                at + entries_bytes(set_on_wire(set, CURRENT), CURRENT).len(),
            ),
        ),
    decreases set.len(),
{
    let mapped = set.map_values(|e: (ComponentType, Worth)| (e.0, Some(e.1)));
    if set.len() == 0 {
        assert(ops + mapped =~= ops);
    } else {
        lemma_set_on_wire_current(set);
        lemma_set_on_wire_current(set.drop_first());
        let e = set_on_wire(set, CURRENT);
        let (k, w) = set[0];
        lemma_component_current(k);
        assert(e[0] == (component_id(k) as u16, w));
        assert(e.drop_first() =~= set_on_wire(set.drop_first(), CURRENT));
        lemma_entries_front(e, CURRENT);
        let id = component_id(k) as u16;
        assert(id as i32 == component_id(k));
        lemma_sits_split(
            s,
            at,
            var_int(id as i32) + worth_bytes(w, CURRENT),
            entries_bytes(e.drop_first(), CURRENT),
        );
        lemma_sits_split(s, at, var_int(id as i32), worth_bytes(w, CURRENT));
        lemma_var_int_at(s, at, id as i32);
        assert(carries(k, w));
        lemma_worth_read(s, at + var_int(id as i32).len(), w);
        let rest = set.drop_first();
        assert forall|i: int| 0 <= i < rest.len() implies carries((#[trigger] rest[i]).0, rest[i].1) by {
            assert(rest[i] == set[i + 1]);
        }
        lemma_sets_read(
            s,
            at + var_int(id as i32).len() + worth_bytes(w, CURRENT).len(),
            rest,
            ops.push((k, Some(w))),
        );
        assert(ops.push((k, Some(w))) + rest.map_values(|e: (ComponentType, Worth)| (e.0, Some(e.1)))
            =~= ops + mapped);
    }
}

#[verifier::spinoff_prover]
#[verifier::rlimit(40)]
proof fn lemma_removals_read(s: Seq<u8>, at: int, removed: Seq<ComponentType>, ops: Seq<Op>)
    requires
        sits_at(s, at, ids_bytes(removed_on_wire(removed, CURRENT))),
    ensures
        removals_from(s, at, removed.len() as nat, ops) == Ok::<(Seq<Op>, int), WireError>(
            (
                ops + removed.map_values(|k: ComponentType| (k, None::<Worth>)),
                at + ids_bytes(removed_on_wire(removed, CURRENT)).len(),
            ),
        ),
    decreases removed.len(),
{
    let mapped = removed.map_values(|k: ComponentType| (k, None::<Worth>));
    if removed.len() == 0 {
        assert(ops + mapped =~= ops);
    } else {
        lemma_removed_on_wire_current(removed);
        lemma_removed_on_wire_current(removed.drop_first());
        let ids = removed_on_wire(removed, CURRENT);
        let k = removed[0];
        lemma_component_current(k);
        assert(ids[0] == component_id(k) as u16);
        assert(ids.drop_first() =~= removed_on_wire(removed.drop_first(), CURRENT));
        lemma_ids_front(ids);
        let id = component_id(k) as u16;
        lemma_sits_split(s, at, var_int(id as i32), ids_bytes(ids.drop_first()));
        lemma_var_int_at(s, at, id as i32);
        let rest = removed.drop_first();
        lemma_removals_read(s, at + var_int(id as i32).len(), rest, ops.push((k, None::<Worth>)));
        assert(ops.push((k, None::<Worth>)) + rest.map_values(|k: ComponentType| (k, None::<Worth>))
            =~= ops + mapped);
    }
}

/// The last change to `kind` is the one at `i`.
proof fn lemma_applied_at(ops: Seq<Op>, i: int, kind: ComponentType)
    requires
        0 <= i < ops.len(),
        ops[i].0 == kind,
        forall|j: int| i < j < ops.len() ==> (#[trigger] ops[j]).0 != kind,
    ensures
        applied(ops, kind) == ops[i].1,
        taken(ops, kind) == (ops[i].1 is None),
    decreases ops.len(),
{
    if i < ops.len() - 1 {
        let d = ops.drop_last();
        assert forall|j: int| i < j < d.len() implies (#[trigger] d[j]).0 != kind by {
            assert(d[j] == ops[j]);
        }
        assert(ops[ops.len() - 1].0 != kind);
        lemma_applied_at(d, i, kind);
    }
}

/// A kind no change mentions is neither set nor taken away.
proof fn lemma_applied_none(ops: Seq<Op>, kind: ComponentType)
    requires
        forall|j: int| 0 <= j < ops.len() ==> (#[trigger] ops[j]).0 != kind,
    ensures
        applied(ops, kind) is None,
        !taken(ops, kind),
    decreases ops.len(),
{
    if ops.len() > 0 {
        let d = ops.drop_last();
        assert forall|j: int| 0 <= j < d.len() implies (#[trigger] d[j]).0 != kind by {
            assert(d[j] == ops[j]);
        }
        assert(ops[ops.len() - 1].0 != kind);
        lemma_applied_none(d, kind);
    }
}

/// A patch in order is what its own changes make of nothing.
#[verifier::spinoff_prover]
#[verifier::rlimit(40)]
proof fn lemma_made_by_changes(p: Patch)
    requires
        in_order(p),
    ensures
        made_by(p, changes(p)),
{
    let ops = changes(p);
    let n = p.set.len();
    assert forall|k: ComponentType| #[trigger] setting(p.set, k) == applied(ops, k) && p.removed.contains(k) == taken(ops, k) by {
        if p.removed.contains(k) {
            let r = choose|r: int| 0 <= r < p.removed.len() && p.removed[r] == k;
            assert(ops[n + r] == (k, None::<Worth>));
            assert forall|j: int| n + r < j < ops.len() implies (#[trigger] ops[j]).0 != k by {
                assert(ops[j].0 == p.removed[j - n]);
                assert(component_id(p.removed[r]) < component_id(p.removed[j - n]));
            }
            lemma_applied_at(ops, n + r, k);
            crate::stack_components::lemma_setting_iff(p.set, k);
        } else if set_kinds(p.set).contains(k) {
            let i = choose|i: int| 0 <= i < set_kinds(p.set).len() && set_kinds(p.set)[i] == k;
            assert(set_kinds(p.set)[i] == p.set[i].0);
            assert(ops[i] == (k, Some(p.set[i].1)));
            assert forall|j: int| i < j < ops.len() implies (#[trigger] ops[j]).0 != k by {
                if j < n {
                    assert(ops[j].0 == p.set[j].0);
                    assert(set_kinds(p.set)[j] == p.set[j].0);
                    assert(component_id(set_kinds(p.set)[i]) < component_id(set_kinds(p.set)[j]));
                } else {
                    assert(ops[j].0 == p.removed[j - n]);
                }
            }
            lemma_applied_at(ops, i, k);
            lemma_setting_at(p.set, i, k);
        } else {
            assert forall|j: int| 0 <= j < ops.len() implies (#[trigger] ops[j]).0 != k by {
                if j < n {
                    assert(ops[j].0 == p.set[j].0);
                    assert(set_kinds(p.set)[j] == p.set[j].0);
                } else {
                    assert(ops[j].0 == p.removed[j - n]);
                }
            }
            lemma_applied_none(ops, k);
            crate::stack_components::lemma_setting_iff(p.set, k);
        }
    }
    assert forall|k: ComponentType| #[trigger] p.removed.contains(k) == taken(ops, k) by {
        assert(setting(p.set, k) == applied(ops, k));
    }
}

/// A patch written as this server's own version writes it, found at `at`, reads as exactly its own
/// changes, and the reading stops exactly where it ends.
#[verifier::spinoff_prover]
#[verifier::rlimit(40)]
proof fn lemma_patch_read_at(p: Patch, s: Seq<u8>, at: int)
    requires
        forall|i: int| 0 <= i < p.set.len() ==> carries((#[trigger] p.set[i]).0, p.set[i].1),
        p.set.len() <= i32::MAX,
        p.removed.len() <= i32::MAX,
        sits_at(s, at, patch_bytes(p, CURRENT)),
    ensures
        patch_at(s, at) == Ok::<(Seq<Op>, int), WireError>(
            (changes(p), at + patch_bytes(p, CURRENT).len()),
        ),
{
    lemma_set_on_wire_current(p.set);
    lemma_removed_on_wire_current(p.removed);
    let set = set_on_wire(p.set, CURRENT);
    let removed = removed_on_wire(p.removed, CURRENT);
    let a = count_of(set.len());
    let b = count_of(removed.len());
    assert(a == p.set.len() && b == p.removed.len());
    lemma_sits_split(s, at, var_int(a) + var_int(b) + entries_bytes(set, CURRENT), ids_bytes(removed));
    lemma_sits_split(s, at, var_int(a) + var_int(b), entries_bytes(set, CURRENT));
    lemma_sits_split(s, at, var_int(a), var_int(b));
    lemma_var_int_at(s, at, a);
    lemma_var_int_at(s, at + var_int(a).len(), b);
    lemma_sets_read(s, at + var_int(a).len() + var_int(b).len(), p.set, seq![]);
    assert(Seq::<Op>::empty() + p.set.map_values(|e: (ComponentType, Worth)| (e.0, Some(e.1)))
        =~= p.set.map_values(|e: (ComponentType, Worth)| (e.0, Some(e.1))));
    lemma_removals_read(
        s,
        at + var_int(a).len() + var_int(b).len() + entries_bytes(set, CURRENT).len(),
        p.removed,
        p.set.map_values(|e: (ComponentType, Worth)| (e.0, Some(e.1))),
    );
}

/// A patch written as this server's own version writes it reads back, whatever follows it, as
/// exactly its own changes, and stops exactly where it ends; and the only patch in order those
/// changes make is the patch itself. So what is written is what is read: a named, enchanted,
/// damaged sword survives the trip.
pub proof fn lemma_patch_round_trip(p: Patch, rest: Seq<u8>)
    requires
        in_order(p),
        forall|i: int| 0 <= i < p.set.len() ==> carries((#[trigger] p.set[i]).0, p.set[i].1),
        p.set.len() <= i32::MAX,
        p.removed.len() <= i32::MAX,
    ensures
        patch_at(patch_bytes(p, CURRENT) + rest, 0) == Ok::<(Seq<Op>, int), WireError>(
            (changes(p), patch_bytes(p, CURRENT).len() as int),
        ),
        forall|q: Patch| in_order(q) && made_by(q, changes(p)) ==> q == p,
{
    let bytes = patch_bytes(p, CURRENT);
    let s = bytes + rest;
    assert(sits_at(s, 0, bytes)) by {
        assert(s.subrange(0, bytes.len() as int) =~= bytes);
    }
    lemma_patch_read_at(p, s, 0);
    lemma_patch_is_its_changes(p);
}

/// The only patch in order that a patch's own changes make is that patch.
#[verifier::spinoff_prover]
proof fn lemma_patch_is_its_changes(p: Patch)
    requires
        in_order(p),
    ensures
        forall|q: Patch| in_order(q) && made_by(q, changes(p)) ==> q == p,
{
    lemma_made_by_changes(p);
    assert forall|q: Patch| in_order(q) && made_by(q, changes(p)) implies q == p by {
        assert forall|k: ComponentType| #[trigger] setting(q.set, k) == setting(p.set, k) by {
            assert(setting(q.set, k) == applied(changes(p), k));
        }
        assert forall|k: ComponentType| #[trigger] q.removed.contains(k) == p.removed.contains(k) by {
            assert(q.removed.contains(k) == taken(changes(p), k));
        }
        crate::stack_components::lemma_same_settings_same_patch(q, p);
    }
}

/// The number an item goes by in this server's own registry, or nought where there is none.
pub open spec fn id_of(item: Option<ItemID>) -> i32 {
    match item {
        Some(id) => id.0,
        None => 0,
    }
}

/// A stack written as this server's own version writes it reads back, whatever follows it, as
/// the same stack: the same count, the number its item was sent as, and exactly its patch's
/// changes, with the reading stopping exactly where the stack ends. An empty count is the whole
/// of an empty stack.
pub proof fn lemma_slot_round_trip<F: Fn(i32) -> i32>(
    count: i32,
    item: Option<ItemID>,
    p: Patch,
    number: F,
    rest: Seq<u8>,
)
    requires
        count != 0 ==> item is Some,
        forall|i: int| 0 <= i < p.set.len() ==> carries((#[trigger] p.set[i]).0, p.set[i].1),
        p.set.len() <= i32::MAX,
        p.removed.len() <= i32::MAX,
    ensures
        slot_at(slot_bytes(count, item, p, CURRENT, number) + rest, 0) == (if count == 0 {
            Ok::<(i32, Option<i32>, Seq<Op>, int), WireError>((0, None, seq![], var_int(0).len() as int))
        } else {
            Ok::<(i32, Option<i32>, Seq<Op>, int), WireError>(
                (
                    count,
                    Some(number_given(number, id_of(item))),
                    changes(p),
                    slot_bytes(count, item, p, CURRENT, number).len() as int,
                ),
            )
        }),
{
    let bytes = slot_bytes(count, item, p, CURRENT, number);
    let s = bytes + rest;
    assert(sits_at(s, 0, bytes)) by {
        assert(s.subrange(0, bytes.len() as int) =~= bytes);
    }
    if count == 0 {
        assert(bytes =~= var_int(0) + Seq::<u8>::empty());
        lemma_sits_split(s, 0, var_int(0), Seq::<u8>::empty());
        lemma_var_int_at(s, 0, 0);
    } else {
        let n = number_given(number, id_of(item));
        assert(bytes =~= var_int(count) + var_int(n) + patch_bytes(p, CURRENT));
        lemma_sits_split(s, 0, var_int(count) + var_int(n), patch_bytes(p, CURRENT));
        lemma_sits_split(s, 0, var_int(count), var_int(n));
        lemma_var_int_at(s, 0, count);
        lemma_var_int_at(s, var_int(count).len() as int, n);
        lemma_patch_read_at(p, s, (var_int(count).len() + var_int(n).len()) as int);
    }
}

} // verus!
