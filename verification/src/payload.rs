//! The byte strings that carry a script function or a reactive value from the Lua
//! deserializer to the visitors of the configuration types.
//!
//! A function travels as the tag `0x01` followed by the 8 bytes of its registry id; a
//! reactive value as the tag `0x00` followed by the 8 bytes of each of its two shared
//! cells. Integers are written least significant byte first, the native order of the
//! platforms the bar runs on.
use vstd::prelude::*;

verus! {

/// The tag of a reactive value.
pub const REACTIVE_TAG: u8 = 0x00;

/// The tag of a script function.
pub const FUNCTION_TAG: u8 = 0x01;

/// `256` to the power `n`.
pub open spec fn pow256(n: nat) -> nat
    decreases n,
{
    if n == 0 {
        1
    } else {
        256 * pow256((n - 1) as nat)
    }
}

/// The `n` lowest bytes of `x`, least significant first.
pub open spec fn le_bytes(x: nat, n: nat) -> Seq<u8>
    decreases n,
{
    if n == 0 {
        Seq::empty()
    } else {
        seq![(x % 256) as u8] + le_bytes(x / 256, (n - 1) as nat)
    }
}

/// The number that bytes stand for, least significant first.
pub open spec fn le_value(s: Seq<u8>) -> nat
    decreases s.len(),
{
    if s.len() == 0 {
        0
    } else {
        s[0] as nat + 256 * le_value(s.drop_first())
    }
}

/// The payload of the script function with registry id `id`.
pub open spec fn function_payload(id: u64) -> Seq<u8> {
    seq![FUNCTION_TAG] + le_bytes(id as nat, 8)
}

/// The payload of the reactive value whose two shared cells are at `value` and `sender`.
pub open spec fn reactive_payload(value: u64, sender: u64) -> Seq<u8> {
    seq![REACTIVE_TAG] + le_bytes(value as nat, 8) + le_bytes(sender as nat, 8)
}

/// What a payload carries.
#[derive(Debug, Clone, Copy, PartialEq, Eq, Structural)]
pub enum PayloadKind {
    Reactive,
    Function,
}

proof fn lemma_le_bytes_len(x: nat, n: nat)
    ensures
        le_bytes(x, n).len() == n,
    decreases n,
{
    if n > 0 {
        lemma_le_bytes_len(x / 256, (n - 1) as nat);
    }
}

/// Reading back the bytes of a number that fits gives the number.
pub proof fn lemma_le_roundtrip(x: nat, n: nat)
    requires
        x < pow256(n),
    ensures
        le_bytes(x, n).len() == n,
        le_value(le_bytes(x, n)) == x,
    decreases n,
{
    lemma_le_bytes_len(x, n);
    if n > 0 {
        let p = pow256((n - 1) as nat);
        assert(x / 256 < p) by (nonlinear_arith)
            requires
                x < 256 * p,
        ;
        lemma_le_roundtrip(x / 256, (n - 1) as nat);
        let s = le_bytes(x, n);
        assert(s.drop_first() =~= le_bytes(x / 256, (n - 1) as nat));
        assert(x == x % 256 + 256 * (x / 256)) by (nonlinear_arith);
    }
}

/// Bytes stand for a number below `256` to the power of their count.
pub proof fn lemma_le_value_bound(s: Seq<u8>)
    ensures
        le_value(s) < pow256(s.len()),
    decreases s.len(),
{
    if s.len() > 0 {
        lemma_le_value_bound(s.drop_first());
        let v = le_value(s.drop_first());
        let p = pow256(s.drop_first().len());
        let b = s[0] as nat;
        assert(b + 256 * v < 256 * p) by (nonlinear_arith)
            requires
                b < 256,
                v < p,
        ;
    }
}

proof fn lemma_pow256_8()
    ensures
        pow256(8) == 0x1_0000_0000_0000_0000,
{
    reveal_with_fuel(pow256, 9);
}

fn push_le_u64(out: &mut Vec<u8>, x: u64)
    ensures
        final(out)@ == old(out)@ + le_bytes(x as nat, 8),
{
    let ghost start = out@;
    let mut v: u64 = x;
    let mut i: u64 = 0;
    while i < 8
        invariant
            0 <= i <= 8,
            start + le_bytes(x as nat, 8) == out@ + le_bytes(v as nat, (8 - i) as nat),
        decreases 8 - i,
    {
        let ghost before = out@;
        let b = (v % 256) as u8;
        out.push(b);
        assert(le_bytes(v as nat, (8 - i) as nat) =~= seq![b] + le_bytes(
            (v / 256) as nat,
            (8 - i - 1) as nat,
        ));
        assert(before + (seq![b] + le_bytes((v / 256) as nat, (8 - i - 1) as nat)) =~= out@
            + le_bytes((v / 256) as nat, (8 - i - 1) as nat));
        v = v / 256;
        i = i + 1;
    }
    assert(le_bytes(v as nat, 0) =~= Seq::<u8>::empty());
    assert(out@ + Seq::<u8>::empty() =~= out@);
}

fn read_le_u64(bytes: &[u8], start: usize) -> (x: u64)
    requires
        start + 8 <= bytes@.len(),
    ensures
        x == le_value(bytes@.subrange(start as int, start + 8)),
{
    let ghost s = bytes@.subrange(start as int, start + 8);
    let mut acc: u64 = 0;
    let mut k: usize = 8;
    proof {
        lemma_pow256_8();
    }
    while k > 0
        invariant
            0 <= k <= 8,
            start + 8 <= bytes@.len(),
            bytes@.len() == bytes.len(),
            s == bytes@.subrange(start as int, start + 8),
            acc as nat == le_value(s.skip(k as int)),
            pow256(8) == 0x1_0000_0000_0000_0000,
        decreases k,
    {
        let ghost rest = s.skip(k as int);
        assert(s.skip(k - 1).drop_first() =~= rest);
        assert(s.skip(k - 1)[0] == bytes@[start + k - 1]);
        proof {
            lemma_le_value_bound(s.skip(k - 1));
            assert(pow256(s.skip(k - 1).len()) <= pow256(8)) by {
                lemma_pow256_monotone(s.skip(k - 1).len(), 8);
            }
        }
        let idx: usize = start + (k - 1);
        let b = bytes[idx];
        acc = b as u64 + 256 * acc;
        k = k - 1;
    }
    assert(s.skip(0) =~= s);
    acc
}

proof fn lemma_pow256_monotone(a: nat, b: nat)
    requires
        a <= b,
    ensures
        pow256(a) <= pow256(b),
    decreases b,
{
    if a < b {
        lemma_pow256_monotone(a, (b - 1) as nat);
    }
}

/// The payload of the script function with registry id `id`.
pub fn encode_function_payload(id: u64) -> (bytes: Vec<u8>)
    ensures
        bytes@ == function_payload(id),
{
    let mut bytes: Vec<u8> = Vec::new();
    bytes.push(FUNCTION_TAG);
    push_le_u64(&mut bytes, id);
    bytes
}

/// The payload of the reactive value whose two shared cells are at `value` and `sender`.
pub fn encode_reactive_payload(value: u64, sender: u64) -> (bytes: Vec<u8>)
    ensures
        bytes@ == reactive_payload(value, sender),
{
    let mut bytes: Vec<u8> = Vec::new();
    bytes.push(REACTIVE_TAG);
    push_le_u64(&mut bytes, value);
    push_le_u64(&mut bytes, sender);
    bytes
}

/// What a payload carries, by its tag: `None` for an unknown tag.
pub fn payload_kind(bytes: &[u8]) -> (k: Option<PayloadKind>)
    requires
        bytes@.len() > 0,
    ensures
        bytes@[0] == REACTIVE_TAG ==> k == Some(PayloadKind::Reactive),
        bytes@[0] == FUNCTION_TAG ==> k == Some(PayloadKind::Function),
        bytes@[0] != REACTIVE_TAG && bytes@[0] != FUNCTION_TAG ==> k is None,
{
    if bytes[0] == REACTIVE_TAG {
        Some(PayloadKind::Reactive)
    } else if bytes[0] == FUNCTION_TAG {
        Some(PayloadKind::Function)
    } else {
        None
    }
}

/// The registry id a function payload carries.
pub fn decode_function_payload(bytes: &[u8]) -> (id: u64)
    requires
        bytes@.len() == 9,
        bytes@[0] == FUNCTION_TAG,
    ensures
        id == le_value(bytes@.subrange(1, 9)),
{
    read_le_u64(bytes, 1)
}

/// The addresses of the two shared cells a reactive payload carries.
pub fn decode_reactive_payload(bytes: &[u8]) -> (cells: (u64, u64))
    requires
        bytes@.len() == 17,
        bytes@[0] == REACTIVE_TAG,
    ensures
        cells.0 == le_value(bytes@.subrange(1, 9)),
        cells.1 == le_value(bytes@.subrange(9, 17)),
{
    (read_le_u64(bytes, 1), read_le_u64(bytes, 9))
}

/// Decoding the payload of a function gives back its id.
pub proof fn law_function_payload_roundtrip(id: u64)
    ensures
        function_payload(id).len() == 9,
        function_payload(id)[0] == FUNCTION_TAG,
        le_value(function_payload(id).subrange(1, 9)) == id,
{
    lemma_pow256_8();
    lemma_le_roundtrip(id as nat, 8);
    assert(function_payload(id).subrange(1, 9) =~= le_bytes(id as nat, 8));
}

/// Decoding the payload of a reactive value gives back both of its cells.
pub proof fn law_reactive_payload_roundtrip(value: u64, sender: u64)
    ensures
        reactive_payload(value, sender).len() == 17,
        reactive_payload(value, sender)[0] == REACTIVE_TAG,
        le_value(reactive_payload(value, sender).subrange(1, 9)) == value,
        le_value(reactive_payload(value, sender).subrange(9, 17)) == sender,
{
    lemma_pow256_8();
    lemma_le_roundtrip(value as nat, 8);
    lemma_le_roundtrip(sender as nat, 8);
    assert(reactive_payload(value, sender).subrange(1, 9) =~= le_bytes(value as nat, 8));
    assert(reactive_payload(value, sender).subrange(9, 17) =~= le_bytes(sender as nat, 8));
}

} // verus!
