//! The SHA-256 seal over a record and a timestamp.
use crate::hex::{hex_encode, hex_of, is_lower_hex};
use crate::record::AuditTarget;
use vstd::prelude::*;

verus! {

/// The SHA-256 digest of `data`, as computed by ring.
pub uninterp spec fn sha256_of(data: Seq<u8>) -> Seq<u8>;

/// `256^n`.
pub open spec fn pow256(n: nat) -> nat
    decreases n,
{
    if n == 0 {
        1
    } else {
        256 * pow256((n - 1) as nat)
    }
}

/// The low `n` bytes of `x`, most significant first.
pub open spec fn be_bytes(x: nat, n: nat) -> Seq<u8>
    decreases n,
{
    if n == 0 {
        seq![]
    } else {
        be_bytes(x / 256, (n - 1) as nat).push((x % 256) as u8)
    }
}

/// The two's-complement bit pattern of a signed 64-bit value.
pub open spec fn i64_bits(v: i64) -> nat {
    if v >= 0 {
        v as nat
    } else {
        (v + 0x1_0000_0000_0000_0000) as nat
    }
}

/// The bytes that are digested: identifier, entropy bits, threat bits and
/// timestamp, each big-endian, in that order.
pub open spec fn seal_input(id: u32, entropy_source: u64, threat_vector: u64, ts: i64) -> Seq<u8> {
    be_bytes(id as nat, 4) + be_bytes(entropy_source as nat, 8) + be_bytes(threat_vector as nat, 8)
        + be_bytes(i64_bits(ts), 8)
}

/// The seal of a record at a timestamp: the hex form of the digest of its input.
pub open spec fn seal_text(t: &AuditTarget, ts: i64) -> Seq<char> {
    hex_of(sha256_of(seal_input(t.id, t.entropy_source, t.threat_vector, ts)))
}

/// Relies on ring::digest::digest with SHA256: a 32-byte digest of `data`.
/// ring panics only on inputs of 2^61 bytes or more.
#[verifier::external_body]
fn sha256(data: &Vec<u8>) -> (r: Vec<u8>)
    requires
        data@.len() < 0x2000_0000_0000_0000,
    ensures
        r@ == sha256_of(data@),
        r@.len() == 32,
{
    ring::digest::digest(&ring::digest::SHA256, data.as_slice()).as_ref().to_vec()
}

fn push_be_bytes(out: &mut Vec<u8>, x: u64, n: usize)
    ensures
        final(out)@ == old(out)@ + be_bytes(x as nat, n as nat),
    decreases n,
{
    if n > 0 {
        push_be_bytes(out, x / 256, n - 1);
        out.push((x % 256) as u8);
    }
    assert(out@ =~= old(out)@ + be_bytes(x as nat, n as nat));
}

fn i64_to_bits(v: i64) -> (r: u64)
    ensures
        r as nat == i64_bits(v),
{
    if v >= 0 {
        v as u64
    } else {
        u64::MAX - ((-(v + 1)) as u64)
    }
}

/// The bytes that the seal digests.
pub fn seal_message(target: &AuditTarget, ts: i64) -> (r: Vec<u8>)
    ensures
        r@ == seal_input(target.id, target.entropy_source, target.threat_vector, ts),
        r@.len() == 28,
{
    let mut r: Vec<u8> = Vec::new();
    push_be_bytes(&mut r, target.id as u64, 4);
    push_be_bytes(&mut r, target.entropy_source, 8);
    push_be_bytes(&mut r, target.threat_vector, 8);
    push_be_bytes(&mut r, i64_to_bits(ts), 8);
    proof {
        lemma_be_bytes_len(target.id as nat, 4);
        lemma_be_bytes_len(target.entropy_source as nat, 8);
        lemma_be_bytes_len(target.threat_vector as nat, 8);
        lemma_be_bytes_len(i64_bits(ts), 8);
    }
    assert(r@ =~= seal_input(target.id, target.entropy_source, target.threat_vector, ts));
    r
}

/// The SHA-256 seal of a record at a timestamp, as 64 lowercase hex digits.
pub fn generate_quantum_seal(target: &AuditTarget, ts: i64) -> (r: String)
    ensures
        r@ == seal_text(target, ts),
        r@.len() == 64,
        forall|i: int| 0 <= i < 64 ==> is_lower_hex(#[trigger] r@[i]),
{
    let message = seal_message(target, ts);
    let digest = sha256(&message);
    proof {
        lemma_hex_of_shape(digest@);
    }
    hex_encode(digest.as_slice())
}

proof fn lemma_be_bytes_len(x: nat, n: nat)
    ensures
        be_bytes(x, n).len() == n,
    decreases n,
{
    if n > 0 {
        lemma_be_bytes_len(x / 256, (n - 1) as nat);
    }
}

proof fn lemma_be_bytes_injective(x: nat, y: nat, n: nat)
    requires
        x < pow256(n),
        y < pow256(n),
        be_bytes(x, n) == be_bytes(y, n),
    ensures
        x == y,
    decreases n,
{
    if n > 0 {
        let p = pow256((n - 1) as nat);
        lemma_be_bytes_len(x / 256, (n - 1) as nat);
        lemma_be_bytes_len(y / 256, (n - 1) as nat);
        assert(be_bytes(x, n).drop_last() =~= be_bytes(x / 256, (n - 1) as nat));
        assert(be_bytes(y, n).drop_last() =~= be_bytes(y / 256, (n - 1) as nat));
        assert(x / 256 < p) by (nonlinear_arith)
            requires
                x < 256 * p,
        ;
        assert(y / 256 < p) by (nonlinear_arith)
            requires
                y < 256 * p,
        ;
        lemma_be_bytes_injective(x / 256, y / 256, (n - 1) as nat);
        assert(be_bytes(x, n).last() == (x % 256) as u8);
        assert(be_bytes(y, n).last() == (y % 256) as u8);
        assert(x % 256 == y % 256);
    }
}

proof fn lemma_hex_of_shape(d: Seq<u8>)
    ensures
        hex_of(d).len() == 2 * d.len(),
        forall|i: int| 0 <= i < hex_of(d).len() ==> is_lower_hex(#[trigger] hex_of(d)[i]),
    decreases d.len(),
{
    if d.len() > 0 {
        lemma_hex_of_shape(d.drop_last());
    }
}

/// The seal is a function of the record and the timestamp: equal pairs give
/// equal seals, each made of lowercase hex digits, two per digest byte.
pub proof fn lemma_seal_deterministic(a: &AuditTarget, ts_a: i64, b: &AuditTarget, ts_b: i64)
    requires
        a.id == b.id,
        a.entropy_source == b.entropy_source,
        a.threat_vector == b.threat_vector,
        ts_a == ts_b,
    ensures
        seal_text(a, ts_a) == seal_text(b, ts_b),
        seal_text(a, ts_a).len() == 2 * sha256_of(
            seal_input(a.id, a.entropy_source, a.threat_vector, ts_a),
        ).len(),
        forall|i: int|
            0 <= i < seal_text(a, ts_a).len() ==> is_lower_hex(#[trigger] seal_text(a, ts_a)[i]),
{
    lemma_hex_of_shape(sha256_of(seal_input(a.id, a.entropy_source, a.threat_vector, ts_a)));
}

/// Distinct (record, timestamp) pairs are digested from distinct inputs: the
/// input determines every field and the timestamp.
pub proof fn lemma_seal_input_injective(a: &AuditTarget, ts_a: i64, b: &AuditTarget, ts_b: i64)
    requires
        seal_input(a.id, a.entropy_source, a.threat_vector, ts_a) == seal_input(
            b.id,
            b.entropy_source,
            b.threat_vector,
            ts_b,
        ),
    ensures
        a.id == b.id,
        a.entropy_source == b.entropy_source,
        a.threat_vector == b.threat_vector,
        ts_a == ts_b,
{
    let sa = seal_input(a.id, a.entropy_source, a.threat_vector, ts_a);
    lemma_be_bytes_len(a.id as nat, 4);
    lemma_be_bytes_len(b.id as nat, 4);
    lemma_be_bytes_len(a.entropy_source as nat, 8);
    lemma_be_bytes_len(b.entropy_source as nat, 8);
    lemma_be_bytes_len(a.threat_vector as nat, 8);
    lemma_be_bytes_len(b.threat_vector as nat, 8);
    lemma_be_bytes_len(i64_bits(ts_a), 8);
    lemma_be_bytes_len(i64_bits(ts_b), 8);
    assert(sa.subrange(0, 4) =~= be_bytes(a.id as nat, 4));
    assert(sa.subrange(0, 4) =~= be_bytes(b.id as nat, 4));
    assert(sa.subrange(4, 12) =~= be_bytes(a.entropy_source as nat, 8));
    assert(sa.subrange(4, 12) =~= be_bytes(b.entropy_source as nat, 8));
    assert(sa.subrange(12, 20) =~= be_bytes(a.threat_vector as nat, 8));
    assert(sa.subrange(12, 20) =~= be_bytes(b.threat_vector as nat, 8));
    assert(sa.subrange(20, 28) =~= be_bytes(i64_bits(ts_a), 8));
    assert(sa.subrange(20, 28) =~= be_bytes(i64_bits(ts_b), 8));
    reveal_with_fuel(pow256, 9);
    assert(pow256(4) == 0x1_0000_0000);
    assert(pow256(8) == 0x1_0000_0000_0000_0000);
    lemma_be_bytes_injective(a.id as nat, b.id as nat, 4);
    lemma_be_bytes_injective(a.entropy_source as nat, b.entropy_source as nat, 8);
    lemma_be_bytes_injective(a.threat_vector as nat, b.threat_vector as nat, 8);
    lemma_be_bytes_injective(i64_bits(ts_a), i64_bits(ts_b), 8);
}

} // verus!
