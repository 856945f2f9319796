//! Certificate ids.

use vstd::prelude::*;

use crate::types::Address;

verus! {

/// The execution environment that the network host gives to a contract. Nothing is known of a
/// value of it here; it is only handed on to the host.
#[verifier::external_type_specification]
#[verifier::external_body]
pub struct ExEnv(soroban_sdk::Env);

/// The SHA-256 digest of `data`, as the host's `Crypto::sha256` computes it.
pub uninterp spec fn sha256_digest(data: Seq<u8>) -> Seq<u8>;

/// Calls `soroban_sdk::crypto::Crypto::sha256` on the bytes of `data`. It is trusted that the
/// result is the SHA-256 digest of these bytes, whatever host answers. What a digest looks like
/// is not stated, nor that two digests differ. A host whose budget is spent ends the invocation
/// in place of an answer.
#[verifier::external_body]
fn sha256(host: &soroban_sdk::Env, data: &[u8; 72]) -> (digest: [u8; 32])
    ensures
        digest@ == sha256_digest(data@),
{
    host.crypto().sha256(&soroban_sdk::Bytes::from_array(host, data)).to_array()
}

/// The byte of `x` that `place` counts from its low end.
pub open spec fn byte_of(x: u64, place: u64) -> u8 {
    (x / place % 256) as u8
}

/// The eight bytes of `x`, the high byte first.
pub open spec fn be_bytes(x: u64) -> Seq<u8> {
    seq![
        byte_of(x, 0x100_0000_0000_0000),
        byte_of(x, 0x1_0000_0000_0000),
        byte_of(x, 0x100_0000_0000),
        byte_of(x, 0x1_0000_0000),
        byte_of(x, 0x100_0000),
        byte_of(x, 0x1_0000),
        byte_of(x, 0x100),
        byte_of(x, 1),
    ]
}

/// What the id of a certificate is computed from: the event, the attendee by their StrKey text,
/// and the minting time.
pub open spec fn cert_seed(event_id: u64, attendee: Address, issued_at: u64) -> Seq<u8> {
    be_bytes(event_id) + attendee.strkey@ + be_bytes(issued_at)
}

/// Cuts one byte out of `x`.
fn byte_at(x: u64, place: u64) -> (byte: u8)
    requires
        place > 0,
    ensures
        byte == byte_of(x, place),
{
    (x / place % 256) as u8
}

/// Cuts a number into its eight bytes, the high byte first.
fn split_be(x: u64) -> (bytes: [u8; 8])
    ensures
        bytes@ == be_bytes(x),
{
    let bytes = [
        byte_at(x, 0x100_0000_0000_0000),
        byte_at(x, 0x1_0000_0000_0000),
        byte_at(x, 0x100_0000_0000),
        byte_at(x, 0x1_0000_0000),
        byte_at(x, 0x100_0000),
        byte_at(x, 0x1_0000),
        byte_at(x, 0x100),
        byte_at(x, 1),
    ];
    assert(bytes@ =~= be_bytes(x));
    bytes
}

/// Puts together what the id of a certificate is computed from.
pub fn certificate_seed(event_id: u64, attendee: &Address, issued_at: u64) -> (seed: [u8; 72])
    ensures
        seed@ == cert_seed(event_id, *attendee, issued_at),
{
    let event_bytes = split_be(event_id);
    let time_bytes = split_be(issued_at);
    let mut seed: [u8; 72] = [0u8; 72];
    let mut i: usize = 0;
    while i < 72
        invariant
            i <= 72,
            event_bytes@ == be_bytes(event_id),
            time_bytes@ == be_bytes(issued_at),
            forall|j: int| 0 <= j < i ==> seed@[j] == cert_seed(event_id, *attendee, issued_at)[j],
        decreases 72 - i,
    {
        seed[i] = if i < 8 {
            event_bytes[i]
        } else if i < 64 {
            attendee.strkey[i - 8]
        } else {
            time_bytes[i - 64]
        };
        i += 1;
    }
    assert(seed@ =~= cert_seed(event_id, *attendee, issued_at));
    seed
}

/// Computes the id of the certificate minted for an attendee of an event at a given time.
pub fn certificate_id(
    host: &soroban_sdk::Env,
    event_id: u64,
    attendee: &Address,
    issued_at: u64,
) -> (cert_id: [u8; 32])
    ensures
        cert_id@ == sha256_digest(cert_seed(event_id, *attendee, issued_at)),
{
    sha256(host, &certificate_seed(event_id, attendee, issued_at))
}

/// The eight bytes of a number determine it.
proof fn lemma_be_bytes_injective(x: u64, y: u64)
    requires
        be_bytes(x) == be_bytes(y),
    ensures
        x == y,
{
    let a = be_bytes(x);
    let b = be_bytes(y);
    assert(a[0] == b[0] && a[1] == b[1] && a[2] == b[2] && a[3] == b[3]);
    assert(a[4] == b[4] && a[5] == b[5] && a[6] == b[6] && a[7] == b[7]);
    assert(x == y) by (bit_vector)
        requires
            x / 0x100_0000_0000_0000u64 % 256 == y / 0x100_0000_0000_0000u64 % 256,
            x / 0x1_0000_0000_0000u64 % 256 == y / 0x1_0000_0000_0000u64 % 256,
            x / 0x100_0000_0000u64 % 256 == y / 0x100_0000_0000u64 % 256,
            x / 0x1_0000_0000u64 % 256 == y / 0x1_0000_0000u64 % 256,
            x / 0x100_0000u64 % 256 == y / 0x100_0000u64 % 256,
            x / 0x1_0000u64 % 256 == y / 0x1_0000u64 % 256,
            x / 0x100u64 % 256 == y / 0x100u64 % 256,
            x / 1u64 % 256 == y / 1u64 % 256,
    ;
}

/// The bytes of a number stand for it with the high byte first.
proof fn lemma_be_bytes_value(x: u64)
    ensures
        be_bytes(x).len() == 8,
        x == be_bytes(x)[0] * 0x100_0000_0000_0000 + be_bytes(x)[1] * 0x1_0000_0000_0000
            + be_bytes(x)[2] * 0x100_0000_0000 + be_bytes(x)[3] * 0x1_0000_0000 + be_bytes(x)[4]
            * 0x100_0000 + be_bytes(x)[5] * 0x1_0000 + be_bytes(x)[6] * 0x100 + be_bytes(x)[7],
{
    assert(x == x / 0x100_0000_0000_0000u64 % 256 * 0x100_0000_0000_0000u64 + x
        / 0x1_0000_0000_0000u64 % 256 * 0x1_0000_0000_0000u64 + x / 0x100_0000_0000u64 % 256
        * 0x100_0000_0000u64 + x / 0x1_0000_0000u64 % 256 * 0x1_0000_0000u64 + x / 0x100_0000u64
        % 256 * 0x100_0000u64 + x / 0x1_0000u64 % 256 * 0x1_0000u64 + x / 0x100u64 % 256 * 0x100u64
        + x / 1u64 % 256) by (bit_vector);
}

/// The id of a certificate is computed from 72 bytes: the number of the event and the minting time
/// with the high byte first in the first and the last eight, and the StrKey text of the attendee
/// between them.
pub proof fn law_seed_layout(event_id: u64, attendee: Address, issued_at: u64)
    ensures
        ({
            let seed = cert_seed(event_id, attendee, issued_at);
            &&& seed.len() == 72
            &&& event_id == seed[0] * 0x100_0000_0000_0000 + seed[1] * 0x1_0000_0000_0000 + seed[2]
                * 0x100_0000_0000 + seed[3] * 0x1_0000_0000 + seed[4] * 0x100_0000 + seed[5]
                * 0x1_0000 + seed[6] * 0x100 + seed[7]
            &&& forall|i: int| 0 <= i < 56 ==> #[trigger] seed[i + 8] == attendee.strkey[i]
            &&& issued_at == seed[64] * 0x100_0000_0000_0000 + seed[65] * 0x1_0000_0000_0000
                + seed[66] * 0x100_0000_0000 + seed[67] * 0x1_0000_0000 + seed[68] * 0x100_0000
                + seed[69] * 0x1_0000 + seed[70] * 0x100 + seed[71]
        }),
{
    lemma_be_bytes_value(event_id);
    lemma_be_bytes_value(issued_at);
}

/// Certificates of different events, of different attendees, or minted at different times have
/// ids that are computed from different bytes.
pub proof fn law_seeds_are_distinct(
    event_id: u64,
    attendee: Address,
    issued_at: u64,
    other_id: u64,
    other: Address,
    other_at: u64,
)
    requires
        cert_seed(event_id, attendee, issued_at) == cert_seed(other_id, other, other_at),
    ensures
        event_id == other_id,
        attendee == other,
        issued_at == other_at,
{
    let a = cert_seed(event_id, attendee, issued_at);
    let b = cert_seed(other_id, other, other_at);
    assert(a.take(8) =~= be_bytes(event_id));
    assert(b.take(8) =~= be_bytes(other_id));
    assert(a.skip(64) =~= be_bytes(issued_at));
    assert(b.skip(64) =~= be_bytes(other_at));
    lemma_be_bytes_injective(event_id, other_id);
    lemma_be_bytes_injective(issued_at, other_at);
    assert forall|i: int| 0 <= i < 56 implies attendee.strkey[i] == other.strkey[i] by {
        assert(a[i + 8] == attendee.strkey@[i]);
        assert(b[i + 8] == other.strkey@[i]);
    }
    assert(attendee.strkey =~= other.strkey);
}

/// Two attendees do not share a certificate id unless SHA-256 collides on what the ids are
/// computed from.
pub proof fn law_ids_tell_attendees_apart(
    event_id: u64,
    attendee: Address,
    issued_at: u64,
    other_id: u64,
    other: Address,
    other_at: u64,
)
    requires
        attendee != other,
        sha256_digest(cert_seed(event_id, attendee, issued_at)) == sha256_digest(
            cert_seed(other_id, other, other_at),
        ) ==> cert_seed(event_id, attendee, issued_at) == cert_seed(other_id, other, other_at),
    ensures
        sha256_digest(cert_seed(event_id, attendee, issued_at)) != sha256_digest(
            cert_seed(other_id, other, other_at),
        ),
{
    if cert_seed(event_id, attendee, issued_at) == cert_seed(other_id, other, other_at) {
        law_seeds_are_distinct(event_id, attendee, issued_at, other_id, other, other_at);
    }
}

} // verus!
