//! The score-integrity codec: a keyed tag over a score's immutable fields,
//! binding each submitted score to one player so scores cannot be forged,
//! replayed onto other fields, or reassigned.

use vstd::prelude::*;

use hmac::Mac;
use vstd::string::StringSliceAdditionalSpecFns;
use vstd::string::StrSliceExecFns;

use crate::ids::hex_char;
use crate::InvalidKey;

verus! {

/// Lowercase hex encoding of a byte sequence, two digits per byte.
pub open spec fn spec_hex(s: Seq<u8>) -> Seq<char>
    decreases s.len(),
{
    if s.len() == 0 {
        Seq::empty()
    } else {
        seq![hex_char(s[0] / 16), hex_char(s[0] % 16)] + spec_hex(s.drop_first())
    }
}

/// Hex encoding writes exactly two characters per byte.
pub proof fn lemma_spec_hex_len(s: Seq<u8>)
    ensures
        spec_hex(s).len() == 2 * s.len(),
    decreases s.len(),
{
    if s.len() > 0 {
        lemma_spec_hex_len(s.drop_first());
    }
}

/// What HMAC-SHA-256 returns for a key and a message. The digest is a
/// function of the two arguments alone; its pages-long definition lives in
/// the outside crates and is not restated here.
pub uninterp spec fn hmac_sha256_of(key: Seq<u8>, msg: Seq<u8>) -> Seq<u8>;

/// Relies on hmac's `Hmac::<Sha256>` (`Mac::new_from_slice`, `update`,
/// `finalize`): the 32-byte digest depends on the key and message bytes
/// alone. `new_from_slice` accepts a key of any length, so the unwrap cannot
/// fail.
#[verifier::external_body]
fn hmac_sha256(key: &[u8], msg: &[u8]) -> (r: Vec<u8>)
    ensures
        r@ == hmac_sha256_of(key@, msg@),
        r@.len() == 32,
{
    let mut mac = hmac::Hmac::<sha2::Sha256>::new_from_slice(key).unwrap();
    mac.update(msg);
    mac.finalize().into_bytes().to_vec()
}

/// Relies on hex::encode: lowercase output, two digits for each input byte,
/// in input order.
#[verifier::external_body]
fn hex_encode(b: &[u8]) -> (r: String)
    ensures
        r@ == spec_hex(b@),
{
    hex::encode(b)
}

/// The accumulated MAC input, in fixed order: little-endian 64-bit
/// timestamp, leaderboard-key bytes, player-id bytes, little-endian score
/// bytes, then a presence marker and the meta bytes only when meta is
/// present. An omitted meta leaves the input 44 bytes long, so "field
/// omitted" and "field empty" accumulate different inputs.
pub open spec fn mac_input(
    leaderboard_key: Seq<u8>,
    player_id: Seq<u8>,
    score_bits: u32,
    meta: Option<Seq<u8>>,
    timestamp: u64,
) -> Seq<u8> {
    vstd::bytes::spec_u64_to_le_bytes(timestamp) + leaderboard_key + player_id
        + vstd::bytes::spec_u32_to_le_bytes(score_bits) + (match meta {
        None => Seq::empty(),
        Some(m) => seq![1u8] + m,
    })
}

/// The tag `sign` produces: the lowercase hex of the keyed digest of the
/// accumulated input.
pub open spec fn spec_tag(
    secret_key: Seq<u8>,
    leaderboard_key: Seq<u8>,
    player_id: Seq<u8>,
    score_bits: u32,
    meta: Option<Seq<u8>>,
    timestamp: u64,
) -> Seq<char> {
    spec_hex(
        hmac_sha256_of(
            secret_key,
            mac_input(leaderboard_key, player_id, score_bits, meta, timestamp),
        ),
    )
}

/// The meta argument's bytes, when it is present.
pub open spec fn spec_meta_bytes(meta: Option<&str>) -> Option<Seq<u8>> {
    match meta {
        None => None,
        Some(m) => Some(m.spec_bytes()),
    }
}

/// Whether a candidate tag is the one `sign` computes for these fields.
pub open spec fn spec_verifies(
    tag: Seq<char>,
    secret_key: Seq<u8>,
    leaderboard_key: Seq<u8>,
    player_id: Seq<u8>,
    score_bits: u32,
    meta: Option<Seq<u8>>,
    timestamp: u64,
) -> bool {
    tag == spec_tag(secret_key, leaderboard_key, player_id, score_bits, meta, timestamp)
}

/// Builds the keyed tag over a score's immutable fields: 64 lowercase hex
/// characters, a deterministic function of exactly the six arguments. Keys
/// and ids must have the fixed 16-byte width; anything else fails with
/// `InvalidKey`, never a silent truncation or padding.
pub fn sign(
    secret_key: &[u8],
    leaderboard_key: &[u8],
    player_id: &[u8],
    score_bits: u32,
    meta: Option<&str>,
    timestamp: u64,
) -> (r: Result<String, InvalidKey>)
    ensures
        r is Err <==> !(secret_key@.len() == 16 && leaderboard_key@.len() == 16
            && player_id@.len() == 16),
        r matches Ok(tag) ==> tag@ == spec_tag(
            secret_key@,
            leaderboard_key@,
            player_id@,
            score_bits,
            spec_meta_bytes(meta),
            timestamp,
        ) && tag@.len() == 64,
{
    if secret_key.len() != 16 || leaderboard_key.len() != 16 || player_id.len() != 16 {
        return Err(InvalidKey);
    }
    let mut msg = vstd::bytes::u64_to_le_bytes(timestamp);
    let mut lk = vstd::slice::slice_to_vec(leaderboard_key);
    msg.append(&mut lk);
    let mut pid = vstd::slice::slice_to_vec(player_id);
    msg.append(&mut pid);
    let mut sb = vstd::bytes::u32_to_le_bytes(score_bits);
    msg.append(&mut sb);
    match meta {
        Some(m) => {
            msg.push(1u8);
            let mut mb = m.as_bytes_vec();
            msg.append(&mut mb);
        },
        None => {},
    }
    proof {
        assert(msg@ =~= mac_input(
            leaderboard_key@,
            player_id@,
            score_bits,
            spec_meta_bytes(meta),
            timestamp,
        ));
    }
    let mac = hmac_sha256(secret_key, msg.as_slice());
    proof {
        lemma_spec_hex_len(mac@);
    }
    Ok(hex_encode(mac.as_slice()))
}

/// Character-wise comparison that examines every position, accumulating the
/// mismatch instead of returning at the first difference, so the time taken
/// does not reveal how long a matching prefix an attacker has guessed.
fn const_time_eq(a: &str, b: &str) -> (r: bool)
    ensures
        r == (a@ == b@),
{
    let na = a.unicode_len();
    let nb = b.unicode_len();
    if na != nb {
        return false;
    }
    let mut mismatches: u64 = 0;
    let mut i: usize = 0;
    while i < na
        invariant
            na == a@.len(),
            na == b@.len(),
            i <= na,
            mismatches <= i,
            mismatches == 0 <==> (forall|j: int| 0 <= j < i ==> a@[j] == b@[j]),
        decreases na - i,
    {
        let ca = a.get_char(i);
        let cb = b.get_char(i);
        mismatches = mismatches + (if ca != cb {
            1
        } else {
            0
        });
        i += 1;
    }
    if mismatches == 0 {
        proof {
            assert(a@ =~= b@);
        }
        true
    } else {
        false
    }
}

/// Recomputes the tag for the given fields (the same algorithm as `sign`)
/// and compares it to the candidate with a constant-time equality. `Ok(true)`
/// exactly when the candidate is the tag of these fields under this key.
pub fn verify(
    tag: &str,
    secret_key: &[u8],
    leaderboard_key: &[u8],
    player_id: &[u8],
    score_bits: u32,
    meta: Option<&str>,
    timestamp: u64,
) -> (r: Result<bool, InvalidKey>)
    ensures
        r is Err <==> !(secret_key@.len() == 16 && leaderboard_key@.len() == 16
            && player_id@.len() == 16),
        r matches Ok(b) ==> b == spec_verifies(
            tag@,
            secret_key@,
            leaderboard_key@,
            player_id@,
            score_bits,
            spec_meta_bytes(meta),
            timestamp,
        ),
{
    let expected = match sign(secret_key, leaderboard_key, player_id, score_bits, meta, timestamp) {
        Ok(t) => t,
        Err(e) => {
            return Err(e);
        },
    };
    Ok(const_time_eq(tag, expected.as_str()))
}

/// A tag computed by `sign` over given fields verifies against the same key
/// and the same fields.
pub proof fn lemma_sign_verify_round_trip(
    secret_key: Seq<u8>,
    leaderboard_key: Seq<u8>,
    player_id: Seq<u8>,
    score_bits: u32,
    meta: Option<Seq<u8>>,
    timestamp: u64,
)
    ensures
        spec_verifies(
            spec_tag(secret_key, leaderboard_key, player_id, score_bits, meta, timestamp),
            secret_key,
            leaderboard_key,
            player_id,
            score_bits,
            meta,
            timestamp,
        ),
{
}

/// The accumulated MAC input determines every signed field: two field tuples
/// that differ anywhere, including an omitted meta against an empty one,
/// accumulate different inputs. (That distinct inputs then yield distinct
/// digests holds only with overwhelming probability, as for any MAC, and is
/// not stated here.)
pub proof fn lemma_mac_input_injective(
    lk1: Seq<u8>,
    pid1: Seq<u8>,
    sb1: u32,
    m1: Option<Seq<u8>>,
    ts1: u64,
    lk2: Seq<u8>,
    pid2: Seq<u8>,
    sb2: u32,
    m2: Option<Seq<u8>>,
    ts2: u64,
)
    requires
        lk1.len() == 16,
        pid1.len() == 16,
        lk2.len() == 16,
        pid2.len() == 16,
        mac_input(lk1, pid1, sb1, m1, ts1) == mac_input(lk2, pid2, sb2, m2, ts2),
    ensures
        lk1 == lk2,
        pid1 == pid2,
        sb1 == sb2,
        m1 == m2,
        ts1 == ts2,
{
    vstd::bytes::lemma_auto_spec_u64_to_from_le_bytes();
    vstd::bytes::lemma_auto_spec_u32_to_from_le_bytes();
    let a = mac_input(lk1, pid1, sb1, m1, ts1);
    let b = mac_input(lk2, pid2, sb2, m2, ts2);
    assert(vstd::bytes::spec_u64_to_le_bytes(ts1) =~= a.subrange(0, 8));
    assert(vstd::bytes::spec_u64_to_le_bytes(ts2) =~= b.subrange(0, 8));
    assert(ts1 == ts2);
    assert(lk1 =~= a.subrange(8, 24));
    assert(lk2 =~= b.subrange(8, 24));
    assert(pid1 =~= a.subrange(24, 40));
    assert(pid2 =~= b.subrange(24, 40));
    assert(vstd::bytes::spec_u32_to_le_bytes(sb1) =~= a.subrange(40, 44));
    assert(vstd::bytes::spec_u32_to_le_bytes(sb2) =~= b.subrange(40, 44));
    assert(sb1 == sb2);
    match (m1, m2) {
        (None, None) => {},
        (None, Some(y)) => {
            assert(a.len() == 44);
            assert(b.len() == 45 + y.len());
        },
        (Some(x), None) => {
            assert(a.len() == 45 + x.len());
            assert(b.len() == 44);
        },
        (Some(x), Some(y)) => {
            assert(x =~= a.subrange(45, a.len() as int));
            assert(y =~= b.subrange(45, b.len() as int));
        },
    }
}

} // verus!
