//! Resolution of a signing identity from one of several textual secret encodings.
use solana_sdk::signature::Keypair;
use vstd::prelude::*;
use vstd::slice::slice_subrange;
use vstd::string::StringSliceAdditionalSpecFns;

verus! {

/// Value of one ASCII hex digit, either case.
pub open spec fn hex_digit_value(c: u8) -> Option<int> {
    if 48 <= c <= 57 {
        Some(c - 48)
    } else if 97 <= c <= 102 {
        Some(c - 87)
    } else if 65 <= c <= 70 {
        Some(c - 55)
    } else {
        None
    }
}

/// An even number of hex digits.
pub open spec fn is_hex_text(t: Seq<u8>) -> bool {
    &&& t.len() % 2 == 0
    &&& forall|i: int| 0 <= i < t.len() ==> (#[trigger] hex_digit_value(t[i])) is Some
}

/// What a hex text decodes to: one byte per pair of digits, high nibble first.
pub open spec fn hex_decoded(t: Seq<u8>) -> Option<Seq<u8>> {
    if is_hex_text(t) {
        Some(
            Seq::new(
                (t.len() / 2) as nat,
                |i: int|
                    (hex_digit_value(t[2 * i])->0 * 16 + hex_digit_value(t[2 * i + 1])->0) as u8,
            ),
        )
    } else {
        None
    }
}

/// What `serde_json` reads from a text as a list of byte values, if it reads one.
pub uninterp spec fn json_byte_list_of(t: Seq<u8>) -> Option<Seq<u8>>;

/// What `bs58` decodes a text to, if it is base-58.
pub uninterp spec fn base58_decoded(t: Seq<u8>) -> Option<Seq<u8>>;

/// Whether the ledger's keypair type accepts these bytes as a signing key.
pub uninterp spec fn keypair_accepts(b: Seq<u8>) -> bool;

/// Relies on serde_json::from_slice::<Vec<u8>>: parses a JSON array of integers 0..=255.
#[verifier::external_body]
fn parse_json_byte_list(t: &[u8]) -> (r: Option<Vec<u8>>)
    ensures
        match r {
            Some(v) => json_byte_list_of(t@) == Some(v@),
            None => json_byte_list_of(t@) is None,
        },
{
    serde_json::from_slice::<Vec<u8>>(t).ok()
}

/// Relies on hex::decode: fails on an odd length or a non-hex character, else
/// gives one byte per pair of digits, upper or lower case.
#[verifier::external_body]
fn decode_hex(t: &[u8]) -> (r: Option<Vec<u8>>)
    ensures
        match r {
            Some(v) => hex_decoded(t@) == Some(v@),
            None => hex_decoded(t@) is None,
        },
{
    hex::decode(t).ok()
}

/// Relies on bs58::decode(..).into_vec(): the base-58 decoding of a text, or an error.
#[verifier::external_body]
fn decode_base58(t: &[u8]) -> (r: Option<Vec<u8>>)
    ensures
        match r {
            Some(v) => base58_decoded(t@) == Some(v@),
            None => base58_decoded(t@) is None,
        },
{
    bs58::decode(t).into_vec().ok()
}

/// Relies on Keypair's `TryFrom<&[u8]>` (what Keypair::from_bytes calls): it accepts only 64 bytes, a secret key followed by
/// the public key derived from it.
#[verifier::external_body]
fn keypair_bytes_valid(b: &[u8]) -> (r: bool)
    ensures
        r == keypair_accepts(b@),
        r ==> b@.len() == 64,
{
    <Keypair as TryFrom<&[u8]>>::try_from(b).is_ok()
}

/// A signing identity: the raw bytes of a keypair that the ledger accepts.
pub struct Identity {
    pub key: Vec<u8>,
}

/// Why a secret could not be resolved.
#[derive(Clone, Copy, Debug, PartialEq, Eq, Structural)]
pub enum DecodeError {
    UnrecognizedFormat,
}

pub open spec fn is_bracketed(t: Seq<u8>) -> bool {
    t.len() >= 1 && t[0] == 91u8 && t.last() == 93u8
}

/// The text with one leading `0x` removed, if it has one.
pub open spec fn without_hex_prefix(t: Seq<u8>) -> Seq<u8> {
    if t.len() >= 2 && t[0] == 48u8 && t[1] == 120u8 {
        t.subrange(2, t.len() as int)
    } else {
        t
    }
}

/// Decoded bytes, kept only where they form a valid keypair.
pub open spec fn usable(d: Option<Seq<u8>>) -> Option<Seq<u8>> {
    match d {
        Some(b) => if keypair_accepts(b) {
            Some(b)
        } else {
            None
        },
        None => None,
    }
}

pub open spec fn from_byte_list(t: Seq<u8>) -> Option<Seq<u8>> {
    if is_bracketed(t) {
        usable(json_byte_list_of(t))
    } else {
        None
    }
}

pub open spec fn from_hex(t: Seq<u8>) -> Option<Seq<u8>> {
    usable(hex_decoded(without_hex_prefix(t)))
}

pub open spec fn from_base58(t: Seq<u8>) -> Option<Seq<u8>> {
    usable(base58_decoded(t))
}

/// The key that a secret resolves to: the first strategy, in the order byte list,
/// hex, base-58, that decodes it to valid keypair bytes.
pub open spec fn resolved_key(t: Seq<u8>) -> Option<Seq<u8>> {
    if from_byte_list(t) is Some {
        from_byte_list(t)
    } else if from_hex(t) is Some {
        from_hex(t)
    } else {
        from_base58(t)
    }
}

pub open spec fn bytes_view(d: Option<Vec<u8>>) -> Option<Seq<u8>> {
    match d {
        Some(v) => Some(v@),
        None => None,
    }
}

fn keep_if_valid(d: Option<Vec<u8>>) -> (r: Option<Vec<u8>>)
    ensures
        match r {
            Some(v) => usable(bytes_view(d)) == Some(v@),
            None => usable(bytes_view(d)) is None,
        },
{
    match d {
        Some(b) => if keypair_bytes_valid(b.as_slice()) {
            Some(b)
        } else {
            None
        },
        None => None,
    }
}

fn strip_hex_prefix(t: &[u8]) -> (r: &[u8])
    ensures
        r@ == without_hex_prefix(t@),
{
    if t.len() >= 2 && t[0] == 48u8 && t[1] == 120u8 {
        slice_subrange(t, 2, t.len())
    } else {
        t
    }
}

/// Resolves a secret given as bytes of text.
pub fn resolve_bytes(t: &[u8]) -> (r: Result<Identity, DecodeError>)
    ensures
        match r {
            Ok(id) => resolved_key(t@) == Some(id.key@),
            Err(_) => resolved_key(t@) is None,
        },
{
    let n = t.len();
    if n >= 1 && t[0] == 91u8 && t[n - 1] == 93u8 {
        if let Some(b) = keep_if_valid(parse_json_byte_list(t)) {
            return Ok(Identity { key: b });
        }
    }
    if let Some(b) = keep_if_valid(decode_hex(strip_hex_prefix(t))) {
        return Ok(Identity { key: b });
    }
    match keep_if_valid(decode_base58(t)) {
        Some(b) => Ok(Identity { key: b }),
        None => Err(DecodeError::UnrecognizedFormat),
    }
}

/// Resolves a secret: a bracketed list of byte values, a hex string with an
/// optional `0x` prefix, or a base-58 string, tried in that order.
pub fn resolve(secret: &str) -> (r: Result<Identity, DecodeError>)
    ensures
        match r {
            Ok(id) => resolved_key(secret.spec_bytes()) == Some(id.key@),
            Err(_) => resolved_key(secret.spec_bytes()) is None,
        },
{
    resolve_bytes(secret.as_bytes())
}

/// Well-formed byte-list, hex and base-58 encodings of one key resolve to that
/// same key. A base-58 text is well-formed here when no earlier strategy claims it.
pub proof fn lemma_encodings_agree(list: Seq<u8>, hex: Seq<u8>, b58: Seq<u8>, key: Seq<u8>)
    requires
        keypair_accepts(key),
        is_bracketed(list),
        json_byte_list_of(list) == Some(key),
        hex_decoded(without_hex_prefix(hex)) == Some(key),
        base58_decoded(b58) == Some(key),
        !is_bracketed(b58),
        from_hex(b58) is None,
    ensures
        resolved_key(list) == Some(key),
        resolved_key(hex) == Some(key),
        resolved_key(b58) == Some(key),
{
    if hex.len() > 0 && !(hex.len() >= 2 && hex[0] == 48u8 && hex[1] == 120u8) {
        assert(without_hex_prefix(hex) == hex);
        assert(hex_digit_value(hex[0]) is Some);
    }
    assert(!is_bracketed(hex));
}

} // verus!
