//! Session and listing identifiers: 128-bit UUIDs, held as their 128-bit value.

use vstd::prelude::*;

verus! {

/// Identifier of a session, assigned by the server when the stream is set up.
pub type SessionId = u128;

/// Identifier of a listing, assigned by the server when the listing is created.
pub type ListingId = u128;

/// Number of bytes of an identifier on the wire.
pub const ID_BYTES: usize = 16;

/// Why a byte string was refused as an identifier.
#[derive(Clone, Copy, Debug, PartialEq, Eq, Structural)]
pub enum IdError {
    /// The byte string is not sixteen bytes long.
    BadLength,
    /// The text is not the text of an identifier.
    BadText,
}

/// `uuid::Error`, the error with which the `uuid` crate refuses bytes or
/// text. Nothing is claimed of what it holds.
#[verifier::external_type_specification]
#[verifier::external_body]
pub struct ExUuidError(uuid::Error);

/// The number that a byte string denotes when read most significant byte first.
pub open spec fn be_value(bytes: Seq<u8>) -> nat
    decreases bytes.len(),
{
    if bytes.len() == 0 {
        0
    } else {
        be_value(bytes.drop_last()) * 256 + bytes.last() as nat
    }
}

/// Bits that every version-4 UUID has set the same way: the version nibble
/// and the two variant bits.
pub const V4_MASK: u128 = 0x0000_0000_0000_f000_c000_0000_0000_0000u128;

/// Value of the bits under [`V4_MASK`] in a version-4 UUID.
pub const V4_BITS: u128 = 0x0000_0000_0000_4000_8000_0000_0000_0000u128;

/// `uuid::Uuid::from_slice`, then `Uuid::as_u128`: accepts exactly the byte
/// strings of length sixteen and reads them most significant byte first.
#[verifier::external_body]
fn uuid_from_slice(bytes: &[u8]) -> (r: Result<u128, uuid::Error>)
    ensures
        r is Ok <==> bytes@.len() == 16,
        r matches Ok(v) ==> v as nat == be_value(bytes@),
{
    match uuid::Uuid::from_slice(bytes) {
        Ok(u) => Ok(u.as_u128()),
        Err(e) => Err(e),
    }
}

/// `uuid::Uuid::from_u128`, then `Uuid::as_bytes`: the sixteen bytes of the
/// value, most significant byte first.
#[verifier::external_body]
fn uuid_to_bytes(value: u128) -> (r: Vec<u8>)
    ensures
        r@.len() == 16,
        be_value(r@) == value as nat,
{
    uuid::Uuid::from_u128(value).as_bytes().to_vec()
}

/// `uuid::Uuid::new_v4`: a random UUID. Whatever the random bits, the version
/// nibble is 4 and the variant bits are `10`.
#[verifier::external_body]
fn uuid_new_v4() -> (r: u128)
    ensures
        r & V4_MASK == V4_BITS,
{
    uuid::Uuid::new_v4().as_u128()
}

/// Whether `id` carries the version and variant bits of a random (version 4)
/// UUID.
pub open spec fn is_v4(id: u128) -> bool {
    id & V4_MASK == V4_BITS
}

/// The identifier that a byte string denotes on the wire, if it denotes one:
/// a string of sixteen bytes, read most significant byte first.
pub open spec fn id_of(bytes: Seq<u8>) -> Option<u128> {
    if bytes.len() == ID_BYTES {
        Some(be_value(bytes) as u128)
    } else {
        None
    }
}

/// Reads an identifier from its wire form.
pub fn id_from_bytes(bytes: &[u8]) -> (r: Result<u128, IdError>)
    ensures
        r == match id_of(bytes@) {
            Some(id) => Ok::<u128, IdError>(id),
            None => Err::<u128, IdError>(IdError::BadLength),
        },
{
    match uuid_from_slice(bytes) {
        Ok(v) => Ok(v),
        Err(_) => Err(IdError::BadLength),
    }
}

/// Writes an identifier in its wire form: sixteen bytes, most significant
/// first.
pub fn id_to_bytes(id: u128) -> (r: Vec<u8>)
    ensures
        r@.len() == 16,
        be_value(r@) == id as nat,
        id_of(r@) == Some(id),
{
    uuid_to_bytes(id)
}

/// Mints a fresh random identifier.
pub fn fresh_id() -> (r: u128)
    ensures
        is_v4(r),
{
    uuid_new_v4()
}

/// Two byte strings of one length that denote the same number are the same
/// byte string.
pub proof fn lemma_be_value_injective(a: Seq<u8>, b: Seq<u8>)
    requires
        a.len() == b.len(),
        be_value(a) == be_value(b),
    ensures
        a == b,
    decreases a.len(),
{
    if a.len() == 0 {
        assert(a =~= b);
    } else {
        let x = be_value(a.drop_last());
        let y = be_value(b.drop_last());
        assert(x * 256 + a.last() as nat == y * 256 + b.last() as nat);
        assert(x == y && a.last() == b.last()) by (nonlinear_arith)
            requires
                x * 256 + a.last() as nat == y * 256 + b.last() as nat,
                a.last() < 256,
                b.last() < 256,
        ;
        lemma_be_value_injective(a.drop_last(), b.drop_last());
        assert(a =~= a.drop_last().push(a.last()));
        assert(b =~= b.drop_last().push(b.last()));
    }
}

/// An identifier written on the wire and read back is the same identifier,
/// and a byte string that is read as an identifier is the one written for it.
pub proof fn lemma_id_round_trip(id: u128, bytes: Seq<u8>, written: Seq<u8>)
    requires
        id_of(written) == Some(id),
    ensures
        id_of(bytes) == Some(id) ==> bytes == written,
{
    if id_of(bytes) == Some(id) {
        lemma_be_value_fits(bytes);
        lemma_be_value_fits(written);
        lemma_be_value_injective(bytes, written);
    }
}

/// A string of `n` bytes denotes a number below 256 to the power `n`.
proof fn lemma_be_value_below(bytes: Seq<u8>)
    ensures
        be_value(bytes) < vstd::arithmetic::power::pow(256, bytes.len()),
    decreases bytes.len(),
{
    reveal(vstd::arithmetic::power::pow);
    if bytes.len() > 0 {
        lemma_be_value_below(bytes.drop_last());
        let p = vstd::arithmetic::power::pow(256, (bytes.len() - 1) as nat);
        let v = be_value(bytes.drop_last()) as int;
        let last = bytes.last() as int;
        assert(v * 256 + last < p * 256) by (nonlinear_arith)
            requires
                v < p,
                last < 256,
        ;
        assert(vstd::arithmetic::power::pow(256, bytes.len()) == 256 * p);
    }
}

/// Sixteen bytes denote a number that fits in 128 bits.
proof fn lemma_be_value_fits(bytes: Seq<u8>)
    requires
        bytes.len() == 16,
    ensures
        be_value(bytes) <= u128::MAX,
{
    lemma_be_value_below(bytes);
    assert(vstd::arithmetic::power::pow(256, 16) == 0x1_0000_0000_0000_0000_0000_0000_0000_0000) by {
        reveal_with_fuel(vstd::arithmetic::power::pow, 17);
    }
}

// ---------------------------------------------------------------------------
// Identifiers as text
// ---------------------------------------------------------------------------

/// The `k`-th hexadecimal digit of an identifier, the most significant being
/// digit 0.
pub open spec fn nibble(id: u128, k: int) -> int {
    (id as int / vstd::arithmetic::power::pow(16, (31 - k) as nat)) % 16
}

/// The text of an identifier: its thirty-two hexadecimal digits in lower
/// case, in groups of 8, 4, 4, 4 and 12 with a hyphen between two groups.
pub open spec fn id_text(id: u128) -> Seq<char> {
    Seq::new(
        36,
        |i: int|
            if i == 8 || i == 13 || i == 18 || i == 23 {
                '-'
            } else if i < 8 {
                crate::addr::digit_char(nibble(id, i))
            } else if i < 13 {
                crate::addr::digit_char(nibble(id, i - 1))
            } else if i < 18 {
                crate::addr::digit_char(nibble(id, i - 2))
            } else if i < 23 {
                crate::addr::digit_char(nibble(id, i - 3))
            } else {
                crate::addr::digit_char(nibble(id, i - 4))
            },
    )
}

/// What `uuid::Uuid::parse_str` reads from a text: the value of the UUID, if
/// it reads one.
pub uninterp spec fn uuid_parsed(text: Seq<char>) -> Option<u128>;

/// `uuid::Uuid::from_u128`, then `to_string`: the hyphenated lower-case
/// text of the UUID.
#[verifier::external_body]
fn uuid_to_string(value: u128) -> (r: String)
    ensures
        r@ == id_text(value),
{
    uuid::Uuid::from_u128(value).to_string()
}

/// `uuid::Uuid::parse_str`, then `Uuid::as_u128`. It reads several forms of
/// text; among them the hyphenated one, which it reads back as the UUID that
/// it is the text of.
#[verifier::external_body]
fn uuid_parse_str(text: &str) -> (r: Result<u128, uuid::Error>)
    ensures
        match r {
            Ok(value) => uuid_parsed(text@) == Some(value),
            Err(_) => uuid_parsed(text@) is None,
        },
        forall|id: u128| text@ == #[trigger] id_text(id) ==> r is Ok && r->Ok_0 == id,
{
    match uuid::Uuid::parse_str(text) {
        Ok(u) => Ok(u.as_u128()),
        Err(e) => Err(e),
    }
}

/// Writes an identifier as text, for the host.
pub fn id_to_string(id: u128) -> (r: String)
    ensures
        r@ == id_text(id),
{
    uuid_to_string(id)
}

/// Reads an identifier from a text that the host hands in.
pub fn parse_id(text: &str) -> (r: Result<u128, IdError>)
    ensures
        r == match uuid_parsed(text@) {
            Some(id) => Ok::<u128, IdError>(id),
            None => Err::<u128, IdError>(IdError::BadText),
        },
        forall|id: u128| text@ == #[trigger] id_text(id) ==> r == Ok::<u128, IdError>(id),
{
    match uuid_parse_str(text) {
        Ok(id) => Ok(id),
        Err(_) => Err(IdError::BadText),
    }
}

} // verus!
