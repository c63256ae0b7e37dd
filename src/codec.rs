//! Field codecs of the wire format: integers as decimal text, byte blobs as
//! standard padded base64, addresses as base58 text, and lists and maps of
//! addresses as lists and maps of their texts.
use crate::decimal::{
    decimal_text, parse_i128, parse_signed_spec, parse_u128, parse_u16, parse_u32, parse_u64,
    parse_unsigned_spec, signed_decimal_text, signed_to_text, unsigned_to_text,
};
use base64::prelude::{Engine, BASE64_STANDARD};
use solana_sdk::pubkey::Pubkey;
use std::collections::HashMap;
use vstd::prelude::*;
use vstd::string::*;

verus! {

broadcast use vstd::std_specs::hash::group_hash_axioms;

/// A 32-byte on-chain address.
#[derive(Clone, Copy, Debug, PartialEq, Eq, Hash)]
pub struct Address {
    pub bytes: [u8; 32],
}

/// Why a wire field could not be decoded; each variant keeps the offending text.
#[derive(Clone, Debug)]
pub enum CodecError {
    InvalidInteger { text: String },
    InvalidBase64 { text: String },
    InvalidAddress { text: String },
    IdentifierParseError { raw_text: String },
}

impl CodecError {
    /// The text that failed to decode.
    pub open spec fn text_view(self) -> Seq<char> {
        match self {
            CodecError::InvalidInteger { text } => text@,
            CodecError::InvalidBase64 { text } => text@,
            CodecError::InvalidAddress { text } => text@,
            CodecError::IdentifierParseError { raw_text } => raw_text@,
        }
    }
}

/// The canonical base58 text of an address's bytes.
pub uninterp spec fn address_text(bytes: Seq<u8>) -> Seq<char>;

/// The standard padded base64 text of a byte string.
pub uninterp spec fn base64_text(bytes: Seq<u8>) -> Seq<char>;

/// A character of the base58 alphabet: digits without `0`, letters without
/// `I`, `O` and `l`.
pub open spec fn is_base58_char(c: char) -> bool {
    ('1' <= c && c <= '9') || ('A' <= c && c <= 'Z' && c != 'I' && c != 'O') || ('a' <= c
        && c <= 'z' && c != 'l')
}

/// What every base58 text of 32 bytes looks like: at least 32 characters (one
/// `1` per leading zero byte, and at least one digit per remaining byte), all
/// of the alphabet.
pub open spec fn is_address_shaped(s: Seq<char>) -> bool {
    &&& s.len() >= 32
    &&& forall|i: int| 0 <= i < s.len() ==> is_base58_char(#[trigger] s[i])
}

/// Relies on `Pubkey`'s `Display` (five8::encode_32): it writes the canonical
/// base58 text of the key's 32 bytes, which depends on the bytes alone and has
/// at least 32 characters of the base58 alphabet.
#[verifier::external_body]
fn pubkey_to_text(a: &Address) -> (r: String)
    ensures
        r@ == address_text(a.bytes@),
        is_address_shaped(r@),
{
    Pubkey::new_from_array(a.bytes).to_string()
}

/// Relies on `Pubkey::from_str` (five8::decode_32): it accepts exactly the
/// canonical base58 texts of 32 bytes (it checks that leading `1`s and leading
/// zero bytes agree and that nothing is left over) and returns those bytes.
/// What it accepts is therefore what `encode_32` writes: 32 or more characters,
/// all of the alphabet (any other character is `InvalidChar`).
#[verifier::external_body]
fn pubkey_from_text(s: &str) -> (r: Option<Address>)
    ensures
        forall|a: Address| #[trigger] address_text(a.bytes@) == s@ <==> r == Some(a),
        r is Some ==> is_address_shaped(s@),
{
    match s.parse::<Pubkey>() {
        Ok(k) => Some(Address { bytes: k.to_bytes() }),
        Err(_) => None,
    }
}

/// Relies on `BASE64_STANDARD.encode`: the padded standard base64 text of the
/// bytes.
#[verifier::external_body]
fn base64_encode(b: &Vec<u8>) -> (r: String)
    ensures
        r@ == base64_text(b@),
{
    BASE64_STANDARD.encode(b)
}

/// Relies on `BASE64_STANDARD.decode`: its configuration requires canonical
/// padding and no trailing bits, so it accepts exactly the texts that `encode`
/// writes and returns the bytes they were written from.
#[verifier::external_body]
fn base64_decode(s: &str) -> (r: Option<Vec<u8>>)
    ensures
        forall|b: Seq<u8>|
            #[trigger] base64_text(b) == s@ <==> (r is Some && r->0@ == b),
{
    BASE64_STANDARD.decode(s).ok()
}

/// The address that `s` is the canonical text of, if any.
pub open spec fn address_of_text(s: Seq<char>) -> Option<Address> {
    if exists|a: Address| #[trigger] address_text(a.bytes@) == s {
        Some(choose|a: Address| #[trigger] address_text(a.bytes@) == s)
    } else {
        None
    }
}

impl Address {
    /// The canonical base58 text of the address.
    pub fn to_text(&self) -> (r: String)
        ensures
            r@ == address_text(self.bytes@),
            is_address_shaped(r@),
    {
        pubkey_to_text(self)
    }

    /// Reads an address from its canonical base58 text.
    pub fn from_text(s: &str) -> (r: Result<Address, CodecError>)
        ensures
            match r {
                Ok(a) => address_of_text(s@) == Some(a) && address_text(a.bytes@) == s@
                    && is_address_shaped(s@),
                Err(e) => address_of_text(s@) is None && e is InvalidAddress && e.text_view()
                    == s@,
            },
            forall|b: Address| #[trigger] address_text(b.bytes@) == s@ ==> r == Ok::<
                Address,
                CodecError,
            >(b),
    {
        match pubkey_from_text(s) {
            Some(a) => {
                assert(address_text(a.bytes@) == s@);
                let ghost c = choose|c: Address| #[trigger] address_text(c.bytes@) == s@;
                assert(address_text(c.bytes@) == s@);
                Ok(a)
            },
            None => {
                assert(!exists|c: Address| #[trigger] address_text(c.bytes@) == s@);
                Err(CodecError::InvalidAddress { text: String::from_str(s) })
            },
        }
    }
}

/// The error for integer text that does not fit.
fn integer_error(s: &str) -> (e: CodecError)
    ensures
        e is InvalidInteger && e.text_view() == s@,
{
    CodecError::InvalidInteger { text: String::from_str(s) }
}

/// Decodes a string-encoded `u16` field.
pub fn decode_u16(s: &str) -> (r: Result<u16, CodecError>)
    ensures
        match r {
            Ok(v) => parse_unsigned_spec(s@, u16::MAX as nat) == Some(v as nat),
            Err(e) => parse_unsigned_spec(s@, u16::MAX as nat) is None && e is InvalidInteger
                && e.text_view() == s@,
        },
{
    match parse_u16(s) {
        Some(v) => Ok(v),
        None => Err(integer_error(s)),
    }
}

/// Decodes a string-encoded `u32` field.
pub fn decode_u32(s: &str) -> (r: Result<u32, CodecError>)
    ensures
        match r {
            Ok(v) => parse_unsigned_spec(s@, u32::MAX as nat) == Some(v as nat),
            Err(e) => parse_unsigned_spec(s@, u32::MAX as nat) is None && e is InvalidInteger
                && e.text_view() == s@,
        },
{
    match parse_u32(s) {
        Some(v) => Ok(v),
        None => Err(integer_error(s)),
    }
}

/// Decodes a string-encoded `u64` field.
pub fn decode_u64(s: &str) -> (r: Result<u64, CodecError>)
    ensures
        match r {
            Ok(v) => parse_unsigned_spec(s@, u64::MAX as nat) == Some(v as nat),
            Err(e) => parse_unsigned_spec(s@, u64::MAX as nat) is None && e is InvalidInteger
                && e.text_view() == s@,
        },
{
    match parse_u64(s) {
        Some(v) => Ok(v),
        None => Err(integer_error(s)),
    }
}

/// Decodes a string-encoded `u128` field.
pub fn decode_u128(s: &str) -> (r: Result<u128, CodecError>)
    ensures
        match r {
            Ok(v) => parse_unsigned_spec(s@, u128::MAX as nat) == Some(v as nat),
            Err(e) => parse_unsigned_spec(s@, u128::MAX as nat) is None && e is InvalidInteger
                && e.text_view() == s@,
        },
{
    match parse_u128(s) {
        Some(v) => Ok(v),
        None => Err(integer_error(s)),
    }
}

/// Decodes a string-encoded `i128` field.
pub fn decode_i128(s: &str) -> (r: Result<i128, CodecError>)
    ensures
        match r {
            Ok(v) => parse_signed_spec(s@, i128::MIN as int, i128::MAX as int) == Some(v as int),
            Err(e) => parse_signed_spec(s@, i128::MIN as int, i128::MAX as int) is None
                && e is InvalidInteger && e.text_view() == s@,
        },
{
    match parse_i128(s) {
        Some(v) => Ok(v),
        None => Err(integer_error(s)),
    }
}

/// Encodes an unsigned integer field as its decimal text.
pub fn encode_unsigned(v: u128) -> (r: String)
    ensures
        r@ == decimal_text(v as nat),
{
    unsigned_to_text(v)
}

/// Encodes a signed integer field as its decimal text.
pub fn encode_signed(v: i128) -> (r: String)
    ensures
        r@ == signed_decimal_text(v as int),
{
    signed_to_text(v)
}

/// Encodes an optional `u64` field: text when present, the wire's null when not.
pub fn encode_optional_u64(v: Option<u64>) -> (r: Option<String>)
    ensures
        match v {
            Some(x) => r is Some && r->0@ == decimal_text(x as nat),
            None => r is None,
        },
{
    match v {
        Some(x) => Some(unsigned_to_text(x as u128)),
        None => None,
    }
}

/// Encodes a byte blob as standard padded base64.
pub fn encode_base64(b: &Vec<u8>) -> (r: String)
    ensures
        r@ == base64_text(b@),
{
    base64_encode(b)
}

/// Decodes a base64 byte blob. The text of any bytes decodes to those bytes.
pub fn decode_base64(s: &str) -> (r: Result<Vec<u8>, CodecError>)
    ensures
        forall|b: Seq<u8>| #[trigger] base64_text(b) == s@ ==> (r is Ok && r->Ok_0@ == b),
        r is Ok ==> base64_text(r->Ok_0@) == s@,
        r is Err ==> r->Err_0 is InvalidBase64 && r->Err_0.text_view() == s@,
{
    match base64_decode(s) {
        Some(v) => {
            assert(base64_text(v@) == s@);
            Ok(v)
        },
        None => Err(CodecError::InvalidBase64 { text: String::from_str(s) }),
    }
}

/// Encodes a list of addresses as the list of their texts.
pub fn encode_addresses(v: &Vec<Address>) -> (r: Vec<String>)
    ensures
        r@.len() == v@.len(),
        forall|i: int| 0 <= i < v@.len() ==> #[trigger] r@[i]@ == address_text(v@[i].bytes@),
{
    let mut out: Vec<String> = Vec::new();
    let mut i: usize = 0;
    while i < v.len()
        invariant
            i <= v@.len(),
            out@.len() == i,
            forall|j: int| 0 <= j < i ==> #[trigger] out@[j]@ == address_text(v@[j].bytes@),
        decreases v@.len() - i,
    {
        out.push(v[i].to_text());
        i = i + 1;
    }
    out
}

/// Decodes a list of address texts, failing at the first text that is not an
/// address.
pub fn decode_addresses(v: &Vec<String>) -> (r: Result<Vec<Address>, CodecError>)
    ensures
        match r {
            Ok(out) => out@.len() == v@.len() && forall|i: int|
                0 <= i < v@.len() ==> address_of_text(v@[i]@) == Some(#[trigger] out@[i]),
            Err(e) => exists|i: int|
                0 <= i < v@.len() && address_of_text(#[trigger] v@[i]@) is None && (forall|j: int|
                    0 <= j < i ==> address_of_text(#[trigger] v@[j]@) is Some) && e is InvalidAddress
                    && e.text_view() == v@[i]@,
        },
{
    let mut out: Vec<Address> = Vec::new();
    let mut i: usize = 0;
    while i < v.len()
        invariant
            i <= v@.len(),
            out@.len() == i,
            forall|j: int| 0 <= j < i ==> address_of_text(v@[j]@) == Some(#[trigger] out@[j]),
        decreases v@.len() - i,
    {
        match Address::from_text(v[i].as_str()) {
            Ok(a) => out.push(a),
            Err(e) => {
                assert(address_of_text(v@[i as int]@) is None);
                assert forall|j: int| 0 <= j < i implies address_of_text(
                    #[trigger] v@[j]@,
                ) is Some by {
                    assert(address_of_text(v@[j]@) == Some(out@[j]));
                }
                return Err(e);
            },
        }
        i = i + 1;
    }
    Ok(out)
}

/// The market id that an entry's key spells, if it fits.
pub open spec fn entry_key(e: (String, String)) -> Option<nat> {
    parse_unsigned_spec(e.0@, u32::MAX as nat)
}

/// Whether both halves of a map entry decode.
pub open spec fn entry_decodes(e: (String, String)) -> bool {
    entry_key(e) is Some && address_of_text(e.1@) is Some
}

/// The map that decoded entries build, a later entry taking the place of an
/// earlier one with the same id.
pub open spec fn entries_map(e: Seq<(String, String)>) -> Map<u32, Address>
    decreases e.len(),
{
    if e.len() == 0 {
        Map::empty()
    } else {
        entries_map(e.drop_last()).insert(
            entry_key(e.last())->0 as u32,
            address_of_text(e.last().1@)->0,
        )
    }
}

/// Decodes a map from market id text to address text.
pub fn decode_address_map(entries: &Vec<(String, String)>) -> (r: Result<
    HashMap<u32, Address>,
    CodecError,
>)
    ensures
        match r {
            Ok(m) => (forall|i: int| 0 <= i < entries@.len() ==> entry_decodes(#[trigger] entries@[i]))
                && m@ == entries_map(entries@),
            Err(e) => exists|i: int|
                0 <= i < entries@.len() && !entry_decodes(#[trigger] entries@[i]) && (e is InvalidInteger
                    ==> e.text_view() == entries@[i].0@) && (e is InvalidAddress ==> e.text_view()
                    == entries@[i].1@) && (e is InvalidInteger || e is InvalidAddress),
        },
{
    let mut m: HashMap<u32, Address> = HashMap::new();
    let mut i: usize = 0;
    while i < entries.len()
        invariant
            i <= entries@.len(),
            forall|j: int| 0 <= j < i ==> entry_decodes(#[trigger] entries@[j]),
            m@ == entries_map(entries@.subrange(0, i as int)),
        decreases entries@.len() - i,
    {
        let ghost prefix = entries@.subrange(0, i as int + 1);
        let key = match decode_u32(entries[i].0.as_str()) {
            Ok(k) => k,
            Err(e) => {
                return Err(e);
            },
        };
        let address = match Address::from_text(entries[i].1.as_str()) {
            Ok(a) => a,
            Err(e) => {
                return Err(e);
            },
        };
        m.insert(key, address);
        proof {
            assert(prefix.drop_last() =~= entries@.subrange(0, i as int));
            assert(prefix.last() == entries@[i as int]);
        }
        i = i + 1;
    }
    assert(entries@.subrange(0, entries@.len() as int) =~= entries@);
    Ok(m)
}

} // verus!
