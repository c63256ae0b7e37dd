//! Identifiers that name an exchange, a margin account or a market either by
//! numeric id or by on-chain address.
use crate::codec::{address_of_text, address_text, Address, CodecError};
use crate::decimal::{
    decimal_text, lemma_long_zero_free_text_not_u64, lemma_unsigned_round_trip, parse_u32, parse_u64, parse_unsigned_spec,
    unsigned_to_text,
};
use vstd::prelude::*;
use vstd::string::*;

verus! {

pub type ExchangeId = u64;

pub type MarginAccountId = u32;

pub type MarketId = u32;

pub type SettlementRequestId = u64;

/// An exchange, by numeric id or by address. On the wire it is untagged:
/// the inner value's text alone.
#[derive(Clone, Copy, Debug, PartialEq, Eq)]
pub enum ExchangeIdentifier {
    Id(u64),
    Address(Address),
}

impl ExchangeIdentifier {
    /// The text that stands for the identifier on the wire.
    pub open spec fn wire_text(self) -> Seq<char> {
        match self {
            ExchangeIdentifier::Id(id) => decimal_text(id as nat),
            ExchangeIdentifier::Address(a) => address_text(a.bytes@),
        }
    }

    /// Untagged resolution: text that parses as an id is an id, otherwise
    /// text that is an address is an address.
    pub open spec fn resolve(s: Seq<char>) -> Option<Self> {
        match parse_unsigned_spec(s, u64::MAX as nat) {
            Some(v) => Some(ExchangeIdentifier::Id(v as u64)),
            None => match address_of_text(s) {
                Some(a) => Some(ExchangeIdentifier::Address(a)),
                None => None,
            },
        }
    }

    /// The identifier's wire text.
    pub fn to_text(&self) -> (r: String)
        ensures
            r@ == self.wire_text(),
    {
        match self {
            ExchangeIdentifier::Id(id) => unsigned_to_text(*id as u128),
            ExchangeIdentifier::Address(a) => a.to_text(),
        }
    }

    /// Reads an identifier from wire text. The text of an id reads back as that
    /// id and the text of an address as that address: address text is too long
    /// and has no `0`, so it never reads as an id.
    pub fn from_text(s: &str) -> (r: Result<ExchangeIdentifier, CodecError>)
        ensures
            match r {
                Ok(x) => Self::resolve(s@) == Some(x),
                Err(e) => Self::resolve(s@) is None && e is IdentifierParseError
                    && e.text_view() == s@,
            },
            forall|i: u64|
                #[trigger] decimal_text(i as nat) == s@ ==> r == Ok::<ExchangeIdentifier, CodecError>(
                    ExchangeIdentifier::Id(i),
                ),
            forall|a: Address|
                #[trigger] address_text(a.bytes@) == s@ ==> r == Ok::<ExchangeIdentifier, CodecError>(
                    ExchangeIdentifier::Address(a),
                ),
    {
        let address = Address::from_text(s);
        let r = match parse_u64(s) {
            Some(v) => Ok(ExchangeIdentifier::Id(v)),
            None => match address {
                Ok(a) => Ok(ExchangeIdentifier::Address(a)),
                Err(_) => Err(CodecError::IdentifierParseError { raw_text: String::from_str(s) }),
            },
        };
        proof {
            if address is Ok {
                lemma_long_zero_free_text_not_u64(s@, u64::MAX as nat);
            }
        }
        assert forall|i: u64| #[trigger] decimal_text(i as nat) == s@ implies r == Ok::<
            ExchangeIdentifier,
            CodecError,
        >(ExchangeIdentifier::Id(i)) by {
            lemma_unsigned_round_trip(i as nat, u64::MAX as nat);
        }
        r
    }
}

/// A margin account, by numeric id or by address. On the wire it is untagged:
/// the inner value's text alone.
#[derive(Clone, Copy, Debug, PartialEq, Eq)]
pub enum MarginAccountIdentifier {
    Id(u32),
    Address(Address),
}

impl MarginAccountIdentifier {
    /// The text that stands for the identifier on the wire.
    pub open spec fn wire_text(self) -> Seq<char> {
        match self {
            MarginAccountIdentifier::Id(id) => decimal_text(id as nat),
            MarginAccountIdentifier::Address(a) => address_text(a.bytes@),
        }
    }

    /// Untagged resolution: text that parses as an id is an id, otherwise
    /// text that is an address is an address.
    pub open spec fn resolve(s: Seq<char>) -> Option<Self> {
        match parse_unsigned_spec(s, u32::MAX as nat) {
            Some(v) => Some(MarginAccountIdentifier::Id(v as u32)),
            None => match address_of_text(s) {
                Some(a) => Some(MarginAccountIdentifier::Address(a)),
                None => None,
            },
        }
    }

    /// The identifier's wire text.
    pub fn to_text(&self) -> (r: String)
        ensures
            r@ == self.wire_text(),
    {
        match self {
            MarginAccountIdentifier::Id(id) => unsigned_to_text(*id as u128),
            MarginAccountIdentifier::Address(a) => a.to_text(),
        }
    }

    /// Reads an identifier from wire text. The text of an id reads back as that
    /// id and the text of an address as that address: address text is too long
    /// and has no `0`, so it never reads as an id.
    pub fn from_text(s: &str) -> (r: Result<MarginAccountIdentifier, CodecError>)
        ensures
            match r {
                Ok(x) => Self::resolve(s@) == Some(x),
                Err(e) => Self::resolve(s@) is None && e is IdentifierParseError
                    && e.text_view() == s@,
            },
            forall|i: u32|
                #[trigger] decimal_text(i as nat) == s@ ==> r == Ok::<MarginAccountIdentifier, CodecError>(
                    MarginAccountIdentifier::Id(i),
                ),
            forall|a: Address|
                #[trigger] address_text(a.bytes@) == s@ ==> r == Ok::<MarginAccountIdentifier, CodecError>(
                    MarginAccountIdentifier::Address(a),
                ),
    {
        let address = Address::from_text(s);
        let r = match parse_u32(s) {
            Some(v) => Ok(MarginAccountIdentifier::Id(v)),
            None => match address {
                Ok(a) => Ok(MarginAccountIdentifier::Address(a)),
                Err(_) => Err(CodecError::IdentifierParseError { raw_text: String::from_str(s) }),
            },
        };
        proof {
            if address is Ok {
                lemma_long_zero_free_text_not_u64(s@, u32::MAX as nat);
            }
        }
        assert forall|i: u32| #[trigger] decimal_text(i as nat) == s@ implies r == Ok::<
            MarginAccountIdentifier,
            CodecError,
        >(MarginAccountIdentifier::Id(i)) by {
            lemma_unsigned_round_trip(i as nat, u32::MAX as nat);
        }
        r
    }
}

/// A market, by numeric id or by address. On the wire it is untagged:
/// the inner value's text alone.
#[derive(Clone, Copy, Debug, PartialEq, Eq)]
pub enum MarketIdentifier {
    Id(u32),
    Address(Address),
}

impl MarketIdentifier {
    /// The text that stands for the identifier on the wire.
    pub open spec fn wire_text(self) -> Seq<char> {
        match self {
            MarketIdentifier::Id(id) => decimal_text(id as nat),
            MarketIdentifier::Address(a) => address_text(a.bytes@),
        }
    }

    /// Untagged resolution: text that parses as an id is an id, otherwise
    /// text that is an address is an address.
    pub open spec fn resolve(s: Seq<char>) -> Option<Self> {
        match parse_unsigned_spec(s, u32::MAX as nat) {
            Some(v) => Some(MarketIdentifier::Id(v as u32)),
            None => match address_of_text(s) {
                Some(a) => Some(MarketIdentifier::Address(a)),
                None => None,
            },
        }
    }

    /// The identifier's wire text.
    pub fn to_text(&self) -> (r: String)
        ensures
            r@ == self.wire_text(),
    {
        match self {
            MarketIdentifier::Id(id) => unsigned_to_text(*id as u128),
            MarketIdentifier::Address(a) => a.to_text(),
        }
    }

    /// Reads an identifier from wire text. The text of an id reads back as that
    /// id and the text of an address as that address: address text is too long
    /// and has no `0`, so it never reads as an id.
    pub fn from_text(s: &str) -> (r: Result<MarketIdentifier, CodecError>)
        ensures
            match r {
                Ok(x) => Self::resolve(s@) == Some(x),
                Err(e) => Self::resolve(s@) is None && e is IdentifierParseError
                    && e.text_view() == s@,
            },
            forall|i: u32|
                #[trigger] decimal_text(i as nat) == s@ ==> r == Ok::<MarketIdentifier, CodecError>(
                    MarketIdentifier::Id(i),
                ),
            forall|a: Address|
                #[trigger] address_text(a.bytes@) == s@ ==> r == Ok::<MarketIdentifier, CodecError>(
                    MarketIdentifier::Address(a),
                ),
    {
        let address = Address::from_text(s);
        let r = match parse_u32(s) {
            Some(v) => Ok(MarketIdentifier::Id(v)),
            None => match address {
                Ok(a) => Ok(MarketIdentifier::Address(a)),
                Err(_) => Err(CodecError::IdentifierParseError { raw_text: String::from_str(s) }),
            },
        };
        proof {
            if address is Ok {
                lemma_long_zero_free_text_not_u64(s@, u32::MAX as nat);
            }
        }
        assert forall|i: u32| #[trigger] decimal_text(i as nat) == s@ implies r == Ok::<
            MarketIdentifier,
            CodecError,
        >(MarketIdentifier::Id(i)) by {
            lemma_unsigned_round_trip(i as nat, u32::MAX as nat);
        }
        r
    }
}

impl Default for ExchangeIdentifier {
    /// The exchange with numeric id 0.
    fn default() -> (r: Self)
        ensures
            r == ExchangeIdentifier::Id(0),
    {
        ExchangeIdentifier::Id(0)
    }
}

/// Identifier round trip: the wire text of an id resolves to that id.
pub proof fn lemma_id_text_resolves(exchange_id: u64, id: u32)
    ensures
        ExchangeIdentifier::resolve(ExchangeIdentifier::Id(exchange_id).wire_text()) == Some(
            ExchangeIdentifier::Id(exchange_id),
        ),
        MarginAccountIdentifier::resolve(MarginAccountIdentifier::Id(id).wire_text()) == Some(
            MarginAccountIdentifier::Id(id),
        ),
        MarketIdentifier::resolve(MarketIdentifier::Id(id).wire_text()) == Some(
            MarketIdentifier::Id(id),
        ),
{
    lemma_unsigned_round_trip(exchange_id as nat, u64::MAX as nat);
    lemma_unsigned_round_trip(id as nat, u32::MAX as nat);
}

} // verus!
