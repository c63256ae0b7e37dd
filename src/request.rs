//! Request payloads and the choices that shape them.
use crate::codec::{encode_optional_u64, Address};
use crate::decimal::decimal_text;
use crate::identifier::{
    ExchangeIdentifier, MarginAccountId, MarginAccountIdentifier, MarketId, MarketIdentifier,
    SettlementRequestId,
};
use vstd::prelude::*;

verus! {

/// Which shape the market-id endpoint is asked to answer in.
#[derive(Clone, Copy, Debug, PartialEq, Eq, Structural)]
pub enum MarketIdentifiersResponseKind {
    IdMap,
    Addresses,
    Ids,
}

impl MarketIdentifiersResponseKind {
    /// The discriminator's text in a query string.
    pub open spec fn text(self) -> Seq<char> {
        match self {
            MarketIdentifiersResponseKind::IdMap => seq!['m', 'a', 'p'],
            MarketIdentifiersResponseKind::Addresses => seq![
                'a',
                'd',
                'd',
                'r',
                'e',
                's',
                's',
                'e',
                's',
            ],
            MarketIdentifiersResponseKind::Ids => seq!['i', 'd', 's'],
        }
    }

    /// The discriminator's text in a query string.
    pub fn as_str(&self) -> (r: &'static str)
        ensures
            r@ == self.text(),
    {
        proof {
            reveal_strlit("map");
            reveal_strlit("addresses");
            reveal_strlit("ids");
        }
        match self {
            MarketIdentifiersResponseKind::IdMap => "map",
            MarketIdentifiersResponseKind::Addresses => "addresses",
            MarketIdentifiersResponseKind::Ids => "ids",
        }
    }

    /// The discriminator's text, owned.
    pub fn to_text(&self) -> (r: String)
        ensures
            r@ == self.text(),
    {
        String::from_str(self.as_str())
    }
}

impl Default for MarketIdentifiersResponseKind {
    /// The map shape is asked for when nothing else is said.
    fn default() -> (r: Self)
        ensures
            r == MarketIdentifiersResponseKind::IdMap,
    {
        MarketIdentifiersResponseKind::IdMap
    }
}

/// How much the price may move against a position change: an absolute
/// acceptable price, or a tolerance in basis points. Exactly one is given.
#[derive(Clone, Copy, Debug, PartialEq, Eq, Structural)]
pub enum SlippageSetting {
    AcceptablePrice(u64),
    SlippageToleranceBps(u16),
}

impl SlippageSetting {
    /// The pair of wire fields `(acceptable_price, slippage_tolerance_bps)`:
    /// the chosen one set, the other empty.
    pub open spec fn fields(self) -> (Option<u64>, Option<u16>) {
        match self {
            SlippageSetting::AcceptablePrice(price) => (Some(price), None),
            SlippageSetting::SlippageToleranceBps(bps) => (None, Some(bps)),
        }
    }

    /// The pair of wire fields `(acceptable_price, slippage_tolerance_bps)`.
    pub fn as_request_fields(&self) -> (r: (Option<u64>, Option<u16>))
        ensures
            r == self.fields(),
            r.0 is Some != r.1 is Some,
    {
        match self {
            SlippageSetting::AcceptablePrice(price) => (Some(*price), None),
            SlippageSetting::SlippageToleranceBps(bps) => (None, Some(*bps)),
        }
    }

    /// The wire fields as sent: the price as decimal text, the tolerance as a
    /// number, and the one not chosen as null.
    pub fn wire_fields(&self) -> (r: (Option<String>, Option<u16>))
        ensures
            match *self {
                SlippageSetting::AcceptablePrice(price) => r.0 is Some && r.0->0@ == decimal_text(
                    price as nat,
                ) && r.1 is None,
                SlippageSetting::SlippageToleranceBps(bps) => r.0 is None && r.1 == Some(bps),
            },
    {
        let (price, bps) = self.as_request_fields();
        (encode_optional_u64(price), bps)
    }
}

/// Body of the batch margin-account lookup.
pub struct MarginAccountsPayload {
    pub margin_accounts: Vec<Address>,
    pub exchange_id: Option<ExchangeIdentifier>,
}

/// Body of the batch market lookup.
pub struct MarketsPayload {
    pub market_ids: Vec<MarketIdentifier>,
    pub exchange_id: Option<ExchangeIdentifier>,
}

/// Body of the close-margin-account requests.
pub struct CloseMarginAccountPayload {
    pub owner: Address,
    pub margin_account_id: MarginAccountIdentifier,
    pub exchange_id: Option<ExchangeIdentifier>,
    pub priority_fee_percentile: Option<u16>,
}

/// Body of the close-position requests.
pub struct ClosePositionPayload {
    pub owner: Address,
    pub margin_account_id: MarginAccountIdentifier,
    pub market_id: MarketId,
    pub acceptable_price: Option<u64>,
    pub slippage_tolerance_bps: Option<u16>,
    pub exchange_id: Option<ExchangeIdentifier>,
    pub priority_fee_percentile: Option<u16>,
}

/// Body of the create-margin-account requests.
pub struct CreateMarginAccountPayload {
    pub owner: Address,
    pub margin_account_id: Option<MarginAccountId>,
    pub exchange_id: Option<ExchangeIdentifier>,
    pub priority_fee_percentile: Option<u16>,
}

/// Body of the deposit-margin requests.
pub struct DepositMarginPayload {
    pub owner: Address,
    pub margin_account_id: MarginAccountIdentifier,
    pub margin: u64,
    pub exchange_id: Option<ExchangeIdentifier>,
    pub priority_fee_percentile: Option<u16>,
}

/// Body of the modify-position requests.
pub struct ModifyPositionPayload {
    pub owner: Address,
    pub margin_account_id: MarginAccountIdentifier,
    pub market_id: MarketId,
    pub size_delta: i128,
    pub acceptable_price: Option<u64>,
    pub slippage_tolerance_bps: Option<u16>,
    pub exchange_id: Option<ExchangeIdentifier>,
    pub priority_fee_percentile: Option<u16>,
}

impl ModifyPositionPayload {
    /// A payload with the slippage fields taken from `slippage_setting` and
    /// neither exchange nor priority fee given.
    pub fn new_with_defaults(
        owner: Address,
        margin_account_id: MarginAccountIdentifier,
        market_id: MarketId,
        size_delta: i128,
        slippage_setting: SlippageSetting,
    ) -> (r: Self)
        ensures
            r.owner == owner,
            r.margin_account_id == margin_account_id,
            r.market_id == market_id,
            r.size_delta == size_delta,
            (r.acceptable_price, r.slippage_tolerance_bps) == slippage_setting.fields(),
            r.exchange_id is None,
            r.priority_fee_percentile is None,
    {
        let (acceptable_price, slippage_tolerance_bps) = slippage_setting.as_request_fields();
        ModifyPositionPayload {
            owner,
            margin_account_id,
            market_id,
            size_delta,
            acceptable_price,
            slippage_tolerance_bps,
            exchange_id: None,
            priority_fee_percentile: None,
        }
    }
}

/// Body of the withdraw-margin requests.
pub struct WithdrawMarginPayload {
    pub owner: Address,
    pub margin_account_id: MarginAccountIdentifier,
    pub margin: u64,
    pub settlement_request_id: Option<SettlementRequestId>,
    pub keeper_tip: Option<u64>,
    pub exchange_id: Option<ExchangeIdentifier>,
    pub priority_fee_percentile: Option<u16>,
}

/// Body of the liquidate requests.
pub struct LiquidatePayload {
    pub margin_account_to_liquidate: Address,
    pub liquidator: Address,
    pub liquidator_margin_account_id: MarginAccountIdentifier,
    pub exchange_id: Option<ExchangeIdentifier>,
    pub priority_fee_percentile: Option<u16>,
}

/// Body of the modify-position quote request.
pub struct ModifyPositionQuotePayload {
    pub owner: Address,
    pub margin_account_id: MarginAccountIdentifier,
    pub market_id: MarketId,
    pub size_delta: i128,
    pub acceptable_price: Option<u64>,
    pub slippage_tolerance_bps: Option<u16>,
    pub exchange_id: Option<ExchangeIdentifier>,
}

impl ModifyPositionQuotePayload {
    /// A quote payload with the slippage fields taken from `slippage_setting`
    /// and no exchange given.
    pub fn new_with_defaults(
        owner: Address,
        margin_account_id: MarginAccountIdentifier,
        market_id: MarketId,
        size_delta: i128,
        slippage_setting: SlippageSetting,
    ) -> (r: Self)
        ensures
            r.owner == owner,
            r.margin_account_id == margin_account_id,
            r.market_id == market_id,
            r.size_delta == size_delta,
            (r.acceptable_price, r.slippage_tolerance_bps) == slippage_setting.fields(),
            r.exchange_id is None,
    {
        let (acceptable_price, slippage_tolerance_bps) = slippage_setting.as_request_fields();
        ModifyPositionQuotePayload {
            owner,
            margin_account_id,
            market_id,
            size_delta,
            acceptable_price,
            slippage_tolerance_bps,
            exchange_id: None,
        }
    }
}

} // verus!
