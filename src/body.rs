//! Request bodies as they go on the wire: every address, identifier, size and
//! price already written as its text, the other numbers as they are.
use crate::codec::{address_text, encode_addresses, encode_optional_u64};
use crate::decimal::{decimal_text, signed_decimal_text, signed_to_text};
use crate::identifier::{ExchangeIdentifier, MarketIdentifier};
use crate::request::{
    CloseMarginAccountPayload, ClosePositionPayload, CreateMarginAccountPayload,
    DepositMarginPayload, LiquidatePayload, MarginAccountsPayload, MarketsPayload,
    ModifyPositionPayload, ModifyPositionQuotePayload, WithdrawMarginPayload,
};
use vstd::prelude::*;

verus! {

/// The text of an optional field.
pub open spec fn text_view(o: Option<String>) -> Option<Seq<char>> {
    match o {
        Some(t) => Some(t@),
        None => None,
    }
}

/// An optional exchange as sent: its bare text, or null.
pub open spec fn exchange_wire(e: Option<ExchangeIdentifier>) -> Option<Seq<char>> {
    match e {
        Some(x) => Some(x.wire_text()),
        None => None,
    }
}

/// An optional price as sent: its decimal text, or null.
pub open spec fn price_wire(p: Option<u64>) -> Option<Seq<char>> {
    match p {
        Some(x) => Some(decimal_text(x as nat)),
        None => None,
    }
}

fn exchange_text(e: &Option<ExchangeIdentifier>) -> (r: Option<String>)
    ensures
        text_view(r) == exchange_wire(*e),
{
    match e {
        Some(x) => Some(x.to_text()),
        None => None,
    }
}

fn market_id_texts(ids: &Vec<MarketIdentifier>) -> (r: Vec<String>)
    ensures
        r@.len() == ids@.len(),
        forall|i: int| 0 <= i < ids@.len() ==> #[trigger] r@[i]@ == ids@[i].wire_text(),
{
    let mut out: Vec<String> = Vec::new();
    let mut i: usize = 0;
    while i < ids.len()
        invariant
            i <= ids@.len(),
            out@.len() == i,
            forall|j: int| 0 <= j < i ==> #[trigger] out@[j]@ == ids@[j].wire_text(),
        decreases ids@.len() - i,
    {
        out.push(ids[i].to_text());
        i = i + 1;
    }
    out
}

/// The JSON body of the batch margin-account lookup.
pub struct MarginAccountsBody {
    pub margin_accounts: Vec<String>,
    pub exchange_id: Option<String>,
}

/// The JSON body of the batch market lookup.
pub struct MarketsBody {
    pub market_ids: Vec<String>,
    pub exchange_id: Option<String>,
}

/// The JSON body of the close-margin-account requests.
pub struct CloseMarginAccountBody {
    pub owner: String,
    pub margin_account_id: String,
    pub exchange_id: Option<String>,
    pub priority_fee_percentile: Option<u16>,
}

/// The JSON body of the close-position requests.
pub struct ClosePositionBody {
    pub owner: String,
    pub margin_account_id: String,
    pub market_id: u32,
    pub acceptable_price: Option<String>,
    pub slippage_tolerance_bps: Option<u16>,
    pub exchange_id: Option<String>,
    pub priority_fee_percentile: Option<u16>,
}

/// The JSON body of the create-margin-account requests.
pub struct CreateMarginAccountBody {
    pub owner: String,
    pub margin_account_id: Option<u32>,
    pub exchange_id: Option<String>,
    pub priority_fee_percentile: Option<u16>,
}

/// The JSON body of the deposit-margin requests.
pub struct DepositMarginBody {
    pub owner: String,
    pub margin_account_id: String,
    pub margin: u64,
    pub exchange_id: Option<String>,
    pub priority_fee_percentile: Option<u16>,
}

/// The JSON body of the modify-position requests.
pub struct ModifyPositionBody {
    pub owner: String,
    pub margin_account_id: String,
    pub market_id: u32,
    pub size_delta: String,
    pub acceptable_price: Option<String>,
    pub slippage_tolerance_bps: Option<u16>,
    pub exchange_id: Option<String>,
    pub priority_fee_percentile: Option<u16>,
}

/// The JSON body of the withdraw-margin requests.
pub struct WithdrawMarginBody {
    pub owner: String,
    pub margin_account_id: String,
    pub margin: u64,
    pub settlement_request_id: Option<u64>,
    pub keeper_tip: Option<u64>,
    pub exchange_id: Option<String>,
    pub priority_fee_percentile: Option<u16>,
}

/// The JSON body of the liquidate requests.
pub struct LiquidateBody {
    pub margin_account_to_liquidate: String,
    pub liquidator: String,
    pub liquidator_margin_account_id: String,
    pub exchange_id: Option<String>,
    pub priority_fee_percentile: Option<u16>,
}

/// The JSON body of the modify-position quote request.
pub struct ModifyPositionQuoteBody {
    pub owner: String,
    pub margin_account_id: String,
    pub market_id: u32,
    pub size_delta: String,
    pub acceptable_price: Option<String>,
    pub slippage_tolerance_bps: Option<u16>,
    pub exchange_id: Option<String>,
}

impl MarginAccountsPayload {
    /// The body as sent.
    pub fn to_body(&self) -> (r: MarginAccountsBody)
        ensures
            r.margin_accounts@.len() == self.margin_accounts@.len(),
            forall|i: int|
                0 <= i < self.margin_accounts@.len() ==> #[trigger] r.margin_accounts@[i]@ == address_text(
                    self.margin_accounts@[i].bytes@,
                ),
            text_view(r.exchange_id) == exchange_wire(self.exchange_id),
    {
        MarginAccountsBody {
            margin_accounts: encode_addresses(&self.margin_accounts),
            exchange_id: exchange_text(&self.exchange_id),
        }
    }
}

impl MarketsPayload {
    /// The body as sent.
    pub fn to_body(&self) -> (r: MarketsBody)
        ensures
            r.market_ids@.len() == self.market_ids@.len(),
            forall|i: int|
                0 <= i < self.market_ids@.len() ==> #[trigger] r.market_ids@[i]@ == self.market_ids@[i].wire_text(),
            text_view(r.exchange_id) == exchange_wire(self.exchange_id),
    {
        MarketsBody {
            market_ids: market_id_texts(&self.market_ids),
            exchange_id: exchange_text(&self.exchange_id),
        }
    }
}

impl CloseMarginAccountPayload {
    /// The body as sent.
    pub fn to_body(&self) -> (r: CloseMarginAccountBody)
        ensures
            r.owner@ == address_text(self.owner.bytes@),
            r.margin_account_id@ == self.margin_account_id.wire_text(),
            text_view(r.exchange_id) == exchange_wire(self.exchange_id),
            r.priority_fee_percentile == self.priority_fee_percentile,
    {
        CloseMarginAccountBody {
            owner: self.owner.to_text(),
            margin_account_id: self.margin_account_id.to_text(),
            exchange_id: exchange_text(&self.exchange_id),
            priority_fee_percentile: self.priority_fee_percentile,
        }
    }
}

impl ClosePositionPayload {
    /// The body as sent.
    pub fn to_body(&self) -> (r: ClosePositionBody)
        ensures
            r.owner@ == address_text(self.owner.bytes@),
            r.margin_account_id@ == self.margin_account_id.wire_text(),
            r.market_id == self.market_id,
            text_view(r.acceptable_price) == price_wire(self.acceptable_price),
            r.slippage_tolerance_bps == self.slippage_tolerance_bps,
            text_view(r.exchange_id) == exchange_wire(self.exchange_id),
            r.priority_fee_percentile == self.priority_fee_percentile,
    {
        ClosePositionBody {
            owner: self.owner.to_text(),
            margin_account_id: self.margin_account_id.to_text(),
            market_id: self.market_id,
            acceptable_price: encode_optional_u64(self.acceptable_price),
            slippage_tolerance_bps: self.slippage_tolerance_bps,
            exchange_id: exchange_text(&self.exchange_id),
            priority_fee_percentile: self.priority_fee_percentile,
        }
    }
}

impl CreateMarginAccountPayload {
    /// The body as sent.
    pub fn to_body(&self) -> (r: CreateMarginAccountBody)
        ensures
            r.owner@ == address_text(self.owner.bytes@),
            r.margin_account_id == self.margin_account_id,
            text_view(r.exchange_id) == exchange_wire(self.exchange_id),
            r.priority_fee_percentile == self.priority_fee_percentile,
    {
        CreateMarginAccountBody {
            owner: self.owner.to_text(),
            margin_account_id: self.margin_account_id,
            exchange_id: exchange_text(&self.exchange_id),
            priority_fee_percentile: self.priority_fee_percentile,
        }
    }
}

impl DepositMarginPayload {
    /// The body as sent.
    pub fn to_body(&self) -> (r: DepositMarginBody)
        ensures
            r.owner@ == address_text(self.owner.bytes@),
            r.margin_account_id@ == self.margin_account_id.wire_text(),
            r.margin == self.margin,
            text_view(r.exchange_id) == exchange_wire(self.exchange_id),
            r.priority_fee_percentile == self.priority_fee_percentile,
    {
        DepositMarginBody {
            owner: self.owner.to_text(),
            margin_account_id: self.margin_account_id.to_text(),
            margin: self.margin,
            exchange_id: exchange_text(&self.exchange_id),
            priority_fee_percentile: self.priority_fee_percentile,
        }
    }
}

impl ModifyPositionPayload {
    /// The body as sent.
    pub fn to_body(&self) -> (r: ModifyPositionBody)
        ensures
            r.owner@ == address_text(self.owner.bytes@),
            r.margin_account_id@ == self.margin_account_id.wire_text(),
            r.market_id == self.market_id,
            r.size_delta@ == signed_decimal_text(self.size_delta as int),
            text_view(r.acceptable_price) == price_wire(self.acceptable_price),
            r.slippage_tolerance_bps == self.slippage_tolerance_bps,
            text_view(r.exchange_id) == exchange_wire(self.exchange_id),
            r.priority_fee_percentile == self.priority_fee_percentile,
    {
        ModifyPositionBody {
            owner: self.owner.to_text(),
            margin_account_id: self.margin_account_id.to_text(),
            market_id: self.market_id,
            size_delta: signed_to_text(self.size_delta),
            acceptable_price: encode_optional_u64(self.acceptable_price),
            slippage_tolerance_bps: self.slippage_tolerance_bps,
            exchange_id: exchange_text(&self.exchange_id),
            priority_fee_percentile: self.priority_fee_percentile,
        }
    }
}

impl WithdrawMarginPayload {
    /// The body as sent.
    pub fn to_body(&self) -> (r: WithdrawMarginBody)
        ensures
            r.owner@ == address_text(self.owner.bytes@),
            r.margin_account_id@ == self.margin_account_id.wire_text(),
            r.margin == self.margin,
            r.settlement_request_id == self.settlement_request_id,
            r.keeper_tip == self.keeper_tip,
            text_view(r.exchange_id) == exchange_wire(self.exchange_id),
            r.priority_fee_percentile == self.priority_fee_percentile,
    {
        WithdrawMarginBody {
            owner: self.owner.to_text(),
            margin_account_id: self.margin_account_id.to_text(),
            margin: self.margin,
            settlement_request_id: self.settlement_request_id,
            keeper_tip: self.keeper_tip,
            exchange_id: exchange_text(&self.exchange_id),
            priority_fee_percentile: self.priority_fee_percentile,
        }
    }
}

impl LiquidatePayload {
    /// The body as sent.
    pub fn to_body(&self) -> (r: LiquidateBody)
        ensures
            r.margin_account_to_liquidate@ == address_text(self.margin_account_to_liquidate.bytes@),
            r.liquidator@ == address_text(self.liquidator.bytes@),
            r.liquidator_margin_account_id@ == self.liquidator_margin_account_id.wire_text(),
            text_view(r.exchange_id) == exchange_wire(self.exchange_id),
            r.priority_fee_percentile == self.priority_fee_percentile,
    {
        LiquidateBody {
            margin_account_to_liquidate: self.margin_account_to_liquidate.to_text(),
            liquidator: self.liquidator.to_text(),
            liquidator_margin_account_id: self.liquidator_margin_account_id.to_text(),
            exchange_id: exchange_text(&self.exchange_id),
            priority_fee_percentile: self.priority_fee_percentile,
        }
    }
}

impl ModifyPositionQuotePayload {
    /// The body as sent.
    pub fn to_body(&self) -> (r: ModifyPositionQuoteBody)
        ensures
            r.owner@ == address_text(self.owner.bytes@),
            r.margin_account_id@ == self.margin_account_id.wire_text(),
            r.market_id == self.market_id,
            r.size_delta@ == signed_decimal_text(self.size_delta as int),
            text_view(r.acceptable_price) == price_wire(self.acceptable_price),
            r.slippage_tolerance_bps == self.slippage_tolerance_bps,
            text_view(r.exchange_id) == exchange_wire(self.exchange_id),
    {
        ModifyPositionQuoteBody {
            owner: self.owner.to_text(),
            margin_account_id: self.margin_account_id.to_text(),
            market_id: self.market_id,
            size_delta: signed_to_text(self.size_delta),
            acceptable_price: encode_optional_u64(self.acceptable_price),
            slippage_tolerance_bps: self.slippage_tolerance_bps,
            exchange_id: exchange_text(&self.exchange_id),
        }
    }
}

} // verus!
