//! What the client decides around each round trip: the request it sends
//! (address, query, body) and how it reads the status and the answer.
use crate::codec::{address_text, Address};
use crate::identifier::{
    ExchangeIdentifier, MarginAccountId, MarginAccountIdentifier, MarketId, MarketIdentifier,
    SettlementRequestId,
};
use crate::request::{
    CloseMarginAccountPayload, ClosePositionPayload, CreateMarginAccountPayload,
    DepositMarginPayload, LiquidatePayload, MarginAccountsPayload, MarketIdentifiersResponseKind,
    MarketsPayload, ModifyPositionPayload, ModifyPositionQuotePayload, SlippageSetting,
    WithdrawMarginPayload,
};
use crate::response::MarketIdentifiersResponse;
use std::collections::HashMap;
use vstd::prelude::*;
use vstd::string::*;

verus! {

pub const EXCHANGE_PATH: &'static str = "/exchange";

pub const EXPONENTS_PATH: &'static str = "/exponents";

pub const MARKET_IDS_PATH: &'static str = "/market-ids";

pub const MARGIN_ACCOUNT_PATH: &'static str = "/margin-account";

pub const MARGIN_ACCOUNTS_PATH: &'static str = "/margin-accounts";

pub const UNHEALTHY_MARGIN_ACCOUNTS_PATH: &'static str = "/unhealthy-margin-accounts";

pub const MARKET_PATH: &'static str = "/market";

pub const MARKETS_PATH: &'static str = "/markets";

pub const CREATE_MARGIN_ACCOUNT_TRANSACTION_PATH: &'static str = "/create-margin-account-transaction";

pub const CREATE_MARGIN_ACCOUNT_INSTRUCTIONS_PATH: &'static str = "/create-margin-account-instructions";

pub const CLOSE_MARGIN_ACCOUNT_TRANSACTION_PATH: &'static str = "/close-margin-account-transaction";

pub const CLOSE_MARGIN_ACCOUNT_INSTRUCTIONS_PATH: &'static str = "/close-margin-account-instructions";

pub const DEPOSIT_MARGIN_TRANSACTION_PATH: &'static str = "/deposit-margin-transaction";

pub const DEPOSIT_MARGIN_INSTRUCTIONS_PATH: &'static str = "/deposit-margin-instructions";

pub const WITHDRAW_MARGIN_TRANSACTION_PATH: &'static str = "/withdraw-margin-transaction";

pub const WITHDRAW_MARGIN_INSTRUCTIONS_PATH: &'static str = "/withdraw-margin-instructions";

pub const MODIFY_POSITION_TRANSACTION_PATH: &'static str = "/modify-position-transaction";

pub const MODIFY_POSITION_INSTRUCTIONS_PATH: &'static str = "/modify-position-instructions";

pub const CLOSE_POSITION_TRANSACTION_PATH: &'static str = "/close-position-transaction";

pub const CLOSE_POSITION_INSTRUCTIONS_PATH: &'static str = "/close-position-instructions";

pub const LIQUIDATE_TRANSACTION_PATH: &'static str = "/liquidate-transaction";

pub const LIQUIDATE_INSTRUCTIONS_PATH: &'static str = "/liquidate-instructions";

pub const MODIFY_POSITION_QUOTE_PATH: &'static str = "/modify-position-quote";

/// Why a call failed after the transport delivered an answer.
#[derive(Debug)]
pub enum ParclV3ApiClientError {
    /// The market-id endpoint answered in another shape than the one asked for.
    MarketIdsResponse(MarketIdentifiersResponseKind),
    /// The server answered with a status outside 200..=299; the body is kept
    /// as it came.
    Request(u16, String),
}

/// Settings a client is made with.
pub struct ParclV3ApiClientConfig {
    pub base_url: String,
    pub exchange_id: Option<ExchangeIdentifier>,
    pub priority_fee_percentile: Option<u16>,
}

/// One query-string pair; a pair without a value is left out of the query.
pub struct QueryParam {
    pub key: String,
    pub value: Option<String>,
}

impl QueryParam {
    pub open spec fn view_pair(self) -> (Seq<char>, Option<Seq<char>>) {
        (
            self.key@,
            match self.value {
                Some(v) => Some(v@),
                None => None,
            },
        )
    }
}

/// The key and value texts of a query, in order.
pub open spec fn query_view(q: Seq<QueryParam>) -> Seq<(Seq<char>, Option<Seq<char>>)> {
    q.map_values(|p: QueryParam| p.view_pair())
}

/// A `GET` request: its address and query.
pub struct GetRequest {
    pub url: String,
    pub query: Vec<QueryParam>,
}

/// A `POST` request: its address and the payload sent as its body.
pub struct PostRequest<B> {
    pub url: String,
    pub body: B,
}

/// The fixed state of a client: where the API lives, which exchange every
/// request names, and the priority-fee hint for mutating requests.
pub struct RequestBuilder {
    base_url: String,
    exchange_id: ExchangeIdentifier,
    priority_fee_percentile: Option<u16>,
}

/// A query pair with a value.
fn param(key: &str, value: String) -> (r: QueryParam)
    ensures
        r.view_pair() == (key@, Some(value@)),
{
    QueryParam { key: String::from_str(key), value: Some(value) }
}

impl RequestBuilder {
    /// The base address of the API.
    pub closed spec fn base(&self) -> Seq<char> {
        self.base_url@
    }

    /// The exchange that every request names.
    pub closed spec fn exchange(&self) -> ExchangeIdentifier {
        self.exchange_id
    }

    /// The priority-fee hint that mutating requests carry.
    pub closed spec fn fee_percentile(&self) -> Option<u16> {
        self.priority_fee_percentile
    }

    /// The query pair that names the exchange.
    pub open spec fn exchange_pair(&self) -> (Seq<char>, Option<Seq<char>>) {
        ("exchange_id"@, Some(self.exchange().wire_text()))
    }

    /// A client state from its settings; without an exchange the one with
    /// numeric id 0 is used.
    pub fn new(config: ParclV3ApiClientConfig) -> (r: RequestBuilder)
        ensures
            r.base() == config.base_url@,
            r.exchange() == match config.exchange_id {
                Some(e) => e,
                None => ExchangeIdentifier::Id(0),
            },
            r.fee_percentile() == config.priority_fee_percentile,
    {
        let exchange_id = match config.exchange_id {
            Some(e) => e,
            None => ExchangeIdentifier::default(),
        };
        RequestBuilder {
            base_url: config.base_url,
            exchange_id,
            priority_fee_percentile: config.priority_fee_percentile,
        }
    }

    /// The exchange that every request names.
    pub fn exchange_id(&self) -> (r: ExchangeIdentifier)
        ensures
            r == self.exchange(),
    {
        self.exchange_id
    }

    /// The priority-fee hint that mutating requests carry.
    pub fn priority_fee_percentile(&self) -> (r: Option<u16>)
        ensures
            r == self.fee_percentile(),
    {
        self.priority_fee_percentile
    }

    /// The full address of an endpoint.
    pub fn build_url(&self, path: &str) -> (r: String)
        ensures
            r@ == self.base() + path@,
    {
        let mut url = self.base_url.clone();
        url.append(path);
        url
    }

    /// The query pair that names the exchange.
    fn exchange_param(&self) -> (r: QueryParam)
        ensures
            r.view_pair() == self.exchange_pair(),
    {
        proof {
            reveal_strlit("exchange_id");
        }
        param("exchange_id", self.exchange_id.to_text())
    }

    /// A `GET` of `path` whose only query pair names the exchange.
    fn exchange_get(&self, path: &str) -> (r: GetRequest)
        ensures
            r.url@ == self.base() + path@,
            query_view(r.query@) == seq![self.exchange_pair()],
    {
        let query = vec![self.exchange_param()];
        let r = GetRequest { url: self.build_url(path), query };
        assert(query_view(r.query@) =~= seq![self.exchange_pair()]);
        r
    }

    /// The request for the exchange's snapshot.
    pub fn exchange_request(&self) -> (r: GetRequest)
        ensures
            r.url@ == self.base() + EXCHANGE_PATH@,
            query_view(r.query@) == seq![self.exchange_pair()],
    {
        self.exchange_get(EXCHANGE_PATH)
    }

    /// The request for the table of price exponents.
    pub fn exponents_request(&self) -> (r: GetRequest)
        ensures
            r.url@ == self.base() + EXPONENTS_PATH@,
            query_view(r.query@) == seq![self.exchange_pair()],
    {
        self.exchange_get(EXPONENTS_PATH)
    }

    /// The request for the list of unhealthy margin accounts.
    pub fn unhealthy_margin_accounts_request(&self) -> (r: GetRequest)
        ensures
            r.url@ == self.base() + UNHEALTHY_MARGIN_ACCOUNTS_PATH@,
            query_view(r.query@) == seq![self.exchange_pair()],
    {
        self.exchange_get(UNHEALTHY_MARGIN_ACCOUNTS_PATH)
    }

    /// The request for the market ids in the shape `response_kind`.
    pub fn market_ids_request(&self, response_kind: MarketIdentifiersResponseKind) -> (r:
        GetRequest)
        ensures
            r.url@ == self.base() + MARKET_IDS_PATH@,
            query_view(r.query@) == seq![
                ("response_kind"@, Some(response_kind.text())),
                self.exchange_pair(),
            ],
    {
        proof {
            reveal_strlit("response_kind");
        }
        let query = vec![param("response_kind", response_kind.to_text()), self.exchange_param()];
        let r = GetRequest { url: self.build_url(MARKET_IDS_PATH), query };
        assert(query_view(r.query@) =~= seq![
            ("response_kind"@, Some(response_kind.text())),
            self.exchange_pair(),
        ]);
        r
    }

    /// The request for one margin account, by id together with its owner or
    /// by address.
    pub fn margin_account_request(
        &self,
        margin_account_id: MarginAccountIdentifier,
        owner: Option<Address>,
    ) -> (r: GetRequest)
        ensures
            r.url@ == self.base() + MARGIN_ACCOUNT_PATH@,
            query_view(r.query@) == seq![
                ("margin_account_id"@, Some(margin_account_id.wire_text())),
                (
                    "owner"@,
                    match owner {
                        Some(o) => Some(address_text(o.bytes@)),
                        None => None,
                    },
                ),
                self.exchange_pair(),
            ],
    {
        proof {
            reveal_strlit("margin_account_id");
            reveal_strlit("owner");
        }
        let owner_text = match owner {
            Some(o) => Some(o.to_text()),
            None => None,
        };
        let query = vec![
            param("margin_account_id", margin_account_id.to_text()),
            QueryParam { key: String::from_str("owner"), value: owner_text },
            self.exchange_param(),
        ];
        let r = GetRequest { url: self.build_url(MARGIN_ACCOUNT_PATH), query };
        assert(query_view(r.query@) =~= seq![
            ("margin_account_id"@, Some(margin_account_id.wire_text())),
            (
                "owner"@,
                match owner {
                    Some(o) => Some(address_text(o.bytes@)),
                    None => None,
                },
            ),
            self.exchange_pair(),
        ]);
        r
    }

    /// The request for one margin account by id and owner.
    pub fn margin_account_from_id_request(&self, owner: Address, margin_account_id: MarginAccountId) -> (r: GetRequest)
        ensures
            r.url@ == self.base() + MARGIN_ACCOUNT_PATH@,
            query_view(r.query@) == seq![
                ("margin_account_id"@, Some(MarginAccountIdentifier::Id(margin_account_id).wire_text())),
                ("owner"@, Some(address_text(owner.bytes@))),
                self.exchange_pair(),
            ],
    {
        self.margin_account_request(MarginAccountIdentifier::Id(margin_account_id), Some(owner))
    }

    /// The request for one margin account by address.
    pub fn margin_account_from_address_request(&self, address: Address) -> (r: GetRequest)
        ensures
            r.url@ == self.base() + MARGIN_ACCOUNT_PATH@,
            query_view(r.query@) == seq![
                ("margin_account_id"@, Some(address_text(address.bytes@))),
                ("owner"@, None),
                self.exchange_pair(),
            ],
    {
        self.margin_account_request(MarginAccountIdentifier::Address(address), None)
    }

    /// The request for one market.
    pub fn market_request(&self, market_id: MarketIdentifier) -> (r: GetRequest)
        ensures
            r.url@ == self.base() + MARKET_PATH@,
            query_view(r.query@) == seq![
                ("market_id"@, Some(market_id.wire_text())),
                self.exchange_pair(),
            ],
    {
        proof {
            reveal_strlit("market_id");
        }
        let query = vec![param("market_id", market_id.to_text()), self.exchange_param()];
        let r = GetRequest { url: self.build_url(MARKET_PATH), query };
        assert(query_view(r.query@) =~= seq![
            ("market_id"@, Some(market_id.wire_text())),
            self.exchange_pair(),
        ]);
        r
    }

    /// The batch lookup of margin accounts by address, in the order given.
    pub fn margin_accounts_request(&self, margin_accounts: &Vec<Address>) -> (r: PostRequest<
        MarginAccountsPayload,
    >)
        ensures
            r.url@ == self.base() + MARGIN_ACCOUNTS_PATH@,
            r.body.margin_accounts@ == margin_accounts@,
            r.body.exchange_id == Some(self.exchange()),
    {
        PostRequest {
            url: self.build_url(MARGIN_ACCOUNTS_PATH),
            body: MarginAccountsPayload {
                margin_accounts: copy_all(margin_accounts),
                exchange_id: Some(self.exchange_id),
            },
        }
    }

    /// The batch lookup of markets, in the order given.
    pub fn markets_request(&self, market_ids: &Vec<MarketIdentifier>) -> (r: PostRequest<
        MarketsPayload,
    >)
        ensures
            r.url@ == self.base() + MARKETS_PATH@,
            r.body.market_ids@ == market_ids@,
            r.body.exchange_id == Some(self.exchange()),
    {
        PostRequest {
            url: self.build_url(MARKETS_PATH),
            body: MarketsPayload {
                market_ids: copy_all(market_ids),
                exchange_id: Some(self.exchange_id),
            },
        }
    }

    /// The body of both create-margin-account requests.
    pub fn create_margin_account_payload(
        &self,
        owner: Address,
        margin_account_id: Option<MarginAccountId>,
    ) -> (r: CreateMarginAccountPayload)
        ensures
            r.owner == owner,
            r.margin_account_id == margin_account_id,
            r.exchange_id == Some(self.exchange()),
            r.priority_fee_percentile == self.fee_percentile(),
    {
        CreateMarginAccountPayload {
            owner,
            margin_account_id,
            exchange_id: Some(self.exchange_id),
            priority_fee_percentile: self.priority_fee_percentile,
        }
    }

    /// The body of both close-margin-account requests.
    pub fn close_margin_account_payload(
        &self,
        owner: Address,
        margin_account_id: MarginAccountIdentifier,
    ) -> (r: CloseMarginAccountPayload)
        ensures
            r.owner == owner,
            r.margin_account_id == margin_account_id,
            r.exchange_id == Some(self.exchange()),
            r.priority_fee_percentile == self.fee_percentile(),
    {
        CloseMarginAccountPayload {
            owner,
            margin_account_id,
            exchange_id: Some(self.exchange_id),
            priority_fee_percentile: self.priority_fee_percentile,
        }
    }

    /// The body of both deposit-margin requests.
    pub fn deposit_margin_payload(
        &self,
        owner: Address,
        margin_account_id: MarginAccountIdentifier,
        margin: u64,
    ) -> (r: DepositMarginPayload)
        ensures
            r.owner == owner,
            r.margin_account_id == margin_account_id,
            r.margin == margin,
            r.exchange_id == Some(self.exchange()),
            r.priority_fee_percentile == self.fee_percentile(),
    {
        DepositMarginPayload {
            owner,
            margin_account_id,
            margin,
            exchange_id: Some(self.exchange_id),
            priority_fee_percentile: self.priority_fee_percentile,
        }
    }

    /// The body of both withdraw-margin requests.
    pub fn withdraw_margin_payload(
        &self,
        owner: Address,
        margin_account_id: MarginAccountIdentifier,
        margin: u64,
        settlement_request_id: Option<SettlementRequestId>,
        keeper_tip: Option<u64>,
    ) -> (r: WithdrawMarginPayload)
        ensures
            r.owner == owner,
            r.margin_account_id == margin_account_id,
            r.margin == margin,
            r.settlement_request_id == settlement_request_id,
            r.keeper_tip == keeper_tip,
            r.exchange_id == Some(self.exchange()),
            r.priority_fee_percentile == self.fee_percentile(),
    {
        WithdrawMarginPayload {
            owner,
            margin_account_id,
            margin,
            settlement_request_id,
            keeper_tip,
            exchange_id: Some(self.exchange_id),
            priority_fee_percentile: self.priority_fee_percentile,
        }
    }

    /// The body of both modify-position requests.
    pub fn modify_position_payload(
        &self,
        owner: Address,
        margin_account_id: MarginAccountIdentifier,
        market_id: MarketId,
        size_delta: i128,
        slippage_setting: SlippageSetting,
    ) -> (r: ModifyPositionPayload)
        ensures
            r.owner == owner,
            r.margin_account_id == margin_account_id,
            r.market_id == market_id,
            r.size_delta == size_delta,
            (r.acceptable_price, r.slippage_tolerance_bps) == slippage_setting.fields(),
            r.exchange_id == Some(self.exchange()),
            r.priority_fee_percentile == self.fee_percentile(),
    {
        let (acceptable_price, slippage_tolerance_bps) = slippage_setting.as_request_fields();
        ModifyPositionPayload {
            owner,
            margin_account_id,
            market_id,
            size_delta,
            acceptable_price,
            slippage_tolerance_bps,
            exchange_id: Some(self.exchange_id),
            priority_fee_percentile: self.priority_fee_percentile,
        }
    }

    /// The body of both close-position requests.
    pub fn close_position_payload(
        &self,
        owner: Address,
        margin_account_id: MarginAccountIdentifier,
        market_id: MarketId,
        slippage_setting: SlippageSetting,
    ) -> (r: ClosePositionPayload)
        ensures
            r.owner == owner,
            r.margin_account_id == margin_account_id,
            r.market_id == market_id,
            (r.acceptable_price, r.slippage_tolerance_bps) == slippage_setting.fields(),
            r.exchange_id == Some(self.exchange()),
            r.priority_fee_percentile == self.fee_percentile(),
    {
        let (acceptable_price, slippage_tolerance_bps) = slippage_setting.as_request_fields();
        ClosePositionPayload {
            owner,
            margin_account_id,
            market_id,
            acceptable_price,
            slippage_tolerance_bps,
            exchange_id: Some(self.exchange_id),
            priority_fee_percentile: self.priority_fee_percentile,
        }
    }

    /// The body of both liquidate requests.
    pub fn liquidate_payload(
        &self,
        margin_account_to_liquidate: Address,
        liquidator: Address,
        liquidator_margin_account_id: MarginAccountIdentifier,
    ) -> (r: LiquidatePayload)
        ensures
            r.margin_account_to_liquidate == margin_account_to_liquidate,
            r.liquidator == liquidator,
            r.liquidator_margin_account_id == liquidator_margin_account_id,
            r.exchange_id == Some(self.exchange()),
            r.priority_fee_percentile == self.fee_percentile(),
    {
        LiquidatePayload {
            margin_account_to_liquidate,
            liquidator,
            liquidator_margin_account_id,
            exchange_id: Some(self.exchange_id),
            priority_fee_percentile: self.priority_fee_percentile,
        }
    }

    /// The body of the modify-position quote request; a quote carries no
    /// priority fee.
    pub fn modify_position_quote_payload(
        &self,
        owner: Address,
        margin_account_id: MarginAccountIdentifier,
        market_id: MarketId,
        size_delta: i128,
        slippage_setting: SlippageSetting,
    ) -> (r: ModifyPositionQuotePayload)
        ensures
            r.owner == owner,
            r.margin_account_id == margin_account_id,
            r.market_id == market_id,
            r.size_delta == size_delta,
            (r.acceptable_price, r.slippage_tolerance_bps) == slippage_setting.fields(),
            r.exchange_id == Some(self.exchange()),
    {
        let (acceptable_price, slippage_tolerance_bps) = slippage_setting.as_request_fields();
        ModifyPositionQuotePayload {
            owner,
            margin_account_id,
            market_id,
            size_delta,
            acceptable_price,
            slippage_tolerance_bps,
            exchange_id: Some(self.exchange_id),
        }
    }
}

/// A copy of a list of plain values.
fn copy_all<T: Copy>(v: &Vec<T>) -> (r: Vec<T>)
    ensures
        r@ == v@,
{
    let mut out: Vec<T> = Vec::new();
    let mut i: usize = 0;
    while i < v.len()
        invariant
            i <= v@.len(),
            out@ == v@.subrange(0, i as int),
        decreases v@.len() - i,
    {
        out.push(v[i]);
        i = i + 1;
        assert(out@ =~= v@.subrange(0, i as int));
    }
    assert(v@.subrange(0, v@.len() as int) =~= v@);
    out
}

/// Whether a status code is a success (200 to 299).
pub open spec fn is_success(status: u16) -> bool {
    200 <= status <= 299
}

/// Accepts a success status; any other status becomes a request error that
/// keeps the body text as it came, without reading it further.
pub fn validate_status(status: u16, body: String) -> (r: Result<(), ParclV3ApiClientError>)
    ensures
        r is Ok <==> is_success(status),
        !is_success(status) ==> (match r {
            Err(ParclV3ApiClientError::Request(s, b)) => s == status && b@ == body@,
            _ => false,
        }),
{
    if 200 <= status && status <= 299 {
        Ok(())
    } else {
        Err(ParclV3ApiClientError::Request(status, body))
    }
}

/// The ids, if the market-id endpoint answered in the ids shape.
pub fn expect_market_ids(response: MarketIdentifiersResponse) -> (r: Result<
    Vec<MarketId>,
    ParclV3ApiClientError,
>)
    ensures
        match response {
            MarketIdentifiersResponse::Ids(ids) => r is Ok && r->Ok_0@ == ids@,
            _ => match r {
                Err(ParclV3ApiClientError::MarketIdsResponse(k)) => k
                    == MarketIdentifiersResponseKind::Ids,
                _ => false,
            },
        },
{
    match response {
        MarketIdentifiersResponse::Ids(ids) => Ok(ids),
        _ => Err(ParclV3ApiClientError::MarketIdsResponse(MarketIdentifiersResponseKind::Ids)),
    }
}

/// The map from id to address, if the market-id endpoint answered in the map
/// shape.
pub fn expect_market_ids_map(response: MarketIdentifiersResponse) -> (r: Result<
    HashMap<MarketId, Address>,
    ParclV3ApiClientError,
>)
    ensures
        match response {
            MarketIdentifiersResponse::IdMap(m) => r is Ok && r->Ok_0@ == m@,
            _ => match r {
                Err(ParclV3ApiClientError::MarketIdsResponse(k)) => k
                    == MarketIdentifiersResponseKind::IdMap,
                _ => false,
            },
        },
{
    match response {
        MarketIdentifiersResponse::IdMap(m) => Ok(m),
        _ => Err(ParclV3ApiClientError::MarketIdsResponse(MarketIdentifiersResponseKind::IdMap)),
    }
}

/// The addresses, if the market-id endpoint answered in the addresses shape.
pub fn expect_market_addresses(response: MarketIdentifiersResponse) -> (r: Result<
    Vec<Address>,
    ParclV3ApiClientError,
>)
    ensures
        match response {
            MarketIdentifiersResponse::Addresses(a) => r is Ok && r->Ok_0@ == a@,
            _ => match r {
                Err(ParclV3ApiClientError::MarketIdsResponse(k)) => k
                    == MarketIdentifiersResponseKind::Addresses,
                _ => false,
            },
        },
{
    match response {
        MarketIdentifiersResponse::Addresses(a) => Ok(a),
        _ => Err(
            ParclV3ApiClientError::MarketIdsResponse(MarketIdentifiersResponseKind::Addresses),
        ),
    }
}

/// The market identifiers that name markets by id, in order.
pub fn market_identifiers_from_ids(ids: &Vec<MarketId>) -> (r: Vec<MarketIdentifier>)
    ensures
        r@.len() == ids@.len(),
        forall|i: int| 0 <= i < ids@.len() ==> #[trigger] r@[i] == MarketIdentifier::Id(ids@[i]),
{
    let mut out: Vec<MarketIdentifier> = Vec::new();
    let mut i: usize = 0;
    while i < ids.len()
        invariant
            i <= ids@.len(),
            out@.len() == i,
            forall|j: int| 0 <= j < i ==> #[trigger] out@[j] == MarketIdentifier::Id(ids@[j]),
        decreases ids@.len() - i,
    {
        out.push(MarketIdentifier::Id(ids[i]));
        i = i + 1;
    }
    out
}

/// The market identifiers that name markets by address, in order.
pub fn market_identifiers_from_addresses(addresses: &Vec<Address>) -> (r: Vec<MarketIdentifier>)
    ensures
        r@.len() == addresses@.len(),
        forall|i: int|
            0 <= i < addresses@.len() ==> #[trigger] r@[i] == MarketIdentifier::Address(
                addresses@[i],
            ),
{
    let mut out: Vec<MarketIdentifier> = Vec::new();
    let mut i: usize = 0;
    while i < addresses.len()
        invariant
            i <= addresses@.len(),
            out@.len() == i,
            forall|j: int|
                0 <= j < i ==> #[trigger] out@[j] == MarketIdentifier::Address(addresses@[j]),
        decreases addresses@.len() - i,
    {
        out.push(MarketIdentifier::Address(addresses[i]));
        i = i + 1;
    }
    out
}

} // verus!
