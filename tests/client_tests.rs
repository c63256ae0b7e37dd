use parcl_v3_client::client::{
    expect_market_addresses, expect_market_ids, expect_market_ids_map,
    market_identifiers_from_addresses, market_identifiers_from_ids,
    validate_status, ParclV3ApiClientConfig, ParclV3ApiClientError, RequestBuilder,
    EXCHANGE_PATH, MARGIN_ACCOUNT_PATH, MARKET_IDS_PATH,
};
use parcl_v3_client::codec::Address;
use parcl_v3_client::identifier::{ExchangeIdentifier, MarginAccountIdentifier, MarketIdentifier};
use parcl_v3_client::request::{
    MarketIdentifiersResponseKind, ModifyPositionPayload, ModifyPositionQuotePayload,
    SlippageSetting,
};
use parcl_v3_client::response::MarketIdentifiersResponse;
use std::collections::HashMap;

const SAMPLE_TEXT: &str = "2gPihUTjt3FJqf1VpidgrY5cZ6PuyMccGVwQHRfjMPZG";
const ZERO_TEXT: &str = "11111111111111111111111111111111";

fn sample() -> Address {
    Address::from_text(SAMPLE_TEXT).unwrap()
}

fn builder(exchange_id: Option<ExchangeIdentifier>, fee: Option<u16>) -> RequestBuilder {
    RequestBuilder::new(ParclV3ApiClientConfig {
        base_url: "https://api.example".to_string(),
        exchange_id,
        priority_fee_percentile: fee,
    })
}

fn pairs(q: &[parcl_v3_client::client::QueryParam]) -> Vec<(String, Option<String>)> {
    q.iter().map(|p| (p.key.clone(), p.value.clone())).collect()
}

#[test]
fn market_ids_kind_mismatch_is_reported() {
    let mut m = HashMap::new();
    m.insert(1u32, sample());
    match expect_market_ids(MarketIdentifiersResponse::IdMap(m)) {
        Err(ParclV3ApiClientError::MarketIdsResponse(k)) => {
            assert_eq!(k, MarketIdentifiersResponseKind::Ids)
        }
        other => panic!("unexpected {other:?}"),
    }
    match expect_market_ids_map(MarketIdentifiersResponse::Ids(vec![1, 2])) {
        Err(ParclV3ApiClientError::MarketIdsResponse(k)) => {
            assert_eq!(k, MarketIdentifiersResponseKind::IdMap)
        }
        other => panic!("unexpected {other:?}"),
    }
    match expect_market_addresses(MarketIdentifiersResponse::Ids(vec![])) {
        Err(ParclV3ApiClientError::MarketIdsResponse(k)) => {
            assert_eq!(k, MarketIdentifiersResponseKind::Addresses)
        }
        other => panic!("unexpected {other:?}"),
    }
}

#[test]
fn market_ids_matching_kind_is_returned() {
    assert_eq!(expect_market_ids(MarketIdentifiersResponse::Ids(vec![3, 1, 2])).unwrap(), vec![3, 1, 2]);
    let addresses = vec![sample(), Address { bytes: [0; 32] }];
    assert_eq!(
        expect_market_addresses(MarketIdentifiersResponse::Addresses(addresses.clone())).unwrap(),
        addresses
    );
    let mut m = HashMap::new();
    m.insert(9u32, sample());
    assert_eq!(expect_market_ids_map(MarketIdentifiersResponse::IdMap(m.clone())).unwrap(), m);
}

#[test]
fn response_kind_texts() {
    assert_eq!(MarketIdentifiersResponseKind::IdMap.as_str(), "map");
    assert_eq!(MarketIdentifiersResponseKind::Addresses.as_str(), "addresses");
    assert_eq!(MarketIdentifiersResponseKind::Ids.to_text(), "ids");
    assert_eq!(MarketIdentifiersResponseKind::default(), MarketIdentifiersResponseKind::IdMap);
}

#[test]
fn slippage_sets_exactly_one_field() {
    let price = SlippageSetting::AcceptablePrice(12345);
    assert_eq!(price.as_request_fields(), (Some(12345), None));
    assert_eq!(price.wire_fields(), (Some("12345".to_string()), None));
    let bps = SlippageSetting::SlippageToleranceBps(50);
    assert_eq!(bps.as_request_fields(), (None, Some(50)));
    assert_eq!(bps.wire_fields(), (None, Some(50)));
}

#[test]
fn non_success_status_keeps_body() {
    match validate_status(400, "insufficient funds".to_string()) {
        Err(ParclV3ApiClientError::Request(status, body)) => {
            assert_eq!(status, 400);
            assert_eq!(body, "insufficient funds");
        }
        other => panic!("unexpected {other:?}"),
    }
    assert!(validate_status(200, String::new()).is_ok());
    assert!(validate_status(299, String::new()).is_ok());
    assert!(validate_status(199, String::new()).is_err());
    assert!(validate_status(300, String::new()).is_err());
    assert!(validate_status(500, String::new()).is_err());
}

#[test]
fn client_defaults_to_exchange_zero() {
    let b = builder(None, None);
    assert_eq!(b.exchange_id(), ExchangeIdentifier::Id(0));
    assert_eq!(b.priority_fee_percentile(), None);
    let r = b.exchange_request();
    assert_eq!(r.url, "https://api.example/exchange");
    assert_eq!(EXCHANGE_PATH, "/exchange");
    assert_eq!(pairs(&r.query), vec![("exchange_id".to_string(), Some("0".to_string()))]);
}

#[test]
fn get_requests_carry_their_query() {
    let b = builder(Some(ExchangeIdentifier::Id(3)), Some(75));
    let r = b.market_ids_request(MarketIdentifiersResponseKind::Ids);
    assert_eq!(r.url, format!("https://api.example{MARKET_IDS_PATH}"));
    assert_eq!(
        pairs(&r.query),
        vec![
            ("response_kind".to_string(), Some("ids".to_string())),
            ("exchange_id".to_string(), Some("3".to_string())),
        ]
    );
    let r = b.margin_account_from_id_request(sample(), 5);
    assert_eq!(r.url, format!("https://api.example{MARGIN_ACCOUNT_PATH}"));
    assert_eq!(
        pairs(&r.query),
        vec![
            ("margin_account_id".to_string(), Some("5".to_string())),
            ("owner".to_string(), Some(SAMPLE_TEXT.to_string())),
            ("exchange_id".to_string(), Some("3".to_string())),
        ]
    );
    let r = b.margin_account_from_address_request(Address { bytes: [0; 32] });
    assert_eq!(
        pairs(&r.query),
        vec![
            ("margin_account_id".to_string(), Some(ZERO_TEXT.to_string())),
            ("owner".to_string(), None),
            ("exchange_id".to_string(), Some("3".to_string())),
        ]
    );
    let r = b.market_request(MarketIdentifier::Id(11));
    assert_eq!(r.url, "https://api.example/market");
    assert_eq!(pairs(&r.query)[0], ("market_id".to_string(), Some("11".to_string())));
    assert_eq!(b.exponents_request().url, "https://api.example/exponents");
    assert_eq!(
        b.unhealthy_margin_accounts_request().url,
        "https://api.example/unhealthy-margin-accounts"
    );
}

#[test]
fn post_payloads_carry_exchange_and_fee() {
    let exchange = ExchangeIdentifier::Address(sample());
    let b = builder(Some(exchange), Some(75));
    let owner = sample();
    let id = MarginAccountIdentifier::Id(2);
    let p = b.create_margin_account_payload(owner, Some(4));
    assert_eq!((p.owner, p.margin_account_id, p.exchange_id, p.priority_fee_percentile), (owner, Some(4), Some(exchange), Some(75)));
    let p = b.close_margin_account_payload(owner, id);
    assert_eq!((p.margin_account_id, p.exchange_id, p.priority_fee_percentile), (id, Some(exchange), Some(75)));
    let p = b.deposit_margin_payload(owner, id, 1000);
    assert_eq!((p.margin, p.exchange_id), (1000, Some(exchange)));
    let p = b.withdraw_margin_payload(owner, id, 500, Some(8), None);
    assert_eq!((p.margin, p.settlement_request_id, p.keeper_tip, p.priority_fee_percentile), (500, Some(8), None, Some(75)));
    let p = b.modify_position_payload(owner, id, 6, -250, SlippageSetting::SlippageToleranceBps(50));
    assert_eq!((p.market_id, p.size_delta, p.acceptable_price, p.slippage_tolerance_bps), (6, -250, None, Some(50)));
    let p = b.close_position_payload(owner, id, 6, SlippageSetting::AcceptablePrice(99));
    assert_eq!((p.acceptable_price, p.slippage_tolerance_bps, p.priority_fee_percentile), (Some(99), None, Some(75)));
    let target = Address { bytes: [0; 32] };
    let p = b.liquidate_payload(target, owner, id);
    assert_eq!((p.margin_account_to_liquidate, p.liquidator, p.liquidator_margin_account_id), (target, owner, id));
    let p = b.modify_position_quote_payload(owner, id, 6, 10, SlippageSetting::AcceptablePrice(1));
    assert_eq!((p.size_delta, p.acceptable_price, p.exchange_id), (10, Some(1), Some(exchange)));
}

#[test]
fn batch_requests_keep_order() {
    let b = builder(None, None);
    let addresses = vec![sample(), Address { bytes: [0; 32] }, sample()];
    let r = b.margin_accounts_request(&addresses);
    assert_eq!(r.url, "https://api.example/margin-accounts");
    assert_eq!(r.body.margin_accounts, addresses);
    assert_eq!(r.body.exchange_id, Some(ExchangeIdentifier::Id(0)));
    let ids = market_identifiers_from_ids(&vec![4, 2]);
    assert_eq!(ids, vec![MarketIdentifier::Id(4), MarketIdentifier::Id(2)]);
    let by_address = market_identifiers_from_addresses(&addresses);
    assert_eq!(by_address[1], MarketIdentifier::Address(Address { bytes: [0; 32] }));
    let r = b.markets_request(&ids);
    assert_eq!(r.url, "https://api.example/markets");
    assert_eq!(r.body.market_ids, ids);
}

#[test]
fn payload_defaults_leave_exchange_empty() {
    let owner = sample();
    let p = ModifyPositionPayload::new_with_defaults(owner, MarginAccountIdentifier::Id(1), 2, 3, SlippageSetting::AcceptablePrice(12345));
    assert_eq!((p.acceptable_price, p.slippage_tolerance_bps), (Some(12345), None));
    assert!(p.exchange_id.is_none() && p.priority_fee_percentile.is_none());
    let q = ModifyPositionQuotePayload::new_with_defaults(owner, MarginAccountIdentifier::Id(1), 2, -3, SlippageSetting::SlippageToleranceBps(50));
    assert_eq!((q.acceptable_price, q.slippage_tolerance_bps, q.size_delta), (None, Some(50), -3));
    assert!(q.exchange_id.is_none());
}

#[test]
fn bodies_write_text_fields() {
    let exchange = ExchangeIdentifier::Id(3);
    let b = builder(Some(exchange), Some(75));
    let owner = sample();
    let id = MarginAccountIdentifier::Address(Address { bytes: [0; 32] });
    let body = b
        .modify_position_payload(owner, id, 6, -250, SlippageSetting::AcceptablePrice(12345))
        .to_body();
    assert_eq!(body.owner, SAMPLE_TEXT);
    assert_eq!(body.margin_account_id, ZERO_TEXT);
    assert_eq!(body.market_id, 6);
    assert_eq!(body.size_delta, "-250");
    assert_eq!(body.acceptable_price, Some("12345".to_string()));
    assert_eq!(body.slippage_tolerance_bps, None);
    assert_eq!(body.exchange_id, Some("3".to_string()));
    assert_eq!(body.priority_fee_percentile, Some(75));
    let body = b
        .close_position_payload(owner, MarginAccountIdentifier::Id(9), 6, SlippageSetting::SlippageToleranceBps(50))
        .to_body();
    assert_eq!((body.acceptable_price, body.slippage_tolerance_bps), (None, Some(50)));
    assert_eq!(body.margin_account_id, "9");
    let body = b.liquidate_payload(owner, Address { bytes: [0; 32] }, MarginAccountIdentifier::Id(1)).to_body();
    assert_eq!((body.margin_account_to_liquidate.as_str(), body.liquidator.as_str()), (SAMPLE_TEXT, ZERO_TEXT));
    let body = b.withdraw_margin_payload(owner, MarginAccountIdentifier::Id(1), 500, Some(8), Some(2)).to_body();
    assert_eq!((body.margin, body.settlement_request_id, body.keeper_tip), (500, Some(8), Some(2)));
    let body = b.margin_accounts_request(&vec![owner, Address { bytes: [0; 32] }]).body.to_body();
    assert_eq!(body.margin_accounts, vec![SAMPLE_TEXT.to_string(), ZERO_TEXT.to_string()]);
    let body = b.markets_request(&vec![MarketIdentifier::Id(4), MarketIdentifier::Address(owner)]).body.to_body();
    assert_eq!(body.market_ids, vec!["4".to_string(), SAMPLE_TEXT.to_string()]);
    assert_eq!(body.exchange_id, Some("3".to_string()));
    let q = ModifyPositionQuotePayload::new_with_defaults(owner, MarginAccountIdentifier::Id(1), 2, i128::MIN, SlippageSetting::AcceptablePrice(7)).to_body();
    assert_eq!(q.size_delta, "-170141183460469231731687303715884105728");
    assert_eq!(q.exchange_id, None);
}
