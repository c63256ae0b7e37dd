use parcl_v3_client::codec::{Address, CodecError};
use parcl_v3_client::identifier::{ExchangeIdentifier, MarginAccountIdentifier, MarketIdentifier};

const SAMPLE_TEXT: &str = "2gPihUTjt3FJqf1VpidgrY5cZ6PuyMccGVwQHRfjMPZG";

fn sample() -> Address {
    Address::from_text(SAMPLE_TEXT).unwrap()
}

#[test]
fn identifier_ids_round_trip() {
    for id in [0u64, 1, 42, u64::MAX] {
        let x = ExchangeIdentifier::Id(id);
        assert_eq!(x.to_text(), id.to_string());
        assert_eq!(ExchangeIdentifier::from_text(&x.to_text()).unwrap(), x);
    }
    for id in [0u32, 7, u32::MAX] {
        let m = MarginAccountIdentifier::Id(id);
        assert_eq!(MarginAccountIdentifier::from_text(&m.to_text()).unwrap(), m);
        let k = MarketIdentifier::Id(id);
        assert_eq!(MarketIdentifier::from_text(&k.to_text()).unwrap(), k);
    }
}

#[test]
fn identifier_addresses_round_trip() {
    let a = sample();
    let x = ExchangeIdentifier::Address(a);
    assert_eq!(x.to_text(), SAMPLE_TEXT);
    assert_eq!(ExchangeIdentifier::from_text(SAMPLE_TEXT).unwrap(), x);
    let zero = Address { bytes: [0; 32] };
    let m = MarginAccountIdentifier::Address(zero);
    assert_eq!(MarginAccountIdentifier::from_text(&m.to_text()).unwrap(), m);
    let k = MarketIdentifier::Address(zero);
    assert_eq!(MarketIdentifier::from_text(&k.to_text()).unwrap(), k);
}

#[test]
fn identifier_unparseable_text_is_an_error() {
    for bad in ["", "not-an-id", "-1", "12x"] {
        match ExchangeIdentifier::from_text(bad) {
            Err(CodecError::IdentifierParseError { raw_text }) => assert_eq!(raw_text, bad),
            other => panic!("unexpected {other:?}"),
        }
    }
    // Too wide for a margin-account id and not an address either.
    assert!(matches!(
        MarginAccountIdentifier::from_text("4294967296"),
        Err(CodecError::IdentifierParseError { .. })
    ));
    assert_eq!(
        ExchangeIdentifier::from_text("4294967296").unwrap(),
        ExchangeIdentifier::Id(4294967296)
    );
}

#[test]
fn exchange_identifier_defaults_to_id_zero() {
    assert_eq!(ExchangeIdentifier::default(), ExchangeIdentifier::Id(0));
}
