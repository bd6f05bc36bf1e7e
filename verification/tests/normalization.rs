use sdex_indexer::asset::{parse_asset_from_value, parse_raw_asset, read_raw_asset, Asset, RawAsset};
use sdex_indexer::error::NormalizationError;
use sdex_indexer::number::{narrow, parse_u64};
use sdex_indexer::offer::{narrow_price, HorizonOffer, Offer, PriceRatio, RawOffer};

fn json(text: &str) -> serde_json::Value {
    serde_json::from_str(text).unwrap()
}

fn record(id: &str, selling: &str, buying: &str, price_r: Option<PriceRatio>) -> HorizonOffer {
    HorizonOffer {
        id: id.to_string(),
        seller: "GABC...".to_string(),
        selling: json(selling),
        buying: json(buying),
        amount: "100.0".to_string(),
        price_r,
        price: "2.0".to_string(),
        last_modified_ledger: 500,
    }
}

const NATIVE: &str = r#"{"asset_type":"native"}"#;
const USD: &str = r#"{"asset_type":"credit_alphanum4","asset_code":"USD","asset_issuer":"GDEF..."}"#;

fn missing(name: &str) -> NormalizationError {
    NormalizationError::MissingField(name.to_string())
}

#[test]
fn end_to_end_example() {
    let offer = Offer::try_from(record("12345", NATIVE, USD, Some(PriceRatio { n: 2, d: 1 }))).unwrap();
    assert_eq!(offer.id, 12345);
    assert_eq!(offer.seller, "GABC...");
    assert_eq!(offer.selling, Asset::Native);
    assert_eq!(
        offer.buying,
        Asset::CreditAlphanum4 { asset_code: "USD".to_string(), asset_issuer: "GDEF...".to_string() }
    );
    assert_eq!(offer.amount, "100.0");
    assert_eq!(offer.price_n, 2);
    assert_eq!(offer.price_d, 1);
    assert_eq!(offer.price, "2.0");
    assert_eq!(offer.last_modified_ledger, 500);
    assert_eq!(offer.last_modified_time, None);
}

#[test]
fn non_numeric_ids_are_rejected() {
    for id in ["abc", "", "-5", "+", "12a", " 12", "12 ", "1.0", "0x10", "++1", "١٢", "18446744073709551616"] {
        let r = Offer::try_from(record(id, NATIVE, USD, None));
        assert_eq!(r, Err(NormalizationError::InvalidId(id.to_string())));
    }
}

#[test]
fn numeric_ids_are_accepted() {
    let cases: [(&str, u64); 6] = [
        ("0", 0),
        ("7", 7),
        ("+7", 7),
        ("007", 7),
        ("18446744073709551615", u64::MAX),
        ("000018446744073709551615", u64::MAX),
    ];
    for (id, value) in cases {
        let offer = Offer::try_from(record(id, NATIVE, NATIVE, None)).unwrap();
        assert_eq!(offer.id, value);
    }
}

#[test]
fn decimal_parser_agrees_with_the_standard_one() {
    let samples = [
        "", "+", "-", "0", "+0", "-0", "1", "42", "+42", "-42", "4 2", "42\n", "４２", "4e2", "99999999999999999999",
        "18446744073709551615", "18446744073709551616", "18446744073709551614", "+18446744073709551615",
        "184467440737095516150", "00000000000000000000000001", "1_000", "a", "+a", "1+", "é1",
    ];
    for text in samples {
        assert_eq!(parse_u64(text), text.parse::<u64>().ok(), "{:?}", text);
    }
}

#[test]
fn missing_asset_type_is_reported() {
    assert_eq!(parse_asset_from_value(&json("{}")), Err(missing("asset_type")));
    assert_eq!(parse_asset_from_value(&json(r#"{"asset_type":4}"#)), Err(missing("asset_type")));
    assert_eq!(parse_asset_from_value(&json(r#"{"asset_type":null}"#)), Err(missing("asset_type")));
    assert_eq!(parse_asset_from_value(&json(r#"["asset_type"]"#)), Err(missing("asset_type")));
    assert_eq!(parse_asset_from_value(&json(r#""native""#)), Err(missing("asset_type")));
    assert_eq!(parse_asset_from_value(&json("null")), Err(missing("asset_type")));
}

#[test]
fn credit_asset_without_code_is_rejected() {
    for kind in ["credit_alphanum4", "credit_alphanum12"] {
        let with_issuer = format!(r#"{{"asset_type":"{}","asset_issuer":"GDEF..."}}"#, kind);
        assert_eq!(parse_asset_from_value(&json(&with_issuer)), Err(missing("asset_code")));
        let bare = format!(r#"{{"asset_type":"{}"}}"#, kind);
        assert_eq!(parse_asset_from_value(&json(&bare)), Err(missing("asset_code")));
        let not_text = format!(r#"{{"asset_type":"{}","asset_code":7,"asset_issuer":"GDEF..."}}"#, kind);
        assert_eq!(parse_asset_from_value(&json(&not_text)), Err(missing("asset_code")));
    }
}

#[test]
fn credit_asset_without_issuer_is_rejected() {
    for kind in ["credit_alphanum4", "credit_alphanum12"] {
        let text = format!(r#"{{"asset_type":"{}","asset_code":"USD"}}"#, kind);
        assert_eq!(parse_asset_from_value(&json(&text)), Err(missing("asset_issuer")));
    }
}

#[test]
fn long_credit_asset_is_parsed() {
    let v = json(r#"{"asset_type":"credit_alphanum12","asset_code":"LONGTOKEN","asset_issuer":"GXYZ"}"#);
    assert_eq!(
        parse_asset_from_value(&v),
        Ok(Asset::CreditAlphanum12 { asset_code: "LONGTOKEN".to_string(), asset_issuer: "GXYZ".to_string() })
    );
}

#[test]
fn unknown_asset_type_is_rejected_with_its_value() {
    let v = json(r#"{"asset_type":"liquidity_pool_shares","asset_code":"USD","asset_issuer":"G"}"#);
    assert_eq!(
        parse_asset_from_value(&v),
        Err(NormalizationError::UnknownAssetType("liquidity_pool_shares".to_string()))
    );
    assert_eq!(
        parse_asset_from_value(&json(r#"{"asset_type":"Native"}"#)),
        Err(NormalizationError::UnknownAssetType("Native".to_string()))
    );
    assert_eq!(
        parse_asset_from_value(&json(r#"{"asset_type":""}"#)),
        Err(NormalizationError::UnknownAssetType(String::new()))
    );
}

#[test]
fn native_asset_ignores_other_members() {
    let v = json(r#"{"asset_type":"native","asset_code":"USD","asset_issuer":"GDEF...","extra":[1,2]}"#);
    assert_eq!(parse_asset_from_value(&v), Ok(Asset::Native));
}

#[test]
fn raw_asset_holds_the_string_members() {
    let v = json(r#"{"asset_type":"credit_alphanum4","asset_code":"EUR","asset_issuer":17}"#);
    assert_eq!(
        read_raw_asset(&v),
        RawAsset {
            asset_type: Some("credit_alphanum4".to_string()),
            asset_code: Some("EUR".to_string()),
            asset_issuer: None,
        }
    );
}

#[test]
fn raw_asset_is_parsed_without_json() {
    let raw = RawAsset {
        asset_type: Some("credit_alphanum4".to_string()),
        asset_code: Some("EUR".to_string()),
        asset_issuer: Some("GEUR".to_string()),
    };
    assert_eq!(
        parse_raw_asset(&raw),
        Ok(Asset::CreditAlphanum4 { asset_code: "EUR".to_string(), asset_issuer: "GEUR".to_string() })
    );
    let none = RawAsset { asset_type: None, asset_code: None, asset_issuer: None };
    assert_eq!(parse_raw_asset(&none), Err(missing("asset_type")));
}

#[test]
fn first_fault_is_the_one_reported() {
    let bad_sell = r#"{"asset_type":"credit_alphanum4"}"#;
    let bad_buy = r#"{"asset_type":"mystery"}"#;
    assert_eq!(
        Offer::try_from(record("x1", bad_sell, bad_buy, None)),
        Err(NormalizationError::InvalidId("x1".to_string()))
    );
    assert_eq!(Offer::try_from(record("1", bad_sell, bad_buy, None)), Err(missing("asset_code")));
    assert_eq!(
        Offer::try_from(record("1", NATIVE, bad_buy, None)),
        Err(NormalizationError::UnknownAssetType("mystery".to_string()))
    );
}

#[test]
fn absent_price_ratio_is_zero_over_one() {
    let offer = Offer::try_from(record("1", NATIVE, USD, None)).unwrap();
    assert_eq!((offer.price_n, offer.price_d), (0, 1));
    assert_eq!(narrow_price(None), (0, 1));
}

#[test]
fn wide_price_terms_lose_their_high_bits() {
    assert_eq!(narrow(5), 5);
    assert_eq!(narrow(-1), -1);
    assert_eq!(narrow(2147483647), i32::MAX);
    assert_eq!(narrow(2147483648), i32::MIN);
    assert_eq!(narrow(4294967296 + 5), 5);
    assert_eq!(narrow(-2147483649), i32::MAX);
    assert_eq!(narrow(i64::MAX), -1);
    assert_eq!(narrow(i64::MIN), 0);
    let offer =
        Offer::try_from(record("1", NATIVE, USD, Some(PriceRatio { n: 4294967298, d: -4294967295 }))).unwrap();
    assert_eq!((offer.price_n, offer.price_d), (2, 1));
}

#[test]
fn same_assets_on_both_sides_are_accepted() {
    let offer = Offer::try_from(record("9", USD, USD, None)).unwrap();
    assert_eq!(offer.selling, offer.buying);
}

#[test]
fn normalizing_twice_gives_the_same_offer() {
    let price = Some(PriceRatio { n: 3, d: 7 });
    let first = Offer::try_from(record("77", USD, NATIVE, price));
    let second = Offer::try_from(record("77", USD, NATIVE, price));
    assert!(first.is_ok());
    assert_eq!(first, second);
    let bad_first = Offer::try_from(record("seventy", USD, NATIVE, price));
    let bad_second = Offer::try_from(record("seventy", USD, NATIVE, price));
    assert!(bad_first.is_err());
    assert_eq!(bad_first, bad_second);
}

#[test]
fn reading_keeps_the_plain_fields() {
    let raw = record("5", NATIVE, USD, Some(PriceRatio { n: 1, d: 2 })).read();
    assert_eq!(
        raw,
        RawOffer {
            id: "5".to_string(),
            seller: "GABC...".to_string(),
            selling: RawAsset { asset_type: Some("native".to_string()), asset_code: None, asset_issuer: None },
            buying: RawAsset {
                asset_type: Some("credit_alphanum4".to_string()),
                asset_code: Some("USD".to_string()),
                asset_issuer: Some("GDEF...".to_string()),
            },
            amount: "100.0".to_string(),
            price_r: Some(PriceRatio { n: 1, d: 2 }),
            price: "2.0".to_string(),
            last_modified_ledger: 500,
        }
    );
    let offer = Offer::normalize(raw).unwrap();
    assert_eq!(offer.id, 5);
    assert_eq!(offer.last_modified_ledger, 500);
}

#[test]
fn ledger_number_is_widened() {
    let mut r = record("5", NATIVE, USD, None);
    r.last_modified_ledger = u32::MAX;
    assert_eq!(Offer::try_from(r).unwrap().last_modified_ledger, 4294967295u64);
}

#[test]
fn error_detail_is_the_text_carried() {
    assert_eq!(NormalizationError::InvalidId("zz".to_string()).detail(), "zz");
    assert_eq!(missing("asset_code").detail(), "asset_code");
    assert_eq!(NormalizationError::UnknownAssetType("odd".to_string()).detail(), "odd");
}

#[test]
fn code_length_is_checked_on_request() {
    let credit4 = |code: &str| Asset::CreditAlphanum4 { asset_code: code.to_string(), asset_issuer: "G".to_string() };
    let credit12 = |code: &str| Asset::CreditAlphanum12 { asset_code: code.to_string(), asset_issuer: "G".to_string() };
    assert!(Asset::Native.code_fits());
    assert!(credit4("").code_fits());
    assert!(credit4("USDC").code_fits());
    assert!(!credit4("USDCX").code_fits());
    assert!(credit12("USDCX").code_fits());
    assert!(credit12("ABCDEFGHIJKL").code_fits());
    assert!(!credit12("ABCDEFGHIJKLM").code_fits());
    assert!(credit4("éééé").code_fits());
    let long = json(r#"{"asset_type":"credit_alphanum4","asset_code":"TOOLONG","asset_issuer":"G"}"#);
    let parsed = parse_asset_from_value(&long).unwrap();
    assert_eq!(parsed, credit4("TOOLONG"));
    assert!(!parsed.code_fits());
}
