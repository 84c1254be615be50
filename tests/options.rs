use kupon::{AssetIdOptions, KuponError, MatchOptions, TransactionIdOptions};
use url::Url;

fn endpoint() -> Url {
    Url::parse("http://localhost:1442").unwrap()
}

fn url_of(options: &MatchOptions) -> String {
    options.to_url(&endpoint()).unwrap().as_str().to_string()
}

fn pairs(options: &MatchOptions) -> Vec<(String, Option<String>)> {
    let target = options.to_target().unwrap();
    target.query.into_iter().map(|q| (q.key, q.value)).collect()
}

#[test]
fn unspent_address_compiles_to_pattern_then_flag() {
    let options = MatchOptions::default()
        .only_unspent()
        .address("addr1w9qzpelu9hn45pefc0xr4ac4kdxeswq7pndul2vuj59u8tqaxdznu");
    let target = options.to_target().unwrap();
    assert_eq!(
        target.path,
        "matches/addr1w9qzpelu9hn45pefc0xr4ac4kdxeswq7pndul2vuj59u8tqaxdznu"
    );
    assert_eq!(pairs(&options), vec![("unspent".to_string(), None)]);
    assert_eq!(
        url_of(&options),
        "http://localhost:1442/matches/addr1w9qzpelu9hn45pefc0xr4ac4kdxeswq7pndul2vuj59u8tqaxdznu?unspent"
    );
}

#[test]
fn asset_alone_is_the_pattern() {
    let options = MatchOptions::default().asset_id("abcd.ef01");
    assert_eq!(options.to_target().unwrap().path, "matches/abcd.ef01");
    assert!(pairs(&options).is_empty());
    assert_eq!(url_of(&options), "http://localhost:1442/matches/abcd.ef01");
}

#[test]
fn asset_with_address_goes_to_query() {
    let options = MatchOptions::default().asset_id("abcd.ef01").address("X");
    assert_eq!(
        url_of(&options),
        "http://localhost:1442/matches/X?policy_id=abcd&asset_name=ef01"
    );
}

#[test]
fn address_and_credential_are_rejected() {
    let options = MatchOptions::default().address("X").credential("Y");
    assert!(matches!(options.to_target(), Err(KuponError::InvalidQuery(_))));
    assert!(matches!(options.to_url(&endpoint()), Err(KuponError::InvalidQuery(_))));
    let flagged = MatchOptions::default().credential("Y").only_spent().address("X");
    assert!(matches!(flagged.to_target(), Err(KuponError::InvalidQuery(_))));
}

#[test]
fn single_filter_patterns() {
    assert_eq!(url_of(&MatchOptions::default()), "http://localhost:1442/matches");
    assert_eq!(
        url_of(&MatchOptions::default().credential("cred").only_spent()),
        "http://localhost:1442/matches/cred?spent"
    );
    assert_eq!(
        url_of(&MatchOptions::default().policy_id("abcd")),
        "http://localhost:1442/matches/abcd"
    );
    assert_eq!(
        url_of(&MatchOptions::default().transaction("aa11")),
        "http://localhost:1442/matches/*@aa11"
    );
    assert_eq!(
        url_of(&MatchOptions::default().transaction_output("aa11", 42).only_unspent()),
        "http://localhost:1442/matches/42@aa11?unspent"
    );
}

#[test]
fn asset_takes_the_pattern_before_transaction() {
    let options = MatchOptions::default()
        .transaction_output("aa11", 3)
        .policy_id("abcd");
    assert_eq!(options.to_target().unwrap().path, "matches/abcd");
    assert_eq!(
        pairs(&options),
        vec![
            ("transaction_id".to_string(), Some("aa11".to_string())),
            ("output_index".to_string(), Some("3".to_string())),
        ]
    );
}

#[test]
fn every_filter_with_an_address() {
    let options = MatchOptions::default()
        .address("X")
        .transaction_output("aa11", 1207)
        .asset_id("abcd")
        .only_spent();
    assert_eq!(
        url_of(&options),
        "http://localhost:1442/matches/X?transaction_id=aa11&output_index=1207&policy_id=abcd&spent"
    );
}

#[test]
fn later_filters_replace_earlier_ones() {
    let options = MatchOptions::default()
        .only_spent()
        .only_unspent()
        .address("A")
        .address("B");
    assert_eq!(url_of(&options), "http://localhost:1442/matches/B?unspent");
}

#[test]
fn filter_patterns() {
    let asset = AssetIdOptions {
        policy_id: "abcd".to_string(),
        asset_name: Some("ef01".to_string()),
    };
    assert_eq!(asset.to_pattern(), "abcd.ef01");
    let policy = AssetIdOptions {
        policy_id: "abcd".to_string(),
        asset_name: None,
    };
    assert_eq!(policy.to_pattern(), "abcd");
    let output = TransactionIdOptions {
        transaction_id: "ff".to_string(),
        output_index: Some(0),
    };
    assert_eq!(output.to_pattern(), "0@ff");
    let largest = TransactionIdOptions {
        transaction_id: "ff".to_string(),
        output_index: Some(u64::MAX),
    };
    assert_eq!(largest.to_pattern(), "18446744073709551615@ff");
    let all = TransactionIdOptions {
        transaction_id: "ff".to_string(),
        output_index: None,
    };
    assert_eq!(all.to_pattern(), "*@ff");
}
