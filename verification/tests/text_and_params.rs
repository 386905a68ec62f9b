use webserver::dto::{
    deserialize_kinds_opt, deserialize_tokens_opt, parse_kinds_csv, KindList, KindListError,
    ParamError, RecentInnerQueryParams, TokenList, TransactionHistoryQueryParams,
};
use webserver::kind::{TransactionKind, TransactionKindDb};
use webserver::text::{split_csv, str_eq, str_eq_ignore_ascii_case, trim_str};

fn std_split(s: &str) -> Vec<String> {
    s.split(',').filter(|p| !p.is_empty()).map(|p| p.trim().to_string()).collect()
}

#[test]
fn split_csv_keeps_trimmed_nonempty_fields() {
    assert_eq!(split_csv("a,b"), vec!["a".to_string(), "b".to_string()]);
    assert_eq!(split_csv(" a , ,b,"), vec!["a".to_string(), "".to_string(), "b".to_string()]);
    assert_eq!(split_csv(""), Vec::<String>::new());
    assert_eq!(split_csv(",,,"), Vec::<String>::new());
    assert_eq!(split_csv("tnam1qxyz"), vec!["tnam1qxyz".to_string()]);
}

#[test]
fn split_csv_agrees_with_std_split_and_trim() {
    let samples = [
        "",
        ",",
        "a",
        " a",
        "a ,b",
        "\u{3000}x\u{a0},\u{2009}y\t",
        "\u{85}, \u{1680}z",
        "é,ü ,  ñ",
        "a,,b,,,c",
        " , ",
    ];
    for s in samples.iter() {
        assert_eq!(split_csv(s), std_split(s), "input {:?}", s);
    }
}

#[test]
fn trim_removes_unicode_whitespace() {
    assert_eq!(trim_str("  x y \n"), "x y");
    assert_eq!(trim_str("\u{2028}\u{202f}k\u{205f}\u{3000}"), "k");
    assert_eq!(trim_str("\u{200b}k"), "\u{200b}k");
    assert_eq!(trim_str("   "), "");
}

#[test]
fn string_equality() {
    assert!(str_eq("abc", "abc"));
    assert!(!str_eq("abc", "abd"));
    assert!(!str_eq("abc", "ab"));
    assert!(str_eq("", ""));
}

#[test]
fn ascii_case_insensitive_equality_agrees_with_std() {
    let pairs = [
        ("tnam1ABC", "TNAM1abc"),
        ("abc", "abd"),
        ("É", "é"),
        ("straße", "STRAßE"),
        ("", ""),
        ("a", "aa"),
        ("[", "{"),
        ("@", "`"),
    ];
    for (a, b) in pairs.iter() {
        assert_eq!(str_eq_ignore_ascii_case(a, b), a.eq_ignore_ascii_case(b), "{:?} {:?}", a, b);
    }
}

#[test]
fn kind_names_round_trip() {
    let all = [
        TransactionKind::TransparentTransfer,
        TransactionKind::ShieldedTransfer,
        TransactionKind::ShieldingTransfer,
        TransactionKind::UnshieldingTransfer,
        TransactionKind::MixedTransfer,
        TransactionKind::Bond,
        TransactionKind::Redelegation,
        TransactionKind::Unbond,
        TransactionKind::Withdraw,
        TransactionKind::ClaimRewards,
        TransactionKind::VoteProposal,
        TransactionKind::InitProposal,
        TransactionKind::ChangeMetadata,
        TransactionKind::ChangeCommission,
        TransactionKind::RevealPk,
        TransactionKind::IbcMsgTransfer,
        TransactionKind::IbcTransparentTransfer,
        TransactionKind::IbcShieldingTransfer,
        TransactionKind::IbcUnshieldingTransfer,
        TransactionKind::BecomeValidator,
        TransactionKind::DeactivateValidator,
        TransactionKind::ReactivateValidator,
        TransactionKind::UnjailValidator,
        TransactionKind::ChangeConsensusKey,
        TransactionKind::InitAccount,
        TransactionKind::Unknown,
    ];
    for k in all.iter() {
        assert_eq!(TransactionKind::from_name(k.name()), Some(*k));
        let db = k.to_db();
        assert_eq!(TransactionKind::from_db(db), *k);
        assert_eq!(TransactionKindDb::from_db_name(db.db_name()), Some(db));
    }
    let csv: Vec<&str> = all.iter().map(|k| k.name()).collect();
    assert_eq!(parse_kinds_csv(&csv.join(",")).unwrap(), all.to_vec());
    assert_eq!(parse_kinds_csv(&csv.join(", ")).unwrap(), all.to_vec());
}

#[test]
fn kind_names_exact() {
    assert_eq!(TransactionKind::IbcMsgTransfer.name(), "ibcMsgTransfer");
    assert_eq!(TransactionKind::RevealPk.name(), "revealPk");
    assert_eq!(TransactionKindDb::ChangeConsensusKey.db_name(), "change_consensus_key");
    assert_eq!(TransactionKind::from_name("Bond"), None);
    assert_eq!(TransactionKind::from_name("bond "), None);
    assert_eq!(TransactionKindDb::from_db_name("ibc_shielding_transfer"), Some(TransactionKindDb::IbcShieldingTransfer));
    assert_eq!(TransactionKindDb::from_db_name("ibcShieldingTransfer"), None);
    assert!(TransactionKind::IbcShieldingTransfer.is_ibc_transfer());
    assert!(!TransactionKind::IbcMsgTransfer.is_ibc_transfer());
}

#[test]
fn kinds_csv_parsing() {
    assert_eq!(
        parse_kinds_csv(" bond, unbond ,,withdraw").unwrap(),
        vec![TransactionKind::Bond, TransactionKind::Unbond, TransactionKind::Withdraw]
    );
    match parse_kinds_csv("bond,foo,bar") {
        Err(KindListError::UnknownKind(name)) => assert_eq!(name, "foo"),
        Ok(_) => panic!("accepted an unknown kind"),
    }
    match parse_kinds_csv("bond, ,unbond") {
        Err(KindListError::UnknownKind(name)) => assert_eq!(name, ""),
        Ok(_) => panic!("accepted a blank kind"),
    }
    assert_eq!(parse_kinds_csv("").unwrap(), Vec::<TransactionKind>::new());
}

#[test]
fn kind_and_token_parameters() {
    assert!(matches!(deserialize_kinds_opt(None), Ok(None)));
    match deserialize_kinds_opt(Some(KindList::List(vec![TransactionKind::Bond]))) {
        Ok(Some(v)) => assert_eq!(v, vec![TransactionKind::Bond]),
        _ => panic!("list not kept"),
    }
    match deserialize_kinds_opt(Some(KindList::Csv("revealPk,initAccount".to_string()))) {
        Ok(Some(v)) => assert_eq!(v, vec![TransactionKind::RevealPk, TransactionKind::InitAccount]),
        _ => panic!("csv not parsed"),
    }
    assert!(matches!(
        deserialize_kinds_opt(Some(KindList::Csv("nope".to_string()))),
        Err(KindListError::UnknownKind(_))
    ));
    assert_eq!(deserialize_tokens_opt(None), None);
    assert_eq!(
        deserialize_tokens_opt(Some(TokenList::Csv(" tnam1a, tnam1b ,".to_string()))),
        Some(vec!["tnam1a".to_string(), "tnam1b".to_string()])
    );
    assert_eq!(
        deserialize_tokens_opt(Some(TokenList::List(vec![" x ".to_string()]))),
        Some(vec![" x ".to_string()])
    );
}

#[test]
fn history_params_validation() {
    let ok = TransactionHistoryQueryParams { page: Some(1), addresses: vec!["a".to_string()] };
    assert!(ok.validate().is_ok());
    let absent = TransactionHistoryQueryParams { page: None, addresses: vec!["a".to_string(); 10] };
    assert!(absent.validate().is_ok());
    assert_eq!(absent.page_or_first(), 1);
    let bad = TransactionHistoryQueryParams { page: Some(0), addresses: vec![] };
    assert_eq!(
        bad.validate().unwrap_err(),
        vec![ParamError::PageOutOfRange(0), ParamError::AddressCountOutOfRange(0)]
    );
    let many = TransactionHistoryQueryParams { page: Some(10000), addresses: vec!["a".to_string(); 11] };
    assert_eq!(many.validate().unwrap_err(), vec![ParamError::AddressCountOutOfRange(11)]);
    assert_eq!(many.page_or_first(), 10000);
}

#[test]
fn recent_inner_params_validation() {
    let ok = RecentInnerQueryParams { page: None, limit: Some(10000), kind: None, token: None };
    assert!(ok.validate().is_ok());
    let bad = RecentInnerQueryParams { page: Some(10001), limit: Some(0), kind: None, token: None };
    assert_eq!(
        bad.validate().unwrap_err(),
        vec![ParamError::PageOutOfRange(10001), ParamError::LimitOutOfRange(0)]
    );
}

#[test]
fn token_list_round_trip() {
    let tokens = vec!["tnam1a".to_string(), "TNAM1B".to_string(), "x".to_string()];
    assert_eq!(split_csv(&tokens.join(",")), tokens);
    assert_eq!(split_csv(&Vec::<String>::new().join(",")), Vec::<String>::new());
    assert_eq!(split_csv(&tokens.join(", ")), tokens);
    assert_eq!(split_csv(&tokens.join(",\u{3000}\t")), tokens);
}
