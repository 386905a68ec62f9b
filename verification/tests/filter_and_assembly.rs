use webserver::dto::{TransactionIdParam, TransactionMostRecentQueryParams};
use webserver::entity::{InnerTransaction, TransactionError, WrapperTransaction};
use webserver::handler::{
    assemble_filtered, assemble_recent, found_wrapper, plan_recent, retain_matching_inners,
};
use webserver::kind::{TransactionKind, TransactionKindDb};
use webserver::repository::{
    escape_sql, ibc_transfer_kinds, quote_tokens, recent_inner_query, recent_wrappers_query,
    recent_wrappers_sql, regular_transfer_kinds, token_filter_sql, RecentWrappersQuery,
};
use webserver::token_filter::{
    any_candidate_matches, filter_inner_tx_by_tokens, find_member, token_matches,
    transfer_token_candidates,
};

fn inner(id: &str, wrapper: &str, kind: TransactionKind, data: Option<&str>) -> InnerTransaction {
    InnerTransaction {
        id: id.to_string(),
        wrapper_id: wrapper.to_string(),
        kind,
        data: data.map(|d| d.to_string()),
    }
}

fn wrapper(id: &str, height: i32) -> WrapperTransaction {
    WrapperTransaction { id: id.to_string(), block_height: height }
}

fn strings(v: &[&str]) -> Vec<String> {
    v.iter().map(|s| s.to_string()).collect()
}

const IBC_DATA: &str = r#"[{"Ibc":{"address":{"Account":"TNAM1QIBC"},"amount":"5"}},{"Other":1}]"#;
const TRANSFER_DATA: &str =
    r#"{"sources":[{"owner":"tnam1a","token":"tnam1qtok"},{"owner":"tnam1b","token":"tnam1qsecond"}],"targets":[{"token":"tnam1qtarget"}]}"#;

#[test]
fn ibc_transfer_matches_account_ignoring_ascii_case() {
    let tx = inner("i1", "w1", TransactionKind::IbcTransparentTransfer, Some(IBC_DATA));
    assert!(filter_inner_tx_by_tokens(&tx, &strings(&["tnam1qibc"])));
    assert!(!filter_inner_tx_by_tokens(&tx, &strings(&["tnam1qother"])));
    assert_eq!(
        transfer_token_candidates(TransactionKind::IbcShieldingTransfer, IBC_DATA),
        vec![Some("TNAM1QIBC".to_string())]
    );
    // Only the first IBC message names the token.
    let later = r#"[{"Other":1},{"Ibc":{"address":{"Account":"tnam1qibc"}}}]"#;
    let tx = inner("i1b", "w1", TransactionKind::IbcShieldingTransfer, Some(later));
    assert!(!filter_inner_tx_by_tokens(&tx, &strings(&["tnam1qibc"])));
    assert_eq!(transfer_token_candidates(TransactionKind::IbcShieldingTransfer, later), vec![None]);
    assert_eq!(
        transfer_token_candidates(TransactionKind::IbcShieldingTransfer, "[]"),
        Vec::<Option<String>>::new()
    );
}

#[test]
fn regular_transfer_matches_any_source_token() {
    let tx = inner("i2", "w1", TransactionKind::TransparentTransfer, Some(TRANSFER_DATA));
    assert!(filter_inner_tx_by_tokens(&tx, &strings(&["TNAM1QSECOND"])));
    assert!(filter_inner_tx_by_tokens(&tx, &strings(&["x", "tnam1qtok"])));
    assert!(!filter_inner_tx_by_tokens(&tx, &strings(&["tnam1qtarget"])));
    assert_eq!(
        transfer_token_candidates(TransactionKind::Bond, TRANSFER_DATA),
        vec![Some("tnam1qtok".to_string()), Some("tnam1qsecond".to_string())]
    );
}

#[test]
fn token_filter_edge_cases() {
    let no_data = inner("i3", "w1", TransactionKind::TransparentTransfer, None);
    assert!(filter_inner_tx_by_tokens(&no_data, &[]));
    assert!(!filter_inner_tx_by_tokens(&no_data, &strings(&["a"])));
    let broken = inner("i4", "w1", TransactionKind::TransparentTransfer, Some("{not json"));
    assert!(!filter_inner_tx_by_tokens(&broken, &strings(&["a"])));
    assert!(filter_inner_tx_by_tokens(&broken, &[]));
    // A number out of range makes the whole document unreadable.
    let out_of_range = inner(
        "i5",
        "w1",
        TransactionKind::TransparentTransfer,
        Some(r#"{"sources":[{"token":"a"}],"amount":1e999}"#),
    );
    assert!(!filter_inner_tx_by_tokens(&out_of_range, &strings(&["a"])));
    // An IBC transfer whose data is an object is not looked into.
    let ibc_object = inner(
        "i6",
        "w1",
        TransactionKind::IbcUnshieldingTransfer,
        Some(r#"{"sources":[{"token":"a"}]}"#),
    );
    assert!(!filter_inner_tx_by_tokens(&ibc_object, &strings(&["a"])));
    // A later duplicate member wins, as when the document is read as one value.
    let duplicate = inner(
        "i7",
        "w1",
        TransactionKind::ShieldedTransfer,
        Some(r#"{"sources":[{"token":"a"}],"sources":[{"token":"b"}]}"#),
    );
    assert!(filter_inner_tx_by_tokens(&duplicate, &strings(&["b"])));
    assert!(!filter_inner_tx_by_tokens(&duplicate, &strings(&["a"])));
    // A token that is no string is no candidate.
    let numeric = inner("i8", "w1", TransactionKind::Bond, Some(r#"{"sources":[{"token":7}]}"#));
    assert!(!filter_inner_tx_by_tokens(&numeric, &strings(&["7"])));
    // Escapes in the JSON string are decoded before comparing.
    let escaped = inner("i9", "w1", TransactionKind::Bond, Some(r#"{"sources":[{"token":"t\u0041m"}]}"#));
    assert!(filter_inner_tx_by_tokens(&escaped, &strings(&["tam"])));
}

#[test]
fn candidate_matching() {
    assert!(token_matches("AbC", &strings(&["x", "abc"])));
    assert!(!token_matches("abc", &[]));
    let cands = vec![None, Some("TOK".to_string())];
    assert!(any_candidate_matches(&cands, &strings(&["tok"])));
    assert!(!any_candidate_matches(&cands, &strings(&["tik"])));
    assert!(!any_candidate_matches(&vec![], &strings(&["tok"])));
}

#[test]
fn plan_defaults_and_filter_flag() {
    let plain = TransactionMostRecentQueryParams { offset: None, size: None, kind: vec![], token: vec![] };
    let p = plan_recent(&plain);
    assert_eq!((p.offset, p.size, p.filtered), (0, 10, false));
    let q = TransactionMostRecentQueryParams {
        offset: Some(20),
        size: Some(5),
        kind: vec![],
        token: strings(&["t"]),
    };
    let p = plan_recent(&q);
    assert_eq!((p.offset, p.size, p.filtered), (20, 5, true));
}

#[test]
fn wrapper_lookup_outcome() {
    match found_wrapper("abc".to_string(), None) {
        Err(TransactionError::TxIdNotFound(id)) => assert_eq!(id, "abc"),
        _ => panic!("missing wrapper not reported"),
    }
    match found_wrapper("abc".to_string(), Some(wrapper("abc", 3))) {
        Ok(w) => assert_eq!((w.id.as_str(), w.block_height), ("abc", 3)),
        _ => panic!("wrapper lost"),
    }
}

#[test]
fn recent_assembly_pairs_and_defaults() {
    let wrappers = vec![wrapper("w1", 9), wrapper("w2", 8), wrapper("w3", 7)];
    let fetched = vec![
        Ok(vec![inner("i1", "w1", TransactionKind::Bond, None)]),
        Err("down".to_string()),
    ];
    let out = assemble_recent(wrappers, fetched);
    assert_eq!(out.len(), 2);
    assert_eq!(out[0].wrapper.id, "w1");
    assert_eq!(out[0].inner_transactions.len(), 1);
    assert_eq!(out[1].wrapper.id, "w2");
    assert!(out[1].inner_transactions.is_empty());
}

#[test]
fn filtered_assembly_keeps_matching_inners_only() {
    let wrappers = vec![wrapper("w1", 9), wrapper("w2", 8), wrapper("w3", 7)];
    let fetched = vec![
        Ok(vec![
            inner("i1", "w1", TransactionKind::Bond, None),
            inner("i2", "w1", TransactionKind::TransparentTransfer, Some(TRANSFER_DATA)),
        ]),
        Ok(vec![inner("i3", "w2", TransactionKind::Bond, None)]),
        Err("down".to_string()),
    ];
    let kinds = vec![TransactionKind::TransparentTransfer];
    let out = assemble_filtered(wrappers, fetched, &kinds, &strings(&["TNAM1QTOK"]));
    assert_eq!(out.len(), 1);
    assert_eq!(out[0].wrapper.id, "w1");
    assert_eq!(out[0].inner_transactions.len(), 1);
    assert_eq!(out[0].inner_transactions[0].id, "i2");

    let kept = retain_matching_inners(
        vec![
            inner("a", "w", TransactionKind::Bond, None),
            inner("b", "w", TransactionKind::Unbond, None),
            inner("c", "w", TransactionKind::Bond, None),
        ],
        &vec![TransactionKind::Bond],
        &[],
    );
    let ids: Vec<&str> = kept.iter().map(|t| t.id.as_str()).collect();
    assert_eq!(ids, vec!["a", "c"]);
    let all = retain_matching_inners(vec![inner("a", "w", TransactionKind::Bond, None)], &vec![], &[]);
    assert_eq!(all.len(), 1);
}

#[test]
fn no_filter_assembly_drops_only_empty_wrappers() {
    let fetched = || {
        vec![Ok(vec![inner("i1", "w1", TransactionKind::Bond, None)]), Ok(vec![])]
    };
    let filtered = assemble_filtered(vec![wrapper("w1", 2), wrapper("w2", 1)], fetched(), &vec![], &[]);
    let plain = assemble_recent(vec![wrapper("w1", 2), wrapper("w2", 1)], fetched());
    assert_eq!(filtered.len(), 1);
    assert_eq!(plain.len(), 2);
    assert_eq!(filtered[0].wrapper.id, plain[0].wrapper.id);
}

#[test]
fn recent_wrappers_query_filters() {
    let q = recent_wrappers_query(5, 10, &vec![], vec![]);
    assert_eq!((q.offset, q.limit), (5, 10));
    assert!(q.kinds.is_none() && q.tokens.is_none());
    let q = recent_wrappers_query(
        0,
        3,
        &vec![TransactionKind::Bond, TransactionKind::IbcMsgTransfer],
        strings(&["t"]),
    );
    assert_eq!(q.kinds, Some(vec![TransactionKindDb::Bond, TransactionKindDb::IbcMsgTransfer]));
    assert_eq!(q.tokens, Some(strings(&["t"])));
    assert_eq!(regular_transfer_kinds().len(), 5);
    assert_eq!(
        ibc_transfer_kinds(),
        vec![
            TransactionKindDb::IbcTransparentTransfer,
            TransactionKindDb::IbcShieldingTransfer,
            TransactionKindDb::IbcUnshieldingTransfer,
        ]
    );
}

#[test]
fn token_filter_sql_text() {
    let tokens = strings(&["tnam1a", "tnam1b"]);
    assert_eq!(quote_tokens(&tokens), "'tnam1a','tnam1b'");
    assert_eq!(quote_tokens(&vec![]), "");
    let regular_kinds_str = "'transparent_transfer'::transaction_kind,
                                          'shielded_transfer'::transaction_kind,
                                          'shielding_transfer'::transaction_kind,
                                          'unshielding_transfer'::transaction_kind,
                                          'mixed_transfer'::transaction_kind";
    let ibc_kinds_str = "'ibc_transparent_transfer'::transaction_kind,
                                      'ibc_shielding_transfer'::transaction_kind,
                                      'ibc_unshielding_transfer'::transaction_kind";
    let tokens_str = "'tnam1a','tnam1b'";
    let expected = format!(
        "((kind IN ({regular_kinds}) AND ((data::jsonb->'sources'->0->>'token') = ANY(ARRAY[{tokens}]) OR (data::jsonb->'targets'->0->>'token') = ANY(ARRAY[{tokens}])))
                      OR (kind IN ({ibc_kinds}) AND (data::jsonb->0->'Ibc'->'address'->>'Account') = ANY(ARRAY[{tokens}])))",
        regular_kinds = regular_kinds_str,
        ibc_kinds = ibc_kinds_str,
        tokens = tokens_str
    );
    assert_eq!(token_filter_sql(&tokens), expected);
}

#[test]
fn recent_inner_query_conversions() {
    let q = recent_inner_query(Some(u64::MAX), 2, Some(vec![TransactionKindDb::Bond]), None);
    assert_eq!(q.limit, Some(-1));
    assert_eq!(q.page, 2);
    assert!(q.token_filter.is_none());
    assert_eq!(q.kinds, Some(vec![TransactionKindDb::Bond]));
    let q = recent_inner_query(None, 1, None, Some(strings(&["x"])));
    assert_eq!(q.limit, None);
    assert!(q.token_filter.unwrap().contains("ARRAY['x']"));
}

#[test]
fn member_lookup_takes_first_match() {
    let members = vec![
        ("a".to_string(), "1".to_string()),
        ("token".to_string(), "\"x\"".to_string()),
        ("token".to_string(), "\"y\"".to_string()),
    ];
    assert_eq!(find_member(&members, "token"), Some("\"x\"".to_string()));
    assert_eq!(find_member(&members, "b"), None);
    assert_eq!(find_member(&vec![], "a"), None);
}

#[test]
fn sql_escaping_doubles_quotes() {
    assert_eq!(escape_sql("it's"), "it''s");
    assert_eq!(escape_sql("''"), "''''");
    assert_eq!(escape_sql("plain"), "plain");
    assert_eq!(quote_tokens(&strings(&["a'b", "c"])), "'a''b','c'");
    assert!(token_filter_sql(&strings(&["x' OR '1'='1"])).contains("ARRAY['x'' OR ''1''=''1']"));
}

#[test]
fn recent_wrappers_sql_text() {
    let select = "SELECT wrapper_transactions.id, wrapper_transactions.block_height FROM wrapper_transactions";
    let exists = "EXISTS (SELECT 1 FROM inner_transactions WHERE inner_transactions.wrapper_id = wrapper_transactions.id AND ";
    let kind_clause = |p: &str| format!("{}inner_transactions.kind::text = ANY({}))", exists, p);
    let token_clause = |p: &str| {
        format!(
            "{}((inner_transactions.kind::text IN ('transparent_transfer','shielded_transfer','shielding_transfer','unshielding_transfer','mixed_transfer') AND ({} = ANY({}) OR {} = ANY({}))) OR (inner_transactions.kind::text IN ('ibc_transparent_transfer','ibc_shielding_transfer','ibc_unshielding_transfer') AND {} = ANY({}))))",
            exists,
            "COALESCE(inner_transactions.data::jsonb #>> '{sources,0,token}', '')",
            p,
            "COALESCE(inner_transactions.data::jsonb #>> '{targets,0,token}', '')",
            p,
            "COALESCE(inner_transactions.data::jsonb #>> '{0,Ibc,address,Account}', '')",
            p,
        )
    };
    let order = |o: &str, l: &str| {
        format!(" ORDER BY wrapper_transactions.block_height DESC OFFSET {} LIMIT {}", o, l)
    };

    let none = recent_wrappers_sql(recent_wrappers_query(5, 10, &vec![], vec![]));
    assert_eq!(none.text, format!("{}{}", select, order("$1", "$2")));
    assert!(none.kind_labels.is_none() && none.tokens.is_none());
    assert_eq!((none.offset, none.limit), (5, 10));

    let kinds = recent_wrappers_sql(recent_wrappers_query(
        0,
        10,
        &vec![TransactionKind::Bond, TransactionKind::RevealPk],
        vec![],
    ));
    assert_eq!(kinds.text, format!("{} WHERE {}{}", select, kind_clause("$1"), order("$2", "$3")));
    assert_eq!(kinds.kind_labels, Some(strings(&["bond", "reveal_pk"])));

    let tokens = recent_wrappers_sql(recent_wrappers_query(0, 10, &vec![], strings(&["t'1"])));
    assert_eq!(tokens.text, format!("{} WHERE {}{}", select, token_clause("$1"), order("$2", "$3")));
    assert_eq!(tokens.tokens, Some(strings(&["t'1"])));

    let both = recent_wrappers_sql(recent_wrappers_query(
        0,
        10,
        &vec![TransactionKind::Bond],
        strings(&["t1"]),
    ));
    assert_eq!(
        both.text,
        format!(
            "{} WHERE {} AND {}{}",
            select,
            kind_clause("$1"),
            token_clause("$2"),
            order("$3", "$4")
        )
    );

    // Empty lists built by hand set no filter.
    let hand = RecentWrappersQuery { offset: 1, limit: 2, kinds: Some(vec![]), tokens: Some(vec![]) };
    let empty = recent_wrappers_sql(hand);
    assert_eq!(empty.text, format!("{}{}", select, order("$1", "$2")));
    assert!(empty.kind_labels.is_none() && empty.tokens.is_none());
}

#[test]
fn transaction_id_validation() {
    let hash = "A".repeat(32) + &"0f".repeat(16);
    assert!(TransactionIdParam(hash.clone()).is_valid_hash().is_ok());
    assert_eq!(TransactionIdParam(hash.clone()).get(), hash);
    assert!(matches!(
        TransactionIdParam("abc".to_string()).is_valid_hash(),
        Err(TransactionError::InvalidTxId)
    ));
    let bad = "g".repeat(64);
    assert!(TransactionIdParam(bad).is_valid_hash().is_err());
    let long = "0".repeat(65);
    assert!(TransactionIdParam(long).is_valid_hash().is_err());
    let non_ascii = "é".repeat(32);
    assert!(TransactionIdParam(non_ascii).is_valid_hash().is_err());
}
