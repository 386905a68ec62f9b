//! What the repository asks of the database: the filters of the recent
//! transaction queries, and the SQL text of the token filter over inner
//! transactions.

use vstd::prelude::*;
use crate::kind::{
    TransactionKind, TransactionKindDb, db_kind_name, is_ibc_transfer, lemma_db_kind_bijection,
    spec_to_db,
};
use crate::text::string_views;

verus! {

/// The kinds of regular (non-IBC) transfers, whose data has `sources` and
/// `targets` arrays of entries with a `token`.
pub open spec fn spec_regular_transfer_kinds() -> Seq<TransactionKindDb> {
    seq![
        TransactionKindDb::TransparentTransfer,
        TransactionKindDb::ShieldedTransfer,
        TransactionKindDb::ShieldingTransfer,
        TransactionKindDb::UnshieldingTransfer,
        TransactionKindDb::MixedTransfer,
    ]
}

/// The kinds of IBC transfers, whose data is an array of IBC messages.
pub open spec fn spec_ibc_transfer_kinds() -> Seq<TransactionKindDb> {
    seq![
        TransactionKindDb::IbcTransparentTransfer,
        TransactionKindDb::IbcShieldingTransfer,
        TransactionKindDb::IbcUnshieldingTransfer,
    ]
}

/// The kinds of regular transfers.
pub fn regular_transfer_kinds() -> (kinds: Vec<TransactionKindDb>)
    ensures
        kinds@ == spec_regular_transfer_kinds(),
{
    let kinds = vec![
        TransactionKindDb::TransparentTransfer,
        TransactionKindDb::ShieldedTransfer,
        TransactionKindDb::ShieldingTransfer,
        TransactionKindDb::UnshieldingTransfer,
        TransactionKindDb::MixedTransfer,
    ];
    assert(kinds@ =~= spec_regular_transfer_kinds());
    kinds
}

/// The kinds of IBC transfers.
pub fn ibc_transfer_kinds() -> (kinds: Vec<TransactionKindDb>)
    ensures
        kinds@ == spec_ibc_transfer_kinds(),
{
    let kinds = vec![
        TransactionKindDb::IbcTransparentTransfer,
        TransactionKindDb::IbcShieldingTransfer,
        TransactionKindDb::IbcUnshieldingTransfer,
    ];
    assert(kinds@ =~= spec_ibc_transfer_kinds());
    kinds
}

/// The token of the first source of a transfer, as non-null SQL text.
pub const SOURCES_TOKEN_SQL: &'static str = "COALESCE(inner_transactions.data::jsonb #>> '{sources,0,token}', '')";

/// The token of the first target of a transfer, as non-null SQL text.
pub const TARGETS_TOKEN_SQL: &'static str = "COALESCE(inner_transactions.data::jsonb #>> '{targets,0,token}', '')";

/// The account of the first IBC message, as non-null SQL text.
pub const IBC_ACCOUNT_SQL: &'static str = "COALESCE(inner_transactions.data::jsonb #>> '{0,Ibc,address,Account}', '')";

/// The filters of a query for the most recent wrapper transactions.
pub struct RecentWrappersQuery {
    /// How many wrapper transactions to skip, by descending block height.
    pub offset: i64,
    /// How many wrapper transactions to return.
    pub limit: i64,
    /// When present, only wrappers with an inner transaction of one of these
    /// kinds.
    pub kinds: Option<Vec<TransactionKindDb>>,
    /// When present, only wrappers with an inner transfer whose first source
    /// or target token, or whose first IBC account, is one of these.
    pub tokens: Option<Vec<String>>,
}

/// The query for the most recent wrapper transactions that have an inner
/// transaction of one of the kinds and one that moves one of the tokens; an
/// empty list of kinds or tokens sets no filter.
pub fn recent_wrappers_query(
    offset: i64,
    size: i32,
    kinds: &Vec<TransactionKind>,
    tokens: Vec<String>,
) -> (query: RecentWrappersQuery)
    ensures
        query.offset == offset,
        query.limit == size as i64,
        match query.kinds {
            None => kinds@.len() == 0,
            Some(db) => kinds@.len() > 0 && db@ == kinds@.map_values(
                |k: TransactionKind| spec_to_db(k),
            ),
        },
        match query.tokens {
            None => tokens@.len() == 0,
            Some(t) => tokens@.len() > 0 && t@ == tokens@,
        },
{
    let db_kinds = if kinds.len() == 0 {
        None
    } else {
        let mut db: Vec<TransactionKindDb> = Vec::new();
        let mut i: usize = 0;
        while i < kinds.len()
            invariant
                i <= kinds@.len(),
                db@ == kinds@.take(i as int).map_values(|k: TransactionKind| spec_to_db(k)),
            decreases kinds@.len() - i,
        {
            db.push(kinds[i].to_db());
            assert(kinds@.take(i + 1).map_values(|k: TransactionKind| spec_to_db(k))
                =~= kinds@.take(i as int).map_values(|k: TransactionKind| spec_to_db(k)).push(
                spec_to_db(kinds@[i as int]),
            ));
            i = i + 1;
        }
        assert(kinds@.take(kinds@.len() as int) =~= kinds@);
        Some(db)
    };
    let db_tokens = if tokens.len() == 0 {
        None
    } else {
        Some(tokens)
    };
    RecentWrappersQuery { offset, limit: size as i64, kinds: db_kinds, tokens: db_tokens }
}

/// The regular transfer kinds as an SQL list of enumeration values.
pub const REGULAR_KINDS_SQL: &'static str = "'transparent_transfer'::transaction_kind,\n                                          'shielded_transfer'::transaction_kind,\n                                          'shielding_transfer'::transaction_kind,\n                                          'unshielding_transfer'::transaction_kind,\n                                          'mixed_transfer'::transaction_kind";

/// The IBC transfer kinds as an SQL list of enumeration values.
pub const IBC_KINDS_SQL: &'static str = "'ibc_transparent_transfer'::transaction_kind,\n                                      'ibc_shielding_transfer'::transaction_kind,\n                                      'ibc_unshielding_transfer'::transaction_kind";

/// The pieces of the token filter's SQL text around the kind lists and the
/// token lists.
pub const TOKEN_FILTER_OPEN: &'static str = "((kind IN (";
pub const TOKEN_FILTER_SOURCES: &'static str = ") AND ((data::jsonb->'sources'->0->>'token') = ANY(ARRAY[";
pub const TOKEN_FILTER_TARGETS: &'static str = "]) OR (data::jsonb->'targets'->0->>'token') = ANY(ARRAY[";
pub const TOKEN_FILTER_IBC_KINDS: &'static str = "])))\n                      OR (kind IN (";
pub const TOKEN_FILTER_IBC_ACCOUNT: &'static str = ") AND (data::jsonb->0->'Ibc'->'address'->>'Account') = ANY(ARRAY[";
pub const TOKEN_FILTER_CLOSE: &'static str = "])))";

/// `s` as the body of an SQL string literal: each single quote doubled.
pub open spec fn sql_escape(s: Seq<char>) -> Seq<char>
    decreases s.len(),
{
    if s.len() == 0 {
        seq![]
    } else if s.last() == '\'' {
        sql_escape(s.drop_last()) + "''"@
    } else {
        sql_escape(s.drop_last()).push(s.last())
    }
}

/// Escaping works character by character: the escape of two texts one after
/// the other is their escapes one after the other; a single quote becomes two
/// single quotes, and any other character stays as it is.
pub proof fn lemma_sql_escape(a: Seq<char>, b: Seq<char>, c: char)
    ensures
        sql_escape(a + b) == sql_escape(a) + sql_escape(b),
        sql_escape(seq![c]) == if c == '\'' {
            seq!['\'', '\'']
        } else {
            seq![c]
        },
    decreases b.len(),
{
    reveal_strlit("''");
    let one = seq![c];
    assert(one.drop_last() =~= Seq::<char>::empty());
    assert(one.last() == c);
    assert(sql_escape(Seq::<char>::empty()) =~= Seq::<char>::empty());
    assert(sql_escape(one.drop_last()) =~= Seq::<char>::empty());
    assert("''"@ =~= seq!['\'', '\'']);
    if c == '\'' {
        assert(sql_escape(seq![c]) =~= seq!['\'', '\'']);
    } else {
        assert(sql_escape(seq![c]) =~= seq![c]);
    }
    if b.len() == 0 {
        assert(a + b =~= a);
        assert(sql_escape(a) + sql_escape(b) =~= sql_escape(a));
    } else {
        lemma_sql_escape(a, b.drop_last(), c);
        assert((a + b).drop_last() =~= a + b.drop_last());
        assert((a + b).last() == b.last());
        if b.last() == '\'' {
            assert(sql_escape(a) + sql_escape(b) =~= sql_escape(a) + sql_escape(b.drop_last())
                + "''"@);
        } else {
            assert(sql_escape(a) + sql_escape(b) =~= (sql_escape(a) + sql_escape(
                b.drop_last(),
            )).push(b.last()));
        }
    }
}

/// The body of an SQL string literal holding `s`.
pub fn escape_sql(s: &str) -> (escaped: String)
    ensures
        escaped@ == sql_escape(s@),
{
    let n = s.unicode_len();
    let mut escaped = String::new();
    let mut i: usize = 0;
    assert(s@.take(0) =~= Seq::<char>::empty());
    while i < n
        invariant
            n == s@.len(),
            i <= n,
            escaped@ == sql_escape(s@.take(i as int)),
        decreases n - i,
    {
        let ghost before = escaped@;
        let c = s.get_char(i);
        if c == '\'' {
            escaped.append("''");
        } else {
            escaped.append(s.substring_char(i, i + 1));
        }
        proof {
            let prefix = s@.take(i + 1);
            assert(prefix.drop_last() =~= s@.take(i as int));
            assert(prefix.last() == c);
            if c != '\'' {
                assert(escaped@ =~= before.push(c));
            }
        }
        i = i + 1;
    }
    assert(s@.take(n as int) =~= s@);
    escaped
}

/// The tokens as SQL string literals: each between single quotes, with its
/// own single quotes doubled, separated by commas.
pub open spec fn quoted_token_list(tokens: Seq<Seq<char>>) -> Seq<char>
    decreases tokens.len(),
{
    if tokens.len() == 0 {
        seq![]
    } else if tokens.len() == 1 {
        "'"@ + sql_escape(tokens[0]) + "'"@
    } else {
        quoted_token_list(tokens.drop_last()) + ","@ + "'"@ + sql_escape(tokens.last()) + "'"@
    }
}

/// The SQL condition that an inner transaction is a regular transfer whose
/// first source or target token is one of the tokens, or an IBC transfer whose
/// first IBC account is one of them.
pub open spec fn token_filter_sql_text(tokens: Seq<Seq<char>>) -> Seq<char> {
    let list = quoted_token_list(tokens);
    TOKEN_FILTER_OPEN@ + REGULAR_KINDS_SQL@ + TOKEN_FILTER_SOURCES@ + list + TOKEN_FILTER_TARGETS@
        + list + TOKEN_FILTER_IBC_KINDS@ + IBC_KINDS_SQL@ + TOKEN_FILTER_IBC_ACCOUNT@ + list
        + TOKEN_FILTER_CLOSE@
}

/// The tokens as SQL string literals separated by commas.
pub fn quote_tokens(tokens: &Vec<String>) -> (list: String)
    ensures
        list@ == quoted_token_list(string_views(tokens@)),
{
    let ghost views = string_views(tokens@);
    let mut list = String::new();
    let mut i: usize = 0;
    assert(views.take(0) =~= Seq::<Seq<char>>::empty());
    while i < tokens.len()
        invariant
            i <= tokens@.len(),
            views == string_views(tokens@),
            list@ == quoted_token_list(views.take(i as int)),
        decreases tokens@.len() - i,
    {
        let ghost before = list@;
        if i > 0 {
            list.append(",");
        }
        list.append("'");
        let escaped = escape_sql(tokens[i].as_str());
        list.append(escaped.as_str());
        list.append("'");
        proof {
            let prefix = views.take(i + 1);
            assert(prefix.drop_last() =~= views.take(i as int));
            assert(prefix.last() == tokens@[i as int]@);
            if i == 0 {
                assert(before =~= Seq::<char>::empty());
                assert(list@ =~= "'"@ + sql_escape(prefix[0]) + "'"@);
            } else {
                assert(list@ =~= before + ","@ + "'"@ + sql_escape(prefix.last()) + "'"@);
            }
        }
        i = i + 1;
    }
    assert(views.take(tokens@.len() as int) =~= views);
    list
}

/// The SQL condition of the token filter over inner transactions, for the
/// given tokens. The tokens are written into the text as SQL string
/// literals, their single quotes doubled.
pub fn token_filter_sql(tokens: &Vec<String>) -> (sql: String)
    ensures
        sql@ == token_filter_sql_text(string_views(tokens@)),
{
    let list = quote_tokens(tokens);
    let mut sql = String::new();
    sql.append(TOKEN_FILTER_OPEN);
    sql.append(REGULAR_KINDS_SQL);
    sql.append(TOKEN_FILTER_SOURCES);
    sql.append(list.as_str());
    sql.append(TOKEN_FILTER_TARGETS);
    sql.append(list.as_str());
    sql.append(TOKEN_FILTER_IBC_KINDS);
    sql.append(IBC_KINDS_SQL);
    sql.append(TOKEN_FILTER_IBC_ACCOUNT);
    sql.append(list.as_str());
    sql.append(TOKEN_FILTER_CLOSE);
    sql
}

/// The query for recent inner transactions with the block heights of their
/// wrappers, by descending height.
pub struct RecentInnerQuery {
    /// When present, only inner transactions of these kinds.
    pub kinds: Option<Vec<TransactionKindDb>>,
    /// When present, the SQL condition of the token filter.
    pub token_filter: Option<String>,
    /// When present, the most rows to consider.
    pub limit: Option<i64>,
    /// The page of results.
    pub page: i64,
}

/// The query for recent inner transactions: the kinds as given, the token
/// condition of the tokens when given, and the limit converted to the
/// database's signed integers (wrapping above `i64::MAX`).
pub fn recent_inner_query(
    limit: Option<u64>,
    page: i64,
    kinds: Option<Vec<TransactionKindDb>>,
    tokens: Option<Vec<String>>,
) -> (query: RecentInnerQuery)
    ensures
        query.page == page,
        query.kinds == kinds,
        match tokens {
            None => query.token_filter is None,
            Some(t) => query.token_filter matches Some(sql) && sql@ == token_filter_sql_text(
                string_views(t@),
            ),
        },
        query.limit == match limit {
            Some(l) => Some(l as i64),
            None => None::<i64>,
        },
{
    let token_filter = match &tokens {
        Some(t) => Some(token_filter_sql(t)),
        None => None,
    };
    let limit = match limit {
        Some(l) => Some(l as i64),
        None => None,
    };
    RecentInnerQuery { kinds, token_filter, limit, page }
}

/// The opening of a subquery that holds when the wrapper has an inner
/// transaction satisfying the condition that follows.
pub const EXISTS_INNER_SQL: &'static str = "EXISTS (SELECT 1 FROM inner_transactions WHERE inner_transactions.wrapper_id = wrapper_transactions.id AND ";

/// The opening of a test that an inner transaction's kind is in a list.
pub const KIND_IN_SQL: &'static str = "inner_transactions.kind::text IN (";

/// The selection of wrapper transactions.
pub const SELECT_WRAPPERS_SQL: &'static str = "SELECT wrapper_transactions.id, wrapper_transactions.block_height FROM wrapper_transactions";

/// The labels of database kinds, in order.
pub open spec fn db_labels(kinds: Seq<TransactionKindDb>) -> Seq<Seq<char>> {
    kinds.map_values(|k: TransactionKindDb| db_kind_name(k))
}

/// The condition that a wrapper has an inner transaction whose kind label is
/// in the array parameter `param`.
pub open spec fn kind_exists_sql(param: Seq<char>) -> Seq<char> {
    EXISTS_INNER_SQL@ + "inner_transactions.kind::text = ANY("@ + param + "))"@
}

/// The condition that a wrapper has an inner transfer that moves one of the
/// tokens of the array parameter `param`: a regular transfer whose first
/// source or first target token is one of them, or an IBC transfer whose
/// first IBC account is one of them.
pub open spec fn token_exists_sql(param: Seq<char>) -> Seq<char> {
    EXISTS_INNER_SQL@ + "(("@ + KIND_IN_SQL@ + quoted_token_list(
        db_labels(spec_regular_transfer_kinds()),
    ) + ") AND ("@ + SOURCES_TOKEN_SQL@ + " = ANY("@ + param + ") OR "@ + TARGETS_TOKEN_SQL@
        + " = ANY("@ + param + "))) OR ("@ + KIND_IN_SQL@ + quoted_token_list(
        db_labels(spec_ibc_transfer_kinds()),
    ) + ") AND "@ + IBC_ACCOUNT_SQL@ + " = ANY("@ + param + "))))"@
}

/// The ordering by descending block height, and the window given by the
/// parameters `offset` and `limit`.
pub open spec fn order_window_sql(offset: Seq<char>, limit: Seq<char>) -> Seq<char> {
    " ORDER BY wrapper_transactions.block_height DESC OFFSET "@ + offset + " LIMIT "@ + limit
}

/// The SQL text of the query for recent wrappers. Its parameters are
/// numbered in this order: the kind labels when kinds are filtered, the
/// tokens when tokens are filtered, then the offset and the limit.
pub open spec fn recent_wrappers_sql_text(by_kind: bool, by_token: bool) -> Seq<char> {
    if by_kind && by_token {
        SELECT_WRAPPERS_SQL@ + " WHERE "@ + kind_exists_sql("$1"@) + " AND "@ + token_exists_sql(
            "$2"@,
        ) + order_window_sql("$3"@, "$4"@)
    } else if by_kind {
        SELECT_WRAPPERS_SQL@ + " WHERE "@ + kind_exists_sql("$1"@) + order_window_sql("$2"@, "$3"@)
    } else if by_token {
        SELECT_WRAPPERS_SQL@ + " WHERE "@ + token_exists_sql("$1"@) + order_window_sql("$2"@, "$3"@)
    } else {
        SELECT_WRAPPERS_SQL@ + order_window_sql("$1"@, "$2"@)
    }
}

/// Whether an optional list sets a filter: it is present and not empty.
pub open spec fn filters<T>(list: Option<Vec<T>>) -> bool {
    list matches Some(v) && v@.len() > 0
}

/// The query for recent wrappers as SQL text with the values of its
/// parameters, which are bound in the order of the fields present: the kind
/// labels, the tokens, the offset and the limit.
pub struct RecentWrappersSql {
    pub text: String,
    pub kind_labels: Option<Vec<String>>,
    pub tokens: Option<Vec<String>>,
    pub offset: i64,
    pub limit: i64,
}

/// The labels of database kinds.
pub fn labels_of(kinds: &Vec<TransactionKindDb>) -> (labels: Vec<String>)
    ensures
        string_views(labels@) == db_labels(kinds@),
{
    let mut labels: Vec<String> = Vec::new();
    let mut i: usize = 0;
    assert(string_views(labels@) =~= db_labels(kinds@.take(0)));
    while i < kinds.len()
        invariant
            i <= kinds@.len(),
            string_views(labels@) == db_labels(kinds@.take(i as int)),
        decreases kinds@.len() - i,
    {
        let mut label = String::new();
        label.append(kinds[i].db_name());
        assert(label@ =~= db_kind_name(kinds@[i as int]));
        let ghost before = labels@;
        labels.push(label);
        assert(string_views(labels@) =~= string_views(before).push(db_kind_name(kinds@[i as int])));
        assert(db_labels(kinds@.take(i + 1)) =~= db_labels(kinds@.take(i as int)).push(
            db_kind_name(kinds@[i as int]),
        ));
        i = i + 1;
    }
    assert(kinds@.take(kinds@.len() as int) =~= kinds@);
    labels
}

fn append_kind_exists(sql: &mut String, param: &str)
    ensures
        final(sql)@ == old(sql)@ + kind_exists_sql(param@),
{
    sql.append(EXISTS_INNER_SQL);
    sql.append("inner_transactions.kind::text = ANY(");
    sql.append(param);
    sql.append("))");
}

fn append_token_exists(sql: &mut String, param: &str)
    ensures
        final(sql)@ == old(sql)@ + token_exists_sql(param@),
{
    let regular = quote_tokens(&labels_of(&regular_transfer_kinds()));
    let ibc = quote_tokens(&labels_of(&ibc_transfer_kinds()));
    sql.append(EXISTS_INNER_SQL);
    sql.append("((");
    sql.append(KIND_IN_SQL);
    sql.append(regular.as_str());
    sql.append(") AND (");
    sql.append(SOURCES_TOKEN_SQL);
    sql.append(" = ANY(");
    sql.append(param);
    sql.append(") OR ");
    sql.append(TARGETS_TOKEN_SQL);
    sql.append(" = ANY(");
    sql.append(param);
    sql.append("))) OR (");
    sql.append(KIND_IN_SQL);
    sql.append(ibc.as_str());
    sql.append(") AND ");
    sql.append(IBC_ACCOUNT_SQL);
    sql.append(" = ANY(");
    sql.append(param);
    sql.append("))))");
    assert(final(sql)@ =~= old(sql)@ + token_exists_sql(param@));
}

fn append_order_window(sql: &mut String, offset: &str, limit: &str)
    ensures
        final(sql)@ == old(sql)@ + order_window_sql(offset@, limit@),
{
    sql.append(" ORDER BY wrapper_transactions.block_height DESC OFFSET ");
    sql.append(offset);
    sql.append(" LIMIT ");
    sql.append(limit);
    assert(final(sql)@ =~= old(sql)@ + order_window_sql(offset@, limit@));
}

/// The query for recent wrappers as SQL text: a filter on the kinds when the
/// query has kinds, a filter on the tokens when it has tokens (an empty list
/// sets no filter), with the kind labels and the tokens as bound parameters.
pub fn recent_wrappers_sql(query: RecentWrappersQuery) -> (sql: RecentWrappersSql)
    ensures
        sql.text@ == recent_wrappers_sql_text(filters(query.kinds), filters(query.tokens)),
        sql.offset == query.offset,
        sql.limit == query.limit,
        match sql.kind_labels {
            Some(labels) => filters(query.kinds) && string_views(labels@) == db_labels(
                query.kinds->0@,
            ),
            None => !filters(query.kinds),
        },
        match sql.tokens {
            Some(tokens) => filters(query.tokens) && tokens@ == query.tokens->0@,
            None => !filters(query.tokens),
        },
{
    let kind_labels = match &query.kinds {
        Some(k) => if k.len() > 0 {
            Some(labels_of(k))
        } else {
            None
        },
        None => None,
    };
    let tokens = match query.tokens {
        Some(t) => if t.len() > 0 {
            Some(t)
        } else {
            None
        },
        None => None,
    };
    let mut text = String::new();
    text.append(SELECT_WRAPPERS_SQL);
    match (&kind_labels, &tokens) {
        (Some(_), Some(_)) => {
            text.append(" WHERE ");
            append_kind_exists(&mut text, "$1");
            text.append(" AND ");
            append_token_exists(&mut text, "$2");
            append_order_window(&mut text, "$3", "$4");
        },
        (Some(_), None) => {
            text.append(" WHERE ");
            append_kind_exists(&mut text, "$1");
            append_order_window(&mut text, "$2", "$3");
        },
        (None, Some(_)) => {
            text.append(" WHERE ");
            append_token_exists(&mut text, "$1");
            append_order_window(&mut text, "$2", "$3");
        },
        (None, None) => {
            append_order_window(&mut text, "$1", "$2");
        },
    }
    assert(text@ =~= recent_wrappers_sql_text(filters(query.kinds), filters(query.tokens)));
    RecentWrappersSql { text, kind_labels, tokens, offset: query.offset, limit: query.limit }
}

/// The IBC transfer kinds that the database query lists are the database
/// kinds of exactly the kinds whose data is read as IBC messages.
pub proof fn lemma_ibc_kinds_agree(kind: TransactionKind)
    ensures
        spec_ibc_transfer_kinds().contains(spec_to_db(kind)) <==> is_ibc_transfer(kind),
{
    let ibc = spec_ibc_transfer_kinds();
    if is_ibc_transfer(kind) {
        if kind == TransactionKind::IbcTransparentTransfer {
            assert(ibc[0] == spec_to_db(kind));
        } else if kind == TransactionKind::IbcShieldingTransfer {
            assert(ibc[1] == spec_to_db(kind));
        } else {
            assert(ibc[2] == spec_to_db(kind));
        }
    }
    if ibc.contains(spec_to_db(kind)) {
        let i = choose|i: int| 0 <= i < ibc.len() && ibc[i] == spec_to_db(kind);
        lemma_db_kind_bijection(kind, spec_to_db(kind));
        lemma_db_kind_bijection(kind, ibc[i]);
    }
}

/// The database's kind filter and the handlers' kind filter agree: a kind is
/// among the requested kinds exactly when its database kind is among the
/// database kinds that the query asks for.
pub proof fn lemma_db_kind_filter_agrees(kinds: Seq<TransactionKind>, kind: TransactionKind)
    ensures
        kinds.map_values(|k: TransactionKind| spec_to_db(k)).contains(spec_to_db(kind))
            <==> kinds.contains(kind),
{
    let db = kinds.map_values(|k: TransactionKind| spec_to_db(k));
    if db.contains(spec_to_db(kind)) {
        let i = choose|i: int| 0 <= i < db.len() && db[i] == spec_to_db(kind);
        lemma_db_kind_bijection(kinds[i], spec_to_db(kind));
        lemma_db_kind_bijection(kind, spec_to_db(kind));
        assert(kinds[i] == kind);
    }
    if kinds.contains(kind) {
        let i = choose|i: int| 0 <= i < kinds.len() && kinds[i] == kind;
        assert(db[i] == spec_to_db(kind));
    }
}

} // verus!
