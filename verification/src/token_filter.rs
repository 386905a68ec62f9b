//! The token filter over the JSON data of transfers: which token addresses a
//! transfer names, and whether one of them is asked for.

use vstd::prelude::*;
use crate::entity::{InnerTransaction, InnerTransactionView};
use crate::json::{
    json_array_elements, json_document_parses, json_elements, json_members, json_object_members,
    json_parses, json_string, json_string_content, pair_views,
};
use crate::kind::{TransactionKind, is_ibc_transfer};
use crate::text::{ascii_fold, eq_ignore_ascii_case, str_eq, str_eq_ignore_ascii_case, string_views};

verus! {

/// The view of an optional string.
pub open spec fn opt_view(o: Option<String>) -> Option<Seq<char>> {
    match o {
        Some(s) => Some(s@),
        None => None,
    }
}

/// The value text of the first member whose key is `key`.
pub open spec fn lookup_member(members: Seq<(Seq<char>, Seq<char>)>, key: Seq<char>) -> Option<
    Seq<char>,
>
    decreases members.len(),
{
    if members.len() == 0 {
        None
    } else if members[0].0 == key {
        Some(members[0].1)
    } else {
        lookup_member(members.drop_first(), key)
    }
}

/// The value text of member `key` of the JSON object `text`; none when `text`
/// is no object or has no such member.
pub open spec fn json_member(text: Seq<char>, key: Seq<char>) -> Option<Seq<char>> {
    match json_object_members(text) {
        Some(members) => lookup_member(members, key),
        None => None,
    }
}

/// `json_member` of an optional text.
pub open spec fn member_of(text: Option<Seq<char>>, key: Seq<char>) -> Option<Seq<char>> {
    match text {
        Some(t) => json_member(t, key),
        None => None,
    }
}

/// The content of an optional text that is a JSON string.
pub open spec fn string_of(text: Option<Seq<char>>) -> Option<Seq<char>> {
    match text {
        Some(t) => json_string_content(t),
        None => None,
    }
}

/// The account of an IBC message: the string at `Ibc.address.Account`.
pub open spec fn ibc_account(item: Seq<char>) -> Option<Seq<char>> {
    string_of(member_of(member_of(json_member(item, "Ibc"@), "address"@), "Account"@))
}

/// The token of a transfer source: the string at `token`.
pub open spec fn source_token(source: Seq<char>) -> Option<Seq<char>> {
    string_of(json_member(source, "token"@))
}

/// The token addresses that the data of a transfer names, one entry for each
/// element it looks at: for an IBC transfer, the first element of the data
/// array; for another kind, each element of the `sources` array of the data
/// object.
/// None when the data is no JSON document or has not that shape.
pub open spec fn token_candidates(kind: TransactionKind, data: Seq<char>) -> Seq<
    Option<Seq<char>>,
> {
    if !json_document_parses(data) {
        seq![]
    } else if is_ibc_transfer(kind) {
        match json_array_elements(data) {
            Some(items) => if items.len() > 0 {
                seq![ibc_account(items[0])]
            } else {
                seq![]
            },
            None => seq![],
        }
    } else {
        match member_of(Some(data), "sources"@) {
            Some(sources) => match json_array_elements(sources) {
                Some(items) => items.map_values(|item: Seq<char>| source_token(item)),
                None => seq![],
            },
            None => seq![],
        }
    }
}

/// Whether `candidate` equals one of the filter's tokens up to ASCII case.
pub open spec fn matches_token(candidate: Seq<char>, filter: Seq<Seq<char>>) -> bool {
    exists|j: int| 0 <= j < filter.len() && eq_ignore_ascii_case(candidate, #[trigger] filter[j])
}

/// Whether one of the candidates is present and matches the filter.
pub open spec fn some_candidate_matches(
    candidates: Seq<Option<Seq<char>>>,
    filter: Seq<Seq<char>>,
) -> bool {
    exists|i: int|
        0 <= i < candidates.len() && (#[trigger] candidates[i] matches Some(c) && matches_token(
            c,
            filter,
        ))
}

/// Whether an inner transaction passes a token filter: every transaction
/// passes an empty filter; otherwise one with data passes when a token that
/// its data names matches one of the filter's.
pub open spec fn passes_token_filter(tx: InnerTransactionView, filter: Seq<Seq<char>>) -> bool {
    filter.len() == 0 || match tx.data {
        Some(data) => some_candidate_matches(token_candidates(tx.kind, data), filter),
        None => false,
    }
}

/// The value text of the first member whose key is `key`.
pub fn find_member(members: &Vec<(String, String)>, key: &str) -> (value: Option<String>)
    ensures
        opt_view(value) == lookup_member(pair_views(members@), key@),
{
    let ghost views = pair_views(members@);
    let mut i: usize = 0;
    assert(views.skip(0) =~= views);
    while i < members.len()
        invariant
            i <= members.len(),
            views == pair_views(members@),
            lookup_member(views, key@) == lookup_member(views.skip(i as int), key@),
        decreases members.len() - i,
    {
        assert(views.skip(i as int)[0] == views[i as int]);
        if str_eq(members[i].0.as_str(), key) {
            let mut found = String::new();
            found.append(members[i].1.as_str());
            return Some(found);
        }
        assert(views.skip(i as int).drop_first() =~= views.skip(i + 1));
        i = i + 1;
    }
    None
}

/// The value text of member `key` of the JSON object `text`.
fn member(text: &str, key: &str) -> (value: Option<String>)
    ensures
        opt_view(value) == json_member(text@, key@),
{
    match json_members(text) {
        None => None,
        Some(members) => find_member(&members, key),
    }
}

/// `member` of an optional text.
fn member_opt(text: Option<String>, key: &str) -> (value: Option<String>)
    ensures
        opt_view(value) == member_of(opt_view(text), key@),
{
    match text {
        Some(t) => member(t.as_str(), key),
        None => None,
    }
}

/// The content of an optional text that is a JSON string.
fn string_opt(text: Option<String>) -> (content: Option<String>)
    ensures
        opt_view(content) == string_of(opt_view(text)),
{
    match text {
        Some(t) => json_string(t.as_str()),
        None => None,
    }
}

/// The token addresses that the data of a transfer of kind `kind` names.
pub fn transfer_token_candidates(kind: TransactionKind, data: &str) -> (candidates: Vec<
    Option<String>,
>)
    ensures
        candidates@.map_values(|c: Option<String>| opt_view(c)) == token_candidates(kind, data@),
{
    let mut candidates: Vec<Option<String>> = Vec::new();
    if !json_parses(data) {
        assert(candidates@.map_values(|c: Option<String>| opt_view(c)) =~= seq![]);
        return candidates;
    }
    if kind.is_ibc_transfer() {
        if let Some(items) = json_elements(data) {
            if items.len() > 0 {
                let ibc = member(items[0].as_str(), "Ibc");
                let address = member_opt(ibc, "address");
                let account = member_opt(address, "Account");
                candidates.push(string_opt(account));
            }
        }
        assert(candidates@.map_values(|c: Option<String>| opt_view(c)) =~= token_candidates(
            kind,
            data@,
        ));
        return candidates;
    }
    let elements = match member(data, "sources") {
        Some(sources) => json_elements(sources.as_str()),
        None => None,
    };
    let items = match elements {
        Some(items) => items,
        None => {
            assert(candidates@.map_values(|c: Option<String>| opt_view(c)) =~= seq![]);
            return candidates;
        },
    };
    let ghost item_views = string_views(items@);
    let mut i: usize = 0;
    while i < items.len()
        invariant
            i <= items.len(),
            item_views == string_views(items@),
            candidates@.len() == i,
            forall|j: int|
                0 <= j < i ==> opt_view(#[trigger] candidates@[j]) == source_token(item_views[j]),
        decreases items.len() - i,
    {
        candidates.push(string_opt(member(items[i].as_str(), "token")));
        i = i + 1;
    }
    assert(candidates@.map_values(|c: Option<String>| opt_view(c)) =~= item_views.map_values(
        |item: Seq<char>| source_token(item),
    ));
    candidates
}

/// Whether `candidate` equals one of the filter's tokens up to ASCII case.
pub fn token_matches(candidate: &str, token_filter: &[String]) -> (matched: bool)
    ensures
        matched == matches_token(candidate@, string_views(token_filter@)),
        matched <==> exists|j: int|
            0 <= j < token_filter@.len() && eq_ignore_ascii_case(
                candidate@,
                #[trigger] token_filter@[j]@,
            ),
{
    let ghost filter = string_views(token_filter@);
    let mut j: usize = 0;
    while j < token_filter.len()
        invariant
            j <= token_filter@.len(),
            filter == string_views(token_filter@),
            forall|k: int| 0 <= k < j ==> !eq_ignore_ascii_case(candidate@, #[trigger] filter[k]),
        decreases token_filter@.len() - j,
    {
        if str_eq_ignore_ascii_case(candidate, token_filter[j].as_str()) {
            assert(eq_ignore_ascii_case(candidate@, filter[j as int]));
            assert(eq_ignore_ascii_case(candidate@, token_filter@[j as int]@));
            return true;
        }
        j = j + 1;
    }
    assert forall|k: int| 0 <= k < token_filter@.len() implies !eq_ignore_ascii_case(
        candidate@,
        #[trigger] token_filter@[k]@,
    ) by {
        assert(filter[k] == token_filter@[k]@);
    }
    false
}

/// Whether one of the candidates is present and matches the filter.
pub fn any_candidate_matches(candidates: &Vec<Option<String>>, token_filter: &[String]) -> (matched:
    bool)
    ensures
        matched == some_candidate_matches(
            candidates@.map_values(|c: Option<String>| opt_view(c)),
            string_views(token_filter@),
        ),
{
    let ghost views = candidates@.map_values(|c: Option<String>| opt_view(c));
    let ghost filter = string_views(token_filter@);
    let mut i: usize = 0;
    while i < candidates.len()
        invariant
            i <= candidates@.len(),
            views == candidates@.map_values(|c: Option<String>| opt_view(c)),
            filter == string_views(token_filter@),
            forall|k: int|
                0 <= k < i ==> !(#[trigger] views[k] matches Some(c) && matches_token(c, filter)),
        decreases candidates@.len() - i,
    {
        if let Some(c) = &candidates[i] {
            if token_matches(c.as_str(), token_filter) {
                assert(views[i as int] matches Some(c) && matches_token(c, filter));
                return true;
            }
        }
        i = i + 1;
    }
    false
}

/// Filters a single inner transaction by the token addresses involved, for
/// transfers: true for an empty filter; otherwise true when a token that the
/// transaction's data names matches one of the filter's up to ASCII case.
/// The data of an IBC transfer is read as an array of IBC messages, of which
/// the first names the token. The data of every other kind, transfer or not,
/// is read for a `sources` array, so a non-transfer whose data holds a
/// matching `sources` list passes too.
pub fn filter_inner_tx_by_tokens(inner_tx: &InnerTransaction, token_filter: &[String]) -> (keep:
    bool)
    ensures
        keep == passes_token_filter(inner_tx@, string_views(token_filter@)),
{
    if token_filter.len() == 0 {
        return true;
    }
    match &inner_tx.data {
        None => false,
        Some(data) => {
            let candidates = transfer_token_candidates(inner_tx.kind, data.as_str());
            any_candidate_matches(&candidates, token_filter)
        },
    }
}

/// Token filters that differ only in the ASCII case of their tokens keep the
/// same inner transactions.
pub proof fn lemma_token_filter_ignores_ascii_case(
    tx: InnerTransactionView,
    filter: Seq<Seq<char>>,
    other: Seq<Seq<char>>,
)
    requires
        filter.len() == other.len(),
        forall|j: int| 0 <= j < filter.len() ==> eq_ignore_ascii_case(#[trigger] filter[j], other[j]),
    ensures
        passes_token_filter(tx, filter) == passes_token_filter(tx, other),
{
    assert forall|c: Seq<char>| matches_token(c, filter) == matches_token(c, other) by {
        if matches_token(c, filter) {
            let j = choose|j: int| 0 <= j < filter.len() && eq_ignore_ascii_case(c, #[trigger] filter[j]);
            assert(eq_ignore_ascii_case(filter[j], other[j]));
            assert(eq_ignore_ascii_case(c, other[j]));
        }
        if matches_token(c, other) {
            let j = choose|j: int| 0 <= j < other.len() && eq_ignore_ascii_case(c, #[trigger] other[j]);
            assert(eq_ignore_ascii_case(filter[j], other[j]));
            assert(eq_ignore_ascii_case(c, filter[j]));
        }
    }
    if let Some(data) = tx.data {
        let cands = token_candidates(tx.kind, data);
        if some_candidate_matches(cands, filter) {
            let i = choose|i: int|
                0 <= i < cands.len() && (#[trigger] cands[i] matches Some(c) && matches_token(c, filter));
            assert(cands[i] matches Some(c) && matches_token(c, other));
        }
        if some_candidate_matches(cands, other) {
            let i = choose|i: int|
                0 <= i < cands.len() && (#[trigger] cands[i] matches Some(c) && matches_token(c, other));
            assert(cands[i] matches Some(c) && matches_token(c, filter));
        }
    }
}

/// Equality up to ASCII case holds exactly between sequences of the same
/// length whose characters at each position have the same code point, or are
/// an ASCII capital letter and the same letter in lower case.
pub proof fn lemma_eq_ignore_ascii_case_chars(a: Seq<char>, b: Seq<char>)
    ensures
        eq_ignore_ascii_case(a, b) <==> (a.len() == b.len() && forall|i: int|
            0 <= i < a.len() ==> {
                ||| #[trigger] a[i] as u32 == b[i] as u32
                ||| ('A' as u32 <= a[i] as u32 <= 'Z' as u32 && b[i] as u32 == a[i] as u32 + 32)
                ||| ('A' as u32 <= b[i] as u32 <= 'Z' as u32 && a[i] as u32 == b[i] as u32 + 32)
            }),
{
    if a.len() == b.len() {
        assert forall|i: int| 0 <= i < a.len() implies (ascii_fold(#[trigger] a[i]) == ascii_fold(
            b[i],
        ) <==> {
            ||| a[i] as u32 == b[i] as u32
            ||| ('A' as u32 <= a[i] as u32 <= 'Z' as u32 && b[i] as u32 == a[i] as u32 + 32)
            ||| ('A' as u32 <= b[i] as u32 <= 'Z' as u32 && a[i] as u32 == b[i] as u32 + 32)
        }) by {
        }
    }
}

/// A candidate matches a filter when it equals, up to ASCII case, the token
/// at any position of the filter.
pub proof fn lemma_matches_token_at(candidate: Seq<char>, filter: Seq<Seq<char>>, j: int)
    requires
        0 <= j < filter.len(),
        eq_ignore_ascii_case(candidate, filter[j]),
    ensures
        matches_token(candidate, filter),
{
}

/// A candidate that equals none of the filter's tokens up to ASCII case does
/// not match the filter.
pub proof fn lemma_matches_token_none(candidate: Seq<char>, filter: Seq<Seq<char>>)
    requires
        forall|j: int| 0 <= j < filter.len() ==> !eq_ignore_ascii_case(candidate, #[trigger] filter[j]),
    ensures
        !matches_token(candidate, filter),
{
}

/// Member lookup finds the value of the first member with the key, and
/// nothing when no member has it.
pub proof fn lemma_lookup_member(members: Seq<(Seq<char>, Seq<char>)>, key: Seq<char>, i: int)
    ensures
        (forall|k: int| 0 <= k < members.len() ==> (#[trigger] members[k]).0 != key) ==> lookup_member(
            members,
            key,
        ) is None,
        0 <= i < members.len() && members[i].0 == key && (forall|k: int|
            0 <= k < i ==> (#[trigger] members[k]).0 != key) ==> lookup_member(members, key) == Some(
            members[i].1,
        ),
    decreases members.len(),
{
    if members.len() > 0 {
        let rest = members.drop_first();
        lemma_lookup_member(rest, key, i - 1);
        if forall|k: int| 0 <= k < members.len() ==> (#[trigger] members[k]).0 != key {
            assert(members[0].0 != key);
            assert forall|k: int| 0 <= k < rest.len() implies (#[trigger] rest[k]).0 != key by {
                assert(rest[k] == members[k + 1]);
            }
        }
        if 0 <= i < members.len() && members[i].0 == key && (forall|k: int|
            0 <= k < i ==> (#[trigger] members[k]).0 != key) {
            if i > 0 {
                assert(members[0].0 != key);
                assert(rest[i - 1] == members[i]);
                assert forall|k: int| 0 <= k < i - 1 implies (#[trigger] rest[k]).0 != key by {
                    assert(rest[k] == members[k + 1]);
                }
            }
        }
    }
}

/// A transfer that is not an IBC transfer passes a token filter when the
/// `token` of any element of its data's `sources` array equals any of the
/// filter's tokens up to ASCII case.
pub proof fn lemma_source_token_passes(
    tx: InnerTransactionView,
    filter: Seq<Seq<char>>,
    data_members: Seq<(Seq<char>, Seq<char>)>,
    sources: Seq<char>,
    items: Seq<Seq<char>>,
    i: int,
    item_members: Seq<(Seq<char>, Seq<char>)>,
    token_text: Seq<char>,
    token: Seq<char>,
    j: int,
)
    requires
        !is_ibc_transfer(tx.kind),
        tx.data matches Some(d) && json_document_parses(d) && json_object_members(d) == Some(
            data_members,
        ),
        lookup_member(data_members, "sources"@) == Some(sources),
        json_array_elements(sources) == Some(items),
        0 <= i < items.len(),
        json_object_members(items[i]) == Some(item_members),
        lookup_member(item_members, "token"@) == Some(token_text),
        json_string_content(token_text) == Some(token),
        0 <= j < filter.len(),
        eq_ignore_ascii_case(token, filter[j]),
    ensures
        passes_token_filter(tx, filter),
{
    let d = tx.data->0;
    let cands = token_candidates(tx.kind, d);
    assert(cands[i] == Some(token));
    lemma_matches_token_at(token, filter, j);
}

/// The account that the first IBC message names, read step by step: the
/// `Ibc` member of the message, its `address` member, its `Account` member,
/// and that member's string content.
pub open spec fn first_message_account(items: Seq<Seq<char>>) -> Option<Seq<char>> {
    if items.len() == 0 {
        None
    } else {
        match json_object_members(items[0]) {
            None => None,
            Some(m0) => match lookup_member(m0, "Ibc"@) {
                None => None,
                Some(ibc) => match json_object_members(ibc) {
                    None => None,
                    Some(m1) => match lookup_member(m1, "address"@) {
                        None => None,
                        Some(address) => match json_object_members(address) {
                            None => None,
                            Some(m2) => match lookup_member(m2, "Account"@) {
                                None => None,
                                Some(text) => json_string_content(text),
                            },
                        },
                    },
                },
            },
        }
    }
}

/// An IBC transfer passes a non-empty token filter exactly when the first
/// message of its data array has an `Ibc.address.Account` string that equals
/// one of the filter's tokens up to ASCII case; later messages are not read.
pub proof fn lemma_ibc_reads_first_message(
    tx: InnerTransactionView,
    filter: Seq<Seq<char>>,
    items: Seq<Seq<char>>,
)
    requires
        is_ibc_transfer(tx.kind),
        filter.len() > 0,
        tx.data matches Some(d) && json_document_parses(d) && json_array_elements(d) == Some(items),
    ensures
        passes_token_filter(tx, filter) <==> (first_message_account(items) matches Some(account)
            && matches_token(account, filter)),
{
    let d = tx.data->0;
    let cands = token_candidates(tx.kind, d);
    if items.len() > 0 {
        assert(cands =~= seq![ibc_account(items[0])]);
        assert(ibc_account(items[0]) == first_message_account(items));
        if passes_token_filter(tx, filter) {
            let k = choose|k: int|
                0 <= k < cands.len() && (#[trigger] cands[k] matches Some(c) && matches_token(c, filter));
            assert(k == 0);
        }
        if first_message_account(items) matches Some(account) && matches_token(account, filter) {
            assert(cands[0] matches Some(c) && matches_token(c, filter));
        }
    } else {
        assert(cands =~= Seq::<Option<Seq<char>>>::empty());
    }
}

} // verus!
