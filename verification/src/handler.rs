//! The decisions of the transaction endpoints: which query a request of the
//! most recent transactions makes, and how the fetched wrapper and inner
//! transactions become the response.

use vstd::prelude::*;
use crate::dto::TransactionMostRecentQueryParams;
use crate::entity::{
    InnerTransaction, InnerTransactionView, TransactionError, WrapperTransaction,
    WrapperTransactionResponse, WrapperTransactionView, inner_views, response_views,
};
use crate::kind::TransactionKind;
use crate::text::string_views;
use crate::token_filter::{filter_inner_tx_by_tokens, passes_token_filter};

verus! {

/// The query that a request of the most recent transactions makes.
pub struct RecentTxPlan {
    /// How many wrapper transactions to skip.
    pub offset: i64,
    /// How many wrapper transactions to return.
    pub size: i32,
    /// Whether only wrappers with an inner transaction that matches the kind
    /// or token filter are wanted.
    pub filtered: bool,
}

/// The plan of a request: offset 0 and size 10 when absent; filtered when a
/// kind or a token is given.
pub fn plan_recent(query: &TransactionMostRecentQueryParams) -> (plan: RecentTxPlan)
    ensures
        plan.offset == match query.offset {
            Some(o) => o,
            None => 0,
        },
        plan.size == match query.size {
            Some(s) => s,
            None => 10,
        },
        plan.filtered == (query.kind@.len() > 0 || query.token@.len() > 0),
{
    let offset = match query.offset {
        Some(o) => o,
        None => 0,
    };
    let size = match query.size {
        Some(s) => s,
        None => 10,
    };
    RecentTxPlan { offset, size, filtered: query.kind.len() > 0 || query.token.len() > 0 }
}

/// The wrapper transaction that a lookup found, or the error that `tx_id` has
/// none.
pub fn found_wrapper(tx_id: String, wrapper: Option<WrapperTransaction>) -> (result: Result<
    WrapperTransaction,
    TransactionError,
>)
    ensures
        match wrapper {
            Some(w) => result matches Ok(found) && found@ == w@,
            None => result matches Err(TransactionError::TxIdNotFound(id)) && id@ == tx_id@,
        },
{
    match wrapper {
        Some(w) => Ok(w),
        None => Err(TransactionError::TxIdNotFound(tx_id)),
    }
}

/// The inner transactions that a fetch gave, none when it failed.
pub open spec fn fetched_inners(result: Result<Vec<InnerTransaction>, String>) -> Seq<
    InnerTransactionView,
> {
    match result {
        Ok(v) => inner_views(v@),
        Err(_) => seq![],
    }
}

/// Whether an inner transaction is of one of the kinds; every kind passes an
/// empty filter.
pub open spec fn passes_kind_filter(tx: InnerTransactionView, kinds: Seq<TransactionKind>) -> bool {
    kinds.len() == 0 || kinds.contains(tx.kind)
}

/// The inner transactions that pass both the kind and the token filter, in
/// order.
pub open spec fn retained(
    inners: Seq<InnerTransactionView>,
    kinds: Seq<TransactionKind>,
    tokens: Seq<Seq<char>>,
) -> Seq<InnerTransactionView> {
    inners.filter(
        |tx: InnerTransactionView| passes_kind_filter(tx, kinds) && passes_token_filter(tx, tokens),
    )
}

/// Each wrapper paired with the inner transactions fetched for it, as far as
/// both lists go.
pub open spec fn recent_responses(
    wrappers: Seq<WrapperTransactionView>,
    fetched: Seq<Result<Vec<InnerTransaction>, String>>,
) -> Seq<(WrapperTransactionView, Seq<InnerTransactionView>)> {
    Seq::new(
        if wrappers.len() <= fetched.len() {
            wrappers.len()
        } else {
            fetched.len()
        },
        |i: int| (wrappers[i], fetched_inners(fetched[i])),
    )
}

/// Each wrapper paired with those of its fetched inner transactions that pass
/// the filters, as far as both lists go; a wrapper left with none is dropped.
pub open spec fn filtered_responses(
    wrappers: Seq<WrapperTransactionView>,
    fetched: Seq<Result<Vec<InnerTransaction>, String>>,
    kinds: Seq<TransactionKind>,
    tokens: Seq<Seq<char>>,
) -> Seq<(WrapperTransactionView, Seq<InnerTransactionView>)> {
    recent_responses(wrappers, fetched).map_values(
        |r: (WrapperTransactionView, Seq<InnerTransactionView>)| (r.0, retained(r.1, kinds, tokens)),
    ).filter(|r: (WrapperTransactionView, Seq<InnerTransactionView>)| r.1.len() > 0)
}

/// The views of a sequence of wrapper transactions.
pub open spec fn wrapper_views(v: Seq<WrapperTransaction>) -> Seq<WrapperTransactionView> {
    v.map_values(|w: WrapperTransaction| w@)
}

/// Whether `kind` is one of `kinds`.
fn kind_in(kinds: &Vec<TransactionKind>, kind: TransactionKind) -> (found: bool)
    ensures
        found == kinds@.contains(kind),
{
    let mut i: usize = 0;
    while i < kinds.len()
        invariant
            i <= kinds@.len(),
            forall|j: int| 0 <= j < i ==> kinds@[j] != kind,
        decreases kinds@.len() - i,
    {
        if kinds[i] == kind {
            return true;
        }
        i = i + 1;
    }
    false
}

/// The inner transactions of one of the kinds (any kind when none is given)
/// that pass the token filter, in order.
pub fn retain_matching_inners(
    inners: Vec<InnerTransaction>,
    kinds: &Vec<TransactionKind>,
    tokens: &[String],
) -> (kept: Vec<InnerTransaction>)
    ensures
        inner_views(kept@) == retained(inner_views(inners@), kinds@, string_views(tokens@)),
        forall|k: int|
            0 <= k < kept@.len() ==> (kinds@.len() == 0 || kinds@.contains(
                (#[trigger] kept@[k]).kind,
            )),
        forall|i: int|
            0 <= i < inners@.len() && (kinds@.len() == 0 || kinds@.contains(
                (#[trigger] inners@[i]).kind,
            )) && passes_token_filter(inners@[i]@, string_views(tokens@)) ==> inner_views(
                kept@,
            ).contains(inners@[i]@),
{
    let ghost all = inner_views(inners@);
    let ghost pred = |tx: InnerTransactionView|
        passes_kind_filter(tx, kinds@) && passes_token_filter(tx, string_views(tokens@));
    let mut rest = inners;
    let mut kept: Vec<InnerTransaction> = Vec::new();
    let ghost mut i: int = 0;
    assert(all.take(0).filter(pred) =~= Seq::<InnerTransactionView>::empty()) by {
        reveal(Seq::filter);
    }
    while rest.len() > 0
        invariant
            0 <= i <= all.len(),
            inner_views(rest@) == all.skip(i),
            inner_views(kept@) == all.take(i).filter(pred),
            pred == (|tx: InnerTransactionView|
                passes_kind_filter(tx, kinds@) && passes_token_filter(tx, string_views(tokens@))),
        decreases rest@.len(),
    {
        let ghost before = rest@;
        assert(inner_views(before).len() == before.len());
        let tx = rest.remove(0);
        proof {
            lemma_views_after_remove(before, rest@, all, i);
        }
        let keep = (kinds.len() == 0 || kind_in(kinds, tx.kind)) && filter_inner_tx_by_tokens(
            &tx,
            tokens,
        );
        proof {
            all.take(i).lemma_filter_push(all[i], pred);
            assert(all.take(i + 1) =~= all.take(i).push(all[i]));
        }
        if keep {
            kept.push(tx);
            assert(inner_views(kept@) =~= all.take(i).filter(pred).push(all[i]));
        }
        proof {
            i = i + 1;
        }
        assert(inner_views(rest@) =~= all.skip(i));
    }
    assert(all.take(i) =~= all);
    proof {
        let tokens_v = string_views(tokens@);
        assert forall|k: int| 0 <= k < kept@.len() implies (kinds@.len() == 0 || kinds@.contains(
            (#[trigger] kept@[k]).kind,
        )) by {
            lemma_retained(all, kinds@, tokens_v, 0);
            assert(inner_views(kept@)[k] == kept@[k]@);
        }
        assert forall|i: int|
            0 <= i < inners@.len() && (kinds@.len() == 0 || kinds@.contains(
                (#[trigger] inners@[i]).kind,
            )) && passes_token_filter(inners@[i]@, tokens_v) implies inner_views(kept@).contains(
            inners@[i]@,
        ) by {
            assert(all[i] == inners@[i]@);
            lemma_retained(all, kinds@, tokens_v, i);
        }
    }
    kept
}

/// The inner transactions of a fetch, none when it failed.
fn inners_or_empty(result: Result<Vec<InnerTransaction>, String>) -> (inners: Vec<InnerTransaction>)
    ensures
        inner_views(inners@) == fetched_inners(result),
        match result {
            Ok(v) => inners@ == v@,
            Err(_) => inners@.len() == 0,
        },
{
    match result {
        Ok(v) => v,
        Err(_) => {
            let v: Vec<InnerTransaction> = Vec::new();
            assert(inner_views(v@) =~= Seq::<InnerTransactionView>::empty());
            v
        },
    }
}

proof fn lemma_views_after_remove<T: View>(before: Seq<T>, after: Seq<T>, all: Seq<T::V>, i: int)
    requires
        0 <= i < all.len(),
        before.len() > 0,
        before.map_values(|x: T| x@) == all.skip(i),
        after == before.drop_first(),
    ensures
        before[0]@ == all[i],
        after.map_values(|x: T| x@) == all.skip(i + 1),
{
    let bv = before.map_values(|x: T| x@);
    let av = after.map_values(|x: T| x@);
    let rest = all.skip(i + 1);
    assert(bv.len() == before.len());
    assert(av.len() == after.len());
    assert(bv[0] == before[0]@);
    assert(all.skip(i)[0] == all[i]);
    assert forall|k: int| 0 <= k < after.len() implies #[trigger] av[k] == rest[k] by {
        assert(bv[k + 1] == before[k + 1]@);
        assert(all.skip(i)[k + 1] == all[i + 1 + k]);
    }
    assert(av =~= rest);
}

/// Pairs each wrapper with the inner transactions fetched for it, as far as
/// both lists go; a failed fetch gives none.
pub fn assemble_recent(
    wrappers: Vec<WrapperTransaction>,
    fetched: Vec<Result<Vec<InnerTransaction>, String>>,
) -> (responses: Vec<WrapperTransactionResponse>)
    ensures
        response_views(responses@) == recent_responses(wrapper_views(wrappers@), fetched@),
{
    let ghost all_w = wrapper_views(wrappers@);
    let ghost all_f = fetched@;
    let ghost expected = recent_responses(all_w, all_f);
    let mut ws = wrappers;
    let mut fs = fetched;
    let mut responses: Vec<WrapperTransactionResponse> = Vec::new();
    let ghost mut i: int = 0;
    assert(response_views(responses@) =~= expected.take(0));
    assert(all_f.skip(0) =~= all_f);
    assert(ws@.map_values(|x: WrapperTransaction| x@) =~= all_w.skip(0));
    while ws.len() > 0 && fs.len() > 0
        invariant
            0 <= i <= all_w.len(),
            i <= all_f.len(),
            ws@.map_values(|x: WrapperTransaction| x@) == all_w.skip(i),
            fs@ == all_f.skip(i),
            expected == recent_responses(all_w, all_f),
            i <= expected.len(),
            response_views(responses@) == expected.take(i),
        decreases ws@.len(),
    {
        let ghost ws_before = ws@;
        let ghost fs_before = fs@;
        assert(ws@.map_values(|x: WrapperTransaction| x@).len() == ws@.len());
        assert(all_w.skip(i).len() == all_w.len() - i);
        assert(all_f.skip(i).len() == all_f.len() - i);
        let w = ws.remove(0);
        let f = fs.remove(0);
        proof {
            lemma_views_after_remove(ws_before, ws@, all_w, i);
            assert(f == all_f[i]);
            assert(fs@ =~= all_f.skip(i + 1));
        }
        let inners = inners_or_empty(f);
        let ghost pair = (w@, inner_views(inners@));
        assert(expected[i] == pair);
        responses.push(WrapperTransactionResponse::new(w, inners));
        proof {
            assert(expected.take(i + 1) =~= expected.take(i).push(pair));
            assert(response_views(responses@) =~= expected.take(i + 1));
            i = i + 1;
        }
    }
    assert(expected.take(i) =~= expected);
    responses
}

/// Pairs each wrapper with those of the inner transactions fetched for it that
/// are of one of the kinds (any kind when none is given) and pass the token
/// filter, as far as both lists go; a wrapper left with none is dropped.
pub fn assemble_filtered(
    candidates: Vec<WrapperTransaction>,
    fetched: Vec<Result<Vec<InnerTransaction>, String>>,
    kinds: &Vec<TransactionKind>,
    tokens: &[String],
) -> (responses: Vec<WrapperTransactionResponse>)
    ensures
        response_views(responses@) == filtered_responses(
            wrapper_views(candidates@),
            fetched@,
            kinds@,
            string_views(tokens@),
        ),
{
    let ghost all_w = wrapper_views(candidates@);
    let ghost all_f = fetched@;
    let ghost mapped = recent_responses(all_w, all_f).map_values(
        |r: (WrapperTransactionView, Seq<InnerTransactionView>)|
            (r.0, retained(r.1, kinds@, string_views(tokens@))),
    );
    let ghost nonempty = |r: (WrapperTransactionView, Seq<InnerTransactionView>)| r.1.len() > 0;
    let mut ws = candidates;
    let mut fs = fetched;
    let mut responses: Vec<WrapperTransactionResponse> = Vec::new();
    let ghost mut i: int = 0;
    assert(response_views(responses@) =~= mapped.take(0).filter(nonempty)) by {
        reveal(Seq::filter);
    }
    assert(all_f.skip(0) =~= all_f);
    assert(ws@.map_values(|x: WrapperTransaction| x@) =~= all_w.skip(0));
    while ws.len() > 0 && fs.len() > 0
        invariant
            0 <= i <= all_w.len(),
            i <= all_f.len(),
            ws@.map_values(|x: WrapperTransaction| x@) == all_w.skip(i),
            fs@ == all_f.skip(i),
            mapped == recent_responses(all_w, all_f).map_values(
                |r: (WrapperTransactionView, Seq<InnerTransactionView>)|
                    (r.0, retained(r.1, kinds@, string_views(tokens@))),
            ),
            nonempty == (|r: (WrapperTransactionView, Seq<InnerTransactionView>)| r.1.len() > 0),
            i <= mapped.len(),
            response_views(responses@) == mapped.take(i).filter(nonempty),
        decreases ws@.len(),
    {
        let ghost ws_before = ws@;
        let ghost fs_before = fs@;
        assert(ws@.map_values(|x: WrapperTransaction| x@).len() == ws@.len());
        assert(all_w.skip(i).len() == all_w.len() - i);
        assert(all_f.skip(i).len() == all_f.len() - i);
        let w = ws.remove(0);
        let f = fs.remove(0);
        proof {
            lemma_views_after_remove(ws_before, ws@, all_w, i);
            assert(f == all_f[i]);
            assert(fs@ =~= all_f.skip(i + 1));
        }
        let inners = retain_matching_inners(inners_or_empty(f), kinds, tokens);
        proof {
            mapped.take(i).lemma_filter_push(mapped[i], nonempty);
            assert(mapped.take(i + 1) =~= mapped.take(i).push(mapped[i]));
            assert(mapped[i] == (w@, inner_views(inners@)));
        }
        if inners.len() > 0 {
            responses.push(WrapperTransactionResponse::new(w, inners));
            assert(response_views(responses@) =~= mapped.take(i).filter(nonempty).push(mapped[i]));
        }
        proof {
            i = i + 1;
        }
    }
    assert(mapped.take(i) =~= mapped);
    responses
}

/// Every response of a filtered request lists at least one inner
/// transaction, and each inner transaction that it lists passes both filters.
pub proof fn lemma_filtered_responses_pass(
    wrappers: Seq<WrapperTransactionView>,
    fetched: Seq<Result<Vec<InnerTransaction>, String>>,
    kinds: Seq<TransactionKind>,
    tokens: Seq<Seq<char>>,
    r: int,
    t: int,
)
    requires
        0 <= r < filtered_responses(wrappers, fetched, kinds, tokens).len(),
    ensures
        filtered_responses(wrappers, fetched, kinds, tokens)[r].1.len() > 0,
        0 <= t < filtered_responses(wrappers, fetched, kinds, tokens)[r].1.len() ==> {
            let tx = filtered_responses(wrappers, fetched, kinds, tokens)[r].1[t];
            passes_kind_filter(tx, kinds) && passes_token_filter(tx, tokens)
        },
{
    let mapped = recent_responses(wrappers, fetched).map_values(
        |p: (WrapperTransactionView, Seq<InnerTransactionView>)| (p.0, retained(p.1, kinds, tokens)),
    );
    let nonempty = |p: (WrapperTransactionView, Seq<InnerTransactionView>)| p.1.len() > 0;
    mapped.lemma_filter_pred(nonempty, r);
    let resp = filtered_responses(wrappers, fetched, kinds, tokens)[r];
    assert(mapped.filter(nonempty).contains(resp));
    mapped.lemma_filter_contains_rev(nonempty, resp);
    let k = choose|k: int| 0 <= k < mapped.len() && mapped[k] == resp;
    assert(mapped.len() == recent_responses(wrappers, fetched).len());
    let pred = |tx: InnerTransactionView|
        passes_kind_filter(tx, kinds) && passes_token_filter(tx, tokens);
    if 0 <= t < resp.1.len() {
        let source = recent_responses(wrappers, fetched)[k].1;
        assert(resp.1 == source.filter(pred));
        source.lemma_filter_pred(pred, t);
    }
}

/// With no kind and no token given, the filtered assembly keeps each wrapper
/// that has inner transactions, with all of them: it is the plain assembly
/// without the wrappers that have none.
pub proof fn lemma_unfiltered_agrees(
    wrappers: Seq<WrapperTransactionView>,
    fetched: Seq<Result<Vec<InnerTransaction>, String>>,
)
    ensures
        filtered_responses(wrappers, fetched, seq![], seq![]) == recent_responses(
            wrappers,
            fetched,
        ).filter(|p: (WrapperTransactionView, Seq<InnerTransactionView>)| p.1.len() > 0),
{
    let plain = recent_responses(wrappers, fetched);
    let kinds = Seq::<TransactionKind>::empty();
    let tokens = Seq::<Seq<char>>::empty();
    assert forall|i: int| 0 <= i < plain.len() implies retained(#[trigger] plain[i].1, kinds, tokens)
        == plain[i].1 by {
        lemma_filter_true(
            plain[i].1,
            |tx: InnerTransactionView|
                passes_kind_filter(tx, kinds) && passes_token_filter(tx, tokens),
        );
    }
    let mapped = plain.map_values(
        |p: (WrapperTransactionView, Seq<InnerTransactionView>)| (p.0, retained(p.1, kinds, tokens)),
    );
    assert(mapped =~= plain);
}

proof fn lemma_filter_true<A>(s: Seq<A>, pred: spec_fn(A) -> bool)
    requires
        forall|x: A| #[trigger] pred(x),
    ensures
        s.filter(pred) == s,
    decreases s.len(),
{
    reveal(Seq::filter);
    if s.len() > 0 {
        lemma_filter_true(s.drop_last(), pred);
        assert(pred(s.last()));
        assert(s.drop_last().push(s.last()) =~= s);
    }
}

/// The views of a vector list the view of each element, in order.
pub proof fn lemma_inner_views(v: Seq<InnerTransaction>)
    ensures
        inner_views(v).len() == v.len(),
        forall|k: int| 0 <= k < v.len() ==> #[trigger] inner_views(v)[k] == v[k]@,
{
}

/// A fetch that succeeded gives all of its inner transactions, in order; a
/// failed fetch gives none.
pub proof fn lemma_fetched_inners(result: Result<Vec<InnerTransaction>, String>)
    ensures
        match result {
            Ok(v) => fetched_inners(result).len() == v@.len() && forall|k: int|
                0 <= k < v@.len() ==> #[trigger] fetched_inners(result)[k] == v@[k]@,
            Err(_) => fetched_inners(result).len() == 0,
        },
{
}

/// The plain assembly has one response per wrapper, as far as both lists go,
/// and the response at each position pairs that wrapper with every inner
/// transaction fetched for it.
pub proof fn lemma_recent_responses(
    wrappers: Seq<WrapperTransactionView>,
    fetched: Seq<Result<Vec<InnerTransaction>, String>>,
    i: int,
)
    ensures
        recent_responses(wrappers, fetched).len() == if wrappers.len() <= fetched.len() {
            wrappers.len()
        } else {
            fetched.len()
        },
        0 <= i < wrappers.len() && i < fetched.len() ==> {
            let r = recent_responses(wrappers, fetched)[i];
            &&& r.0 == wrappers[i]
            &&& match fetched[i] {
                Ok(v) => r.1.len() == v@.len() && forall|k: int|
                    0 <= k < v@.len() ==> #[trigger] r.1[k] == v@[k]@,
                Err(_) => r.1.len() == 0,
            }
        },
{
}

/// The kind filter keeps a transaction whose kind is at any position of a
/// non-empty list of kinds, drops one whose kind is at no position, and keeps
/// every transaction when no kind is given.
pub proof fn lemma_kind_filter(tx: InnerTransactionView, kinds: Seq<TransactionKind>, i: int)
    ensures
        kinds.len() == 0 ==> passes_kind_filter(tx, kinds),
        0 <= i < kinds.len() && kinds[i] == tx.kind ==> passes_kind_filter(tx, kinds),
        (forall|j: int| 0 <= j < kinds.len() ==> #[trigger] kinds[j] != tx.kind)
            ==> passes_kind_filter(tx, kinds) == (kinds.len() == 0),
{
    if 0 <= i < kinds.len() && kinds[i] == tx.kind {
        assert(kinds.contains(tx.kind));
    }
}

/// The inner transactions that pass both filters are kept, in order, and
/// no other: the result lists only transactions that pass, each one of the
/// fetched transactions, and a transaction that passes is in the result.
/// When every transaction passes, all are kept.
pub proof fn lemma_retained(
    inners: Seq<InnerTransactionView>,
    kinds: Seq<TransactionKind>,
    tokens: Seq<Seq<char>>,
    i: int,
)
    ensures
        retained(inners, kinds, tokens).len() <= inners.len(),
        forall|k: int|
            0 <= k < retained(inners, kinds, tokens).len() ==> {
                let tx = #[trigger] retained(inners, kinds, tokens)[k];
                &&& passes_kind_filter(tx, kinds)
                &&& passes_token_filter(tx, tokens)
                &&& inners.contains(tx)
            },
        0 <= i < inners.len() && passes_kind_filter(inners[i], kinds) && passes_token_filter(
            inners[i],
            tokens,
        ) ==> retained(inners, kinds, tokens).contains(inners[i]),
        (forall|k: int|
            0 <= k < inners.len() ==> passes_kind_filter(#[trigger] inners[k], kinds)
                && passes_token_filter(inners[k], tokens)) ==> retained(inners, kinds, tokens)
            == inners,
{
    let pred = |tx: InnerTransactionView|
        passes_kind_filter(tx, kinds) && passes_token_filter(tx, tokens);
    inners.lemma_filter_len(pred);
    assert forall|k: int| 0 <= k < retained(inners, kinds, tokens).len() implies {
        let tx = #[trigger] retained(inners, kinds, tokens)[k];
        &&& passes_kind_filter(tx, kinds)
        &&& passes_token_filter(tx, tokens)
        &&& inners.contains(tx)
    } by {
        inners.lemma_filter_pred(pred, k);
        let tx = inners.filter(pred)[k];
        assert(inners.filter(pred).contains(tx));
        inners.lemma_filter_contains_rev(pred, tx);
    }
    if 0 <= i < inners.len() && pred(inners[i]) {
        inners.lemma_filter_contains(pred, i);
    }
    if forall|k: int|
        0 <= k < inners.len() ==> passes_kind_filter(#[trigger] inners[k], kinds)
            && passes_token_filter(inners[k], tokens) {
        lemma_filter_keeps_all(inners, pred);
    }
}

proof fn lemma_filter_keeps_all<A>(s: Seq<A>, pred: spec_fn(A) -> bool)
    requires
        forall|k: int| 0 <= k < s.len() ==> pred(#[trigger] s[k]),
    ensures
        s.filter(pred) == s,
    decreases s.len(),
{
    reveal(Seq::filter);
    if s.len() > 0 {
        let init = s.drop_last();
        assert forall|k: int| 0 <= k < init.len() implies pred(#[trigger] init[k]) by {
            assert(init[k] == s[k]);
        }
        lemma_filter_keeps_all(init, pred);
        assert(pred(s[s.len() - 1]));
        assert(init.push(s.last()) =~= s);
    }
}

/// A wrapper with at least one inner transaction that passes both filters is
/// listed by the filtered assembly, with exactly those inner transactions.
pub proof fn lemma_filtered_responses_complete(
    wrappers: Seq<WrapperTransactionView>,
    fetched: Seq<Result<Vec<InnerTransaction>, String>>,
    kinds: Seq<TransactionKind>,
    tokens: Seq<Seq<char>>,
    i: int,
)
    requires
        0 <= i < wrappers.len(),
        i < fetched.len(),
        retained(fetched_inners(fetched[i]), kinds, tokens).len() > 0,
    ensures
        filtered_responses(wrappers, fetched, kinds, tokens).contains(
            (wrappers[i], retained(fetched_inners(fetched[i]), kinds, tokens)),
        ),
{
    let mapped = recent_responses(wrappers, fetched).map_values(
        |p: (WrapperTransactionView, Seq<InnerTransactionView>)| (p.0, retained(p.1, kinds, tokens)),
    );
    let nonempty = |p: (WrapperTransactionView, Seq<InnerTransactionView>)| p.1.len() > 0;
    assert(mapped[i] == (wrappers[i], retained(fetched_inners(fetched[i]), kinds, tokens)));
    mapped.lemma_filter_contains(nonempty, i);
}

} // verus!
