//! Query parameters of the transaction endpoints: their validation, and the
//! comma-separated lists by which kinds and tokens may be given.

use vstd::prelude::*;
use vstd::string::StrSliceExecFns;
use crate::entity::TransactionError;
use crate::kind::{TransactionKind, kind_name, kind_named, lemma_kind_name_plain, lemma_kind_name_round_trip};
use crate::text::{all_white_space, csv_items, join_csv, lemma_csv_round_trip, split_csv, string_views, trim};

verus! {

/// Parameters of the transaction history of a set of addresses.
#[derive(Clone, Debug)]
pub struct TransactionHistoryQueryParams {
    /// The page to return, from 1 to 10000.
    pub page: Option<u64>,
    /// The addresses, from 1 to 10 of them.
    pub addresses: Vec<String>,
}

/// Parameters of the search for recent inner transactions.
#[derive(Clone, Debug)]
pub struct RecentInnerQueryParams {
    /// The page to return, from 1 to 10000.
    pub page: Option<u64>,
    /// The most inner transactions to consider, from 1 to 10000.
    pub limit: Option<u64>,
    /// The kinds to keep, if given.
    pub kind: Option<Vec<TransactionKind>>,
    /// The token addresses to keep, if given.
    pub token: Option<Vec<String>>,
}

/// Parameters of the most recent wrapper transactions.
#[derive(Clone, Debug)]
pub struct TransactionMostRecentQueryParams {
    /// How many wrapper transactions to skip; 0 when absent.
    pub offset: Option<i64>,
    /// How many wrapper transactions to return; 10 when absent.
    pub size: Option<i32>,
    /// The kinds of inner transactions to keep; none means every kind.
    pub kind: Vec<TransactionKind>,
    /// The token addresses to keep; none means every token.
    pub token: Vec<String>,
}

/// A parameter out of its allowed range.
#[derive(Debug, PartialEq, Eq, Structural)]
pub enum ParamError {
    /// The page is not within 1..=10000.
    PageOutOfRange(u64),
    /// The number of addresses is not within 1..=10.
    AddressCountOutOfRange(usize),
    /// The limit is not within 1..=10000.
    LimitOutOfRange(u64),
}

/// The smallest and largest page or limit, and number of addresses.
pub const RANGE_MIN: u64 = 1;
pub const RANGE_MAX: u64 = 10000;
pub const MIN_ADDRESSES: usize = 1;
pub const MAX_ADDRESSES: usize = 10;

/// The error for an optional page or limit: none when it is absent or within
/// 1..=10000.
pub open spec fn range_error(value: Option<u64>, make: spec_fn(u64) -> ParamError) -> Seq<ParamError> {
    match value {
        Some(v) => if RANGE_MIN <= v <= RANGE_MAX { seq![] } else { seq![make(v)] },
        None => seq![],
    }
}

/// The errors of a history query, one per field out of range, in field order.
pub open spec fn history_errors(page: Option<u64>, address_count: nat) -> Seq<ParamError> {
    range_error(page, |v: u64| ParamError::PageOutOfRange(v)) + if MIN_ADDRESSES <= address_count
        <= MAX_ADDRESSES {
        seq![]
    } else {
        seq![ParamError::AddressCountOutOfRange(address_count as usize)]
    }
}

/// The errors of a recent inner transactions query, in field order.
pub open spec fn recent_inner_errors(page: Option<u64>, limit: Option<u64>) -> Seq<ParamError> {
    range_error(page, |v: u64| ParamError::PageOutOfRange(v)) + range_error(
        limit,
        |v: u64| ParamError::LimitOutOfRange(v),
    )
}

fn check_range(value: Option<u64>, errors: &mut Vec<ParamError>, is_page: bool)
    ensures
        final(errors)@ == old(errors)@ + range_error(
            value,
            if is_page {
                |v: u64| ParamError::PageOutOfRange(v)
            } else {
                |v: u64| ParamError::LimitOutOfRange(v)
            },
        ),
{
    if let Some(v) = value {
        if v < RANGE_MIN || v > RANGE_MAX {
            if is_page {
                errors.push(ParamError::PageOutOfRange(v));
            } else {
                errors.push(ParamError::LimitOutOfRange(v));
            }
        }
    }
    assert(final(errors)@ =~= old(errors)@ + range_error(
        value,
        if is_page {
            |v: u64| ParamError::PageOutOfRange(v)
        } else {
            |v: u64| ParamError::LimitOutOfRange(v)
        },
    ));
}

impl TransactionHistoryQueryParams {
    /// Checks the ranges of the fields; on failure, the error of each field out
    /// of range, in field order.
    pub fn validate(&self) -> (result: Result<(), Vec<ParamError>>)
        ensures
            match result {
                Ok(()) => history_errors(self.page, self.addresses@.len()).len() == 0,
                Err(errors) => errors@.len() > 0 && errors@ == history_errors(
                    self.page,
                    self.addresses@.len(),
                ),
            },
            result is Ok <==> ((self.page matches Some(p) ==> 1 <= p <= 10000) && 1
                <= self.addresses@.len() <= 10),
    {
        let mut errors: Vec<ParamError> = Vec::new();
        check_range(self.page, &mut errors, true);
        let count = self.addresses.len();
        if count < MIN_ADDRESSES || count > MAX_ADDRESSES {
            errors.push(ParamError::AddressCountOutOfRange(count));
        }
        assert(errors@ =~= history_errors(self.page, self.addresses@.len()));
        if errors.len() == 0 {
            Ok(())
        } else {
            Err(errors)
        }
    }

    /// The page asked for, 1 when absent.
    pub fn page_or_first(&self) -> (page: u64)
        ensures
            page == match self.page {
                Some(p) => p,
                None => 1,
            },
    {
        match self.page {
            Some(p) => p,
            None => 1,
        }
    }
}

impl RecentInnerQueryParams {
    /// Checks the ranges of the page and the limit; on failure, the error of
    /// each field out of range, in field order.
    pub fn validate(&self) -> (result: Result<(), Vec<ParamError>>)
        ensures
            match result {
                Ok(()) => recent_inner_errors(self.page, self.limit).len() == 0,
                Err(errors) => errors@.len() > 0 && errors@ == recent_inner_errors(
                    self.page,
                    self.limit,
                ),
            },
            result is Ok <==> ((self.page matches Some(p) ==> 1 <= p <= 10000) && (
            self.limit matches Some(l) ==> 1 <= l <= 10000)),
    {
        let mut errors: Vec<ParamError> = Vec::new();
        check_range(self.page, &mut errors, true);
        check_range(self.limit, &mut errors, false);
        assert(errors@ =~= recent_inner_errors(self.page, self.limit));
        if errors.len() == 0 {
            Ok(())
        } else {
            Err(errors)
        }
    }
}

/// Kinds as a query string gives them: a list, or one comma-separated string.
pub enum KindList {
    List(Vec<TransactionKind>),
    Csv(String),
}

/// Token addresses as a query string gives them: a list, or one
/// comma-separated string.
pub enum TokenList {
    List(Vec<String>),
    Csv(String),
}

/// A comma-separated item that names no kind.
#[derive(Debug)]
pub enum KindListError {
    UnknownKind(String),
}

/// The kinds that the names name, in order; or the first name that names no
/// kind.
pub open spec fn kinds_of_names(names: Seq<Seq<char>>) -> Result<Seq<TransactionKind>, Seq<char>>
    decreases names.len(),
{
    if names.len() == 0 {
        Ok(seq![])
    } else {
        match kinds_of_names(names.drop_last()) {
            Err(name) => Err(name),
            Ok(kinds) => match kind_named(names.last()) {
                Some(k) => Ok(kinds.push(k)),
                None => Err(names.last()),
            },
        }
    }
}

/// The kinds of a comma-separated list of kind names.
pub open spec fn kinds_of_csv(s: Seq<char>) -> Result<Seq<TransactionKind>, Seq<char>> {
    kinds_of_names(csv_items(s))
}

/// Parses a comma-separated list of kind names: the non-empty items, trimmed,
/// each the name of a kind; the first item that names no kind is the error.
pub fn parse_kinds_csv(s: &str) -> (result: Result<Vec<TransactionKind>, KindListError>)
    ensures
        match result {
            Ok(kinds) => kinds_of_csv(s@) == Ok::<Seq<TransactionKind>, Seq<char>>(kinds@),
            Err(KindListError::UnknownKind(name)) => kinds_of_csv(s@) == Err::<
                Seq<TransactionKind>,
                Seq<char>,
            >(name@),
        },
{
    let items = split_csv(s);
    let ghost names = csv_items(s@);
    let mut kinds: Vec<TransactionKind> = Vec::new();
    let mut i: usize = 0;
    assert(names.take(0) =~= Seq::<Seq<char>>::empty());
    while i < items.len()
        invariant
            i <= items.len(),
            names == string_views(items@),
            names == csv_items(s@),
            kinds_of_names(names.take(i as int)) == Ok::<Seq<TransactionKind>, Seq<char>>(kinds@),
        decreases items.len() - i,
    {
        let ghost prefix = names.take(i + 1);
        assert(names[i as int] == items@[i as int]@);
        assert(prefix.drop_last() =~= names.take(i as int));
        assert(prefix.last() == items@[i as int]@);
        match TransactionKind::from_name(items[i].as_str()) {
            Some(k) => {
                kinds.push(k);
            },
            None => {
                let mut name = String::new();
                name.append(items[i].as_str());
                assert(kinds_of_names(prefix) == Err::<Seq<TransactionKind>, Seq<char>>(name@));
                proof {
                    lemma_kinds_error_persists(names, i + 1);
                }
                assert(names.take(names.len() as int) =~= names);
                return Err(KindListError::UnknownKind(name));
            },
        }
        i = i + 1;
    }
    assert(names.take(items.len() as int) =~= names);
    Ok(kinds)
}

proof fn lemma_kinds_error_persists(names: Seq<Seq<char>>, i: int)
    requires
        0 <= i <= names.len(),
        kinds_of_names(names.take(i)) is Err,
    ensures
        kinds_of_names(names.take(names.len() as int)) == kinds_of_names(names.take(i)),
    decreases names.len() - i,
{
    if i < names.len() {
        assert(names.take(i + 1).drop_last() =~= names.take(i));
        lemma_kinds_error_persists(names, i + 1);
    }
}

/// Whether `name` is the name of a kind.
pub open spec fn names_a_kind(name: Seq<char>) -> bool {
    exists|k: TransactionKind| kind_name(k) == name
}

/// Whether every name before position `i` is the name of a kind.
pub open spec fn names_kinds_before(names: Seq<Seq<char>>, i: int) -> bool {
    forall|j: int| 0 <= j < i ==> names_a_kind(#[trigger] names[j])
}

/// Reading kind names gives, when every name is the name of a kind, those
/// kinds in order, one per name; otherwise the first name that is the name of
/// no kind, every name before it being the name of one.
pub proof fn lemma_kinds_of_names_exact(names: Seq<Seq<char>>)
    ensures
        kinds_of_names(names) matches Ok(kinds) ==> kinds.len() == names.len() && forall|i: int|
            0 <= i < names.len() ==> kind_name(#[trigger] kinds[i]) == names[i],
        kinds_of_names(names) is Err ==> exists|i: int|
            0 <= i < names.len() && #[trigger] names[i] == kinds_of_names(names)->Err_0 && (forall|
                k: TransactionKind,
            | kind_name(k) != names[i]) && names_kinds_before(names, i),
    decreases names.len(),
{
    if names.len() > 0 {
        let init = names.drop_last();
        let last = names.last();
        lemma_kinds_of_names_exact(init);
        if kinds_of_names(init) is Err {
            let i = choose|i: int|
                0 <= i < init.len() && #[trigger] init[i] == kinds_of_names(init)->Err_0 && (forall|
                    k: TransactionKind,
                | kind_name(k) != init[i]) && names_kinds_before(init, i);
            assert(names[i] == init[i]);
            assert forall|j: int| 0 <= j < i implies names_a_kind(#[trigger] names[j]) by {
                assert(names[j] == init[j]);
            }
            assert(names_kinds_before(names, i));
        } else {
            let kinds = kinds_of_names(init)->Ok_0;
            match kind_named(last) {
                Some(k) => {
                    let all = kinds.push(k);
                    assert forall|i: int| 0 <= i < names.len() implies kind_name(#[trigger] all[i])
                        == names[i] by {
                        if i < init.len() {
                            assert(all[i] == kinds[i]);
                            assert(names[i] == init[i]);
                        }
                    }
                },
                None => {
                    let i = names.len() - 1;
                    assert(names[i] == last);
                    assert forall|j: int| 0 <= j < i implies names_a_kind(#[trigger] names[j]) by {
                        assert(names[j] == init[j]);
                        assert(kind_name(kinds[j]) == init[j]);
                    }
                    assert(names_kinds_before(names, i));
                },
            }
        }
    }
}

/// Reads the kind parameter: absent, a list of kinds, or a comma-separated
/// string of kind names.
pub fn deserialize_kinds_opt(input: Option<KindList>) -> (result: Result<
    Option<Vec<TransactionKind>>,
    KindListError,
>)
    ensures
        match input {
            None => result matches Ok(None),
            Some(KindList::List(v)) => result matches Ok(Some(kinds)) && kinds@ == v@,
            Some(KindList::Csv(s)) => match result {
                Ok(Some(kinds)) => kinds_of_csv(s@) == Ok::<Seq<TransactionKind>, Seq<char>>(
                    kinds@,
                ),
                Ok(None) => false,
                Err(KindListError::UnknownKind(name)) => kinds_of_csv(s@) == Err::<
                    Seq<TransactionKind>,
                    Seq<char>,
                >(name@),
            },
        },
{
    match input {
        None => Ok(None),
        Some(KindList::List(v)) => Ok(Some(v)),
        Some(KindList::Csv(s)) => match parse_kinds_csv(s.as_str()) {
            Ok(kinds) => Ok(Some(kinds)),
            Err(e) => Err(e),
        },
    }
}

/// Reads the token parameter: absent, a list of addresses, or a
/// comma-separated string of them, whose non-empty items are kept, trimmed.
pub fn deserialize_tokens_opt(input: Option<TokenList>) -> (result: Option<Vec<String>>)
    ensures
        match input {
            None => result is None,
            Some(TokenList::List(v)) => result matches Some(tokens) && tokens@ == v@,
            Some(TokenList::Csv(s)) => result matches Some(tokens) && string_views(tokens@)
                == csv_items(s@),
        },
{
    match input {
        None => None,
        Some(TokenList::List(v)) => Some(v),
        Some(TokenList::Csv(s)) => Some(split_csv(s.as_str())),
    }
}

/// The names of the kinds, in order.
pub open spec fn kind_names(kinds: Seq<TransactionKind>) -> Seq<Seq<char>> {
    kinds.map_values(|k: TransactionKind| kind_name(k))
}

/// The kinds written as a comma-separated list of their names, with any
/// whitespace after each comma, read back as the same kinds.
pub proof fn lemma_kinds_csv_round_trip(kinds: Seq<TransactionKind>, pad: Seq<char>)
    requires
        all_white_space(pad),
    ensures
        kinds_of_csv(join_csv(kind_names(kinds), pad)) == Ok::<
            Seq<TransactionKind>,
            Seq<char>,
        >(kinds),
{
    let names = kind_names(kinds);
    assert forall|i: int| 0 <= i < names.len() implies {
        &&& (#[trigger] names[i]).len() > 0
        &&& !names[i].contains(',')
        &&& trim(names[i]) == names[i]
    } by {
        lemma_kind_name_plain(kinds[i]);
    }
    lemma_csv_round_trip(names, pad);
    lemma_kinds_of_names(kinds);
}

proof fn lemma_kinds_of_names(kinds: Seq<TransactionKind>)
    ensures
        kinds_of_names(kind_names(kinds)) == Ok::<Seq<TransactionKind>, Seq<char>>(kinds),
    decreases kinds.len(),
{
    if kinds.len() > 0 {
        let init = kinds.drop_last();
        lemma_kinds_of_names(init);
        assert(kind_names(kinds).drop_last() =~= kind_names(init));
        lemma_kind_name_round_trip(kinds.last());
        let names = kind_names(kinds);
        assert(names.last() == kind_name(kinds.last()));
        assert(kind_named(names.last()) == Some(kinds.last()));
        assert(kinds_of_names(names.drop_last()) == Ok::<Seq<TransactionKind>, Seq<char>>(init));
        assert(kinds_of_names(names) == Ok::<Seq<TransactionKind>, Seq<char>>(init.push(kinds.last())));
        assert(init.push(kinds.last()) =~= kinds);
    } else {
        assert(kind_names(kinds) =~= Seq::<Seq<char>>::empty());
        assert(kinds =~= Seq::<TransactionKind>::empty());
    }
}

/// A transaction id as a request path gives it.
#[derive(Clone, Debug)]
pub struct TransactionIdParam(pub String);

/// An ASCII hexadecimal digit: `0`-`9`, `a`-`f` or `A`-`F`.
pub open spec fn is_hex_digit(c: char) -> bool {
    let x = c as u32;
    ||| 0x30 <= x <= 0x39
    ||| 0x41 <= x <= 0x46
    ||| 0x61 <= x <= 0x66
}

/// A transaction hash: 64 hexadecimal digits, a SHA-256 digest in hex.
pub open spec fn is_transaction_hash(s: Seq<char>) -> bool {
    s.len() == 64 && forall|i: int| 0 <= i < s.len() ==> is_hex_digit(#[trigger] s[i])
}

/// The hexadecimal digits are exactly `0` to `9`, `a` to `f` and `A` to `F`.
pub proof fn lemma_hex_digits(c: char)
    ensures
        is_hex_digit(c) <==> ('0' as u32 <= c as u32 <= '9' as u32 || 'a' as u32 <= c as u32
            <= 'f' as u32 || 'A' as u32 <= c as u32 <= 'F' as u32),
{
}

/// Every string of 64 hexadecimal digits is a transaction hash, and nothing
/// of another length is.
pub proof fn lemma_transaction_hash(s: Seq<char>)
    ensures
        is_transaction_hash(s) <==> (s.len() == 64 && forall|i: int|
            0 <= i < s.len() ==> ('0' as u32 <= #[trigger] s[i] as u32 <= '9' as u32 || 'a' as u32
                <= s[i] as u32 <= 'f' as u32 || 'A' as u32 <= s[i] as u32 <= 'F' as u32)),
{
    assert forall|i: int| 0 <= i < s.len() implies (is_hex_digit(s[i]) <==> ('0' as u32
        <= #[trigger] s[i] as u32 <= '9' as u32 || 'a' as u32 <= s[i] as u32 <= 'f' as u32
        || 'A' as u32 <= s[i] as u32 <= 'F' as u32)) by {
        lemma_hex_digits(s[i]);
    }
}

impl TransactionIdParam {
    /// Checks that the id is a transaction hash.
    pub fn is_valid_hash(&self) -> (result: Result<(), TransactionError>)
        ensures
            result is Ok <==> is_transaction_hash(self.0@),
            result is Ok <==> (self.0@.len() == 64 && forall|i: int|
                0 <= i < self.0@.len() ==> ('0' as u32 <= #[trigger] self.0@[i] as u32 <= '9' as u32
                    || 'a' as u32 <= self.0@[i] as u32 <= 'f' as u32 || 'A' as u32 <= self.0@[i] as u32
                    <= 'F' as u32)),
            result matches Err(e) ==> e is InvalidTxId,
    {
        proof {
            lemma_transaction_hash(self.0@);
        }
        let id = self.0.as_str();
        let n = id.unicode_len();
        if n != 64 {
            return Err(TransactionError::InvalidTxId);
        }
        let mut i: usize = 0;
        while i < n
            invariant
                n == id@.len(),
                id@ == self.0@,
                i <= n,
                forall|j: int| 0 <= j < i ==> is_hex_digit(#[trigger] id@[j]),
            decreases n - i,
        {
            let x = id.get_char(i) as u32;
            if !((0x30 <= x && x <= 0x39) || (0x41 <= x && x <= 0x46) || (0x61 <= x && x <= 0x66)) {
                assert(!is_hex_digit(id@[i as int]));
                return Err(TransactionError::InvalidTxId);
            }
            i = i + 1;
        }
        Ok(())
    }

    /// The id.
    pub fn get(self) -> (id: String)
        ensures
            id@ == self.0@,
    {
        self.0
    }
}

} // verus!
