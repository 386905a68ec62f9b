//! Character-level string utilities: equality, ASCII case folding,
//! Unicode whitespace trimming and comma-separated field splitting.

use vstd::prelude::*;
use vstd::string::StrSliceExecFns;

verus! {

/// Two strings are equal when they hold the same characters.
pub fn str_eq(a: &str, b: &str) -> (equal: bool)
    ensures
        equal == (a@ == b@),
{
    let n = a.unicode_len();
    let m = b.unicode_len();
    if n != m {
        return false;
    }
    let mut i: usize = 0;
    while i < n
        invariant
            n == a@.len(),
            m == b@.len(),
            n == m,
            i <= n,
            forall|j: int| 0 <= j < i ==> a@[j] == b@[j],
        decreases n - i,
    {
        if a.get_char(i) != b.get_char(i) {
            return false;
        }
        i = i + 1;
    }
    assert(a@ =~= b@);
    true
}


/// The Unicode `White_Space` property: U+0009..=U+000D, U+0020, U+0085,
/// U+00A0, U+1680, U+2000..=U+200A, U+2028, U+2029, U+202F, U+205F, U+3000.
pub open spec fn is_white_space(c: char) -> bool {
    let x = c as u32;
    ||| 0x09 <= x <= 0x0D
    ||| x == 0x20
    ||| x == 0x85
    ||| x == 0xA0
    ||| x == 0x1680
    ||| 0x2000 <= x <= 0x200A
    ||| x == 0x2028
    ||| x == 0x2029
    ||| x == 0x202F
    ||| x == 0x205F
    ||| x == 0x3000
}

/// `s` without its leading whitespace.
pub open spec fn trim_start(s: Seq<char>) -> Seq<char>
    decreases s.len(),
{
    if s.len() > 0 && is_white_space(s[0]) {
        trim_start(s.drop_first())
    } else {
        s
    }
}

/// `s` without its trailing whitespace.
pub open spec fn trim_end(s: Seq<char>) -> Seq<char>
    decreases s.len(),
{
    if s.len() > 0 && is_white_space(s.last()) {
        trim_end(s.drop_last())
    } else {
        s
    }
}

/// `s` without its leading and trailing whitespace.
pub open spec fn trim(s: Seq<char>) -> Seq<char> {
    trim_end(trim_start(s))
}

/// Whether `c` is a whitespace character.
pub fn is_white_space_char(c: char) -> (ws: bool)
    ensures
        ws == is_white_space(c),
{
    let x = c as u32;
    (0x09 <= x && x <= 0x0D) || x == 0x20 || x == 0x85 || x == 0xA0 || x == 0x1680 || (0x2000
        <= x && x <= 0x200A) || x == 0x2028 || x == 0x2029 || x == 0x202F || x == 0x205F || x
        == 0x3000
}

/// The string slice of `s` without its leading and trailing whitespace.
pub fn trim_str(s: &str) -> (t: &str)
    ensures
        t@ == trim(s@),
{
    let n = s.unicode_len();
    let mut lo: usize = 0;
    assert(s@.subrange(0, n as int) =~= s@);
    while lo < n
        invariant
            n == s@.len(),
            lo <= n,
            trim_start(s@) == trim_start(s@.subrange(lo as int, n as int)),
        ensures
            lo <= n,
            trim_start(s@) == s@.subrange(lo as int, n as int),
        decreases n - lo,
    {
        if !is_white_space_char(s.get_char(lo)) {
            break;
        }
        assert(s@.subrange(lo as int, n as int).drop_first() =~= s@.subrange(lo + 1, n as int));
        lo = lo + 1;
    }
    let mut hi: usize = n;
    while hi > lo
        invariant
            n == s@.len(),
            lo <= hi <= n,
            trim_end(s@.subrange(lo as int, n as int)) == trim_end(
                s@.subrange(lo as int, hi as int),
            ),
        ensures
            lo <= hi <= n,
            trim_end(s@.subrange(lo as int, n as int)) == s@.subrange(lo as int, hi as int),
        decreases hi - lo,
    {
        if !is_white_space_char(s.get_char(hi - 1)) {
            break;
        }
        assert(s@.subrange(lo as int, hi as int).drop_last() =~= s@.subrange(lo as int, hi - 1));
        hi = hi - 1;
    }
    s.substring_char(lo, hi)
}

/// ASCII case folding of a character, as a code point: `A`..=`Z` map to
/// `a`..=`z`, every other character to itself.
pub open spec fn ascii_fold(c: char) -> u32 {
    let x = c as u32;
    if 0x41 <= x <= 0x5A {
        (x + 0x20) as u32
    } else {
        x
    }
}

/// Equality up to ASCII case: the same length, and the same character at each
/// position once ASCII letters are folded to lower case.
pub open spec fn eq_ignore_ascii_case(a: Seq<char>, b: Seq<char>) -> bool {
    &&& a.len() == b.len()
    &&& forall|i: int| 0 <= i < a.len() ==> ascii_fold(#[trigger] a[i]) == ascii_fold(b[i])
}

fn ascii_fold_char(c: char) -> (folded: u32)
    ensures
        folded == ascii_fold(c),
{
    let x = c as u32;
    if 0x41 <= x && x <= 0x5A {
        x + 0x20
    } else {
        x
    }
}

/// Whether `a` and `b` are equal up to ASCII case.
pub fn str_eq_ignore_ascii_case(a: &str, b: &str) -> (equal: bool)
    ensures
        equal == eq_ignore_ascii_case(a@, b@),
{
    let n = a.unicode_len();
    let m = b.unicode_len();
    if n != m {
        return false;
    }
    let mut i: usize = 0;
    while i < n
        invariant
            n == a@.len(),
            m == b@.len(),
            n == m,
            i <= n,
            forall|j: int| 0 <= j < i ==> ascii_fold(#[trigger] a@[j]) == ascii_fold(b@[j]),
        decreases n - i,
    {
        if ascii_fold_char(a.get_char(i)) != ascii_fold_char(b.get_char(i)) {
            return false;
        }
        i = i + 1;
    }
    true
}


/// The fields of `s` between consecutive occurrences of `sep`, in order:
/// one field more than there are separators, each possibly empty.
pub open spec fn split_fields(s: Seq<char>, sep: char) -> Seq<Seq<char>>
    decreases s.len(),
{
    if s.len() == 0 {
        seq![Seq::<char>::empty()]
    } else {
        let prev = split_fields(s.drop_last(), sep);
        if s.last() == sep {
            prev.push(Seq::<char>::empty())
        } else {
            prev.update(prev.len() - 1, prev.last().push(s.last()))
        }
    }
}

/// The non-empty fields, each trimmed of surrounding whitespace. A field of
/// whitespace alone is kept, as the empty string.
pub open spec fn kept_items(fields: Seq<Seq<char>>) -> Seq<Seq<char>> {
    fields.filter(|f: Seq<char>| f.len() > 0).map_values(|f: Seq<char>| trim(f))
}

/// The items of a comma-separated list: the non-empty fields between commas,
/// trimmed.
pub open spec fn csv_items(s: Seq<char>) -> Seq<Seq<char>> {
    kept_items(split_fields(s, ','))
}

/// The views of a sequence of strings.
pub open spec fn string_views(v: Seq<String>) -> Seq<Seq<char>> {
    v.map_values(|t: String| t@)
}

proof fn lemma_split_fields_nonempty(s: Seq<char>, sep: char)
    ensures
        split_fields(s, sep).len() >= 1,
    decreases s.len(),
{
    if s.len() > 0 {
        lemma_split_fields_nonempty(s.drop_last(), sep);
    }
}

proof fn lemma_kept_items_push(fields: Seq<Seq<char>>, f: Seq<char>)
    ensures
        kept_items(fields.push(f)) == if f.len() > 0 {
            kept_items(fields).push(trim(f))
        } else {
            kept_items(fields)
        },
{
    let pred = |g: Seq<char>| g.len() > 0;
    fields.lemma_filter_push(f, pred);
    if f.len() > 0 {
        assert(fields.push(f).filter(pred) == fields.filter(pred).push(f));
        assert(kept_items(fields.push(f)) =~= kept_items(fields).push(trim(f)));
    }
}

/// Splits `s` at commas and keeps the non-empty fields, trimmed of
/// surrounding whitespace.
pub fn split_csv(s: &str) -> (items: Vec<String>)
    ensures
        string_views(items@) == csv_items(s@),
{
    let n = s.unicode_len();
    let mut items: Vec<String> = Vec::new();
    let mut start: usize = 0;
    let mut i: usize = 0;
    let ghost mut done: Seq<Seq<char>> = Seq::empty();
    assert(s@.take(0) =~= Seq::<char>::empty());
    assert(split_fields(s@.take(0), ',') =~= done.push(s@.subrange(0, 0)));
    assert(string_views(items@) =~= kept_items(done)) by {
        reveal(Seq::filter);
    }
    while i < n
        invariant
            n == s@.len(),
            start <= i <= n,
            split_fields(s@.take(i as int), ',') == done.push(s@.subrange(start as int, i as int)),
            string_views(items@) == kept_items(done),
        decreases n - i,
    {
        let c = s.get_char(i);
        let ghost prefix = s@.take(i + 1);
        assert(prefix.drop_last() =~= s@.take(i as int));
        assert(prefix.last() == c);
        if c == ',' {
            let field = s.substring_char(start, i);
            proof {
                lemma_kept_items_push(done, field@);
            }
            if field.unicode_len() > 0 {
                let item = trim_str(field);
                let mut owned = String::new();
                owned.append(item);
                items.push(owned);
                assert(string_views(items@) =~= kept_items(done.push(field@)));
            }
            proof {
                done = done.push(field@);
            }
            start = i + 1;
            assert(split_fields(prefix, ',') =~~= done.push(s@.subrange(start as int, i + 1)));
        } else {
            proof {
                lemma_split_fields_nonempty(s@.take(i as int), ',');
            }
            assert(split_fields(prefix, ',') =~~= done.push(s@.subrange(start as int, i + 1)));
        }
        i = i + 1;
    }
    assert(s@.take(n as int) =~= s@);
    let field = s.substring_char(start, n);
    proof {
        lemma_kept_items_push(done, field@);
    }
    if field.unicode_len() > 0 {
        let item = trim_str(field);
        let mut owned = String::new();
        owned.append(item);
        items.push(owned);
        assert(string_views(items@) =~= kept_items(done.push(field@)));
    }
    items
}

/// The fields joined into one sequence, with `sep` between consecutive ones.
pub open spec fn join_fields(fields: Seq<Seq<char>>, sep: char) -> Seq<char>
    decreases fields.len(),
{
    if fields.len() == 0 {
        seq![]
    } else if fields.len() == 1 {
        fields[0]
    } else {
        join_fields(fields.drop_last(), sep).push(sep) + fields.last()
    }
}

proof fn lemma_split_fields_push_sep(p: Seq<char>, sep: char)
    ensures
        split_fields(p.push(sep), sep) == split_fields(p, sep).push(Seq::<char>::empty()),
{
    assert(p.push(sep).drop_last() =~= p);
}

proof fn lemma_split_fields_append(p: Seq<char>, b: Seq<char>, sep: char)
    requires
        !b.contains(sep),
    ensures
        split_fields(p + b, sep) == split_fields(p, sep).update(
            split_fields(p, sep).len() - 1,
            split_fields(p, sep).last() + b,
        ),
    decreases b.len(),
{
    lemma_split_fields_nonempty(p, sep);
    let prev = split_fields(p, sep);
    if b.len() == 0 {
        assert(p + b =~= p);
        assert(prev.last() + b =~= prev.last());
        assert(prev.update(prev.len() - 1, prev.last() + b) =~= prev);
    } else {
        let c = b.last();
        let b0 = b.drop_last();
        assert(!b0.contains(sep)) by {
            if b0.contains(sep) {
                let k = choose|k: int| 0 <= k < b0.len() && b0[k] == sep;
                assert(b[k] == sep);
            }
        }
        assert(c != sep) by {
            assert(b[b.len() - 1] == c);
        }
        lemma_split_fields_append(p, b0, sep);
        assert((p + b).drop_last() =~= p + b0);
        assert((p + b).last() == c);
        lemma_split_fields_nonempty(p + b0, sep);
        assert(split_fields(p + b, sep) =~~= prev.update(prev.len() - 1, prev.last() + b));
    }
}

/// Joining fields that do not hold the separator, and splitting the result at
/// the separator, gives the fields back.
pub proof fn lemma_split_join(fields: Seq<Seq<char>>, sep: char)
    requires
        fields.len() > 0,
        forall|i: int| 0 <= i < fields.len() ==> !(#[trigger] fields[i]).contains(sep),
    ensures
        split_fields(join_fields(fields, sep), sep) == fields,
    decreases fields.len(),
{
    if fields.len() == 1 {
        lemma_split_fields_append(Seq::<char>::empty(), fields[0], sep);
        assert(Seq::<char>::empty() + fields[0] =~= fields[0]);
        assert(split_fields(Seq::<char>::empty(), sep) =~~= seq![Seq::<char>::empty()]);
        assert(Seq::<char>::empty() + fields[0] =~= fields[0]);
        assert(split_fields(fields[0], sep) =~~= fields);
    } else {
        let init = fields.drop_last();
        assert forall|i: int| 0 <= i < init.len() implies !(#[trigger] init[i]).contains(sep) by {
            assert(init[i] == fields[i]);
        }
        lemma_split_join(init, sep);
        let head = join_fields(init, sep);
        lemma_split_fields_push_sep(head, sep);
        assert(!fields.last().contains(sep)) by {
            assert(fields[fields.len() - 1] == fields.last());
        }
        lemma_split_fields_append(head.push(sep), fields.last(), sep);
        assert(Seq::<char>::empty() + fields.last() =~= fields.last());
        assert(split_fields(join_fields(fields, sep), sep) =~~= fields);
    }
}

/// The items written as a comma-separated list: a comma followed by `pad`
/// between consecutive items.
pub open spec fn join_csv(items: Seq<Seq<char>>, pad: Seq<char>) -> Seq<char>
    decreases items.len(),
{
    if items.len() == 0 {
        seq![]
    } else if items.len() == 1 {
        items[0]
    } else {
        join_csv(items.drop_last(), pad) + seq![','] + pad + items.last()
    }
}

/// Whether every character of `s` is whitespace.
pub open spec fn all_white_space(s: Seq<char>) -> bool {
    forall|i: int| 0 <= i < s.len() ==> is_white_space(#[trigger] s[i])
}

/// The fields between the commas of `join_csv(items, pad)`: the first item,
/// then each later item after the padding.
spec fn padded_items(items: Seq<Seq<char>>, pad: Seq<char>) -> Seq<Seq<char>> {
    Seq::new(items.len(), |i: int| if i == 0 { items[0] } else { pad + items[i] })
}

proof fn lemma_join_csv_fields(items: Seq<Seq<char>>, pad: Seq<char>)
    requires
        items.len() > 0,
    ensures
        join_csv(items, pad) == join_fields(padded_items(items, pad), ','),
    decreases items.len(),
{
    if items.len() > 1 {
        let init = items.drop_last();
        lemma_join_csv_fields(init, pad);
        let fields = padded_items(items, pad);
        assert(fields.drop_last() =~= padded_items(init, pad));
        assert(fields.last() == pad + items.last());
        assert(join_csv(items, pad) =~= join_fields(fields.drop_last(), ',').push(',') + fields.last());
    }
}

proof fn lemma_trim_start_pad(pad: Seq<char>, x: Seq<char>)
    requires
        all_white_space(pad),
    ensures
        trim_start(pad + x) == trim_start(x),
    decreases pad.len(),
{
    if pad.len() == 0 {
        assert(pad + x =~= x);
    } else {
        assert((pad + x)[0] == pad[0]);
        assert((pad + x).drop_first() =~= pad.drop_first() + x);
        assert(all_white_space(pad.drop_first())) by {
            assert forall|i: int| 0 <= i < pad.drop_first().len() implies is_white_space(
                #[trigger] pad.drop_first()[i],
            ) by {
                assert(pad.drop_first()[i] == pad[i + 1]);
            }
        }
        lemma_trim_start_pad(pad.drop_first(), x);
    }
}

/// Items that are non-empty, hold no comma and have no surrounding
/// whitespace, written as a comma-separated list with any whitespace after
/// each comma, read back as the same items.
pub proof fn lemma_csv_round_trip(items: Seq<Seq<char>>, pad: Seq<char>)
    requires
        all_white_space(pad),
        forall|i: int|
            0 <= i < items.len() ==> {
                &&& (#[trigger] items[i]).len() > 0
                &&& !items[i].contains(',')
                &&& trim(items[i]) == items[i]
            },
    ensures
        csv_items(join_csv(items, pad)) == items,
{
    if items.len() == 0 {
        assert(split_fields(Seq::<char>::empty(), ',') =~~= seq![Seq::<char>::empty()]);
        lemma_kept_items_push(Seq::<Seq<char>>::empty(), Seq::<char>::empty());
        assert(seq![Seq::<char>::empty()] =~= Seq::<Seq<char>>::empty().push(Seq::<char>::empty()));
        assert(kept_items(Seq::<Seq<char>>::empty()) =~= Seq::<Seq<char>>::empty()) by {
            reveal(Seq::filter);
        }
    } else {
        let fields = padded_items(items, pad);
        lemma_join_csv_fields(items, pad);
        assert forall|i: int| 0 <= i < fields.len() implies !(#[trigger] fields[i]).contains(',') by {
            if fields[i].contains(',') {
                let k = choose|k: int| 0 <= k < fields[i].len() && fields[i][k] == ',';
                if i == 0 {
                    assert(items[0][k] == ',');
                } else if k < pad.len() {
                    assert(is_white_space(pad[k]));
                    assert(fields[i][k] == pad[k]);
                } else {
                    assert(items[i][k - pad.len()] == ',');
                }
            }
        }
        lemma_split_join(fields, ',');
        let pred = |f: Seq<char>| f.len() > 0;
        assert forall|i: int| 0 <= i < fields.len() implies pred(#[trigger] fields[i]) by {
            assert(items[i].len() > 0);
        }
        lemma_filter_all(fields, pred);
        assert forall|i: int| 0 <= i < fields.len() implies trim(#[trigger] fields[i]) == items[i] by {
            if i > 0 {
                lemma_trim_start_pad(pad, items[i]);
            }
        }
        assert(fields.map_values(|f: Seq<char>| trim(f)) =~= items);
    }
}

proof fn lemma_filter_all(s: Seq<Seq<char>>, pred: spec_fn(Seq<char>) -> bool)
    requires
        forall|i: int| 0 <= i < s.len() ==> pred(#[trigger] s[i]),
    ensures
        s.filter(pred) == s,
    decreases s.len(),
{
    reveal(Seq::filter);
    if s.len() > 0 {
        let init = s.drop_last();
        assert forall|i: int| 0 <= i < init.len() implies pred(#[trigger] init[i]) by {
            assert(init[i] == s[i]);
        }
        lemma_filter_all(init, pred);
        assert(pred(s[s.len() - 1]));
        assert(init.push(s.last()) =~= s);
    }
}

/// The whitespace characters are exactly tab, line feed, vertical tab, form
/// feed, carriage return, space, next line, no-break space, ogham space mark,
/// the spaces U+2000 to U+200A, line separator, paragraph separator, narrow
/// no-break space, medium mathematical space and ideographic space.
pub proof fn lemma_white_space_chars(c: char)
    ensures
        is_white_space(c) <==> {
            ||| c == '\t'
            ||| c == '\n'
            ||| c == '\u{0B}'
            ||| c == '\u{0C}'
            ||| c == '\r'
            ||| c == ' '
            ||| c == '\u{85}'
            ||| c == '\u{A0}'
            ||| c == '\u{1680}'
            ||| ('\u{2000}' as u32 <= c as u32 <= '\u{200A}' as u32)
            ||| c == '\u{2028}'
            ||| c == '\u{2029}'
            ||| c == '\u{202F}'
            ||| c == '\u{205F}'
            ||| c == '\u{3000}'
        },
{
    let x = c as u32;
    if 0x09 <= x <= 0x0D {
        if x == 0x09 { assert(c == '\t') by { lemma_char_code(c, '\t'); } }
        if x == 0x0A { assert(c == '\n') by { lemma_char_code(c, '\n'); } }
        if x == 0x0B { assert(c == '\u{0B}') by { lemma_char_code(c, '\u{0B}'); } }
        if x == 0x0C { assert(c == '\u{0C}') by { lemma_char_code(c, '\u{0C}'); } }
        if x == 0x0D { assert(c == '\r') by { lemma_char_code(c, '\r'); } }
    }
    if x == 0x20 { lemma_char_code(c, ' '); }
    if x == 0x85 { lemma_char_code(c, '\u{85}'); }
    if x == 0xA0 { lemma_char_code(c, '\u{A0}'); }
    if x == 0x1680 { lemma_char_code(c, '\u{1680}'); }
    if x == 0x2028 { lemma_char_code(c, '\u{2028}'); }
    if x == 0x2029 { lemma_char_code(c, '\u{2029}'); }
    if x == 0x202F { lemma_char_code(c, '\u{202F}'); }
    if x == 0x205F { lemma_char_code(c, '\u{205F}'); }
    if x == 0x3000 { lemma_char_code(c, '\u{3000}'); }
}

proof fn lemma_char_code(c: char, d: char)
    requires
        c as u32 == d as u32,
    ensures
        c == d,
{
    assert((c as u32) as char == c);
    assert((d as u32) as char == d);
}

/// Trimming keeps a contiguous part of the sequence: everything before it and
/// after it is whitespace, and what is kept neither begins nor ends with
/// whitespace.
pub proof fn lemma_trim_bounds(s: Seq<char>)
    ensures
        exists|lo: int, hi: int|
            0 <= lo <= hi <= s.len() && trim(s) == s.subrange(lo, hi) && (forall|k: int|
                0 <= k < lo ==> is_white_space(#[trigger] s[k])) && (forall|k: int|
                hi <= k < s.len() ==> is_white_space(#[trigger] s[k])),
        trim(s).len() > 0 ==> !is_white_space(trim(s)[0]) && !is_white_space(trim(s).last()),
{
    let lo = lemma_trim_start_bounds(s);
    let t = trim_start(s);
    let hi = lemma_trim_end_bounds(t);
    assert(trim(s) == s.subrange(lo, lo + hi));
    assert forall|k: int| lo + hi <= k < s.len() implies is_white_space(#[trigger] s[k]) by {
        assert(s[k] == t[k - lo]);
    }
    if trim(s).len() > 0 {
        assert(trim(s)[0] == t[0]);
    }
}

proof fn lemma_trim_start_bounds(s: Seq<char>) -> (lo: int)
    ensures
        0 <= lo <= s.len(),
        trim_start(s) == s.subrange(lo, s.len() as int),
        forall|k: int| 0 <= k < lo ==> is_white_space(#[trigger] s[k]),
        trim_start(s).len() > 0 ==> !is_white_space(trim_start(s)[0]),
    decreases s.len(),
{
    if s.len() > 0 && is_white_space(s[0]) {
        let rest = s.drop_first();
        let lo0 = lemma_trim_start_bounds(rest);
        assert forall|k: int| 0 <= k < lo0 + 1 implies is_white_space(#[trigger] s[k]) by {
            if k > 0 {
                assert(s[k] == rest[k - 1]);
            }
        }
        assert(rest.subrange(lo0, rest.len() as int) =~= s.subrange(lo0 + 1, s.len() as int));
        lo0 + 1
    } else {
        assert(s.subrange(0, s.len() as int) =~= s);
        0
    }
}

proof fn lemma_trim_end_bounds(s: Seq<char>) -> (hi: int)
    ensures
        0 <= hi <= s.len(),
        trim_end(s) == s.subrange(0, hi),
        forall|k: int| hi <= k < s.len() ==> is_white_space(#[trigger] s[k]),
        trim_end(s).len() > 0 ==> !is_white_space(trim_end(s).last()),
        trim_end(s).len() > 0 ==> trim_end(s)[0] == s[0],
    decreases s.len(),
{
    if s.len() > 0 && is_white_space(s.last()) {
        let init = s.drop_last();
        let hi0 = lemma_trim_end_bounds(init);
        assert forall|k: int| hi0 <= k < s.len() implies is_white_space(#[trigger] s[k]) by {
            if k < s.len() - 1 {
                assert(s[k] == init[k]);
            }
        }
        assert(init.subrange(0, hi0) =~= s.subrange(0, hi0));
        hi0
    } else {
        assert(s.subrange(0, s.len() as int) =~= s);
        s.len() as int
    }
}

} // verus!
