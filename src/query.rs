//! Serialising allow-listed input fields into a URL query string.
use crate::codec::{percent_encoded, url_encode};
use crate::json::{field, Json};
use vstd::prelude::*;

verus! {

/// The decimal digit for `d < 10`.
pub open spec fn digit_char(d: int) -> char {
    seq!['0', '1', '2', '3', '4', '5', '6', '7', '8', '9'][d]
}

/// The decimal digits of a natural number, without leading zeros.
pub open spec fn digits(n: nat) -> Seq<char>
    decreases n,
{
    if n < 10 {
        seq![digit_char(n as int)]
    } else {
        digits(n / 10).push(digit_char((n % 10) as int))
    }
}

/// The decimal text of an integer, with a leading `-` when negative.
pub open spec fn decimal(i: int) -> Seq<char> {
    if i < 0 {
        seq!['-'] + digits((-i) as nat)
    } else {
        digits(i as nat)
    }
}

/// `name=value`.
pub open spec fn pair(name: Seq<char>, value: Seq<char>) -> Seq<char> {
    name + seq!['='] + value
}

/// The parts joined with `sep` between each two of them.
pub open spec fn joined(parts: Seq<Seq<char>>, sep: Seq<char>) -> Seq<char>
    decreases parts.len(),
{
    if parts.len() == 0 {
        seq![]
    } else if parts.len() == 1 {
        parts[0]
    } else {
        joined(parts.drop_last(), sep) + sep + parts.last()
    }
}

/// The non-empty strings among the items, in order; other items are skipped.
pub open spec fn nonempty_strings(items: Seq<Json>) -> Seq<Seq<char>>
    decreases items.len(),
{
    if items.len() == 0 {
        seq![]
    } else {
        let rest = nonempty_strings(items.drop_last());
        match items.last() {
            Json::Str(s) => if s@.len() > 0 {
                rest.push(s@)
            } else {
                rest
            },
            _ => rest,
        }
    }
}

/// The query entry that the field `name` of the input yields, if any: a
/// non-empty string is percent-encoded, the non-empty strings of an array are
/// joined with `,` and the whole is percent-encoded once, an integer is
/// written in decimal and a boolean as `true` or `false`. Null, an empty
/// string or array, an object and any other number yield nothing.
pub open spec fn query_entry(input: Json, name: Seq<char>) -> Option<Seq<char>> {
    match field(input, name) {
        Some(Json::Str(s)) => if s@.len() > 0 {
            Some(pair(name, percent_encoded(s@)))
        } else {
            None
        },
        Some(Json::Array(items)) => {
            let kept = nonempty_strings(items@);
            if kept.len() > 0 {
                Some(pair(name, percent_encoded(joined(kept, seq![',']))))
            } else {
                None
            }
        },
        Some(Json::Int(i)) => Some(pair(name, decimal(i as int))),
        Some(Json::Bool(b)) => Some(
            pair(
                name,
                if b {
                    seq!['t', 'r', 'u', 'e']
                } else {
                    seq!['f', 'a', 'l', 's', 'e']
                },
            ),
        ),
        _ => None,
    }
}

/// The entries of the allow-listed names, in the order of the allow-list.
pub open spec fn query_entries(input: Json, names: Seq<Seq<char>>) -> Seq<Seq<char>>
    decreases names.len(),
{
    if names.len() == 0 {
        seq![]
    } else {
        let rest = query_entries(input, names.drop_last());
        match query_entry(input, names.last()) {
            Some(e) => rest.push(e),
            None => rest,
        }
    }
}

/// The query string of the input over an allow-list: its entries joined by `&`.
pub open spec fn query_string(input: Json, names: Seq<Seq<char>>) -> Seq<char> {
    joined(query_entries(input, names), seq!['&'])
}

/// The texts of a sequence of strings.
pub open spec fn texts(v: Seq<String>) -> Seq<Seq<char>> {
    v.map_values(|s: String| s@)
}

/// The texts of an allow-list.
pub open spec fn names_of(v: Seq<&str>) -> Seq<Seq<char>> {
    v.map_values(|s: &str| s@)
}

/// A field that is null, an empty string or an empty array yields no query
/// entry, and adding its name to any allow-list leaves the entries as they
/// were.
pub proof fn lemma_empty_values_add_nothing(input: Json, names: Seq<Seq<char>>, name: Seq<char>)
    requires
        field(input, name) matches Some(v) && (v is Null || (v matches Json::Str(s) && s@.len()
            == 0) || (v matches Json::Array(a) && a@.len() == 0)),
    ensures
        query_entry(input, name) is None,
        query_entries(input, names.push(name)) == query_entries(input, names),
        query_string(input, names.push(name)) == query_string(input, names),
{
    assert(names.push(name).drop_last() =~= names);
}

/// An input whose allow-listed field `p` is null, an empty string or an
/// empty array gives the same query string as the same input without `p`,
/// and `p` yields no entry in it.
pub proof fn lemma_empty_field_same_as_absent(x: Json, y: Json, names: Seq<Seq<char>>, p: Seq<char>)
    requires
        forall|n: Seq<char>| n != p ==> #[trigger] field(x, n) == field(y, n),
        field(x, p) matches Some(v) && (v is Null || (v matches Json::Str(s) && s@.len() == 0) || (
        v matches Json::Array(a) && a@.len() == 0)),
        field(y, p) is None,
    ensures
        query_entry(x, p) is None,
        query_entries(x, names) == query_entries(y, names),
        query_string(x, names) == query_string(y, names),
    decreases names.len(),
{
    if names.len() > 0 {
        let n = names.last();
        if n != p {
            assert(field(x, n) == field(y, n));
        }
        lemma_empty_field_same_as_absent(x, y, names.drop_last(), p);
    }
}

/// The positions in the allow-list of the names that yield an entry.
pub open spec fn entry_sources(input: Json, names: Seq<Seq<char>>) -> Seq<int>
    decreases names.len(),
{
    if names.len() == 0 {
        seq![]
    } else {
        let rest = entry_sources(input, names.drop_last());
        if query_entry(input, names.last()) is Some {
            rest.push(names.len() - 1)
        } else {
            rest
        }
    }
}

/// Each entry of the query string is the entry of one allow-listed name, and
/// the entries come in the order of those names in the allow-list.
pub proof fn lemma_entries_in_allow_list_order(input: Json, names: Seq<Seq<char>>)
    ensures
        entry_sources(input, names).len() == query_entries(input, names).len(),
        forall|i: int|
            0 <= i < entry_sources(input, names).len() ==> 0 <= #[trigger] entry_sources(input, names)[i]
                < names.len() && query_entry(input, names[entry_sources(input, names)[i]]) == Some(
                query_entries(input, names)[i],
            ),
        forall|i: int, j: int|
            0 <= i < j < entry_sources(input, names).len() ==> #[trigger] entry_sources(input, names)[i]
                < #[trigger] entry_sources(input, names)[j],
    decreases names.len(),
{
    if names.len() > 0 {
        let front = names.drop_last();
        lemma_entries_in_allow_list_order(input, front);
        assert forall|i: int| 0 <= i < entry_sources(input, front).len() implies names[entry_sources(
            input,
            front,
        )[i]] == front[entry_sources(input, front)[i]] by {}
    }
}

/// The entries of an allow-list made of two parts are those of the first
/// part followed by those of the second: the order is that of the
/// allow-list, whatever the order of the input's members.
pub proof fn lemma_entries_follow_allow_list(input: Json, a: Seq<Seq<char>>, b: Seq<Seq<char>>)
    ensures
        query_entries(input, a + b) == query_entries(input, a) + query_entries(input, b),
    decreases b.len(),
{
    if b.len() == 0 {
        assert(a + b =~= a);
        assert(query_entries(input, a) + query_entries(input, b) =~= query_entries(input, a));
    } else {
        assert((a + b).drop_last() =~= a + b.drop_last());
        lemma_entries_follow_allow_list(input, a, b.drop_last());
        match query_entry(input, b.last()) {
            Some(e) => {
                assert(query_entries(input, a + b) =~= query_entries(input, a) + query_entries(
                    input,
                    b,
                ));
            },
            None => {},
        }
    }
}

/// Two inputs that agree on every allow-listed field, such as one input and
/// the same members in another order, give byte-identical query strings.
pub proof fn lemma_query_string_deterministic(x: Json, y: Json, names: Seq<Seq<char>>)
    requires
        forall|i: int| 0 <= i < names.len() ==> field(x, #[trigger] names[i]) == field(y, names[i]),
    ensures
        query_entries(x, names) == query_entries(y, names),
        query_string(x, names) == query_string(y, names),
    decreases names.len(),
{
    if names.len() > 0 {
        assert(field(x, names[names.len() - 1]) == field(y, names[names.len() - 1]));
        lemma_query_string_deterministic(x, y, names.drop_last());
    }
}

/// The decimal digit `d` as a one-character literal.
fn digit_str(d: u64) -> (r: &'static str)
    requires
        d < 10,
    ensures
        r@ == seq![digit_char(d as int)],
{
    proof {
        reveal_strlit("0");
        reveal_strlit("1");
        reveal_strlit("2");
        reveal_strlit("3");
        reveal_strlit("4");
        reveal_strlit("5");
        reveal_strlit("6");
        reveal_strlit("7");
        reveal_strlit("8");
        reveal_strlit("9");
    }
    if d == 0 {
        "0"
    } else if d == 1 {
        "1"
    } else if d == 2 {
        "2"
    } else if d == 3 {
        "3"
    } else if d == 4 {
        "4"
    } else if d == 5 {
        "5"
    } else if d == 6 {
        "6"
    } else if d == 7 {
        "7"
    } else if d == 8 {
        "8"
    } else {
        "9"
    }
}

/// The decimal digits of `n`.
fn digits_text(n: u64) -> (r: String)
    ensures
        r@ == digits(n as nat),
    decreases n,
{
    if n < 10 {
        String::from_str(digit_str(n))
    } else {
        let mut s = digits_text(n / 10);
        s.append(digit_str(n % 10));
        s
    }
}

/// The decimal text of an integer.
pub fn decimal_text(i: i64) -> (r: String)
    ensures
        r@ == decimal(i as int),
{
    if i < 0 {
        let magnitude: u64 = (-(i as i128)) as u64;
        let mut s = String::from_str("-");
        proof {
            reveal_strlit("-");
        }
        let d = digits_text(magnitude);
        s.append(d.as_str());
        s
    } else {
        digits_text(i as u64)
    }
}

/// The parts joined with `sep` between each two of them.
pub fn join(parts: &Vec<String>, sep: &str) -> (r: String)
    ensures
        r@ == joined(texts(parts@), sep@),
{
    let mut out = String::new();
    let mut i: usize = 0;
    while i < parts.len()
        invariant
            0 <= i <= parts@.len(),
            out@ == joined(texts(parts@.subrange(0, i as int)), sep@),
        decreases parts.len() - i,
    {
        proof {
            let pre = parts@.subrange(0, i as int);
            let next = parts@.subrange(0, i + 1);
            assert(texts(next).drop_last() =~= texts(pre));
            assert(texts(next).last() == parts@[i as int]@);
        }
        if i > 0 {
            out.append(sep);
        }
        out.append(parts[i].as_str());
        i = i + 1;
    }
    assert(parts@.subrange(0, parts@.len() as int) =~= parts@);
    out
}

/// `name=value`.
fn make_pair(name: &str, value: &str) -> (r: String)
    ensures
        r@ == pair(name@, value@),
{
    let mut s = String::from_str(name);
    s.append("=");
    proof {
        reveal_strlit("=");
        assert("="@ =~= seq!['=']);
    }
    s.append(value);
    s
}

/// Appends the query entry of the field `name`, if it yields one.
pub fn add_query_parameter(input: &Json, name: &str, parts: &mut Vec<String>)
    ensures
        texts(final(parts)@) == match query_entry(*input, name@) {
            Some(e) => texts(old(parts)@).push(e),
            None => texts(old(parts)@),
        },
{
    let ghost before = parts@;
    match input.get(name) {
        Some(Json::Str(s)) => {
            if !s.as_str().is_empty() {
                let enc = url_encode(s.as_str());
                parts.push(make_pair(name, enc.as_str()));
                assert(texts(parts@) =~= texts(before).push(pair(name@, percent_encoded(s@))));
            }
        },
        Some(Json::Array(items)) => {
            let mut kept: Vec<String> = Vec::new();
            let mut i: usize = 0;
            while i < items.len()
                invariant
                    0 <= i <= items@.len(),
                    texts(kept@) == nonempty_strings(items@.subrange(0, i as int)),
                decreases items.len() - i,
            {
                proof {
                    assert(items@.subrange(0, i + 1).drop_last() =~= items@.subrange(0, i as int));
                }
                match &items[i] {
                    Json::Str(s) => {
                        if !s.as_str().is_empty() {
                            kept.push(String::from_str(s.as_str()));
                            assert(texts(kept@) =~= nonempty_strings(items@.subrange(0, i as int)).push(s@));
                        }
                    },
                    _ => {},
                }
                i = i + 1;
            }
            assert(items@.subrange(0, items@.len() as int) =~= items@);
            if !kept.is_empty() {
                let all = join(&kept, ",");
                proof {
                    reveal_strlit(",");
                    assert(","@ =~= seq![',']);
                }
                let enc = url_encode(all.as_str());
                parts.push(make_pair(name, enc.as_str()));
                assert(texts(parts@) =~= texts(before).push(
                    pair(name@, percent_encoded(joined(nonempty_strings(items@), seq![','])))));
            }
        },
        Some(Json::Int(n)) => {
            let d = decimal_text(*n);
            parts.push(make_pair(name, d.as_str()));
            assert(texts(parts@) =~= texts(before).push(pair(name@, decimal(*n as int))));
        },
        Some(Json::Bool(b)) => {
            let text = if *b {
                "true"
            } else {
                "false"
            };
            proof {
                reveal_strlit("true");
                reveal_strlit("false");
                assert("true"@ =~= seq!['t', 'r', 'u', 'e']);
                assert("false"@ =~= seq!['f', 'a', 'l', 's', 'e']);
            }
            parts.push(make_pair(name, text));
            assert(texts(parts@) =~= texts(before).push(pair(name@, text@)));
        },
        _ => {},
    }
}

/// The query string of the input over an allow-list.
pub fn build_query_parameters(input: &Json, names: &[&str]) -> (r: String)
    ensures
        r@ == query_string(*input, names_of(names@)),
{
    let mut parts: Vec<String> = Vec::new();
    let mut i: usize = 0;
    while i < names.len()
        invariant
            0 <= i <= names@.len(),
            texts(parts@) == query_entries(*input, names_of(names@.subrange(0, i as int))),
        decreases names.len() - i,
    {
        proof {
            assert(names_of(names@.subrange(0, i + 1)).drop_last() =~= names_of(names@.subrange(0, i as int)));
        }
        add_query_parameter(input, names[i], &mut parts);
        i = i + 1;
    }
    assert(names@.subrange(0, names@.len() as int) =~= names@);
    proof {
        reveal_strlit("&");
        assert("&"@ =~= seq!['&']);
    }
    join(&parts, "&")
}

} // verus!
