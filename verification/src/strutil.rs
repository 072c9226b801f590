//! Verified text helpers: decimal rendering of integers and splitting a
//! claim string on ASCII whitespace.

use vstd::prelude::*;

verus! {

/// The decimal digit character for a value below ten.
pub open spec fn digit_char(d: int) -> char
    recommends
        0 <= d < 10,
{
    if d == 0 { '0' }
    else if d == 1 { '1' }
    else if d == 2 { '2' }
    else if d == 3 { '3' }
    else if d == 4 { '4' }
    else if d == 5 { '5' }
    else if d == 6 { '6' }
    else if d == 7 { '7' }
    else if d == 8 { '8' }
    else { '9' }
}

/// The decimal digit string of a non-negative value, most significant digit
/// first, without leading zeroes (a single `'0'` for zero).
pub open spec fn dec_digits(n: nat) -> Seq<char>
    decreases n,
{
    if n < 10 {
        seq![digit_char(n as int)]
    } else {
        dec_digits(n / 10) + seq![digit_char((n % 10) as int)]
    }
}

/// The decimal string of a signed value: a minus sign followed by the digits
/// of its magnitude when negative, the digits alone otherwise.
pub open spec fn dec_int(i: int) -> Seq<char> {
    if i < 0 {
        seq!['-'] + dec_digits((-i) as nat)
    } else {
        dec_digits(i as nat)
    }
}

/// The view of an optional owned string.
pub open spec fn opt_str_view(o: Option<String>) -> Option<Seq<char>> {
    match o {
        Some(s) => Some(s@),
        None => None,
    }
}

/// Whether a character is ASCII whitespace: the delimiters recognized when
/// splitting a scope claim.
pub open spec fn is_ascii_ws(c: char) -> bool {
    c == ' ' || c == '\t' || c == '\n' || c == '\r' || c == '\u{c}'
}

/// The maximal runs of non-whitespace characters of a string, in order:
/// the result of splitting it on ASCII whitespace.
pub open spec fn ws_split(s: Seq<char>) -> Seq<Seq<char>>
    decreases s.len(),
{
    if s.len() == 0 {
        Seq::empty()
    } else {
        let prefix = s.drop_last();
        let c = s.last();
        let rest = ws_split(prefix);
        if is_ascii_ws(c) {
            rest
        } else if prefix.len() > 0 && !is_ascii_ws(prefix.last()) {
            rest.update(rest.len() - 1, rest.last().push(c))
        } else {
            rest.push(seq![c])
        }
    }
}

/// The views of a vector of owned strings.
pub open spec fn str_views(v: Seq<String>) -> Seq<Seq<char>> {
    v.map_values(|t: String| t@)
}

proof fn lemma_str_views_push(v: Seq<String>, t: String)
    ensures
        str_views(v.push(t)) =~= str_views(v).push(t@),
{
    assert forall|k: int| 0 <= k < v.len() + 1 implies str_views(v.push(t))[k] == str_views(
        v,
    ).push(t@)[k] by {
        if k < v.len() {
            assert(v.push(t)[k] == v[k]);
        } else {
            assert(v.push(t)[k] == t);
        }
    }
}

fn is_ws_char(c: char) -> (r: bool)
    ensures
        r == is_ascii_ws(c),
{
    c == ' ' || c == '\t' || c == '\n' || c == '\r' || c == '\u{c}'
}

/// Split a string on ASCII whitespace into its maximal non-whitespace runs,
/// in order.
pub fn split_ascii_tokens(s: &str) -> (r: Vec<String>)
    ensures
        str_views(r@) == ws_split(s@),
{
    let n = s.unicode_len();
    let mut result: Vec<String> = Vec::new();
    let mut tok_start: usize = 0;
    let mut in_token = false;
    let mut i: usize = 0;
    while i < n
        invariant
            0 <= i <= n,
            n == s@.len(),
            !in_token ==> str_views(result@) == ws_split(s@.take(i as int)),
            !in_token ==> (i == 0 || is_ascii_ws(s@[i as int - 1])),
            in_token ==> {
                &&& tok_start < i
                &&& !is_ascii_ws(s@[i as int - 1])
                &&& ws_split(s@.take(i as int)).len() > 0
                &&& str_views(result@) == ws_split(s@.take(i as int)).drop_last()
                &&& ws_split(s@.take(i as int)).last() == s@.subrange(tok_start as int, i as int)
            },
        decreases n - i,
    {
        let c = s.get_char(i);
        proof {
            assert(s@.take(i as int + 1).drop_last() =~= s@.take(i as int));
            assert(s@.take(i as int + 1).last() == s@[i as int]);
        }
        if is_ws_char(c) {
            if in_token {
                let token = s.substring_char(tok_start, i);
                let owned = token.to_owned();
                let ghost before = result@;
                result.push(owned);
                in_token = false;
                proof {
                    let prev = ws_split(s@.take(i as int));
                    lemma_str_views_push(before, owned);
                    assert(prev.drop_last().push(prev.last()) =~= prev);
                    assert(str_views(result@) =~= prev);
                    assert(ws_split(s@.take(i as int + 1)) == prev);
                }
            }
        } else {
            if in_token {
                proof {
                    let full = ws_split(s@.take(i as int + 1));
                    let prev = ws_split(s@.take(i as int));
                    assert(full == prev.update(prev.len() - 1, prev.last().push(s@[i as int])));
                    assert(full.drop_last() =~= prev.drop_last());
                    assert(full.last() =~= s@.subrange(tok_start as int, i as int + 1));
                }
            } else {
                tok_start = i;
                in_token = true;
                proof {
                    let full = ws_split(s@.take(i as int + 1));
                    let prev = ws_split(s@.take(i as int));
                    assert(full == prev.push(seq![s@[i as int]]));
                    assert(full.drop_last() =~= prev);
                    assert(full.last() =~= s@.subrange(i as int, i as int + 1));
                }
            }
        }
        i += 1;
    }
    proof {
        assert(s@.take(n as int) =~= s@);
    }
    if in_token {
        let token = s.substring_char(tok_start, n);
        let owned = token.to_owned();
        let ghost before = result@;
        result.push(owned);
        proof {
            let full = ws_split(s@);
            lemma_str_views_push(before, owned);
            assert(full.drop_last().push(full.last()) =~= full);
            assert(str_views(result@) =~= full);
        }
    }
    result
}

fn push_digit(s: &mut String, d: u64)
    requires
        d < 10,
    ensures
        final(s)@ == old(s)@ + seq![digit_char(d as int)],
{
    proof {
        reveal_strlit("0");
        reveal_strlit("1");
        reveal_strlit("2");
        reveal_strlit("3");
        reveal_strlit("4");
        reveal_strlit("5");
        reveal_strlit("6");
        reveal_strlit("7");
        reveal_strlit("8");
        reveal_strlit("9");
    }
    if d == 0 { s.append("0") }
    else if d == 1 { s.append("1") }
    else if d == 2 { s.append("2") }
    else if d == 3 { s.append("3") }
    else if d == 4 { s.append("4") }
    else if d == 5 { s.append("5") }
    else if d == 6 { s.append("6") }
    else if d == 7 { s.append("7") }
    else if d == 8 { s.append("8") }
    else { s.append("9") }
}

fn push_dec_u64(s: &mut String, n: u64)
    ensures
        final(s)@ == old(s)@ + dec_digits(n as nat),
    decreases n,
{
    if n < 10 {
        push_digit(s, n);
    } else {
        push_dec_u64(s, n / 10);
        push_digit(s, n % 10);
        proof {
            assert(old(s)@ + dec_digits((n / 10) as nat) + seq![digit_char((n % 10) as int)]
                =~= old(s)@ + dec_digits(n as nat));
        }
    }
}

/// The decimal string of a signed 64-bit value.
pub fn dec_string_i64(i: i64) -> (r: String)
    ensures
        r@ == dec_int(i as int),
{
    let mut s = String::new();
    if i < 0 {
        proof {
            reveal_strlit("-");
        }
        s.append("-");
        let magnitude: u64 = ((-(i as i128)) as u64);
        push_dec_u64(&mut s, magnitude);
        proof {
            assert(s@ =~= dec_int(i as int));
        }
    } else {
        push_dec_u64(&mut s, i as u64);
        proof {
            assert(s@ =~= dec_int(i as int));
        }
    }
    s
}

} // verus!
