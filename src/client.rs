pub mod mlb;
pub mod nhl;

use vstd::prelude::*;
use crate::decode::{text_views, Date, Decode};
use crate::error::ClientError;
use crate::json::{document_of, parse_json};

verus! {

/// The decimal digit `d`.
pub open spec fn digit_char(d: nat) -> char {
    seq!['0', '1', '2', '3', '4', '5', '6', '7', '8', '9'][d as int]
}

/// `n` written in decimal, without leading zeros.
pub open spec fn decimal_text(n: nat) -> Seq<char>
    decreases n,
{
    if n < 10 {
        seq![digit_char(n)]
    } else {
        decimal_text(n / 10).push(digit_char(n % 10))
    }
}

/// `n` in decimal, with zeros in front up to `width` digits.
pub open spec fn padded_text(n: nat, width: nat) -> Seq<char> {
    let digits = decimal_text(n);
    if digits.len() >= width {
        digits
    } else {
        Seq::new((width - digits.len()) as nat, |i: int| '0') + digits
    }
}

/// The `YYYY-MM-DD` form of a date; a year outside 0..=9999 carries its sign.
pub open spec fn date_text(d: Date) -> Seq<char> {
    let year = if 0 <= d.year <= 9999 {
        padded_text(d.year as nat, 4)
    } else if d.year < 0 {
        seq!['-'] + padded_text((-d.year) as nat, 4)
    } else {
        seq!['+'] + padded_text(d.year as nat, 4)
    };
    year + seq!['-'] + padded_text(d.month as nat, 2) + seq!['-'] + padded_text(d.day as nat, 2)
}

/// The views of query pairs.
pub open spec fn pair_views(pairs: Seq<(String, String)>) -> Seq<(Seq<char>, Seq<char>)> {
    pairs.map_values(|p: (String, String)| (p.0@, p.1@))
}

/// The `application/x-www-form-urlencoded` text that serde_urlencoded writes for the pairs.
pub uninterp spec fn form_encoded(pairs: Seq<(Seq<char>, Seq<char>)>) -> Option<Seq<char>>;

/// A character that form encoding writes as it is.
pub open spec fn form_plain_char(c: char) -> bool {
    c == '*' || c == '-' || c == '.' || c == '_' || ('0' <= c && c <= '9') || ('A' <= c && c <= 'Z')
        || ('a' <= c && c <= 'z')
}

/// Every name and value holds only characters that form encoding writes as they are.
pub open spec fn form_plain(pairs: Seq<(Seq<char>, Seq<char>)>) -> bool {
    forall|i: int|
        0 <= i < pairs.len() ==> (forall|k: int|
            0 <= k < (#[trigger] pairs[i]).0.len() ==> form_plain_char(pairs[i].0[k])) && (forall|k: int|
            0 <= k < pairs[i].1.len() ==> form_plain_char(pairs[i].1[k]))
}

/// The pairs written `name=value`, joined by `&`.
pub open spec fn joined_pairs(pairs: Seq<(Seq<char>, Seq<char>)>) -> Seq<char>
    decreases pairs.len(),
{
    if pairs.len() == 0 {
        Seq::empty()
    } else if pairs.len() == 1 {
        pairs[0].0 + seq!['='] + pairs[0].1
    } else {
        joined_pairs(pairs.drop_last()) + seq!['&'] + pairs.last().0 + seq!['='] + pairs.last().1
    }
}

/// The query string of a request; empty where the pairs cannot be encoded.
pub open spec fn query_text(pairs: Seq<(Seq<char>, Seq<char>)>) -> Seq<char> {
    match form_encoded(pairs) {
        Some(t) => t,
        None => Seq::empty(),
    }
}

/// `base/path`, followed by `?` and the encoded query where there is one.
pub open spec fn url_of(base: Seq<char>, path: Seq<char>, pairs: Seq<(Seq<char>, Seq<char>)>) -> Seq<char> {
    if pairs.len() == 0 {
        base + seq!['/'] + path
    } else {
        base + seq!['/'] + path + seq!['?'] + query_text(pairs)
    }
}

/// `base/path`, followed by `?` and the pairs written as they are, where there are any.
pub open spec fn plain_url(base: Seq<char>, path: Seq<char>, pairs: Seq<(Seq<char>, Seq<char>)>) -> Seq<char> {
    if pairs.len() == 0 {
        base + seq!['/'] + path
    } else {
        base + seq!['/'] + path + seq!['?'] + joined_pairs(pairs)
    }
}

/// The record that a response body decodes to.
pub open spec fn decoded_body<T: Decode>(body: Seq<u8>) -> Option<T::V> {
    match document_of(body) {
        Some(j) => T::decoded(j),
        None => None,
    }
}

/// Decimal digits are written as they are.
pub proof fn lemma_decimal_plain(n: nat)
    ensures
        forall|k: int| 0 <= k < decimal_text(n).len() ==> form_plain_char(#[trigger] decimal_text(n)[k]),
    decreases n,
{
    let d = n % 10;
    assert(d == 0 || d == 1 || d == 2 || d == 3 || d == 4 || d == 5 || d == 6 || d == 7 || d == 8
        || d == 9);
    assert(form_plain_char(digit_char(d)));
    if n >= 10 {
        lemma_decimal_plain(n / 10);
        let front = decimal_text(n / 10);
        assert(decimal_text(n) == front.push(digit_char(d)));
        assert forall|k: int| 0 <= k < decimal_text(n).len() implies form_plain_char(
            #[trigger] decimal_text(n)[k],
        ) by {
            if k < front.len() {
                assert(decimal_text(n)[k] == front[k]);
            }
        }
    } else {
        assert(d == n);
        assert(decimal_text(n) == seq![digit_char(d)]);
    }
}

/// Zero-padded decimal digits are written as they are.
pub proof fn lemma_padded_plain(n: nat, width: nat)
    ensures
        forall|k: int|
            0 <= k < padded_text(n, width).len() ==> form_plain_char(#[trigger] padded_text(n, width)[k]),
{
    lemma_decimal_plain(n);
    let digits = decimal_text(n);
    if digits.len() < width {
        let zeros = Seq::new((width - digits.len()) as nat, |i: int| '0');
        assert forall|k: int| 0 <= k < padded_text(n, width).len() implies form_plain_char(
            #[trigger] padded_text(n, width)[k],
        ) by {
            if k >= zeros.len() {
                assert(padded_text(n, width)[k] == digits[k - zeros.len()]);
            }
        }
    }
}

/// A date of the years 0 to 9999 is written as it is.
pub proof fn lemma_date_plain(d: Date)
    requires
        0 <= d.year <= 9999,
    ensures
        forall|k: int| 0 <= k < date_text(d).len() ==> form_plain_char(#[trigger] date_text(d)[k]),
{
    let y = padded_text(d.year as nat, 4);
    let m = padded_text(d.month as nat, 2);
    let dd = padded_text(d.day as nat, 2);
    lemma_padded_plain(d.year as nat, 4);
    lemma_padded_plain(d.month as nat, 2);
    lemma_padded_plain(d.day as nat, 2);
    let t = date_text(d);
    assert(t == y + seq!['-'] + m + seq!['-'] + dd);
    assert forall|k: int| 0 <= k < t.len() implies form_plain_char(#[trigger] t[k]) by {
        if k < y.len() {
            assert(t[k] == y[k]);
        } else if k == y.len() {
        } else if k < y.len() + 1 + m.len() {
            assert(t[k] == m[k - y.len() - 1]);
        } else if k == y.len() + 1 + m.len() {
        } else {
            assert(t[k] == dd[k - y.len() - 2 - m.len()]);
        }
    }
}

/// The name `date` is written as it is.
pub proof fn lemma_date_name_plain()
    ensures
        forall|k: int| 0 <= k < "date"@.len() ==> form_plain_char(#[trigger] "date"@[k]),
{
    reveal_strlit("date");
    assert("date"@.len() == 4);
    assert forall|k: int| 0 <= k < "date"@.len() implies form_plain_char(#[trigger] "date"@[k]) by {
        assert(k == 0 || k == 1 || k == 2 || k == 3);
    }
}

/// Relies on serde_urlencoded's `to_string` on a slice of key/value pairs: it accepts
/// string pairs, and form_urlencoded's serializer writes `name=value` joined by `&`,
/// leaving ASCII letters, digits and `*-._` as they are.
#[verifier::external_body]
fn form_urlencode(pairs: &Vec<(String, String)>) -> (r: Option<String>)
    ensures
        text_views(r) == form_encoded(pair_views(pairs@)),
        r is Some,
        form_plain(pair_views(pairs@)) ==> r->0@ == joined_pairs(pair_views(pairs@)),
{
    serde_urlencoded::to_string(pairs.as_slice()).ok()
}

fn digit_str(d: u64) -> (r: &'static str)
    requires
        d < 10,
    ensures
        r@ == seq![digit_char(d as nat)],
{
    proof {
        reveal_strlit("0");
        reveal_strlit("1");
        reveal_strlit("2");
        reveal_strlit("3");
        reveal_strlit("4");
        reveal_strlit("5");
        reveal_strlit("6");
        reveal_strlit("7");
        reveal_strlit("8");
        reveal_strlit("9");
    }
    let r = match d {
        0 => "0",
        1 => "1",
        2 => "2",
        3 => "3",
        4 => "4",
        5 => "5",
        6 => "6",
        7 => "7",
        8 => "8",
        _ => "9",
    };
    assert(r@ =~= seq![digit_char(d as nat)]);
    r
}

fn push_decimal(n: u64, out: &mut String)
    ensures
        final(out)@ == old(out)@ + decimal_text(n as nat),
    decreases n,
{
    if n >= 10 {
        push_decimal(n / 10, out);
    }
    out.append(digit_str(n % 10));
    assert(final(out)@ =~= old(out)@ + decimal_text(n as nat));
}

/// `n` written in decimal.
pub fn decimal(n: u64) -> (r: String)
    ensures
        r@ == decimal_text(n as nat),
{
    let mut r = String::new();
    push_decimal(n, &mut r);
    assert(r@ =~= decimal_text(n as nat));
    r
}

/// `n` in decimal, with zeros in front up to `width` digits.
pub fn padded(n: u64, width: usize) -> (r: String)
    ensures
        r@ == padded_text(n as nat, width as nat),
{
    let digits = decimal(n);
    let len = digits.as_str().unicode_len();
    let mut r = String::new();
    if len < width {
        let mut i: usize = 0;
        while i < width - len
            invariant
                len < width,
                i <= width - len,
                r@ =~= Seq::new(i as nat, |k: int| '0'),
            decreases width - len - i,
        {
            r.append("0");
            proof {
                reveal_strlit("0");
            }
            i = i + 1;
        }
    }
    r.append(digits.as_str());
    assert(r@ =~= padded_text(n as nat, width as nat));
    r
}

/// The date as `YYYY-MM-DD`, as chrono's `%Y-%m-%d` writes it.
pub fn format_date(d: &Date) -> (r: String)
    ensures
        r@ == date_text(*d),
{
    let mut r = String::new();
    if 0 <= d.year && d.year <= 9999 {
        r.append(padded(d.year as u64, 4).as_str());
    } else if d.year < 0 {
        r.append("-");
        r.append(padded((-(d.year as i64)) as u64, 4).as_str());
    } else {
        r.append("+");
        r.append(padded(d.year as u64, 4).as_str());
    }
    r.append("-");
    r.append(padded(d.month as u64, 2).as_str());
    r.append("-");
    r.append(padded(d.day as u64, 2).as_str());
    proof {
        reveal_strlit("-");
        reveal_strlit("+");
    }
    assert(r@ =~= date_text(*d));
    r
}

/// The address of `path` under `base`, with the query pairs encoded after `?` where
/// there are any.
pub fn get_url(base: &str, path: &str, pairs: &Vec<(String, String)>) -> (r: String)
    ensures
        r@ == url_of(base@, path@, pair_views(pairs@)),
        form_plain(pair_views(pairs@)) ==> r@ == plain_url(base@, path@, pair_views(pairs@)),
{
    let mut r = String::from_str(base);
    r.append("/");
    r.append(path);
    proof {
        reveal_strlit("/");
        reveal_strlit("?");
    }
    if pairs.len() > 0 {
        r.append("?");
        match form_urlencode(pairs) {
            Some(q) => r.append(q.as_str()),
            None => {},
        }
    }
    assert(r@ =~= url_of(base@, path@, pair_views(pairs@)));
    r
}

/// Decodes a response body into a record.
pub fn decode_body<T: Decode>(body: &[u8]) -> (r: Result<T, ClientError>)
    ensures
        r is Ok <==> decoded_body::<T>(body@) is Some,
        r is Ok ==> r->Ok_0@ == decoded_body::<T>(body@)->0,
        r is Err ==> r->Err_0 == ClientError::Decode,
{
    match parse_json(body) {
        Some(j) => match T::decode(&j) {
            Some(x) => Ok(x),
            None => Err(ClientError::Decode),
        },
        None => Err(ClientError::Decode),
    }
}

} // verus!
