//! Text rendering: decimal numbers and string joining.
use vstd::prelude::*;

verus! {

/// The ASCII digit for `d`, for `d` in `0..10`.
pub open spec fn digit_char(d: nat) -> char {
    if d == 0 { '0' }
    else if d == 1 { '1' }
    else if d == 2 { '2' }
    else if d == 3 { '3' }
    else if d == 4 { '4' }
    else if d == 5 { '5' }
    else if d == 6 { '6' }
    else if d == 7 { '7' }
    else if d == 8 { '8' }
    else { '9' }
}

/// The decimal rendering of `n`, most significant digit first, with no
/// leading zeros (zero is rendered as `0`).
pub open spec fn decimal(n: nat) -> Seq<char>
    decreases n,
{
    if n < 10 {
        seq![digit_char(n)]
    } else {
        decimal(n / 10) + seq![digit_char(n % 10)]
    }
}

fn digit_str(d: usize) -> (s: &'static str)
    requires
        d < 10,
    ensures
        s@ == seq![digit_char(d as nat)],
{
    if d == 0 {
        proof { reveal_strlit("0"); }
        "0"
    } else if d == 1 {
        proof { reveal_strlit("1"); }
        "1"
    } else if d == 2 {
        proof { reveal_strlit("2"); }
        "2"
    } else if d == 3 {
        proof { reveal_strlit("3"); }
        "3"
    } else if d == 4 {
        proof { reveal_strlit("4"); }
        "4"
    } else if d == 5 {
        proof { reveal_strlit("5"); }
        "5"
    } else if d == 6 {
        proof { reveal_strlit("6"); }
        "6"
    } else if d == 7 {
        proof { reveal_strlit("7"); }
        "7"
    } else if d == 8 {
        proof { reveal_strlit("8"); }
        "8"
    } else {
        proof { reveal_strlit("9"); }
        "9"
    }
}

/// Renders `n` in decimal, as `usize::to_string` does.
pub fn usize_to_string(n: usize) -> (s: String)
    ensures
        s@ == decimal(n as nat),
    decreases n,
{
    if n < 10 {
        String::from_str(digit_str(n))
    } else {
        let mut s = usize_to_string(n / 10);
        s.append(digit_str(n % 10));
        s
    }
}


/// Distinct digits are written with distinct characters.
pub proof fn lemma_digit_char_injective(x: nat, y: nat)
    requires
        x < 10,
        y < 10,
        digit_char(x) == digit_char(y),
    ensures
        x == y,
{
    assert(x == 0 || x == 1 || x == 2 || x == 3 || x == 4 || x == 5 || x == 6 || x == 7 || x == 8 || x == 9);
    assert(y == 0 || y == 1 || y == 2 || y == 3 || y == 4 || y == 5 || y == 6 || y == 7 || y == 8 || y == 9);
}

/// Every decimal rendering has at least one digit.
pub proof fn lemma_decimal_nonempty(n: nat)
    ensures
        decimal(n).len() >= 1,
    decreases n,
{
    if n >= 10 {
        lemma_decimal_nonempty(n / 10);
    }
}

/// Distinct numbers have distinct decimal renderings.
pub proof fn lemma_decimal_injective(a: nat, b: nat)
    requires
        decimal(a) == decimal(b),
    ensures
        a == b,
    decreases a + b,
{
    if a < 10 && b < 10 {
        assert(decimal(a)[0] == digit_char(a));
        assert(decimal(b)[0] == digit_char(b));
        lemma_digit_char_injective(a, b);
    } else if a < 10 {
        lemma_decimal_nonempty(b / 10);
        assert(decimal(b).len() >= 2);
    } else if b < 10 {
        lemma_decimal_nonempty(a / 10);
        assert(decimal(a).len() >= 2);
    } else {
        let da = decimal(a);
        let db = decimal(b);
        assert(da.last() == digit_char(a % 10));
        assert(db.last() == digit_char(b % 10));
        lemma_digit_char_injective(a % 10, b % 10);
        assert(da.drop_last() =~= decimal(a / 10));
        assert(db.drop_last() =~= decimal(b / 10));
        lemma_decimal_injective(a / 10, b / 10);
        assert(a == 10 * (a / 10) + a % 10) by (nonlinear_arith);
        assert(b == 10 * (b / 10) + b % 10) by (nonlinear_arith);
    }
}

/// Texts that differ still differ after the same prefix is put before them.
pub proof fn lemma_prefix_keeps_distinct(prefix: Seq<char>, a: Seq<char>, b: Seq<char>)
    requires
        a != b,
    ensures
        prefix + a != prefix + b,
{
    if prefix + a == prefix + b {
        assert(a =~= (prefix + a).subrange(prefix.len() as int, (prefix + a).len() as int));
        assert(b =~= (prefix + b).subrange(prefix.len() as int, (prefix + b).len() as int));
    }
}

/// Texts that differ still differ after the same suffix is put after them.
pub proof fn lemma_suffix_keeps_distinct(a: Seq<char>, b: Seq<char>, suffix: Seq<char>)
    requires
        a != b,
    ensures
        a + suffix != b + suffix,
{
    if a + suffix == b + suffix {
        assert((a + suffix).len() == (b + suffix).len());
        assert(a.len() == b.len());
        assert(a =~= (a + suffix).subrange(0, a.len() as int));
        assert(b =~= (b + suffix).subrange(0, b.len() as int));
    }
}

/// `items` joined with `sep` between consecutive items.
pub open spec fn join(items: Seq<Seq<char>>, sep: Seq<char>) -> Seq<char>
    decreases items.len(),
{
    if items.len() == 0 {
        Seq::empty()
    } else if items.len() == 1 {
        items[0]
    } else {
        join(items.drop_last(), sep) + sep + items.last()
    }
}

/// The text that `serde_json` writes for a JSON string holding `s`:
/// the characters of `s` between double quotes, with the characters that
/// JSON requires escaped.
pub uninterp spec fn json_string_literal(s: Seq<char>) -> Seq<char>;

/// Writes `s` as a JSON string with `serde_json::to_string`. The contract
/// names the result and says nothing more of the escaping that
/// `serde_json` applies. Serialising a `str` has no failing case.
#[verifier::external_body]
fn json_quote(s: &str) -> (r: String)
    ensures
        r@ == json_string_literal(s@),
{
    serde_json::to_string(s).unwrap()
}

/// The JSON array elements for a list of strings: each item as a JSON
/// string, separated by commas (the text between the brackets).
pub open spec fn json_string_elements(items: Seq<Seq<char>>) -> Seq<char> {
    join(items.map_values(|s: Seq<char>| json_string_literal(s)), ","@)
}

/// Writes the JSON string elements of `items`, comma separated, as
/// `serde_json` writes the inside of an array of strings.
pub fn json_string_list(items: &Vec<String>) -> (r: String)
    ensures
        r@ == json_string_elements(items.deep_view()),
{
    let ghost quoted = items.deep_view().map_values(|s: Seq<char>| json_string_literal(s));
    let mut r = String::new();
    let n = items.len();
    for i in 0..n
        invariant
            n == items.len(),
            quoted == items.deep_view().map_values(|s: Seq<char>| json_string_literal(s)),
            r@ == join(quoted.take(i as int), ","@),
    {
        let q = json_quote(items[i].as_str());
        assert(quoted[i as int] == q@);
        if i > 0 {
            r.append(",");
            r.append(q.as_str());
            assert(quoted.take(i + 1).drop_last() =~= quoted.take(i as int));
        } else {
            r.append(q.as_str());
            assert(r@ =~= q@);
        }
        assert(quoted.take(i + 1).last() == q@);
    }
    assert(quoted.take(n as int) =~= quoted);
    r
}

}
