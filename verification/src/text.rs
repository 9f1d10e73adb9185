//! Text building blocks: decimal numerals, joins and character filters.
use vstd::prelude::*;
use vstd::string::*;

verus! {

/// The ASCII digit for `d` in `0..10`.
pub open spec fn digit_char(d: int) -> char {
    if d == 0 {
        '0'
    } else if d == 1 {
        '1'
    } else if d == 2 {
        '2'
    } else if d == 3 {
        '3'
    } else if d == 4 {
        '4'
    } else if d == 5 {
        '5'
    } else if d == 6 {
        '6'
    } else if d == 7 {
        '7'
    } else if d == 8 {
        '8'
    } else {
        '9'
    }
}

/// The decimal numeral of `n`, as `{}` formats an unsigned integer.
pub open spec fn decimal(n: nat) -> Seq<char>
    decreases n,
{
    if n < 10 {
        seq![digit_char(n as int)]
    } else {
        decimal(n / 10).push(digit_char((n % 10) as int))
    }
}

/// The decimal numeral of `i`, with a leading minus sign when negative.
pub open spec fn signed_decimal(i: int) -> Seq<char> {
    if i < 0 {
        seq!['-'] + decimal((-i) as nat)
    } else {
        decimal(i as nat)
    }
}

/// Whether `c` is one of the ASCII digits.
pub open spec fn is_digit(c: char) -> bool {
    '0' <= c <= '9'
}

/// A decimal numeral is a nonempty run of digits, of one digit exactly for
/// the numbers below ten.
pub proof fn lemma_decimal_digits(n: nat)
    ensures
        decimal(n).len() >= 1,
        decimal(n).len() == 1 <==> n < 10,
        forall|i: int| 0 <= i < decimal(n).len() ==> is_digit(#[trigger] decimal(n)[i]),
    decreases n,
{
    if n >= 10 {
        lemma_decimal_digits(n / 10);
        let p = decimal(n / 10);
        assert forall|i: int| 0 <= i < decimal(n).len() implies is_digit(#[trigger] decimal(n)[i]) by {
            if i < p.len() {
                assert(decimal(n)[i] == p[i]);
            }
        }
    }
}

proof fn lemma_digit_char_injective(x: int, y: int)
    requires
        0 <= x < 10,
        0 <= y < 10,
        digit_char(x) == digit_char(y),
    ensures
        x == y,
{
}

/// Different numbers have different decimal numerals.
pub proof fn lemma_decimal_injective(a: nat, b: nat)
    requires
        decimal(a) == decimal(b),
    ensures
        a == b,
    decreases a,
{
    lemma_decimal_digits(a);
    lemma_decimal_digits(b);
    if a >= 10 && b >= 10 {
        let da = decimal(a);
        assert(da.drop_last() == decimal(a / 10));
        assert(decimal(b).drop_last() == decimal(b / 10));
        assert(digit_char((a % 10) as int) == digit_char((b % 10) as int)) by {
            assert(da.last() == digit_char((a % 10) as int));
            assert(decimal(b).last() == digit_char((b % 10) as int));
        }
        lemma_digit_char_injective((a % 10) as int, (b % 10) as int);
        lemma_decimal_injective(a / 10, b / 10);
        assert(a == 10 * (a / 10) + a % 10);
        assert(b == 10 * (b / 10) + b % 10);
    } else if a < 10 && b < 10 {
        assert(decimal(a) == seq![digit_char(a as int)]);
        assert(decimal(b) == seq![digit_char(b as int)]);
        assert(decimal(a)[0] == digit_char(a as int));
        assert(decimal(b)[0] == digit_char(b as int));
        lemma_digit_char_injective(a as int, b as int);
    }
}

/// Different integers have different signed decimal numerals.
pub proof fn lemma_signed_decimal_injective(a: int, b: int)
    requires
        signed_decimal(a) == signed_decimal(b),
    ensures
        a == b,
{
    if a < 0 && b < 0 {
        assert(signed_decimal(a).drop_first() =~= decimal((-a) as nat));
        assert(signed_decimal(b).drop_first() =~= decimal((-b) as nat));
        lemma_decimal_injective((-a) as nat, (-b) as nat);
    } else if a >= 0 && b >= 0 {
        lemma_decimal_injective(a as nat, b as nat);
    } else if a < 0 {
        lemma_decimal_digits(b as nat);
        assert(signed_decimal(a)[0] == '-');
        assert(is_digit(decimal(b as nat)[0]));
    } else {
        lemma_decimal_digits(a as nat);
        assert(signed_decimal(b)[0] == '-');
        assert(is_digit(decimal(a as nat)[0]));
    }
}

/// A text made of a part, a dash and a dash-free part determines both parts.
pub proof fn lemma_split_last_dash(a1: Seq<char>, b1: Seq<char>, a2: Seq<char>, b2: Seq<char>)
    requires
        a1 + seq!['-'] + b1 == a2 + seq!['-'] + b2,
        !b1.contains('-'),
        !b2.contains('-'),
    ensures
        a1 == a2,
        b1 == b2,
{
    let s = a1 + seq!['-'] + b1;
    let s2 = a2 + seq!['-'] + b2;
    assert(s.len() == a1.len() + 1 + b1.len());
    assert(s2.len() == a2.len() + 1 + b2.len());
    if b1.len() < b2.len() {
        let i = a1.len() as int;
        assert(s[i] == '-');
        assert(s2[i] == b2[i - a2.len() - 1]);
        assert(b2.contains(s2[i]));
    } else if b2.len() < b1.len() {
        let i = a2.len() as int;
        assert(s2[i] == '-');
        assert(s[i] == b1[i - a1.len() - 1]);
        assert(b1.contains(s[i]));
    } else {
        assert(a1 =~= s.subrange(0, a1.len() as int));
        assert(a2 =~= s2.subrange(0, a2.len() as int));
        assert(b1 =~= s.subrange(s.len() - b1.len(), s.len() as int));
        assert(b2 =~= s2.subrange(s2.len() - b2.len(), s2.len() as int));
    }
}

/// A decimal numeral holds no dash.
pub proof fn lemma_decimal_dash_free(n: nat)
    ensures
        !decimal(n).contains('-'),
{
    lemma_decimal_digits(n);
    if decimal(n).contains('-') {
        let k = choose|k: int| 0 <= k < decimal(n).len() && decimal(n)[k] == '-';
        assert(is_digit(decimal(n)[k]));
    }
}

/// `<prefix><a>-<b>-<c><suffix>` names the numbers `a`, `b` and `c`: different
/// numbers give different names.
pub proof fn lemma_numbered_name_injective(pre: Seq<char>, suf: Seq<char>, a1: int, b1: nat, c1: nat, a2: int, b2: nat, c2: nat)
    requires
        pre + signed_decimal(a1) + "-"@ + decimal(b1) + "-"@ + decimal(c1) + suf == pre + signed_decimal(a2)
            + "-"@ + decimal(b2) + "-"@ + decimal(c2) + suf,
    ensures
        a1 == a2,
        b1 == b2,
        c1 == c2,
{
    reveal_strlit("-");
    assert("-"@ =~= seq!['-']);
    let x1 = signed_decimal(a1) + seq!['-'] + decimal(b1) + seq!['-'] + decimal(c1);
    let x2 = signed_decimal(a2) + seq!['-'] + decimal(b2) + seq!['-'] + decimal(c2);
    let p1 = pre + signed_decimal(a1) + "-"@ + decimal(b1) + "-"@ + decimal(c1) + suf;
    let p2 = pre + signed_decimal(a2) + "-"@ + decimal(b2) + "-"@ + decimal(c2) + suf;
    assert(p1 =~= pre + x1 + suf);
    assert(p2 =~= pre + x2 + suf);
    assert(x1 =~= p1.subrange(pre.len() as int, p1.len() - suf.len()));
    assert(x2 =~= p2.subrange(pre.len() as int, p2.len() - suf.len()));
    lemma_decimal_dash_free(b1);
    lemma_decimal_dash_free(c1);
    lemma_decimal_dash_free(b2);
    lemma_decimal_dash_free(c2);
    lemma_split_last_dash(signed_decimal(a1) + seq!['-'] + decimal(b1), decimal(c1), signed_decimal(a2) + seq!['-'] + decimal(b2), decimal(c2));
    lemma_split_last_dash(signed_decimal(a1), decimal(b1), signed_decimal(a2), decimal(b2));
    lemma_decimal_injective(c1, c2);
    lemma_decimal_injective(b1, b2);
    lemma_signed_decimal_injective(a1, a2);
}

/// `s1 + sep + s2 + sep + ...`: the items joined by the separator.
pub open spec fn join(items: Seq<Seq<char>>, sep: Seq<char>) -> Seq<char>
    decreases items.len(),
{
    if items.len() == 0 {
        seq![]
    } else if items.len() == 1 {
        items[0]
    } else {
        join(items.drop_last(), sep) + sep + items.last()
    }
}

/// The text with every occurrence of `c` removed.
pub open spec fn without_char(s: Seq<char>, c: char) -> Seq<char>
    decreases s.len(),
{
    if s.len() == 0 {
        seq![]
    } else if s.last() == c {
        without_char(s.drop_last(), c)
    } else {
        without_char(s.drop_last(), c).push(s.last())
    }
}

/// The text without `c` holds no `c`.
pub proof fn lemma_without_char(s: Seq<char>, c: char)
    ensures
        !without_char(s, c).contains(c),
    decreases s.len(),
{
    if s.len() > 0 {
        lemma_without_char(s.drop_last(), c);
        let w = without_char(s.drop_last(), c);
        if s.last() != c {
            assert forall|k: int| 0 <= k < w.push(s.last()).len() implies w.push(s.last())[k] != c by {
                if k < w.len() {
                    assert(w.push(s.last())[k] == w[k]);
                }
            }
        }
    }
}

/// `"true"` or `"false"`, as `bool::to_string` renders it.
pub open spec fn bool_text(b: bool) -> Seq<char> {
    if b {
        seq!['t', 'r', 'u', 'e']
    } else {
        seq!['f', 'a', 'l', 's', 'e']
    }
}

/// `String::push`: appends one character.
#[verifier::external_body]
pub(crate) fn push_char(s: &mut String, c: char)
    ensures
        final(s)@ == old(s)@.push(c),
{
    s.push(c)
}

/// A fresh `String` holding the characters of `s`.
pub fn to_text(s: &str) -> (r: String)
    ensures
        r@ == s@,
{
    String::from_str(s)
}

fn digit(d: u64) -> (c: char)
    requires
        d < 10,
    ensures
        c == digit_char(d as int),
{
    if d == 0 {
        '0'
    } else if d == 1 {
        '1'
    } else if d == 2 {
        '2'
    } else if d == 3 {
        '3'
    } else if d == 4 {
        '4'
    } else if d == 5 {
        '5'
    } else if d == 6 {
        '6'
    } else if d == 7 {
        '7'
    } else if d == 8 {
        '8'
    } else {
        '9'
    }
}

/// Appends the decimal numeral of `n`.
pub fn push_decimal(s: &mut String, n: u64)
    ensures
        final(s)@ == old(s)@ + decimal(n as nat),
    decreases n,
{
    if n >= 10 {
        push_decimal(s, n / 10);
    }
    push_char(s, digit(n % 10));
    assert(final(s)@ =~= old(s)@ + decimal(n as nat));
}

/// Appends the decimal numeral of `i`, with a minus sign when negative.
pub fn push_signed_decimal(s: &mut String, i: i32)
    ensures
        final(s)@ == old(s)@ + signed_decimal(i as int),
{
    if i < 0 {
        push_char(s, '-');
        let magnitude: u64 = (-(i as i64)) as u64;
        push_decimal(s, magnitude);
        assert(final(s)@ =~= old(s)@ + signed_decimal(i as int));
    } else {
        push_decimal(s, i as u64);
    }
}

/// `"true"` or `"false"`.
pub fn bool_to_text(b: bool) -> (r: String)
    ensures
        r@ == bool_text(b),
{
    let mut s = String::new();
    if b {
        push_char(&mut s, 't');
        push_char(&mut s, 'r');
        push_char(&mut s, 'u');
        push_char(&mut s, 'e');
    } else {
        push_char(&mut s, 'f');
        push_char(&mut s, 'a');
        push_char(&mut s, 'l');
        push_char(&mut s, 's');
        push_char(&mut s, 'e');
    }
    assert(s@ =~= bool_text(b));
    s
}

/// Joins the items with the separator, as `Vec<String>::join` does.
pub fn join_texts(items: &Vec<String>, sep: &str) -> (r: String)
    ensures
        r@ == join(items@.map_values(|t: String| t@), sep@),
{
    let ghost views = items@.map_values(|t: String| t@);
    let mut r = String::new();
    let mut i: usize = 0;
    while i < items.len()
        invariant
            i <= items.len(),
            views == items@.map_values(|t: String| t@),
            r@ == join(views.take(i as int), sep@),
        decreases items.len() - i,
    {
        assert(views.take(i + 1).drop_last() =~= views.take(i as int));
        if i > 0 {
            r.append(sep);
        }
        r.append(items[i].as_str());
        proof {
            if i == 0 {
                assert(r@ =~= views.take(1)[0]);
            } else {
                assert(r@ =~= join(views.take(i as int), sep@) + sep@ + views.take(i + 1).last());
            }
        }
        i += 1;
    }
    assert(views.take(items.len() as int) =~= views);
    r
}

/// The text with every occurrence of `c` removed, as `str::replace(s, c, "")` does.
pub fn remove_char(s: &str, c: char) -> (r: String)
    ensures
        r@ == without_char(s@, c),
{
    let n = s.unicode_len();
    let mut r = String::new();
    let mut i: usize = 0;
    while i < n
        invariant
            i <= n,
            n == s@.len(),
            r@ == without_char(s@.take(i as int), c),
        decreases n - i,
    {
        let ch = s.get_char(i);
        assert(s@.take(i + 1).drop_last() =~= s@.take(i as int));
        if ch != c {
            push_char(&mut r, ch);
        }
        i += 1;
    }
    assert(s@.take(n as int) =~= s@);
    r
}

} // verus!
