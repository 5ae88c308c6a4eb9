//! Text building blocks: ASCII case folding, decimal and hexadecimal numerals,
//! and concatenation, each with its meaning as a sequence of characters.

use crate::search::{first_where, is_first, lemma_first_is, lemma_first_where};
use vstd::prelude::*;
use vstd::string::StringExecFns;

verus! {

/// `String::push` of std: appends one character to the end of the string.
pub assume_specification[ String::push ](s: &mut String, c: char)
    ensures
        final(s)@ == old(s)@.push(c),
;

/// The ASCII upper-case form of a character; every other character is itself.
pub open spec fn upper_char(c: char) -> char {
    if 'a' <= c <= 'z' {
        ((c as u32) - 32) as char
    } else {
        c
    }
}

/// The text with each ASCII lower-case letter replaced by its upper-case form.
pub open spec fn upper(s: Seq<char>) -> Seq<char> {
    Seq::new(s.len(), |i: int| upper_char(s[i]))
}

/// Two texts are the same up to the case of ASCII letters.
pub open spec fn same_ignoring_case(a: Seq<char>, b: Seq<char>) -> bool {
    upper(a) == upper(b)
}

/// Upper-casing twice is upper-casing once.
pub proof fn lemma_upper_twice(s: Seq<char>)
    ensures
        upper(upper(s)) == upper(s),
{
    assert(upper(upper(s)) =~= upper(s));
}

/// The texts of a sequence of strings.
pub open spec fn views(s: Seq<String>) -> Seq<Seq<char>> {
    s.map_values(|t: String| t@)
}

/// The text of an optional string.
pub open spec fn view_opt(t: Option<String>) -> Option<Seq<char>> {
    match t {
        Some(s) => Some(s@),
        None => None,
    }
}

/// `part` stands in `s` from position `i` on.
pub open spec fn occurs_at(s: Seq<char>, part: Seq<char>, i: int) -> bool {
    0 <= i && i + part.len() <= s.len() && s.subrange(i, i + part.len()) == part
}

/// The first position at which `part` stands in `s`.
pub open spec fn find_text(s: Seq<char>, part: Seq<char>) -> Option<int> {
    first_where(Seq::new((s.len() + 1) as nat, |i: int| i), |i: int| occurs_at(s, part, i))
}

/// The decimal digit for a value below ten.
pub open spec fn digit_char(d: nat) -> char {
    (48 + d) as char
}

/// The decimal numeral of `n`, without leading zeros.
pub open spec fn dec(n: nat) -> Seq<char>
    decreases n,
{
    if n < 10 {
        seq![digit_char(n)]
    } else {
        dec(n / 10).push(digit_char(n % 10))
    }
}

/// The hexadecimal digit for a value below sixteen, in upper or lower case.
pub open spec fn hex_char(d: nat, up: bool) -> char {
    if d < 10 {
        (48 + d) as char
    } else if up {
        (55 + d) as char
    } else {
        (87 + d) as char
    }
}

/// The hexadecimal numeral of `n`, without leading zeros.
pub open spec fn hex(n: nat, up: bool) -> Seq<char>
    decreases n,
{
    if n < 16 {
        seq![hex_char(n, up)]
    } else {
        hex(n / 16, up).push(hex_char(n % 16, up))
    }
}

/// The text with zeros in front of it up to `width` characters.
pub open spec fn zero_padded(s: Seq<char>, width: nat) -> Seq<char>
    decreases width - s.len(),
{
    if s.len() >= width {
        s
    } else {
        zero_padded(seq!['0'] + s, width)
    }
}

/// The hexadecimal numeral of `n`, padded with zeros to two digits.
pub open spec fn hex2(n: nat, up: bool) -> Seq<char> {
    zero_padded(hex(n, up), 2)
}

/// The value of a digit of a numeral.
pub open spec fn digit_value(c: char) -> int {
    if '0' <= c <= '9' {
        c as int - 48
    } else if 'A' <= c <= 'F' {
        c as int - 55
    } else {
        c as int - 87
    }
}

/// The number that a numeral stands for.
pub open spec fn numeral_value(s: Seq<char>, base: int) -> int
    decreases s.len(),
{
    if s.len() == 0 {
        0
    } else {
        numeral_value(s.drop_last(), base) * base + digit_value(s.last())
    }
}

/// A decimal numeral stands for its number.
pub proof fn lemma_dec_value(n: nat)
    ensures
        numeral_value(dec(n), 10) == n,
        dec(n).len() > 0,
        n < 10 ==> dec(n).len() == 1,
    decreases n,
{
    reveal_with_fuel(numeral_value, 2);
    if n < 10 {
        assert(dec(n).drop_last() =~= seq![]);
    } else {
        lemma_dec_value(n / 10);
        assert(dec(n).drop_last() =~= dec(n / 10));
    }
}

/// A hexadecimal numeral stands for its number, padded or not.
pub proof fn lemma_hex_value(n: nat, up: bool)
    ensures
        numeral_value(hex(n, up), 16) == n,
        hex(n, up).len() > 0,
        n >= 16 ==> hex(n, up).len() > 1,
        numeral_value(hex2(n, up), 16) == n,
    decreases n,
{
    reveal_with_fuel(numeral_value, 3);
    let s = hex(n, up);
    if n < 16 {
        assert(s.drop_last() =~= seq![]);
        reveal_with_fuel(zero_padded, 2);
        let t = seq!['0'] + s;
        assert(hex2(n, up) == t);
        assert(t.drop_last() =~= seq!['0']);
        assert(t.drop_last().drop_last() =~= seq![]);
    } else {
        lemma_hex_value(n / 16, up);
        assert(s.drop_last() =~= hex(n / 16, up));
    }
}

/// Upper-case form of one character.
pub fn to_upper_char(c: char) -> (r: char)
    ensures
        r == upper_char(c),
{
    if 'a' <= c && c <= 'z' {
        let b: u8 = c as u8;
        (b - 32) as char
    } else {
        c
    }
}

/// The text in ASCII upper case.
pub fn to_upper(s: &str) -> (r: String)
    ensures
        r@ == upper(s@),
{
    let mut out = String::new();
    for c in it: s.chars()
        invariant
            out@ == upper(s@.take(it.index() as int)),
            it.seq() == s@,
    {
        out.push(to_upper_char(c));
        assert(out@ =~= upper(s@.take(it.index() + 1)));
    }
    assert(s@.take(s@.len() as int) =~= s@);
    out
}

/// Appends the decimal numeral of `n`.
pub fn push_dec(out: &mut String, n: u32)
    ensures
        final(out)@ == old(out)@ + dec(n as nat),
    decreases n,
{
    if n >= 10 {
        push_dec(out, n / 10);
    }
    let d: u8 = (n % 10) as u8;
    out.push((48 + d) as char);
    assert(out@ =~= old(out)@ + dec(n as nat));
}

/// Appends the hexadecimal numeral of `n`.
pub fn push_hex(out: &mut String, n: u32, up: bool)
    ensures
        final(out)@ == old(out)@ + hex(n as nat, up),
    decreases n,
{
    if n >= 16 {
        push_hex(out, n / 16, up);
    }
    let d: u8 = (n % 16) as u8;
    let b: u8 = if d < 10 {
        48 + d
    } else if up {
        55 + d
    } else {
        87 + d
    };
    out.push(b as char);
    assert(out@ =~= old(out)@ + hex(n as nat, up));
}

/// The hexadecimal numeral of `n`, padded with zeros to `width` digits.
pub fn to_hex_padded(n: u32, width: usize, up: bool) -> (r: String)
    ensures
        r@ == zero_padded(hex(n as nat, up), width as nat),
{
    let mut digits = String::new();
    push_hex(&mut digits, n, up);
    assert(digits@ =~= hex(n as nat, up));
    while digits.as_str().unicode_len() < width
        invariant
            zero_padded(digits@, width as nat) == zero_padded(hex(n as nat, up), width as nat),
        decreases width - digits@.len(),
    {
        let ghost before = digits@;
        let mut longer = "0".to_owned();
        longer.append(digits.as_str());
        digits = longer;
        proof {
            reveal_strlit("0");
            assert(digits@ =~= seq!['0'] + before);
        }
    }
    digits
}

/// The decimal numeral of `v`, with a sign in front of a negative one.
pub open spec fn dec_signed(v: int) -> Seq<char> {
    if v < 0 {
        "-"@ + dec((-v) as nat)
    } else {
        dec(v as nat)
    }
}

/// The decimal numeral of `v`, with a sign in front of a negative one.
pub fn to_dec_signed(v: i32) -> (r: String)
    ensures
        r@ == dec_signed(v as int),
{
    if v < 0 {
        let mut out = "-".to_owned();
        push_dec(&mut out, (-(v as i64)) as u32);
        out
    } else {
        to_dec(v as u32)
    }
}

/// The decimal numeral of `n`.
pub fn to_dec(n: u32) -> (r: String)
    ensures
        r@ == dec(n as nat),
{
    let mut out = String::new();
    push_dec(&mut out, n);
    assert(out@ =~= dec(n as nat));
    out
}

/// The hexadecimal numeral of `n`, padded with zeros to two digits.
pub fn to_hex2(n: u32, up: bool) -> (r: String)
    ensures
        r@ == hex2(n as nat, up),
{
    to_hex_padded(n, 2, up)
}

/// The characters of the text.
pub fn chars_of(s: &str) -> (r: Vec<char>)
    ensures
        r@ == s@,
{
    let mut out: Vec<char> = Vec::new();
    for c in it: s.chars()
        invariant
            out@ == s@.take(it.index() as int),
            it.seq() == s@,
    {
        out.push(c);
        assert(out@ =~= s@.take(it.index() + 1));
    }
    assert(s@.take(s@.len() as int) =~= s@);
    out
}

/// The text made of the characters from `from` up to `to`.
pub fn text_of(v: &Vec<char>, from: usize, to: usize) -> (r: String)
    requires
        from <= to <= v@.len(),
    ensures
        r@ == v@.subrange(from as int, to as int),
{
    let mut out = String::new();
    let mut i: usize = from;
    while i < to
        invariant
            from <= i <= to <= v@.len(),
            out@ == v@.subrange(from as int, i as int),
        decreases to - i,
    {
        out.push(v[i]);
        i = i + 1;
        assert(out@ =~= v@.subrange(from as int, i as int));
    }
    out
}

fn occurs(s: &Vec<char>, part: &Vec<char>, i: usize) -> (r: bool)
    requires
        i + part@.len() <= s@.len(),
    ensures
        r == occurs_at(s@, part@, i as int),
{
    let end: usize = s.len();
    let mut k: usize = 0;
    while k < part.len()
        invariant
            i + part@.len() <= s@.len(),
            s@.len() == end,
            k <= part@.len(),
            forall|j: int| 0 <= j < k ==> s@[i + j] == #[trigger] part@[j],
        decreases part@.len() - k,
    {
        if s[i + k] != part[k] {
            assert(s@.subrange(i as int, i + part@.len())[k as int] != part@[k as int]);
            return false;
        }
        k = k + 1;
    }
    assert(s@.subrange(i as int, i + part@.len()) =~= part@);
    true
}

/// The first position at which `part` stands in `s`.
pub fn find_chars(s: &Vec<char>, part: &Vec<char>) -> (r: Option<usize>)
    ensures
        match find_text(s@, part@) {
            Some(i) => r is Some && r->0 == i && occurs_at(s@, part@, i),
            None => r is None,
        },
{
    let ghost places = Seq::new((s@.len() + 1) as nat, |i: int| i);
    let ghost p = |i: int| occurs_at(s@, part@, i);
    proof {
        lemma_first_where(places, p);
    }
    if part.len() > s.len() {
        return None;
    }
    let mut i: usize = 0;
    while i <= s.len() - part.len()
        invariant
            i <= s@.len() - part@.len() + 1,
            part@.len() <= s@.len(),
            places == Seq::new((s@.len() + 1) as nat, |i: int| i),
            p == (|i: int| occurs_at(s@, part@, i)),
            forall|j: int| 0 <= j < i ==> !p(#[trigger] places[j]),
        decreases s@.len() + 1 - i,
    {
        if occurs(s, part, i) {
            proof {
                assert(p(places[i as int]));
                assert(is_first(places, p, i as int));
                lemma_first_is(places, p, i as int);
            }
            return Some(i);
        }
        if i == s.len() {
            assert(forall|j: int| 0 <= j < places.len() ==> !p(#[trigger] places[j]));
            return None;
        }
        i = i + 1;
    }
    assert(forall|j: int| 0 <= j < places.len() ==> !p(#[trigger] places[j]));
    None
}

/// Whether two texts are the same.
pub fn same_text(a: &str, b: &str) -> (r: bool)
    ensures
        r == (a@ == b@),
{
    a.to_owned() == b.to_owned()
}

/// Whether two optional texts are the same.
pub fn same_opt_text(a: &Option<String>, b: &Option<String>) -> (r: bool)
    ensures
        r == (view_opt(*a) == view_opt(*b)),
{
    match (a, b) {
        (Some(x), Some(y)) => same_text(x.as_str(), y.as_str()),
        (None, None) => true,
        _ => false,
    }
}

/// A copy of an optional text.
pub fn clone_text(t: &Option<String>) -> (r: Option<String>)
    ensures
        r == *t,
{
    match t {
        Some(s) => Some(s.clone()),
        None => None,
    }
}

/// Whether two texts are the same up to the case of ASCII letters.
pub fn eq_ignore_case(a: &str, b: &str) -> (r: bool)
    ensures
        r == same_ignoring_case(a@, b@),
{
    let x = to_upper(a);
    let y = to_upper(b);
    x == y
}

/// Folding the case changes the small letters a to z and nothing else, each to
/// its capital; two texts are the same but for case just when they agree letter
/// by letter up to that.
pub proof fn law_case_folding(c: char, a: Seq<char>, b: Seq<char>)
    ensures
        'a' <= c <= 'z' ==> 'A' <= upper_char(c) <= 'Z' && upper_char(c) as int - 'A' as int
            == c as int - 'a' as int,
        !('a' <= c <= 'z') ==> upper_char(c) == c,
        upper(a).len() == a.len(),
        same_ignoring_case(a, b) <==> a.len() == b.len() && forall|i: int|
            0 <= i < a.len() ==> upper_char(#[trigger] a[i]) == upper_char(b[i]),
{
    if same_ignoring_case(a, b) {
        assert(upper(a).len() == a.len() && upper(b).len() == b.len());
        assert forall|i: int| 0 <= i < a.len() implies upper_char(#[trigger] a[i]) == upper_char(
            b[i],
        ) by {
            assert(upper(a)[i] == upper_char(a[i]));
            assert(upper(b)[i] == upper_char(b[i]));
        }
    }
    if a.len() == b.len() && forall|i: int|
        0 <= i < a.len() ==> upper_char(#[trigger] a[i]) == upper_char(b[i]) {
        assert(upper(a) =~= upper(b));
    }
}

/// A decimal numeral has no zero in front, but for the numeral of zero, and no
/// character other than the ten digits; different numbers have different
/// numerals.
pub proof fn law_decimal_numerals(n: nat, m: nat)
    ensures
        n > 0 ==> dec(n)[0] != '0',
        forall|i: int| 0 <= i < dec(n).len() ==> '0' <= #[trigger] dec(n)[i] <= '9',
        dec(n) == dec(m) ==> n == m,
        dec(10 * n + m % 10) == (if n > 0 {
            dec(n).push(dec(m % 10)[0])
        } else {
            dec(m % 10)
        }),
    decreases n,
{
    lemma_dec_value(n);
    lemma_dec_value(m);
    let k = (10 * n + m % 10) as nat;
    if n > 0 {
        assert(k / 10 == n && k % 10 == m % 10);
    }
    if n >= 10 {
        law_decimal_numerals(n / 10, m);
        assert forall|i: int| 0 <= i < dec(n).len() implies '0' <= #[trigger] dec(n)[i]
            <= '9' by {
            if i < dec(n / 10).len() {
                assert(dec(n)[i] == dec(n / 10)[i]);
            }
        }
    }
}

/// A signed numeral of a number that is not negative is its plain numeral; that
/// of a negative one is a minus sign and the numeral of its opposite.
pub proof fn law_signed_numerals(n: nat)
    ensures
        numeral_value(dec_signed(n as int), 10) == n,
        n > 0 ==> dec_signed(-n)[0] == '-' && numeral_value(dec_signed(-n).skip(1), 10) == n,
{
    reveal_strlit("-");
    lemma_dec_value(n);
    if n > 0 {
        assert(dec_signed(-n).skip(1) =~= dec(n));
    }
}

/// The letters of a hexadecimal numeral have the case that was asked for, and
/// padding puts zeros in front up to the width and changes nothing else.
pub proof fn law_hexadecimal_numerals(n: nat, up: bool, width: nat)
    ensures
        forall|i: int|
            0 <= i < hex(n, up).len() ==> ('0' <= #[trigger] hex(n, up)[i] <= '9' || (if up {
                'A' <= hex(n, up)[i] <= 'F'
            } else {
                'a' <= hex(n, up)[i] <= 'f'
            })),
        n > 0 ==> hex(n, up)[0] != '0',
        hex(n, up).len() >= width ==> zero_padded(hex(n, up), width) == hex(n, up),
        hex(n, up).len() < width ==> zero_padded(hex(n, up), width).len() == width,
        numeral_value(zero_padded(hex(n, up), width), 16) == n,
    decreases n,
{
    lemma_hex_value(n, up);
    lemma_padding(hex(n, up), width);
    if n >= 16 {
        law_hexadecimal_numerals(n / 16, up, width);
        assert forall|i: int| 0 <= i < hex(n, up).len() implies ('0' <= #[trigger] hex(n, up)[i]
            <= '9' || (if up {
            'A' <= hex(n, up)[i] <= 'F'
        } else {
            'a' <= hex(n, up)[i] <= 'f'
        })) by {
            if i < hex(n / 16, up).len() {
                assert(hex(n, up)[i] == hex(n / 16, up)[i]);
            }
        }
    }
}

proof fn lemma_padding(s: Seq<char>, width: nat)
    ensures
        s.len() < width ==> zero_padded(s, width).len() == width,
        numeral_value(zero_padded(s, width), 16) == numeral_value(s, 16),
    decreases width - s.len(),
{
    if s.len() < width {
        lemma_padding(seq!['0'] + s, width);
        lemma_zero_in_front(s);
    }
}

proof fn lemma_zero_in_front(s: Seq<char>)
    ensures
        numeral_value(seq!['0'] + s, 16) == numeral_value(s, 16),
    decreases s.len(),
{
    reveal_with_fuel(numeral_value, 2);
    let t = seq!['0'] + s;
    if s.len() == 0 {
        assert(t.drop_last() =~= seq![]);
    } else {
        assert(t.drop_last() =~= seq!['0'] + s.drop_last());
        lemma_zero_in_front(s.drop_last());
    }
}

/// A search finds a place where the part stands and none before it; where it
/// finds nothing, the part stands nowhere.
pub proof fn law_search_finds_the_first_place(a: Seq<char>, part: Seq<char>, b: Seq<char>)
    ensures
        ({
            let s = a + part + b;
            &&& find_text(s, part) is Some
            &&& 0 <= find_text(s, part)->0 <= a.len()
            &&& occurs_at(s, part, find_text(s, part)->0)
        }),
        find_text(a, part) is None ==> forall|i: int|
            0 <= i <= a.len() - part.len() ==> #[trigger] a.subrange(i, i + part.len()) != part,
{
    let s = a + part + b;
    let places = Seq::new((s.len() + 1) as nat, |i: int| i);
    let p = |i: int| occurs_at(s, part, i);
    lemma_first_where(places, p);
    assert(s.subrange(a.len() as int, a.len() as int + part.len()) =~= part);
    assert(p(places[a.len() as int]));
    let places_a = Seq::new((a.len() + 1) as nat, |i: int| i);
    let pa = |i: int| occurs_at(a, part, i);
    lemma_first_where(places_a, pa);
    if find_text(a, part) is None {
        assert forall|i: int| 0 <= i <= a.len() - part.len() implies #[trigger] a.subrange(
            i,
            i + part.len(),
        ) != part by {
            assert(!pa(places_a[i]));
        }
    }
}

} // verus!
