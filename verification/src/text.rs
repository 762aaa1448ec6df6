//! Text building blocks: decimal numbers, joining, trimming and prefixes.
use vstd::prelude::*;

verus! {

/// The character of a decimal digit.
pub open spec fn digit_char(d: nat) -> char {
    if d == 0 { '0' }
    else if d == 1 { '1' }
    else if d == 2 { '2' }
    else if d == 3 { '3' }
    else if d == 4 { '4' }
    else if d == 5 { '5' }
    else if d == 6 { '6' }
    else if d == 7 { '7' }
    else if d == 8 { '8' }
    else { '9' }
}

/// The decimal representation of a natural number, without leading zeros.
pub open spec fn decimal(n: nat) -> Seq<char>
    decreases n,
{
    if n < 10 {
        seq![digit_char(n)]
    } else {
        decimal(n / 10).push(digit_char(n % 10))
    }
}

fn digit_str(d: u64) -> (r: &'static str)
    requires
        d < 10,
    ensures
        r@ == seq![digit_char(d as nat)],
{
    proof {
        reveal_strlit("0");
        reveal_strlit("1");
        reveal_strlit("2");
        reveal_strlit("3");
        reveal_strlit("4");
        reveal_strlit("5");
        reveal_strlit("6");
        reveal_strlit("7");
        reveal_strlit("8");
        reveal_strlit("9");
    }
    if d == 0 { "0" }
    else if d == 1 { "1" }
    else if d == 2 { "2" }
    else if d == 3 { "3" }
    else if d == 4 { "4" }
    else if d == 5 { "5" }
    else if d == 6 { "6" }
    else if d == 7 { "7" }
    else if d == 8 { "8" }
    else { "9" }
}

/// Writes `n` in decimal, as `format!("{}", n)` does.
pub fn decimal_string(n: u64) -> (s: String)
    ensures
        s@ == decimal(n as nat),
    decreases n,
{
    if n < 10 {
        String::from_str(digit_str(n))
    } else {
        let mut s = decimal_string(n / 10);
        s.append(digit_str(n % 10));
        s
    }
}


/// A number below one hundred written with at least two digits, as `{:02}` does.
pub open spec fn two_digits(n: nat) -> Seq<char> {
    if n < 10 { seq!['0'] + decimal(n) } else { decimal(n) }
}

/// `m:ss`: whole minutes, a colon, and the remaining seconds in two digits.
pub open spec fn minutes_seconds(total: nat) -> Seq<char> {
    decimal(total / 60) + seq![':'] + two_digits(total % 60)
}

/// Writes `total` seconds as `m:ss`.
pub fn minutes_seconds_string(total: u64) -> (s: String)
    ensures
        s@ == minutes_seconds(total as nat),
{
    proof {
        reveal_strlit(":");
        reveal_strlit("0");
    }
    let mut s = decimal_string(total / 60);
    s.append(":");
    let secs = total % 60;
    if secs < 10 {
        s.append("0");
    }
    let tail = decimal_string(secs);
    s.append(tail.as_str());
    proof {
        assert(s@ == decimal((total / 60) as nat) + seq![':'] + two_digits((total % 60) as nat));
    }
    s
}

/// Concatenation of two pieces of text.
pub fn cat2(a: &str, b: &str) -> (r: String)
    ensures
        r@ == a@ + b@,
{
    let mut r = String::from_str(a);
    r.append(b);
    r
}

/// Concatenation of three pieces of text.
pub fn cat3(a: &str, b: &str, c: &str) -> (r: String)
    ensures
        r@ == a@ + b@ + c@,
{
    let mut r = String::from_str(a);
    r.append(b);
    r.append(c);
    r
}

/// Concatenation of four pieces of text.
pub fn cat4(a: &str, b: &str, c: &str, d: &str) -> (r: String)
    ensures
        r@ == a@ + b@ + c@ + d@,
{
    let mut r = String::from_str(a);
    r.append(b);
    r.append(c);
    r.append(d);
    r
}

/// Concatenation of five pieces of text.
pub fn cat5(a: &str, b: &str, c: &str, d: &str, e: &str) -> (r: String)
    ensures
        r@ == a@ + b@ + c@ + d@ + e@,
{
    let mut r = String::from_str(a);
    r.append(b);
    r.append(c);
    r.append(d);
    r.append(e);
    r
}

/// The pieces of `list`, with `sep` between each two of them.
pub open spec fn join(list: Seq<Seq<char>>, sep: Seq<char>) -> Seq<char>
    decreases list.len(),
{
    if list.len() == 0 {
        Seq::empty()
    } else if list.len() == 1 {
        list[0]
    } else {
        join(list.drop_last(), sep) + sep + list.last()
    }
}

/// Whether `prefix` is where `s` begins.
pub open spec fn has_prefix(s: Seq<char>, prefix: Seq<char>) -> bool {
    prefix.len() <= s.len() && s.subrange(0, prefix.len() as int) == prefix
}

/// Tests whether `s` begins with `prefix`, as `str::starts_with` does.
pub fn starts_with(s: &str, prefix: &str) -> (r: bool)
    ensures
        r == has_prefix(s@, prefix@),
{
    let n = s.unicode_len();
    let m = prefix.unicode_len();
    if m > n {
        return false;
    }
    let mut i: usize = 0;
    while i < m
        invariant
            m == prefix@.len(),
            n == s@.len(),
            m <= n,
            i <= m,
            forall|k: int| 0 <= k < i ==> s@[k] == prefix@[k],
        decreases m - i,
    {
        if s.get_char(i) != prefix.get_char(i) {
            assert(s@.subrange(0, m as int)[i as int] != prefix@[i as int]);
            return false;
        }
        i = i + 1;
    }
    assert(s@.subrange(0, m as int) =~= prefix@);
    true
}

/// The characters that Unicode gives the White_Space property, which
/// `char::is_whitespace` and `str::trim` go by.
pub open spec fn is_white_space(c: char) -> bool {
    let v = c as int;
    ||| 0x9 <= v <= 0xd
    ||| v == 0x20
    ||| v == 0x85
    ||| v == 0xa0
    ||| v == 0x1680
    ||| 0x2000 <= v <= 0x200a
    ||| v == 0x2028
    ||| v == 0x2029
    ||| v == 0x202f
    ||| v == 0x205f
    ||| v == 0x3000
}

fn white_space(c: char) -> (r: bool)
    ensures
        r == is_white_space(c),
{
    let v = c as u32;
    (0x9 <= v && v <= 0xd) || v == 0x20 || v == 0x85 || v == 0xa0 || v == 0x1680
        || (0x2000 <= v && v <= 0x200a) || v == 0x2028 || v == 0x2029 || v == 0x202f
        || v == 0x205f || v == 0x3000
}

/// `s` without the white space at its two ends: the longest piece in the
/// middle of `s` that neither begins nor ends with white space, as
/// `str::trim` gives it.
pub open spec fn is_trim_of(r: Seq<char>, s: Seq<char>) -> bool {
    exists|a: int, b: int|
        #![trigger s.subrange(a, b)]
        {
            &&& 0 <= a <= b <= s.len()
            &&& r == s.subrange(a, b)
            &&& forall|i: int| 0 <= i < a ==> is_white_space(#[trigger] s[i])
            &&& forall|i: int| b <= i < s.len() ==> is_white_space(#[trigger] s[i])
            &&& a < b ==> !is_white_space(s[a]) && !is_white_space(s[b - 1])
        }
}

/// Removes the white space at both ends of `s`.
pub fn trim(s: &str) -> (r: String)
    ensures
        is_trim_of(r@, s@),
{
    let n = s.unicode_len();
    let mut a: usize = 0;
    while a < n && white_space(s.get_char(a))
        invariant
            n == s@.len(),
            a <= n,
            forall|i: int| 0 <= i < a ==> is_white_space(#[trigger] s@[i]),
        decreases n - a,
    {
        a = a + 1;
    }
    let mut b: usize = n;
    while b > a && white_space(s.get_char(b - 1))
        invariant
            n == s@.len(),
            a <= b <= n,
            forall|i: int| b <= i < n ==> is_white_space(#[trigger] s@[i]),
        decreases b - a,
    {
        b = b - 1;
    }
    let piece = s.substring_char(a, b);
    let r = String::from_str(piece);
    assert(is_trim_of(r@, s@)) by {
        assert(r@ == s@.subrange(a as int, b as int));
    }
    r
}

/// Two trims of one text are the same text.
pub proof fn trim_is_unique(r1: Seq<char>, r2: Seq<char>, s: Seq<char>)
    requires
        is_trim_of(r1, s),
        is_trim_of(r2, s),
    ensures
        r1 == r2,
{
    let (a1, b1) = choose|a: int, b: int|
        {
            &&& 0 <= a <= b <= s.len()
            &&& r1 == #[trigger] s.subrange(a, b)
            &&& forall|i: int| 0 <= i < a ==> is_white_space(#[trigger] s[i])
            &&& forall|i: int| b <= i < s.len() ==> is_white_space(#[trigger] s[i])
            &&& a < b ==> !is_white_space(s[a]) && !is_white_space(s[b - 1])
        };
    let (a2, b2) = choose|a: int, b: int|
        {
            &&& 0 <= a <= b <= s.len()
            &&& r2 == #[trigger] s.subrange(a, b)
            &&& forall|i: int| 0 <= i < a ==> is_white_space(#[trigger] s[i])
            &&& forall|i: int| b <= i < s.len() ==> is_white_space(#[trigger] s[i])
            &&& a < b ==> !is_white_space(s[a]) && !is_white_space(s[b - 1])
        };
    if a1 < b1 && a2 < b2 {
        if a1 < a2 {
            assert(is_white_space(s[a1]));
        }
        if a2 < a1 {
            assert(is_white_space(s[a2]));
        }
        if b1 < b2 {
            assert(is_white_space(s[b2 - 1]));
        }
        if b2 < b1 {
            assert(is_white_space(s[b1 - 1]));
        }
    } else if a1 < b1 {
        // the second trim is empty: every character is white space
        if a2 <= a1 {
            assert(b2 <= a1 || is_white_space(s[a1]));
            assert(is_white_space(s[a1]));
        } else {
            assert(is_white_space(s[a1]));
        }
    } else if a2 < b2 {
        if a1 <= a2 {
            assert(is_white_space(s[a2]));
        } else {
            assert(is_white_space(s[a2]));
        }
    }
    assert(r1 =~= r2);
}

/// The texts of a list of strings.
pub open spec fn texts(v: Seq<String>) -> Seq<Seq<char>> {
    v.map_values(|s: String| s@)
}

/// A list of one text.
pub fn words1(a: &str) -> (r: Vec<String>)
    ensures
        texts(r@) == seq![a@],
{
    let mut r = Vec::new();
    r.push(String::from_str(a));
    assert(texts(r@) =~= seq![a@]);
    r
}

/// A list of two texts.
pub fn words2(a: &str, b: &str) -> (r: Vec<String>)
    ensures
        texts(r@) == seq![a@, b@],
{
    let mut r = Vec::new();
    r.push(String::from_str(a));
    r.push(String::from_str(b));
    assert(texts(r@) =~= seq![a@, b@]);
    r
}

/// A list of three texts.
pub fn words3(a: &str, b: &str, c: &str) -> (r: Vec<String>)
    ensures
        texts(r@) == seq![a@, b@, c@],
{
    let mut r = Vec::new();
    r.push(String::from_str(a));
    r.push(String::from_str(b));
    r.push(String::from_str(c));
    assert(texts(r@) =~= seq![a@, b@, c@]);
    r
}

/// The upper case of a text, as `str::to_uppercase` gives it: each
/// character mapped by Unicode's upper-case mapping, which may give more
/// than one character.
pub uninterp spec fn uppercase(s: Seq<char>) -> Seq<char>;

/// The upper case of a text.
///
/// Calls `str::to_uppercase`, whose result depends on the text alone; the
/// claim is only that the result is the one named `uppercase`.
#[verifier::external_body]
pub fn to_uppercase(s: &str) -> (r: String)
    ensures
        r@ == uppercase(s@),
{
    s.to_uppercase()
}

/// Appends the character `c` to `s`.
///
/// Calls `String::push`, which std documents as appending the character
/// to the end of the string.
#[verifier::external_body]
pub fn push_char(s: &mut String, c: char)
    ensures
        final(s)@ == old(s)@.push(c),
{
    s.push(c)
}

/// Removes the last character of `s` and gives it, or nothing where `s` is
/// empty.
///
/// Calls `String::pop`, which std documents as removing and returning the
/// last character, and returning `None` for an empty string.
#[verifier::external_body]
pub fn pop_char(s: &mut String) -> (r: Option<char>)
    ensures
        old(s)@.len() == 0 ==> r.is_none() && final(s)@ == old(s)@,
        old(s)@.len() > 0 ==> r == Some(old(s)@.last()) && final(s)@ == old(s)@.drop_last(),
{
    s.pop()
}

} // verus!
