//! Text helpers: the decimal and hexadecimal renderings of numbers and
//! bytes, joining with a separator, and string comparison.
use vstd::prelude::*;

verus! {

/// The digit character for `d`, which is below 10.
pub open spec fn digit_char(d: nat) -> char {
    (48 + d) as char
}

/// The decimal rendering of `n`, without leading zeros.
pub open spec fn decimal(n: nat) -> Seq<char>
    decreases n,
{
    if n < 10 {
        seq![digit_char(n)]
    } else {
        decimal(n / 10).push(digit_char(n % 10))
    }
}

/// The decimal rendering of a signed number: a minus sign, then the digits.
pub open spec fn signed_decimal(i: int) -> Seq<char> {
    if i < 0 {
        seq!['-'] + decimal((-i) as nat)
    } else {
        decimal(i as nat)
    }
}

/// The hexadecimal digit for `d`, which is below 16: a decimal digit, or
/// a letter in upper or lower case.
pub open spec fn hex_digit(d: nat, upper: bool) -> char {
    if d < 10 {
        (48 + d) as char
    } else if upper {
        (55 + d) as char
    } else {
        (87 + d) as char
    }
}

/// Each byte as two hexadecimal digits in the given case, high half first.
pub open spec fn hex_text(bytes: Seq<u8>, upper: bool) -> Seq<char>
    decreases bytes.len(),
{
    if bytes.len() == 0 {
        Seq::empty()
    } else {
        hex_text(bytes.drop_last(), upper) + seq![
            hex_digit((bytes.last() / 16) as nat, upper),
            hex_digit((bytes.last() % 16) as nat, upper),
        ]
    }
}

/// Each byte as two upper-case hexadecimal digits, high half first.
pub open spec fn hex_upper(bytes: Seq<u8>) -> Seq<char> {
    hex_text(bytes, true)
}

/// The value of a hexadecimal digit in either case, if `c` is one.
pub open spec fn hex_digit_value(c: char) -> Option<nat> {
    if '0' <= c && c <= '9' {
        Some((c as nat - 48) as nat)
    } else if 'a' <= c && c <= 'f' {
        Some((c as nat - 87) as nat)
    } else if 'A' <= c && c <= 'F' {
        Some((c as nat - 55) as nat)
    } else {
        None
    }
}

/// The bytes that a string of hexadecimal digit pairs stands for: none
/// when the length is odd or a character is not a hexadecimal digit.
pub open spec fn hex_decode(s: Seq<char>) -> Option<Seq<u8>>
    decreases s.len(),
{
    if s.len() == 0 {
        Some(Seq::empty())
    } else if s.len() == 1 {
        None
    } else {
        match (
            hex_decode(s.subrange(0, s.len() - 2)),
            hex_digit_value(s[s.len() - 2]),
            hex_digit_value(s[s.len() - 1]),
        ) {
            (Some(prefix), Some(hi), Some(lo)) => Some(prefix.push((hi * 16 + lo) as u8)),
            _ => None,
        }
    }
}

/// The pieces of `parts`, with `sep` between each two.
pub open spec fn join(parts: Seq<Seq<char>>, sep: Seq<char>) -> Seq<char>
    decreases parts.len(),
{
    if parts.len() == 0 {
        Seq::empty()
    } else if parts.len() == 1 {
        parts[0]
    } else {
        join(parts.drop_last(), sep) + sep + parts.last()
    }
}

/// The one-character text of the digit `d`, which is below 10.
fn digit_str(d: u64) -> (r: &'static str)
    requires
        d < 10,
    ensures
        r@ == seq![digit_char(d as nat)],
{
    proof {
        reveal_strlit("0");
        reveal_strlit("1");
        reveal_strlit("2");
        reveal_strlit("3");
        reveal_strlit("4");
        reveal_strlit("5");
        reveal_strlit("6");
        reveal_strlit("7");
        reveal_strlit("8");
        reveal_strlit("9");
    }
    if d == 0 {
        "0"
    } else if d == 1 {
        "1"
    } else if d == 2 {
        "2"
    } else if d == 3 {
        "3"
    } else if d == 4 {
        "4"
    } else if d == 5 {
        "5"
    } else if d == 6 {
        "6"
    } else if d == 7 {
        "7"
    } else if d == 8 {
        "8"
    } else {
        "9"
    }
}

/// `n` written in decimal.
pub fn decimal_string(n: u64) -> (r: String)
    ensures
        r@ == decimal(n as nat),
    decreases n,
{
    if n < 10 {
        digit_str(n).to_owned()
    } else {
        let mut s = decimal_string(n / 10);
        s.append(digit_str(n % 10));
        assert(s@ =~= decimal((n / 10) as nat).push(digit_char((n % 10) as nat)));
        s
    }
}

/// `n` written in decimal, with a leading minus sign when it is negative.
pub fn signed_decimal_string(n: i64) -> (r: String)
    ensures
        r@ == signed_decimal(n as int),
{
    if n < 0 {
        let magnitude: u64 = (-(n as i128)) as u64;
        let digits = decimal_string(magnitude);
        proof {
            reveal_strlit("-");
        }
        concat("-", digits.as_str())
    } else {
        decimal_string(n as u64)
    }
}

/// Whether two strings hold the same characters.
pub fn str_eq(a: &str, b: &str) -> (r: bool)
    ensures
        r == (a@ == b@),
{
    let x = a.to_owned();
    let y = b.to_owned();
    x == y
}

/// The characters of `a` followed by those of `b`.
pub fn concat(a: &str, b: &str) -> (r: String)
    ensures
        r@ == a@ + b@,
{
    let mut s = a.to_owned();
    s.append(b);
    s
}

} // verus!

verus! {

/// The views of a sequence of strings.
pub open spec fn views(strings: Seq<String>) -> Seq<Seq<char>> {
    strings.map_values(|s: String| s@)
}

/// The strings of `parts` joined with `sep` between each two.
pub fn join_strings(parts: &Vec<String>, sep: &str) -> (r: String)
    ensures
        r@ == join(views(parts@), sep@),
{
    let mut r = String::new();
    let n = parts.len();
    let mut i: usize = 0;
    while i < n
        invariant
            n == parts.len(),
            i <= n,
            r@ == join(views(parts@).take(i as int), sep@),
        decreases n - i,
    {
        let ghost before = views(parts@).take(i as int);
        assert(views(parts@).take(i + 1).drop_last() =~= before);
        if i > 0 {
            r.append(sep);
        }
        r.append(parts[i].as_str());
        proof {
            let after = views(parts@).take(i + 1);
            if i == 0 {
                assert(after.len() == 1);
                assert(r@ =~= after[0]);
            } else {
                assert(after.last() == parts@[i as int]@);
            }
        }
        i += 1;
    }
    assert(views(parts@).take(n as int) =~= views(parts@));
    r
}

} // verus!

verus! {

/// The position of the first `c` in `s`, if `c` occurs there.
pub open spec fn find_char(s: Seq<char>, c: char) -> Option<int>
    decreases s.len(),
{
    if s.len() == 0 {
        None
    } else if s[0] == c {
        Some(0)
    } else {
        match find_char(s.drop_first(), c) {
            Some(k) => Some(k + 1),
            None => None,
        }
    }
}

/// `find_char` gives the first position of `c`, and none exactly when `c`
/// does not occur.
pub proof fn lemma_find_char(s: Seq<char>, c: char)
    ensures
        find_char(s, c) matches Some(k) ==> 0 <= k < s.len() && s[k] == c && forall|j: int|
            0 <= j < k ==> s[j] != c,
        find_char(s, c) is None <==> !s.contains(c),
    decreases s.len(),
{
    if s.len() > 0 {
        lemma_find_char(s.drop_first(), c);
        if s[0] != c {
            if s.contains(c) {
                let i = choose|i: int| 0 <= i < s.len() && s[i] == c;
                assert(s.drop_first()[i - 1] == c);
            }
            if s.drop_first().contains(c) {
                let i = choose|i: int| 0 <= i < s.drop_first().len() && s.drop_first()[i] == c;
                assert(s[i + 1] == c);
            }
            if let Some(k) = find_char(s.drop_first(), c) {
                assert forall|j: int| 0 <= j < k + 1 implies s[j] != c by {
                    if j > 0 {
                        assert(s[j] == s.drop_first()[j - 1]);
                    }
                }
            }
        } else {
            assert(s.contains(c));
        }
    }
}

/// `s` cut at its first `c`: what stands before it and what stands after it.
pub open spec fn split_once(s: Seq<char>, c: char) -> Option<(Seq<char>, Seq<char>)> {
    match find_char(s, c) {
        None => None,
        Some(k) => Some((s.take(k), s.skip(k + 1))),
    }
}

/// The first two of the fields that `c` separates in `s`; none when `c`
/// does not occur, so that there is only one field.
pub open spec fn first_two_fields(s: Seq<char>, c: char) -> Option<(Seq<char>, Seq<char>)> {
    match split_once(s, c) {
        None => None,
        Some((a, rest)) => Some(
            (
                a,
                match find_char(rest, c) {
                    None => rest,
                    Some(m) => rest.take(m),
                },
            ),
        ),
    }
}

/// A position found by a scan that saw no earlier `c` is the first `c`.
pub proof fn lemma_find_char_at(s: Seq<char>, c: char, i: int)
    requires
        0 <= i < s.len(),
        s[i] == c,
        forall|j: int| 0 <= j < i ==> s[j] != c,
    ensures
        find_char(s, c) == Some(i),
{
    lemma_find_char(s, c);
    assert(s.contains(c));
    let k = find_char(s, c)->0;
    if k < i {
        assert(s[k] != c);
    } else if k > i {
        assert(s[i] != c);
    }
}

/// The position of the first `c` in `s`, if any.
pub fn find_char_exec(s: &str, c: char) -> (r: Option<usize>)
    ensures
        match find_char(s@, c) {
            None => r is None,
            Some(k) => r matches Some(i) && i as int == k,
        },
        r matches Some(i) ==> (i as int) < s@.len() && s@[i as int] == c,
{
    let n = s.unicode_len();
    let mut i: usize = 0;
    while i < n
        invariant
            n == s@.len(),
            i <= n,
            forall|j: int| 0 <= j < i ==> s@[j] != c,
        decreases n - i,
    {
        if s.get_char(i) == c {
            proof {
                lemma_find_char_at(s@, c, i as int);
            }
            return Some(i);
        }
        i += 1;
    }
    proof {
        lemma_find_char(s@, c);
    }
    None
}

/// `s` cut at its first `c`, if `c` occurs in it.
pub fn split_once_exec(s: &str, c: char) -> (r: Option<(String, String)>)
    ensures
        match split_once(s@, c) {
            None => r is None,
            Some((a, b)) => r matches Some((x, y)) && x@ == a && y@ == b,
        },
{
    match find_char_exec(s, c) {
        None => None,
        Some(k) => {
            let n = s.unicode_len();
            let a = s.substring_char(0, k);
            let b = s.substring_char(k + 1, n);
            assert(a@ =~= s@.take(k as int));
            assert(b@ =~= s@.skip(k + 1));
            Some((a.to_owned(), b.to_owned()))
        },
    }
}

/// The first two fields that `c` separates in `s`, if `c` occurs in it.
pub fn first_two_fields_exec(s: &str, c: char) -> (r: Option<(String, String)>)
    ensures
        match first_two_fields(s@, c) {
            None => r is None,
            Some((a, b)) => r matches Some((x, y)) && x@ == a && y@ == b,
        },
{
    match split_once_exec(s, c) {
        None => None,
        Some((a, rest)) => {
            match find_char_exec(rest.as_str(), c) {
                None => Some((a, rest)),
                Some(m) => {
                    let b = rest.as_str().substring_char(0, m);
                    assert(b@ =~= rest@.take(m as int));
                    Some((a, b.to_owned()))
                },
            }
        },
    }
}

} // verus!
