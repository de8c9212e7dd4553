//! Reading the values given on the command line: key/value metadata and
//! global variables in hexadecimal.
use vstd::prelude::*;
use crate::cli::GlobalArg;
use crate::codec::hex_from_str;
use crate::keyed::{KeyedValues, map_of_pairs};
use crate::messages::copy_bytes;
use crate::text::{
    find_char, first_two_fields, first_two_fields_exec, hex_decode, hex_digit, hex_digit_value,
    hex_text, split_once, split_once_exec,
};

verus! {

/// A command line value that does not have the expected form.
#[derive(Debug, PartialEq, Eq)]
pub enum ArgError {
    InvalidInput,
}

/// Splits "<KEY>=<VALUE>" at the first '='.
pub fn parse_key_val(s: &str) -> (r: Result<(String, String), ArgError>)
    ensures
        match split_once(s@, '=') {
            None => r == Err::<(String, String), ArgError>(ArgError::InvalidInput),
            Some((k, v)) => r matches Ok((a, b)) && a@ == k && b@ == v,
        },
        r matches Ok((a, b)) ==> s@ == a@ + seq!['='] + b@ && !a@.contains('='),
{
    proof {
        lemma_split_once_parts(s@, '=');
    }
    match split_once_exec(s, '=') {
        Some((k, v)) => Ok((k, v)),
        None => Err(ArgError::InvalidInput),
    }
}

/// What `split_once` cuts off are the two sides of the first `c`.
pub proof fn lemma_split_once_parts(s: Seq<char>, c: char)
    ensures
        split_once(s, c) matches Some((a, b)) ==> s == a + seq![c] + b && !a.contains(c),
        split_once(s, c) is None <==> !s.contains(c),
{
    crate::text::lemma_find_char(s, c);
    match find_char(s, c) {
        Some(k) => {
            assert(s =~= s.take(k) + seq![c] + s.skip(k + 1));
            assert(!s.take(k).contains(c));
            assert(s.contains(c));
        },
        None => {},
    }
}

/// What a global variable argument "<NAME>=<HEX>" gives: the name before
/// the first '=', and the non-empty bytes of the hexadecimal digits that
/// follow it up to a second '=', if any.
pub open spec fn global_arg_outcome(s: Seq<char>, r: Result<GlobalArg, ArgError>) -> bool {
    match first_two_fields(s, '=') {
        None => r == Err::<GlobalArg, ArgError>(ArgError::InvalidInput),
        Some((name, hex)) => match hex_decode(hex) {
            Some(b) => if b.len() > 0 {
                r matches Ok(g) && g.name@ == name && g.value@ == b
            } else {
                r == Err::<GlobalArg, ArgError>(ArgError::InvalidInput)
            },
            None => r == Err::<GlobalArg, ArgError>(ArgError::InvalidInput),
        },
    }
}

/// Reads a global variable argument "<NAME>=<HEX VALUE>".
pub fn parse_global_arg(global_arg: &str) -> (r: Result<GlobalArg, ArgError>)
    ensures
        global_arg_outcome(global_arg@, r),
{
    let (name, value_str) = match first_two_fields_exec(global_arg, '=') {
        Some(p) => p,
        None => return Err(ArgError::InvalidInput),
    };
    let value = match hex_from_str(value_str.as_str()) {
        Some(v) => v,
        None => return Err(ArgError::InvalidInput),
    };
    if value.len() == 0 {
        return Err(ArgError::InvalidInput);
    }
    Ok(GlobalArg { name, value })
}

/// The global variables given on the command line, as name/value pairs.
pub open spec fn global_pairs(global: Option<Vec<GlobalArg>>) -> Seq<(Seq<char>, Seq<u8>)> {
    match global {
        Some(g) => g@.map_values(|a: GlobalArg| (a.name@, a.value@)),
        None => Seq::empty(),
    }
}

/// The global data to load with a program: each name with its value, a
/// later value for a name replacing an earlier one.
pub fn parse_global(global: &Option<Vec<GlobalArg>>) -> (r: KeyedValues<Vec<u8>>)
    ensures
        r@ == map_of_pairs(global_pairs(*global)),
{
    let mut global_data: KeyedValues<Vec<u8>> = KeyedValues::new();
    if let Some(global) = global {
        let n = global.len();
        let mut i: usize = 0;
        while i < n
            invariant
                n == global.len(),
                i <= n,
                global_data@ == map_of_pairs(global@.take(i as int).map_values(|a: GlobalArg| (a.name@, a.value@))),
            decreases n - i,
        {
            let g = &global[i];
            global_data.insert(g.name.clone(), copy_bytes(&g.value));
            assert(global@.take(i + 1).map_values(|a: GlobalArg| (a.name@, a.value@)).drop_last()
                =~= global@.take(i as int).map_values(|a: GlobalArg| (a.name@, a.value@)));
            i += 1;
        }
        assert(global@.take(n as int) =~= global@);
    } else {
        assert(global_pairs(*global) =~= Seq::<(Seq<char>, Seq<u8>)>::empty());
    }
    global_data
}

/// Key/value pairs given on the command line, by their characters.
pub open spec fn string_pairs(pairs: Option<Vec<(String, String)>>) -> Seq<(Seq<char>, Seq<char>)> {
    match pairs {
        Some(p) => p@.map_values(|kv: (String, String)| (kv.0@, kv.1@)),
        None => Seq::empty(),
    }
}

/// Key/value pairs as a map, a later value for a key replacing an earlier one.
pub fn collect_pairs(pairs: &Option<Vec<(String, String)>>) -> (r: KeyedValues<String>)
    ensures
        r@ == map_of_pairs(string_pairs(*pairs)),
{
    let mut map: KeyedValues<String> = KeyedValues::new();
    if let Some(pairs) = pairs {
        let n = pairs.len();
        let mut i: usize = 0;
        while i < n
            invariant
                n == pairs.len(),
                i <= n,
                map@ == map_of_pairs(pairs@.take(i as int).map_values(|kv: (String, String)| (kv.0@, kv.1@))),
            decreases n - i,
        {
            let kv = &pairs[i];
            map.insert(kv.0.clone(), kv.1.clone());
            assert(pairs@.take(i + 1).map_values(|kv: (String, String)| (kv.0@, kv.1@)).drop_last()
                =~= pairs@.take(i as int).map_values(|kv: (String, String)| (kv.0@, kv.1@)));
            i += 1;
        }
        assert(pairs@.take(n as int) =~= pairs@);
    } else {
        assert(string_pairs(*pairs) =~= Seq::<(Seq<char>, Seq<char>)>::empty());
    }
    map
}

} // verus!

verus! {

proof fn lemma_hex_digit_roundtrip(d: nat, upper: bool)
    requires
        d < 16,
    ensures
        hex_digit_value(hex_digit(d, upper)) == Some(d),
        hex_digit(d, upper) != '=',
{
}

/// Decoding the hexadecimal rendering of bytes, in either case, gives them
/// back, and that rendering holds no '='.
pub proof fn lemma_hex_roundtrip(b: Seq<u8>, upper: bool)
    ensures
        hex_decode(hex_text(b, upper)) == Some(b),
        !hex_text(b, upper).contains('='),
        hex_text(b, upper).len() == 2 * b.len(),
    decreases b.len(),
{
    if b.len() > 0 {
        lemma_hex_roundtrip(b.drop_last(), upper);
        let x = b.last();
        let hi = (x / 16) as nat;
        let lo = (x % 16) as nat;
        lemma_hex_digit_roundtrip(hi, upper);
        lemma_hex_digit_roundtrip(lo, upper);
        let h = hex_text(b, upper);
        let p = hex_text(b.drop_last(), upper);
        assert(h == p + seq![hex_digit(hi, upper), hex_digit(lo, upper)]);
        assert(h.subrange(0, h.len() - 2) =~= p);
        assert(h[h.len() - 2] == hex_digit(hi, upper));
        assert(h[h.len() - 1] == hex_digit(lo, upper));
        assert((hi * 16 + lo) as u8 == x);
        assert(b.drop_last().push(x) =~= b);
        if h.contains('=') {
            let i = choose|i: int| 0 <= i < h.len() && h[i] == '=';
            if i < p.len() {
                assert(p[i] == '=');
            }
        }
    } else {
        assert(hex_text(b, upper) =~= Seq::<char>::empty());
        assert(b =~= Seq::<u8>::empty());
    }
}

/// A global variable written as its name, '=' and the hexadecimal digits
/// of its value, in upper case (the way `get` shows global data) or in
/// lower case, reads back as that name and value.
pub proof fn law_global_arg_roundtrip(
    name: Seq<char>,
    value: Seq<u8>,
    upper: bool,
    r: Result<GlobalArg, ArgError>,
)
    requires
        !name.contains('='),
        value.len() > 0,
        global_arg_outcome(name + seq!['='] + hex_text(value, upper), r),
    ensures
        r matches Ok(g) && g.name@ == name && g.value@ == value,
{
    let h = hex_text(value, upper);
    let s = name + seq!['='] + h;
    lemma_hex_roundtrip(value, upper);
    crate::text::lemma_find_char(name, '=');
    crate::text::lemma_find_char_at(s, '=', name.len() as int);
    assert(s.take(name.len() as int) =~= name);
    assert(s.skip(name.len() as int + 1) =~= h);
    crate::text::lemma_find_char(h, '=');
    assert(first_two_fields(s, '=') == Some((name, h)));
}

} // verus!
