use vstd::prelude::*;

verus! {

/// std's `String::push`, which its documentation says appends the character to the end
/// of the string.
pub assume_specification[ String::push ](s: &mut String, ch: char)
    ensures
        final(s)@ == old(s)@.push(ch),
;

/// The decimal digit character for a value below ten.
pub open spec fn digit_char(d: nat) -> char {
    (('0' as nat) + d) as char
}

/// The decimal notation of a natural number, without sign or leading zeros.
pub open spec fn decimal(n: nat) -> Seq<char>
    decreases n,
{
    if n < 10 {
        seq![digit_char(n)]
    } else {
        decimal(n / 10).push(digit_char(n % 10))
    }
}

fn exec_digit(d: usize) -> (c: char)
    requires
        d < 10,
    ensures
        c == digit_char(d as nat),
{
    let b: u8 = (d as u8) + 48u8;
    b as char
}

/// Appends the decimal notation of `n` to `s`.
pub fn push_decimal(s: &mut String, n: usize)
    ensures
        final(s)@ == old(s)@ + decimal(n as nat),
    decreases n,
{
    if n >= 10 {
        push_decimal(s, n / 10);
    }
    let c = exec_digit(n % 10);
    s.push(c);
    proof {
        assert(decimal(n as nat) == if n < 10 { seq![digit_char(n as nat)] } else { decimal((n / 10) as nat).push(digit_char((n % 10) as nat)) });
    }
}


/// Appends the decimal notation of the 64-bit number `n` to `s`.
pub fn push_decimal_u64(s: &mut String, n: u64)
    ensures
        final(s)@ == old(s)@ + decimal(n as nat),
    decreases n,
{
    if n >= 10 {
        push_decimal_u64(s, n / 10);
    }
    let c = exec_digit((n % 10) as usize);
    s.push(c);
    proof {
        assert(decimal(n as nat) == if n < 10 { seq![digit_char(n as nat)] } else { decimal((n / 10) as nat).push(digit_char((n % 10) as nat)) });
    }
}

/// The characters of `s`, in order.
pub fn chars_of(s: &str) -> (v: Vec<char>)
    ensures
        v@ == s@,
{
    let n = s.unicode_len();
    let mut v: Vec<char> = Vec::new();
    for i in 0..n
        invariant
            n == s@.len(),
            v@ == s@.take(i as int),
    {
        let c = s.get_char(i);
        v.push(c);
        assert(s@.take(i + 1) == s@.take(i as int).push(c));
    }
    assert(s@.take(n as int) == s@);
    v
}

/// A string made of the characters `chars[from..to]`.
pub fn string_from_range(chars: &Vec<char>, from: usize, to: usize) -> (s: String)
    requires
        from <= to <= chars@.len(),
    ensures
        s@ == chars@.subrange(from as int, to as int),
{
    let mut s = String::new();
    let mut i = from;
    while i < to
        invariant
            from <= i <= to <= chars@.len(),
            s@ == chars@.subrange(from as int, i as int),
        decreases to - i,
    {
        s.push(chars[i]);
        assert(chars@.subrange(from as int, i + 1) == chars@.subrange(from as int, i as int).push(chars@[i as int]));
        i = i + 1;
    }
    s
}

/// Whether `chars[from..to]` spells exactly `lit`.
pub fn range_equals(chars: &Vec<char>, from: usize, to: usize, lit: &str) -> (r: bool)
    requires
        from <= to <= chars@.len(),
    ensures
        r == (chars@.subrange(from as int, to as int) == lit@),
{
    let n = lit.unicode_len();
    if to - from != n {
        return false;
    }
    let mut i: usize = 0;
    while i < n
        invariant
            n == lit@.len(),
            to - from == n,
            from <= to <= chars@.len(),
            i <= n,
            forall|k: int| 0 <= k < i ==> chars@[from + k] == lit@[k],
        decreases n - i,
    {
        if chars[from + i] != lit.get_char(i) {
            assert(chars@.subrange(from as int, to as int)[i as int] != lit@[i as int]);
            return false;
        }
        i = i + 1;
    }
    assert(chars@.subrange(from as int, to as int) =~= lit@);
    true
}

/// Ellipsis character appended to shortened names.
pub open spec fn ellipsis() -> char {
    '\u{2026}'
}

/// The text shown for `value` in a space of `max` characters: `value` itself when it
/// fits, otherwise its first `max - 1` characters followed by an ellipsis.
pub open spec fn compact_spec(value: Seq<char>, max: nat) -> Seq<char> {
    if value.len() <= max {
        value
    } else if max == 0 {
        seq![ellipsis()]
    } else {
        value.take(max - 1).push(ellipsis())
    }
}

/// Shortens `value` to at most `max` characters, marking a cut with an ellipsis.
pub fn compact_name(value: &str, max: usize) -> (r: String)
    ensures
        r@ == compact_spec(value@, max as nat),
{
    let chars = chars_of(value);
    if chars.len() <= max {
        return string_from_range(&chars, 0, chars.len());
    }
    let keep: usize = if max == 0 { 0 } else { max - 1 };
    let mut compact = string_from_range(&chars, 0, keep);
    compact.push('\u{2026}');
    assert(chars@.subrange(0, keep as int) == value@.take(keep as int));
    compact
}

/// A shortened name never takes more than `max` characters (for `max` of at least one),
/// and a name that fits is kept as it is.
pub proof fn law_compact_name_fits(value: Seq<char>, max: nat)
    ensures
        max >= 1 ==> compact_spec(value, max).len() <= max,
        value.len() <= max ==> compact_spec(value, max) == value,
        value.len() > max >= 1 ==> compact_spec(value, max) == value.take(max - 1).push(
            ellipsis(),
        ),
{
}

/// Whether two texts hold the same characters.
pub fn same_text(a: &str, b: &str) -> (r: bool)
    ensures
        r == (a@ == b@),
{
    let chars = chars_of(a);
    assert(chars@.subrange(0, chars@.len() as int) == chars@);
    range_equals(&chars, 0, chars.len(), b)
}

/// A new string holding the characters of `lit`.
pub fn owned(lit: &str) -> (s: String)
    ensures
        s@ == lit@,
{
    let chars = chars_of(lit);
    string_from_range(&chars, 0, chars.len())
}

/// The ASCII lower-case form of a character; other characters are kept.
pub open spec fn lower_char(c: char) -> char {
    if 'A' <= c && c <= 'Z' {
        ((c as u8) + 32) as char
    } else {
        c
    }
}

/// The ASCII lower-case form of a text.
pub open spec fn ascii_lower(s: Seq<char>) -> Seq<char> {
    s.map_values(|c: char| lower_char(c))
}

/// ASCII lower-case form of `chars`.
pub fn to_ascii_lowercase(chars: &Vec<char>) -> (r: Vec<char>)
    ensures
        r@ == ascii_lower(chars@),
{
    let mut r: Vec<char> = Vec::new();
    for i in 0..chars.len()
        invariant
            r@ == ascii_lower(chars@.take(i as int)),
    {
        let c = chars[i];
        let l = if c >= 'A' && c <= 'Z' {
            let b: u8 = (c as u8) + 32u8;
            b as char
        } else {
            c
        };
        r.push(l);
        assert(chars@.take(i + 1) == chars@.take(i as int).push(c));
        assert(ascii_lower(chars@.take(i + 1)) =~= ascii_lower(chars@.take(i as int)).push(lower_char(c)));
    }
    assert(chars@.take(chars@.len() as int) == chars@);
    r
}

} // verus!
