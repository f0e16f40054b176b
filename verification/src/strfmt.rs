//! Verified building blocks for the fixed-width text encodings: hexadecimal,
//! decimal and repeated-character pieces, appended to a growing `String`.

use vstd::prelude::*;

verus! {

/// Upper-case hexadecimal digit character for `d < 16`.
pub open spec fn hex_digit_upper(d: nat) -> char {
    if d == 0 {
        '0'
    } else if d == 1 {
        '1'
    } else if d == 2 {
        '2'
    } else if d == 3 {
        '3'
    } else if d == 4 {
        '4'
    } else if d == 5 {
        '5'
    } else if d == 6 {
        '6'
    } else if d == 7 {
        '7'
    } else if d == 8 {
        '8'
    } else if d == 9 {
        '9'
    } else if d == 10 {
        'A'
    } else if d == 11 {
        'B'
    } else if d == 12 {
        'C'
    } else if d == 13 {
        'D'
    } else if d == 14 {
        'E'
    } else {
        'F'
    }
}

/// Lower-case hexadecimal digit character for `d < 16`.
pub open spec fn hex_digit_lower(d: nat) -> char {
    if d < 10 {
        hex_digit_upper(d)
    } else if d == 10 {
        'a'
    } else if d == 11 {
        'b'
    } else if d == 12 {
        'c'
    } else if d == 13 {
        'd'
    } else if d == 14 {
        'e'
    } else {
        'f'
    }
}

/// Decimal digit character for `d < 10`.
pub open spec fn dec_digit(d: nat) -> char {
    hex_digit_upper(if d < 10 {
        d
    } else {
        0
    })
}

/// The eight upper-case hex digits of `x`, most significant nibble first.
pub open spec fn hex32_upper(x: u32) -> Seq<char> {
    Seq::new(8, |i: int| hex_digit_upper(((x >> (((7 - i) * 4) as u32)) & 0xF) as nat))
}

/// The eight lower-case hex digits of `x`, most significant nibble first.
pub open spec fn hex32_lower(x: u32) -> Seq<char> {
    Seq::new(8, |i: int| hex_digit_lower(((x >> (((7 - i) * 4) as u32)) & 0xF) as nat))
}

/// Minimal-width upper-case hex digits of `x` (a single `'0'` for zero).
pub open spec fn hex_min_upper(x: nat) -> Seq<char>
    decreases x,
{
    if x < 16 {
        seq![hex_digit_upper(x)]
    } else {
        hex_min_upper(x / 16).push(hex_digit_upper(x % 16))
    }
}

/// Minimal-width lower-case hex digits of `x` (a single `'0'` for zero).
pub open spec fn hex_min_lower(x: nat) -> Seq<char>
    decreases x,
{
    if x < 16 {
        seq![hex_digit_lower(x)]
    } else {
        hex_min_lower(x / 16).push(hex_digit_lower(x % 16))
    }
}

/// Minimal-width decimal digits of `n` (a single `'0'` for zero).
pub open spec fn dec_digits(n: nat) -> Seq<char>
    decreases n,
{
    if n < 10 {
        seq![dec_digit(n)]
    } else {
        dec_digits(n / 10).push(dec_digit(n % 10))
    }
}

/// `n` in decimal, left-padded with zeros to at least three digits.
pub open spec fn dec3(n: nat) -> Seq<char> {
    if n < 10 {
        seq!['0', '0'] + dec_digits(n)
    } else if n < 100 {
        seq!['0'] + dec_digits(n)
    } else {
        dec_digits(n)
    }
}

/// `n` copies of the character `c`.
pub open spec fn repeat_char(c: char, n: nat) -> Seq<char> {
    Seq::new(n, |i: int| c)
}

/// Upper-case hexadecimal digit string for `d < 16`.
pub fn hex_char_upper(d: u32) -> (r: &'static str)
    requires
        d < 16,
    ensures
        r@ =~= seq![hex_digit_upper(d as nat)],
{
    proof {
        reveal_strlit("0");
        reveal_strlit("1");
        reveal_strlit("2");
        reveal_strlit("3");
        reveal_strlit("4");
        reveal_strlit("5");
        reveal_strlit("6");
        reveal_strlit("7");
        reveal_strlit("8");
        reveal_strlit("9");
        reveal_strlit("A");
        reveal_strlit("B");
        reveal_strlit("C");
        reveal_strlit("D");
        reveal_strlit("E");
        reveal_strlit("F");
    }
    match d {
        0 => "0",
        1 => "1",
        2 => "2",
        3 => "3",
        4 => "4",
        5 => "5",
        6 => "6",
        7 => "7",
        8 => "8",
        9 => "9",
        10 => "A",
        11 => "B",
        12 => "C",
        13 => "D",
        14 => "E",
        _ => "F",
    }
}

/// Lower-case hexadecimal digit string for `d < 16`.
pub fn hex_char_lower(d: u32) -> (r: &'static str)
    requires
        d < 16,
    ensures
        r@ =~= seq![hex_digit_lower(d as nat)],
{
    if d < 10 {
        hex_char_upper(d)
    } else {
        proof {
            reveal_strlit("a");
            reveal_strlit("b");
            reveal_strlit("c");
            reveal_strlit("d");
            reveal_strlit("e");
            reveal_strlit("f");
        }
        match d {
            10 => "a",
            11 => "b",
            12 => "c",
            13 => "d",
            14 => "e",
            _ => "f",
        }
    }
}

/// Appends the eight upper-case hex digits of `x` to `s`.
pub fn push_hex32_upper(s: &mut String, x: u32)
    ensures
        final(s)@ == old(s)@ + hex32_upper(x),
{
    let mut i: u32 = 0;
    while i < 8
        invariant
            i <= 8,
            s@ == old(s)@ + hex32_upper(x).take(i as int),
        decreases 8 - i,
    {
        let sh = (7 - i) * 4;
        let d = (x >> sh) & 0xF;
        proof {
            assert(d < 16) by (bit_vector)
                requires
                    d == (x >> sh) & 0xF,
            ;
        }
        s.append(hex_char_upper(d));
        proof {
            assert(hex32_upper(x).take(i + 1) =~= hex32_upper(x).take(i as int).push(
                hex32_upper(x)[i as int],
            ));
            assert(s@ =~= old(s)@ + hex32_upper(x).take(i + 1));
        }
        i += 1;
    }
    proof {
        assert(hex32_upper(x).take(8) =~= hex32_upper(x));
    }
}

/// Appends the eight lower-case hex digits of `x` to `s`.
pub fn push_hex32_lower(s: &mut String, x: u32)
    ensures
        final(s)@ == old(s)@ + hex32_lower(x),
{
    let mut i: u32 = 0;
    while i < 8
        invariant
            i <= 8,
            s@ == old(s)@ + hex32_lower(x).take(i as int),
        decreases 8 - i,
    {
        let sh = (7 - i) * 4;
        let d = (x >> sh) & 0xF;
        proof {
            assert(d < 16) by (bit_vector)
                requires
                    d == (x >> sh) & 0xF,
            ;
        }
        s.append(hex_char_lower(d));
        proof {
            assert(hex32_lower(x).take(i + 1) =~= hex32_lower(x).take(i as int).push(
                hex32_lower(x)[i as int],
            ));
            assert(s@ =~= old(s)@ + hex32_lower(x).take(i + 1));
        }
        i += 1;
    }
    proof {
        assert(hex32_lower(x).take(8) =~= hex32_lower(x));
    }
}

/// Appends the minimal-width upper-case hex digits of `x` to `s`.
pub fn push_hex_min_upper(s: &mut String, x: u32)
    ensures
        final(s)@ == old(s)@ + hex_min_upper(x as nat),
    decreases x,
{
    if x >= 16 {
        push_hex_min_upper(s, x / 16);
    }
    let d = x % 16;
    s.append(hex_char_upper(d));
    proof {
        assert(final(s)@ =~= old(s)@ + hex_min_upper(x as nat));
    }
}

/// Appends the minimal-width lower-case hex digits of `x` to `s`.
pub fn push_hex_min_lower(s: &mut String, x: u32)
    ensures
        final(s)@ == old(s)@ + hex_min_lower(x as nat),
    decreases x,
{
    if x >= 16 {
        push_hex_min_lower(s, x / 16);
    }
    let d = x % 16;
    s.append(hex_char_lower(d));
    proof {
        assert(final(s)@ =~= old(s)@ + hex_min_lower(x as nat));
    }
}

/// Appends the minimal-width decimal digits of `n` to `s`.
pub fn push_dec(s: &mut String, n: u64)
    ensures
        final(s)@ == old(s)@ + dec_digits(n as nat),
    decreases n,
{
    if n >= 10 {
        push_dec(s, n / 10);
    }
    let d = (n % 10) as u32;
    s.append(hex_char_upper(d));
    proof {
        assert(final(s)@ =~= old(s)@ + dec_digits(n as nat));
    }
}

/// `n` in decimal, left-padded with spaces to at least `w` characters.
pub open spec fn dec_padded(n: nat, w: nat) -> Seq<char> {
    if dec_digits(n).len() >= w {
        dec_digits(n)
    } else {
        repeat_char(' ', (w - dec_digits(n).len()) as nat) + dec_digits(n)
    }
}

/// Appends `n` in decimal, left-padded with spaces to at least `w`
/// characters, to `s`.
pub fn push_dec_padded(s: &mut String, n: u64, w: usize)
    ensures
        final(s)@ == old(s)@ + dec_padded(n as nat, w as nat),
{
    let mut digits = String::new();
    push_dec(&mut digits, n);
    let ul = digits.as_str().unicode_len();
    if ul < w {
        proof {
            reveal_strlit(" ");
        }
        push_repeat(s, " ", w - ul);
    }
    s.append(digits.as_str());
    proof {
        assert(final(s)@ =~= old(s)@ + dec_padded(n as nat, w as nat));
    }
}

/// Appends `n` in decimal, zero-padded to at least three digits, to `s`.
pub fn push_dec3(s: &mut String, n: u64)
    ensures
        final(s)@ == old(s)@ + dec3(n as nat),
{
    if n < 10 {
        proof {
            reveal_strlit("00");
        }
        s.append("00");
    } else if n < 100 {
        proof {
            reveal_strlit("0");
        }
        s.append("0");
    }
    push_dec(s, n);
    proof {
        assert(final(s)@ =~= old(s)@ + dec3(n as nat));
    }
}

/// Appends `n` copies of the single-character string `c` to `s`.
pub fn push_repeat(s: &mut String, c: &str, n: usize)
    requires
        c@.len() == 1,
    ensures
        final(s)@ == old(s)@ + repeat_char(c@[0], n as nat),
{
    let mut i: usize = 0;
    while i < n
        invariant
            i <= n,
            c@.len() == 1,
            s@ == old(s)@ + repeat_char(c@[0], i as nat),
        decreases n - i,
    {
        s.append(c);
        proof {
            assert(s@ =~= old(s)@ + repeat_char(c@[0], (i + 1) as nat));
        }
        i += 1;
    }
}

/// A string of `n` spaces.
pub fn spaces(n: usize) -> (r: String)
    ensures
        r@ == repeat_char(' ', n as nat),
{
    let mut s = String::new();
    proof {
        reveal_strlit(" ");
    }
    push_repeat(&mut s, " ", n);
    proof {
        assert(s@ =~= repeat_char(' ', n as nat));
    }
    s
}


/// The UTF-8 encoding of a concatenation is the concatenation of the
/// encodings.
pub proof fn lemma_encode_utf8_add(a: Seq<char>, b: Seq<char>)
    ensures
        vstd::utf8::encode_utf8(a + b) == vstd::utf8::encode_utf8(a) + vstd::utf8::encode_utf8(b),
    decreases a.len(),
{
    if a.len() == 0 {
        assert(a + b =~= b);
        assert(vstd::utf8::encode_utf8(a + b) =~= vstd::utf8::encode_utf8(a)
            + vstd::utf8::encode_utf8(b));
    } else {
        assert((a + b).drop_first() =~= a.drop_first() + b);
        assert((a + b)[0] == a[0]);
        lemma_encode_utf8_add(a.drop_first(), b);
        assert(vstd::utf8::encode_utf8(a + b) =~= vstd::utf8::encode_utf8(a)
            + vstd::utf8::encode_utf8(b));
    }
}

} // verus!
