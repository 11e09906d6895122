use vstd::prelude::*;

verus! {

/// The character that shows one bit.
pub open spec fn bit_char(set: bool) -> char {
    if set { '1' } else { '0' }
}

/// The upper case hexadecimal digit of a value below sixteen.
pub open spec fn hex_char(d: u8) -> char {
    if d == 0 { '0' }
    else if d == 1 { '1' }
    else if d == 2 { '2' }
    else if d == 3 { '3' }
    else if d == 4 { '4' }
    else if d == 5 { '5' }
    else if d == 6 { '6' }
    else if d == 7 { '7' }
    else if d == 8 { '8' }
    else if d == 9 { '9' }
    else if d == 10 { 'A' }
    else if d == 11 { 'B' }
    else if d == 12 { 'C' }
    else if d == 13 { 'D' }
    else if d == 14 { 'E' }
    else { 'F' }
}

/// The eight bits of a byte, most significant first.
pub open spec fn u8_bit_chars(x: u8) -> Seq<char> {
    Seq::new(8, |k: int| bit_char((x >> ((7 - k) as u8)) & 1u8 == 1u8))
}

/// The sixteen bits of a word, most significant first.
pub open spec fn u16_bit_chars(x: u16) -> Seq<char> {
    Seq::new(16, |k: int| bit_char((x >> ((15 - k) as u16)) & 1u16 == 1u16))
}

/// The four hexadecimal digits of a word, most significant first.
pub open spec fn u16_hex_chars(x: u16) -> Seq<char> {
    Seq::new(4, |k: int| hex_char(((x >> ((4 * (3 - k)) as u16)) & 15u16) as u8))
}

/// Appends one bit character to `s`.
fn push_bit(s: &mut String, set: bool)
    ensures
        final(s)@ == old(s)@.push(bit_char(set)),
{
    if set {
        proof { reveal_strlit("1"); }
        s.append("1");
    } else {
        proof { reveal_strlit("0"); }
        s.append("0");
    }
}

/// Appends the hexadecimal digit of `d` to `s`.
fn push_hex_digit(s: &mut String, d: u8)
    requires
        d < 16,
    ensures
        final(s)@ == old(s)@.push(hex_char(d)),
{
    match d {
        0 => { proof { reveal_strlit("0"); } s.append("0"); }
        1 => { proof { reveal_strlit("1"); } s.append("1"); }
        2 => { proof { reveal_strlit("2"); } s.append("2"); }
        3 => { proof { reveal_strlit("3"); } s.append("3"); }
        4 => { proof { reveal_strlit("4"); } s.append("4"); }
        5 => { proof { reveal_strlit("5"); } s.append("5"); }
        6 => { proof { reveal_strlit("6"); } s.append("6"); }
        7 => { proof { reveal_strlit("7"); } s.append("7"); }
        8 => { proof { reveal_strlit("8"); } s.append("8"); }
        9 => { proof { reveal_strlit("9"); } s.append("9"); }
        10 => { proof { reveal_strlit("A"); } s.append("A"); }
        11 => { proof { reveal_strlit("B"); } s.append("B"); }
        12 => { proof { reveal_strlit("C"); } s.append("C"); }
        13 => { proof { reveal_strlit("D"); } s.append("D"); }
        14 => { proof { reveal_strlit("E"); } s.append("E"); }
        _ => { proof { reveal_strlit("F"); } s.append("F"); }
    }
}

/// Renders a byte as `0b` followed by its eight bits, most significant first.
pub fn u8_as_bit_string(x: u8) -> (s: String)
    ensures
        s@ == seq!['0', 'b'] + u8_bit_chars(x),
{
    proof { reveal_strlit("0b"); }
    let mut bits = "0b".to_owned();
    let mut i: u8 = 8;
    while i > 0
        invariant
            i <= 8,
            bits@ == seq!['0', 'b'] + u8_bit_chars(x).take(8 - i),
        decreases i,
    {
        i = i - 1;
        let bit = (x >> i) & 1 == 1;
        push_bit(&mut bits, bit);
        assert(u8_bit_chars(x).take(8 - i) =~= u8_bit_chars(x).take(8 - i - 1).push(bit_char(bit)));
    }
    assert(u8_bit_chars(x).take(8) =~= u8_bit_chars(x));
    bits
}

/// Renders a word as `0b` followed by its sixteen bits, most significant first.
pub fn u16_as_bit_string(x: u16) -> (s: String)
    ensures
        s@ == seq!['0', 'b'] + u16_bit_chars(x),
{
    proof { reveal_strlit("0b"); }
    let mut bits = "0b".to_owned();
    let mut i: u16 = 16;
    while i > 0
        invariant
            i <= 16,
            bits@ == seq!['0', 'b'] + u16_bit_chars(x).take(16 - i),
        decreases i,
    {
        i = i - 1;
        let bit = (x >> i) & 1 == 1;
        push_bit(&mut bits, bit);
        assert(u16_bit_chars(x).take(16 - i) =~= u16_bit_chars(x).take(16 - i - 1).push(bit_char(bit)));
    }
    assert(u16_bit_chars(x).take(16) =~= u16_bit_chars(x));
    bits
}

/// Renders a byte as `0x` followed by its two hexadecimal digits in upper case.
pub fn u8_as_hex_string(x: u8) -> (s: String)
    ensures
        s@ == seq!['0', 'x', hex_char(x >> 4u8), hex_char(x & 15u8)],
{
    proof { reveal_strlit("0x"); }
    let mut hex = "0x".to_owned();
    let upper = x >> 4;
    let lower = x & 15;
    assert(x >> 4u8 < 16) by (bit_vector);
    assert(x & 15u8 < 16) by (bit_vector);
    push_hex_digit(&mut hex, upper);
    push_hex_digit(&mut hex, lower);
    hex
}

/// Renders a word as `0x` followed by its four hexadecimal digits in upper case.
pub fn u16_as_hex_string(x: u16) -> (s: String)
    ensures
        s@ == seq!['0', 'x'] + u16_hex_chars(x),
{
    proof { reveal_strlit("0x"); }
    let mut hex = "0x".to_owned();
    let mut i: u16 = 4;
    while i > 0
        invariant
            i <= 4,
            hex@ == seq!['0', 'x'] + u16_hex_chars(x).take(4 - i),
        decreases i,
    {
        i = i - 1;
        let shifted = (x >> (i * 4)) & 15;
        assert(((x >> (i * 4)) & 15u16) < 16) by (bit_vector);
        push_hex_digit(&mut hex, shifted as u8);
        assert(u16_hex_chars(x).take(4 - i) =~= u16_hex_chars(x).take(4 - i - 1).push(hex_char(shifted as u8)));
    }
    assert(u16_hex_chars(x).take(4) =~= u16_hex_chars(x));
    hex
}


/// The decimal digits of `x`, most significant first, without leading zeros.
pub open spec fn decimal_chars(x: nat) -> Seq<char>
    decreases x,
{
    if x < 10 {
        seq![digit_char(x)]
    } else {
        decimal_chars(x / 10).push(digit_char(x % 10))
    }
}

/// The decimal digit of a value below ten.
pub open spec fn digit_char(d: nat) -> char {
    hex_char(d as u8)
}

/// The lower case hexadecimal digit of a value below sixteen.
pub open spec fn lower_hex_char(d: u8) -> char {
    if d < 10 {
        hex_char(d)
    } else if d == 10 { 'a' }
    else if d == 11 { 'b' }
    else if d == 12 { 'c' }
    else if d == 13 { 'd' }
    else if d == 14 { 'e' }
    else { 'f' }
}

/// `0x` followed by the lower case hexadecimal digits of `x` without leading zeros.
pub open spec fn lower_hex_chars(x: u8) -> Seq<char> {
    if x < 16 {
        seq!['0', 'x', lower_hex_char(x)]
    } else {
        seq!['0', 'x', lower_hex_char(x / 16), lower_hex_char(x % 16)]
    }
}

/// Appends the lower case hexadecimal digit of `d` to `s`.
fn push_lower_hex_digit(s: &mut String, d: u8)
    requires
        d < 16,
    ensures
        final(s)@ == old(s)@.push(lower_hex_char(d)),
{
    if d < 10 {
        push_hex_digit(s, d);
    } else {
        match d {
            10 => { proof { reveal_strlit("a"); } s.append("a"); }
            11 => { proof { reveal_strlit("b"); } s.append("b"); }
            12 => { proof { reveal_strlit("c"); } s.append("c"); }
            13 => { proof { reveal_strlit("d"); } s.append("d"); }
            14 => { proof { reveal_strlit("e"); } s.append("e"); }
            _ => { proof { reveal_strlit("f"); } s.append("f"); }
        }
    }
}

/// Renders a byte in decimal, as `u8::to_string` does.
pub fn u8_as_decimal_string(x: u8) -> (s: String)
    ensures
        s@ == decimal_chars(x as nat),
{
    let mut s = String::new();
    let ghost n = x as nat;
    if x >= 100 {
        push_hex_digit(&mut s, x / 100);
        push_hex_digit(&mut s, (x / 10) % 10);
        push_hex_digit(&mut s, x % 10);
        assert(decimal_chars(n / 100) == seq![digit_char(n / 100)]);
        assert(decimal_chars(n / 10) == decimal_chars((n / 10) / 10).push(digit_char((n / 10) % 10)));
        assert((n / 10) / 10 == n / 100);
        assert(decimal_chars(n) == decimal_chars(n / 10).push(digit_char(n % 10)));
    } else if x >= 10 {
        push_hex_digit(&mut s, x / 10);
        push_hex_digit(&mut s, x % 10);
        assert(decimal_chars(n / 10) == seq![digit_char(n / 10)]);
        assert(decimal_chars(n) == decimal_chars(n / 10).push(digit_char(n % 10)));
    } else {
        push_hex_digit(&mut s, x);
    }
    assert(s@ =~= decimal_chars(n));
    s
}

/// The decimal renderings of the bytes, one after the other with nothing between them.
pub open spec fn decimal_concat(bytes: Seq<u8>) -> Seq<char>
    decreases bytes.len(),
{
    if bytes.len() == 0 {
        Seq::empty()
    } else {
        decimal_concat(bytes.drop_last()) + decimal_chars(bytes.last() as nat)
    }
}

/// The decimal renderings of the bytes, one after the other with nothing between them.
pub fn bytes_as_decimal_string(bytes: &Vec<u8>) -> (s: String)
    ensures
        s@ == decimal_concat(bytes@),
{
    let mut s = String::new();
    let mut i: usize = 0;
    while i < bytes.len()
        invariant
            i <= bytes.len(),
            s@ == decimal_concat(bytes@.subrange(0, i as int)),
        decreases bytes.len() - i,
    {
        let digits = u8_as_decimal_string(bytes[i]);
        s.append(digits.as_str());
        assert(bytes@.subrange(0, i + 1).drop_last() =~= bytes@.subrange(0, i as int));
        i = i + 1;
    }
    assert(bytes@.subrange(0, bytes.len() as int) =~= bytes@);
    s
}

/// Renders a byte as `0x` followed by its lower case hexadecimal digits without leading zeros,
/// as the `{:#x}` format does.
pub fn u8_as_lower_hex_string(x: u8) -> (s: String)
    ensures
        s@ == lower_hex_chars(x),
{
    proof { reveal_strlit("0x"); }
    let mut s = "0x".to_owned();
    if x >= 16 {
        push_lower_hex_digit(&mut s, x / 16);
    }
    push_lower_hex_digit(&mut s, x % 16);
    assert(s@ =~= lower_hex_chars(x));
    s
}

/// `ToPrimitive::to_u16` of num-traits on a `u16`, which gives the value back unchanged.
#[verifier::external_body]
fn u16_to_u16(n: u16) -> (r: Option<u16>)
    ensures
        r == Some(n),
{
    num_traits::ToPrimitive::to_u16(&n)
}

/// `NumCast::from` of num-traits from a `u8` to a `u8`, which gives the value back unchanged.
#[verifier::external_body]
pub(crate) fn u8_from_u8(n: u8) -> (r: Option<u8>)
    ensures
        r == Some(n),
{
    <u8 as num_traits::NumCast>::from(n)
}

/// `ToPrimitive::to_u8` of num-traits on a `u8`, which gives the value back unchanged.
#[verifier::external_body]
pub(crate) fn u8_to_u8(n: u8) -> (r: Option<u8>)
    ensures
        r == Some(n),
{
    num_traits::ToPrimitive::to_u8(&n)
}

/// `ToPrimitive::to_usize` of num-traits on a `u16`, which gives the value back widened.
#[verifier::external_body]
pub(crate) fn u16_to_usize(n: u16) -> (r: Option<usize>)
    ensures
        r == Some(n as usize),
{
    num_traits::ToPrimitive::to_usize(&n)
}

/// `ToPrimitive::to_u16` of num-traits on a `u16` address, which gives it back unchanged.
pub(crate) fn address_to_u16(n: u16) -> (r: Option<u16>)
    ensures
        r == Some(n),
{
    u16_to_u16(n)
}

/// Splits a word into its high and its low byte.
pub fn u16_to_u8(n: u16) -> (r: Option<(u8, u8)>)
    ensures
        r == Some(((n / 256) as u8, (n % 256) as u8)),
{
    match u16_to_u16(n) {
        Some(n) => {
            let upper = (n / 256) as u8;
            let lower = (n % 256) as u8;
            Some((u8_from_u8(upper).unwrap(), u8_from_u8(lower).unwrap()))
        },
        None => None,
    }
}

} // verus!
