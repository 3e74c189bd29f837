//! Packed `0xRRGGBBAA` colors: their channel bytes and their text form.

use vstd::prelude::*;

verus! {

/// The uppercase hexadecimal digit of `d`, for `d < 16`.
pub open spec fn hex_digit(d: nat) -> char {
    if d < 10 {
        (('0' as nat) + d) as char
    } else {
        (('A' as nat) + (d - 10)) as char
    }
}

/// The uppercase hexadecimal digits of `n`, without leading zeros (`0` is
/// written as a single `0`).
pub open spec fn hex_digits(n: nat) -> Seq<char>
    decreases n,
{
    if n < 16 {
        seq![hex_digit(n)]
    } else {
        hex_digits(n / 16).push(hex_digit(n % 16))
    }
}

/// `0x` followed by the uppercase hexadecimal digits of `hex`: what
/// `format!("{:#X}", hex)` writes.
pub open spec fn hex_text(hex: u32) -> Seq<char> {
    seq!['0', 'x'] + hex_digits(hex as nat)
}

/// Calls `String::push`, which appends one character.
#[verifier::external_body]
fn string_push(s: &mut String, c: char)
    ensures
        final(s)@ == old(s)@.push(c),
{
    s.push(c)
}

fn hex_digit_char(d: u32) -> (c: char)
    requires
        d < 16,
    ensures
        c == hex_digit(d as nat),
{
    let ghost dn = d as nat;
    if d < 10 {
        proof {
            assert(('0' as nat) + dn < 0xD800);
        }
        let code: u8 = 48 + d as u8;
        code as char
    } else {
        let code: u8 = 55 + d as u8;
        code as char
    }
}

/// Converts a hexadecimal value to string: `0x` and its uppercase digits.
pub fn hex_to_string(hex: u32) -> (s: String)
    ensures
        s@ == hex_text(hex),
{
    let mut rest: u32 = hex;
    let mut rev: Vec<char> = Vec::new();
    loop
        invariant_except_break
            hex_digits(hex as nat) == hex_digits(rest as nat) + rev@.reverse(),
        ensures
            hex_digits(hex as nat) == rev@.reverse(),
        decreases rest,
    {
        let ghost before = rev@;
        let c = hex_digit_char(rest % 16);
        rev.push(c);
        if rest < 16 {
            assert(rest % 16 == rest);
            assert(hex_digits(rest as nat) == seq![c]);
            assert(rev@.reverse() =~= seq![c] + before.reverse());
            break;
        }
        assert(hex_digits(rest as nat) == hex_digits((rest / 16) as nat).push(c));
        assert(hex_digits((rest / 16) as nat) + rev@.reverse() =~= hex_digits((rest / 16) as nat)
            .push(c) + before.reverse());
        rest = rest / 16;
    }
    assert(hex_digits(hex as nat) == rev@.reverse());
    let mut s = String::new();
    string_push(&mut s, '0');
    string_push(&mut s, 'x');
    let n = rev.len();
    let mut i: usize = n;
    while i > 0
        invariant
            i <= n,
            n == rev@.len(),
            s@ == seq!['0', 'x'] + rev@.reverse().subrange(0, (n - i) as int),
        decreases i,
    {
        i = i - 1;
        let ghost prev = s@;
        string_push(&mut s, rev[i]);
        assert(rev@.reverse().subrange(0, (n - i) as int) =~= rev@.reverse().subrange(
            0,
            (n - i - 1) as int,
        ).push(rev@[i as int]));
    }
    assert(rev@.reverse().subrange(0, n as int) =~= rev@.reverse());
    s
}


/// The lowercase hexadecimal digit of `d`, for `d < 16`.
pub open spec fn lower_hex_digit(d: nat) -> char {
    if d < 10 {
        (('0' as nat) + d) as char
    } else {
        (('a' as nat) + (d - 10)) as char
    }
}

/// Hexadecimal digit `k` of `hex` counted from the most significant of its
/// eight, `k < 8`.
pub open spec fn nibble(hex: u32, k: int) -> nat {
    ((hex >> ((28 - 4 * k) as u32)) & 0xFu32) as nat
}

/// `#` followed by the eight lowercase hexadecimal digits of a packed
/// `0xRRGGBBAA` color, leading zeros kept: `0x000000ff` gives `#000000ff`.
pub open spec fn rgba_text(hex: u32) -> Seq<char> {
    seq!['#'] + Seq::new(8, |k: int| lower_hex_digit(nibble(hex, k)))
}

fn lower_hex_digit_char(d: u32) -> (c: char)
    requires
        d < 16,
    ensures
        c == lower_hex_digit(d as nat),
{
    if d < 10 {
        let code: u8 = 48 + d as u8;
        code as char
    } else {
        let code: u8 = 87 + d as u8;
        code as char
    }
}

/// The text of a packed `0xRRGGBBAA` color as `#rrggbbaa`: a `#` and its
/// eight hexadecimal digits, lowercase, leading zeros kept.
pub fn hex_to_rgba_string(hex: u32) -> (s: String)
    ensures
        s@ == rgba_text(hex),
{
    let mut s = String::new();
    string_push(&mut s, '#');
    let mut i: u32 = 0;
    while i < 8
        invariant
            i <= 8,
            s@ == seq!['#'] + Seq::new(i as nat, |k: int| lower_hex_digit(nibble(hex, k))),
        decreases 8 - i,
    {
        let shift: u32 = 28 - 4 * i;
        let d = (hex >> shift) & 0xFu32;
        assert(d < 16) by (bit_vector)
            requires
                d == (hex >> shift) & 0xFu32,
        ;
        let c = lower_hex_digit_char(d);
        let ghost before = s@;
        string_push(&mut s, c);
        assert(d as nat == nibble(hex, i as int));
        i = i + 1;
        assert(s@ =~= seq!['#'] + Seq::new(i as nat, |k: int| lower_hex_digit(nibble(hex, k))));
    }
    s
}

/// Whether `c` is a lowercase hexadecimal digit.
pub open spec fn is_lower_hex_digit(c: char) -> bool {
    ('0' <= c && c <= '9') || ('a' <= c && c <= 'f')
}

/// The value of a lowercase hexadecimal digit.
pub open spec fn lower_hex_digit_value(c: char) -> nat {
    if '0' <= c && c <= '9' {
        (c as nat - '0' as nat) as nat
    } else {
        (c as nat - 'a' as nat + 10) as nat
    }
}

/// The value of a sequence of lowercase hexadecimal digits, most
/// significant first.
pub open spec fn lower_hex_value(digits: Seq<char>) -> nat
    decreases digits.len(),
{
    if digits.len() == 0 {
        0
    } else {
        lower_hex_value(digits.drop_last()) * 16 + lower_hex_digit_value(digits.last())
    }
}

/// The text of `hex_to_rgba_string` is `#` followed by exactly eight
/// lowercase hexadecimal digits, and those digits read back as the color:
/// the first two are the red byte, and so on down to the alpha byte.
pub proof fn law_rgba_text_parses_back(hex: u32)
    ensures
        rgba_text(hex).len() == 9,
        rgba_text(hex)[0] == '#',
        forall|i: int| 1 <= i < 9 ==> is_lower_hex_digit(#[trigger] rgba_text(hex)[i]),
        lower_hex_value(rgba_text(hex).subrange(1, 9)) == hex,
{
    let t = rgba_text(hex);
    let d = t.subrange(1, 9);
    let n0 = (hex >> 28u32) & 0xFu32;
    let n1 = (hex >> 24u32) & 0xFu32;
    let n2 = (hex >> 20u32) & 0xFu32;
    let n3 = (hex >> 16u32) & 0xFu32;
    let n4 = (hex >> 12u32) & 0xFu32;
    let n5 = (hex >> 8u32) & 0xFu32;
    let n6 = (hex >> 4u32) & 0xFu32;
    let n7 = (hex >> 0u32) & 0xFu32;
    assert(n0 < 16 && n1 < 16 && n2 < 16 && n3 < 16 && n4 < 16 && n5 < 16 && n6 < 16 && n7 < 16)
        by (bit_vector)
        requires
            n0 == (hex >> 28u32) & 0xFu32,
            n1 == (hex >> 24u32) & 0xFu32,
            n2 == (hex >> 20u32) & 0xFu32,
            n3 == (hex >> 16u32) & 0xFu32,
            n4 == (hex >> 12u32) & 0xFu32,
            n5 == (hex >> 8u32) & 0xFu32,
            n6 == (hex >> 4u32) & 0xFu32,
            n7 == (hex >> 0u32) & 0xFu32,
    ;
    assert(hex as int == ((((((n0 as int * 16 + n1 as int) * 16 + n2 as int) * 16 + n3 as int) * 16
        + n4 as int) * 16 + n5 as int) * 16 + n6 as int) * 16 + n7 as int) by (bit_vector)
        requires
            n0 == (hex >> 28u32) & 0xFu32,
            n1 == (hex >> 24u32) & 0xFu32,
            n2 == (hex >> 20u32) & 0xFu32,
            n3 == (hex >> 16u32) & 0xFu32,
            n4 == (hex >> 12u32) & 0xFu32,
            n5 == (hex >> 8u32) & 0xFu32,
            n6 == (hex >> 4u32) & 0xFu32,
            n7 == (hex >> 0u32) & 0xFu32,
    ;
    assert(nibble(hex, 0) == n0);
    assert(nibble(hex, 1) == n1);
    assert(nibble(hex, 2) == n2);
    assert(nibble(hex, 3) == n3);
    assert(nibble(hex, 4) == n4);
    assert(nibble(hex, 5) == n5);
    assert(nibble(hex, 6) == n6);
    assert(nibble(hex, 7) == n7);
    assert(d =~= seq![
        lower_hex_digit(n0 as nat),
        lower_hex_digit(n1 as nat),
        lower_hex_digit(n2 as nat),
        lower_hex_digit(n3 as nat),
        lower_hex_digit(n4 as nat),
        lower_hex_digit(n5 as nat),
        lower_hex_digit(n6 as nat),
        lower_hex_digit(n7 as nat),
    ]);
    assert forall|k: nat| k < 16 implies is_lower_hex_digit(#[trigger] lower_hex_digit(k))
        && lower_hex_digit_value(lower_hex_digit(k)) == k by {}
    assert forall|i: int| 1 <= i < 9 implies is_lower_hex_digit(#[trigger] rgba_text(hex)[i]) by {
        assert(rgba_text(hex)[i] == d[i - 1]);
    }
    assert(d.drop_last().drop_last().drop_last().drop_last().drop_last().drop_last().drop_last()
        .drop_last() =~= Seq::<char>::empty());
    reveal_with_fuel(lower_hex_value, 9);
}


/// Whether `c` is an uppercase hexadecimal digit.
pub open spec fn is_upper_hex_digit(c: char) -> bool {
    ('0' <= c && c <= '9') || ('A' <= c && c <= 'F')
}

/// The value of an uppercase hexadecimal digit.
pub open spec fn hex_digit_value(c: char) -> nat {
    if '0' <= c && c <= '9' {
        (c as nat - '0' as nat) as nat
    } else {
        (c as nat - 'A' as nat + 10) as nat
    }
}

/// The value of a sequence of hexadecimal digits, most significant first.
pub open spec fn hex_value(digits: Seq<char>) -> nat
    decreases digits.len(),
{
    if digits.len() == 0 {
        0
    } else {
        hex_value(digits.drop_last()) * 16 + hex_digit_value(digits.last())
    }
}

proof fn lemma_hex_digit(d: nat)
    requires
        d < 16,
    ensures
        is_upper_hex_digit(hex_digit(d)),
        hex_digit_value(hex_digit(d)) == d,
        (hex_digit(d) == '0') == (d == 0),
{
}

proof fn lemma_hex_digits(n: nat)
    ensures
        hex_digits(n).len() > 0,
        forall|i: int| 0 <= i < hex_digits(n).len() ==> is_upper_hex_digit(#[trigger] hex_digits(n)[i]),
        hex_value(hex_digits(n)) == n,
        (hex_digits(n)[0] == '0') == (n == 0),
    decreases n,
{
    if n < 16 {
        lemma_hex_digit(n);
        assert(seq![hex_digit(n)].drop_last() =~= Seq::<char>::empty());
        assert(hex_value(hex_digits(n)) == hex_value(Seq::<char>::empty()) * 16 + hex_digit_value(
            hex_digit(n),
        ));
    } else {
        lemma_hex_digits(n / 16);
        lemma_hex_digit(n % 16);
        let prev = hex_digits(n / 16);
        assert(hex_digits(n).drop_last() =~= prev);
        assert(hex_digits(n)[0] == prev[0]);
        assert(hex_digits(n).last() == hex_digit(n % 16));
        assert((n / 16) * 16 + n % 16 == n) by (nonlinear_arith);
        assert(hex_value(hex_digits(n)) == hex_value(prev) * 16 + hex_digit_value(hex_digit(n % 16)));
    }
}

/// The text of `hex_to_string` is `0x` followed by a non-empty run of
/// uppercase hexadecimal digits with no leading `0` (unless the value is
/// zero, written `0x0`), and those digits read back as the value.
pub proof fn law_hex_text_parses_back(hex: u32)
    ensures
        hex_text(hex).len() > 2,
        hex_text(hex)[0] == '0',
        hex_text(hex)[1] == 'x',
        forall|i: int| 2 <= i < hex_text(hex).len() ==> is_upper_hex_digit(#[trigger] hex_text(hex)[i]),
        (hex_text(hex)[2] == '0') == (hex == 0),
        hex_value(hex_text(hex).subrange(2, hex_text(hex).len() as int)) == hex,
{
    lemma_hex_digits(hex as nat);
    let digits = hex_digits(hex as nat);
    assert(hex_text(hex).subrange(2, hex_text(hex).len() as int) =~= digits);
    assert forall|i: int| 2 <= i < hex_text(hex).len() implies is_upper_hex_digit(
        #[trigger] hex_text(hex)[i],
    ) by {
        assert(hex_text(hex)[i] == digits[i - 2]);
    }
}

/// The red, green, blue and alpha bytes of a packed `0xRRGGBBAA` color.
pub open spec fn channels_of(hex: u32) -> [u32; 4] {
    [(hex >> 24u32) & 0xFFu32, (hex >> 16u32) & 0xFFu32, (hex >> 8u32) & 0xFFu32, hex & 0xFFu32]
}

/// The packed value of four channel values, each shifted to its byte: red
/// highest.  Written with the shifts and sums that build it.
pub open spec fn packed(r: u32, g: u32, b: u32, a: u32) -> int {
    (r << 24u32) as int + (g << 16u32) as int + (b << 8u32) as int + a as int
}

/// Splits a packed `0xRRGGBBAA` color into its red, green, blue and alpha
/// bytes (the integer part of converting it to RGBA components).
pub fn hex_to_channels(hex: u32) -> (r: [u32; 4])
    ensures
        r == channels_of(hex),
        r[0] <= 0xFF && r[1] <= 0xFF && r[2] <= 0xFF && r[3] <= 0xFF,
{
    let c = [(hex >> 24u32) & 0xFFu32, (hex >> 16u32) & 0xFFu32, (hex >> 8u32) & 0xFFu32, hex & 0xFFu32];
    assert((hex >> 24u32) & 0xFFu32 <= 0xFF && (hex >> 16u32) & 0xFFu32 <= 0xFF && (hex >> 8u32)
        & 0xFFu32 <= 0xFF && hex & 0xFFu32 <= 0xFF) by (bit_vector);
    c
}

/// Packs red, green, blue and alpha values into `0xRRGGBBAA` (the integer
/// part of converting RGBA components to hex).  Each value is shifted to its
/// byte and the results are added, so the sum must fit in a `u32`.
pub fn channels_to_hex(r: u32, g: u32, b: u32, a: u32) -> (hex: u32)
    requires
        packed(r, g, b, a) <= u32::MAX,
    ensures
        hex == packed(r, g, b, a),
{
    assert(a | 0u32 == a) by (bit_vector);
    (r << 24u32) + (g << 16u32) + (b << 8u32) + (a | 0u32)
}

/// Packing channel bytes and splitting the result gives the bytes back, and
/// splitting a color and packing its bytes gives the color back.
pub proof fn law_channels_round_trip(r: u32, g: u32, b: u32, a: u32, hex: u32)
    requires
        r <= 0xFF,
        g <= 0xFF,
        b <= 0xFF,
        a <= 0xFF,
    ensures
        packed(r, g, b, a) <= u32::MAX,
        channels_of(packed(r, g, b, a) as u32) == [r, g, b, a],
        packed(channels_of(hex)[0], channels_of(hex)[1], channels_of(hex)[2], channels_of(hex)[3])
            == hex,
{
    assert(((r << 24u32) as int + (g << 16u32) as int + (b << 8u32) as int + a as int)
        <= u32::MAX) by (bit_vector)
        requires
            r <= 0xFF,
            g <= 0xFF,
            b <= 0xFF,
            a <= 0xFF,
    ;
    let h: u32 = ((r << 24u32) as int + (g << 16u32) as int + (b << 8u32) as int + a as int) as u32;
    assert(h == (r << 24u32) + (g << 16u32) + (b << 8u32) + a);
    assert(((h >> 24u32) & 0xFFu32) == r && ((h >> 16u32) & 0xFFu32) == g && ((h >> 8u32) & 0xFFu32)
        == b && (h & 0xFFu32) == a) by (bit_vector)
        requires
            r <= 0xFF,
            g <= 0xFF,
            b <= 0xFF,
            a <= 0xFF,
            h == (r << 24u32) + (g << 16u32) + (b << 8u32) + a,
    ;
    assert(channels_of(h) =~= [r, g, b, a]);
    let c0 = (hex >> 24u32) & 0xFFu32;
    let c1 = (hex >> 16u32) & 0xFFu32;
    let c2 = (hex >> 8u32) & 0xFFu32;
    let c3 = hex & 0xFFu32;
    assert((c0 << 24u32) as int + (c1 << 16u32) as int + (c2 << 8u32) as int + c3 as int == hex)
        by (bit_vector)
        requires
            c0 == (hex >> 24u32) & 0xFFu32,
            c1 == (hex >> 16u32) & 0xFFu32,
            c2 == (hex >> 8u32) & 0xFFu32,
            c3 == hex & 0xFFu32,
    ;
}

} // verus!
