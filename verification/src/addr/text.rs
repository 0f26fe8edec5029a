//! Reading the text of an address, and why only the text written for an
//! address is read as that address.

use vstd::prelude::*;
use vstd::string::*;

use crate::addr::{decimal, digit_char, hexadecimal, ip_text, AddrError, IpAddress};

verus! {

spec fn is_decimal_digit(c: char) -> bool {
    48 <= c as int <= 57
}

spec fn is_hex_digit(c: char) -> bool {
    48 <= c as int <= 57 || 97 <= c as int <= 102
}

spec fn digit_value(c: char) -> int {
    if c as int <= 57 {
        c as int - 48
    } else {
        c as int - 87
    }
}

/// A number read from a text, and where its digits end.
struct Field {
    value: int,
    end: int,
}

/// How many decimal digits stand at `start`, counted up to four.
spec fn decimal_run(t: Seq<char>, start: int) -> int {
    if !(start < t.len() && is_decimal_digit(t[start])) {
        0
    } else if !(start + 1 < t.len() && is_decimal_digit(t[start + 1])) {
        1
    } else if !(start + 2 < t.len() && is_decimal_digit(t[start + 2])) {
        2
    } else if !(start + 3 < t.len() && is_decimal_digit(t[start + 3])) {
        3
    } else {
        4
    }
}

/// How many hexadecimal digits stand at `start`, counted up to five.
spec fn hex_run(t: Seq<char>, start: int) -> int {
    if !(start < t.len() && is_hex_digit(t[start])) {
        0
    } else if !(start + 1 < t.len() && is_hex_digit(t[start + 1])) {
        1
    } else if !(start + 2 < t.len() && is_hex_digit(t[start + 2])) {
        2
    } else if !(start + 3 < t.len() && is_hex_digit(t[start + 3])) {
        3
    } else if !(start + 4 < t.len() && is_hex_digit(t[start + 4])) {
        4
    } else {
        5
    }
}

/// The number that the `count` digits at `start` denote in the radix given.
spec fn digits_value(t: Seq<char>, start: int, count: int, radix: int) -> int
    decreases count,
{
    if count <= 0 {
        0
    } else {
        digits_value(t, start, count - 1, radix) * radix + digit_value(t[start + count - 1])
    }
}

/// The octet written at `start` and where its text ends, if one is written
/// there: all the decimal digits that stand there, at most three, without a
/// leading zero, denoting at most 255.
#[verifier::opaque]
spec fn octet_at(t: Seq<char>, start: int) -> Option<Field> {
    let count = decimal_run(t, start);
    if count == 0 || count > 3 {
        None
    } else if count > 1 && t[start] == '0' {
        None
    } else if digits_value(t, start, count, 10) > 255 {
        None
    } else {
        Some(Field { value: digits_value(t, start, count, 10), end: start + count })
    }
}

/// The group written at `start` and where its text ends, if one is written
/// there: all the hexadecimal digits that stand there, at most four, without
/// a leading zero.
#[verifier::opaque]
spec fn group_at(t: Seq<char>, start: int) -> Option<Field> {
    let count = hex_run(t, start);
    if count == 0 || count > 4 {
        None
    } else if count > 1 && t[start] == '0' {
        None
    } else {
        Some(Field { value: digits_value(t, start, count, 16), end: start + count })
    }
}

proof fn lemma_digits_value(t: Seq<char>, start: int, radix: int)
    ensures
        digits_value(t, start, 1, radix) == digit_value(t[start]),
        digits_value(t, start, 2, radix) == digit_value(t[start]) * radix + digit_value(
            t[start + 1],
        ),
        digits_value(t, start, 3, radix) == (digit_value(t[start]) * radix + digit_value(
            t[start + 1],
        )) * radix + digit_value(t[start + 2]),
        digits_value(t, start, 4, radix) == ((digit_value(t[start]) * radix + digit_value(
            t[start + 1],
        )) * radix + digit_value(t[start + 2])) * radix + digit_value(t[start + 3]),
{
    reveal_with_fuel(digits_value, 5);
}

/// An octet that is read at `start` is written there, and what follows it is
/// no digit.
#[verifier::rlimit(40)]
proof fn lemma_octet_sound(t: Seq<char>, start: int)
    requires
        0 <= start,
        octet_at(t, start) is Some,
    ensures
        0 <= octet_at(t, start)->0.value <= 255,
        start < octet_at(t, start)->0.end <= t.len(),
        t.subrange(start, octet_at(t, start)->0.end) == decimal(octet_at(t, start)->0.value),
        octet_at(t, start)->0.end == t.len() || !is_decimal_digit(t[octet_at(t, start)->0.end]),
{
    reveal(octet_at);
    reveal(decimal);
    lemma_digits_value(t, start, 10);
    let field = octet_at(t, start)->0;
    assert(t.subrange(start, field.end) =~= decimal(field.value));
}

/// An octet that is written at `start`, with no digit after it, is read
/// there.
#[verifier::rlimit(40)]
proof fn lemma_octet_complete(t: Seq<char>, start: int, n: int)
    requires
        0 <= start,
        0 <= n <= 255,
        start + decimal(n).len() <= t.len(),
        t.subrange(start, start + decimal(n).len()) == decimal(n),
        start + decimal(n).len() == t.len() || !is_decimal_digit(t[start + decimal(n).len()]),
    ensures
        octet_at(t, start) == Some(Field { value: n, end: start + decimal(n).len() }),
{
    reveal(octet_at);
    reveal(decimal);
    lemma_digits_value(t, start, 10);
    let text = t.subrange(start, start + decimal(n).len());
    assert(text[0] == t[start]);
    if n >= 10 {
        assert(text[1] == t[start + 1]);
    }
    if n >= 100 {
        assert(text[2] == t[start + 2]);
    }
}

/// The digits of a number below 65536 in radix sixteen, from the number built
/// of them.
proof fn lemma_hex_parts(d3: int, d2: int, d1: int, d0: int)
    requires
        0 <= d3 < 16,
        0 <= d2 < 16,
        0 <= d1 < 16,
        0 <= d0 < 16,
    ensures
        ({
            let v = ((d3 * 16 + d2) * 16 + d1) * 16 + d0;
            &&& 0 <= v <= 0xffff
            &&& v >= d3 * 0x1000
            &&& v < (d3 + 1) * 0x1000
            &&& v / 0x1000 == d3
            &&& v / 0x100 == d3 * 16 + d2
            &&& v / 0x10 == (d3 * 16 + d2) * 16 + d1
            &&& v / 0x100 % 0x10 == d2
            &&& v / 0x10 % 0x10 == d1
            &&& v % 0x10 == d0
        }),
{
}

/// A number below 65536 is built of its digits in radix sixteen.
proof fn lemma_hex_split(n: int)
    requires
        0 <= n <= 0xffff,
    ensures
        n == (((n / 0x1000) * 16 + n / 0x100 % 0x10) * 16 + n / 0x10 % 0x10) * 16 + n % 0x10,
        0 <= n / 0x1000 < 16,
        n < 0x1000 ==> n / 0x1000 == 0 && n / 0x100 % 0x10 == n / 0x100,
        n < 0x100 ==> n / 0x100 == 0 && n / 0x10 % 0x10 == n / 0x10,
        n < 0x10 ==> n / 0x10 == 0,
        n >= 0x1000 ==> n / 0x1000 >= 1,
        n >= 0x100 ==> n / 0x100 >= 1,
        n >= 0x10 ==> n / 0x10 >= 1,
{
}

proof fn lemma_hex_digit(c: char)
    requires
        is_hex_digit(c),
    ensures
        0 <= digit_value(c) < 16,
        digit_char(digit_value(c)) == c,
        digit_value(c) == 0 <==> c == '0',
{
}

proof fn lemma_digit_char(d: int)
    requires
        0 <= d < 16,
    ensures
        is_hex_digit(digit_char(d)),
        digit_value(digit_char(d)) == d,
        d < 10 ==> is_decimal_digit(digit_char(d)),
        d == 0 <==> digit_char(d) == '0',
{
}

#[verifier::rlimit(40)]
proof fn lemma_group_sound(t: Seq<char>, start: int)
    requires
        0 <= start,
        group_at(t, start) is Some,
    ensures
        0 <= group_at(t, start)->0.value <= 0xffff,
        start < group_at(t, start)->0.end <= t.len(),
        t.subrange(start, group_at(t, start)->0.end) == hexadecimal(group_at(t, start)->0.value),
        group_at(t, start)->0.end == t.len() || !is_hex_digit(t[group_at(t, start)->0.end]),
{
    reveal(group_at);
    reveal(hexadecimal);
    lemma_digits_value(t, start, 16);
    let field = group_at(t, start)->0;
    let count = hex_run(t, start);
    let v = field.value;
    let text = t.subrange(start, field.end);
    assert(text.len() == count);
    lemma_hex_digit(t[start]);
    let a = digit_value(t[start]);
    if count == 1 {
        lemma_hex_parts(0, 0, 0, a);
        assert(text =~= hexadecimal(v));
    } else {
        lemma_hex_digit(t[start + 1]);
        let b = digit_value(t[start + 1]);
        if count == 2 {
            lemma_hex_parts(0, 0, a, b);
            assert(v == a * 16 + b);
            assert(text =~= hexadecimal(v));
        } else {
            lemma_hex_digit(t[start + 2]);
            let c = digit_value(t[start + 2]);
            if count == 3 {
                lemma_hex_parts(0, a, b, c);
                assert(v == (a * 16 + b) * 16 + c);
                assert(text =~= hexadecimal(v));
            } else {
                lemma_hex_digit(t[start + 3]);
                let d = digit_value(t[start + 3]);
                lemma_hex_parts(a, b, c, d);
                assert(v == ((a * 16 + b) * 16 + c) * 16 + d);
                assert(text =~= hexadecimal(v));
            }
        }
    }
}

#[verifier::rlimit(40)]
proof fn lemma_group_complete(t: Seq<char>, start: int, n: int)
    requires
        0 <= start,
        0 <= n <= 0xffff,
        start + hexadecimal(n).len() <= t.len(),
        t.subrange(start, start + hexadecimal(n).len()) == hexadecimal(n),
        start + hexadecimal(n).len() == t.len() || !is_hex_digit(t[start + hexadecimal(n).len()]),
    ensures
        group_at(t, start) == Some(Field { value: n, end: start + hexadecimal(n).len() }),
{
    reveal(group_at);
    reveal(hexadecimal);
    lemma_digits_value(t, start, 16);
    lemma_hex_split(n);
    let text = t.subrange(start, start + hexadecimal(n).len());
    assert(text[0] == t[start]);
    if n < 0x10 {
        lemma_digit_char(n);
    } else {
        assert(text[1] == t[start + 1]);
        if n < 0x100 {
            lemma_digit_char(n / 0x10);
            lemma_digit_char(n % 0x10);
        } else {
            assert(text[2] == t[start + 2]);
            if n < 0x1000 {
                lemma_digit_char(n / 0x100);
                lemma_digit_char(n / 0x10 % 0x10);
                lemma_digit_char(n % 0x10);
            } else {
                assert(text[3] == t[start + 3]);
                lemma_digit_char(n / 0x1000);
                lemma_digit_char(n / 0x100 % 0x10);
                lemma_digit_char(n / 0x10 % 0x10);
                lemma_digit_char(n % 0x10);
            }
        }
    }
}

/// Where the text goes on after the field `f` and the separator `sep`, if the
/// field was read and the separator follows it.
spec fn after(t: Seq<char>, f: Option<Field>, sep: char) -> Option<int> {
    match f {
        Some(f) => if f.end < t.len() && t[f.end] == sep {
            Some(f.end + 1)
        } else {
            None
        },
        None => None,
    }
}

spec fn octet_from(t: Seq<char>, start: Option<int>) -> Option<Field> {
    match start {
        Some(start) => octet_at(t, start),
        None => None,
    }
}

spec fn group_from(t: Seq<char>, start: Option<int>) -> Option<Field> {
    match start {
        Some(start) => group_at(t, start),
        None => None,
    }
}

/// The IPv4 address that the whole of `t` is the dotted quad of, if it is
/// one.
spec fn dotted_quad(t: Seq<char>) -> Option<IpAddress> {
    let a = octet_at(t, 0);
    let b = octet_from(t, after(t, a, '.'));
    let c = octet_from(t, after(t, b, '.'));
    let d = octet_from(t, after(t, c, '.'));
    match d {
        Some(last) => if last.end == t.len() {
            Some(
                IpAddress::V4(
                    a->0.value as u8,
                    b->0.value as u8,
                    c->0.value as u8,
                    last.value as u8,
                ),
            )
        } else {
            None
        },
        None => None,
    }
}

#[verifier::rlimit(40)]
proof fn lemma_dotted_quad_sound(t: Seq<char>)
    requires
        dotted_quad(t) is Some,
    ensures
        t == ip_text(dotted_quad(t)->0),
{
    let a = octet_at(t, 0)->0;
    lemma_octet_sound(t, 0);
    let b = octet_at(t, a.end + 1)->0;
    lemma_octet_sound(t, a.end + 1);
    let c = octet_at(t, b.end + 1)->0;
    lemma_octet_sound(t, b.end + 1);
    let d = octet_at(t, c.end + 1)->0;
    lemma_octet_sound(t, c.end + 1);
    assert(t =~= t.subrange(0, a.end) + seq!['.'] + t.subrange(a.end + 1, b.end) + seq!['.']
        + t.subrange(b.end + 1, c.end) + seq!['.'] + t.subrange(c.end + 1, d.end));
}

proof fn lemma_decimal_digits(n: int)
    requires
        0 <= n <= 255,
    ensures
        1 <= decimal(n).len() <= 3,
        forall|i: int| 0 <= i < decimal(n).len() ==> is_decimal_digit(#[trigger] decimal(n)[i]),
{
    reveal(decimal);
    lemma_digit_char(n % 10);
    lemma_digit_char(n / 10 % 10);
    lemma_digit_char(n / 100);
    if n < 100 {
        lemma_digit_char(n / 10);
    }
}

#[verifier::rlimit(40)]
proof fn lemma_dotted_quad_complete(a: u8, b: u8, c: u8, d: u8)
    ensures
        dotted_quad(ip_text(IpAddress::V4(a, b, c, d))) == Some(IpAddress::V4(a, b, c, d)),
{
    let t = ip_text(IpAddress::V4(a, b, c, d));
    let (ta, tb, tc, td) = (decimal(a as int), decimal(b as int), decimal(c as int), decimal(d as int));
    lemma_decimal_digits(a as int);
    lemma_decimal_digits(b as int);
    lemma_decimal_digits(c as int);
    lemma_decimal_digits(d as int);
    let pa = ta.len() as int;
    let pb = pa + 1 + tb.len();
    let pc = pb + 1 + tc.len();
    let pd = pc + 1 + td.len();
    assert(t.len() == pd);
    assert(t.subrange(0, pa) =~= ta);
    assert(t[pa] == '.');
    lemma_octet_complete(t, 0, a as int);
    assert(t.subrange(pa + 1, pb) =~= tb);
    assert(t[pb] == '.');
    lemma_octet_complete(t, pa + 1, b as int);
    assert(t.subrange(pb + 1, pc) =~= tc);
    assert(t[pc] == '.');
    lemma_octet_complete(t, pb + 1, c as int);
    assert(t.subrange(pc + 1, pd) =~= td);
    lemma_octet_complete(t, pc + 1, d as int);
}

/// The eight groups read from `t` after its opening bracket, the last one
/// last, as far as they could be read.
spec fn groups(t: Seq<char>) -> Seq<Option<Field>> {
    let g0 = group_at(t, 1);
    let g1 = group_from(t, after(t, g0, ':'));
    let g2 = group_from(t, after(t, g1, ':'));
    let g3 = group_from(t, after(t, g2, ':'));
    let g4 = group_from(t, after(t, g3, ':'));
    let g5 = group_from(t, after(t, g4, ':'));
    let g6 = group_from(t, after(t, g5, ':'));
    let g7 = group_from(t, after(t, g6, ':'));
    seq![g0, g1, g2, g3, g4, g5, g6, g7]
}

/// The IPv6 address that the whole of `t` is the bracketed text of, if it is
/// one.
spec fn bracketed(t: Seq<char>) -> Option<IpAddress> {
    let g = groups(t);
    if t.len() > 0 && t[0] == '[' && g[7] is Some && g[7]->0.end + 1 == t.len() && t[g[7]->0.end]
        == ']' {
        Some(
            IpAddress::V6(
                g[0]->0.value as u16,
                g[1]->0.value as u16,
                g[2]->0.value as u16,
                g[3]->0.value as u16,
                g[4]->0.value as u16,
                g[5]->0.value as u16,
                g[6]->0.value as u16,
                g[7]->0.value as u16,
            ),
        )
    } else {
        None
    }
}

/// The address that `t` is the text of, if it is the text of one.
spec fn parsed(t: Seq<char>) -> Option<IpAddress> {
    if t.len() > 0 && t[0] == '[' {
        bracketed(t)
    } else {
        dotted_quad(t)
    }
}

#[verifier::rlimit(40)]
proof fn lemma_bracketed_sound(t: Seq<char>)
    requires
        bracketed(t) is Some,
    ensures
        t == ip_text(bracketed(t)->0),
{
    let g0 = group_at(t, 1)->0;
    lemma_group_sound(t, 1);
    let g1 = group_at(t, g0.end + 1)->0;
    lemma_group_sound(t, g0.end + 1);
    let g2 = group_at(t, g1.end + 1)->0;
    lemma_group_sound(t, g1.end + 1);
    let g3 = group_at(t, g2.end + 1)->0;
    lemma_group_sound(t, g2.end + 1);
    let g4 = group_at(t, g3.end + 1)->0;
    lemma_group_sound(t, g3.end + 1);
    let g5 = group_at(t, g4.end + 1)->0;
    lemma_group_sound(t, g4.end + 1);
    let g6 = group_at(t, g5.end + 1)->0;
    lemma_group_sound(t, g5.end + 1);
    let g7 = group_at(t, g6.end + 1)->0;
    lemma_group_sound(t, g6.end + 1);
    let upto1 = seq!['['] + t.subrange(1, g0.end) + seq![':'];
    assert(t.subrange(0, g0.end + 1) =~= upto1);
    let upto2 = upto1 + t.subrange(g0.end + 1, g1.end) + seq![':'];
    assert(t.subrange(0, g1.end + 1) =~= upto2);
    let upto3 = upto2 + t.subrange(g1.end + 1, g2.end) + seq![':'];
    assert(t.subrange(0, g2.end + 1) =~= upto3);
    let upto4 = upto3 + t.subrange(g2.end + 1, g3.end) + seq![':'];
    assert(t.subrange(0, g3.end + 1) =~= upto4);
    let upto5 = upto4 + t.subrange(g3.end + 1, g4.end) + seq![':'];
    assert(t.subrange(0, g4.end + 1) =~= upto5);
    let upto6 = upto5 + t.subrange(g4.end + 1, g5.end) + seq![':'];
    assert(t.subrange(0, g5.end + 1) =~= upto6);
    let upto7 = upto6 + t.subrange(g5.end + 1, g6.end) + seq![':'];
    assert(t.subrange(0, g6.end + 1) =~= upto7);
    let upto8 = upto7 + t.subrange(g6.end + 1, g7.end) + seq![']'];
    assert(t =~= upto8);
}

proof fn lemma_hexadecimal_digits(n: int)
    requires
        0 <= n <= 0xffff,
    ensures
        1 <= hexadecimal(n).len() <= 4,
        forall|i: int| 0 <= i < hexadecimal(n).len() ==> is_hex_digit(#[trigger] hexadecimal(n)[i]),
{
    reveal(hexadecimal);
    lemma_hex_split(n);
    lemma_digit_char(n % 0x10);
    lemma_digit_char(n / 0x10 % 0x10);
    lemma_digit_char(n / 0x100 % 0x10);
    lemma_digit_char(n / 0x1000);
}

/// Whether `t` begins with `p`.
spec fn begins_with(t: Seq<char>, p: Seq<char>) -> bool {
    p.len() <= t.len() && t.subrange(0, p.len() as int) == p
}

/// One group of a text, followed by something that is no digit: the group
/// is read where it stands.
#[verifier::rlimit(40)]
proof fn lemma_next_group(t: Seq<char>, before: Seq<char>, n: u16, sep: char)
    requires
        begins_with(t, before + hexadecimal(n as int) + seq![sep]),
        !is_hex_digit(sep),
    ensures
        group_at(t, before.len() as int) == Some(
            Field { value: n as int, end: (before.len() + hexadecimal(n as int).len()) as int },
        ),
        t[(before.len() + hexadecimal(n as int).len()) as int] == sep,
        begins_with(t, before),
{
    let start = before.len() as int;
    let end = start + hexadecimal(n as int).len();
    let whole = before + hexadecimal(n as int) + seq![sep];
    let prefix = t.subrange(0, end + 1);
    assert(whole.len() == end + 1);
    assert(prefix[end] == sep);
    assert(t[end] == prefix[end]);
    assert(t.subrange(start, end) =~= hexadecimal(n as int)) by {
        assert forall|i: int| 0 <= i < end - start implies t.subrange(start, end)[i]
            == hexadecimal(n as int)[i] by {
            assert(t[start + i] == prefix[start + i]);
        }
    }
    assert(t.subrange(0, start) =~= before) by {
        assert forall|i: int| 0 <= i < start implies t.subrange(0, start)[i] == before[i] by {
            assert(t[i] == prefix[i]);
        }
    }
    lemma_group_complete(t, start, n as int);
}

/// Where the text of a group ends that begins at `start`.
spec fn end_of(start: int, g: u16) -> int {
    start + hexadecimal(g as int).len()
}

/// Where each group stands in the text of an IPv6 address, and that it is
/// read there.
#[verifier::rlimit(40)]
proof fn lemma_group_positions(
    g0: u16,
    g1: u16,
    g2: u16,
    g3: u16,
    g4: u16,
    g5: u16,
    g6: u16,
    g7: u16,
)
    ensures
        ({
            let t = ip_text(IpAddress::V6(g0, g1, g2, g3, g4, g5, g6, g7));
            let e0 = end_of(1, g0);
            let e1 = end_of(e0 + 1, g1);
            let e2 = end_of(e1 + 1, g2);
            let e3 = end_of(e2 + 1, g3);
            let e4 = end_of(e3 + 1, g4);
            let e5 = end_of(e4 + 1, g5);
            let e6 = end_of(e5 + 1, g6);
            let e7 = end_of(e6 + 1, g7);
            &&& t.len() == e7 + 1
            &&& t[0] == '['
            &&& group_at(t, 1) == Some(Field { value: g0 as int, end: e0 }) && t[e0] == ':'
            &&& group_at(t, e0 + 1) == Some(Field { value: g1 as int, end: e1 }) && t[e1] == ':'
            &&& group_at(t, e1 + 1) == Some(Field { value: g2 as int, end: e2 }) && t[e2] == ':'
            &&& group_at(t, e2 + 1) == Some(Field { value: g3 as int, end: e3 }) && t[e3] == ':'
            &&& group_at(t, e3 + 1) == Some(Field { value: g4 as int, end: e4 }) && t[e4] == ':'
            &&& group_at(t, e4 + 1) == Some(Field { value: g5 as int, end: e5 }) && t[e5] == ':'
            &&& group_at(t, e5 + 1) == Some(Field { value: g6 as int, end: e6 }) && t[e6] == ':'
            &&& group_at(t, e6 + 1) == Some(Field { value: g7 as int, end: e7 }) && t[e7] == ']'
        }),
{
    let t = ip_text(IpAddress::V6(g0, g1, g2, g3, g4, g5, g6, g7));
    let b0 = seq!['['];
    let b1 = b0 + hexadecimal(g0 as int) + seq![':'];
    let b2 = b1 + hexadecimal(g1 as int) + seq![':'];
    let b3 = b2 + hexadecimal(g2 as int) + seq![':'];
    let b4 = b3 + hexadecimal(g3 as int) + seq![':'];
    let b5 = b4 + hexadecimal(g4 as int) + seq![':'];
    let b6 = b5 + hexadecimal(g5 as int) + seq![':'];
    let b7 = b6 + hexadecimal(g6 as int) + seq![':'];
    let b8 = b7 + hexadecimal(g7 as int) + seq![']'];
    assert(t == b8);
    assert(t.subrange(0, t.len() as int) =~= t);
    assert(begins_with(t, b8));
    lemma_next_group(t, b7, g7, ']');
    lemma_next_group(t, b6, g6, ':');
    lemma_next_group(t, b5, g5, ':');
    lemma_next_group(t, b4, g4, ':');
    lemma_next_group(t, b3, g3, ':');
    lemma_next_group(t, b2, g2, ':');
    lemma_next_group(t, b1, g1, ':');
    lemma_next_group(t, b0, g0, ':');
    assert(b0.len() == 1);
    assert(b1.len() == end_of(1, g0) + 1);
    assert(b2.len() == end_of(b1.len() as int, g1) + 1);
    assert(b3.len() == end_of(b2.len() as int, g2) + 1);
    assert(b4.len() == end_of(b3.len() as int, g3) + 1);
    assert(b5.len() == end_of(b4.len() as int, g4) + 1);
    assert(b6.len() == end_of(b5.len() as int, g5) + 1);
    assert(b7.len() == end_of(b6.len() as int, g6) + 1);
    assert(b8.len() == end_of(b7.len() as int, g7) + 1);
    assert(t[0] == t.subrange(0, 1)[0]);
}

proof fn lemma_bracketed_complete(ip: IpAddress)
    requires
        ip is V6,
    ensures
        bracketed(ip_text(ip)) == Some(ip),
{
    match ip {
        IpAddress::V6(g0, g1, g2, g3, g4, g5, g6, g7) => {
            lemma_group_positions(g0, g1, g2, g3, g4, g5, g6, g7);
        },
        IpAddress::V4(..) => {},
    }
}

/// A text is read as an address exactly if it is the text of that address.
proof fn lemma_parsed(t: Seq<char>)
    ensures
        parsed(t) matches Some(ip) ==> t == ip_text(ip),
        forall|ip: IpAddress| t == #[trigger] ip_text(ip) ==> parsed(t) == Some(ip),
{
    if parsed(t) is Some {
        if t.len() > 0 && t[0] == '[' {
            lemma_bracketed_sound(t);
        } else {
            lemma_dotted_quad_sound(t);
        }
    }
    assert forall|ip: IpAddress| t == #[trigger] ip_text(ip) implies parsed(t) == Some(ip) by {
        match ip {
            IpAddress::V4(a, b, c, d) => {
                lemma_dotted_quad_complete(a, b, c, d);
                lemma_decimal_digits(a as int);
                assert(t[0] == decimal(a as int)[0]);
            },
            IpAddress::V6(..) => {
                lemma_bracketed_complete(ip);
                assert(t[0] == '[');
            },
        }
    }
}

/// Whether `bytes` are the characters of `t`, all of them ASCII.
spec fn spells(bytes: Seq<u8>, t: Seq<char>) -> bool {
    &&& bytes.len() == t.len()
    &&& forall|i: int| 0 <= i < t.len() ==> #[trigger] bytes[i] as int == t[i] as int
}

fn is_decimal_byte(b: u8) -> (r: bool)
    ensures
        r == (48 <= b <= 57),
{
    b >= 48 && b <= 57
}

fn is_hex_byte(b: u8) -> (r: bool)
    ensures
        r == (48 <= b <= 57 || 97 <= b <= 102),
{
    (b >= 48 && b <= 57) || (b >= 97 && b <= 102)
}

fn hex_byte_value(b: u8) -> (r: u16)
    requires
        48 <= b <= 57 || 97 <= b <= 102,
    ensures
        r == if b <= 57 {
            b - 48
        } else {
            b - 87
        },
{
    if b <= 57 {
        (b - 48) as u16
    } else {
        (b - 87) as u16
    }
}

/// Reads the octet written at `start`.
#[verifier::rlimit(40)]
fn parse_octet(bytes: &[u8], start: usize, Ghost(t): Ghost<Seq<char>>) -> (r: Option<(u8, usize)>)
    requires
        spells(bytes@, t),
        start <= bytes.len(),
    ensures
        match octet_at(t, start as int) {
            Some(f) => r == Some((f.value as u8, f.end as usize)) && 0 <= f.value <= 255 && start
                < f.end <= bytes.len(),
            None => r is None,
        },
{
    reveal(octet_at);
    proof {
        lemma_digits_value(t, start as int, 10);
    }
    let len = bytes.len();
    if start >= len || !is_decimal_byte(bytes[start]) {
        return None;
    }
    let first: u16 = (bytes[start] - 48) as u16;
    if start + 1 >= len || !is_decimal_byte(bytes[start + 1]) {
        return Some((first as u8, start + 1));
    }
    if first == 0 {
        return None;
    }
    let second: u16 = (bytes[start + 1] - 48) as u16;
    if start + 2 >= len || !is_decimal_byte(bytes[start + 2]) {
        return Some(((first * 10 + second) as u8, start + 2));
    }
    let third: u16 = (bytes[start + 2] - 48) as u16;
    if start + 3 < len && is_decimal_byte(bytes[start + 3]) {
        return None;
    }
    let value: u16 = (first * 10 + second) * 10 + third;
    if value > 255 {
        None
    } else {
        Some((value as u8, start + 3))
    }
}

/// Reads the group written at `start`.
#[verifier::rlimit(40)]
fn parse_group(bytes: &[u8], start: usize, Ghost(t): Ghost<Seq<char>>) -> (r: Option<(u16, usize)>)
    requires
        spells(bytes@, t),
        start <= bytes.len(),
    ensures
        match group_at(t, start as int) {
            Some(f) => r == Some((f.value as u16, f.end as usize)) && 0 <= f.value <= 0xffff
                && start < f.end <= bytes.len(),
            None => r is None,
        },
{
    reveal(group_at);
    proof {
        lemma_digits_value(t, start as int, 16);
    }
    let len = bytes.len();
    if start >= len || !is_hex_byte(bytes[start]) {
        return None;
    }
    let first = hex_byte_value(bytes[start]);
    if start + 1 >= len || !is_hex_byte(bytes[start + 1]) {
        return Some((first, start + 1));
    }
    if first == 0 {
        return None;
    }
    let second = hex_byte_value(bytes[start + 1]);
    if start + 2 >= len || !is_hex_byte(bytes[start + 2]) {
        return Some((first * 16 + second, start + 2));
    }
    let third = hex_byte_value(bytes[start + 2]);
    if start + 3 >= len || !is_hex_byte(bytes[start + 3]) {
        return Some(((first * 16 + second) * 16 + third, start + 3));
    }
    let fourth = hex_byte_value(bytes[start + 3]);
    if start + 4 < len && is_hex_byte(bytes[start + 4]) {
        return None;
    }
    proof {
        lemma_hex_parts(first as int, second as int, third as int, fourth as int);
    }
    Some((((first * 16 + second) * 16 + third) * 16 + fourth, start + 4))
}

/// Skips the separator `sep` at `at`, if it stands there.
fn skip(bytes: &[u8], at: usize, sep: u8, Ghost(t): Ghost<Seq<char>>) -> (r: Option<usize>)
    requires
        spells(bytes@, t),
        at <= bytes.len(),
        sep < 128,
    ensures
        r == if at < t.len() && t[at as int] as int == sep as int {
            Some((at + 1) as usize)
        } else {
            None
        },
        r matches Some(next) ==> next <= bytes.len(),
{
    if at < bytes.len() && bytes[at] == sep {
        Some(at + 1)
    } else {
        None
    }
}

/// Reads the whole of `bytes` as a dotted quad.
fn parse_dotted_quad(bytes: &[u8], Ghost(t): Ghost<Seq<char>>) -> (r: Option<IpAddress>)
    requires
        spells(bytes@, t),
    ensures
        r == dotted_quad(t),
{
    let (a, at) = match parse_octet(bytes, 0, Ghost(t)) {
        Some(field) => field,
        None => { return None; },
    };
    let at = match skip(bytes, at, 46, Ghost(t)) {
        Some(next) => next,
        None => { return None; },
    };
    let (b, at) = match parse_octet(bytes, at, Ghost(t)) {
        Some(field) => field,
        None => { return None; },
    };
    let at = match skip(bytes, at, 46, Ghost(t)) {
        Some(next) => next,
        None => { return None; },
    };
    let (c, at) = match parse_octet(bytes, at, Ghost(t)) {
        Some(field) => field,
        None => { return None; },
    };
    let at = match skip(bytes, at, 46, Ghost(t)) {
        Some(next) => next,
        None => { return None; },
    };
    let (d, at) = match parse_octet(bytes, at, Ghost(t)) {
        Some(field) => field,
        None => { return None; },
    };
    if at != bytes.len() {
        return None;
    }
    Some(IpAddress::V4(a, b, c, d))
}

/// Reads the group at `at` and the separator `sep` after it.
fn parse_group_then(bytes: &[u8], at: usize, sep: u8, Ghost(t): Ghost<Seq<char>>) -> (r: Option<
    (u16, usize),
>)
    requires
        spells(bytes@, t),
        at <= bytes.len(),
        sep < 128,
    ensures
        match group_at(t, at as int) {
            Some(f) => 0 <= f.value <= 0xffff && at < f.end <= bytes.len() && if f.end < t.len()
                && t[f.end] as int == sep as int {
                r == Some((f.value as u16, (f.end + 1) as usize))
            } else {
                r is None
            },
            None => r is None,
        },
{
    let (value, end) = match parse_group(bytes, at, Ghost(t)) {
        Some(field) => field,
        None => { return None; },
    };
    match skip(bytes, end, sep, Ghost(t)) {
        Some(next) => Some((value, next)),
        None => None,
    }
}

/// Reads the whole of `bytes` as a bracketed IPv6 address.
fn parse_bracketed(bytes: &[u8], Ghost(t): Ghost<Seq<char>>) -> (r: Option<IpAddress>)
    requires
        spells(bytes@, t),
    ensures
        r == bracketed(t),
{
    let at = match skip(bytes, 0, 91, Ghost(t)) {
        Some(next) => next,
        None => { return None; },
    };
    let (g0, at) = match parse_group_then(bytes, at, 58, Ghost(t)) {
        Some(field) => field,
        None => { return None; },
    };
    let (g1, at) = match parse_group_then(bytes, at, 58, Ghost(t)) {
        Some(field) => field,
        None => { return None; },
    };
    let (g2, at) = match parse_group_then(bytes, at, 58, Ghost(t)) {
        Some(field) => field,
        None => { return None; },
    };
    let (g3, at) = match parse_group_then(bytes, at, 58, Ghost(t)) {
        Some(field) => field,
        None => { return None; },
    };
    let (g4, at) = match parse_group_then(bytes, at, 58, Ghost(t)) {
        Some(field) => field,
        None => { return None; },
    };
    let (g5, at) = match parse_group_then(bytes, at, 58, Ghost(t)) {
        Some(field) => field,
        None => { return None; },
    };
    let (g6, at) = match parse_group_then(bytes, at, 58, Ghost(t)) {
        Some(field) => field,
        None => { return None; },
    };
    let (g7, at) = match parse_group_then(bytes, at, 93, Ghost(t)) {
        Some(field) => field,
        None => { return None; },
    };
    if at != bytes.len() {
        return None;
    }
    Some(IpAddress::V6(g0, g1, g2, g3, g4, g5, g6, g7))
}

/// The text of an address is ASCII.
proof fn lemma_ip_text_ascii(ip: IpAddress)
    ensures
        vstd::utf8::is_ascii_chars(ip_text(ip)),
{
    let t = ip_text(ip);
    lemma_parsed(t);
    if t.len() > 0 && t[0] == '[' {
        lemma_bracketed_ascii(t);
    } else {
        lemma_dotted_quad_ascii(t);
    }
}

proof fn lemma_dotted_quad_ascii(t: Seq<char>)
    requires
        dotted_quad(t) is Some,
    ensures
        vstd::utf8::is_ascii_chars(t),
{
    lemma_dotted_quad_sound(t);
    match dotted_quad(t)->0 {
        IpAddress::V4(a, b, c, d) => {
            lemma_decimal_digits(a as int);
            lemma_decimal_digits(b as int);
            lemma_decimal_digits(c as int);
            lemma_decimal_digits(d as int);
            lemma_digits_ascii(decimal(a as int));
            lemma_digits_ascii(decimal(b as int));
            lemma_digits_ascii(decimal(c as int));
            lemma_digits_ascii(decimal(d as int));
            lemma_ascii_push(decimal(a as int), '.');
            lemma_ascii_concat(decimal(a as int) + seq!['.'], decimal(b as int));
            lemma_ascii_push(decimal(a as int) + seq!['.'] + decimal(b as int), '.');
            lemma_ascii_concat(
                decimal(a as int) + seq!['.'] + decimal(b as int) + seq!['.'],
                decimal(c as int),
            );
            lemma_ascii_push(
                decimal(a as int) + seq!['.'] + decimal(b as int) + seq!['.'] + decimal(c as int),
                '.',
            );
            lemma_ascii_concat(
                decimal(a as int) + seq!['.'] + decimal(b as int) + seq!['.'] + decimal(c as int)
                    + seq!['.'],
                decimal(d as int),
            );
        },
        IpAddress::V6(..) => {},
    }
}

proof fn lemma_digits_ascii(digits: Seq<char>)
    requires
        forall|i: int| 0 <= i < digits.len() ==> is_hex_digit(#[trigger] digits[i]),
    ensures
        vstd::utf8::is_ascii_chars(digits),
{
}

proof fn lemma_ascii_concat(x: Seq<char>, y: Seq<char>)
    requires
        vstd::utf8::is_ascii_chars(x),
        vstd::utf8::is_ascii_chars(y),
    ensures
        vstd::utf8::is_ascii_chars(x + y),
{
}

proof fn lemma_ascii_push(x: Seq<char>, c: char)
    requires
        vstd::utf8::is_ascii_chars(x),
        c as int <= 127,
    ensures
        vstd::utf8::is_ascii_chars(x + seq![c]),
{
}

proof fn lemma_bracketed_ascii(t: Seq<char>)
    requires
        bracketed(t) is Some,
    ensures
        vstd::utf8::is_ascii_chars(t),
{
    lemma_bracketed_sound(t);
    match bracketed(t)->0 {
        IpAddress::V6(g0, g1, g2, g3, g4, g5, g6, g7) => {
            lemma_hexadecimal_digits(g0 as int);
            lemma_hexadecimal_digits(g1 as int);
            lemma_hexadecimal_digits(g2 as int);
            lemma_hexadecimal_digits(g3 as int);
            lemma_hexadecimal_digits(g4 as int);
            lemma_hexadecimal_digits(g5 as int);
            lemma_hexadecimal_digits(g6 as int);
            lemma_hexadecimal_digits(g7 as int);
            let b0 = seq!['['];
            lemma_ascii_group(b0, g0, ':');
            let b1 = b0 + hexadecimal(g0 as int) + seq![':'];
            lemma_ascii_group(b1, g1, ':');
            let b2 = b1 + hexadecimal(g1 as int) + seq![':'];
            lemma_ascii_group(b2, g2, ':');
            let b3 = b2 + hexadecimal(g2 as int) + seq![':'];
            lemma_ascii_group(b3, g3, ':');
            let b4 = b3 + hexadecimal(g3 as int) + seq![':'];
            lemma_ascii_group(b4, g4, ':');
            let b5 = b4 + hexadecimal(g4 as int) + seq![':'];
            lemma_ascii_group(b5, g5, ':');
            let b6 = b5 + hexadecimal(g5 as int) + seq![':'];
            lemma_ascii_group(b6, g6, ':');
            let b7 = b6 + hexadecimal(g6 as int) + seq![':'];
            lemma_ascii_group(b7, g7, ']');
        },
        IpAddress::V4(..) => {},
    }
}

proof fn lemma_ascii_group(before: Seq<char>, n: u16, sep: char)
    requires
        vstd::utf8::is_ascii_chars(before),
        sep as int <= 127,
    ensures
        vstd::utf8::is_ascii_chars(before + hexadecimal(n as int) + seq![sep]),
{
    lemma_hexadecimal_digits(n as int);
    lemma_digits_ascii(hexadecimal(n as int));
    lemma_ascii_concat(before, hexadecimal(n as int));
    lemma_ascii_push(before + hexadecimal(n as int), sep);
}

/// Reads an address from its text. Only the text that [`IpAddress::to_text`]
/// writes for an address is read as that address; any other text is
/// refused.
pub fn parse_ip(text: &str) -> (r: Result<IpAddress, AddrError>)
    ensures
        r matches Ok(ip) ==> text@ == ip_text(ip),
        forall|ip: IpAddress| text@ == #[trigger] ip_text(ip) ==> r == Ok::<IpAddress, AddrError>(ip),
        r matches Err(e) ==> e == AddrError::BadIp,
{
    broadcast use is_ascii_spec_bytes;

    proof {
        lemma_parsed(text@);
    }
    if !text.is_ascii() {
        proof {
            assert forall|ip: IpAddress| text@ == #[trigger] ip_text(ip) implies false by {
                lemma_ip_text_ascii(ip);
            }
        }
        return Err(AddrError::BadIp);
    }
    let bytes = text.as_bytes();
    assert(spells(bytes@, text@));
    let read = if bytes.len() > 0 && bytes[0] == 91 {
        parse_bracketed(bytes, Ghost(text@))
    } else {
        parse_dotted_quad(bytes, Ghost(text@))
    };
    assert(read == parsed(text@));
    match read {
        Some(ip) => Ok(ip),
        None => Err(AddrError::BadIp),
    }
}

/// The text of an address is the text of no other address.
pub proof fn lemma_ip_text_injective(a: IpAddress, b: IpAddress)
    requires
        ip_text(a) == ip_text(b),
    ensures
        a == b,
{
    lemma_parsed(ip_text(a));
}


} // verus!
