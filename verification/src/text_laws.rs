//! What the texts say: numbers that can be read back, and lines that hold what
//! was put in them.
use crate::text;
use vstd::prelude::*;
use vstd::string::*;

verus! {

/// The value of the digit `c`.
pub open spec fn digit_value(c: char) -> int {
    if '0' <= c && c <= '9' {
        c as int - '0' as int
    } else {
        c as int - 'a' as int + 10
    }
}

/// `c` is a digit of `base`, in lower case where it is a letter.
pub open spec fn is_digit(c: char, base: int) -> bool {
    (('0' <= c && c <= '9') || ('a' <= c && c <= 'f')) && digit_value(c) < base
}

/// The number that `digits` writes in `base`, most significant digit first.
pub open spec fn number_of(digits: Seq<char>, base: int) -> int
    decreases digits.len(),
{
    if digits.len() == 0 {
        0
    } else {
        number_of(digits.drop_last(), base) * base + digit_value(digits.last())
    }
}

/// `digits` writes `v` in `base`: it reads back as `v`, and begins with a zero
/// only where it is that zero alone.
pub open spec fn writes(digits: Seq<char>, v: int, base: int) -> bool {
    &&& digits.len() > 0
    &&& forall|i: int| 0 <= i < digits.len() ==> is_digit(#[trigger] digits[i], base)
    &&& number_of(digits, base) == v
    &&& digits.len() > 1 ==> digits[0] != '0'
}

/// The sixteen digits are the decimal ones and the letters from `a` to `f`.
pub proof fn law_digits_are_in_order(d: nat)
    requires
        d < 16,
    ensures
        is_digit(text::digit_char(d), 16),
        digit_value(text::digit_char(d)) == d,
{
    reveal_strlit("0123456789abcdef");
}

/// The digits of a number read back as that number, without leading zeros.
pub proof fn law_digits_read_back(v: nat, base: nat)
    requires
        2 <= base <= 16,
    ensures
        writes(text::digits(v, base), v as int, base as int),
        v > 0 ==> text::digits(v, base)[0] != '0',
    decreases v,
{
    let all = text::digits(v, base);
    reveal_with_fuel(number_of, 2);
    if v < base {
        law_digits_are_in_order(v);
        assert(all =~= seq![text::digit_char(v)]);
        assert(all.drop_last() =~= Seq::<char>::empty());
    } else {
        assert(v / base < v && v / base > 0 && v == v / base * base + v % base) by (nonlinear_arith)
            requires
                v >= base,
                base >= 2,
        ;
        law_digits_read_back(v / base, base);
        law_digits_are_in_order(v % base);
        assert(all.drop_last() =~= text::digits(v / base, base));
        assert(all.last() == text::digit_char(v % base));
        assert forall|i: int| 0 <= i < all.len() implies is_digit(#[trigger] all[i], base as int) by {
            if i < all.len() - 1 {
                assert(all[i] == text::digits(v / base, base)[i]);
            }
        }
    }
}

/// The decimal form of a number reads back as that number.
pub proof fn law_decimal_reads_back(v: nat)
    ensures
        writes(text::decimal(v), v as int, 10),
{
    law_digits_read_back(v, 10);
}

/// Zeros before the digits of a number do not change it.
proof fn lemma_zeros_in_front(digits: Seq<char>, count: int, base: int)
    requires
        base >= 2,
    ensures
        number_of(text::zeros(count) + digits, base) == number_of(digits, base),
    decreases digits.len(), count,
{
    let whole = text::zeros(count) + digits;
    if digits.len() > 0 {
        assert(whole.drop_last() =~= text::zeros(count) + digits.drop_last());
        assert(whole.last() == digits.last());
        lemma_zeros_in_front(digits.drop_last(), count, base);
    } else if count > 0 {
        assert(whole.drop_last() =~= text::zeros(count - 1) + digits);
        assert(whole.last() == '0');
        lemma_zeros_in_front(digits, count - 1, base);
    } else {
        assert(whole =~= digits);
    }
}

/// The hexadecimal form of a number is `0x` and digits that read back as the
/// number. It is as wide as asked for, and wider only where the number needs it:
/// then it has no leading zero.
pub proof fn law_hexadecimal_reads_back(v: nat, width: nat)
    ensures
        ({
            let t = text::hexadecimal(v, width);
            &&& t.len() >= 3
            &&& t.len() >= width
            &&& t[0] == '0'
            &&& t[1] == 'x'
            &&& forall|i: int| 2 <= i < t.len() ==> is_digit(#[trigger] t[i], 16)
            &&& number_of(t.skip(2), 16) == v
            &&& t.len() > width && t.len() > 3 ==> t[2] != '0'
        }),
{
    reveal_strlit("0x");
    law_digits_read_back(v, 16);
    let plain = text::digits(v, 16);
    let fill = width - 2 - plain.len();
    let t = text::hexadecimal(v, width);
    assert(t.skip(2) =~= text::zeros(fill) + plain);
    lemma_zeros_in_front(plain, fill, 16);
    assert forall|i: int| 2 <= i < t.len() implies is_digit(#[trigger] t[i], 16) by {
        assert(t[i] == t.skip(2)[i - 2]);
        if i - 2 >= text::zeros(fill).len() {
            assert(t[i] == plain[i - 2 - text::zeros(fill).len()]);
        }
    }
    if t.len() > width && t.len() > 3 {
        assert(text::zeros(fill).len() == 0);
        assert(t[2] == plain[0]);
    }
}

/// A line is what was there before, then what was put in it, then a line feed.
pub proof fn law_line_holds_its_parts(out: Seq<char>, line: Seq<char>)
    ensures
        text::with_line(out, line).len() == out.len() + line.len() + 1,
        text::with_line(out, line).take(out.len() as int) == out,
        text::with_line(out, line).subrange(out.len() as int, (out.len() + line.len()) as int) == line,
        text::with_line(out, line).last() == '\n',
{
    reveal_strlit("\n");
    let t = text::with_line(out, line);
    assert(t.take(out.len() as int) =~= out);
    assert(t.subrange(out.len() as int, (out.len() + line.len()) as int) =~= line);
}

/// A labelled line is the label, the value and a line feed behind what was there
/// before. The value is the text itself, or a number in the form that reads back
/// as it.
pub proof fn law_labelled_line_holds_its_parts(
    out: Seq<char>,
    label: Seq<char>,
    value: Seq<char>,
    v: nat,
    width: nat,
)
    ensures
        text::with_text_line(out, label, value) == out + label + value + seq!['\n'],
        text::with_decimal_line(out, label, v) == out + label + text::decimal(v) + seq!['\n'],
        text::with_hex_line(out, label, v, width) == out + label + text::hexadecimal(v, width)
            + seq!['\n'],
{
    reveal_strlit("\n");
    assert("\n"@ =~= seq!['\n']);
}

} // verus!
