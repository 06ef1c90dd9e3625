//! Console text: numbers in the formats that the kernel prints, and the lines
//! made of them.
//!
//! Every writer appends to a `String`. The matching specification function
//! takes the text so far and gives the text afterwards.
use vstd::prelude::*;
use vstd::string::*;

verus! {

/// The digit `d` in lower case, for `d < 16`.
pub open spec fn digit_char(d: nat) -> char {
    "0123456789abcdef"@[d as int]
}

/// The digits of `v` in `base`, most significant first, without leading zeros.
pub open spec fn digits(v: nat, base: nat) -> Seq<char>
    decreases v,
{
    if base < 2 || v < base {
        seq![digit_char(v)]
    } else {
        proof {
            assert(v / base < v) by (nonlinear_arith)
                requires
                    v >= base,
                    base >= 2,
            ;
        }
        digits(v / base, base).push(digit_char(v % base))
    }
}

/// The decimal form of `v`.
pub open spec fn decimal(v: nat) -> Seq<char> {
    digits(v, 10)
}

/// `count` zero digits, none for a negative `count`.
pub open spec fn zeros(count: int) -> Seq<char> {
    Seq::new(
        if count > 0 {
            count as nat
        } else {
            0
        },
        |i: int| '0',
    )
}

/// The hexadecimal form of `v` with its `0x` prefix, filled with zeros behind
/// the prefix to at least `width` characters in all.
pub open spec fn hexadecimal(v: nat, width: nat) -> Seq<char> {
    "0x"@ + zeros(width - 2 - digits(v, 16).len()) + digits(v, 16)
}

/// `out` followed by `line` and a line feed.
pub open spec fn with_line(out: Seq<char>, line: Seq<char>) -> Seq<char> {
    out + line + "\n"@
}

/// `out` followed by a line of `label` and `value`.
pub open spec fn with_text_line(out: Seq<char>, label: Seq<char>, value: Seq<char>) -> Seq<char> {
    with_line(out + label, value)
}

/// `out` followed by a line of `label` and `v` in decimal.
pub open spec fn with_decimal_line(out: Seq<char>, label: Seq<char>, v: nat) -> Seq<char> {
    with_line(out + label, decimal(v))
}

/// `out` followed by a line of `label` and `v` in hexadecimal.
pub open spec fn with_hex_line(
    out: Seq<char>,
    label: Seq<char>,
    v: nat,
    width: nat,
) -> Seq<char> {
    with_line(out + label, hexadecimal(v, width))
}

/// Appends the digit `d`.
fn put_digit(out: &mut String, d: u64)
    requires
        d < 16,
    ensures
        final(out)@ == old(out)@.push(digit_char(d as nat)),
{
    let all: &str = "0123456789abcdef";
    proof {
        reveal_strlit("0123456789abcdef");
    }
    let at: usize = d as usize;
    out.append(all.substring_ascii(at, at + 1));
    assert(out@ =~= old(out)@.push(digit_char(d as nat)));
}

/// Appends the digits of `v` in `base`.
pub fn put_digits(out: &mut String, v: u64, base: u64)
    requires
        2 <= base <= 16,
    ensures
        final(out)@ == old(out)@ + digits(v as nat, base as nat),
    decreases v,
{
    if v < base {
        put_digit(out, v);
    } else {
        assert(v / base < v) by (nonlinear_arith)
            requires
                v >= base,
                base >= 2,
        ;
        put_digits(out, v / base, base);
        put_digit(out, v % base);
    }
    assert(out@ =~= old(out)@ + digits(v as nat, base as nat));
}

/// Appends `v` in hexadecimal with its prefix, filled with zeros to `width`.
pub fn put_hex(out: &mut String, v: u64, width: usize)
    ensures
        final(out)@ == old(out)@ + hexadecimal(v as nat, width as nat),
{
    let mut plain: String = String::new();
    put_digits(&mut plain, v, 16);
    assert(plain@ =~= digits(v as nat, 16));
    out.append("0x");
    let mut missing: usize = 0;
    let length: usize = plain.as_str().unicode_len();
    if width >= 2 && width - 2 > length {
        missing = width - 2 - length;
    }
    let mut done: usize = 0;
    while done < missing
        invariant
            done <= missing,
            out@ == old(out)@ + "0x"@ + zeros(done as int),
        decreases missing - done,
    {
        out.append("0");
        proof {
            reveal_strlit("0");
        }
        assert(zeros(done + 1) =~= zeros(done as int) + "0"@);
        assert(out@ =~= old(out)@ + "0x"@ + zeros(done + 1));
        done = done + 1;
    }
    assert(zeros(missing as int) =~= zeros(width - 2 - digits(v as nat, 16).len()));
    out.append(plain.as_str());
    assert(out@ =~= old(out)@ + hexadecimal(v as nat, width as nat));
}

/// Appends `line` and a line feed.
pub fn put_line(out: &mut String, line: &str)
    ensures
        final(out)@ == with_line(old(out)@, line@),
{
    out.append(line);
    out.append("\n");
}

/// Appends a line of `label` and `value`.
pub fn put_text_line(out: &mut String, label: &str, value: &str)
    ensures
        final(out)@ == with_text_line(old(out)@, label@, value@),
{
    out.append(label);
    put_line(out, value);
}

/// Appends a line of `label` and `v` in decimal.
pub fn put_decimal_line(out: &mut String, label: &str, v: u64)
    ensures
        final(out)@ == with_decimal_line(old(out)@, label@, v as nat),
{
    out.append(label);
    put_digits(out, v, 10);
    out.append("\n");
}

/// Appends a line of `label` and `v` in hexadecimal.
pub fn put_hex_line(out: &mut String, label: &str, v: u64, width: usize)
    ensures
        final(out)@ == with_hex_line(old(out)@, label@, v as nat, width as nat),
{
    out.append(label);
    put_hex(out, v, width);
    out.append("\n");
}

} // verus!
