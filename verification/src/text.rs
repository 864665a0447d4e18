//! Rendering of integers as text: lower-case and upper-case hexadecimal and
//! signed decimal, each defined by a sequence of characters and produced by
//! appending to a `String`.

use vstd::prelude::*;
use vstd::string::StringExecFns;

verus! {

/// The lower-case hexadecimal digit for a value below sixteen.
pub open spec fn lower_hex_char(d: u8) -> char {
    match d {
        0 => '0',
        1 => '1',
        2 => '2',
        3 => '3',
        4 => '4',
        5 => '5',
        6 => '6',
        7 => '7',
        8 => '8',
        9 => '9',
        10 => 'a',
        11 => 'b',
        12 => 'c',
        13 => 'd',
        14 => 'e',
        _ => 'f',
    }
}

/// The upper-case hexadecimal digit for a value below sixteen.
pub open spec fn upper_hex_char(d: u8) -> char {
    match d {
        0 => '0',
        1 => '1',
        2 => '2',
        3 => '3',
        4 => '4',
        5 => '5',
        6 => '6',
        7 => '7',
        8 => '8',
        9 => '9',
        10 => 'A',
        11 => 'B',
        12 => 'C',
        13 => 'D',
        14 => 'E',
        _ => 'F',
    }
}

/// The decimal digit for a value below ten.
pub open spec fn decimal_char(d: u8) -> char {
    match d {
        0 => '0',
        1 => '1',
        2 => '2',
        3 => '3',
        4 => '4',
        5 => '5',
        6 => '6',
        7 => '7',
        8 => '8',
        _ => '9',
    }
}

/// `n` in lower-case hexadecimal, most significant digit first, with no
/// leading zero (zero itself is one digit).
pub open spec fn lower_hex(n: nat) -> Seq<char>
    decreases n,
{
    if n < 16 {
        seq![lower_hex_char(n as u8)]
    } else {
        lower_hex(n / 16).push(lower_hex_char((n % 16) as u8))
    }
}

/// `n` in decimal, most significant digit first, with no leading zero.
pub open spec fn decimal(n: nat) -> Seq<char>
    decreases n,
{
    if n < 10 {
        seq![decimal_char(n as u8)]
    } else {
        decimal(n / 10).push(decimal_char((n % 10) as u8))
    }
}

/// `v` in decimal with a leading minus sign where it is negative.
pub open spec fn signed_decimal(v: int) -> Seq<char> {
    if v < 0 {
        seq!['-'] + decimal((-v) as nat)
    } else {
        decimal(v as nat)
    }
}

/// One byte as two upper-case hexadecimal digits.
pub open spec fn upper_hex_byte(b: u8) -> Seq<char> {
    seq![upper_hex_char(b / 16), upper_hex_char(b % 16)]
}

/// Every byte of `bytes` as two upper-case hexadecimal digits, in order.
pub open spec fn upper_hex_bytes(bytes: Seq<u8>) -> Seq<char> {
    Seq::new(
        2 * bytes.len(),
        |k: int|
            if k % 2 == 0 {
                upper_hex_char(bytes[k / 2] / 16)
            } else {
                upper_hex_char(bytes[k / 2] % 16)
            },
    )
}

/// Appends the lower-case hexadecimal digit of `d`.
pub fn push_lower_hex_digit(out: &mut String, d: u8)
    requires
        d < 16,
    ensures
        final(out)@ == old(out)@.push(lower_hex_char(d)),
{
    match d {
        0 => {
            proof {
                reveal_strlit("0");
            }
            out.append("0");
        },
        1 => {
            proof {
                reveal_strlit("1");
            }
            out.append("1");
        },
        2 => {
            proof {
                reveal_strlit("2");
            }
            out.append("2");
        },
        3 => {
            proof {
                reveal_strlit("3");
            }
            out.append("3");
        },
        4 => {
            proof {
                reveal_strlit("4");
            }
            out.append("4");
        },
        5 => {
            proof {
                reveal_strlit("5");
            }
            out.append("5");
        },
        6 => {
            proof {
                reveal_strlit("6");
            }
            out.append("6");
        },
        7 => {
            proof {
                reveal_strlit("7");
            }
            out.append("7");
        },
        8 => {
            proof {
                reveal_strlit("8");
            }
            out.append("8");
        },
        9 => {
            proof {
                reveal_strlit("9");
            }
            out.append("9");
        },
        10 => {
            proof {
                reveal_strlit("a");
            }
            out.append("a");
        },
        11 => {
            proof {
                reveal_strlit("b");
            }
            out.append("b");
        },
        12 => {
            proof {
                reveal_strlit("c");
            }
            out.append("c");
        },
        13 => {
            proof {
                reveal_strlit("d");
            }
            out.append("d");
        },
        14 => {
            proof {
                reveal_strlit("e");
            }
            out.append("e");
        },
        _ => {
            proof {
                reveal_strlit("f");
            }
            out.append("f");
        },
    }
}

/// Appends the upper-case hexadecimal digit of `d`.
pub fn push_upper_hex_digit(out: &mut String, d: u8)
    requires
        d < 16,
    ensures
        final(out)@ == old(out)@.push(upper_hex_char(d)),
{
    match d {
        0 => {
            proof {
                reveal_strlit("0");
            }
            out.append("0");
        },
        1 => {
            proof {
                reveal_strlit("1");
            }
            out.append("1");
        },
        2 => {
            proof {
                reveal_strlit("2");
            }
            out.append("2");
        },
        3 => {
            proof {
                reveal_strlit("3");
            }
            out.append("3");
        },
        4 => {
            proof {
                reveal_strlit("4");
            }
            out.append("4");
        },
        5 => {
            proof {
                reveal_strlit("5");
            }
            out.append("5");
        },
        6 => {
            proof {
                reveal_strlit("6");
            }
            out.append("6");
        },
        7 => {
            proof {
                reveal_strlit("7");
            }
            out.append("7");
        },
        8 => {
            proof {
                reveal_strlit("8");
            }
            out.append("8");
        },
        9 => {
            proof {
                reveal_strlit("9");
            }
            out.append("9");
        },
        10 => {
            proof {
                reveal_strlit("A");
            }
            out.append("A");
        },
        11 => {
            proof {
                reveal_strlit("B");
            }
            out.append("B");
        },
        12 => {
            proof {
                reveal_strlit("C");
            }
            out.append("C");
        },
        13 => {
            proof {
                reveal_strlit("D");
            }
            out.append("D");
        },
        14 => {
            proof {
                reveal_strlit("E");
            }
            out.append("E");
        },
        _ => {
            proof {
                reveal_strlit("F");
            }
            out.append("F");
        },
    }
}

/// Appends the decimal digit of `d`.
pub fn push_decimal_digit(out: &mut String, d: u8)
    requires
        d < 10,
    ensures
        final(out)@ == old(out)@.push(decimal_char(d)),
{
    match d {
        0 => {
            proof {
                reveal_strlit("0");
            }
            out.append("0");
        },
        1 => {
            proof {
                reveal_strlit("1");
            }
            out.append("1");
        },
        2 => {
            proof {
                reveal_strlit("2");
            }
            out.append("2");
        },
        3 => {
            proof {
                reveal_strlit("3");
            }
            out.append("3");
        },
        4 => {
            proof {
                reveal_strlit("4");
            }
            out.append("4");
        },
        5 => {
            proof {
                reveal_strlit("5");
            }
            out.append("5");
        },
        6 => {
            proof {
                reveal_strlit("6");
            }
            out.append("6");
        },
        7 => {
            proof {
                reveal_strlit("7");
            }
            out.append("7");
        },
        8 => {
            proof {
                reveal_strlit("8");
            }
            out.append("8");
        },
        _ => {
            proof {
                reveal_strlit("9");
            }
            out.append("9");
        },
    }
}

/// Appends `n` in lower-case hexadecimal.
pub fn push_lower_hex(out: &mut String, n: u32)
    ensures
        final(out)@ == old(out)@ + lower_hex(n as nat),
    decreases n,
{
    if n >= 16 {
        push_lower_hex(out, n / 16);
    }
    push_lower_hex_digit(out, (n % 16) as u8);
    assert(final(out)@ =~= old(out)@ + lower_hex(n as nat));
}

/// Appends `n` in decimal.
pub fn push_decimal(out: &mut String, n: u32)
    ensures
        final(out)@ == old(out)@ + decimal(n as nat),
    decreases n,
{
    if n >= 10 {
        push_decimal(out, n / 10);
    }
    push_decimal_digit(out, (n % 10) as u8);
    assert(final(out)@ =~= old(out)@ + decimal(n as nat));
}

/// Appends `v` in decimal, with a minus sign first where it is negative.
pub fn push_signed_decimal(out: &mut String, v: i32)
    ensures
        final(out)@ == old(out)@ + signed_decimal(v as int),
{
    if v < 0 {
        proof {
            reveal_strlit("-");
        }
        out.append("-");
        let magnitude: i64 = -(v as i64);
        push_decimal(out, magnitude as u32);
        assert(final(out)@ =~= old(out)@ + signed_decimal(v as int));
    } else {
        push_decimal(out, v as u32);
    }
}

/// Appends one byte as two upper-case hexadecimal digits.
pub fn push_upper_hex_byte(out: &mut String, b: u8)
    ensures
        final(out)@ == old(out)@ + upper_hex_byte(b),
{
    push_upper_hex_digit(out, b / 16);
    push_upper_hex_digit(out, b % 16);
    assert(final(out)@ =~= old(out)@ + upper_hex_byte(b));
}

} // verus!
