//! The debug rendering of a token's identifier: `0x` followed by the
//! full-width, zero-padded, uppercase hexadecimal digits.

use vstd::prelude::*;
use vstd::string::StringExecFns;

verus! {

/// The uppercase hexadecimal digit for a value below 16.
pub open spec fn hex_char(n: u64) -> char {
    if n == 0 {
        '0'
    } else if n == 1 {
        '1'
    } else if n == 2 {
        '2'
    } else if n == 3 {
        '3'
    } else if n == 4 {
        '4'
    } else if n == 5 {
        '5'
    } else if n == 6 {
        '6'
    } else if n == 7 {
        '7'
    } else if n == 8 {
        '8'
    } else if n == 9 {
        '9'
    } else if n == 10 {
        'A'
    } else if n == 11 {
        'B'
    } else if n == 12 {
        'C'
    } else if n == 13 {
        'D'
    } else if n == 14 {
        'E'
    } else {
        'F'
    }
}

/// The nibble of `v` at position `i`, counted from the most significant:
/// position 0 holds bits 63..60, position 15 bits 3..0.
pub open spec fn nibble(v: u64, i: int) -> u64 {
    (v >> ((60 - 4 * i) as u64)) & 0xf
}

/// The 16 hexadecimal digits of `v`, most significant first, zero-padded
/// to the full width of the type.
pub open spec fn hex_digits(v: u64) -> Seq<char> {
    Seq::new(16, |i: int| hex_char(nibble(v, i)))
}

/// The debug rendering of an identifier: `0x`, then its 16 digits.
pub open spec fn debug_chars(v: u64) -> Seq<char> {
    seq!['0', 'x'] + hex_digits(v)
}

/// A character that may appear after the `0x` prefix: one of `0`–`9` or
/// uppercase `A`–`F`.
pub open spec fn is_hex_digit_char(c: char) -> bool {
    exists|n: u64| n < 16 && c == hex_char(n)
}

/// The shape of the rendering: 18 characters, a `0x` prefix, then 16
/// digits drawn from `0`–`9` and uppercase `A`–`F`.
pub proof fn lemma_debug_chars_form(v: u64)
    ensures
        debug_chars(v).len() == 18,
        debug_chars(v)[0] == '0',
        debug_chars(v)[1] == 'x',
        forall|i: int| 2 <= i < 18 ==> is_hex_digit_char(#[trigger] debug_chars(v)[i]),
{
    assert forall|i: int| 2 <= i < 18 implies is_hex_digit_char(#[trigger] debug_chars(v)[i]) by {
        lemma_nibble_bound(v, i - 2);
        assert(debug_chars(v)[i] == hex_char(nibble(v, i - 2)));
    }
}

/// A nibble is always below 16, whatever the position.
pub proof fn lemma_nibble_bound(v: u64, i: int)
    ensures
        nibble(v, i) < 16,
{
    let sh = (60 - 4 * i) as u64;
    assert((v >> sh) & 0xf < 16) by (bit_vector);
}

/// Build the rendering of `v`: `0x`, then its 16 digits, most
/// significant first.
pub fn hex_string(v: u64) -> (s: String)
    ensures
        s@ == debug_chars(v),
{
    let mut s = String::new();
    s.append("0x");
    proof {
        reveal_strlit("0x");
        assert(s@ =~= seq!['0', 'x'] + hex_digits(v).take(0));
    }
    let mut i: u64 = 0;
    while i < 16
        invariant
            i <= 16,
            s@ == seq!['0', 'x'] + hex_digits(v).take(i as int),
        decreases 16 - i,
    {
        let sh: u64 = 60 - 4 * i;
        let nib: u64 = (v >> sh) & 0xf;
        proof {
            assert(nib == nibble(v, i as int));
            reveal_strlit("0");
            reveal_strlit("1");
            reveal_strlit("2");
            reveal_strlit("3");
            reveal_strlit("4");
            reveal_strlit("5");
            reveal_strlit("6");
            reveal_strlit("7");
            reveal_strlit("8");
            reveal_strlit("9");
            reveal_strlit("A");
            reveal_strlit("B");
            reveal_strlit("C");
            reveal_strlit("D");
            reveal_strlit("E");
            reveal_strlit("F");
        }
        let digit: &str = if nib == 0 {
            "0"
        } else if nib == 1 {
            "1"
        } else if nib == 2 {
            "2"
        } else if nib == 3 {
            "3"
        } else if nib == 4 {
            "4"
        } else if nib == 5 {
            "5"
        } else if nib == 6 {
            "6"
        } else if nib == 7 {
            "7"
        } else if nib == 8 {
            "8"
        } else if nib == 9 {
            "9"
        } else if nib == 10 {
            "A"
        } else if nib == 11 {
            "B"
        } else if nib == 12 {
            "C"
        } else if nib == 13 {
            "D"
        } else if nib == 14 {
            "E"
        } else {
            "F"
        };
        proof {
            assert(digit@ =~= seq![hex_char(nibble(v, i as int))]);
        }
        s.append(digit);
        proof {
            assert(s@ =~= seq!['0', 'x'] + hex_digits(v).take(i as int + 1));
        }
        i = i + 1;
    }
    proof {
        assert(hex_digits(v).take(16) =~= hex_digits(v));
    }
    s
}

} // verus!
