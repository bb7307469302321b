//! Canonical textual form of a key: each half rendered as 8-digit
//! uppercase zero-padded hexadecimal, high half first, separated by a
//! period — `HHHHHHHH.LLLLLLLL` — and a wrapped variant
//! `DualHashKey(HHHHHHHH.LLLLLLLL)` for richer display.

use vstd::prelude::*;
use vstd::string::StringExecFns;

use crate::key::DualHashKey;

verus! {

/// The uppercase hexadecimal digit character for a value below 16.
pub open spec fn hex_digit(nibble: u32) -> char {
    if nibble == 0 {
        '0'
    } else if nibble == 1 {
        '1'
    } else if nibble == 2 {
        '2'
    } else if nibble == 3 {
        '3'
    } else if nibble == 4 {
        '4'
    } else if nibble == 5 {
        '5'
    } else if nibble == 6 {
        '6'
    } else if nibble == 7 {
        '7'
    } else if nibble == 8 {
        '8'
    } else if nibble == 9 {
        '9'
    } else if nibble == 10 {
        'A'
    } else if nibble == 11 {
        'B'
    } else if nibble == 12 {
        'C'
    } else if nibble == 13 {
        'D'
    } else if nibble == 14 {
        'E'
    } else {
        'F'
    }
}

/// The `i`-th 4-bit group of a 32-bit value, counted from the most
/// significant.
pub open spec fn nibble_of(value: u32, i: int) -> u32 {
    (value >> ((28 - 4 * i) as u32)) & 0xF
}

/// The 8-digit uppercase zero-padded hexadecimal rendering of a 32-bit
/// value.
pub open spec fn hex8(value: u32) -> Seq<char> {
    Seq::new(8, |i: int| hex_digit(nibble_of(value, i)))
}

/// The one-character string holding the uppercase hexadecimal digit of a
/// value below 16.
fn hex_digit_str(nibble: u32) -> (r: &'static str)
    requires
        nibble < 16,
    ensures
        r@ == seq![hex_digit(nibble)],
{
    if nibble == 0 {
        proof {
            reveal_strlit("0");
            assert("0"@ =~= seq![hex_digit(nibble)]);
        }
        "0"
    } else if nibble == 1 {
        proof {
            reveal_strlit("1");
            assert("1"@ =~= seq![hex_digit(nibble)]);
        }
        "1"
    } else if nibble == 2 {
        proof {
            reveal_strlit("2");
            assert("2"@ =~= seq![hex_digit(nibble)]);
        }
        "2"
    } else if nibble == 3 {
        proof {
            reveal_strlit("3");
            assert("3"@ =~= seq![hex_digit(nibble)]);
        }
        "3"
    } else if nibble == 4 {
        proof {
            reveal_strlit("4");
            assert("4"@ =~= seq![hex_digit(nibble)]);
        }
        "4"
    } else if nibble == 5 {
        proof {
            reveal_strlit("5");
            assert("5"@ =~= seq![hex_digit(nibble)]);
        }
        "5"
    } else if nibble == 6 {
        proof {
            reveal_strlit("6");
            assert("6"@ =~= seq![hex_digit(nibble)]);
        }
        "6"
    } else if nibble == 7 {
        proof {
            reveal_strlit("7");
            assert("7"@ =~= seq![hex_digit(nibble)]);
        }
        "7"
    } else if nibble == 8 {
        proof {
            reveal_strlit("8");
            assert("8"@ =~= seq![hex_digit(nibble)]);
        }
        "8"
    } else if nibble == 9 {
        proof {
            reveal_strlit("9");
            assert("9"@ =~= seq![hex_digit(nibble)]);
        }
        "9"
    } else if nibble == 10 {
        proof {
            reveal_strlit("A");
            assert("A"@ =~= seq![hex_digit(nibble)]);
        }
        "A"
    } else if nibble == 11 {
        proof {
            reveal_strlit("B");
            assert("B"@ =~= seq![hex_digit(nibble)]);
        }
        "B"
    } else if nibble == 12 {
        proof {
            reveal_strlit("C");
            assert("C"@ =~= seq![hex_digit(nibble)]);
        }
        "C"
    } else if nibble == 13 {
        proof {
            reveal_strlit("D");
            assert("D"@ =~= seq![hex_digit(nibble)]);
        }
        "D"
    } else if nibble == 14 {
        proof {
            reveal_strlit("E");
            assert("E"@ =~= seq![hex_digit(nibble)]);
        }
        "E"
    } else {
        proof {
            reveal_strlit("F");
            assert("F"@ =~= seq![hex_digit(nibble)]);
        }
        "F"
    }
}

/// Appends the 8-digit uppercase hexadecimal rendering of `value` to
/// `out`.
fn append_hex32(out: &mut String, value: u32)
    ensures
        final(out)@ == old(out)@ + hex8(value),
{
    let mut i: u32 = 0;
    while i < 8
        invariant
            i <= 8,
            out@ == old(out)@ + hex8(value).take(i as int),
        decreases 8 - i,
    {
        let shift: u32 = 28 - 4 * i;
        let nibble: u32 = (value >> shift) & 0xF;
        proof {
            assert((value >> shift) & 0xF < 16) by (bit_vector);
            assert(nibble == nibble_of(value, i as int));
        }
        let digit = hex_digit_str(nibble);
        out.append(digit);
        proof {
            assert(hex8(value).take(i as int + 1) =~= hex8(value).take(i as int) + seq![
                hex_digit(nibble_of(value, i as int)),
            ]);
        }
        i = i + 1;
    }
    proof {
        assert(hex8(value).take(8) =~= hex8(value));
    }
}

impl DualHashKey {
    /// The canonical textual form of the key: both halves in 8-digit
    /// uppercase zero-padded hexadecimal, high half first, separated by
    /// a period.
    pub open spec fn hex_form(self) -> Seq<char> {
        hex8(self.high()) + seq!['.'] + hex8(self.low())
    }

    /// Renders the canonical textual form, `HHHHHHHH.LLLLLLLL`.
    pub fn to_hex_string(&self) -> (r: String)
        ensures
            r@ == self.hex_form(),
    {
        let mut out = "".to_owned();
        proof {
            reveal_strlit("");
            reveal_strlit(".");
            assert(""@ =~= Seq::<char>::empty());
            assert("."@ =~= seq!['.']);
        }
        append_hex32(&mut out, self.get_hash_high_half());
        out.append(".");
        append_hex32(&mut out, self.get_hash_low_half());
        proof {
            assert(out@ =~= self.hex_form());
        }
        out
    }

    /// Renders the wrapped display form, enclosing the canonical form in
    /// the type's name: `DualHashKey(HHHHHHHH.LLLLLLLL)`.
    pub fn to_display_string(&self) -> (r: String)
        ensures
            r@ == "DualHashKey("@ + self.hex_form() + ")"@,
    {
        let mut out = "DualHashKey(".to_owned();
        proof {
            reveal_strlit(".");
            assert("."@ =~= seq!['.']);
        }
        append_hex32(&mut out, self.get_hash_high_half());
        out.append(".");
        append_hex32(&mut out, self.get_hash_low_half());
        out.append(")");
        proof {
            assert(out@ =~= "DualHashKey("@ + self.hex_form() + ")"@);
        }
        out
    }
}

} // verus!
