//! Human-readable rendering of byte counts: binary, base-1024 units with one
//! decimal place, as in "1.0 KiB". The decimal place is obtained by integer
//! arithmetic on tenths, rounding half up.

use vstd::prelude::*;
use vstd::string::*;

verus! {

/// The unit a size is shown in: 0 for bytes, 1 for KiB, up to 6 for EiB,
/// the largest unit a 64-bit count can reach.
pub open spec fn unit_index(size: nat) -> nat {
    if size < 1024 {
        0
    } else if size < 1048576 {
        1
    } else if size < 1073741824 {
        2
    } else if size < 1099511627776 {
        3
    } else if size < 1125899906842624 {
        4
    } else if size < 1152921504606846976 {
        5
    } else {
        6
    }
}

/// How many bytes one unit of the given index stands for.
pub open spec fn unit_divisor(i: nat) -> nat {
    if i == 0 {
        1
    } else if i == 1 {
        1024
    } else if i == 2 {
        1048576
    } else if i == 3 {
        1073741824
    } else if i == 4 {
        1099511627776
    } else if i == 5 {
        1125899906842624
    } else {
        1152921504606846976
    }
}

/// The unit's label.
pub open spec fn unit_label(i: nat) -> Seq<char> {
    if i == 0 {
        "Bytes"@
    } else if i == 1 {
        "KiB"@
    } else if i == 2 {
        "MiB"@
    } else if i == 3 {
        "GiB"@
    } else if i == 4 {
        "TiB"@
    } else if i == 5 {
        "PiB"@
    } else {
        "EiB"@
    }
}

/// The size expressed in tenths of its unit, rounded half up: the value that
/// is printed with one decimal place.
pub open spec fn rounded_tenths(size: nat) -> nat {
    (20 * size + unit_divisor(unit_index(size))) / (2 * unit_divisor(unit_index(size)))
}

/// The decimal digit character for a value below ten.
pub open spec fn dec_digit(d: nat) -> char {
    if d == 0 {
        '0'
    } else if d == 1 {
        '1'
    } else if d == 2 {
        '2'
    } else if d == 3 {
        '3'
    } else if d == 4 {
        '4'
    } else if d == 5 {
        '5'
    } else if d == 6 {
        '6'
    } else if d == 7 {
        '7'
    } else if d == 8 {
        '8'
    } else {
        '9'
    }
}

/// The usual decimal rendering of a natural number, most significant digit
/// first, no leading zeros except for zero itself.
pub open spec fn spec_decimal(n: nat) -> Seq<char>
    decreases n,
{
    if n < 10 {
        seq![dec_digit(n)]
    } else {
        spec_decimal(n / 10) + seq![dec_digit(n % 10)]
    }
}

/// The whole rendering: the rounded tenths split into a whole part and one
/// decimal digit, then a space and the unit label.
pub open spec fn spec_human_size(size: nat) -> Seq<char> {
    spec_decimal(rounded_tenths(size) / 10) + "."@ + seq![
        dec_digit(rounded_tenths(size) % 10),
    ] + " "@ + unit_label(unit_index(size))
}

/// The one-character string for a decimal digit.
fn digit_str(d: u64) -> (r: &'static str)
    requires
        d < 10,
    ensures
        r@ == seq![dec_digit(d as nat)],
{
    if d == 0 {
        proof {
            reveal_strlit("0");
            assert("0"@ =~= seq!['0']);
        }
        "0"
    } else if d == 1 {
        proof {
            reveal_strlit("1");
            assert("1"@ =~= seq!['1']);
        }
        "1"
    } else if d == 2 {
        proof {
            reveal_strlit("2");
            assert("2"@ =~= seq!['2']);
        }
        "2"
    } else if d == 3 {
        proof {
            reveal_strlit("3");
            assert("3"@ =~= seq!['3']);
        }
        "3"
    } else if d == 4 {
        proof {
            reveal_strlit("4");
            assert("4"@ =~= seq!['4']);
        }
        "4"
    } else if d == 5 {
        proof {
            reveal_strlit("5");
            assert("5"@ =~= seq!['5']);
        }
        "5"
    } else if d == 6 {
        proof {
            reveal_strlit("6");
            assert("6"@ =~= seq!['6']);
        }
        "6"
    } else if d == 7 {
        proof {
            reveal_strlit("7");
            assert("7"@ =~= seq!['7']);
        }
        "7"
    } else if d == 8 {
        proof {
            reveal_strlit("8");
            assert("8"@ =~= seq!['8']);
        }
        "8"
    } else {
        proof {
            reveal_strlit("9");
            assert("9"@ =~= seq!['9']);
        }
        "9"
    }
}

/// Renders a number in decimal.
pub fn decimal_string(n: u64) -> (s: String)
    ensures
        s@ == spec_decimal(n as nat),
    decreases n,
{
    if n < 10 {
        digit_str(n).to_owned()
    } else {
        let mut s = decimal_string(n / 10);
        s.append(digit_str(n % 10));
        s
    }
}

/// Renders a byte count in its binary unit with one decimal place, for
/// example "0.0 Bytes", "1.0 KiB" or "1.0 MiB".
pub fn size_to_human_readable(size: u64) -> (s: String)
    ensures
        s@ == spec_human_size(size as nat),
{
    let div: u64;
    let label: &str;
    if size < 1024 {
        div = 1;
        label = "Bytes";
    } else if size < 1048576 {
        div = 1024;
        label = "KiB";
    } else if size < 1073741824 {
        div = 1048576;
        label = "MiB";
    } else if size < 1099511627776 {
        div = 1073741824;
        label = "GiB";
    } else if size < 1125899906842624 {
        div = 1099511627776;
        label = "TiB";
    } else if size < 1152921504606846976 {
        div = 1125899906842624;
        label = "PiB";
    } else {
        div = 1152921504606846976;
        label = "EiB";
    }
    let tenths: u128 = (20 * (size as u128) + (div as u128)) / (2 * (div as u128));
    proof {
        assert(div as nat == unit_divisor(unit_index(size as nat)));
        assert(tenths as nat == rounded_tenths(size as nat));
        if size < 1024 {
            assert(tenths == (20 * (size as u128) + 1) / 2);
        } else if size < 1048576 {
            assert(tenths == (20 * (size as u128) + 1024) / 2048);
        } else if size < 1073741824 {
            assert(tenths == (20 * (size as u128) + 1048576) / 2097152);
        } else if size < 1099511627776 {
            assert(tenths == (20 * (size as u128) + 1073741824) / 2147483648);
        } else if size < 1125899906842624 {
            assert(tenths == (20 * (size as u128) + 1099511627776) / 2199023255552);
        } else if size < 1152921504606846976 {
            assert(tenths == (20 * (size as u128) + 1125899906842624) / 2251799813685248);
        } else {
            assert(tenths == (20 * (size as u128) + 1152921504606846976) / 2305843009213693952);
        }
        assert(tenths < 20000);
    }
    let whole: u64 = (tenths / 10) as u64;
    let frac: u64 = (tenths % 10) as u64;
    let mut s = decimal_string(whole);
    s.append(".");
    s.append(digit_str(frac));
    s.append(" ");
    s.append(label);
    proof {
        assert(label@ == unit_label(unit_index(size as nat)));
        assert(s@ =~= spec_human_size(size as nat));
    }
    s
}

} // verus!
