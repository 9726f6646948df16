//! The errors a header check can produce.
//!
//! A mismatch is reported with the file's name, the value the envelope was
//! configured for, and the value actually found in the file. Failures of the
//! underlying byte stream (a missing file, a short read) are not represented
//! here: they stay in the stream's own error channel, so a file shorter than
//! the header surfaces as a stream failure, never as a mismatch.

use vstd::prelude::*;
use vstd::string::StringExecFns;

verus! {

/// A header mismatch found while opening a file.
#[derive(Clone, PartialEq, Eq, PartialOrd, Ord, Hash, Debug)]
pub enum BinFileError {
    /// The first eight bytes of the file do not spell the configured magic
    /// number.
    InvalidMagic {
        /// The file whose header was checked.
        filename: String,
        /// The magic number the envelope is configured for.
        expected: u64,
        /// The magic number the file actually starts with.
        actual: u64,
    },
    /// The file's magic number matches, but the two version bytes that follow
    /// do not spell the configured version.
    InvalidVersion {
        /// The file whose header was checked.
        filename: String,
        /// The version the envelope is configured for.
        expected: u16,
        /// The version the file actually carries.
        actual: u16,
    },
}

/// The character for one digit value below sixteen, lower case.
pub open spec fn spec_digit(d: u64) -> char
    recommends
        d < 16,
{
    if d == 0 {
        '0'
    } else if d == 1 {
        '1'
    } else if d == 2 {
        '2'
    } else if d == 3 {
        '3'
    } else if d == 4 {
        '4'
    } else if d == 5 {
        '5'
    } else if d == 6 {
        '6'
    } else if d == 7 {
        '7'
    } else if d == 8 {
        '8'
    } else if d == 9 {
        '9'
    } else if d == 10 {
        'a'
    } else if d == 11 {
        'b'
    } else if d == 12 {
        'c'
    } else if d == 13 {
        'd'
    } else if d == 14 {
        'e'
    } else {
        'f'
    }
}

/// The hexadecimal digits of `x`, most significant first, without leading
/// zeroes (a single `0` for zero itself).
pub open spec fn spec_hex(x: u64) -> Seq<char>
    decreases x,
{
    if x < 16 {
        seq![spec_digit(x)]
    } else {
        spec_hex(x / 16).push(spec_digit(x % 16))
    }
}

/// The decimal digits of `x`, most significant first, without leading zeroes.
pub open spec fn spec_dec(x: u16) -> Seq<char>
    decreases x,
{
    if x < 10 {
        seq![spec_digit(x as u64)]
    } else {
        spec_dec(x / 10).push(spec_digit((x % 10) as u64))
    }
}

/// One digit value below sixteen as a string slice of its character.
fn digit_str(d: u64) -> (r: &'static str)
    requires
        d < 16,
    ensures
        r@ == seq![spec_digit(d)],
{
    let r: &'static str = if d == 0 {
        proof {
            reveal_strlit("0");
        }
        "0"
    } else if d == 1 {
        proof {
            reveal_strlit("1");
        }
        "1"
    } else if d == 2 {
        proof {
            reveal_strlit("2");
        }
        "2"
    } else if d == 3 {
        proof {
            reveal_strlit("3");
        }
        "3"
    } else if d == 4 {
        proof {
            reveal_strlit("4");
        }
        "4"
    } else if d == 5 {
        proof {
            reveal_strlit("5");
        }
        "5"
    } else if d == 6 {
        proof {
            reveal_strlit("6");
        }
        "6"
    } else if d == 7 {
        proof {
            reveal_strlit("7");
        }
        "7"
    } else if d == 8 {
        proof {
            reveal_strlit("8");
        }
        "8"
    } else if d == 9 {
        proof {
            reveal_strlit("9");
        }
        "9"
    } else if d == 10 {
        proof {
            reveal_strlit("a");
        }
        "a"
    } else if d == 11 {
        proof {
            reveal_strlit("b");
        }
        "b"
    } else if d == 12 {
        proof {
            reveal_strlit("c");
        }
        "c"
    } else if d == 13 {
        proof {
            reveal_strlit("d");
        }
        "d"
    } else if d == 14 {
        proof {
            reveal_strlit("e");
        }
        "e"
    } else {
        proof {
            reveal_strlit("f");
        }
        "f"
    };
    proof {
        assert(r@ =~= seq![spec_digit(d)]);
    }
    r
}

/// Renders `x` in lower-case hexadecimal without leading zeroes.
pub fn hex_string(x: u64) -> (r: String)
    ensures
        r@ == spec_hex(x),
    decreases x,
{
    if x < 16 {
        let r = digit_str(x).to_owned();
        proof {
            assert(r@ =~= spec_hex(x));
        }
        r
    } else {
        let mut r = hex_string(x / 16);
        r.append(digit_str(x % 16));
        proof {
            assert(r@ =~= spec_hex(x));
        }
        r
    }
}

/// Renders `x` in decimal.
pub fn dec_string(x: u16) -> (r: String)
    ensures
        r@ == spec_dec(x),
    decreases x,
{
    if x < 10 {
        let r = digit_str(x as u64).to_owned();
        proof {
            assert(r@ =~= spec_dec(x));
        }
        r
    } else {
        let mut r = dec_string(x / 10);
        r.append(digit_str((x % 10) as u64));
        proof {
            assert(r@ =~= spec_dec(x));
        }
        r
    }
}

impl BinFileError {
    /// The characters of the error's message, as the user sees them.
    pub open spec fn spec_message(self) -> Seq<char> {
        match self {
            BinFileError::InvalidMagic { filename, expected, actual } => "invalid magic number 0x"@
                + spec_hex(actual) + " instead of 0x"@ + spec_hex(expected) + " in file '"@
                + filename@ + "'"@,
            BinFileError::InvalidVersion { filename, expected, actual } => "invalid version "@
                + spec_dec(actual) + " instead of "@ + spec_dec(expected) + " in file '"@
                + filename@ + "'"@,
        }
    }

    /// Renders the error's message: the mismatched value actually found, the
    /// configured value it was checked against, and the file's name. Magic
    /// numbers are shown in hexadecimal, versions in decimal.
    pub fn message(&self) -> (r: String)
        ensures
            r@ == self.spec_message(),
    {
        match self {
            BinFileError::InvalidMagic { filename, expected, actual } => {
                let mut r = "invalid magic number 0x".to_owned();
                let actual_hex = hex_string(*actual);
                r.append(actual_hex.as_str());
                r.append(" instead of 0x");
                let expected_hex = hex_string(*expected);
                r.append(expected_hex.as_str());
                r.append(" in file '");
                r.append(filename.as_str());
                r.append("'");
                proof {
                    assert(r@ =~= self.spec_message());
                }
                r
            },
            BinFileError::InvalidVersion { filename, expected, actual } => {
                let mut r = "invalid version ".to_owned();
                let actual_dec = dec_string(*actual);
                r.append(actual_dec.as_str());
                r.append(" instead of ");
                let expected_dec = dec_string(*expected);
                r.append(expected_dec.as_str());
                r.append(" in file '");
                r.append(filename.as_str());
                r.append("'");
                proof {
                    assert(r@ =~= self.spec_message());
                }
                r
            },
        }
    }
}

} // verus!
