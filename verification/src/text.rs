//! Small helpers on strings used by the parsers of the library.

use vstd::prelude::*;
use vstd::string::StringExecFns;

verus! {

/// Compares two string slices by their characters.
pub fn str_eq(a: &str, b: &str) -> (r: bool)
    ensures
        r == (a@ == b@),
{
    let a_owned = a.to_string();
    let b_owned = b.to_string();
    a_owned == b_owned
}

/// A fingerprint of a name of at least six characters: its length, its last
/// character, and its fourth and sixth characters from the end.
pub open spec fn name_signature(name: Seq<char>) -> (nat, char, char, char) {
    (name.len(), name[name.len() - 1], name[name.len() - 4], name[name.len() - 6])
}

/// A path is absolute when it starts at the root (`/`), as on Unix targets.
pub open spec fn is_absolute_path(path: Seq<char>) -> bool {
    path.len() > 0 && path[0] == '/'
}

/// Whether `path` is absolute, by `std::path::Path::is_absolute`.
///
/// The standard library documents that on Unix a path is absolute exactly when it
/// has a root, that is when it begins with `/`; that is what the contract states,
/// and it holds on Unix targets only (on Windows a path needs a prefix too).
#[verifier::external_body]
pub fn path_is_absolute(path: &str) -> (r: bool)
    ensures
        r == is_absolute_path(path@),
{
    std::path::Path::new(path).is_absolute()
}

/// The character of a decimal digit.
pub open spec fn digit_char(d: nat) -> char {
    if d == 0 {
        '0'
    } else if d == 1 {
        '1'
    } else if d == 2 {
        '2'
    } else if d == 3 {
        '3'
    } else if d == 4 {
        '4'
    } else if d == 5 {
        '5'
    } else if d == 6 {
        '6'
    } else if d == 7 {
        '7'
    } else if d == 8 {
        '8'
    } else {
        '9'
    }
}

/// `n` in decimal, with no leading zeros.
pub open spec fn decimal(n: nat) -> Seq<char>
    decreases n,
{
    if n < 10 {
        seq![digit_char(n)]
    } else {
        decimal(n / 10).push(digit_char(n % 10))
    }
}

fn digit_str(d: u8) -> (r: &'static str)
    requires
        d < 10,
    ensures
        r@ == seq![digit_char(d as nat)],
{
    match d {
        0 => {
            proof {
                reveal_strlit("0");
            }
            "0"
        },
        1 => {
            proof {
                reveal_strlit("1");
            }
            "1"
        },
        2 => {
            proof {
                reveal_strlit("2");
            }
            "2"
        },
        3 => {
            proof {
                reveal_strlit("3");
            }
            "3"
        },
        4 => {
            proof {
                reveal_strlit("4");
            }
            "4"
        },
        5 => {
            proof {
                reveal_strlit("5");
            }
            "5"
        },
        6 => {
            proof {
                reveal_strlit("6");
            }
            "6"
        },
        7 => {
            proof {
                reveal_strlit("7");
            }
            "7"
        },
        8 => {
            proof {
                reveal_strlit("8");
            }
            "8"
        },
        _ => {
            proof {
                reveal_strlit("9");
            }
            "9"
        },
    }
}

/// Appends `n` in decimal to `text`.
pub fn push_decimal(text: &mut String, n: u8)
    ensures
        final(text)@ == old(text)@ + decimal(n as nat),
{
    let ghost start = text@;
    if n >= 100 {
        text.append(digit_str(n / 100));
        text.append(digit_str((n / 10) % 10));
        text.append(digit_str(n % 10));
        let ghost tens = (n / 10) as nat;
        assert(tens / 10 == n / 100);
        assert(decimal(tens) == decimal(tens / 10).push(digit_char(tens % 10)));
        assert(decimal(n as nat) == decimal(tens).push(digit_char((n % 10) as nat)));
        assert(text@ =~= start + decimal(n as nat));
    } else if n >= 10 {
        text.append(digit_str(n / 10));
        text.append(digit_str(n % 10));
        assert(decimal(n as nat) == decimal((n / 10) as nat).push(digit_char((n % 10) as nat)));
        assert(text@ =~= start + decimal(n as nat));
    } else {
        text.append(digit_str(n));
    }
}

} // verus!
