//! Names and numbers as text.

use vstd::prelude::*;
use vstd::string::{StrSliceExecFns, StringExecFns};

verus! {

/// A name without the `r#` that marks a raw identifier.
pub open spec fn bare_name(name: Seq<char>) -> Seq<char> {
    if name.len() >= 2 && name[0] == 'r' && name[1] == '#' {
        name.skip(2)
    } else {
        name
    }
}

/// Takes the `r#` that marks a raw identifier off a name.
pub fn strip_raw(name: &str) -> (bare: String)
    ensures
        bare@ == bare_name(name@),
{
    let n: usize = name.unicode_len();
    if n >= 2 && name.get_char(0) == 'r' && name.get_char(1) == '#' {
        let bare = name.substring_char(2, n);
        assert(name@.subrange(2, n as int) =~= name@.skip(2));
        bare.to_owned()
    } else {
        name.to_owned()
    }
}

/// The decimal digit of a number below ten.
pub open spec fn digit(n: nat) -> char {
    if n == 0 {
        '0'
    } else if n == 1 {
        '1'
    } else if n == 2 {
        '2'
    } else if n == 3 {
        '3'
    } else if n == 4 {
        '4'
    } else if n == 5 {
        '5'
    } else if n == 6 {
        '6'
    } else if n == 7 {
        '7'
    } else if n == 8 {
        '8'
    } else {
        '9'
    }
}

/// A number in decimal.
pub open spec fn decimal(n: nat) -> Seq<char>
    decreases n,
{
    if n < 10 {
        seq![digit(n)]
    } else {
        decimal(n / 10).push(digit(n % 10))
    }
}

/// Writes a number in decimal.
pub fn to_decimal(n: usize) -> (text: String)
    ensures
        text@ == decimal(n as nat),
    decreases n,
{
    let mut text: String = if n < 10 {
        String::new()
    } else {
        to_decimal(n / 10)
    };
    let ghost front = text@;
    let last: &str = match n % 10 {
        0 => "0",
        1 => "1",
        2 => "2",
        3 => "3",
        4 => "4",
        5 => "5",
        6 => "6",
        7 => "7",
        8 => "8",
        _ => "9",
    };
    text.append(last);
    proof {
        reveal_strlit("0");
        reveal_strlit("1");
        reveal_strlit("2");
        reveal_strlit("3");
        reveal_strlit("4");
        reveal_strlit("5");
        reveal_strlit("6");
        reveal_strlit("7");
        reveal_strlit("8");
        reveal_strlit("9");
        assert(text@ =~= front.push(digit((n % 10) as nat)));
        assert(text@ =~= decimal(n as nat));
    }
    text
}

} // verus!
