use vstd::prelude::*;

use vstd::string::StringExecFns;

verus! {

/// The decimal digit character for one digit value.
pub open spec fn decimal_digit_char(d: int) -> char {
    if d == 0 {
        '0'
    } else if d == 1 {
        '1'
    } else if d == 2 {
        '2'
    } else if d == 3 {
        '3'
    } else if d == 4 {
        '4'
    } else if d == 5 {
        '5'
    } else if d == 6 {
        '6'
    } else if d == 7 {
        '7'
    } else if d == 8 {
        '8'
    } else {
        '9'
    }
}

/// The decimal rendering of a number, without sign or padding.
pub open spec fn decimal_seq(n: nat) -> Seq<char>
    decreases n,
{
    if n < 10 {
        seq![decimal_digit_char(n as int)]
    } else {
        decimal_seq(n / 10) + seq![decimal_digit_char((n % 10) as int)]
    }
}

/// One decimal digit as a string slice.
fn digit_str(d: u64) -> (r: &'static str)
    requires
        d < 10,
    ensures
        r@ =~= seq![decimal_digit_char(d as int)],
{
    let s: &'static str = if d == 0 {
        "0"
    } else if d == 1 {
        "1"
    } else if d == 2 {
        "2"
    } else if d == 3 {
        "3"
    } else if d == 4 {
        "4"
    } else if d == 5 {
        "5"
    } else if d == 6 {
        "6"
    } else if d == 7 {
        "7"
    } else if d == 8 {
        "8"
    } else {
        "9"
    };
    proof {
        reveal_strlit("0");
        reveal_strlit("1");
        reveal_strlit("2");
        reveal_strlit("3");
        reveal_strlit("4");
        reveal_strlit("5");
        reveal_strlit("6");
        reveal_strlit("7");
        reveal_strlit("8");
        reveal_strlit("9");
    }
    s
}

/// Appends the decimal rendering of a number.
fn push_decimal(s: &mut String, n: u64)
    ensures
        final(s)@ == old(s)@ + decimal_seq(n as nat),
    decreases n,
{
    if n >= 10 {
        push_decimal(s, n / 10);
    }
    s.append(digit_str(n % 10));
    proof {
        assert(final(s)@ =~= old(s)@ + decimal_seq(n as nat));
    }
}

/// The decimal rendering of a number as a string.
pub fn decimal_string(n: u64) -> (r: String)
    ensures
        r@ == decimal_seq(n as nat),
{
    let mut s = String::new();
    push_decimal(&mut s, n);
    proof {
        assert(s@ =~= decimal_seq(n as nat));
    }
    s
}

/// The login command for an access code.
pub open spec fn login_message_spec(code: Seq<char>) -> Seq<char> {
    "LOGIN;"@ + code
}

/// The screen-fetch command for a menu item id.
pub open spec fn get_message_spec(id: Seq<char>) -> Seq<char> {
    "GET;"@ + id
}

/// The value-write command for a schedule slot id.
pub open spec fn set_message_spec(id: Seq<char>, value: nat) -> Seq<char> {
    "SET;set_"@ + id + ";"@ + decimal_seq(value)
}

/// The command that commits previously written values.
pub open spec fn save_message_spec() -> Seq<char> {
    "SAVE;1"@
}

/// Builds the login command for an access code.
pub fn login_message(code: &str) -> (r: String)
    ensures
        r@ == login_message_spec(code@),
{
    let mut s = String::from_str("LOGIN;");
    s.append(code);
    s
}

/// Builds the screen-fetch command for a menu item id.
pub fn get_message(id: &str) -> (r: String)
    ensures
        r@ == get_message_spec(id@),
{
    let mut s = String::from_str("GET;");
    s.append(id);
    s
}

/// Builds the value-write command for a schedule slot id.
pub fn set_message(id: &str, value: u64) -> (r: String)
    ensures
        r@ == set_message_spec(id@, value as nat),
{
    let mut s = String::from_str("SET;set_");
    s.append(id);
    s.append(";");
    push_decimal(&mut s, value);
    proof {
        assert(s@ =~= set_message_spec(id@, value as nat));
    }
    s
}

/// Builds the command that commits previously written values.
pub fn save_message() -> (r: String)
    ensures
        r@ == save_message_spec(),
{
    String::from_str("SAVE;1")
}

} // verus!
