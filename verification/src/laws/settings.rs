//! What the settings come to, and what the router asks of a backend at startup.
use crate::config::{all_digits, decimal, port_of, port_setting, setting, without_sign};
use crate::discover::discover_request;
use crate::json::Json;
use vstd::prelude::*;

verus! {

/// A setting is the whole text of its variable where that is set, whatever the default is, and
/// the default where it is not.
pub proof fn set_variable_wins(text: String, default: Seq<char>)
    ensures
        setting(Some(text), default) == text@,
        setting(None, default) == default,
{
}

/// The port is the one that the variable stands for, and 8232 where it stands for none or is not
/// set.
pub proof fn set_port_wins(text: String)
    ensures
        port_of(text@) matches Some(port) ==> port_setting(Some(text)) == port,
        port_of(text@) is None ==> port_setting(Some(text)) == 8232,
        port_setting(None) == 8232,
{
}

/// A single digit is a port of its own value.
pub proof fn digit_is_a_port(digit: char)
    requires
        '0' <= digit <= '9',
    ensures
        port_of(seq![digit]) == Some((digit as int - '0' as int) as u16),
{
    let text = seq![digit];
    assert(text.drop_last() =~= Seq::empty());
    assert(text.last() == digit);
    reveal_with_fuel(decimal, 2);
    assert(decimal(text) == (digit as nat - '0' as nat) as nat);
}

/// A port is read digit by digit: a digit behind it makes it ten times as large and adds its own
/// value, and there is no port where that does not fit in 16 bits.
pub proof fn port_is_read_digit_by_digit(text: Seq<char>, digit: char, port: u16)
    requires
        '0' <= digit <= '9',
        port_of(text) == Some(port),
    ensures
        port * 10 + (digit as int - '0' as int) <= 65535 ==> port_of(text.push(digit)) == Some(
            (port * 10 + (digit as int - '0' as int)) as u16,
        ),
        port * 10 + (digit as int - '0' as int) > 65535 ==> port_of(text.push(digit)) is None,
{
    let digits = without_sign(text);
    let longer = without_sign(text.push(digit));
    assert(longer =~= digits.push(digit));
    assert(longer.drop_last() =~= digits);
    assert(longer.last() == digit);
    assert(decimal(longer) == decimal(digits) * 10 + (digit as int - '0' as int));
    assert(all_digits(longer));
}

/// Digits that are too large for a port stay too large with one more behind them.
pub proof fn large_number_stays_no_port(digits: Seq<char>, digit: char)
    requires
        digits.len() > 0,
        forall|i: int| 0 <= i < digits.len() ==> '0' <= #[trigger] digits[i] <= '9',
        port_of(digits) is None,
        '0' <= digit <= '9',
    ensures
        port_of(digits.push(digit)) is None,
{
    let longer = digits.push(digit);
    assert(digits[0] != '+');
    assert(longer[0] == digits[0]);
    assert(longer.drop_last() =~= digits);
    assert(decimal(longer) == decimal(digits) * 10 + (digit as int - '0' as int));
}

/// A plus sign before digits changes nothing. A text without digits is no port, and neither is
/// one with anything but digits behind its first character, or but a digit or a plus sign there.
pub proof fn ports_are_digits_behind_a_plus_sign(text: Seq<char>, i: int)
    ensures
        text.len() > 0 && text[0] != '+' ==> port_of(seq!['+'] + text) == port_of(text),
        port_of(seq![]) is None,
        port_of(seq!['+']) is None,
        0 <= i < text.len() && !('0' <= text[i] <= '9') && (i > 0 || text[i] != '+') ==> port_of(
            text,
        ) is None,
{
    assert(without_sign(seq!['+'] + text) =~= text);
    assert(without_sign(seq!['+']) =~= Seq::empty());
    if 0 <= i < text.len() && !('0' <= text[i] <= '9') && (i > 0 || text[i] != '+') {
        if text[0] == '+' {
            assert(without_sign(text)[i - 1] == text[i]);
        } else {
            assert(without_sign(text)[i] == text[i]);
        }
    }
}

/// The request that asks a backend for its schema: JSON-RPC 2.0, with an id, the method
/// `rpc.discover` and no parameters.
pub proof fn startup_asks_for_the_schema()
    ensures
        match discover_request() {
            Json::Object(members) => {
                &&& members.dom() == set!["jsonrpc"@, "id"@, "method"@, "params"@]
                &&& members["jsonrpc"@] == Json::Text("2.0"@)
                &&& members["id"@] == Json::Integer(1)
                &&& members["method"@] == Json::Text("rpc.discover"@)
                &&& members["params"@] is Array
                &&& members["params"@]->Array_0.len() == 0
            },
            _ => false,
        },
{
    reveal_strlit("jsonrpc");
    reveal_strlit("id");
    reveal_strlit("method");
    reveal_strlit("params");
    assert("jsonrpc"@.len() == 7 && "id"@.len() == 2);
    assert("method"@.len() == 6 && "method"@[0] == 'm');
    assert("params"@.len() == 6 && "params"@[0] == 'p');
    assert(discover_request()->Object_0.dom() =~= set!["jsonrpc"@, "id"@, "method"@, "params"@]);
}

} // verus!
