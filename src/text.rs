use vstd::prelude::*;

verus! {

/// The digit character for a value below 16, lowercase.
pub open spec fn digit_char(d: nat) -> char {
    seq!['0', '1', '2', '3', '4', '5', '6', '7', '8', '9', 'a', 'b', 'c', 'd', 'e', 'f'][d as int]
}

/// The decimal digits of `n`, without leading zeros ("0" for zero).
pub open spec fn decimal_spec(n: nat) -> Seq<char>
    decreases n,
{
    if n < 10 {
        seq![digit_char(n)]
    } else {
        decimal_spec(n / 10).push(digit_char(n % 10))
    }
}

/// The lowercase hexadecimal digits of `n`, without leading zeros.
pub open spec fn hex_spec(n: nat) -> Seq<char>
    decreases n,
{
    if n < 16 {
        seq![digit_char(n)]
    } else {
        hex_spec(n / 16).push(digit_char(n % 16))
    }
}

/// Relies on `u64`'s `Display` (through `to_string`): decimal digits, no sign,
/// no leading zeros.
#[verifier::external_body]
pub(crate) fn decimal(n: u64) -> (r: String)
    ensures
        r@ == decimal_spec(n as nat),
{
    n.to_string()
}

/// Relies on `u64`'s `LowerHex` with the alternate flag (`{:#x}`): "0x", then
/// lowercase hexadecimal digits without leading zeros.
#[verifier::external_body]
pub(crate) fn prefixed_hex(n: u64) -> (r: String)
    ensures
        r@ == "0x"@ + hex_spec(n as nat),
{
    format!("{:#x}", n)
}

} // verus!
