//! Naming of the downloaded update file, and of the executable that an update replaces.

use vstd::prelude::*;
use vstd::string::StringExecFns;

use crate::text::seq_starts_with;
use crate::version::{all_digits, digits_value, parse_u32_spec, unsigned_digits};

verus! {

/// The decimal digit of `d` (for `d < 10`).
pub open spec fn digit_char(d: nat) -> char {
    if d == 0 { '0' }
    else if d == 1 { '1' }
    else if d == 2 { '2' }
    else if d == 3 { '3' }
    else if d == 4 { '4' }
    else if d == 5 { '5' }
    else if d == 6 { '6' }
    else if d == 7 { '7' }
    else if d == 8 { '8' }
    else { '9' }
}

/// `n` written in decimal, without leading zeros.
pub open spec fn decimal_spec(n: nat) -> Seq<char>
    decreases n,
{
    if n < 10 {
        seq![digit_char(n)]
    } else {
        decimal_spec(n / 10).push(digit_char(n % 10))
    }
}

/// The name under which an update is downloaded by the process `pid`.
pub open spec fn update_file_name_spec(pid: u32) -> Seq<char> {
    "warp-update-"@ + decimal_spec(pid as nat)
}

/// The beginning that names a downloaded update file.
pub open spec fn update_file_prefix() -> Seq<char> {
    "warp-update-"@
}

/// The extension that the replaced executable is given.
pub open spec fn old_executable_extension_spec(windows: bool) -> Seq<char> {
    if windows {
        "exe.old"@
    } else {
        "old"@
    }
}

/// The one-character string of the digit `d`.
fn digit_str(d: u32) -> (r: &'static str)
    requires
        d < 10,
    ensures
        r@ == seq![digit_char(d as nat)],
{
    proof {
        reveal_strlit("0");
        reveal_strlit("1");
        reveal_strlit("2");
        reveal_strlit("3");
        reveal_strlit("4");
        reveal_strlit("5");
        reveal_strlit("6");
        reveal_strlit("7");
        reveal_strlit("8");
        reveal_strlit("9");
    }
    if d == 0 { "0" }
    else if d == 1 { "1" }
    else if d == 2 { "2" }
    else if d == 3 { "3" }
    else if d == 4 { "4" }
    else if d == 5 { "5" }
    else if d == 6 { "6" }
    else if d == 7 { "7" }
    else if d == 8 { "8" }
    else { "9" }
}

/// `n` in decimal (as `n.to_string()`).
pub fn u32_to_decimal(n: u32) -> (r: String)
    ensures
        r@ == decimal_spec(n as nat),
    decreases n,
{
    if n < 10 {
        String::from_str(digit_str(n))
    } else {
        let mut r = u32_to_decimal(n / 10);
        r.append(digit_str(n % 10));
        r
    }
}

/// The name under which the process `pid` downloads an update (`warp-update-{pid}`).
pub fn update_file_name(pid: u32) -> (r: String)
    ensures
        r@ == update_file_name_spec(pid),
{
    let mut r = String::from_str("warp-update-");
    let digits = u32_to_decimal(pid);
    r.append(digits.as_str());
    r
}

/// The extension that the running executable is renamed to when an update replaces it:
/// `exe.old` on Windows, `old` elsewhere.
pub fn old_executable_extension(windows: bool) -> (r: &'static str)
    ensures
        r@ == old_executable_extension_spec(windows),
{
    if windows {
        "exe.old"
    } else {
        "old"
    }
}

// ---------------------------------------------------------------------------
// Laws
// ---------------------------------------------------------------------------

proof fn lemma_digit_char(d: nat)
    requires
        d < 10,
    ensures
        crate::version::is_digit(digit_char(d)),
        digit_char(d) as int - '0' as int == d,
{
}

pub(crate) proof fn lemma_decimal_digits(n: nat)
    ensures
        decimal_spec(n).len() >= 1,
        all_digits(decimal_spec(n)),
        digits_value(decimal_spec(n)) == n,
        decimal_spec(n)[0] != '+',
    decreases n,
{
    if n < 10 {
        lemma_digit_char(n);
        let d = decimal_spec(n);
        assert(d == seq![digit_char(n)]);
        assert(d.drop_last() =~= Seq::<char>::empty());
        assert(digits_value(d.drop_last()) == 0);
        assert(d.last() == digit_char(n));
        assert(digits_value(d) == digits_value(d.drop_last()) * 10 + (d.last() as int - '0' as int));
    } else {
        lemma_decimal_digits(n / 10);
        lemma_digit_char(n % 10);
        let d = decimal_spec(n);
        assert(d.drop_last() =~= decimal_spec(n / 10));
        assert(d.last() == digit_char(n % 10));
        assert(digits_value(d) == digits_value(decimal_spec(n / 10)) * 10 + (n % 10));
        assert(n == (n / 10) * 10 + n % 10) by (nonlinear_arith);
        assert forall|i: int| 0 <= i < d.len() implies crate::version::is_digit(#[trigger] d[i]) by {
            if i < d.len() - 1 {
                assert(d[i] == decimal_spec(n / 10)[i]);
            }
        }
    }
}

/// Reading back the decimal form of a number gives the number.
pub proof fn law_decimal_parses_back(n: u32)
    ensures
        parse_u32_spec(decimal_spec(n as nat)) == Some(n),
{
    lemma_decimal_digits(n as nat);
    assert(unsigned_digits(decimal_spec(n as nat)) == decimal_spec(n as nat));
}

/// The file that a process downloads an update to is named as an update file, and two
/// processes never download to the same name.
pub proof fn law_update_file_name_is_recognized(pid: u32, other: u32)
    ensures
        seq_starts_with(update_file_name_spec(pid), update_file_prefix()),
        pid != other ==> update_file_name_spec(pid) != update_file_name_spec(other),
{
    let p = update_file_prefix();
    assert(update_file_name_spec(pid).take(p.len() as int) =~= p);
    if update_file_name_spec(pid) == update_file_name_spec(other) {
        assert(decimal_spec(pid as nat) =~= update_file_name_spec(pid).skip(p.len() as int));
        assert(decimal_spec(other as nat) =~= update_file_name_spec(other).skip(p.len() as int));
        law_decimal_parses_back(pid);
        law_decimal_parses_back(other);
    }
}

} // verus!
