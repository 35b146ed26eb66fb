use vstd::prelude::*;
use crate::benchmark::{Function, function_name};

verus! {

/// The character of the decimal digit `d`.
pub open spec fn digit_char(d: nat) -> char {
    (48 + d) as char
}

/// The decimal numeral of `n`: no sign, no leading zeros.
pub open spec fn decimal(n: nat) -> Seq<char>
    decreases n,
{
    if n < 10 {
        seq![digit_char(n)]
    } else {
        decimal(n / 10).push(digit_char(n % 10))
    }
}

/// The number that a string of decimal digits reads as.
pub open spec fn numeral_value(s: Seq<char>) -> int
    decreases s.len(),
{
    if s.len() == 0 {
        0
    } else {
        numeral_value(s.drop_last()) * 10 + (s.last() as int - 48)
    }
}

/// The numeral of `n` is made of the digits `0` to `9`, reads back as `n`,
/// and starts with `0` only when it is `0` itself.
pub proof fn law_decimal_reads_back(n: nat)
    ensures
        decimal(n).len() >= 1,
        forall|i: int| 0 <= i < decimal(n).len() ==> '0' <= #[trigger] decimal(n)[i] <= '9',
        numeral_value(decimal(n)) == n,
        decimal(n)[0] == '0' ==> n == 0,
    decreases n,
{
    if n >= 10 {
        law_decimal_reads_back(n / 10);
        let d = decimal(n);
        assert(d.drop_last() =~= decimal(n / 10));
        assert(d[0] == decimal(n / 10)[0]);
        assert forall|i: int| 0 <= i < d.len() implies '0' <= #[trigger] d[i] <= '9' by {
            if i < d.len() - 1 {
                assert(d[i] == decimal(n / 10)[i]);
            }
        }
        assert(d.last() as int == 48 + n % 10);
        assert(n == (n / 10) * 10 + n % 10);
    } else {
        let d = decimal(n);
        assert(d.last() as int == 48 + n);
        assert(d.drop_last() =~= Seq::<char>::empty());
        reveal_with_fuel(numeral_value, 2);
    }
}

/// `u64::to_string`, which `Display` for integers writes as the plain
/// decimal numeral.
#[verifier::external_body]
fn decimal_string(n: u64) -> (r: String)
    ensures
        r@ == decimal(n as nat),
{
    n.to_string()
}

/// The name of the direct benchmark file of pattern `f` made at time `ts`.
pub open spec fn direct_file_name(f: Function, ts: u64) -> Seq<char> {
    "file-"@ + function_name(f) + "-"@ + decimal(ts as nat) + ".dat"@
}

/// The name of the buffered benchmark file made at time `ts`.
pub open spec fn buffered_file_name(ts: u64) -> Seq<char> {
    "test-"@ + decimal(ts as nat) + ".txt"@
}

/// `file-<pattern>-<ts>.dat`: the name of the direct benchmark file of
/// `function` made at time `ts` (nanoseconds since the epoch).
pub fn file_name(function: &Function, ts: u64) -> (r: String)
    ensures
        r@ == direct_file_name(*function, ts),
        r@ == "file-"@ + function_name(*function) + "-"@ + decimal(ts as nat) + ".dat"@,
{
    let mut name = String::from_str("file-");
    name.append(function.name());
    name.append("-");
    let digits = decimal_string(ts);
    name.append(digits.as_str());
    name.append(".dat");
    name
}

/// `test-<ts>.txt`: the name of the buffered benchmark file made at time `ts`
/// (nanoseconds since the epoch).
pub fn test_file_path(ts: u64) -> (r: String)
    ensures
        r@ == buffered_file_name(ts),
        r@ == "test-"@ + decimal(ts as nat) + ".txt"@,
{
    let mut name = String::from_str("test-");
    let digits = decimal_string(ts);
    name.append(digits.as_str());
    name.append(".txt");
    name
}

} // verus!
