use vstd::prelude::*;
use crate::enums::NO_ERROR;

verus! {

/// A failure reported by the graphics backend, carrying a diagnostic text.
#[derive(Debug)]
pub struct GlError(pub String);

impl GlError {
    pub open spec fn view(&self) -> Seq<char> {
        self.0@
    }

    pub fn new(st: String) -> (r: GlError)
        ensures
            r@ == st@,
    {
        GlError(st)
    }

    pub fn message(&self) -> (r: &str)
        ensures
            r@ == self@,
    {
        self.0.as_str()
    }
}

pub open spec fn digit_char(d: nat) -> char {
    if d == 0 { '0' }
    else if d == 1 { '1' }
    else if d == 2 { '2' }
    else if d == 3 { '3' }
    else if d == 4 { '4' }
    else if d == 5 { '5' }
    else if d == 6 { '6' }
    else if d == 7 { '7' }
    else if d == 8 { '8' }
    else { '9' }
}

/// Decimal notation of `n`, most significant digit first, without leading zeros.
pub open spec fn decimal(n: nat) -> Seq<char>
    decreases n,
{
    if n < 10 {
        seq![digit_char(n)]
    } else {
        decimal(n / 10).push(digit_char(n % 10))
    }
}

fn digit_str(d: u64) -> (r: &'static str)
    requires
        d < 10,
    ensures
        r@ == seq![digit_char(d as nat)],
{
    proof {
        reveal_strlit("0");
        reveal_strlit("1");
        reveal_strlit("2");
        reveal_strlit("3");
        reveal_strlit("4");
        reveal_strlit("5");
        reveal_strlit("6");
        reveal_strlit("7");
        reveal_strlit("8");
        reveal_strlit("9");
    }
    if d == 0 { "0" }
    else if d == 1 { "1" }
    else if d == 2 { "2" }
    else if d == 3 { "3" }
    else if d == 4 { "4" }
    else if d == 5 { "5" }
    else if d == 6 { "6" }
    else if d == 7 { "7" }
    else if d == 8 { "8" }
    else { "9" }
}

/// Writes `n` in decimal.
pub fn decimal_string(n: u64) -> (r: String)
    ensures
        r@ == decimal(n as nat),
    decreases n,
{
    if n < 10 {
        String::from_str(digit_str(n))
    } else {
        let mut s = decimal_string(n / 10);
        s.append(digit_str(n % 10));
        s
    }
}

/// The failure that an error flag other than `NO_ERROR` turns into.
pub open spec fn flag_error(flag: u32) -> Seq<char> {
    decimal(flag as nat)
}

/// Turns the backend's error flag, as read right after a call, into a result:
/// success exactly when the flag is clear, else a failure naming the flag.
pub fn validate_gl(flag: u32) -> (r: Result<(), GlError>)
    ensures
        r is Ok <==> flag == NO_ERROR,
        r matches Err(e) ==> e@ == flag_error(flag),
{
    if flag == NO_ERROR {
        Ok(())
    } else {
        Err(GlError::new(decimal_string(flag as u64)))
    }
}

} // verus!
