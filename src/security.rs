//! Data-protection helpers that the scanner can recommend. Both are
//! stand-ins that only tag their input.

use vstd::prelude::*;

verus! {

/// The data tagged as encrypted: `encrypted(<data>)`. The key is not used.
pub fn encrypt(data: &str, key: &str) -> (r: Result<String, &'static str>)
    ensures
        r is Ok,
        r->Ok_0@ == "encrypted("@ + data@ + ")"@,
{
    let mut out = String::from_str("encrypted(");
    out.append(data);
    out.append(")");
    Ok(out)
}

/// The data tagged as pseudonymized: `pseudonymized(<data>)`.
pub fn pseudonymize(data: &str) -> (r: String)
    ensures
        r@ == "pseudonymized("@ + data@ + ")"@,
{
    let mut out = String::from_str("pseudonymized(");
    out.append(data);
    out.append(")");
    out
}

} // verus!
