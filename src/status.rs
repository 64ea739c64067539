use vstd::prelude::*;

verus! {

/// The security score reported to the interface, as a percentage.
pub const SECURITY_STATUS: u8 = 85;

/// Reports the current security score. The score is fixed in this build, so
/// the query always succeeds with `SECURITY_STATUS`.
pub fn get_security_status() -> (r: Result<u8, String>)
    ensures
        r matches Ok(v) && v == SECURITY_STATUS,
{
    Ok(SECURITY_STATUS)
}

} // verus!
