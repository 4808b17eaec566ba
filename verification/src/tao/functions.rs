//! Free functions of the windowing side.

use vstd::prelude::*;
use vstd::string::StringExecFns;

verus! {

/// Reports the version of the windowing library the bindings are written
/// against: the text `0.34.5`.
pub fn tao_version() -> (v: String)
    ensures
        v@ == "0.34.5"@,
{
    String::from_str("0.34.5")
}

} // verus!
