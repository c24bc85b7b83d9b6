use vstd::prelude::*;

use crate::text::{to_wide_nul, utf16};

verus! {

/// A string as a zero-terminated UTF-16 string for the Windows API.
pub fn to_wstring(s: &str) -> (r: Vec<u16>)
    ensures
        r@ == utf16(s@).push(0),
{
    to_wide_nul(s)
}

} // verus!
