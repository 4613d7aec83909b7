//! The hardware model check: an exact string comparison against the one
//! denylisted model identifier.

use vstd::prelude::*;

use crate::error::Error;
use crate::error::ErrorModel;
use crate::error::result_model;

verus! {

/// The denylisted hardware model identifier, exactly as the system reports
/// it.
pub open spec fn pulp_machine() -> Seq<char> {
    "MacBookPro16,1"@
}

/// The verdict of the machine check on the model identifier `m`: only the
/// exact denylisted identifier fails.
pub open spec fn machine_result(m: Seq<char>) -> Result<(), ErrorModel> {
    if m == pulp_machine() {
        Err(ErrorModel::BadMacModel)
    } else {
        Ok(())
    }
}

/// Whether two strings hold the same characters.
fn str_eq(a: &str, b: &str) -> (r: bool)
    ensures
        r == (a@ == b@),
{
    let na = a.unicode_len();
    let nb = b.unicode_len();
    if na != nb {
        return false;
    }
    let mut i: usize = 0;
    while i < na
        invariant
            i <= na,
            na == a@.len(),
            na == b@.len(),
            forall|j: int| 0 <= j < i as int ==> a@[j] == b@[j],
        decreases na - i,
    {
        if a.get_char(i) != b.get_char(i) {
            return false;
        }
        i = i + 1;
    }
    proof {
        assert(a@ =~= b@);
    }
    true
}

/// Decides whether the hardware model identifier `model` is acceptable:
/// every identifier is, except the one denylisted model, which fails with
/// `Error::BadMacModel`. The comparison is exact — an identifier that
/// differs in any character, even only in punctuation, passes.
pub fn check_machine(model: &str) -> (r: Result<(), Error>)
    ensures
        result_model(r) == machine_result(model@),
{
    if str_eq(model, "MacBookPro16,1") {
        Err(Error::BadMacModel)
    } else {
        Ok(())
    }
}

} // verus!
