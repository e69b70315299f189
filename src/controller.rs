use vstd::prelude::*;
use vstd::string::StrSliceExecFns;

verus! {

/// Whether two strings hold the same characters.
fn same_text(a: &str, b: &str) -> (r: bool)
    ensures
        r == (a@ == b@),
{
    let n = a.unicode_len();
    if n != b.unicode_len() {
        return false;
    }
    let mut i: usize = 0;
    while i < n
        invariant
            n == a@.len(),
            n == b@.len(),
            0 <= i <= n,
            forall|j: int| 0 <= j < i ==> a@[j] == b@[j],
        decreases n - i,
    {
        if a.get_char(i) != b.get_char(i) {
            return false;
        }
        i = i + 1;
    }
    assert(a@ =~= b@);
    true
}

/// The device names under which the supported controllers advertise.
pub open spec fn is_controller_alias(alias: Seq<char>) -> bool {
    alias == "Pro Controller"@ || alias == "Joy-Con (L)"@ || alias == "Joy-Con (R)"@
}

/// Whether a discovered device with this alias is a controller that the
/// proxy can stand in for.
pub fn is_supported_controller(alias: &str) -> (r: bool)
    ensures
        r == is_controller_alias(alias@),
{
    same_text(alias, "Pro Controller") || same_text(alias, "Joy-Con (L)") || same_text(
        alias,
        "Joy-Con (R)",
    )
}

} // verus!
