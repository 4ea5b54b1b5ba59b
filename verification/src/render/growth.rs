use vstd::prelude::*;

verus! {

/// The size a GPU buffer is grown to when `needed` bytes no longer fit:
/// half as large again as what is needed.
pub open spec fn grown(needed: nat) -> nat {
    needed / 2 + needed
}

/// The size a GPU buffer is grown to when `needed` bytes no longer fit:
/// half as large again as what is needed.
pub fn grown_size(needed: u64) -> (size: u64)
    requires
        grown(needed as nat) <= u64::MAX,
    ensures
        size == grown(needed as nat),
        size >= needed,
{
    needed / 2 + needed
}

/// The new size of a GPU buffer of `capacity` bytes that must hold
/// `needed` bytes: `None` where they fit, the grown size otherwise.
pub fn resize_for(capacity: u64, needed: u64) -> (r: Option<u64>)
    requires
        needed > capacity ==> grown(needed as nat) <= u64::MAX,
    ensures
        needed <= capacity ==> r is None,
        needed > capacity ==> r == Some(grown(needed as nat) as u64),
        r matches Some(size) ==> size >= needed,
{
    if capacity < needed {
        Some(grown_size(needed))
    } else {
        None
    }
}

} // verus!
