use vstd::prelude::*;

verus! {

/// Whether candidate device `i` can drive the renderer through its queue
/// family `j`: the flag the shell collected for that pair — the family
/// supports graphics work and can present to the surface — is set.
pub open spec fn family_suitable(support: Seq<Vec<bool>>, i: int, j: int) -> bool {
    &&& 0 <= i < support.len()
    &&& 0 <= j < support[i]@.len()
    &&& support[i]@[j]
}

/// Picks the physical device and queue family the renderer runs on: the
/// first device, in enumeration order, that has a suitable queue family,
/// together with that device's first suitable family. `None` means no
/// device fits — a fatal initialization condition for the caller.
///
/// `support` holds one row per candidate device, with one flag per queue
/// family: whether that family both supports graphics and can present to
/// the surface.
pub fn select_device_and_queue_family(support: &Vec<Vec<bool>>) -> (r: Option<(usize, usize)>)
    ensures
        match r {
            Some(p) => {
                &&& family_suitable(support@, p.0 as int, p.1 as int)
                &&& forall|a: int, b: int| 0 <= a < p.0 ==> !family_suitable(support@, a, b)
                &&& forall|b: int| 0 <= b < p.1 ==> !family_suitable(support@, p.0 as int, b)
            },
            None => forall|a: int, b: int| !family_suitable(support@, a, b),
        },
{
    let mut i: usize = 0;
    while i < support.len()
        invariant
            i <= support@.len(),
            forall|a: int, b: int| 0 <= a < i ==> !family_suitable(support@, a, b),
        decreases support@.len() - i,
    {
        let mut j: usize = 0;
        while j < support[i].len()
            invariant
                i < support@.len(),
                j <= support@[i as int]@.len(),
                forall|b: int| 0 <= b < j ==> !family_suitable(support@, i as int, b),
                forall|a: int, b: int| 0 <= a < i ==> !family_suitable(support@, a, b),
            decreases support@[i as int]@.len() - j,
        {
            if support[i][j] {
                return Some((i, j));
            }
            j += 1;
        }
        i += 1;
    }
    None
}

} // verus!
