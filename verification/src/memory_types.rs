use vstd::prelude::*;

verus! {

/// Whether memory type `i` can back the allocation: the resource's
/// requirements admit the type (bit `i` of `memory_type_bits` is set) and
/// the type's property flags include every requested flag.
pub open spec fn memory_type_suitable(
    memory_type_flags: Seq<u32>,
    memory_type_bits: u32,
    required_flags: u32,
    i: int,
) -> bool {
    &&& 0 <= i < memory_type_flags.len()
    &&& i < 32
    &&& (1u32 << i) & memory_type_bits != 0
    &&& memory_type_flags[i] & required_flags == required_flags
}

/// Picks the memory type for an allocation: the first type the resource's
/// requirements admit whose property flags include all required flags
/// (host-visible and host-coherent for CPU-updated data, device-local for
/// GPU-only data). `None` means no type fits — a fatal initialization
/// condition for the caller.
///
/// `memory_type_flags` holds the property flags of the device's memory
/// types, in device order; the device reports at most 32 types, one per bit
/// of `memory_type_bits`.
pub fn find_memorytype_index(
    memory_type_flags: &Vec<u32>,
    memory_type_bits: u32,
    required_flags: u32,
) -> (r: Option<u32>)
    requires
        memory_type_flags@.len() <= 32,
    ensures
        match r {
            Some(i) => {
                &&& memory_type_suitable(
                    memory_type_flags@,
                    memory_type_bits,
                    required_flags,
                    i as int,
                )
                &&& forall|j: int|
                    0 <= j < i ==> !memory_type_suitable(
                        memory_type_flags@,
                        memory_type_bits,
                        required_flags,
                        j,
                    )
            },
            None => forall|j: int|
                !memory_type_suitable(memory_type_flags@, memory_type_bits, required_flags, j),
        },
{
    let mut i: usize = 0;
    while i < memory_type_flags.len()
        invariant
            i <= memory_type_flags@.len(),
            memory_type_flags@.len() <= 32,
            forall|j: int|
                0 <= j < i ==> !memory_type_suitable(
                    memory_type_flags@,
                    memory_type_bits,
                    required_flags,
                    j,
                ),
        decreases memory_type_flags@.len() - i,
    {
        let admitted = (1u32 << (i as u32)) & memory_type_bits != 0;
        let flags = memory_type_flags[i];
        if admitted && flags & required_flags == required_flags {
            return Some(i as u32);
        }
        i += 1;
    }
    None
}

} // verus!
