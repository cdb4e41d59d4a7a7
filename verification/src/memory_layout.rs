//! The flash of an ME7: where it lies and how it is cut into sectors.

use crate::MemoryLayout;
use vstd::prelude::*;

verus! {

/// Address of the first byte of the flash.
pub const BASE_ADDRESS: u32 = 8388608;

/// Size of the flash in bytes.
pub const SIZE: u32 = 1048576;

/// Sizes of the sectors, in ascending order of address.
pub const SECTORS: [u32; 19] = [
    16384,
    8192,
    8192,
    32768,
    65536,
    65536,
    65536,
    65536,
    65536,
    65536,
    65536,
    65536,
    65536,
    65536,
    65536,
    65536,
    65536,
    65536,
    65536,
];

/// Sum of the sizes of sectors.
pub open spec fn total_size(sectors: Seq<u32>) -> nat
    decreases sectors.len(),
{
    if sectors.len() == 0 {
        0
    } else {
        total_size(sectors.drop_last()) + sectors.last() as nat
    }
}

impl MemoryLayout {
    /// A layout whose sectors fill the flash exactly, and whose flash ends
    /// within the 32 bits of an address.
    pub open spec fn wf(self) -> bool {
        total_size(self.sectors@) == self.size && self.base_address + self.size <= u32::MAX + 1
    }

    /// The layout of an ME7.
    pub fn me7() -> (layout: MemoryLayout)
        ensures
            layout.base_address == BASE_ADDRESS,
            layout.size == SIZE,
            layout.sectors@ == SECTORS@,
            layout.wf(),
    {
        let mut sectors: Vec<u32> = Vec::new();
        let mut i: usize = 0;
        while i < 19
            invariant
                i <= 19,
                sectors@ == SECTORS@.subrange(0, i as int),
                total_size(sectors@) == (if i == 0 {
                    0nat
                } else if i == 1 {
                    16384nat
                } else if i == 2 {
                    24576nat
                } else if i == 3 {
                    32768nat
                } else {
                    (65536 * (i - 3)) as nat
                }),
            decreases 19 - i,
        {
            let ghost before = sectors@;
            sectors.push(SECTORS[i]);
            i += 1;
            proof {
                assert(sectors@ =~= SECTORS@.subrange(0, i as int));
                assert(sectors@.drop_last() =~= before);
            }
        }
        assert(sectors@ =~= SECTORS@);
        MemoryLayout { base_address: BASE_ADDRESS, size: SIZE, sectors }
    }
}

} // verus!
