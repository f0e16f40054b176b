//! Raw register values and single-register bit access.

use vstd::prelude::*;

verus! {

/// The four 32-bit words returned by one invocation of the identification
/// instruction for a given leaf/sub-leaf pair.
#[derive(Clone, Copy, Debug, PartialEq, Eq, Structural)]
pub struct CpuidResult {
    pub eax: u32,
    pub ebx: u32,
    pub ecx: u32,
    pub edx: u32,
}

/// True when bit `i` of `x` is set.
pub open spec fn bit32(x: u32, i: u32) -> bool {
    (x >> i) & 1 == 1
}

/// One 32-bit register, viewed as an indexed collection of bits.
pub struct Reg(pub u32);

impl Reg {
    pub fn new(reg: u32) -> (r: Reg)
        ensures
            r.0 == reg,
    {
        Reg(reg)
    }

    /// The 32 bits of the register, least significant first, as 0/1 bytes.
    pub fn to_bit_array(&self) -> (r: [u8; 32])
        ensures
            forall|i: int|
                0 <= i < 32 ==> r@[i] == (if bit32(self.0, i as u32) {
                    1u8
                } else {
                    0u8
                }),
    {
        let mut bit = [0u8; 32];
        let mut i: usize = 0;
        while i < 32
            invariant
                i <= 32,
                forall|j: int|
                    0 <= j < i ==> bit@[j] == (if bit32(self.0, j as u32) {
                        1u8
                    } else {
                        0u8
                    }),
            decreases 32 - i,
        {
            bit[i] = if (self.0 >> (i as u32)) & 1 == 1 {
                1
            } else {
                0
            };
            i += 1;
        }
        bit
    }

    /// The 32 bits of the register, least significant first, as booleans.
    pub fn to_bool_array(&self) -> (r: [bool; 32])
        ensures
            forall|i: int| 0 <= i < 32 ==> r@[i] == bit32(self.0, i as u32),
    {
        let mut array = [false; 32];
        let bits = self.to_bit_array();
        let mut i: usize = 0;
        while i < 32
            invariant
                i <= 32,
                forall|j: int|
                    0 <= j < 32 ==> bits@[j] == (if bit32(self.0, j as u32) {
                        1u8
                    } else {
                        0u8
                    }),
                forall|j: int| 0 <= j < i ==> array@[j] == bit32(self.0, j as u32),
            decreases 32 - i,
        {
            array[i] = bits[i] == 1;
            i += 1;
        }
        array
    }
}

} // verus!
