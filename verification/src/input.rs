use vstd::prelude::*;

verus! {

/// The register-backed input device behind $4016: a plain pass-through
/// register, read and written by the CPU.
pub struct InputDevice {
    /// The current register byte.
    pub register: u8,
}

impl InputDevice {
    pub fn new() -> (r: Self)
        ensures
            r.register == 0,
    {
        InputDevice { register: 0 }
    }

    /// The current register byte.
    pub fn read(&self) -> (r: u8)
        ensures
            r == self.register,
    {
        self.register
    }

    /// Replace the register byte.
    pub fn write(&mut self, value: u8)
        ensures
            final(self).register == value,
    {
        self.register = value;
    }
}

} // verus!
