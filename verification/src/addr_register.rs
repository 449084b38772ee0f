use vstd::prelude::*;

verus! {

/// The coarse-X field (bits 0-4) of a 15-bit scroll/address value.
pub open spec fn coarse_x(v: u16) -> u16 {
    v & 0x1F
}

/// The coarse-Y field (bits 5-9) of a 15-bit scroll/address value.
pub open spec fn coarse_y(v: u16) -> u16 {
    (v >> 5) & 0x1F
}

/// The horizontal-nametable-select bit (bit 10).
pub open spec fn nt_h(v: u16) -> u16 {
    (v >> 10) & 1
}

/// The vertical-nametable-select bit (bit 11).
pub open spec fn nt_v(v: u16) -> u16 {
    (v >> 11) & 1
}

/// The fine-Y field (bits 12-14) of a 15-bit scroll/address value.
pub open spec fn fine_y(v: u16) -> u16 {
    (v >> 12) & 0x7
}

/// The PPU's 15-bit "loopy" scroll/address register, laid out as
/// `fine-Y(3) | nametable(2) | coarse-Y(5) | coarse-X(5)`, together with the
/// first/second-write latch used by the two-step address protocol.
pub struct AddrRegister {
    /// The raw 15-bit value; the invariant keeps it at or below 0x7FFF.
    pub value: u16,
    /// True while the next two-step write is the first (high) half.
    pub hi_ptr: bool,
}

impl AddrRegister {
    /// The register is well formed when its value fits in 15 bits.
    pub open spec fn wf(self) -> bool {
        self.value <= 0x7FFF
    }

    pub fn new() -> (r: Self)
        ensures
            r.value == 0,
            r.hi_ptr,
            r.wf(),
    {
        AddrRegister { value: 0, hi_ptr: true }
    }

    /// Overwrite the raw 15-bit value, leaving the latch alone.
    pub fn set(&mut self, data: u16)
        requires
            data <= 0x7FFF,
        ensures
            final(self).value == data,
            final(self).hi_ptr == old(self).hi_ptr,
            final(self).wf(),
    {
        self.value = data;
    }

    /// Copy coarse-X and the horizontal-nametable bit from a raw 15-bit
    /// value, leaving every other field and the latch alone.
    pub fn set_horizontal(&mut self, t_addr: u16)
        requires
            old(self).wf(),
        ensures
            final(self).value == (old(self).value & 0xFBE0) | (t_addr & 0x041F),
            coarse_x(final(self).value) == coarse_x(t_addr),
            nt_h(final(self).value) == nt_h(t_addr),
            coarse_y(final(self).value) == coarse_y(old(self).value),
            nt_v(final(self).value) == nt_v(old(self).value),
            fine_y(final(self).value) == fine_y(old(self).value),
            final(self).hi_ptr == old(self).hi_ptr,
            final(self).wf(),
    {
        proof {
            let v = self.value;
            let t = t_addr;
            let n: u16 = (v & 0xFBE0) | (t & 0x041F);
            assert(n <= 0x7FFF
                && n & 0x1F == t & 0x1F
                && (n >> 10) & 1 == (t >> 10) & 1
                && (n >> 5) & 0x1F == (v >> 5) & 0x1F
                && (n >> 11) & 1 == (v >> 11) & 1
                && (n >> 12) & 0x7 == (v >> 12) & 0x7) by (bit_vector)
                requires
                    v <= 0x7FFF,
                    n == (v & 0xFBE0) | (t & 0x041F),
            ;
        }
        self.value = (self.value & 0xFBE0) | (t_addr & 0x041F);
    }

    /// Copy coarse-Y, fine-Y and the vertical-nametable bit from a raw
    /// 15-bit value, leaving coarse-X, the horizontal bit and the latch
    /// alone.
    pub fn set_vertical(&mut self, t_data: u16)
        requires
            old(self).wf(),
        ensures
            final(self).value == (old(self).value & 0x841F) | (t_data & 0x7BE0),
            coarse_y(final(self).value) == coarse_y(t_data),
            nt_v(final(self).value) == nt_v(t_data),
            fine_y(final(self).value) == fine_y(t_data),
            coarse_x(final(self).value) == coarse_x(old(self).value),
            nt_h(final(self).value) == nt_h(old(self).value),
            final(self).hi_ptr == old(self).hi_ptr,
            final(self).wf(),
    {
        proof {
            let v = self.value;
            let t = t_data;
            let n: u16 = (v & 0x841F) | (t & 0x7BE0);
            assert(n <= 0x7FFF
                && (n >> 5) & 0x1F == (t >> 5) & 0x1F
                && (n >> 11) & 1 == (t >> 11) & 1
                && (n >> 12) & 0x7 == (t >> 12) & 0x7
                && n & 0x1F == v & 0x1F
                && (n >> 10) & 1 == (v >> 10) & 1) by (bit_vector)
                requires
                    v <= 0x7FFF,
                    n == (v & 0x841F) | (t & 0x7BE0),
            ;
        }
        self.value = (self.value & 0x841F) | (t_data & 0x7BE0);
    }

    /// One write of the two-step address protocol. On the first write the
    /// staged value `temp` takes the low six bits of `data` as its bits 8-13
    /// and clears bit 14; on the second write `temp` takes `data` as its low
    /// byte and the whole of `temp` is copied into this register. The latch
    /// flips after either write.
    pub fn update(&mut self, data: u8, temp: &mut u16)
        requires
            old(self).wf(),
            *old(temp) <= 0x7FFF,
        ensures
            old(self).hi_ptr ==> *final(temp) == (((data & 0x3F) as u16) << 8) | (*old(temp) & 0xFF),
            old(self).hi_ptr ==> final(self).value == old(self).value,
            !old(self).hi_ptr ==> *final(temp) == (*old(temp) & 0xFF00) | (data as u16),
            !old(self).hi_ptr ==> final(self).value == *final(temp),
            final(self).hi_ptr == !old(self).hi_ptr,
            *final(temp) <= 0x7FFF,
            final(self).wf(),
    {
        if self.hi_ptr {
            proof {
                let d = data;
                let t = *temp;
                assert((((d & 0x3F) as u16) << 8) | (t & 0xFF) <= 0x7FFF) by (bit_vector);
            }
            *temp = (((data & 0x3F) as u16) << 8) | (*temp & 0xFF);
            self.hi_ptr = false;
        } else {
            proof {
                let d = data;
                let t = *temp;
                assert((t & 0xFF00) | (d as u16) <= 0x7FFF) by (bit_vector)
                    requires
                        t <= 0x7FFF,
                ;
            }
            *temp = (*temp & 0xFF00) | (data as u16);
            self.value = *temp;
            self.hi_ptr = true;
        }
    }

    /// If coarse-X is 31, reset it to 0 and flip the horizontal-nametable
    /// bit; otherwise add 1 to coarse-X. No other field changes.
    pub fn coarse_x_increment(&mut self)
        requires
            old(self).wf(),
        ensures
            coarse_x(old(self).value) == 31 ==> coarse_x(final(self).value) == 0,
            coarse_x(old(self).value) == 31 ==> nt_h(final(self).value) != nt_h(old(self).value),
            coarse_x(old(self).value) == 31
                ==> final(self).value == ((old(self).value & 0xFFE0) ^ 0x0400),
            coarse_x(old(self).value) != 31
                ==> coarse_x(final(self).value) == coarse_x(old(self).value) + 1,
            coarse_x(old(self).value) != 31 ==> nt_h(final(self).value) == nt_h(old(self).value),
            coarse_x(old(self).value) != 31 ==> final(self).value == old(self).value + 1,
            coarse_y(final(self).value) == coarse_y(old(self).value),
            nt_v(final(self).value) == nt_v(old(self).value),
            fine_y(final(self).value) == fine_y(old(self).value),
            final(self).hi_ptr == old(self).hi_ptr,
            final(self).wf(),
    {
        if self.value & 0x1F == 31 {
            proof {
                let v = self.value;
                let n: u16 = (v & 0xFFE0) ^ 0x0400;
                assert(n & 0x1F == 0
                    && (n >> 10) & 1 != (v >> 10) & 1
                    && (n >> 5) & 0x1F == (v >> 5) & 0x1F
                    && (n >> 11) & 1 == (v >> 11) & 1
                    && (n >> 12) & 0x7 == (v >> 12) & 0x7
                    && n <= 0x7FFF) by (bit_vector)
                    requires
                        v <= 0x7FFF,
                        n == (v & 0xFFE0) ^ 0x0400,
                ;
            }
            self.value = (self.value & 0xFFE0) ^ 0x0400;
        } else {
            proof {
                let v = self.value;
                assert(v < 0x7FFF) by (bit_vector)
                    requires
                        v <= 0x7FFF,
                        v & 0x1F != 31,
                ;
                let n: u16 = (v + 1) as u16;
                assert(n & 0x1F == (v & 0x1F) + 1
                    && (n >> 10) & 1 == (v >> 10) & 1
                    && (n >> 5) & 0x1F == (v >> 5) & 0x1F
                    && (n >> 11) & 1 == (v >> 11) & 1
                    && (n >> 12) & 0x7 == (v >> 12) & 0x7) by (bit_vector)
                    requires
                        v < 0x7FFF,
                        v & 0x1F != 31,
                        n == (v + 1) as u16,
                ;
            }
            self.value = self.value + 1;
        }
    }

    /// If fine-Y is below 7, add 1 to it. Otherwise reset fine-Y to 0 and
    /// then: at coarse-Y 29, reset coarse-Y and flip the vertical-nametable
    /// bit; at the out-of-range coarse-Y 31, reset coarse-Y without a flip;
    /// anywhere else, add 1 to coarse-Y.
    pub fn y_increment(&mut self)
        requires
            old(self).wf(),
        ensures
            fine_y(old(self).value) < 7 ==> final(self).value == old(self).value + 0x1000,
            fine_y(old(self).value) < 7
                ==> fine_y(final(self).value) == fine_y(old(self).value) + 1,
            fine_y(old(self).value) < 7
                ==> coarse_y(final(self).value) == coarse_y(old(self).value),
            fine_y(old(self).value) < 7 ==> nt_v(final(self).value) == nt_v(old(self).value),
            fine_y(old(self).value) == 7 ==> fine_y(final(self).value) == 0,
            fine_y(old(self).value) == 7 && coarse_y(old(self).value) == 29
                ==> coarse_y(final(self).value) == 0 && nt_v(final(self).value) != nt_v(old(self).value),
            fine_y(old(self).value) == 7 && coarse_y(old(self).value) == 31
                ==> coarse_y(final(self).value) == 0 && nt_v(final(self).value) == nt_v(old(self).value),
            fine_y(old(self).value) == 7 && coarse_y(old(self).value) != 29
                && coarse_y(old(self).value) != 31
                ==> coarse_y(final(self).value) == coarse_y(old(self).value) + 1
                    && nt_v(final(self).value) == nt_v(old(self).value),
            coarse_x(final(self).value) == coarse_x(old(self).value),
            nt_h(final(self).value) == nt_h(old(self).value),
            final(self).hi_ptr == old(self).hi_ptr,
            final(self).wf(),
    {
        if self.value & 0x7000 != 0x7000 {
            proof {
                let v = self.value;
                assert(v + 0x1000 <= 0x7FFF && (v >> 12) & 0x7 < 7) by (bit_vector)
                    requires
                        v <= 0x7FFF,
                        v & 0x7000 != 0x7000,
                ;
                let n: u16 = (v + 0x1000) as u16;
                assert((n >> 12) & 0x7 == ((v >> 12) & 0x7) + 1
                    && (n >> 5) & 0x1F == (v >> 5) & 0x1F
                    && (n >> 11) & 1 == (v >> 11) & 1
                    && n & 0x1F == v & 0x1F
                    && (n >> 10) & 1 == (v >> 10) & 1) by (bit_vector)
                    requires
                        v <= 0x6FFF,
                        v & 0x7000 != 0x7000,
                        n == (v + 0x1000) as u16,
                ;
            }
            self.value = self.value + 0x1000;
        } else {
            proof {
                let v = self.value;
                assert((v >> 12) & 0x7 == 7) by (bit_vector)
                    requires
                        v & 0x7000 == 0x7000,
                ;
            }
            let base = self.value & 0x0FFF;
            let y = (base >> 5) & 0x1F;
            proof {
                let v = self.value;
                let b = base;
                assert(((v & 0x0FFF) >> 5) & 0x1F == (v >> 5) & 0x1F
                    && (b >> 5) & 0x1F <= 31) by (bit_vector)
                    requires
                        b == v & 0x0FFF,
                ;
            }
            let next = if y == 29 {
                proof {
                    let v = self.value;
                    let b = base;
                    let n: u16 = (b & 0xFC1F) ^ 0x0800;
                    assert((n >> 12) & 0x7 == 0
                        && (n >> 5) & 0x1F == 0
                        && (n >> 11) & 1 != (v >> 11) & 1
                        && n & 0x1F == v & 0x1F
                        && (n >> 10) & 1 == (v >> 10) & 1
                        && n <= 0x7FFF) by (bit_vector)
                        requires
                            b == v & 0x0FFF,
                            n == (b & 0xFC1F) ^ 0x0800,
                    ;
                }
                (base & 0xFC1F) ^ 0x0800
            } else if y == 31 {
                proof {
                    let v = self.value;
                    let b = base;
                    let n: u16 = b & 0xFC1F;
                    assert((n >> 12) & 0x7 == 0
                        && (n >> 5) & 0x1F == 0
                        && (n >> 11) & 1 == (v >> 11) & 1
                        && n & 0x1F == v & 0x1F
                        && (n >> 10) & 1 == (v >> 10) & 1
                        && n <= 0x7FFF) by (bit_vector)
                        requires
                            b == v & 0x0FFF,
                            n == b & 0xFC1F,
                    ;
                }
                base & 0xFC1F
            } else {
                proof {
                    let v = self.value;
                    let b = base;
                    let y2 = y;
                    let n: u16 = (b & 0xFC1F) | (((y2 + 1) as u16) << 5);
                    assert((n >> 12) & 0x7 == 0
                        && (n >> 5) & 0x1F == ((v >> 5) & 0x1F) + 1
                        && (n >> 11) & 1 == (v >> 11) & 1
                        && n & 0x1F == v & 0x1F
                        && (n >> 10) & 1 == (v >> 10) & 1
                        && n <= 0x7FFF) by (bit_vector)
                        requires
                            b == v & 0x0FFF,
                            y2 == (b >> 5) & 0x1F,
                            y2 != 29,
                            y2 != 31,
                            n == (b & 0xFC1F) | (((y2 + 1) as u16) << 5),
                    ;
                }
                (base & 0xFC1F) | ((y + 1) << 5)
            };
            self.value = next;
        }
    }

    /// Add `inc` to the whole value with carry out of the low byte, then
    /// mask the result to the 14-bit space visible to data-port access.
    pub fn increment(&mut self, inc: u8)
        requires
            old(self).wf(),
        ensures
            final(self).value as int == (old(self).value + inc) % 0x4000,
            final(self).value <= 0x3FFF,
            final(self).hi_ptr == old(self).hi_ptr,
            final(self).wf(),
    {
        let sum = self.value + (inc as u16);
        proof {
            let s = sum;
            assert(s & 0x3FFF == s % 0x4000 && (s <= 0x3FFF ==> s % 0x4000 == s)) by (bit_vector);
        }
        if sum > 0x3FFF {
            self.value = sum & 0x3FFF;
        } else {
            self.value = sum;
        }
    }

    /// Put the latch back into first-write state.
    pub fn reset_latch(&mut self)
        ensures
            final(self).hi_ptr,
            final(self).value == old(self).value,
    {
        self.hi_ptr = true;
    }

    /// Flip the latch between first-write and second-write state.
    pub fn toggle_latch(&mut self)
        ensures
            final(self).hi_ptr == !old(self).hi_ptr,
            final(self).value == old(self).value,
    {
        self.hi_ptr = !self.hi_ptr;
    }

    /// True while the next two-step write is the first of its pair.
    pub fn latch(&self) -> (r: bool)
        ensures
            r == self.hi_ptr,
    {
        self.hi_ptr
    }

    /// The raw 15-bit value.
    pub fn get(&self) -> (r: u16)
        ensures
            r == self.value,
    {
        self.value
    }
}

} // verus!
