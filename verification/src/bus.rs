use vstd::prelude::*;

use crate::input::InputDevice;
use crate::mapper::Mapper;
use crate::ppu::{
    PPU, PpuState, spec_addr_write_state, spec_ctrl_write_raised, spec_ctrl_write_state,
    spec_data_port_open, spec_data_read_result, spec_data_read_state, spec_data_write_state,
    spec_mask_write_state, spec_oam_addr_write_state, spec_oam_data_write_state,
    spec_oam_write_suppressed, spec_port_addr, spec_ppu_step, spec_ppu_steps,
    spec_scroll_write_state, spec_status_byte, spec_status_read_state, zeroed,
};

verus! {

/// An interrupt request latched for the CPU collaborator. "No pending
/// interrupt" is an absent `Option` value, never a variant of this enum.
#[derive(PartialEq, Eq, Clone, Copy, Debug)]
pub enum Interrupt {
    Nmi,
    Irq,
}

/// The RAM slot an address in $0000-$1FFF lands on: system RAM is 2 KiB,
/// mirrored every $0800.
pub open spec fn ram_slot(addr: u16) -> int {
    (addr & 0x7FF) as int
}

/// The OAM slot the `j`-th DMA byte lands on when the cursor started at
/// `c0`: the cursor advances with 8-bit wraparound.
pub open spec fn oam_slot(c0: int, j: int) -> int {
    if c0 + j < 256 {
        c0 + j
    } else {
        c0 + j - 256
    }
}

/// The RAM slot the `j`-th DMA byte is fetched from when the source page
/// lies in RAM: page `p` mirrors onto page `p & 7` of the 2 KiB RAM.
pub open spec fn dma_src_slot(page: u8, j: int) -> int {
    ((page & 7) as int) * 256 + j
}

/// The two bus halves other than the PPU and the interrupt slot: RAM, the
/// cartridge view, the mapper and the input device.
pub open spec fn bus_env_same<M: Mapper>(a: BUS<M>, b: BUS<M>) -> bool {
    &&& a.ram@ == b.ram@
    &&& a.rom@ == b.rom@
    &&& a.mapper == b.mapper
    &&& a.input == b.input
}

/// Nothing observable about the bus changed.
pub open spec fn bus_same<M: Mapper>(a: BUS<M>, b: BUS<M>) -> bool {
    &&& bus_env_same(a, b)
    &&& a.ppu@ == b.ppu@
    &&& a.pending_interrupt == b.pending_interrupt
    &&& a.dma_stall == b.dma_stall
}

proof fn lemma_ram_slot_bound(addr: u16)
    by (bit_vector)
    ensures
        addr & 0x7FF <= 0x7FF,
{
}

proof fn lemma_dma_page(value: u8, i: u16)
    by (bit_vector)
    ensures
        (value as u16) << 8 <= 0xFF00,
        value < 0x20 ==> (value as u16) << 8 <= 0x1F00,
        value >= 0x40 ==> (value as u16) << 8 >= 0x4000,
        i < 256 ==> (((((value as u16) << 8) + i) as u16) & 0x7FF) == (((value as u16) & 7) << 8)
            + i,
        ((value as u16) & 7) << 8 == ((value & 7) as u16) * 256,
{
}

/// RAM mirroring: every address in $0000-$1FFF reaches the same RAM slot
/// as its mirror base `addr & 0x7FF`, so a read of either observes a write
/// through the other. The read and write contracts of [`BUS`] resolve all
/// such addresses through [`ram_slot`].
pub proof fn lemma_ram_mirroring(addr: u16)
    requires
        addr < 0x2000,
    ensures
        (addr & 0x7FF) < 0x2000,
        ram_slot(addr) == ram_slot(addr & 0x7FF),
{
    assert(addr & 0x7FF <= 0x7FF && (addr & 0x7FF) & 0x7FF == addr & 0x7FF) by (bit_vector);
}

/// Register mirroring: every address in $2000-$3FFF selects the same PPU
/// register as `$2000 + (addr & 7)`. The read and write contracts of
/// [`BUS`] dispatch every such address through `addr & 0x2007`, and the two
/// masks agree on the whole mirror range.
pub proof fn lemma_register_mirroring(addr: u16)
    requires
        0x2000 <= addr,
        addr < 0x4000,
    ensures
        addr & 0x2007 == 0x2000 + (addr & 7),
        0x2000 <= 0x2000 + (addr & 7),
        0x2000 + (addr & 7) < 0x4000,
        ((0x2000 + (addr & 7)) as u16) & 0x2007 == addr & 0x2007,
{
    assert(addr & 0x2007 == 0x2000 + (addr & 7) && addr & 7 <= 7 && ((0x2000 + (addr & 7)) as u16)
        & 0x2007 == addr & 0x2007) by (bit_vector)
        requires
            0x2000 <= addr && addr < 0x4000,
    ;
}

/// The system bus: 2 KiB of mirrored RAM, the PPU, the cartridge mapper,
/// the input device, the single overwritable interrupt slot and the DMA
/// stall flag. It decodes the full 16-bit CPU address space.
pub struct BUS<M: Mapper> {
    /// System RAM, 2 KiB, mirrored every $0800 across $0000-$1FFF.
    pub ram: Vec<u8>,
    /// Cartridge program-ROM bytes, held for the session and never written.
    pub rom: Vec<u8>,
    /// The cartridge mapper collaborator.
    pub mapper: M,
    pub ppu: PPU,
    /// The register-backed input device behind $4016.
    pub input: InputDevice,
    /// At most one outstanding interrupt; a new request overwrites rather
    /// than queues, and the CPU collaborator polls and clears it.
    pub pending_interrupt: Option<Interrupt>,
    /// True while an OAM DMA transfer is logically in flight; the CPU
    /// collaborator stalls on it.
    pub dma_stall: bool,
}

impl<M: Mapper> BUS<M> {
    pub open spec fn wf(self) -> bool {
        &&& self.ram@.len() == 0x800
        &&& self.ppu.wf()
    }

    pub fn new(rom: Vec<u8>, mapper: M, ppu: PPU) -> (r: BUS<M>)
        requires
            ppu.wf(),
        ensures
            r.wf(),
            r.ram@ =~= Seq::new(0x800, |i: int| 0u8),
            r.rom@ == rom@,
            r.mapper == mapper,
            r.ppu@ == ppu@,
            r.input.register == 0,
            r.pending_interrupt is None,
            !r.dma_stall,
    {
        let r = BUS {
            ram: zeroed(0x800),
            rom,
            mapper,
            ppu,
            input: InputDevice::new(),
            pending_interrupt: None,
            dma_stall: false,
        };
        proof {
            assert(r.ram@ =~= Seq::new(0x800, |i: int| 0u8));
        }
        r
    }

    /// One CPU read, decoded over the full address space: RAM with
    /// mirroring, the PPU registers with their documented side effects
    /// (write-only registers read as 0), the input device, the mapper's
    /// program space, and 0 everywhere unmapped.
    pub fn read(&mut self, addr: u16) -> (r: u8)
        requires
            old(self).wf(),
        ensures
            final(self).wf(),
            addr < 0x2000 ==> r == old(self).ram@[ram_slot(addr)] && bus_same(
                *old(self),
                *final(self),
            ),
            0x2000 <= addr && addr < 0x4000 && (addr & 0x2007) == 0x2002 ==> r
                == spec_status_byte(old(self).ppu@) && final(self).ppu@ == spec_status_read_state(
                old(self).ppu@,
            ),
            0x2000 <= addr && addr < 0x4000 && (addr & 0x2007) == 0x2004 ==> r
                == old(self).ppu@.oam[old(self).ppu@.regs[3] as int] && bus_same(
                *old(self),
                *final(self),
            ),
            0x2000 <= addr && addr < 0x4000 && (addr & 0x2007) == 0x2007 ==> r
                == spec_data_read_result(old(self).ppu@) && final(self).ppu@
                == spec_data_read_state(old(self).ppu@, final(self).ppu@.read_buffer),
            0x2000 <= addr && addr < 0x4000 && (addr & 0x2007) != 0x2002 && (addr & 0x2007)
                != 0x2004 && (addr & 0x2007) != 0x2007 ==> r == 0 && bus_same(
                *old(self),
                *final(self),
            ),
            0x2000 <= addr && addr < 0x4000 ==> bus_env_same(*old(self), *final(self)) && final(self).pending_interrupt == old(self).pending_interrupt && final(self).dma_stall == old(self).dma_stall,
            0x4000 <= addr && addr < 0x4020 && addr != 0x4016 ==> r == 0 && bus_same(
                *old(self),
                *final(self),
            ),
            addr == 0x4016 ==> r == old(self).input.register && bus_same(*old(self), *final(self)),
            0x4020 <= addr ==> bus_same(*old(self), *final(self)),
    {
        if addr < 0x2000 {
            proof {
                lemma_ram_slot_bound(addr);
            }
            self.ram[(addr & 0x7FF) as usize]
        } else if addr < 0x4000 {
            let reg = addr & 0x2007;
            if reg == 0x2002 {
                self.ppu.read_status()
            } else if reg == 0x2004 {
                self.ppu.get_oam_data()
            } else if reg == 0x2007 {
                self.ppu.get_vram(&self.mapper)
            } else {
                0
            }
        } else if addr == 0x4016 {
            self.input.read()
        } else if addr >= 0x4020 {
            self.mapper.read_prg(addr)
        } else {
            0
        }
    }

    /// The OAM DMA protocol behind $4014: 256 sequential bus reads from
    /// the named source page, each fed to the $2004 write path, with the
    /// stall flag raised for the CPU collaborator. When the page lies in
    /// RAM and rendering does not suppress OAM stores, the whole of OAM
    /// takes the page's bytes in source order, starting at the cursor, and
    /// the cursor comes back to where it started.
    fn oam_dma_transfer(&mut self, value: u8)
        requires
            old(self).wf(),
        ensures
            final(self).wf(),
            bus_env_same(*old(self), *final(self)),
            final(self).pending_interrupt == old(self).pending_interrupt,
            final(self).dma_stall,
            final(self).ppu@.regs == old(self).ppu@.regs,
            final(self).ppu@.vram == old(self).ppu@.vram,
            final(self).ppu@.secondary_oam == old(self).ppu@.secondary_oam,
            final(self).ppu@.t == old(self).ppu@.t,
            final(self).ppu@.fine_x == old(self).ppu@.fine_x,
            final(self).ppu@.oam_dma == old(self).ppu@.oam_dma,
            final(self).ppu@.scanline == old(self).ppu@.scanline,
            final(self).ppu@.dot == old(self).ppu@.dot,
            final(self).ppu@.odd_frame == old(self).ppu@.odd_frame,
            final(self).ppu@.show_background == old(self).ppu@.show_background,
            final(self).ppu@.show_sprites == old(self).ppu@.show_sprites,
            final(self).ppu@.sprite_zero_hit == old(self).ppu@.sprite_zero_hit,
            final(self).ppu@.sprite_overflow == old(self).ppu@.sprite_overflow,
            value < 0x20 && !spec_oam_write_suppressed(old(self).ppu@) ==> forall|j: int|
                0 <= j < 256 ==> final(self).ppu@.oam[oam_slot(
                    old(self).ppu@.regs[3] as int,
                    j,
                )] == old(self).ram@[dma_src_slot(value, j)],
            value < 0x20 && !spec_oam_write_suppressed(old(self).ppu@) ==> final(self).ppu@
                == (PpuState { oam: final(self).ppu@.oam, ..old(self).ppu@ }),
            value < 0x20 && spec_oam_write_suppressed(old(self).ppu@) ==> final(self).ppu@ == old(self).ppu@,
            value >= 0x40 ==> final(self).ppu@ == (PpuState {
                oam: final(self).ppu@.oam,
                ..old(self).ppu@
            }),
    {
        self.dma_stall = true;
        let page: u16 = (value as u16) << 8;
        let ghost c0: int = old(self).ppu@.regs[3] as int;
        let ghost suppressed = spec_oam_write_suppressed(old(self).ppu@);
        let mut i: u16 = 0;
        while i < 256
            invariant
                i <= 256,
                old(self).wf(),
                self.wf(),
                page == (value as u16) << 8,
                c0 == old(self).ppu@.regs[3] as int,
                0 <= c0,
                c0 < 256,
                suppressed == spec_oam_write_suppressed(old(self).ppu@),
                bus_env_same(*old(self), *self),
                self.pending_interrupt == old(self).pending_interrupt,
                self.dma_stall,
                self.ppu@.regs == old(self).ppu@.regs.update(3, oam_slot(c0, i as int) as u8),
                self.ppu@.vram == old(self).ppu@.vram,
                self.ppu@.secondary_oam == old(self).ppu@.secondary_oam,
                self.ppu@.t == old(self).ppu@.t,
                self.ppu@.fine_x == old(self).ppu@.fine_x,
                self.ppu@.oam_dma == old(self).ppu@.oam_dma,
                self.ppu@.scanline == old(self).ppu@.scanline,
                self.ppu@.dot == old(self).ppu@.dot,
                self.ppu@.odd_frame == old(self).ppu@.odd_frame,
                self.ppu@.show_background == old(self).ppu@.show_background,
                self.ppu@.show_sprites == old(self).ppu@.show_sprites,
                self.ppu@.sprite_zero_hit == old(self).ppu@.sprite_zero_hit,
                self.ppu@.sprite_overflow == old(self).ppu@.sprite_overflow,
                value < 0x20 || value >= 0x40 ==> self.ppu@ == (PpuState {
                    oam: self.ppu@.oam,
                    regs: self.ppu@.regs,
                    ..old(self).ppu@
                }),
                value < 0x20 && !suppressed ==> forall|j: int|
                    0 <= j < i ==> self.ppu@.oam[oam_slot(c0, j)] == old(self).ram@[dma_src_slot(
                        value,
                        j,
                    )],
                value < 0x20 && !suppressed ==> forall|j: int|
                    i <= j < 256 ==> self.ppu@.oam[oam_slot(c0, j)] == old(self).ppu@.oam[oam_slot(
                        c0,
                        j,
                    )],
                value < 0x20 && suppressed ==> self.ppu@.oam == old(self).ppu@.oam,
            decreases 256 - i,
        {
            proof {
                lemma_dma_page(value, i);
            }
            let b = self.read(page + i);
            self.ppu.set_oam_data(b);
            i = i + 1;
            proof {
                assert(self.ppu@.regs =~= old(self).ppu@.regs.update(
                    3,
                    oam_slot(c0, i as int) as u8,
                ));
            }
        }
        proof {
            assert(self.ppu@.regs =~= old(self).ppu@.regs);
            if value < 0x20 || value >= 0x40 {
                assert(self.ppu@ =~= (PpuState {
                    oam: self.ppu@.oam,
                    ..old(self).ppu@
                }));
            }
            if value < 0x20 && suppressed {
                assert(self.ppu@ =~= old(self).ppu@);
            }
        }
    }

    /// One CPU write, decoded over the full address space: RAM with
    /// mirroring, the PPU registers (a $2000 write that enables NMI during
    /// vblank latches NMI at once), the OAM DMA trigger at $4014, the
    /// input device, and the mapper's program space.
    pub fn write(&mut self, addr: u16, value: u8)
        requires
            old(self).wf(),
        ensures
            final(self).wf(),
            addr < 0x2000 ==> final(self).ram@ == old(self).ram@.update(ram_slot(addr), value)
                && final(self).rom@ == old(self).rom@ && final(self).mapper == old(self).mapper
                && final(self).ppu@ == old(self).ppu@ && final(self).input == old(self).input
                && final(self).pending_interrupt == old(self).pending_interrupt && final(self).dma_stall == old(self).dma_stall,
            0x2000 <= addr && addr < 0x4000 ==> final(self).ram@ == old(self).ram@
                && final(self).rom@ == old(self).rom@ && final(self).input == old(self).input
                && final(self).dma_stall == old(self).dma_stall,
            0x2000 <= addr && addr < 0x4000 && (addr & 0x2007) != 0x2007 ==> final(self).mapper
                == old(self).mapper,
            0x2000 <= addr && addr < 0x4000 && (addr & 0x2007) == 0x2007 && !(spec_data_port_open(
                old(self).ppu@,
            ) && spec_port_addr(old(self).ppu@) < 0x2000) ==> final(self).mapper
                == old(self).mapper,
            0x2000 <= addr && addr < 0x4000 && (addr & 0x2007) == 0x2000 ==> final(self).ppu@
                == spec_ctrl_write_state(old(self).ppu@, value) && final(self).pending_interrupt
                == (if spec_ctrl_write_raised(old(self).ppu@, value) {
                Some(Interrupt::Nmi)
            } else {
                old(self).pending_interrupt
            }),
            0x2000 <= addr && addr < 0x4000 && (addr & 0x2007) != 0x2000 ==> final(self).pending_interrupt == old(self).pending_interrupt,
            0x2000 <= addr && addr < 0x4000 && (addr & 0x2007) == 0x2001 ==> final(self).ppu@
                == spec_mask_write_state(old(self).ppu@, value),
            0x2000 <= addr && addr < 0x4000 && (addr & 0x2007) == 0x2002 ==> final(self).ppu@
                == old(self).ppu@,
            0x2000 <= addr && addr < 0x4000 && (addr & 0x2007) == 0x2003 ==> final(self).ppu@
                == spec_oam_addr_write_state(old(self).ppu@, value),
            0x2000 <= addr && addr < 0x4000 && (addr & 0x2007) == 0x2004 ==> final(self).ppu@
                == spec_oam_data_write_state(old(self).ppu@, value),
            0x2000 <= addr && addr < 0x4000 && (addr & 0x2007) == 0x2005 ==> final(self).ppu@
                == spec_scroll_write_state(old(self).ppu@, value),
            0x2000 <= addr && addr < 0x4000 && (addr & 0x2007) == 0x2006 ==> final(self).ppu@
                == spec_addr_write_state(old(self).ppu@, value),
            0x2000 <= addr && addr < 0x4000 && (addr & 0x2007) == 0x2007 ==> final(self).ppu@
                == spec_data_write_state(old(self).ppu@, value),
            addr == 0x4014 ==> final(self).dma_stall && bus_env_same(*old(self), *final(self))
                && final(self).pending_interrupt == old(self).pending_interrupt
                && final(self).ppu@.regs == old(self).ppu@.regs,
            addr == 0x4014 && value < 0x20 && !spec_oam_write_suppressed(old(self).ppu@)
                ==> (forall|j: int|
                0 <= j < 256 ==> final(self).ppu@.oam[oam_slot(
                    old(self).ppu@.regs[3] as int,
                    j,
                )] == old(self).ram@[dma_src_slot(value, j)]) && final(self).ppu@ == (PpuState {
                oam: final(self).ppu@.oam,
                ..old(self).ppu@
            }),
            addr == 0x4014 && value < 0x20 && spec_oam_write_suppressed(old(self).ppu@) ==> final(self).ppu@ == old(self).ppu@,
            addr == 0x4014 && value >= 0x40 ==> final(self).ppu@ == (PpuState {
                oam: final(self).ppu@.oam,
                ..old(self).ppu@
            }),
            addr == 0x4016 ==> final(self).input.register == value && final(self).ram@ == old(self).ram@ && final(self).rom@ == old(self).rom@ && final(self).mapper == old(self).mapper
                && final(self).ppu@ == old(self).ppu@ && final(self).pending_interrupt == old(self).pending_interrupt && final(self).dma_stall == old(self).dma_stall,
            0x4020 <= addr ==> final(self).ram@ == old(self).ram@ && final(self).rom@ == old(self).rom@ && final(self).ppu@ == old(self).ppu@ && final(self).input == old(self).input
                && final(self).pending_interrupt == old(self).pending_interrupt && final(self).dma_stall == old(self).dma_stall,
            0x4000 <= addr && addr < 0x4020 && addr != 0x4014 && addr != 0x4016 ==> bus_same(
                *old(self),
                *final(self),
            ),
    {
        if addr < 0x2000 {
            proof {
                lemma_ram_slot_bound(addr);
            }
            self.ram.set((addr & 0x7FF) as usize, value);
        } else if addr < 0x4000 {
            let reg = addr & 0x2007;
            if reg == 0x2000 {
                let raised = self.ppu.set_controller(value);
                if raised {
                    self.pending_interrupt = Some(Interrupt::Nmi);
                }
            } else if reg == 0x2001 {
                self.ppu.set_mask(value);
            } else if reg == 0x2003 {
                self.ppu.set_oam_addr(value);
            } else if reg == 0x2004 {
                self.ppu.set_oam_data(value);
            } else if reg == 0x2005 {
                self.ppu.write_twice(5, value);
            } else if reg == 0x2006 {
                self.ppu.write_twice(6, value);
            } else if reg == 0x2007 {
                self.ppu.set_vram(value, &mut self.mapper);
            }
            // reg == 0x2002 is the read-only status register: the write is dropped.
        } else if addr == 0x4014 {
            self.oam_dma_transfer(value);
        } else if addr == 0x4016 {
            self.input.write(value);
        } else if addr >= 0x4020 {
            self.mapper.write_prg(addr, value);
        }
    }

    /// Advance the PPU by exactly three dots per CPU cycle, latching any
    /// interrupt the PPU surfaces into the single overwritable slot.
    pub fn tick(&mut self, cycles: usize)
        requires
            old(self).wf(),
            cycles * 3 <= usize::MAX,
        ensures
            final(self).wf(),
            bus_env_same(*old(self), *final(self)),
            final(self).dma_stall == old(self).dma_stall,
            final(self).ppu@ == spec_ppu_steps(old(self).ppu@, (3 * cycles) as nat),
            final(self).pending_interrupt == (if cycles > 0 && spec_ppu_steps(
                old(self).ppu@,
                (3 * cycles) as nat,
            ).pending_interrupt is Some {
                spec_ppu_steps(old(self).ppu@, (3 * cycles) as nat).pending_interrupt
            } else {
                old(self).pending_interrupt
            }),
    {
        let total: usize = 3 * cycles;
        let mut k: usize = 0;
        while k < total
            invariant
                k <= total,
                total == 3 * cycles,
                old(self).wf(),
                self.wf(),
                bus_env_same(*old(self), *self),
                self.dma_stall == old(self).dma_stall,
                self.ppu@ == spec_ppu_steps(old(self).ppu@, k as nat),
                self.pending_interrupt == (if k > 0 && self.ppu@.pending_interrupt is Some {
                    self.ppu@.pending_interrupt
                } else {
                    old(self).pending_interrupt
                }),
            decreases total - k,
        {
            let irq = self.ppu.step();
            if irq.is_some() {
                self.pending_interrupt = irq;
            }
            k = k + 1;
        }
    }
}

} // verus!
