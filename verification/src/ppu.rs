use vstd::prelude::*;

use crate::addr_register::AddrRegister;
use crate::bus::Interrupt;
use crate::mapper::Mapper;

verus! {

/// The abstract state of the PPU: every register, counter, flag and memory
/// table, with the two scroll registers reduced to their raw 15-bit values
/// and the shared $2005/$2006 write latch reduced to one boolean
/// (`first_write` true while the next write is the first of its pair).
#[verifier::ext_equal]
pub struct PpuState {
    pub regs: Seq<u8>,
    pub v: u16,
    pub t: u16,
    pub first_write: bool,
    pub fine_x: u8,
    pub oam: Seq<u8>,
    pub secondary_oam: Seq<u8>,
    pub vram: Seq<u8>,
    pub oam_dma: u8,
    pub read_buffer: u8,
    pub scanline: u16,
    pub dot: u16,
    pub odd_frame: bool,
    pub show_background: bool,
    pub show_sprites: bool,
    pub in_vblank: bool,
    pub sprite_zero_hit: bool,
    pub sprite_overflow: bool,
    pub pending_interrupt: Option<Interrupt>,
}

/// Table sizes are fixed, the scroll values fit in 15 bits, and the timing
/// counters stay inside one frame.
pub open spec fn spec_state_wf(s: PpuState) -> bool {
    &&& s.regs.len() == 8
    &&& s.oam.len() == 256
    &&& s.secondary_oam.len() == 32
    &&& s.vram.len() == 0x4000
    &&& s.v <= 0x7FFF
    &&& s.t <= 0x7FFF
    &&& s.scanline <= 261
    &&& s.dot <= 340
}

/// Background or sprite rendering is switched on.
pub open spec fn spec_rendering_enabled(s: PpuState) -> bool {
    s.show_background || s.show_sprites
}

/// A $2004 write lands during active rendering: a pre-render or visible
/// scanline while background or sprites are enabled. Such a write is
/// suppressed for data but still advances the cursor.
pub open spec fn spec_oam_write_suppressed(s: PpuState) -> bool {
    (s.scanline <= 239 || s.scanline == 261) && (s.show_background || s.show_sprites)
}

/// The $2007 data port reaches memory only while rendering is disabled or
/// the PPU is in vertical blank.
pub open spec fn spec_data_port_open(s: PpuState) -> bool {
    (!s.show_background && !s.show_sprites) || s.in_vblank
}

/// The VRAM step selected by the control register: 32 when bit 2 is set,
/// else 1.
pub open spec fn spec_vram_increment(ctrl: u8) -> u8 {
    if ctrl & 4 == 4 {
        32
    } else {
        1
    }
}

/// A 15-bit scroll value advanced by `inc` and masked to the 14-bit space
/// visible to data-port access.
pub open spec fn spec_bump(v: u16, inc: u8) -> u16 {
    (((v + inc) % 0x4000) as u16)
}

/// The 14-bit address the data port acts on.
pub open spec fn spec_port_addr(s: PpuState) -> u16 {
    s.v & 0x3FFF
}

/// An 8-bit cursor advanced by one with wraparound.
pub open spec fn spec_wrap_inc_u8(x: u8) -> u8 {
    if x == 255 {
        0
    } else {
        (x + 1) as u8
    }
}

/// The status byte served by $2002: vblank, sprite-zero hit and sprite
/// overflow in bits 7-5, over the low five bits of the raw register image.
pub open spec fn spec_status_byte(s: PpuState) -> u8 {
    ((if s.in_vblank {
        0x80u8
    } else {
        0u8
    }) | (if s.sprite_zero_hit {
        0x40u8
    } else {
        0u8
    }) | (if s.sprite_overflow {
        0x20u8
    } else {
        0u8
    })) | (s.regs[2] & 0x1F)
}

/// State after a $2002 read: vblank cleared, the shared write latch back in
/// first-write mode, and the pending interrupt consumed.
pub open spec fn spec_status_read_state(s: PpuState) -> PpuState {
    PpuState { in_vblank: false, first_write: true, pending_interrupt: None, ..s }
}

/// State after the pre-render clear at dot 1 of the pre-render line:
/// vblank, sprite-zero hit and sprite overflow all cleared.
pub open spec fn spec_status_clear_state(s: PpuState) -> PpuState {
    PpuState {
        in_vblank: false,
        sprite_zero_hit: false,
        sprite_overflow: false,
        regs: s.regs.update(2, s.regs[2] & 0x1F),
        ..s
    }
}

/// A $2000 write raises NMI at once exactly when it turns the NMI-enable
/// bit from 0 to 1 while vblank is already in progress.
pub open spec fn spec_ctrl_write_raised(s: PpuState, value: u8) -> bool {
    s.regs[0] & 0x80 == 0 && value & 0x80 == 0x80 && s.in_vblank
}

/// State after a $2000 write: the raw image takes the byte, the low two
/// bits land in `t`'s nametable-select bits, and an NMI is latched on the
/// 0-to-1 edge during vblank.
pub open spec fn spec_ctrl_write_state(s: PpuState, value: u8) -> PpuState {
    PpuState {
        regs: s.regs.update(0, value),
        t: (s.t & 0xF3FF) | (((value & 3) as u16) << 10),
        pending_interrupt: if spec_ctrl_write_raised(s, value) {
            Some(Interrupt::Nmi)
        } else {
            s.pending_interrupt
        },
        ..s
    }
}

/// State after a $2001 write: bit 3 drives background rendering, bit 4
/// sprite rendering.
pub open spec fn spec_mask_write_state(s: PpuState, value: u8) -> PpuState {
    PpuState {
        regs: s.regs.update(1, value),
        show_background: value & 0x08 == 0x08,
        show_sprites: value & 0x10 == 0x10,
        ..s
    }
}

/// State after a $2003 write: the OAM cursor is set directly.
pub open spec fn spec_oam_addr_write_state(s: PpuState, value: u8) -> PpuState {
    PpuState { regs: s.regs.update(3, value), ..s }
}

/// State after a $2004 write: the byte lands at the cursor unless the
/// write is suppressed by active rendering; the cursor advances either way.
pub open spec fn spec_oam_data_write_state(s: PpuState, value: u8) -> PpuState {
    PpuState {
        oam: if spec_oam_write_suppressed(s) {
            s.oam
        } else {
            s.oam.update(s.regs[3] as int, value)
        },
        regs: s.regs.update(3, spec_wrap_inc_u8(s.regs[3])),
        ..s
    }
}

/// State after a $2005 write. The first write of a pair stages coarse-X in
/// `t` and keeps the fine-X bits beside it; the second stages fine-Y and
/// coarse-Y in `t`. The raw register image keeps one nibble from each
/// write.
pub open spec fn spec_scroll_write_state(s: PpuState, value: u8) -> PpuState {
    if s.first_write {
        PpuState {
            t: (s.t & 0xFFE0) | ((value >> 3) as u16),
            fine_x: value & 0x07,
            first_write: false,
            regs: s.regs.update(5, (s.regs[5] & 0x0F) | (value << 4)),
            ..s
        }
    } else {
        PpuState {
            t: ((s.t & 0x0C1F) | (((value & 0x07) as u16) << 12)) | (((value & 0xF8) as u16)
                << 2),
            first_write: true,
            regs: s.regs.update(5, (s.regs[5] & 0xF0) | (value & 0x0F)),
            ..s
        }
    }
}

/// State after a $2006 write. The first write of a pair stages the high
/// six bits of `t` and clears bit 14; the second stages the low byte and
/// copies the whole of `t` into `v`.
pub open spec fn spec_addr_write_state(s: PpuState, value: u8) -> PpuState {
    if s.first_write {
        PpuState {
            t: (((value & 0x3F) as u16) << 8) | (s.t & 0xFF),
            first_write: false,
            regs: s.regs.update(6, (s.regs[6] & 0x0F) | (value << 4)),
            ..s
        }
    } else {
        PpuState {
            t: (s.t & 0xFF00) | (value as u16),
            v: (s.t & 0xFF00) | (value as u16),
            first_write: true,
            regs: s.regs.update(6, (s.regs[6] & 0xF0) | (value & 0x0F)),
            ..s
        }
    }
}

/// The byte a $2007 read returns: 0 while the port is closed; the delayed
/// buffer below the palette region; the palette byte itself at or above
/// $3F00.
pub open spec fn spec_data_read_result(s: PpuState) -> u8 {
    if !spec_data_port_open(s) {
        0
    } else if spec_port_addr(s) < 0x3F00 {
        s.read_buffer
    } else {
        s.vram[spec_port_addr(s) as int]
    }
}

/// State after a $2007 read. `chr` stands for the byte the cartridge
/// served when the address fell in pattern-table space; the buffer is
/// refreshed from it, from the nametable byte, or from the byte underlying
/// the palette address, and `v` advances by the selected step.
pub open spec fn spec_data_read_state(s: PpuState, chr: u8) -> PpuState {
    if !spec_data_port_open(s) {
        s
    } else {
        PpuState {
            read_buffer: if spec_port_addr(s) < 0x2000 {
                chr
            } else if spec_port_addr(s) < 0x3F00 {
                s.vram[spec_port_addr(s) as int]
            } else {
                s.vram[spec_port_addr(s) - 0x1000]
            },
            v: spec_bump(s.v, spec_vram_increment(s.regs[0])),
            ..s
        }
    }
}

/// State after a $2007 write: the byte lands in VRAM at the port address
/// (pattern-table space goes to the cartridge instead) and `v` advances by
/// the selected step. Nothing moves while the port is closed.
pub open spec fn spec_data_write_state(s: PpuState, value: u8) -> PpuState {
    if !spec_data_port_open(s) {
        s
    } else {
        PpuState {
            vram: if spec_port_addr(s) >= 0x2000 {
                s.vram.update(spec_port_addr(s) as int, value)
            } else {
                s.vram
            },
            v: spec_bump(s.v, spec_vram_increment(s.regs[0])),
            ..s
        }
    }
}

/// The horizontal reload at dot 257: coarse-X and the horizontal-nametable
/// bit copied from `t` into `v`.
pub open spec fn spec_copy_horizontal(v: u16, t: u16) -> u16 {
    (v & 0xFBE0) | (t & 0x041F)
}

/// The vertical reload during dots 280-304 of the pre-render line:
/// coarse-Y, fine-Y and the vertical-nametable bit copied from `t` into
/// `v`.
pub open spec fn spec_copy_vertical(v: u16, t: u16) -> u16 {
    (v & 0x841F) | (t & 0x7BE0)
}

/// The flag work of one dot: the pre-render clear at (261, 1) and the
/// vblank entry at (241, 1), which raises NMI when the control register
/// enables it.
pub open spec fn spec_step_flags(s: PpuState) -> PpuState {
    if s.scanline == 261 && s.dot == 1 {
        spec_status_clear_state(s)
    } else if s.scanline == 241 && s.dot == 1 {
        PpuState {
            in_vblank: true,
            pending_interrupt: if s.regs[0] & 0x80 == 0x80 {
                Some(Interrupt::Nmi)
            } else {
                s.pending_interrupt
            },
            ..s
        }
    } else {
        s
    }
}

/// The scroll reloads of one dot, applied only while rendering is enabled:
/// the horizontal copy at dot 257 of visible and pre-render lines, and the
/// vertical copy during dots 280-304 of the pre-render line.
pub open spec fn spec_step_scroll(s: PpuState) -> PpuState {
    let s1 = if (s.scanline <= 239 || s.scanline == 261) && s.dot == 257
        && spec_rendering_enabled(s) {
        PpuState { v: spec_copy_horizontal(s.v, s.t), ..s }
    } else {
        s
    };
    if s1.scanline == 261 && 280 <= s1.dot && s1.dot <= 304 && spec_rendering_enabled(s1) {
        PpuState { v: spec_copy_vertical(s1.v, s1.t), ..s1 }
    } else {
        s1
    }
}

/// The counter advance of one dot: 341 dots per scanline, 262 scanlines
/// per frame, with the last dot of the pre-render line skipped on odd
/// frames and the parity flipped once per completed frame.
pub open spec fn spec_step_advance(s: PpuState) -> PpuState {
    if s.scanline == 261 && ((s.odd_frame && s.dot == 339) || s.dot == 340) {
        PpuState { scanline: 0, dot: 0, odd_frame: !s.odd_frame, ..s }
    } else if s.dot == 340 {
        PpuState { scanline: (s.scanline + 1) as u16, dot: 0, ..s }
    } else {
        PpuState { dot: (s.dot + 1) as u16, ..s }
    }
}

/// One dot of the timing state machine.
pub open spec fn spec_ppu_step(s: PpuState) -> PpuState {
    spec_step_advance(spec_step_scroll(spec_step_flags(s)))
}

/// `n` dots of the timing state machine.
pub open spec fn spec_ppu_steps(s: PpuState, n: nat) -> PpuState
    decreases n,
{
    if n == 0 {
        s
    } else {
        spec_ppu_step(spec_ppu_steps(s, (n - 1) as nat))
    }
}

proof fn lemma_ctrl_t_wf(t: u16, value: u8)
    by (bit_vector)
    ensures
        t <= 0x7FFF ==> (t & 0xF3FF) | (((value & 3) as u16) << 10) <= 0x7FFF,
{
}

proof fn lemma_scroll_t_wf(t: u16, value: u8)
    by (bit_vector)
    ensures
        t <= 0x7FFF ==> (t & 0xFFE0) | ((value >> 3) as u16) <= 0x7FFF,
        ((t & 0x0C1F) | (((value & 0x07) as u16) << 12)) | (((value & 0xF8) as u16) << 2)
            <= 0x7FFF,
{
}

proof fn lemma_port_addr(v: u16)
    by (bit_vector)
    ensures
        v & 0x3FFF <= 0x3FFF,
{
}

/// Build a zero-filled byte table of the wanted length.
pub(crate) fn zeroed(n: usize) -> (r: Vec<u8>)
    ensures
        r@.len() == n,
        forall|i: int| 0 <= i < n ==> r@[i] == 0u8,
{
    let mut buffer: Vec<u8> = Vec::new();
    let mut i: usize = 0;
    while i < n
        invariant
            i <= n,
            buffer@.len() == i,
            forall|j: int| 0 <= j < i ==> buffer@[j] == 0u8,
        decreases n - i,
    {
        buffer.push(0);
        i = i + 1;
    }
    buffer
}

/// The picture-processing unit: the raw mirrored-register byte image, the
/// two 15-bit scroll registers (`v` current, `t` temporary) with their
/// shared write latch, OAM and its per-scanline scratch, the logical VRAM
/// space, and the scanline/dot timing counters. Pattern-table bytes are
/// served by the cartridge mapper, not stored here.
pub struct PPU {
    /// Raw mirrored-register byte image, for diagnostic read-back; entry 3
    /// doubles as the OAM cursor.
    pub registers: Vec<u8>,
    /// The current VRAM address and scroll value. Its latch is the single
    /// write toggle shared by $2005 and $2006.
    pub v: AddrRegister,
    /// The temporary (staged) VRAM address and scroll value.
    pub t: AddrRegister,
    /// Fine-X scroll, staged by the first $2005 write for the rendering
    /// collaborator.
    pub fine_x: u8,
    /// Object attribute memory: 64 sprites of 4 bytes each.
    pub oam: Vec<u8>,
    /// Scratch buffer for the eight sprites of one scanline.
    pub secondary_oam: Vec<u8>,
    /// The logical PPU address space: nametables and palette RAM.
    pub vram: Vec<u8>,
    /// Raw image of the $4014 DMA register.
    pub oam_dma: u8,
    /// The one-byte-delayed $2007 read buffer.
    pub read_buffer: u8,
    /// Current scanline, 0-261; 261 is the pre-render line.
    pub scanline: u16,
    /// Current dot within the scanline, 0-340.
    pub dot: u16,
    /// Frame parity, for the odd-frame dot skip.
    pub odd_frame: bool,
    pub show_background: bool,
    pub show_sprites: bool,
    pub in_vblank: bool,
    pub sprite_zero_hit: bool,
    /// Sprite overflow, tracked opaquely for the status register.
    pub sprite_overflow: bool,
    /// The single overwritable interrupt slot; a new request replaces any
    /// older one.
    pub pending_interrupt: Option<Interrupt>,
}

impl View for PPU {
    type V = PpuState;

    open spec fn view(&self) -> PpuState {
        PpuState {
            regs: self.registers@,
            v: self.v.value,
            t: self.t.value,
            first_write: self.v.hi_ptr,
            fine_x: self.fine_x,
            oam: self.oam@,
            secondary_oam: self.secondary_oam@,
            vram: self.vram@,
            oam_dma: self.oam_dma,
            read_buffer: self.read_buffer,
            scanline: self.scanline,
            dot: self.dot,
            odd_frame: self.odd_frame,
            show_background: self.show_background,
            show_sprites: self.show_sprites,
            in_vblank: self.in_vblank,
            sprite_zero_hit: self.sprite_zero_hit,
            sprite_overflow: self.sprite_overflow,
            pending_interrupt: self.pending_interrupt,
        }
    }
}

impl PPU {
    pub open spec fn wf(self) -> bool {
        spec_state_wf(self@)
    }

    /// Power-on state: everything zeroed, the latch in first-write mode,
    /// and the timing counters at dot 0 of the pre-render line of an even
    /// frame.
    pub fn new() -> (r: PPU)
        ensures
            r.wf(),
            r@.regs =~= Seq::new(8, |i: int| 0u8),
            r@.v == 0,
            r@.t == 0,
            r@.first_write,
            r@.fine_x == 0,
            r@.oam =~= Seq::new(256, |i: int| 0u8),
            r@.secondary_oam =~= Seq::new(32, |i: int| 0u8),
            r@.vram =~= Seq::new(0x4000, |i: int| 0u8),
            r@.oam_dma == 0,
            r@.read_buffer == 0,
            r@.scanline == 261,
            r@.dot == 0,
            !r@.odd_frame,
            !r@.show_background,
            !r@.show_sprites,
            !r@.in_vblank,
            !r@.sprite_zero_hit,
            !r@.sprite_overflow,
            r@.pending_interrupt is None,
    {
        let r = PPU {
            registers: zeroed(8),
            v: AddrRegister::new(),
            t: AddrRegister::new(),
            fine_x: 0,
            oam: zeroed(256),
            secondary_oam: zeroed(32),
            vram: zeroed(0x4000),
            oam_dma: 0,
            read_buffer: 0,
            scanline: 261,
            dot: 0,
            odd_frame: false,
            show_background: false,
            show_sprites: false,
            in_vblank: false,
            sprite_zero_hit: false,
            sprite_overflow: false,
            pending_interrupt: None,
        };
        proof {
            assert(r@.regs =~= Seq::new(8, |i: int| 0u8));
            assert(r@.oam =~= Seq::new(256, |i: int| 0u8));
            assert(r@.secondary_oam =~= Seq::new(32, |i: int| 0u8));
            assert(r@.vram =~= Seq::new(0x4000, |i: int| 0u8));
        }
        r
    }

    /// Hardware reset, as opposed to a power cycle: the shared write latch,
    /// vblank and the timing counters are cleared; VRAM and OAM contents
    /// survive.
    pub fn reset(&mut self)
        requires
            old(self).wf(),
        ensures
            final(self)@ == (PpuState {
                first_write: true,
                in_vblank: false,
                scanline: 0,
                dot: 0,
                ..old(self)@
            }),
            final(self).wf(),
    {
        self.v.reset_latch();
        self.in_vblank = false;
        self.scanline = 0;
        self.dot = 0;
        proof {
            assert(self@ =~= (PpuState {
                first_write: true,
                in_vblank: false,
                scanline: 0,
                dot: 0,
                ..old(self)@
            }));
        }
    }

    /// One dot of the timing state machine; the return value is the
    /// interrupt still pending after this dot, left in place for the CPU
    /// collaborator to consume.
    pub fn step(&mut self) -> (r: Option<Interrupt>)
        requires
            old(self).wf(),
        ensures
            final(self)@ == spec_ppu_step(old(self)@),
            final(self).wf(),
            r == final(self)@.pending_interrupt,
    {
        if self.scanline == 261 && self.dot == 1 {
            self.clear_status();
        } else if self.scanline == 241 && self.dot == 1 {
            self.in_vblank = true;
            if self.registers[0] & 0x80 == 0x80 {
                self.pending_interrupt = Some(Interrupt::Nmi);
            }
        }
        let rendering = self.show_background || self.show_sprites;
        if (self.scanline <= 239 || self.scanline == 261) && self.dot == 257 && rendering {
            let staged = self.t.get();
            self.v.set_horizontal(staged);
        }
        if self.scanline == 261 && 280 <= self.dot && self.dot <= 304 && rendering {
            let staged = self.t.get();
            self.v.set_vertical(staged);
        }
        if self.scanline == 261 && ((self.odd_frame && self.dot == 339) || self.dot == 340) {
            self.scanline = 0;
            self.dot = 0;
            self.odd_frame = !self.odd_frame;
        } else if self.dot == 340 {
            self.dot = 0;
            self.scanline = self.scanline + 1;
        } else {
            self.dot = self.dot + 1;
        }
        proof {
            assert(self@ =~= spec_ppu_step(old(self)@));
        }
        self.pending_interrupt
    }

    /// Diagnostic read of the raw register image: entry 4 reads through to
    /// OAM at the cursor; addresses past the register window read the DMA
    /// register image.
    pub fn read(&self, addr: u16) -> (r: u8)
        requires
            self.wf(),
        ensures
            addr < 8 && addr != 4 ==> r == self@.regs[addr as int],
            addr == 4 ==> r == self@.oam[self@.regs[3] as int],
            addr >= 8 ==> r == self@.oam_dma,
    {
        if addr < 8 {
            if addr == 4 {
                self.get_oam_data()
            } else {
                self.registers[addr as usize]
            }
        } else {
            self.oam_dma
        }
    }

    /// Diagnostic write of the raw register image; addresses past the
    /// register window write the DMA register image. No register side
    /// effects run here.
    pub fn write(&mut self, addr: u16, value: u8)
        requires
            old(self).wf(),
        ensures
            addr < 8 ==> final(self)@ == (PpuState {
                regs: old(self)@.regs.update(addr as int, value),
                ..old(self)@
            }),
            addr >= 8 ==> final(self)@ == (PpuState { oam_dma: value, ..old(self)@ }),
            final(self).wf(),
    {
        if addr < 8 {
            self.registers.set(addr as usize, value);
            proof {
                assert(self@ =~= (PpuState {
                    regs: old(self)@.regs.update(addr as int, value),
                    ..old(self)@
                }));
            }
        } else {
            self.oam_dma = value;
            proof {
                assert(self@ =~= (PpuState { oam_dma: value, ..old(self)@ }));
            }
        }
    }

    /// $2000 write. Returns whether the write raised NMI at once, for the
    /// bus to latch.
    pub fn set_controller(&mut self, value: u8) -> (raised: bool)
        requires
            old(self).wf(),
        ensures
            final(self)@ == spec_ctrl_write_state(old(self)@, value),
            raised == spec_ctrl_write_raised(old(self)@, value),
            final(self).wf(),
    {
        let raised = self.registers[0] & 0x80 == 0 && value & 0x80 == 0x80 && self.in_vblank;
        self.registers.set(0, value);
        let staged = self.t.get();
        proof {
            lemma_ctrl_t_wf(staged, value);
        }
        self.t.set((staged & 0xF3FF) | (((value & 3) as u16) << 10));
        if raised {
            self.pending_interrupt = Some(Interrupt::Nmi);
        }
        proof {
            assert(self@ =~= spec_ctrl_write_state(old(self)@, value));
        }
        raised
    }

    /// $2001 write.
    pub fn set_mask(&mut self, value: u8)
        requires
            old(self).wf(),
        ensures
            final(self)@ == spec_mask_write_state(old(self)@, value),
            final(self).wf(),
    {
        self.registers.set(1, value);
        self.show_background = value & 0x08 == 0x08;
        self.show_sprites = value & 0x10 == 0x10;
        proof {
            assert(self@ =~= spec_mask_write_state(old(self)@, value));
        }
    }

    /// $2002 read: the status byte, with vblank cleared, the shared write
    /// latch reset and the pending interrupt consumed as side effects.
    /// Sprite-zero hit and sprite overflow survive the read.
    pub fn read_status(&mut self) -> (r: u8)
        requires
            old(self).wf(),
        ensures
            r == spec_status_byte(old(self)@),
            final(self)@ == spec_status_read_state(old(self)@),
            final(self).wf(),
    {
        let vb: u8 = if self.in_vblank {
            0x80
        } else {
            0
        };
        let zh: u8 = if self.sprite_zero_hit {
            0x40
        } else {
            0
        };
        let ov: u8 = if self.sprite_overflow {
            0x20
        } else {
            0
        };
        let r = ((vb | zh) | ov) | (self.registers[2] & 0x1F);
        self.in_vblank = false;
        self.v.reset_latch();
        self.pending_interrupt = None;
        proof {
            assert(self@ =~= spec_status_read_state(old(self)@));
        }
        r
    }

    /// $2003 write: place the OAM cursor.
    pub fn set_oam_addr(&mut self, value: u8)
        requires
            old(self).wf(),
        ensures
            final(self)@ == spec_oam_addr_write_state(old(self)@, value),
            final(self).wf(),
    {
        self.registers.set(3, value);
        proof {
            assert(self@ =~= spec_oam_addr_write_state(old(self)@, value));
        }
    }

    /// $2004 read: the OAM byte at the cursor. The cursor never moves on a
    /// read.
    pub fn get_oam_data(&self) -> (r: u8)
        requires
            self.wf(),
        ensures
            r == self@.oam[self@.regs[3] as int],
    {
        self.oam[self.registers[3] as usize]
    }

    /// $2004 write: store at the cursor and advance it by one with 8-bit
    /// wraparound; during active rendering the store is suppressed but the
    /// cursor still advances.
    pub fn set_oam_data(&mut self, value: u8)
        requires
            old(self).wf(),
        ensures
            final(self)@ == spec_oam_data_write_state(old(self)@, value),
            final(self).wf(),
    {
        let cursor = self.registers[3];
        let suppressed = (self.scanline <= 239 || self.scanline == 261) && (self.show_background
            || self.show_sprites);
        if !suppressed {
            self.oam.set(cursor as usize, value);
        }
        let next: u8 = if cursor == 255 {
            0
        } else {
            cursor + 1
        };
        self.registers.set(3, next);
        proof {
            assert(self@ =~= spec_oam_data_write_state(old(self)@, value));
        }
    }

    /// Put the OAM cursor back to zero, as the sprite-loading interval of
    /// each rendered line does.
    pub fn reset_oam_addr(&mut self)
        requires
            old(self).wf(),
        ensures
            final(self)@ == spec_oam_addr_write_state(old(self)@, 0),
            final(self).wf(),
    {
        self.set_oam_addr(0);
    }

    /// A $2005 or $2006 write: one half of a two-step value, steered by the
    /// shared write latch.
    pub fn write_twice(&mut self, reg_n: usize, value: u8)
        requires
            old(self).wf(),
            reg_n == 5 || reg_n == 6,
        ensures
            reg_n == 5 ==> final(self)@ == spec_scroll_write_state(old(self)@, value),
            reg_n == 6 ==> final(self)@ == spec_addr_write_state(old(self)@, value),
            final(self).wf(),
    {
        let first = self.v.latch();
        let image = self.registers[reg_n];
        if reg_n == 5 {
            let staged = self.t.get();
            proof {
                lemma_scroll_t_wf(staged, value);
            }
            if first {
                self.t.set((staged & 0xFFE0) | ((value >> 3) as u16));
                self.fine_x = value & 0x07;
            } else {
                self.t.set(
                    ((staged & 0x0C1F) | (((value & 0x07) as u16) << 12)) | (((value & 0xF8)
                        as u16) << 2),
                );
            }
            self.v.toggle_latch();
        } else {
            let mut staged = self.t.get();
            self.v.update(value, &mut staged);
            self.t.set(staged);
        }
        if first {
            self.registers.set(reg_n, (image & 0x0F) | (value << 4));
        } else {
            self.registers.set(reg_n, (image & 0xF0) | (value & 0x0F));
        }
        proof {
            if reg_n == 5 {
                assert(self@ =~= spec_scroll_write_state(old(self)@, value));
            } else {
                assert(self@ =~= spec_addr_write_state(old(self)@, value));
            }
        }
    }

    /// The staged X scroll nibble of the raw register image.
    pub fn get_x_scroll(&self) -> (r: u8)
        requires
            self.wf(),
        ensures
            r == (self@.regs[5] & 0xF0) >> 4,
    {
        (self.registers[5] & 0xF0) >> 4
    }

    /// The staged Y scroll nibble of the raw register image.
    pub fn get_y_scroll(&self) -> (r: u8)
        requires
            self.wf(),
        ensures
            r == self@.regs[5] & 0x0F,
    {
        self.registers[5] & 0x0F
    }

    /// Fine-X scroll as staged by the first $2005 write, for the rendering
    /// collaborator.
    pub fn get_fine_x(&self) -> (r: u8)
        ensures
            r == self@.fine_x,
    {
        self.fine_x
    }

    /// The current raw value of `v`, for tile and attribute address
    /// derivation by the rendering collaborator.
    pub fn vram_addr(&self) -> (r: u16)
        ensures
            r == self@.v,
    {
        self.v.get()
    }

    /// The VRAM step selected by the control register.
    pub fn get_increment(&self) -> (r: u8)
        requires
            self.wf(),
        ensures
            r == spec_vram_increment(self@.regs[0]),
    {
        if self.registers[0] & 4 == 4 {
            32
        } else {
            1
        }
    }

    /// $2007 write.
    pub fn set_vram<M: Mapper>(&mut self, value: u8, mapper: &mut M)
        requires
            old(self).wf(),
        ensures
            final(self)@ == spec_data_write_state(old(self)@, value),
            final(self).wf(),
            !(spec_data_port_open(old(self)@) && spec_port_addr(old(self)@) < 0x2000)
                ==> *final(mapper) == *old(mapper),
    {
        if (!self.show_background && !self.show_sprites) || self.in_vblank {
            let a = self.v.get() & 0x3FFF;
            proof {
                lemma_port_addr(self.v.value);
            }
            if a >= 0x2000 {
                self.vram.set(a as usize, value);
            } else {
                mapper.write_chr(a, value);
            }
            let inc = self.get_increment();
            self.v.increment(inc);
        }
        proof {
            assert(self@ =~= spec_data_write_state(old(self)@, value));
        }
    }

    /// $2007 read: a one-byte-delayed buffer below the palette region, the
    /// palette byte at once above it; the buffer is refreshed after every
    /// read and `v` advances by the selected step.
    pub fn get_vram<M: Mapper>(&mut self, mapper: &M) -> (r: u8)
        requires
            old(self).wf(),
        ensures
            r == spec_data_read_result(old(self)@),
            final(self)@ == spec_data_read_state(old(self)@, final(self)@.read_buffer),
            final(self).wf(),
    {
        if (!self.show_background && !self.show_sprites) || self.in_vblank {
            let a = self.v.get() & 0x3FFF;
            proof {
                lemma_port_addr(self.v.value);
            }
            let result: u8;
            if a < 0x2000 {
                result = self.read_buffer;
                self.read_buffer = mapper.read_chr(a);
            } else if a < 0x3F00 {
                result = self.read_buffer;
                self.read_buffer = self.vram[a as usize];
            } else {
                result = self.vram[a as usize];
                self.read_buffer = self.vram[(a - 0x1000) as usize];
            }
            let inc = self.get_increment();
            self.v.increment(inc);
            proof {
                assert(self@ =~= spec_data_read_state(old(self)@, self@.read_buffer));
            }
            result
        } else {
            0
        }
    }

    /// The pre-render clear: vblank, sprite-zero hit and sprite overflow
    /// all go down, in the flags and in the raw register image.
    pub fn clear_status(&mut self)
        requires
            old(self).wf(),
        ensures
            final(self)@ == spec_status_clear_state(old(self)@),
            final(self).wf(),
    {
        self.in_vblank = false;
        self.sprite_zero_hit = false;
        self.sprite_overflow = false;
        let image = self.registers[2] & 0x1F;
        self.registers.set(2, image);
        proof {
            assert(self@ =~= spec_status_clear_state(old(self)@));
        }
    }
}

} // verus!
