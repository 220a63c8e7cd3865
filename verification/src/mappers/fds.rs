//! Famicom Disk System — mapper 20 (RAM adapter and disk drive).
//!
//! - 32 KB PRG-RAM at `$6000-$DFFF`
//! - 8 KB BIOS ROM at `$E000-$FFFF`
//! - 8 KB CHR-RAM
//! - Expansion audio (see [`super::fds_audio`])
//! - Disk and timer registers at `$4020-$4033`
//!
//! | Address | R/W | Function                                          |
//! |---------|-----|---------------------------------------------------|
//! | `$4020` | W   | Timer latch low byte                              |
//! | `$4021` | W   | Timer latch high byte                             |
//! | `$4022` | W   | Timer enable (reloads the counter)                |
//! | `$4023` | W   | I/O enable (bit 0 disk, bit 1 timer)              |
//! | `$4024` | W   | Disk data write                                   |
//! | `$4025` | W   | Disk control (reset, mirroring, write mode, motor)|
//! | `$4030` | R   | Status (bit 7 timer IRQ; reading clears it)       |
//! | `$4031` | R   | Disk data read                                    |
//! | `$4032` | R   | Disk inserted flags                               |
//! | `$4033` | R   | Battery status                                    |
//!
//! See: https://www.nesdev.org/wiki/Famicom_Disk_System

use vstd::prelude::*;
use super::{Mirroring, MapperState, byte_or_zero, clone_bytes};
use super::fds_audio::{FdsAudio, fds_audio_after, fds_audio_write};
use super::fme7::fme7_irq_after;

verus! {

/// PRG-RAM size (32 KB).
pub const FDS_PRG_RAM_SIZE: usize = 32768;
/// CHR-RAM size (8 KB).
pub const FDS_CHR_RAM_SIZE: usize = 8192;
/// BIOS ROM size (8 KB).
pub const FDS_BIOS_SIZE: usize = 8192;

/// FDS state: RAM adapter, disk drive and audio.
pub struct Fds {
    /// PRG-RAM at `$6000-$DFFF`.
    pub prg_ram: [u8; 32768],
    /// BIOS ROM at `$E000-$FFFF` (8 KB).
    pub bios: Vec<u8>,
    /// CHR-RAM.
    pub chr_ram: [u8; 8192],
    /// Raw disk data (all sides).
    pub disk_data: Vec<u8>,
    /// Disk read position.
    pub disk_read_pos: usize,
    /// Disk write position.
    pub disk_write_pos: usize,
    /// Motor on (`$4025` bit 5).
    pub disk_motor_on: bool,
    /// Transfer reset (`$4025` bit 0).
    pub disk_transfer_reset: bool,
    /// Write mode (`$4025` bit 2).
    pub disk_write_mode: bool,
    /// Data available to read.
    pub disk_data_available: bool,
    /// Disk inserted.
    pub disk_inserted: bool,
    /// Last byte written to `$4024`.
    pub disk_write_latch: u8,
    /// Disk I/O enable (`$4023` bit 0).
    pub io_enable_disk: bool,
    /// Timer I/O enable (`$4023` bit 1).
    pub io_enable_timer: bool,
    /// Timer reload value.
    pub timer_latch: u16,
    /// Timer counter.
    pub timer_counter: u16,
    /// Timer enable.
    pub timer_enable: bool,
    /// Timer IRQ asserted.
    pub timer_irq_pending: bool,
    /// Mirroring: true = horizontal (`$4025` bit 1).
    pub mirror_horizontal: bool,
    /// Expansion audio.
    pub audio: FdsAudio,
}

/// The BIOS image the adapter holds for a given file: its first 8 KB, or
/// the file padded with zeros to 8 KB.
pub open spec fn bios_image(bios: Seq<u8>) -> Seq<u8> {
    Seq::new(FDS_BIOS_SIZE as nat, |i: int| if i < bios.len() { bios[i] } else { 0u8 })
}

impl Fds {
    /// The byte a side-effect-free CPU read of `addr` sees: PRG-RAM at
    /// `$6000-$DFFF`, BIOS at `$E000-$FFFF`, else 0.
    pub open spec fn prg_byte(&self, addr: u16) -> u8 {
        if 0x6000 <= addr < 0xE000 {
            self.prg_ram@[(addr as int) - 0x6000]
        } else if addr >= 0xE000 {
            byte_or_zero(self.bios@, (addr as int) - 0xE000)
        } else {
            0
        }
    }

    /// Status byte of `$4030`: data available (bit 0), drive ready (bit 2),
    /// transfer reset (bit 4), timer IRQ (bit 7).
    pub open spec fn status_byte(&self) -> u8 {
        (if self.disk_data_available { 0x01u8 } else { 0u8 }) | (if self.disk_motor_on && self.disk_inserted {
            0x04u8
        } else {
            0u8
        }) | (if self.disk_transfer_reset { 0x10u8 } else { 0u8 }) | (if self.timer_irq_pending {
            0x80u8
        } else {
            0u8
        })
    }

    /// Construct an FDS from the BIOS file and the raw disk image: RAM
    /// zeroed, disk inserted, both I/O enables on, timer idle, vertical
    /// mirroring, audio at power-on.
    pub fn new(bios: Vec<u8>, disk_data: Vec<u8>) -> (f: Self)
        ensures
            f.bios@ == bios_image(bios@),
            f.disk_data@ == disk_data@,
            forall|i: int| 0 <= i < 32768 ==> f.prg_ram@[i] == 0,
            forall|i: int| 0 <= i < 8192 ==> f.chr_ram@[i] == 0,
            f.disk_read_pos == 0 && f.disk_write_pos == 0,
            !f.disk_motor_on && !f.disk_transfer_reset && !f.disk_write_mode && !f.disk_data_available,
            f.disk_inserted && f.disk_write_latch == 0 && f.io_enable_disk && f.io_enable_timer,
            f.timer_latch == 0 && f.timer_counter == 0 && !f.timer_enable && !f.timer_irq_pending,
            !f.mirror_horizontal,
            f.audio.power_on(),
    {
        let mut image: Vec<u8> = Vec::with_capacity(FDS_BIOS_SIZE);
        let mut i: usize = 0;
        while i < FDS_BIOS_SIZE
            invariant
                i <= FDS_BIOS_SIZE,
                image@ == bios_image(bios@).subrange(0, i as int),
            decreases FDS_BIOS_SIZE - i,
        {
            let b: u8 = if i < bios.len() { bios[i] } else { 0 };
            image.push(b);
            i = i + 1;
            assert(image@ =~= bios_image(bios@).subrange(0, i as int));
        }
        assert(image@ =~= bios_image(bios@));
        Fds {
            prg_ram: [0u8; 32768],
            bios: image,
            chr_ram: [0u8; 8192],
            disk_data,
            disk_read_pos: 0,
            disk_write_pos: 0,
            disk_motor_on: false,
            disk_transfer_reset: false,
            disk_write_mode: false,
            disk_data_available: false,
            disk_inserted: true,
            disk_write_latch: 0,
            io_enable_disk: true,
            io_enable_timer: true,
            timer_latch: 0,
            timer_counter: 0,
            timer_enable: false,
            timer_irq_pending: false,
            mirror_horizontal: false,
            audio: FdsAudio::new(),
        }
    }

    /// Whether `self` is the state a write of `value` to disk/timer register
    /// `addr` leaves `before` in: `$4020/$4021` set the timer reload
    /// value, `$4022` the timer enable (reloading the counter), `$4023`
    /// the I/O enables, `$4024` the write latch (storing the byte on the
    /// disk in write mode), `$4025` the drive control (transfer reset,
    /// mirroring, write mode, motor).
    pub open spec fn disk_write_post(&self, before: Fds, addr: u16, value: u8) -> bool {
        let write_byte = addr == 0x4024 && before.disk_write_mode && before.io_enable_disk && before.disk_write_pos
            < before.disk_data@.len();
        let control = addr == 0x4025 && before.io_enable_disk;
        let reset = value & 1 != 0;
        let restart = reset && !before.disk_transfer_reset;
        let read_pos = if restart { 0usize } else { before.disk_read_pos };
        let write_mode = value & 4 != 0;
        let motor = value & 0x20 != 0;
        let avail0 = if restart { false } else { before.disk_data_available };
        &&& self.prg_ram == before.prg_ram && self.chr_ram == before.chr_ram
        &&& self.bios == before.bios && self.audio == before.audio
        &&& self.disk_inserted == before.disk_inserted
        &&& self.timer_latch == (if addr == 0x4020 {
            (before.timer_latch & 0xFF00) | (value as u16)
        } else if addr == 0x4021 {
            (before.timer_latch & 0x00FF) | ((value as u16) << 8u16)
        } else {
            before.timer_latch
        })
        &&& self.timer_enable == (if addr == 0x4022 { value & 1 != 0 } else { before.timer_enable })
        &&& self.timer_counter == (if addr == 0x4022 && value & 1 != 0 { before.timer_latch } else { before.timer_counter })
        &&& self.timer_irq_pending == (if (addr == 0x4022 && value & 1 == 0) || (addr == 0x4023 && value & 2 == 0) {
            false
        } else {
            before.timer_irq_pending
        })
        &&& self.io_enable_disk == (if addr == 0x4023 { value & 1 != 0 } else { before.io_enable_disk })
        &&& self.io_enable_timer == (if addr == 0x4023 { value & 2 != 0 } else { before.io_enable_timer })
        &&& self.disk_write_latch == (if addr == 0x4024 { value } else { before.disk_write_latch })
        &&& self.disk_data@ == (if write_byte {
            before.disk_data@.update(before.disk_write_pos as int, value)
        } else {
            before.disk_data@
        })
        &&& self.disk_write_pos == (if write_byte {
            (before.disk_write_pos + 1) as usize
        } else if control && restart {
            0usize
        } else {
            before.disk_write_pos
        })
        &&& self.disk_read_pos == (if control { read_pos } else { before.disk_read_pos })
        &&& self.disk_transfer_reset == (if control { reset } else { before.disk_transfer_reset })
        &&& self.mirror_horizontal == (if control { value & 2 != 0 } else { before.mirror_horizontal })
        &&& self.disk_write_mode == (if control { write_mode } else { before.disk_write_mode })
        &&& self.disk_motor_on == (if control { motor } else { before.disk_motor_on })
        &&& self.disk_data_available == (if !control {
            before.disk_data_available
        } else if motor && !write_mode {
            read_pos < before.disk_data@.len()
        } else {
            avail0
        })
    }

    /// Whether `self` and `r` are the state and value a read of disk
    /// register `addr` leaves `before` in and gives: `$4030` the status
    /// (clearing the timer IRQ), `$4031` the next disk byte (0 past the
    /// end, where the position stays), `$4032` 0 with a disk inserted
    /// (else 1), `$4033` `$80`, anything else 0.
    pub open spec fn disk_read_post(&self, before: Fds, addr: u16, r: u8) -> bool {
        let next = addr == 0x4031 && before.disk_read_pos < before.disk_data@.len();
        &&& r == (if addr == 0x4030 {
            before.status_byte()
        } else if addr == 0x4031 {
            if next { before.disk_data@[before.disk_read_pos as int] } else { 0u8 }
        } else if addr == 0x4032 {
            if before.disk_inserted { 0u8 } else { 1u8 }
        } else if addr == 0x4033 {
            0x80u8
        } else {
            0u8
        })
        &&& *self == (Fds {
            timer_irq_pending: if addr == 0x4030 { false } else { before.timer_irq_pending },
            disk_read_pos: if next { (before.disk_read_pos + 1) as usize } else { before.disk_read_pos },
            disk_data_available: if next {
                before.disk_read_pos + 1 < before.disk_data@.len()
            } else {
                before.disk_data_available
            },
            ..before
        })
    }

    /// Write a disk/timer register (`$4020-$4025`); others are ignored.
    #[verifier::rlimit(100)]
    #[verifier::spinoff_prover]
    pub fn write_disk_register(&mut self, addr: u16, value: u8)
        ensures
            final(self).disk_write_post(*old(self), addr, value),
    {
        if addr == 0x4020 {
            self.timer_latch = (self.timer_latch & 0xFF00) | (value as u16);
        } else if addr == 0x4021 {
            self.timer_latch = (self.timer_latch & 0x00FF) | ((value as u16) << 8u16);
        } else if addr == 0x4022 {
            self.timer_enable = (value & 0x01) != 0;
            if !self.timer_enable {
                self.timer_irq_pending = false;
            }
            if self.timer_enable {
                self.timer_counter = self.timer_latch;
            }
        } else if addr == 0x4023 {
            self.io_enable_disk = (value & 0x01) != 0;
            self.io_enable_timer = (value & 0x02) != 0;
            if !self.io_enable_timer {
                self.timer_irq_pending = false;
            }
        } else if addr == 0x4024 {
            self.disk_write_latch = value;
            if self.disk_write_mode && self.io_enable_disk {
                if self.disk_write_pos < self.disk_data.len() {
                    let p: usize = self.disk_write_pos;
                    self.disk_data.set(p, value);
                    self.disk_write_pos = p + 1;
                }
            }
        } else if addr == 0x4025 {
            if !self.io_enable_disk {
                return;
            }
            let reset: bool = (value & 0x01) != 0;
            if reset && !self.disk_transfer_reset {
                self.disk_read_pos = 0;
                self.disk_write_pos = 0;
                self.disk_data_available = false;
            }
            self.disk_transfer_reset = reset;
            self.mirror_horizontal = (value & 0x02) != 0;
            self.disk_write_mode = (value & 0x04) != 0;
            self.disk_motor_on = (value & 0x20) != 0;
            if self.disk_motor_on && !self.disk_write_mode {
                self.disk_data_available = self.disk_read_pos < self.disk_data.len();
            }
        }
    }

    /// Read a disk register (`$4030-$4033`) with its side effects: `$4030`
    /// gives the status and clears the timer IRQ; `$4031` gives the next
    /// disk byte (0 past the end) and advances; `$4032` gives 0 with a disk
    /// inserted (else 1); `$4033` gives `$80`; anything else 0.
    pub fn read_disk_register(&mut self, addr: u16) -> (r: u8)
        ensures
            final(self).disk_read_post(*old(self), addr, r),
    {
        if addr == 0x4030 {
            let status: u8 = (if self.disk_data_available { 0x01u8 } else { 0u8 }) | (if self.disk_motor_on
                && self.disk_inserted {
                0x04u8
            } else {
                0u8
            }) | (if self.disk_transfer_reset { 0x10u8 } else { 0u8 }) | (if self.timer_irq_pending {
                0x80u8
            } else {
                0u8
            });
            self.timer_irq_pending = false;
            status
        } else if addr == 0x4031 {
            if self.disk_read_pos < self.disk_data.len() {
                let byte: u8 = self.disk_data[self.disk_read_pos];
                self.disk_read_pos = self.disk_read_pos + 1;
                self.disk_data_available = self.disk_read_pos < self.disk_data.len();
                byte
            } else {
                0
            }
        } else if addr == 0x4032 {
            if self.disk_inserted {
                0
            } else {
                1
            }
        } else if addr == 0x4033 {
            0x80
        } else {
            0
        }
    }

    /// Whether `addr` is an audio register (`$4040-$408A`).
    pub fn is_audio_register(addr: u16) -> (r: bool)
        ensures
            r == (0x4040 <= addr <= 0x408A),
    {
        0x4040 <= addr && addr <= 0x408A
    }

    /// Whether `addr` is a disk register (`$4020-$4033`).
    pub fn is_disk_register(addr: u16) -> (r: bool)
        ensures
            r == (0x4020 <= addr <= 0x4033),
    {
        0x4020 <= addr && addr <= 0x4033
    }

    /// Side-effect-free CPU read: PRG-RAM at `$6000-$DFFF`, BIOS at
    /// `$E000-$FFFF`, else 0.
    pub fn read_prg(&self, addr: u16) -> (b: u8)
        ensures
            b == self.prg_byte(addr),
    {
        if 0x6000 <= addr && addr < 0xE000 {
            return self.prg_ram[(addr - 0x6000) as usize];
        }
        if addr >= 0xE000 {
            let i: usize = (addr - 0xE000) as usize;
            return if i < self.bios.len() { self.bios[i] } else { 0 };
        }
        0
    }

    /// The contract of [`Fds::read_prg_mut`] as a predicate on the state it leaves `before` in.
    pub open spec fn read_prg_mut_post(&self, before: Fds, addr: u16, b: u8) -> bool {
        &&& (addr >= 0x6000 ==> b == before.prg_byte(addr) && *self == before)
        &&& ((addr == 0x4090 || addr == 0x4092) ==> b == before.audio.register_value(addr) && *self == before)
        &&& (0x4020 <= addr <= 0x4033 ==> self.disk_read_post(before, addr, b))
        &&& (addr < 0x6000 && !(0x4020 <= addr <= 0x4033) && addr != 0x4090 && addr != 0x4092 ==> b == 0 && *self == before)
    }

    /// CPU read with side effects: memory as [`Fds::read_prg`], the disk
    /// registers through [`Fds::read_disk_register`], `$4090`/`$4092`
    /// through the audio; anything else reads 0.
    pub fn read_prg_mut(&mut self, addr: u16) -> (b: u8)
        ensures
            addr >= 0x6000 ==> b == old(self).prg_byte(addr) && *final(self) == *old(self),
            (addr == 0x4090 || addr == 0x4092) ==> b == old(self).audio.register_value(addr) && *final(self)
                == *old(self),
            0x4020 <= addr <= 0x4033 ==> final(self).disk_read_post(*old(self), addr, b),
            addr < 0x6000 && !(0x4020 <= addr <= 0x4033) && addr != 0x4090 && addr != 0x4092 ==> b == 0
                && *final(self) == *old(self),
            final(self).read_prg_mut_post(*old(self), addr, b),
    {
        if addr >= 0x6000 {
            return self.read_prg(addr);
        }
        if Self::is_disk_register(addr) {
            return self.read_disk_register(addr);
        }
        if addr == 0x4090 || addr == 0x4092 {
            return self.audio.read_register(addr);
        }
        0
    }

    /// The contract of [`Fds::write_prg`] as a predicate on the state it leaves `before` in.
    pub open spec fn write_prg_post(&self, before: Fds, addr: u16, value: u8) -> bool {
        &&& (0x6000 <= addr < 0xE000 ==> self.prg_ram@ == before.prg_ram@.update((addr as int) - 0x6000, value) && *self == (Fds { prg_ram: self.prg_ram, ..before }))
        &&& (0x4020 <= addr <= 0x4033 ==> self.disk_write_post(before, addr, value))
        &&& (0x4040 <= addr <= 0x408A ==> self.audio.after_write(before.audio, addr, value) && *self == (Fds { audio: self.audio, ..before }))
        &&& (!(0x6000 <= addr < 0xE000) && !(0x4020 <= addr <= 0x4033) && !(0x4040 <= addr <= 0x408A) ==> *self == before)
    }

    /// CPU write: PRG-RAM at `$6000-$DFFF`, disk registers, audio
    /// registers; the BIOS and everything else ignore writes.
    pub fn write_prg(&mut self, addr: u16, value: u8)
        ensures
            0x6000 <= addr < 0xE000 ==> final(self).prg_ram@ == old(self).prg_ram@.update((addr as int) - 0x6000, value)
                && *final(self) == (Fds { prg_ram: final(self).prg_ram, ..*old(self) }),
            0x4020 <= addr <= 0x4033 ==> final(self).disk_write_post(*old(self), addr, value),
            0x4040 <= addr <= 0x408A ==> final(self).audio.after_write(old(self).audio, addr, value) && *final(
                self) == (Fds { audio: final(self).audio, ..*old(self) }),
            !(0x6000 <= addr < 0xE000) && !(0x4020 <= addr <= 0x4033) && !(0x4040 <= addr <= 0x408A) ==> *final(
                self) == *old(self),
            final(self).write_prg_post(*old(self), addr, value),
    {
        if 0x6000 <= addr && addr < 0xE000 {
            self.prg_ram[(addr - 0x6000) as usize] = value;
            return;
        }
        if Self::is_disk_register(addr) {
            self.write_disk_register(addr, value);
            return;
        }
        if Self::is_audio_register(addr) {
            self.audio.write_register(addr, value);
        }
    }

    /// PPU read of CHR-RAM (address masked to 8 KB).
    pub fn read_chr(&self, addr: u16) -> (b: u8)
        ensures
            b == self.chr_ram@[(addr % 8192) as int],
    {
        proof {
            crate::bits::lemma_u16_masks(addr);
        }
        self.chr_ram[(addr & 0x1FFF) as usize]
    }

    /// The contract of [`Fds::write_chr`] as a predicate on the state it leaves `before` in.
    pub open spec fn write_chr_post(&self, before: Fds, addr: u16, value: u8) -> bool {
        &&& (self.chr_ram@ == before.chr_ram@.update((addr % 8192) as int, value))
        &&& (*self == (Fds { chr_ram: self.chr_ram, ..before }))
    }

    /// PPU write of CHR-RAM (address masked to 8 KB).
    pub fn write_chr(&mut self, addr: u16, value: u8)
        ensures
            final(self).chr_ram@ == old(self).chr_ram@.update((addr % 8192) as int, value),
            *final(self) == (Fds { chr_ram: final(self).chr_ram, ..*old(self) }),
            final(self).write_chr_post(*old(self), addr, value),
    {
        proof {
            crate::bits::lemma_u16_masks(addr);
        }
        self.chr_ram[(addr & 0x1FFF) as usize] = value;
    }

    /// Current mirroring: horizontal or vertical.
    pub fn mirror_mode(&self) -> (m: Mirroring)
        ensures
            m == (if self.mirror_horizontal { Mirroring::Horizontal } else { Mirroring::Vertical }),
    {
        if self.mirror_horizontal {
            Mirroring::Horizontal
        } else {
            Mirroring::Vertical
        }
    }

    /// The contract of [`Fds::irq_pending`] as a predicate.
    pub open spec fn irq_pending_post(&self, b: bool) -> bool {
        &&& (b == self.timer_irq_pending)
    }

    /// Whether the timer IRQ is asserted.
    pub fn irq_pending(&self) -> (b: bool)
        ensures
            b == self.timer_irq_pending,
            self.irq_pending_post(b),
    {
        self.timer_irq_pending
    }

    /// The contract of [`Fds::clock_cpu`] as a predicate on the state it leaves `before` in.
    pub open spec fn clock_cpu_post(&self, before: Fds, cpu_cycles: u32) -> bool {
        &&& (before.timer_enable && before.io_enable_timer ==> (self.timer_counter, self.timer_irq_pending) == fme7_irq_after(before.timer_counter, before.timer_latch, true, before.timer_irq_pending, cpu_cycles as nat,))
        &&& (!(before.timer_enable && before.io_enable_timer) ==> self.timer_counter == before.timer_counter && self.timer_irq_pending == before.timer_irq_pending)
        &&& (self.audio == fds_audio_after(before.audio, (cpu_cycles / 2) as nat))
        &&& (*self == (Fds { timer_counter: self.timer_counter, timer_irq_pending: self.timer_irq_pending, audio: self.audio, ..before }))
    }

    /// Clock the timer (when enabled and its I/O is on) by `cpu_cycles` CPU
    /// cycles — each cycle a zero counter reloads and asserts the IRQ, any
    /// other value decrements — and the audio by `cpu_cycles / 2` APU cycles.
    pub fn clock_cpu(&mut self, cpu_cycles: u32)
        ensures
            old(self).timer_enable && old(self).io_enable_timer ==> (final(self).timer_counter, final(
                self).timer_irq_pending) == fme7_irq_after(
                old(self).timer_counter,
                old(self).timer_latch,
                true,
                old(self).timer_irq_pending,
                cpu_cycles as nat,
            ),
            !(old(self).timer_enable && old(self).io_enable_timer) ==> final(self).timer_counter == old(
                self).timer_counter && final(self).timer_irq_pending == old(self).timer_irq_pending,
            final(self).audio == fds_audio_after(old(self).audio, (cpu_cycles / 2) as nat),
            *final(self) == (Fds {
                timer_counter: final(self).timer_counter,
                timer_irq_pending: final(self).timer_irq_pending,
                audio: final(self).audio,
                ..*old(self)
            }),
            final(self).clock_cpu_post(*old(self), cpu_cycles),
    {
        if self.timer_enable && self.io_enable_timer {
            let mut i: u32 = 0;
            while i < cpu_cycles
                invariant
                    i <= cpu_cycles,
                    (self.timer_counter, self.timer_irq_pending) == fme7_irq_after(
                        old(self).timer_counter,
                        old(self).timer_latch,
                        true,
                        old(self).timer_irq_pending,
                        i as nat,
                    ),
                    *self == (Fds {
                        timer_counter: self.timer_counter,
                        timer_irq_pending: self.timer_irq_pending,
                        ..*old(self)
                    }),
                decreases cpu_cycles - i,
            {
                if self.timer_counter == 0 {
                    self.timer_counter = self.timer_latch;
                    self.timer_irq_pending = true;
                } else {
                    self.timer_counter = self.timer_counter - 1;
                }
                i = i + 1;
            }
        }
        self.audio.clock(cpu_cycles / 2);
    }

    /// The expansion output level before scaling: the wave table entry at
    /// the main phase, centred at 32 and multiplied by the volume gain;
    /// `None` while the frequency is 0.
    pub fn expansion_level(&self) -> (r: Option<i32>)
        ensures
            self.audio.freq == 0 ==> r is None,
            self.audio.freq != 0 ==> r == Some(
                ((self.audio.wave_ram@[((self.audio.phase_acc / 4096) % 64) as int] - 32) * self.audio.volume_gain) as i32,
            ),
    {
        if self.audio.freq_value() == 0 {
            return None;
        }
        let p: u32 = self.audio.phase_value();
        proof {
            crate::bits::lemma_u32_masks(p);
            crate::bits::lemma_u32_masks(p >> 12u32);
        }
        let wave_idx: u32 = (p >> 12u32) & 0x3F;
        let wave_val: i32 = self.audio.wave_ram()[wave_idx as usize] as i32;
        let vol: i32 = self.audio.volume_gain_value() as i32;
        assert(-32 * 255 <= (wave_val - 32) * vol <= 223 * 255) by (nonlinear_arith)
            requires 0 <= wave_val <= 255, 0 <= vol <= 255;
        Some((wave_val - 32) * vol)
    }

    /// The contract of [`Fds::save_state`] as a predicate.
    pub open spec fn save_state_post(&self, s: MapperState) -> bool {
        &&& (s matches MapperState::Fds(m) && m.bios@ == self.bios@ && m.disk_data@ == self.disk_data@ && (Fds { bios: m.bios, disk_data: m.disk_data, ..*self }) == m)
    }

    /// Capture the adapter's state as a snapshot.
    pub fn save_state(&self) -> (s: MapperState)
        ensures
            s matches MapperState::Fds(m) && m.bios@ == self.bios@ && m.disk_data@ == self.disk_data@
                && (Fds { bios: m.bios, disk_data: m.disk_data, ..*self }) == m,
            self.save_state_post(s),
    {
        MapperState::Fds(Fds {
            prg_ram: self.prg_ram,
            bios: clone_bytes(&self.bios),
            chr_ram: self.chr_ram,
            disk_data: clone_bytes(&self.disk_data),
            disk_read_pos: self.disk_read_pos,
            disk_write_pos: self.disk_write_pos,
            disk_motor_on: self.disk_motor_on,
            disk_transfer_reset: self.disk_transfer_reset,
            disk_write_mode: self.disk_write_mode,
            disk_data_available: self.disk_data_available,
            disk_inserted: self.disk_inserted,
            disk_write_latch: self.disk_write_latch,
            io_enable_disk: self.io_enable_disk,
            io_enable_timer: self.io_enable_timer,
            timer_latch: self.timer_latch,
            timer_counter: self.timer_counter,
            timer_enable: self.timer_enable,
            timer_irq_pending: self.timer_irq_pending,
            mirror_horizontal: self.mirror_horizontal,
            audio: self.audio,
        })
    }

    /// Restore from a snapshot of the same board, keeping this adapter's
    /// own BIOS and disk image (they are not part of the saved state).
    pub fn restore_state(&mut self, state: MapperState)
        requires
            state is Fds,
        ensures
            state matches MapperState::Fds(m) && *final(self) == (Fds {
                bios: old(self).bios,
                disk_data: old(self).disk_data,
                ..m
            }),
    {
        match state {
            MapperState::Fds(m) => {
                let mut restored: Fds = m;
                std::mem::swap(&mut restored.bios, &mut self.bios);
                std::mem::swap(&mut restored.disk_data, &mut self.disk_data);
                *self = restored;
            },
            _ => {},
        }
    }
}

} // verus!
