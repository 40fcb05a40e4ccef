//! The Apple 1: keyboard and display registers at `$D010`-`$D013` and the
//! 256-byte monitor ROM at the top of memory.
use vstd::prelude::*;
use crate::bits::{lemma_bit_seven, lemma_low_seven, lemma_raise_bit_seven, low_seven, raise_bit_seven};
use crate::machine::Machine;
use crate::platform::{after_reads, is_plain, Bus, Platform, MEMORY_SIZE};

verus! {

/// The monitor ROM. Its last bytes hold the vectors; the reset vector points
/// at the first byte of the ROM.
pub const WOZMON: [u8; 256] = [
    0xd8, 0x58, 0xa0, 0x7f, 0x8c, 0x12, 0xd0, 0xa9, 0xa7, 0x8d, 0x11, 0xd0, 0x8d, 0x13, 0xd0, 0xc9,
    0xdf, 0xf0, 0x13, 0xc9, 0x9b, 0xf0, 0x03, 0xc8, 0x10, 0x0f, 0xa9, 0xdc, 0x20, 0xef, 0xff, 0xa9,
    0x8d, 0x20, 0xef, 0xff, 0xa0, 0x01, 0x88, 0x30, 0xf6, 0xad, 0x11, 0xd0, 0x10, 0xfb, 0xad, 0x10,
    0xd0, 0x99, 0x00, 0x02, 0x20, 0xef, 0xff, 0xc9, 0x8d, 0xd0, 0xd4, 0xa0, 0xff, 0xa9, 0x00, 0xaa,
    0x0a, 0x85, 0x2b, 0xc8, 0xb9, 0x00, 0x02, 0xc9, 0x8d, 0xf0, 0xd4, 0xc9, 0xae, 0x90, 0xf4, 0xf0,
    0xf0, 0xc9, 0xba, 0xf0, 0xeb, 0xc9, 0xd2, 0xf0, 0x3b, 0x86, 0x28, 0x86, 0x29, 0x84, 0x2a, 0xb9,
    0x00, 0x02, 0x49, 0xb0, 0xc9, 0x0a, 0x90, 0x06, 0x69, 0x88, 0xc9, 0xfa, 0x90, 0x11, 0x0a, 0x0a,
    0x0a, 0x0a, 0xa2, 0x04, 0x0a, 0x26, 0x28, 0x26, 0x29, 0xca, 0xd0, 0xf8, 0xc8, 0xd0, 0xe0, 0xc4,
    0x2a, 0xf0, 0x97, 0x24, 0x2b, 0x50, 0x10, 0xa5, 0x28, 0x81, 0x26, 0xe6, 0x26, 0xd0, 0xb5, 0xe6,
    0x27, 0x4c, 0x44, 0xff, 0x6c, 0x24, 0x00, 0x30, 0x2b, 0xa2, 0x02, 0xb5, 0x27, 0x95, 0x25, 0x95,
    0x23, 0xca, 0xd0, 0xf7, 0xd0, 0x14, 0xa9, 0x8d, 0x20, 0xef, 0xff, 0xa5, 0x25, 0x20, 0xdc, 0xff,
    0xa5, 0x24, 0x20, 0xdc, 0xff, 0xa9, 0xba, 0x20, 0xef, 0xff, 0xa9, 0xa0, 0x20, 0xef, 0xff, 0xa1,
    0x24, 0x20, 0xdc, 0xff, 0x86, 0x2b, 0xa5, 0x24, 0xc5, 0x28, 0xa5, 0x25, 0xe5, 0x29, 0xb0, 0xc1,
    0xe6, 0x24, 0xd0, 0x02, 0xe6, 0x25, 0xa5, 0x24, 0x29, 0x07, 0x10, 0xc8, 0x48, 0x4a, 0x4a, 0x4a,
    0x4a, 0x20, 0xe5, 0xff, 0x68, 0x29, 0x0f, 0x09, 0xb0, 0xc9, 0xba, 0x90, 0x02, 0x69, 0x06, 0x2c,
    0x12, 0xd0, 0x30, 0xfb, 0x8d, 0x12, 0xd0, 0x60, 0x00, 0x00, 0x00, 0x0f, 0x00, 0xff, 0x00, 0x00,
];

/// Keyboard data: the last key typed, with bit 7 set. Reading it releases the
/// keyboard strobe.
pub const KBD: u16 = 0xd010;

/// Keyboard control: bit 7 is set while a key waits to be read.
pub const KBDCR: u16 = 0xd011;

/// Display data: a write shows a character.
pub const DSP: u16 = 0xd012;

/// Display control.
pub const DSPCR: u16 = 0xd013;

/// First address of the monitor ROM.
pub const ROM_BASE: u16 = 0xff00;

/// Line feed, which the display shows for either end-of-line character.
pub const NEWLINE: u8 = 0x0a;

/// An Apple 1 with its memory and the display output not yet collected.
pub struct Apple1 {
    ram: [u8; MEMORY_SIZE],
    output: Vec<u8>,
}

/// The display output after `value` is written to the display register.
///
/// Zero shows nothing. Otherwise the low seven bits are the character: line
/// feed and carriage return both show as a new line, rub-out shows nothing.
pub open spec fn echo(output: Seq<u8>, value: u8) -> Seq<u8> {
    let ch: u8 = low_seven(value);
    if value == 0 {
        output
    } else if ch == 0x0a || ch == 0x0d {
        output.push(NEWLINE)
    } else if ch != 0x7f {
        output.push(ch)
    } else {
        output
    }
}

/// The cell at index `i` right after `program` was loaded at `address`: the
/// ROM on top, the program where it was put, zero elsewhere.
pub open spec fn loaded_cell(program: Seq<u8>, address: u16, i: int) -> u8 {
    if ROM_BASE <= i {
        WOZMON[i - ROM_BASE]
    } else if address <= i < address + program.len() {
        program[i - address]
    } else {
        0
    }
}

impl Apple1 {
    /// A machine with all memory zero and nothing on the display.
    pub fn new() -> (machine: Apple1)
        ensures
            machine.bus().mem == Seq::new(MEMORY_SIZE as nat, |i: int| 0u8),
            machine.bus().output == Seq::<u8>::empty(),
    {
        Apple1 { ram: [0u8; MEMORY_SIZE], output: Vec::new() }
    }
}

impl Platform for Apple1 {
    closed spec fn bus(&self) -> Bus {
        Bus { mem: self.ram@, output: self.output@ }
    }

    /// Every read returns the cell. Reading the keyboard data also clears the
    /// strobe in the keyboard control register.
    open spec fn read_spec(bus: Bus, addr: u16) -> (u8, Bus) {
        (
            bus.at(addr),
            if addr == KBD {
                bus.store(KBDCR, low_seven(bus.at(KBDCR)))
            } else {
                bus
            },
        )
    }

    /// A write to the display register shows the character and stores it with
    /// bit 7 clear; a write to the keyboard data raises the strobe; every
    /// other write just stores.
    open spec fn write_spec(bus: Bus, addr: u16, value: u8) -> Bus {
        if addr == DSP {
            Bus { output: echo(bus.output, value), ..bus.store(DSP, low_seven(value)) }
        } else if addr == KBD {
            bus.store(KBDCR, raise_bit_seven(bus.at(KBDCR))).store(KBD, value)
        } else {
            bus.store(addr, value)
        }
    }

    open spec fn load_spec(bus: Bus, program: Seq<u8>, address: u16) -> Bus {
        Bus {
            mem: Seq::new(MEMORY_SIZE as nat, |i: int| loaded_cell(program, address, i)),
            output: bus.output,
        }
    }

    /// The latch is free while the strobe is down.
    open spec fn key_ready_spec(bus: Bus) -> bool {
        bus.at(KBDCR) < 128
    }

    /// A key lands in the keyboard data with bit 7 set and raises the strobe.
    /// Line feed is ignored: the machine ends its lines with carriage return.
    open spec fn key_pressed_spec(bus: Bus, key: u8) -> Bus {
        if key == 0x0a {
            bus
        } else {
            bus.store(KBD, raise_bit_seven(key)).store(KBDCR, 0x80)
        }
    }

    proof fn lemma_bus_size(&self) {
    }

    fn read(&mut self, addr: u16) -> (value: u8) {
        let result: u8 = self.ram[addr as usize];
        if addr == KBD {
            let kbdcr: u8 = self.ram[KBDCR as usize] & 0x7f;
            proof {
                lemma_low_seven(self.ram[KBDCR as int]);
            }
            self.ram[KBDCR as usize] = kbdcr;
        }
        result
    }

    fn write(&mut self, addr: u16, value: u8) {
        proof {
            lemma_low_seven(value);
        }
        if addr == KBD {
            let strobe: u8 = self.ram[KBDCR as usize] | 0x80;
            proof {
                lemma_raise_bit_seven(self.ram[KBDCR as int]);
            }
            self.ram[KBDCR as usize] = strobe;
        }
        if addr == DSP {
            if value > 0 {
                let ch: u8 = value & 0x7f;
                if ch == 0x0a || ch == 0x0d {
                    self.output.push(NEWLINE);
                } else if ch != 0x7f {
                    self.output.push(ch);
                }
            }
            self.ram[addr as usize] = value & 0x7f;
        } else {
            self.ram[addr as usize] = value;
        }
    }

    fn load(&mut self, program: Vec<u8>, address: u16) {
        self.ram = [0u8; MEMORY_SIZE];
        let base: usize = address as usize;
        let mut i: usize = 0;
        while i < program.len()
            invariant
                i <= program@.len(),
                base == address,
                base + program@.len() <= MEMORY_SIZE,
                self.output@ == old(self).output@,
                forall|k: int| base <= k < base + i ==> self.ram@[k] == program@[k - base],
                forall|k: int| 0 <= k < MEMORY_SIZE && !(base <= k < base + i) ==> self.ram@[k] == 0,
            decreases program@.len() - i,
        {
            self.ram[base + i] = program[i];
            i += 1;
        }
        let mut j: usize = 0;
        while j < 256
            invariant
                j <= 256,
                base == address,
                base + program@.len() <= MEMORY_SIZE,
                self.output@ == old(self).output@,
                forall|k: int| 0 <= k < ROM_BASE ==> self.ram@[k] == loaded_cell(program@, address, k),
                forall|k: int| ROM_BASE <= k < ROM_BASE + j ==> self.ram@[k] == WOZMON[k - ROM_BASE],
            decreases 256 - j,
        {
            self.ram[0xff00 + j] = WOZMON[j];
            j += 1;
        }
        assert(self.ram@ =~= Seq::new(
            MEMORY_SIZE as nat,
            |i: int| loaded_cell(program@, address, i),
        ));
    }

    fn key_ready(&self) -> (ready: bool) {
        proof {
            lemma_bit_seven(self.ram[KBDCR as int]);
        }
        (self.ram[KBDCR as usize] & 0x80) == 0
    }

    fn key_pressed(&mut self, key: u8) {
        if key != 0x0a {
            proof {
                lemma_raise_bit_seven(key);
            }
            self.write(KBD, key | 0x80);
            self.write(KBDCR, 0x80);
            assert(self.bus().mem =~= old(self).bus().store(KBD, raise_bit_seven(key)).store(
                KBDCR,
                0x80,
            ).mem);
        }
    }

    fn take_output(&mut self) -> (shown: Vec<u8>) {
        let mut shown: Vec<u8> = Vec::new();
        core::mem::swap(&mut shown, &mut self.output);
        shown
    }
}

/// Accesses to every cell but the keyboard data and the display data are
/// plain. In particular the zero page, the stack page and the ROM are.
pub proof fn lemma_plain_cells(addr: u16)
    requires
        addr != KBD,
        addr != DSP,
    ensures
        is_plain::<Apple1>(addr),
{
}

/// Reads leave the display alone and change at most one cell: once the
/// keyboard data has been read, the strobe is down.
pub proof fn lemma_reads_keep_memory(bus: Bus, reads: Seq<u16>)
    requires
        bus.whole(),
    ensures
        after_reads::<Apple1>(bus, reads).output == bus.output,
        after_reads::<Apple1>(bus, reads).mem == (if reads.contains(KBD) {
            bus.mem.update(KBDCR as int, low_seven(bus.at(KBDCR)))
        } else {
            bus.mem
        }),
    decreases reads.len(),
{
    if reads.len() > 0 {
        let earlier = reads.drop_last();
        lemma_reads_keep_memory(bus, earlier);
        assert(reads.contains(KBD) <==> earlier.contains(KBD) || reads.last() == KBD) by {
            if earlier.contains(KBD) {
                let k = choose|k: int| 0 <= k < earlier.len() && earlier[k] == KBD;
                assert(reads[k] == KBD);
            }
            if reads.last() == KBD {
                assert(reads[reads.len() - 1] == KBD);
            }
            if reads.contains(KBD) && reads.last() != KBD {
                let k = choose|k: int| 0 <= k < reads.len() && reads[k] == KBD;
                assert(earlier[k] == KBD);
            }
        }
        let before = after_reads::<Apple1>(bus, earlier);
        let after = after_reads::<Apple1>(bus, reads);
        assert(after == Apple1::read_spec(before, reads.last()).1);
        assert(after.mem =~= (if reads.contains(KBD) {
            bus.mem.update(KBDCR as int, low_seven(bus.at(KBDCR)))
        } else {
            bus.mem
        }));
    }
}

/// Loading a program and reading it back returns the program.
///
/// This holds of every program byte that lies below the ROM, after any reads
/// whatever, with one exception that the statement leaves out: the byte at the
/// keyboard control register loses bit 7 once the keyboard data has been read.
pub proof fn lemma_load_then_read(
    bus: Bus,
    program: Seq<u8>,
    address: u16,
    reads: Seq<u16>,
    addr: u16,
)
    requires
        address + program.len() <= MEMORY_SIZE,
        address <= addr < address + program.len(),
        addr < ROM_BASE,
        addr == KBDCR && reads.contains(KBD) ==> program[addr - address] < 128,
    ensures
        Apple1::read_spec(
            after_reads::<Apple1>(Apple1::load_spec(bus, program, address), reads),
            addr,
        ).0 == program[addr - address],
{
    lemma_reads_keep_memory(Apple1::load_spec(bus, program, address), reads);
}

/// After a load the ROM is in place whatever the program was, so the reset
/// vector points at the first byte of the monitor.
pub proof fn lemma_load_installs_rom(bus: Bus, program: Seq<u8>, address: u16, i: int)
    requires
        0 <= i < 256,
    ensures
        Apple1::load_spec(bus, program, address).mem[ROM_BASE + i] == WOZMON[i],
        Apple1::load_spec(bus, program, address).at(0xfffc) == 0x00,
        Apple1::load_spec(bus, program, address).at(0xfffd) == 0xff,
{
}

/// A reset right after a load starts the processor at the first byte of the
/// monitor, whatever was loaded.
pub proof fn lemma_reset_enters_monitor(
    m: Machine,
    bus: Bus,
    program: Seq<u8>,
    address: u16,
)
    requires
        m.bus == Apple1::load_spec(bus, program, address),
    ensures
        m.reset::<Apple1>().regs.reg_pc == ROM_BASE,
        m.reset::<Apple1>().regs.reg_sp == 0xfd,
        !m.reset::<Apple1>().stopped(),
        m.reset::<Apple1>().bus == m.bus,
{
    lemma_load_installs_rom(bus, program, address, 0xfc);
    lemma_load_installs_rom(bus, program, address, 0xfd);
}

/// A key typed is the key read, once.
///
/// After a key other than line feed is typed the latch is taken; a read of the
/// keyboard data returns the key with bit 7 set and frees the latch.
pub proof fn lemma_key_round_trip(bus: Bus, key: u8)
    requires
        bus.whole(),
        key != 0x0a,
    ensures
        !Apple1::key_ready_spec(Apple1::key_pressed_spec(bus, key)),
        Apple1::read_spec(Apple1::key_pressed_spec(bus, key), KBD).0 == raise_bit_seven(key),
        Apple1::key_ready_spec(Apple1::read_spec(Apple1::key_pressed_spec(bus, key), KBD).1),
{
}

} // verus!
