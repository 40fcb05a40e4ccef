//! The Enhanced BASIC machine: one keyboard register and one display register
//! in otherwise plain memory.
use vstd::prelude::*;
use crate::platform::{after_reads, is_plain, Bus, Platform, MEMORY_SIZE};

verus! {

/// Display: a write of a non-zero byte shows it.
pub const DSP: u16 = 0xf001;

/// Keyboard: holds the key typed until it is read, zero when empty.
pub const KBD: u16 = 0xf004;

/// An Enhanced BASIC machine with its memory and the display output not yet
/// collected.
pub struct Ehbasic {
    ram: [u8; MEMORY_SIZE],
    output: Vec<u8>,
}

/// The cell at index `i` right after `program` was loaded at `address`.
pub open spec fn loaded_cell(program: Seq<u8>, address: u16, i: int) -> u8 {
    if address <= i < address + program.len() {
        program[i - address]
    } else {
        0
    }
}

impl Ehbasic {
    /// A machine with all memory zero and nothing on the display.
    pub fn new() -> (machine: Ehbasic)
        ensures
            machine.bus().mem == Seq::new(MEMORY_SIZE as nat, |i: int| 0u8),
            machine.bus().output == Seq::<u8>::empty(),
    {
        Ehbasic { ram: [0u8; MEMORY_SIZE], output: Vec::new() }
    }
}

impl Platform for Ehbasic {
    closed spec fn bus(&self) -> Bus {
        Bus { mem: self.ram@, output: self.output@ }
    }

    /// Every read returns the cell. Reading the keyboard empties it.
    open spec fn read_spec(bus: Bus, addr: u16) -> (u8, Bus) {
        (
            bus.at(addr),
            if addr == KBD {
                bus.store(KBD, 0)
            } else {
                bus
            },
        )
    }

    /// Every write stores. A non-zero byte written to the display is shown.
    open spec fn write_spec(bus: Bus, addr: u16, value: u8) -> Bus {
        if addr == DSP && value > 0 {
            bus.show(value).store(addr, value)
        } else {
            bus.store(addr, value)
        }
    }

    open spec fn load_spec(bus: Bus, program: Seq<u8>, address: u16) -> Bus {
        Bus {
            mem: Seq::new(MEMORY_SIZE as nat, |i: int| loaded_cell(program, address, i)),
            output: bus.output,
        }
    }

    /// The latch is free while the keyboard cell is empty.
    open spec fn key_ready_spec(bus: Bus) -> bool {
        bus.at(KBD) == 0
    }

    /// A key is a write to the keyboard cell.
    open spec fn key_pressed_spec(bus: Bus, key: u8) -> Bus {
        bus.store(KBD, key)
    }

    proof fn lemma_bus_size(&self) {
    }

    fn read(&mut self, addr: u16) -> (value: u8) {
        let result: u8 = self.ram[addr as usize];
        if addr == KBD {
            self.ram[KBD as usize] = 0;
        }
        result
    }

    fn write(&mut self, addr: u16, value: u8) {
        if addr == DSP && value > 0 {
            self.output.push(value);
        }
        self.ram[addr as usize] = value;
    }

    fn load(&mut self, program: Vec<u8>, address: u16) {
        self.ram = [0u8; MEMORY_SIZE];
        let base: usize = address as usize;
        let mut i: usize = 0;
        while i < program.len()
            invariant
                i <= program@.len(),
                base == address,
                base + program@.len() <= MEMORY_SIZE,
                self.output@ == old(self).output@,
                forall|k: int| base <= k < base + i ==> self.ram@[k] == program@[k - base],
                forall|k: int| 0 <= k < MEMORY_SIZE && !(base <= k < base + i) ==> self.ram@[k] == 0,
            decreases program@.len() - i,
        {
            self.ram[base + i] = program[i];
            i += 1;
        }
        assert(self.ram@ =~= Seq::new(
            MEMORY_SIZE as nat,
            |i: int| loaded_cell(program@, address, i),
        ));
    }

    fn key_ready(&self) -> (ready: bool) {
        self.ram[KBD as usize] == 0
    }

    fn key_pressed(&mut self, key: u8) {
        self.write(KBD, key);
    }

    fn take_output(&mut self) -> (shown: Vec<u8>) {
        let mut shown: Vec<u8> = Vec::new();
        core::mem::swap(&mut shown, &mut self.output);
        shown
    }
}

/// Accesses to every cell but the keyboard and the display are plain.
pub proof fn lemma_plain_cells(addr: u16)
    requires
        addr != KBD,
        addr != DSP,
    ensures
        is_plain::<Ehbasic>(addr),
{
}

/// Reads leave the display alone and change at most one cell: once the
/// keyboard has been read, it is empty.
pub proof fn lemma_reads_keep_memory(bus: Bus, reads: Seq<u16>)
    requires
        bus.whole(),
    ensures
        after_reads::<Ehbasic>(bus, reads).output == bus.output,
        after_reads::<Ehbasic>(bus, reads).mem == (if reads.contains(KBD) {
            bus.mem.update(KBD as int, 0)
        } else {
            bus.mem
        }),
    decreases reads.len(),
{
    if reads.len() > 0 {
        let earlier = reads.drop_last();
        lemma_reads_keep_memory(bus, earlier);
        assert(reads.contains(KBD) <==> earlier.contains(KBD) || reads.last() == KBD) by {
            if earlier.contains(KBD) {
                let k = choose|k: int| 0 <= k < earlier.len() && earlier[k] == KBD;
                assert(reads[k] == KBD);
            }
            if reads.last() == KBD {
                assert(reads[reads.len() - 1] == KBD);
            }
            if reads.contains(KBD) && reads.last() != KBD {
                let k = choose|k: int| 0 <= k < reads.len() && reads[k] == KBD;
                assert(earlier[k] == KBD);
            }
        }
        let before = after_reads::<Ehbasic>(bus, earlier);
        let after = after_reads::<Ehbasic>(bus, reads);
        assert(after == Ehbasic::read_spec(before, reads.last()).1);
        assert(after.mem =~= (if reads.contains(KBD) {
            bus.mem.update(KBD as int, 0)
        } else {
            bus.mem
        }));
    }
}

/// Loading a program and reading it back returns the program.
///
/// This holds of every program byte, after any reads whatever, with one
/// exception that the statement leaves out: a non-zero byte at the keyboard
/// cell is gone once that cell has been read.
pub proof fn lemma_load_then_read(
    bus: Bus,
    program: Seq<u8>,
    address: u16,
    reads: Seq<u16>,
    addr: u16,
)
    requires
        address + program.len() <= MEMORY_SIZE,
        address <= addr < address + program.len(),
        addr == KBD && reads.contains(KBD) ==> program[addr - address] == 0,
    ensures
        Ehbasic::read_spec(
            after_reads::<Ehbasic>(Ehbasic::load_spec(bus, program, address), reads),
            addr,
        ).0 == program[addr - address],
{
    lemma_reads_keep_memory(Ehbasic::load_spec(bus, program, address), reads);
}

/// A key typed is the key read, once.
///
/// After a non-zero key is typed the latch is taken; a read of the keyboard
/// returns the key and frees the latch.
pub proof fn lemma_key_round_trip(bus: Bus, key: u8)
    requires
        bus.whole(),
        key != 0,
    ensures
        !Ehbasic::key_ready_spec(Ehbasic::key_pressed_spec(bus, key)),
        Ehbasic::read_spec(Ehbasic::key_pressed_spec(bus, key), KBD).0 == key,
        Ehbasic::key_ready_spec(Ehbasic::read_spec(Ehbasic::key_pressed_spec(bus, key), KBD).1),
{
}

} // verus!
