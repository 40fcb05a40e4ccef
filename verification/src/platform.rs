//! The memory bus that the processor talks to.
//!
//! A bus is 64 KiB of byte cells, some of which are device registers: reading
//! or writing them may change other cells or put a character on the display.
//! [`Bus`] is the mathematical picture of such a bus, and [`Platform`] is the
//! interface a concrete machine implements. Each implementation says, as
//! functions on [`Bus`], what its reads and writes do.
use vstd::prelude::*;

verus! {

/// Number of addressable cells.
pub const MEMORY_SIZE: usize = 65536;

/// A bus as the processor and the driver observe it.
pub struct Bus {
    /// The 65,536 cells, device registers included.
    pub mem: Seq<u8>,
    /// Characters sent to the display that the driver has not collected yet,
    /// oldest first.
    pub output: Seq<u8>,
}

impl Bus {
    /// Whether the bus has all its cells.
    pub open spec fn whole(self) -> bool {
        self.mem.len() == MEMORY_SIZE
    }

    /// The cell at `addr`.
    pub open spec fn at(self, addr: u16) -> u8 {
        self.mem[addr as int]
    }

    /// This bus with `value` stored at `addr` and nothing else changed.
    pub open spec fn store(self, addr: u16, value: u8) -> Bus {
        Bus { mem: self.mem.update(addr as int, value), ..self }
    }

    /// This bus with `ch` appended to the display output.
    pub open spec fn show(self, ch: u8) -> Bus {
        Bus { output: self.output.push(ch), ..self }
    }
}

/// A machine's memory map.
///
/// The `*_spec` functions define the map on the model; the executable methods
/// must follow them exactly. `read` takes `&mut self` because reading a device
/// register may have an effect.
pub trait Platform: Sized {
    /// The model of this value.
    spec fn bus(&self) -> Bus;

    /// The byte a read of `addr` returns, and the bus afterwards.
    spec fn read_spec(bus: Bus, addr: u16) -> (u8, Bus);

    /// The bus after `value` is written to `addr`.
    spec fn write_spec(bus: Bus, addr: u16, value: u8) -> Bus;

    /// The bus after `program` is loaded at `address`.
    spec fn load_spec(bus: Bus, program: Seq<u8>, address: u16) -> Bus;

    /// Whether the keyboard latch is free to take another key.
    spec fn key_ready_spec(bus: Bus) -> bool;

    /// The bus after `key` is typed.
    spec fn key_pressed_spec(bus: Bus, key: u8) -> Bus;

    /// The model of every value has all 65,536 cells.
    proof fn lemma_bus_size(&self)
        ensures
            self.bus().whole(),
    ;

    /// Reads the byte at `addr`, with whatever effect the map gives that read.
    fn read(&mut self, addr: u16) -> (value: u8)
        ensures
            (value, final(self).bus()) == Self::read_spec(old(self).bus(), addr),
    ;

    /// Writes `value` to `addr`, with whatever effect the map gives that write.
    fn write(&mut self, addr: u16, value: u8)
        ensures
            final(self).bus() == Self::write_spec(old(self).bus(), addr, value),
    ;

    /// Clears memory, copies `program` to `address` and installs the machine's
    /// resident ROM. The program must fit below the top of memory.
    fn load(&mut self, program: Vec<u8>, address: u16)
        requires
            address + program@.len() <= MEMORY_SIZE,
        ensures
            final(self).bus() == Self::load_spec(old(self).bus(), program@, address),
    ;

    /// Whether the keyboard latch is free to take another key.
    fn key_ready(&self) -> (ready: bool)
        ensures
            ready == Self::key_ready_spec(self.bus()),
    ;

    /// Types `key` on the keyboard.
    fn key_pressed(&mut self, key: u8)
        ensures
            final(self).bus() == Self::key_pressed_spec(old(self).bus(), key),
    ;

    /// Hands over the display output produced so far and empties it.
    fn take_output(&mut self) -> (shown: Vec<u8>)
        ensures
            shown@ == old(self).bus().output,
            final(self).bus() == (Bus { output: Seq::empty(), ..old(self).bus() }),
    ;
}

/// The bus after the addresses in `addrs` are read one after another.
pub open spec fn after_reads<P: Platform>(bus: Bus, addrs: Seq<u16>) -> Bus
    decreases addrs.len(),
{
    if addrs.len() == 0 {
        bus
    } else {
        P::read_spec(after_reads::<P>(bus, addrs.drop_last()), addrs.last()).1
    }
}

/// Accesses to `addr` are plain on `P`: a read returns the cell and changes
/// nothing, and a write stores the byte and changes nothing else.
pub open spec fn is_plain<P: Platform>(addr: u16) -> bool {
    &&& forall|bus: Bus| #[trigger] P::read_spec(bus, addr) == (bus.at(addr), bus)
    &&& forall|bus: Bus, value: u8| #[trigger]
        P::write_spec(bus, addr, value) == bus.store(addr, value)
}

} // verus!
