use vstd::prelude::*;

use crate::consoles::addressable::Addressable;
use crate::consoles::device::DeviceView;
use crate::consoles::fake_cartridge::FakeCartridge;
use crate::consoles::gameboy::gbcartridge::GbCartridge;
use crate::consoles::memory::Memory;
use crate::consoles::readable::Readable;
use crate::consoles::writeable::Writeable;

verus! {

/// Why an access through the bus failed: no device answers for the address.
#[derive(Debug, PartialEq, Eq, Structural)]
pub enum BusError<A> {
    ReadError(A),
    WriteError(A),
}

/// A device the bus can read from: it gives back values and answers for a range.
pub trait ReadDevice<A, V>: Readable<A, V> + Addressable<A> {}

/// A device the bus can write to: it stores values and answers for a range.
pub trait WriteDevice<A, V, DV>: Writeable<A, V, DV> + Addressable<A> {}

impl ReadDevice<u16, u8> for Memory {}

impl ReadDevice<u16, u8> for FakeCartridge {}

impl ReadDevice<u16, u8> for GbCartridge {}

impl WriteDevice<u16, u8, u16> for Memory {}

impl WriteDevice<u16, u8, u16> for FakeCartridge {}

/// A device that can sit on the bus.
pub enum Device {
    Memory(Memory),
    FakeCartridge(FakeCartridge),
    GbCartridge(GbCartridge),
}

impl View for Device {
    type V = DeviceView;

    open spec fn view(&self) -> DeviceView {
        match self {
            Device::Memory(m) => m@,
            Device::FakeCartridge(c) => c@,
            Device::GbCartridge(c) => c@,
        }
    }
}

impl Device {
    /// Whether the device takes writes: the rom of a Game Boy cartridge does not.
    pub open spec fn is_writeable(&self) -> bool {
        !(self is GbCartridge)
    }

    /// Whether `address` lies in the range of the device.
    pub fn in_range(&self, address: u16) -> (r: bool)
        ensures
            r == self@.in_range(address as int),
    {
        match self {
            Device::Memory(m) => m.in_range(address),
            Device::FakeCartridge(c) => c.in_range(address),
            Device::GbCartridge(c) => c.in_range(address),
        }
    }

    /// The byte the device gives back for `address`.
    pub fn read(&self, address: u16) -> (r: Result<u8, BusError<u16>>)
        requires
            self@.holds(address as int),
        ensures
            r == Ok::<u8, BusError<u16>>(self@.byte(address as int)),
    {
        match self {
            Device::Memory(m) => m.read(address),
            Device::FakeCartridge(c) => c.read(address),
            Device::GbCartridge(c) => c.read(address),
        }
    }

    /// Stores `data` for `address`.
    pub fn write(&mut self, address: u16, data: u8) -> (r: Result<(), BusError<u16>>)
        requires
            old(self).is_writeable(),
            old(self)@.holds(address as int),
        ensures
            r is Ok,
            final(self).is_writeable(),
            final(self)@ == old(self)@.stored(address as int, data),
    {
        match self {
            Device::Memory(m) => m.write(address, data),
            Device::FakeCartridge(c) => c.write(address, data),
            Device::GbCartridge(_) => Ok(()),
        }
    }

    /// Stores the low byte of `data` for `address` and the high byte for the address after it.
    pub fn write_16(&mut self, address: u16, data: u16) -> (r: Result<(), BusError<u16>>)
        requires
            old(self).is_writeable(),
            old(self)@.holds_word(address as int),
        ensures
            r is Ok,
            final(self).is_writeable(),
            final(self)@ == old(self)@.stored_16(address as int, data),
    {
        match self {
            Device::Memory(m) => m.write_16(address, data),
            Device::FakeCartridge(c) => c.write_16(address, data),
            Device::GbCartridge(_) => Ok(()),
        }
    }
}

/// A device on the bus, and whether the bus reads from it and writes to it.
pub struct Connection {
    device: Device,
    readable: bool,
    writeable: bool,
}

/// A connection as plain values.
pub ghost struct ConnectionView {
    pub device: DeviceView,
    pub readable: bool,
    pub writeable: bool,
}

/// The first connection from index `i` on that is connected for reading (or, when `reading`
/// is false, for writing) and whose range holds `address`.
pub open spec fn first_from(conns: Seq<ConnectionView>, address: int, reading: bool, i: int) -> Option<int>
    decreases conns.len() - i,
{
    if i < 0 || i >= conns.len() {
        None
    } else if (if reading { conns[i].readable } else { conns[i].writeable }) && conns[i].device.in_range(address) {
        Some(i)
    } else {
        first_from(conns, address, reading, i + 1)
    }
}

/// The connection that answers a read of `address`: the first readable one whose range holds it.
pub open spec fn reader(conns: Seq<ConnectionView>, address: int) -> Option<int> {
    first_from(conns, address, true, 0)
}

/// The connection that takes a write to `address`: the first writeable one whose range holds it.
pub open spec fn writer(conns: Seq<ConnectionView>, address: int) -> Option<int> {
    first_from(conns, address, false, 0)
}

/// What a read of `address` through the bus gives: the byte of the device that answers, or a
/// read error when none does.
pub open spec fn bus_read(conns: Seq<ConnectionView>, address: u16) -> Result<u8, BusError<u16>> {
    match reader(conns, address as int) {
        Some(i) => Ok(conns[i].device.byte(address as int)),
        None => Err(BusError::ReadError(address)),
    }
}

/// What a write of `data` to `address` through the bus answers: nothing, or a write error
/// when no device takes it.
pub open spec fn bus_write_result(conns: Seq<ConnectionView>, address: u16) -> Result<(), BusError<u16>> {
    match writer(conns, address as int) {
        Some(i) => Ok(()),
        None => Err(BusError::WriteError(address)),
    }
}

/// The connections after a write of `data` to `address`: the device that takes it stores it.
pub open spec fn bus_written(conns: Seq<ConnectionView>, address: u16, data: u8) -> Seq<ConnectionView> {
    match writer(conns, address as int) {
        Some(i) => conns.update(i, ConnectionView { device: conns[i].device.stored(address as int, data), ..conns[i] }),
        None => conns,
    }
}

/// The connections after a double width write of `data` to `address`.
pub open spec fn bus_written_16(conns: Seq<ConnectionView>, address: u16, data: u16) -> Seq<ConnectionView> {
    match writer(conns, address as int) {
        Some(i) => conns.update(i, ConnectionView { device: conns[i].device.stored_16(address as int, data), ..conns[i] }),
        None => conns,
    }
}

/// The device that answers a read of `address`, if any, holds it.
pub open spec fn read_held(conns: Seq<ConnectionView>, address: int) -> bool {
    reader(conns, address) matches Some(i) ==> conns[i].device.holds(address)
}

/// The device that takes a write to `address`, if any, holds it.
pub open spec fn write_held(conns: Seq<ConnectionView>, address: int) -> bool {
    writer(conns, address) matches Some(i) ==> conns[i].device.holds(address)
}

/// The device that takes a double width write to `address`, if any, holds both bytes.
pub open spec fn word_held(conns: Seq<ConnectionView>, address: int) -> bool {
    writer(conns, address) matches Some(i) ==> conns[i].device.holds_word(address)
}

/// The first matching connection from `i` on is a matching one, and none before it matches.
proof fn lemma_first_from(conns: Seq<ConnectionView>, address: int, reading: bool, i: int)
    requires
        0 <= i,
    ensures
        first_from(conns, address, reading, i) matches Some(k) ==> {
            &&& i <= k < conns.len()
            &&& (if reading { conns[k].readable } else { conns[k].writeable })
            &&& conns[k].device.in_range(address)
        },
    decreases conns.len() - i,
{
    if i < conns.len() {
        lemma_first_from(conns, address, reading, i + 1);
    }
}

/// Two lists of connections that agree on the flags and ranges of every connection choose the
/// same connection for every address.
proof fn lemma_first_from_same_ranges(a: Seq<ConnectionView>, b: Seq<ConnectionView>, address: int, reading: bool, i: int)
    requires
        a.len() == b.len(),
        forall|k: int| 0 <= k < a.len() ==> {
            &&& #[trigger] a[k].readable == b[k].readable
            &&& a[k].writeable == b[k].writeable
            &&& a[k].device.start == b[k].device.start
            &&& a[k].device.end == b[k].device.end
            &&& a[k].device.exhausted == b[k].device.exhausted
        },
    ensures
        first_from(a, address, reading, i) == first_from(b, address, reading, i),
    decreases a.len() - i,
{
    if 0 <= i < a.len() {
        assert(a[i].readable == b[i].readable);
        lemma_first_from_same_ranges(a, b, address, reading, i + 1);
    }
}

/// Devices connected in order; a read or a write goes to the first device connected for it
/// whose range holds the address.
pub struct Bus {
    connections: Vec<Connection>,
}

impl View for Bus {
    type V = Seq<ConnectionView>;

    closed spec fn view(&self) -> Seq<ConnectionView> {
        self.connections@.map_values(
            |c: Connection| ConnectionView { device: c.device@, readable: c.readable, writeable: c.writeable },
        )
    }
}

impl Bus {
    /// Every device connected for writing takes writes.
    pub closed spec fn wf(&self) -> bool {
        forall|i: int| 0 <= i < self.connections@.len() && #[trigger] self.connections@[i].writeable ==> self.connections@[i].device.is_writeable()
    }

    /// A bus with nothing connected.
    pub fn new() -> (b: Bus)
        ensures
            b.wf(),
            b@ == Seq::<ConnectionView>::empty(),
    {
        let b = Bus { connections: Vec::new() };
        assert(b@ =~= Seq::<ConnectionView>::empty());
        b
    }

    /// Connects `device` after the devices already on the bus, for reading, for writing, or for
    /// both; a device connected for both reads back what is written to it.
    pub fn connect(&mut self, device: Device, readable: bool, writeable: bool)
        requires
            old(self).wf(),
            writeable ==> device.is_writeable(),
        ensures
            final(self).wf(),
            final(self)@ == old(self)@.push(ConnectionView { device: device@, readable, writeable }),
    {
        let ghost dv = device@;
        self.connections.push(Connection { device, readable, writeable });
        assert(self@ =~= old(self)@.push(ConnectionView { device: dv, readable, writeable }));
    }

    /// Connects `readable` after the devices already on the bus, for reading only.
    pub fn connect_readable(&mut self, readable: Device)
        requires
            old(self).wf(),
        ensures
            final(self).wf(),
            final(self)@ == old(self)@.push(ConnectionView { device: readable@, readable: true, writeable: false }),
    {
        self.connect(readable, true, false);
    }

    /// Connects `writeable` after the devices already on the bus, for writing only.
    pub fn connect_writeable(&mut self, writeable: Device)
        requires
            old(self).wf(),
            writeable.is_writeable(),
        ensures
            final(self).wf(),
            final(self)@ == old(self)@.push(ConnectionView { device: writeable@, readable: false, writeable: true }),
    {
        self.connect(writeable, false, true);
    }

    /// The index of the first connection that is connected for reading (or writing) and whose
    /// range holds `address`.
    fn find(&self, address: u16, reading: bool) -> (r: Option<usize>)
        ensures
            r matches Some(k) ==> first_from(self@, address as int, reading, 0) == Some(k as int) && k < self@.len(),
            r is None ==> first_from(self@, address as int, reading, 0) is None,
    {
        let mut i: usize = 0;
        while i < self.connections.len()
            invariant
                i <= self@.len(),
                self@.len() == self.connections@.len(),
                first_from(self@, address as int, reading, 0) == first_from(self@, address as int, reading, i as int),
            decreases self@.len() - i,
        {
            let c = &self.connections[i];
            let wanted = if reading { c.readable } else { c.writeable };
            if wanted && c.device.in_range(address) {
                return Some(i);
            }
            i = i + 1;
        }
        None
    }

    /// Stores `data` at `address` in the device that takes writes to it.
    fn store(&mut self, i: usize, address: u16, data: u8)
        requires
            old(self).wf(),
            i < old(self)@.len(),
            old(self)@[i as int].writeable,
            old(self)@[i as int].device.holds(address as int),
        ensures
            final(self).wf(),
            final(self)@ == old(self)@.update(i as int, ConnectionView { device: old(self)@[i as int].device.stored(address as int, data), ..old(self)@[i as int] }),
    {
        let ghost before = self@;
        let mut c = self.connections.remove(i);
        let _ = c.device.write(address, data);
        self.connections.insert(i, c);
        assert(self@ =~= before.update(i as int, ConnectionView { device: before[i as int].device.stored(address as int, data), ..before[i as int] }));
        assert forall|k: int| 0 <= k < self.connections@.len() && #[trigger] self.connections@[k].writeable implies self.connections@[k].device.is_writeable() by {
            if k != i {
                assert(self.connections@[k] == old(self).connections@[k]);
            }
        }
    }

    /// Stores `data` at `address`, low byte first, in the device that takes writes to it.
    fn store_16(&mut self, i: usize, address: u16, data: u16)
        requires
            old(self).wf(),
            i < old(self)@.len(),
            old(self)@[i as int].writeable,
            old(self)@[i as int].device.holds_word(address as int),
        ensures
            final(self).wf(),
            final(self)@ == old(self)@.update(i as int, ConnectionView { device: old(self)@[i as int].device.stored_16(address as int, data), ..old(self)@[i as int] }),
    {
        let ghost before = self@;
        let mut c = self.connections.remove(i);
        let _ = c.device.write_16(address, data);
        self.connections.insert(i, c);
        assert(self@ =~= before.update(i as int, ConnectionView { device: before[i as int].device.stored_16(address as int, data), ..before[i as int] }));
        assert forall|k: int| 0 <= k < self.connections@.len() && #[trigger] self.connections@[k].writeable implies self.connections@[k].device.is_writeable() by {
            if k != i {
                assert(self.connections@[k] == old(self).connections@[k]);
            }
        }
    }
}

impl Readable<u16, u8> for Bus {
    open spec fn can_read(&self, address: u16) -> bool {
        read_held(self@, address as int)
    }

    /// The byte of the first readable device whose range holds `address`; a read error when no
    /// such device is connected.
    fn read(&self, address: u16) -> (r: Result<u8, BusError<u16>>)
        ensures
            r == bus_read(self@, address),
    {
        match self.find(address, true) {
            Some(i) => self.connections[i].device.read(address),
            None => Err(BusError::ReadError(address)),
        }
    }
}

impl Writeable<u16, u8, u16> for Bus {
    open spec fn can_write(&self, address: u16) -> bool {
        self.wf() && write_held(self@, address as int)
    }

    open spec fn can_write_16(&self, address: u16) -> bool {
        self.wf() && word_held(self@, address as int)
    }

    /// Stores `data` in the first writeable device whose range holds `address`; a write error
    /// when no such device is connected.
    fn write(&mut self, address: u16, data: u8) -> (r: Result<(), BusError<u16>>)
        ensures
            final(self).wf(),
            r == bus_write_result(old(self)@, address),
            final(self)@ == bus_written(old(self)@, address, data),
    {
        proof { lemma_first_from(self@, address as int, false, 0); }
        match self.find(address, false) {
            Some(i) => {
                self.store(i, address, data);
                Ok(())
            },
            None => Err(BusError::WriteError(address)),
        }
    }

    /// Stores `data`, low byte first, in the first writeable device whose range holds
    /// `address`; a write error when no such device is connected.
    fn write_16(&mut self, address: u16, data: u16) -> (r: Result<(), BusError<u16>>)
        ensures
            final(self).wf(),
            r == bus_write_result(old(self)@, address),
            final(self)@ == bus_written_16(old(self)@, address, data),
    {
        proof { lemma_first_from(self@, address as int, false, 0); }
        match self.find(address, false) {
            Some(i) => {
                self.store_16(i, address, data);
                Ok(())
            },
            None => Err(BusError::WriteError(address)),
        }
    }
}

/// A write through the bus that the device taking it holds keeps which device answers each
/// address, and which addresses the devices hold.
pub proof fn lemma_write_keeps_choice(conns: Seq<ConnectionView>, address: u16, data: u8)
    requires
        write_held(conns, address as int),
    ensures
        bus_written(conns, address, data).len() == conns.len(),
        forall|a: int| #[trigger] reader(bus_written(conns, address, data), a) == reader(conns, a),
        forall|a: int| #[trigger] writer(bus_written(conns, address, data), a) == writer(conns, a),
        forall|a: int| #[trigger] read_held(bus_written(conns, address, data), a) == read_held(conns, a),
        forall|a: int| #[trigger] write_held(bus_written(conns, address, data), a) == write_held(conns, a),
        forall|a: int| #[trigger] word_held(bus_written(conns, address, data), a) == word_held(conns, a),
{
    let written = bus_written(conns, address, data);
    lemma_first_from(conns, address as int, false, 0);
    assert forall|a: int| #[trigger] reader(written, a) == reader(conns, a) by {
        lemma_first_from_same_ranges(written, conns, a, true, 0);
    }
    assert forall|a: int| #[trigger] writer(written, a) == writer(conns, a) by {
        lemma_first_from_same_ranges(written, conns, a, false, 0);
    }
    assert forall|a: int| #[trigger] read_held(written, a) == read_held(conns, a) by {
        assert(reader(written, a) == reader(conns, a));
        lemma_first_from(conns, a, true, 0);
    }
    assert forall|a: int| #[trigger] write_held(written, a) == write_held(conns, a) by {
        assert(writer(written, a) == writer(conns, a));
        lemma_first_from(conns, a, false, 0);
    }
    assert forall|a: int| #[trigger] word_held(written, a) == word_held(conns, a) by {
        assert(writer(written, a) == writer(conns, a));
        lemma_first_from(conns, a, false, 0);
    }
}

/// A double width write through the bus that the device taking it holds keeps which device
/// answers each address, and which addresses the devices hold.
pub proof fn lemma_write_16_keeps_choice(conns: Seq<ConnectionView>, address: u16, data: u16)
    requires
        word_held(conns, address as int),
    ensures
        bus_written_16(conns, address, data).len() == conns.len(),
        forall|a: int| #[trigger] reader(bus_written_16(conns, address, data), a) == reader(conns, a),
        forall|a: int| #[trigger] writer(bus_written_16(conns, address, data), a) == writer(conns, a),
        forall|a: int| #[trigger] read_held(bus_written_16(conns, address, data), a) == read_held(conns, a),
        forall|a: int| #[trigger] write_held(bus_written_16(conns, address, data), a) == write_held(conns, a),
        forall|a: int| #[trigger] word_held(bus_written_16(conns, address, data), a) == word_held(conns, a),
{
    let written = bus_written_16(conns, address, data);
    lemma_first_from(conns, address as int, false, 0);
    assert forall|a: int| #[trigger] reader(written, a) == reader(conns, a) by {
        lemma_first_from_same_ranges(written, conns, a, true, 0);
    }
    assert forall|a: int| #[trigger] writer(written, a) == writer(conns, a) by {
        lemma_first_from_same_ranges(written, conns, a, false, 0);
    }
    assert forall|a: int| #[trigger] read_held(written, a) == read_held(conns, a) by {
        assert(reader(written, a) == reader(conns, a));
        lemma_first_from(conns, a, true, 0);
    }
    assert forall|a: int| #[trigger] write_held(written, a) == write_held(conns, a) by {
        assert(writer(written, a) == writer(conns, a));
        lemma_first_from(conns, a, false, 0);
    }
    assert forall|a: int| #[trigger] word_held(written, a) == word_held(conns, a) by {
        assert(writer(written, a) == writer(conns, a));
        lemma_first_from(conns, a, false, 0);
    }
}

/// A write through the bus is read back at its address when the device that answers reads of
/// the address is the one that took the write; every other address that can be read reads as
/// before, and the bus still chooses the same device for every address.
pub proof fn lemma_read_after_write(conns: Seq<ConnectionView>, address: u16, data: u8, other: u16)
    requires
        reader(conns, address as int) == writer(conns, address as int),
        writer(conns, address as int) is Some,
        write_held(conns, address as int),
    ensures
        bus_read(bus_written(conns, address, data), address) == Ok::<u8, BusError<u16>>(data),
        other != address && read_held(conns, other as int) ==> bus_read(bus_written(conns, address, data), other) == bus_read(conns, other),
        forall|a: int| #[trigger] reader(bus_written(conns, address, data), a) == reader(conns, a),
        forall|a: int| #[trigger] writer(bus_written(conns, address, data), a) == writer(conns, a),
{
    let written = bus_written(conns, address, data);
    lemma_first_from(conns, address as int, false, 0);
    assert forall|a: int| #[trigger] reader(written, a) == reader(conns, a) by {
        lemma_first_from_same_ranges(written, conns, a, true, 0);
    }
    assert forall|a: int| #[trigger] writer(written, a) == writer(conns, a) by {
        lemma_first_from_same_ranges(written, conns, a, false, 0);
    }
    lemma_first_from(conns, other as int, true, 0);
}

/// A write through the bus leaves what every other address reads, where it can be read.
pub proof fn lemma_write_keeps_other_reads(conns: Seq<ConnectionView>, address: u16, data: u8, other: u16)
    requires
        write_held(conns, address as int),
        other != address,
        read_held(conns, other as int),
    ensures
        bus_read(bus_written(conns, address, data), other) == bus_read(conns, other),
{
    lemma_write_keeps_choice(conns, address, data);
    lemma_first_from(conns, other as int, true, 0);
    lemma_first_from(conns, address as int, false, 0);
}

/// A double width write through the bus puts the low byte at its address and the high byte at
/// the next one, when the device that takes it also answers reads of both addresses.
pub proof fn lemma_read_after_write_16(conns: Seq<ConnectionView>, address: u16, data: u16)
    requires
        address < 0xFFFF,
        reader(conns, address as int) == writer(conns, address as int),
        reader(conns, address + 1) == writer(conns, address as int),
        writer(conns, address as int) is Some,
        word_held(conns, address as int),
    ensures
        bus_read(bus_written_16(conns, address, data), address) == Ok::<u8, BusError<u16>>((data % 256) as u8),
        bus_read(bus_written_16(conns, address, data), (address + 1) as u16) == Ok::<u8, BusError<u16>>((data / 256) as u8),
{
    let written = bus_written_16(conns, address, data);
    lemma_first_from(conns, address as int, false, 0);
    lemma_first_from_same_ranges(written, conns, address as int, true, 0);
    lemma_first_from_same_ranges(written, conns, address + 1, true, 0);
}

} // verus!
