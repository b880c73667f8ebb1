//! The serial ports: which port is written and read, in what order, and
//! with what. The port instructions themselves are the caller's.

use vstd::prelude::*;

verus! {

/// Number of serial devices that the firmware may report.
pub const DEVICES: usize = 4;

/// Offset of the line status register from a device's base port.
pub const LINE_STATUS: u16 = 5;

/// Bit of the line status that says a received byte is waiting.
pub const DATA_READY: u8 = 0x01;

/// Bit of the line status that says the transmitter takes a byte.
pub const TRANSMIT_EMPTY: u8 = 0x20;

/// The byte for a carriage return.
pub const CARRIAGE_RETURN: u8 = 0x0D;

/// The byte for a line feed.
pub const LINE_FEED: u8 = 0x0A;

/// The highest base port whose registers all lie inside the port space.
pub const LAST_BASE_PORT: u16 = 0xFFFA;

/// One byte to put out on one port.
#[derive(Clone, Copy, Debug, PartialEq, Eq, Structural)]
pub struct PortWrite {
    /// The port.
    pub port: u16,
    /// The byte.
    pub value: u8,
}

/// One byte to send on one device: wait until the line status read from
/// `status_port` says that the transmitter is empty, then put `byte` out on
/// `data_port`.
#[derive(Clone, Copy, Debug, PartialEq, Eq, Structural)]
pub struct Transmit {
    /// Port of the device's line status register.
    pub status_port: u16,
    /// Port of the device's data register.
    pub data_port: u16,
    /// The byte to send.
    pub byte: u8,
}

/// What is to be done next to read a byte.
#[derive(Clone, Copy, Debug, PartialEq, Eq, Structural)]
pub enum ReadStep {
    /// Read the line status of device `device` from `port` and hand it to
    /// `SerialPort::after_status`.
    Poll { device: usize, port: u16 },
    /// Read `port`: what comes in is the byte.
    Fetch { port: u16 },
    /// No device has a byte waiting.
    Empty,
}

/// The serial devices that are present, by their base ports.
pub struct SerialPort {
    devices: [Option<u16>; 4],
}

/// The device that a base port from the firmware's data area stands for:
/// port zero means that there is none.
pub open spec fn device_of(port: u16) -> Option<u16> {
    if port == 0 {
        None
    } else {
        Some(port)
    }
}

/// The writes that bring the device at `port` to a known state: interrupts
/// off, the divisor latch opened and set to 1 for 115200 baud, then eight
/// data bits, one stop bit and no parity, and last the two modem lines
/// raised. No device, no writes.
pub open spec fn device_setup(port: u16) -> Seq<PortWrite> {
    if port == 0 {
        Seq::empty()
    } else {
        seq![
            PortWrite { port: (port + 1) as u16, value: 0x00 },
            PortWrite { port: (port + 3) as u16, value: 0x80 },
            PortWrite { port, value: 0x01 },
            PortWrite { port: (port + 1) as u16, value: 0x00 },
            PortWrite { port: (port + 3) as u16, value: 0x03 },
            PortWrite { port: (port + 4) as u16, value: 0x03 },
        ]
    }
}

/// The writes that set up all the devices in `ports`, device after device.
pub open spec fn setup(ports: Seq<u16>) -> Seq<PortWrite>
    decreases ports.len(),
{
    if ports.len() == 0 {
        Seq::empty()
    } else {
        setup(ports.drop_last()) + device_setup(ports.last())
    }
}

/// The first device from `from` on that is present, or the number of
/// devices where none is.
pub open spec fn next_present(devices: Seq<Option<u16>>, from: int) -> int
    decreases devices.len() - from,
{
    if from < 0 || from >= devices.len() {
        devices.len() as int
    } else if devices[from] is Some {
        from
    } else {
        next_present(devices, from + 1)
    }
}

/// What reading a byte does next when the devices before `from` have
/// nothing: it asks the next present device for its line status, or finds
/// that no device is left.
pub open spec fn poll_from(devices: Seq<Option<u16>>, from: int) -> ReadStep {
    let device = next_present(devices, from);
    if device < devices.len() {
        ReadStep::Poll {
            device: device as usize,
            port: (devices[device].unwrap() + LINE_STATUS) as u16,
        }
    } else {
        ReadStep::Empty
    }
}

/// The first present device from `from` on lies at or after `from`, is
/// present, and no device between the two is.
pub proof fn lemma_next_present(devices: Seq<Option<u16>>, from: int)
    requires
        0 <= from,
    ensures
        from <= next_present(devices, from) || next_present(devices, from) == devices.len(),
        next_present(devices, from) <= devices.len(),
        next_present(devices, from) < devices.len() ==> devices[next_present(devices, from)]
            is Some,
        forall|i: int| from <= i < next_present(devices, from) ==> devices[i] is None,
    decreases devices.len() - from,
{
    if from < devices.len() && devices[from] is None {
        lemma_next_present(devices, from + 1);
    }
}

/// What one byte sends on one device: the byte itself, and before a line
/// feed a carriage return.
pub open spec fn device_transmits(device: Option<u16>, byte: u8) -> Seq<Transmit> {
    match device {
        None => Seq::empty(),
        Some(port) => {
            let status_port = (port + LINE_STATUS) as u16;
            if byte == LINE_FEED {
                seq![
                    Transmit { status_port, data_port: port, byte: CARRIAGE_RETURN },
                    Transmit { status_port, data_port: port, byte },
                ]
            } else {
                seq![Transmit { status_port, data_port: port, byte }]
            }
        },
    }
}

/// What one byte sends on all of `devices`, device after device.
pub open spec fn byte_transmits(devices: Seq<Option<u16>>, byte: u8) -> Seq<Transmit>
    decreases devices.len(),
{
    if devices.len() == 0 {
        Seq::empty()
    } else {
        byte_transmits(devices.drop_last(), byte) + device_transmits(devices.last(), byte)
    }
}

/// What `bytes` send on all of `devices`: byte after byte, each on every
/// device before the next byte goes out.
pub open spec fn transmits(devices: Seq<Option<u16>>, bytes: Seq<u8>) -> Seq<Transmit>
    decreases bytes.len(),
{
    if bytes.len() == 0 {
        Seq::empty()
    } else {
        transmits(devices, bytes.drop_last()) + byte_transmits(devices, bytes.last())
    }
}

/// Whether a line status says that a received byte is waiting.
pub fn data_ready(status: u8) -> (ready: bool)
    ensures
        ready == (status & DATA_READY != 0),
{
    (status & DATA_READY) != 0
}

/// Whether a line status says that the transmitter takes a byte.
pub fn transmit_empty(status: u8) -> (ready: bool)
    ensures
        ready == (status & TRANSMIT_EMPTY != 0),
{
    (status & TRANSMIT_EMPTY) != 0
}

impl SerialPort {
    /// The devices, present or not, in the firmware's order.
    pub closed spec fn view(&self) -> Seq<Option<u16>> {
        self.devices@
    }

    /// No present device has base port zero, and the registers of every
    /// present device lie inside the port space.
    pub open spec fn wf(&self) -> bool {
        &&& self@.len() == DEVICES
        &&& forall|i: int|
            0 <= i < DEVICES ==> (#[trigger] self@[i] matches Some(port) ==> 0 < port
                <= LAST_BASE_PORT)
    }

    /// Takes the base ports of the serial devices from the firmware's data
    /// area, where port zero stands for a device that is not there, and
    /// gives the devices together with the writes that set them up, in the
    /// order in which they are to be made. Bytes that wait in a device
    /// afterwards are still to be read away, until `read_byte` finds none.
    pub fn new(ports: &[u16; 4]) -> (r: (SerialPort, Vec<PortWrite>))
        requires
            forall|i: int| 0 <= i < DEVICES ==> ports@[i] <= LAST_BASE_PORT,
        ensures
            r.0.wf(),
            r.0@ == ports@.map_values(|port: u16| device_of(port)),
            r.1@ == setup(ports@),
    {
        let mut ret = SerialPort { devices: [None;4] };
        let mut writes: Vec<PortWrite> = Vec::new();
        let mut com_id: usize = 0;
        assert(ports@.subrange(0, 0) =~= Seq::<u16>::empty());
        while com_id < DEVICES
            invariant
                com_id <= DEVICES,
                forall|i: int| 0 <= i < DEVICES ==> ports@[i] <= LAST_BASE_PORT,
                ret@.len() == DEVICES,
                forall|i: int| 0 <= i < com_id ==> ret@[i] == device_of(ports@[i]),
                forall|i: int| com_id <= i < DEVICES ==> ret@[i] is None,
                writes@ == setup(ports@.subrange(0, com_id as int)),
            decreases DEVICES - com_id,
        {
            let port = ports[com_id];
            proof {
                let through = ports@.subrange(0, com_id + 1);
                assert(through.drop_last() =~= ports@.subrange(0, com_id as int));
                assert(through.last() == port);
            }
            let ghost before = writes@;
            if port != 0 {
                writes.push(PortWrite { port: port + 1, value: 0x00 });
                writes.push(PortWrite { port: port + 3, value: 0x80 });
                writes.push(PortWrite { port: port, value: 0x01 });
                writes.push(PortWrite { port: port + 1, value: 0x00 });
                writes.push(PortWrite { port: port + 3, value: 0x03 });
                writes.push(PortWrite { port: port + 4, value: 0x03 });
                ret.devices[com_id] = Some(port);
            }
            assert(writes@ =~= before + device_setup(port));
            com_id = com_id + 1;
        }
        assert(ports@.subrange(0, DEVICES as int) =~= ports@);
        assert(ret@ =~= ports@.map_values(|port: u16| device_of(port)));
        (ret, writes)
    }

    /// The step for the first present device from `from` on.
    fn poll(&self, from: usize) -> (step: ReadStep)
        requires
            self.wf(),
        ensures
            step == poll_from(self@, from as int),
            step matches ReadStep::Poll { device, .. } ==> device < DEVICES && self@[device as int]
                is Some,
    {
        proof {
            lemma_next_present(self@, from as int);
        }
        let mut i: usize = from;
        while i < DEVICES
            invariant
                self.wf(),
                from <= i,
                next_present(self@, from as int) == next_present(self@, i as int),
            decreases DEVICES - i,
        {
            if let Some(port) = self.devices[i] {
                return ReadStep::Poll { device: i, port: port + LINE_STATUS };
            }
            i = i + 1;
        }
        ReadStep::Empty
    }

    /// Starts reading a byte from whichever device has one: the first
    /// present device is asked for its line status, and with no device
    /// present there is no byte.
    pub fn read_byte(&mut self) -> (step: ReadStep)
        requires
            old(self).wf(),
        ensures
            *final(self) == *old(self),
            step == poll_from(old(self)@, 0),
            step matches ReadStep::Poll { device, .. } ==> device < DEVICES && old(self)@[device as int]
                is Some,
    {
        self.poll(0)
    }

    /// Goes on reading a byte with the line status of device `device`. If a
    /// byte is waiting there it is to be fetched from that device's data
    /// port; if not, the next present device is asked, and after the last
    /// one there is no byte.
    pub fn after_status(&self, device: usize, status: u8) -> (step: ReadStep)
        requires
            self.wf(),
            device < DEVICES,
            self@[device as int] is Some,
        ensures
            step == if status & DATA_READY != 0 {
                ReadStep::Fetch { port: self@[device as int].unwrap() }
            } else {
                poll_from(self@, device + 1)
            },
            step matches ReadStep::Poll { device: next, .. } ==> device < next < DEVICES
                && self@[next as int] is Some,
    {
        if data_ready(status) {
            match self.devices[device] {
                Some(port) => ReadStep::Fetch { port },
                None => ReadStep::Empty,
            }
        } else {
            proof {
                lemma_next_present(self@, device + 1);
            }
            self.poll(device + 1)
        }
    }

    /// Adds to `out` what sending `byte` on the device with index `port`
    /// takes: a carriage return before a line feed, then the byte. An index
    /// without a device adds nothing.
    fn write_byte(&self, port: usize, byte: u8, out: &mut Vec<Transmit>)
        requires
            self.wf(),
        ensures
            final(out)@ == old(out)@ + (if port < DEVICES {
                device_transmits(self@[port as int], byte)
            } else {
                Seq::empty()
            }),
    {
        if port < DEVICES {
            if let Some(base) = self.devices[port] {
                if byte == LINE_FEED {
                    out.push(
                        Transmit { status_port: base + LINE_STATUS, data_port: base, byte: CARRIAGE_RETURN },
                    );
                }
                out.push(Transmit { status_port: base + LINE_STATUS, data_port: base, byte });
            }
            assert(out@ =~= old(out)@ + device_transmits(self@[port as int], byte));
        } else {
            assert(out@ =~= old(out)@ + Seq::<Transmit>::empty());
        }
    }

    /// Writes `bytes` to all present devices: the transmissions to make, in
    /// order. Each byte goes to every present device before the next byte,
    /// and a line feed is led by a carriage return on each device.
    pub fn write(&mut self, bytes: &[u8]) -> (out: Vec<Transmit>)
        requires
            old(self).wf(),
        ensures
            *final(self) == *old(self),
            out@ == transmits(old(self)@, bytes@),
    {
        let mut out: Vec<Transmit> = Vec::new();
        let mut i: usize = 0;
        assert(bytes@.subrange(0, 0) =~= Seq::<u8>::empty());
        while i < bytes.len()
            invariant
                self.wf(),
                i <= bytes@.len(),
                out@ == transmits(self@, bytes@.subrange(0, i as int)),
            decreases bytes@.len() - i,
        {
            let byte = bytes[i];
            proof {
                let through = bytes@.subrange(0, i + 1);
                assert(through.drop_last() =~= bytes@.subrange(0, i as int));
                assert(through.last() == byte);
            }
            let ghost sent = out@;
            let mut com_id: usize = 0;
            assert(self@.subrange(0, 0) =~= Seq::<Option<u16>>::empty());
            while com_id < DEVICES
                invariant
                    self.wf(),
                    com_id <= DEVICES,
                    out@ == sent + byte_transmits(self@.subrange(0, com_id as int), byte),
                decreases DEVICES - com_id,
            {
                proof {
                    let through = self@.subrange(0, com_id + 1);
                    assert(through.drop_last() =~= self@.subrange(0, com_id as int));
                    assert(through.last() == self@[com_id as int]);
                }
                self.write_byte(com_id, byte, &mut out);
                com_id = com_id + 1;
            }
            assert(self@.subrange(0, DEVICES as int) =~= self@);
            i = i + 1;
        }
        assert(bytes@.subrange(0, bytes@.len() as int) =~= bytes@);
        out
    }
}

} // verus!
