use crate::CORE_CLOCK_FREQ;
use vstd::prelude::*;

verus! {

/// Bytes the I2C buffer holds.
pub const I2C_BUFFER_SIZE: usize = 32;

/// Rise time of the bus lines assumed for the baud rate, in ns.
pub const T_RISE_NS: u32 = 350;

/// `address` with the read bit (bit 0) set.
pub fn add_read_bit(address: u8) -> (r: u8)
    ensures
        r == address | 1u8,
{
    address | 0x01
}

/// `address` with the read bit (bit 0) cleared, for a write.
pub fn add_write_bit(address: u8) -> (r: u8)
    ensures
        r == address & !1u8,
{
    address & !0x01
}

/// The host baud register value for bus frequency `freq` and rise time `t_rise` (ns):
/// `f_clk / (2 freq) - (5 + f_clk[MHz] * t_rise / 2000)`.
pub open spec fn spec_twi_baud(freq: nat, t_rise: nat) -> int {
    (CORE_CLOCK_FREQ as nat / freq) / 2 - (5 + ((CORE_CLOCK_FREQ as nat / 1_000_000) * t_rise)
        / 2000)
}

/// The host baud register value (see `spec_twi_baud`); the bus must not be so fast or the
/// rise time so long that it falls below 0.
pub fn twi_baud(freq: u32, t_rise: u32) -> (r: u32)
    requires
        freq > 0,
        t_rise <= 100_000,
        spec_twi_baud(freq as nat, t_rise as nat) >= 0,
    ensures
        r as int == spec_twi_baud(freq as nat, t_rise as nat),
{
    let mhz: u32 = CORE_CLOCK_FREQ / 1_000_000;
    assert(mhz == 10);
    ((CORE_CLOCK_FREQ / freq) / 2) - (5 + ((mhz * t_rise) / 2000))
}

/// What went wrong on the bus.
#[derive(Clone, Copy, Debug, PartialEq, Eq, Structural)]
pub enum Error {
    /// lost arbitration while trying to acquire the bus
    ArbitrationLost,
    /// no client answered for this address, or it replied NACK
    AddressNack,
    /// the client replied NACK to sent data
    DataNack,
    /// a bus error occurred
    Bus,
    /// an unknown error occurred; the bus might be in an unknown state
    Unknown,
    /// the I2C peripheral is not set up
    Uninit,
    /// too many bytes to process
    BufferOverflow,
}

/// The number of an error, in declaration order.
pub open spec fn error_code(e: Error) -> u16 {
    match e {
        Error::ArbitrationLost => 0,
        Error::AddressNack => 1,
        Error::DataNack => 2,
        Error::Bus => 3,
        Error::Unknown => 4,
        Error::Uninit => 5,
        Error::BufferOverflow => 6,
    }
}

impl Error {
    /// The number of the error (see `error_code`).
    pub fn code(self) -> (r: u16)
        ensures
            r == error_code(self),
    {
        match self {
            Error::ArbitrationLost => 0,
            Error::AddressNack => 1,
            Error::DataNack => 2,
            Error::Bus => 3,
            Error::Unknown => 4,
            Error::Uninit => 5,
            Error::BufferOverflow => 6,
        }
    }
}

/// Direction of a transfer.
#[derive(Clone, Copy, Debug, PartialEq, Eq, Structural)]
pub enum Direction {
    /// write to a client (address bit 0 clear)
    Write,
    /// read from a client (address bit 0 set)
    Read,
}

/// The state of the I2C driver: the address in use (shifted, with the direction bit), the
/// buffer of data to send or received, how many bytes are still to process and how many were
/// processed, how many a client transfer sent, and the flags of the client transfer.
#[derive(Clone, Copy, Debug)]
pub struct I2cState {
    pub twi_init: bool,
    pub client_address: u8,
    pub data: [u8; I2C_BUFFER_SIZE],
    pub bytes_to_process: u8,
    pub bytes_processed: u8,
    pub bytes_transmitted: u8,
    pub client_check_nak: bool,
    pub host_data_sent: bool,
}

/// The driver's state as plain values.
pub struct I2cModel {
    pub twi_init: bool,
    pub client_address: u8,
    pub data: Seq<u8>,
    pub bytes_to_process: u8,
    pub bytes_processed: u8,
    pub bytes_transmitted: u8,
    pub client_check_nak: bool,
    pub host_data_sent: bool,
}

impl I2cState {
    /// The driver's state as plain values.
    pub open spec fn model(&self) -> I2cModel {
        I2cModel {
            twi_init: self.twi_init,
            client_address: self.client_address,
            data: self.data@,
            bytes_to_process: self.bytes_to_process,
            bytes_processed: self.bytes_processed,
            bytes_transmitted: self.bytes_transmitted,
            client_check_nak: self.client_check_nak,
            host_data_sent: self.host_data_sent,
        }
    }
}

/// The client status register (TWI0.SSTATUS) as read at an interrupt.
#[derive(Clone, Copy, Debug, PartialEq, Eq, Structural)]
pub struct ClientStatus {
    /// address or stop interrupt
    pub apif: bool,
    /// an address (not a stop) was detected
    pub ap: bool,
    /// the host reads
    pub dir: bool,
    /// data interrupt
    pub dif: bool,
    /// the host answered NACK
    pub rxack: bool,
    /// a collision was detected
    pub coll: bool,
}

/// How the client answers an interrupt (TWI0.SCTRLB).
#[derive(Clone, Copy, Debug, PartialEq, Eq, Structural)]
pub enum Response {
    Nothing,
    /// acknowledge and go on
    AckContinue,
    /// complete the transaction
    AckComplete,
    /// answer NACK and complete the transaction
    NakComplete,
}

/// The host status register (TWI0.MSTATUS) as read in a transfer.
#[derive(Clone, Copy, Debug, PartialEq, Eq, Structural)]
pub struct HostStatus {
    /// the bus state is unknown
    pub bus_unknown: bool,
    /// the bus is busy
    pub bus_busy: bool,
    /// arbitration was lost
    pub arblost: bool,
    /// write interrupt: the last write completed
    pub wif: bool,
    /// the client answered NACK
    pub rxack: bool,
}

/// Where a host transfer stands: whether the address and any data went out.
#[derive(Clone, Copy, Debug, PartialEq, Eq, Structural)]
pub struct Transfer {
    pub addr_sent: bool,
    pub data_sent: bool,
}

/// What a host transfer does after reading its status.
#[derive(Clone, Copy, Debug)]
pub enum TransferStep {
    /// read the status again
    Wait,
    /// write this to the address register (TWI0.MADDR)
    WriteAddress(u8),
    /// write this to the data register (TWI0.MDATA)
    WriteData(u8),
    /// give up at once with this error, without a stop condition
    Abort(Error),
    /// the transfer ended with this result; a stop condition follows when asked for or on error
    Done(Result<(), Error>),
}

/// Whether the client interrupt reads the data register: for an address, and for data the host
/// writes.
pub open spec fn client_reads_data(status: ClientStatus) -> bool {
    if status.apif {
        status.ap
    } else {
        status.dif && !status.dir
    }
}

/// The driver after a client interrupt with `status` (and `sdata`, the data register, when it is
/// read), the response, and the byte to put in the data register, if any.
/// An address starts a transfer with an empty buffer: a read by the host is refused when there
/// is nothing to send, a write is acknowledged. A stop completes the transfer. Data the host
/// reads goes out of the buffer while it acknowledges (a NACK or a collision ends the transfer);
/// data the host writes goes into the buffer while there is room, refused once it is full.
pub open spec fn client_step(s: I2cModel, status: ClientStatus, sdata: u8) -> (
    I2cModel,
    Response,
    Option<u8>,
) {
    if status.apif {
        let s1 = if s.host_data_sent {
            I2cModel { host_data_sent: false, ..s }
        } else {
            s
        };
        if status.ap {
            let s2 = I2cModel {
                client_address: sdata,
                bytes_to_process: 0,
                bytes_processed: 0,
                ..s1
            };
            if status.dir {
                (s2, Response::NakComplete, None)
            } else {
                (I2cModel { host_data_sent: true, ..s2 }, Response::AckContinue, None)
            }
        } else {
            (s1, Response::AckComplete, None)
        }
    } else if status.dif {
        if status.dir {
            if (s.client_check_nak && status.rxack) || status.coll {
                (
                    I2cModel { client_check_nak: false, bytes_to_process: 0, ..s },
                    Response::AckComplete,
                    None,
                )
            } else {
                let s1 = I2cModel {
                    bytes_transmitted: s.bytes_transmitted.wrapping_add(1),
                    client_check_nak: true,
                    ..s
                };
                if s.bytes_processed < s.bytes_to_process {
                    (
                        I2cModel { bytes_processed: (s.bytes_processed + 1) as u8, ..s1 },
                        Response::AckContinue,
                        Some(s.data[s.bytes_processed as int]),
                    )
                } else {
                    (I2cModel { bytes_to_process: 0, ..s1 }, Response::AckComplete, None)
                }
            }
        } else if s.bytes_to_process < I2C_BUFFER_SIZE {
            let n = (s.bytes_to_process + 1) as u8;
            (
                I2cModel {
                    data: s.data.update(s.bytes_to_process as int, sdata),
                    bytes_to_process: n,
                    ..s
                },
                if n == I2C_BUFFER_SIZE {
                    Response::NakComplete
                } else {
                    Response::AckContinue
                },
                None,
            )
        } else {
            (s, Response::Nothing, None)
        }
    } else {
        (s, Response::Nothing, None)
    }
}

/// The driver after a host transfer reads `status` while at `t`, the transfer afterwards, and
/// what it does: an unknown bus or lost arbitration aborts; a busy bus is waited for; the
/// address goes out first (with the write bit); after each completed write a NACK ends the
/// transfer (an error unless all data went out), else the next byte goes out, until none is
/// left.
pub open spec fn transfer_step(s: I2cModel, t: Transfer, status: HostStatus) -> (
    I2cModel,
    Transfer,
    TransferStep,
) {
    if status.bus_unknown {
        (s, t, TransferStep::Abort(Error::Uninit))
    } else if status.arblost {
        (s, t, TransferStep::Abort(Error::ArbitrationLost))
    } else if status.bus_busy {
        (s, t, TransferStep::Wait)
    } else if !t.addr_sent {
        (s, Transfer { addr_sent: true, ..t }, TransferStep::WriteAddress(s.client_address & !1u8))
    } else if status.wif {
        if status.rxack {
            if t.data_sent {
                if s.bytes_to_process != 0 {
                    (s, t, TransferStep::Done(Err(Error::DataNack)))
                } else {
                    (s, t, TransferStep::Done(Ok(())))
                }
            } else {
                (s, t, TransferStep::Done(Err(Error::AddressNack)))
            }
        } else if s.bytes_to_process > 0 {
            (
                I2cModel {
                    bytes_processed: (s.bytes_processed + 1) as u8,
                    bytes_to_process: (s.bytes_to_process - 1) as u8,
                    ..s
                },
                Transfer { data_sent: true, ..t },
                TransferStep::WriteData(s.data[s.bytes_processed as int]),
            )
        } else {
            (s, t, TransferStep::Done(Ok(())))
        }
    } else {
        (s, t, TransferStep::Wait)
    }
}

/// The bytes a host transfer still has to send from the buffer fit in it.
pub open spec fn transfer_fits(s: I2cModel) -> bool {
    s.bytes_processed + s.bytes_to_process <= I2C_BUFFER_SIZE
}

impl I2cState {
    /// An idle driver for client address `address`, not set up, with an empty buffer.
    pub fn new(address: u8) -> (r: Self)
        ensures
            r == (I2cState {
                twi_init: false,
                client_address: (address as nat * 2 % 256) as u8,
                data: r.data,
                bytes_to_process: 0,
                bytes_processed: 0,
                bytes_transmitted: 0,
                client_check_nak: false,
                host_data_sent: false,
            }),
            forall|i: int| 0 <= i < I2C_BUFFER_SIZE ==> r.data[i] == 0,
    {
        let shifted = address << 1u8;
        proof {
            assert(address << 1u8 == (address as nat * 2 % 256) as u8) by (bit_vector);
        }
        I2cState {
            twi_init: false,
            // bit 0 is the direction bit, 0 for a write
            client_address: shifted,
            data: [0u8; I2C_BUFFER_SIZE],
            bytes_to_process: 0,
            bytes_processed: 0,
            bytes_transmitted: 0,
            client_check_nak: false,
            host_data_sent: false,
        }
    }

    /// Starts a host transfer to `address`: the buffer is emptied.
    pub fn raw_start(&mut self, address: u8, direction: Direction) -> (r: Result<(), Error>)
        ensures
            r == Ok::<(), Error>(()),
            *final(self) == (I2cState {
                client_address: (address as nat * 2 % 256) as u8,
                bytes_to_process: 0,
                bytes_processed: 0,
                ..*old(self)
            }),
    {
        let shifted = address << 1u8;
        proof {
            assert(address << 1u8 == (address as nat * 2 % 256) as u8) by (bit_vector);
        }
        // bit 0 is the direction bit, 0 for a write
        self.client_address = shifted;
        self.bytes_to_process = 0;
        self.bytes_processed = 0;
        Ok(())
    }

    /// Queues `bytes` for a host write after those already queued; refused when they would fill
    /// the buffer.
    pub fn raw_write(&mut self, bytes: &[u8]) -> (r: Result<(), Error>)
        ensures
            old(self).bytes_to_process + bytes@.len() >= I2C_BUFFER_SIZE ==> {
                &&& r == Err::<(), Error>(Error::BufferOverflow)
                &&& *final(self) == *old(self)
            },
            old(self).bytes_to_process + bytes@.len() < I2C_BUFFER_SIZE ==> {
                let start = old(self).bytes_to_process as int;
                &&& r == Ok::<(), Error>(())
                &&& final(self).bytes_to_process == start + bytes@.len()
                &&& final(self).data@ == old(self).data@.subrange(0, start) + bytes@
                    + old(self).data@.subrange(start + bytes@.len(), I2C_BUFFER_SIZE as int)
                &&& *final(self) == (I2cState {
                    data: final(self).data,
                    bytes_to_process: final(self).bytes_to_process,
                    ..*old(self)
                })
            },
    {
        let buf_start = self.bytes_to_process as usize;
        if buf_start >= I2C_BUFFER_SIZE || bytes.len() >= I2C_BUFFER_SIZE - buf_start {
            return Err(Error::BufferOverflow);
        }
        let buf_end = buf_start + bytes.len();
        let mut i: usize = 0;
        while i < bytes.len()
            invariant
                buf_start == old(self).bytes_to_process,
                buf_end == buf_start + bytes@.len(),
                buf_end < I2C_BUFFER_SIZE,
                i <= bytes@.len(),
                *self == (I2cState { data: self.data, ..*old(self) }),
                forall|k: int|
                    0 <= k < I2C_BUFFER_SIZE ==> #[trigger] self.data@[k] == if buf_start <= k
                        < buf_start + i {
                        bytes@[k - buf_start]
                    } else {
                        old(self).data@[k]
                    },
            decreases bytes@.len() - i,
        {
            self.data[buf_start + i] = bytes[i];
            i = i + 1;
        }
        self.bytes_to_process = self.bytes_to_process + bytes.len() as u8;
        assert(self.data@ =~= old(self).data@.subrange(0, buf_start as int) + bytes@
            + old(self).data@.subrange(buf_end as int, I2C_BUFFER_SIZE as int));
        Ok(())
    }

    /// Prepares a host read into `buffer`: as many bytes as it holds (its length cut to 8 bits),
    /// at most a buffer's worth, are to come. The bytes are not received here.
    pub fn raw_read(&mut self, buffer: &mut [u8], last_read: bool) -> (r: Result<(), Error>)
        ensures
            r == Ok::<(), Error>(()),
            final(buffer)@ == old(buffer)@,
            *final(self) == (I2cState {
                bytes_processed: 0,
                bytes_to_process: if (old(buffer)@.len() % 256) > I2C_BUFFER_SIZE {
                    I2C_BUFFER_SIZE as u8
                } else {
                    (old(buffer)@.len() % 256) as u8
                },
                ..*old(self)
            }),
    {
        self.bytes_processed = 0;
        let len = buffer.len();
        let low = (len % 256) as u8;
        self.bytes_to_process = low;
        if self.bytes_to_process > I2C_BUFFER_SIZE as u8 {
            self.bytes_to_process = I2C_BUFFER_SIZE as u8;
        }
        Ok(())
    }

    /// How many received bytes a client has not read yet.
    pub fn raw_available_client(&self) -> (r: u8)
        requires
            self.bytes_processed <= self.bytes_to_process,
        ensures
            r == self.bytes_to_process - self.bytes_processed,
    {
        self.bytes_to_process - self.bytes_processed
    }

    /// The next received byte, if any; once all were read, the buffer is emptied.
    pub fn raw_read_client(&mut self) -> (r: Option<u8>)
        requires
            old(self).bytes_to_process <= I2C_BUFFER_SIZE,
        ensures
            final(self).bytes_to_process <= I2C_BUFFER_SIZE,
            old(self).bytes_processed < old(self).bytes_to_process ==> {
                &&& r == Some(old(self).data[old(self).bytes_processed as int])
                &&& *final(self) == (I2cState {
                    bytes_processed: (old(self).bytes_processed + 1) as u8,
                    ..*old(self)
                })
            },
            old(self).bytes_processed >= old(self).bytes_to_process ==> {
                &&& r is None
                &&& *final(self) == if old(self).bytes_processed > 0 {
                    I2cState { bytes_to_process: 0, bytes_processed: 0, ..*old(self) }
                } else {
                    *old(self)
                }
            },
    {
        if self.bytes_processed < self.bytes_to_process {
            let data = self.data[self.bytes_processed as usize];
            self.bytes_processed = self.bytes_processed + 1;
            Some(data)
        } else {
            // all read: the buffer starts over
            if self.bytes_processed > 0 {
                self.bytes_to_process = 0;
                self.bytes_processed = 0;
            }
            None
        }
    }

    /// Whether a client interrupt with `status` reads the data register (see
    /// `client_reads_data`).
    pub fn client_reads_data(status: ClientStatus) -> (r: bool)
        ensures
            r == client_reads_data(status),
    {
        if status.apif {
            status.ap
        } else {
            status.dif && !status.dir
        }
    }

    /// The client interrupt (TWI0_TWIS): updates the driver for `status` (and `sdata`, the data
    /// register, when `client_reads_data` says it was read) and gives the response and the byte
    /// to put in the data register, if any (see `client_step`).
    pub fn client_interrupt(&mut self, status: ClientStatus, sdata: u8) -> (r: (Response, Option<
        u8,
    >))
        requires
            old(self).bytes_to_process <= I2C_BUFFER_SIZE,
        ensures
            (final(self).model(), r.0, r.1) == client_step(old(self).model(), status, sdata),
            final(self).bytes_to_process <= I2C_BUFFER_SIZE,
    {
        let mut response = Response::Nothing;
        let mut to_send: Option<u8> = None;

        // address or stop condition detected
        if status.apif {
            // the host is done sending data
            if self.host_data_sent {
                self.host_data_sent = false;
            }
            // address detected (START or repeated START)
            if status.ap {
                self.client_address = sdata;
                self.bytes_to_process = 0;
                self.bytes_processed = 0;
                if status.dir {
                    // the host reads: answer by whether there is data to send
                    response = if self.bytes_to_process == 0 {
                        Response::NakComplete
                    } else {
                        Response::AckContinue
                    };
                } else {
                    // the host writes
                    self.host_data_sent = true;
                    response = Response::AckContinue;
                }
            } else {
                // STOP condition detected
                response = Response::AckComplete;
            }
        } else if status.dif {
            // data interrupt
            if status.dir {
                // the host reads; a NACK or a collision ends the transfer
                let nak = self.client_check_nak && status.rxack;
                let collision = status.coll;
                if nak || collision {
                    self.client_check_nak = false;
                    self.bytes_to_process = 0;
                    response = Response::AckComplete;
                } else {
                    // data acknowledged: go on sending
                    self.bytes_transmitted = self.bytes_transmitted.wrapping_add(1);
                    self.client_check_nak = true;
                    if self.bytes_processed < self.bytes_to_process {
                        let data = self.data[self.bytes_processed as usize];
                        to_send = Some(data);
                        self.bytes_processed = self.bytes_processed + 1;
                        response = Response::AckContinue;
                    } else {
                        // no more data to send
                        self.bytes_to_process = 0;
                        response = Response::AckComplete;
                    }
                }
            } else {
                // the host writes: keep the byte while there is room
                if self.bytes_to_process < I2C_BUFFER_SIZE as u8 {
                    self.data[self.bytes_to_process as usize] = sdata;
                    self.bytes_to_process = self.bytes_to_process + 1;
                    // refuse more once the buffer is full
                    response = if self.bytes_to_process == I2C_BUFFER_SIZE as u8 {
                        Response::NakComplete
                    } else {
                        Response::AckContinue
                    };
                }
            }
        }
        (response, to_send)
    }

    /// One round of a host transfer (see `transfer_step`).
    pub fn transfer_step(&mut self, t: &mut Transfer, status: HostStatus) -> (r: TransferStep)
        requires
            transfer_fits(old(self).model()),
        ensures
            transfer_fits(final(self).model()),
            (final(self).model(), *final(t), r) == transfer_step(old(self).model(), *old(t), status),
    {
        if status.bus_unknown {
            return TransferStep::Abort(Error::Uninit);
        }
        if status.arblost {
            return TransferStep::Abort(Error::ArbitrationLost);
        }
        // wait for the bus to be ready
        if status.bus_busy {
            return TransferStep::Wait;
        }
        // send the address first
        if !t.addr_sent {
            t.addr_sent = true;
            return TransferStep::WriteAddress(add_write_bit(self.client_address));
        }
        // wait for the write to complete
        if status.wif {
            if status.rxack {
                // a NACK: fine once all data went out
                if t.data_sent {
                    if self.bytes_to_process != 0 {
                        TransferStep::Done(Err(Error::DataNack))
                    } else {
                        TransferStep::Done(Ok(()))
                    }
                } else {
                    TransferStep::Done(Err(Error::AddressNack))
                }
            } else if self.bytes_to_process > 0 {
                // the next byte
                let data = self.data[self.bytes_processed as usize];
                self.bytes_processed = self.bytes_processed + 1;
                self.bytes_to_process = self.bytes_to_process - 1;
                t.data_sent = true;
                TransferStep::WriteData(data)
            } else {
                // nothing left to send
                TransferStep::Done(Ok(()))
            }
        } else {
            TransferStep::Wait
        }
    }
}

/// What pinging a device answers from the result of the transfer: a NACK to the address means
/// nobody is there; other errors stay errors.
pub open spec fn spec_ping_result(r: Result<(), Error>) -> Result<bool, Error> {
    match r {
        Ok(_) => Ok(true),
        Err(Error::AddressNack) => Ok(false),
        Err(e) => Err(e),
    }
}

/// What pinging a device answers (see `spec_ping_result`).
pub fn ping_result(r: Result<(), Error>) -> (p: Result<bool, Error>)
    ensures
        p == spec_ping_result(r),
{
    match r {
        Ok(_) => Ok(true),
        Err(Error::AddressNack) => Ok(false),
        Err(e) => Err(e),
    }
}

/// A byte the host writes to this client, once all earlier bytes were read, is the next byte
/// read: after the data interrupt the buffer holds one unread byte, that one.
pub proof fn lemma_client_write_then_read(s: I2cModel, status: ClientStatus, sdata: u8)
    requires
        s.data.len() == I2C_BUFFER_SIZE,
        s.bytes_processed == s.bytes_to_process,
        s.bytes_to_process < I2C_BUFFER_SIZE,
        !status.apif,
        status.dif,
        !status.dir,
    ensures
        ({
            let (s1, resp, out) = client_step(s, status, sdata);
            &&& s1.bytes_processed < s1.bytes_to_process
            &&& s1.bytes_to_process == s1.bytes_processed + 1
            &&& s1.data[s1.bytes_processed as int] == sdata
            &&& resp != Response::Nothing
        }),
{
}

} // verus!
