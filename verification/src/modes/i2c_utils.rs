use super::{appended_text, show_text, Action, Context, Peripherals};
use crate::i2c::{error_code, Direction, Error, I2cModel, I2cState, I2C_BUFFER_SIZE};
use crate::input::InputEvent;
use crate::saved_settings::{setting_offset, SavedSettings, Setting};
use crate::utils::{format_buf, format_uint, spec_format_buf, spec_format_uint};
use crate::{I2C_BUS_SPEED, NUM_CHARS};
use vstd::prelude::*;

verus! {

/// The address this badge answers to as an I2C client.
pub const I2C_CLIENT_ADDRESS: u8 = 0x13;

/// The first address scanned.
pub const I2C_MIN_ADDRESS: u8 = 0x02;

/// The last address scanned.
pub const I2C_MAX_ADDRESS: u8 = 0x7F;

/// Bytes of a message.
pub const MAX_MESSAGE_SIZE: usize = 20;

/// The two I2C utilities: scanning the bus as host, and showing messages received as client.
#[derive(Clone, Copy, Debug, PartialEq, Eq, Structural)]
pub enum I2CUtil {
    ScannerHost,
    MessageClient,
}

/// The I2C utilities mode: the scan (the address found, the one tried and its direction, the
/// error that stopped it) and the message (the buffer being received, the message shown,
/// whether it shows, its length, the scroll position, the fill of the buffer, the scroll
/// speed), and a counter for the timing of the display.
pub struct I2CUtils {
    pub cur_util: I2CUtil,
    pub util_init: bool,
    pub scan_found_address: u8,
    pub scan_address: u8,
    pub scan_direction: Direction,
    pub scan_error: Option<Error>,
    pub msg_buf: [u8; MAX_MESSAGE_SIZE],
    pub msg_data: [u8; MAX_MESSAGE_SIZE],
    pub msg_display: bool,
    pub msg_len: u8,
    pub msg_pos: u8,
    pub msg_buf_pos: u8,
    pub msg_speed: u8,
    pub counter: u8,
}

/// The mode as plain values.
pub struct I2CUtilsModel {
    pub cur_util: I2CUtil,
    pub util_init: bool,
    pub scan_found_address: u8,
    pub scan_address: u8,
    pub scan_direction: Direction,
    pub scan_error: Option<Error>,
    pub msg_buf: Seq<u8>,
    pub msg_data: Seq<u8>,
    pub msg_display: bool,
    pub msg_len: u8,
    pub msg_pos: u8,
    pub msg_buf_pos: u8,
    pub msg_speed: u8,
    pub counter: u8,
}

impl I2CUtils {
    /// The mode as plain values.
    pub open spec fn model(&self) -> I2CUtilsModel {
        I2CUtilsModel {
            cur_util: self.cur_util,
            util_init: self.util_init,
            scan_found_address: self.scan_found_address,
            scan_address: self.scan_address,
            scan_direction: self.scan_direction,
            scan_error: self.scan_error,
            msg_buf: self.msg_buf@,
            msg_data: self.msg_data@,
            msg_display: self.msg_display,
            msg_len: self.msg_len,
            msg_pos: self.msg_pos,
            msg_buf_pos: self.msg_buf_pos,
            msg_speed: self.msg_speed,
            counter: self.counter,
        }
    }
}

/// The message shown before one arrives: "Waiting for message..." cut to 20 bytes.
pub open spec fn waiting_message() -> Seq<u8> {
    seq![
        87u8, 97, 105, 116, 105, 110, 103, 32, 102, 111, 114, 32, 109, 101, 115, 115, 97, 103,
        101, 46,
    ]
}

/// The byte a utility is saved as.
pub open spec fn util_code(u: I2CUtil) -> u8 {
    match u {
        I2CUtil::ScannerHost => 0,
        I2CUtil::MessageClient => 1,
    }
}

/// The other utility.
pub open spec fn other_util(u: I2CUtil) -> I2CUtil {
    match u {
        I2CUtil::ScannerHost => I2CUtil::MessageClient,
        I2CUtil::MessageClient => I2CUtil::ScannerHost,
    }
}

/// The mode's message and scan values stay in range.
pub open spec fn i2c_utils_inv(u: I2CUtilsModel) -> bool {
    &&& u.msg_len <= MAX_MESSAGE_SIZE
    &&& u.msg_buf_pos < MAX_MESSAGE_SIZE
    &&& u.msg_speed <= 100
    &&& u.scan_address <= I2C_MAX_ADDRESS
    &&& u.msg_pos < MAX_MESSAGE_SIZE + 2 * NUM_CHARS
}

/// The client driver can be read: no more bytes read than received, within the buffer.
pub open spec fn client_readable(s: I2cModel) -> bool {
    s.data.len() == I2C_BUFFER_SIZE && s.bytes_processed <= s.bytes_to_process <= I2C_BUFFER_SIZE
}

/// The digit of a nibble: '0' to '9' below ten, and from ten on 'A' plus the nibble (so ten
/// shows as 'K'); '?' for values that are no nibble.
pub open spec fn hex_digit(b: u8) -> u8 {
    if b < 0x0A {
        (48 + b) as u8
    } else if b < 0x10 {
        (65 + b) as u8
    } else {
        63u8
    }
}

/// The two digits of an address.
pub open spec fn addr_text(addr: u8) -> Seq<u8> {
    seq![hex_digit(addr / 16), hex_digit(addr % 16)]
}

/// What the scanner shows: an error alternates between the address it stopped at ("ERR:0x")
/// and the error's number ("ERR:") as the counter runs; an address that answered shows as
/// "ACK:0x"; else the address tried as "NAK:0x".
pub open spec fn scan_text(u: I2CUtilsModel) -> Seq<u8> {
    let n = NUM_CHARS as nat;
    match u.scan_error {
        Some(e) => if u.counter < 0x7F {
            spec_format_buf(n, seq![69u8, 82, 82, 58, 48, 120], addr_text(u.scan_address))
        } else {
            spec_format_uint(n, seq![69u8, 82, 82, 58], error_code(e) as nat, 0, Seq::empty())
        },
        None => if u.scan_found_address > 0 {
            spec_format_buf(n, seq![65u8, 67, 75, 58, 48, 120], addr_text(u.scan_found_address))
        } else {
            spec_format_buf(n, seq![78u8, 65, 75, 58, 48, 120], addr_text(u.scan_address))
        },
    }
}

/// What the message screen shows: the message scrolled in from the right by `msg_pos`, with
/// eight spaces before and after it; all spaces while the message is hidden.
pub open spec fn scroll_text(u: I2CUtilsModel) -> Seq<u8> {
    Seq::new(
        NUM_CHARS as nat,
        |i: int|
            {
                let offset = u.msg_pos + i;
                if u.msg_display && offset >= NUM_CHARS {
                    let actual = offset - NUM_CHARS;
                    if actual < u.msg_len {
                        u.msg_data[actual]
                    } else {
                        32u8
                    }
                } else {
                    32u8
                }
            },
    )
}

/// The next address and direction to try, and the mode with them: the read of an address
/// follows its write; the next address follows its read, from the last back to the first. A
/// scan stopped by an answer or an error tries nothing.
pub open spec fn scan_next(u: I2CUtilsModel) -> Option<I2CUtilsModel> {
    if u.scan_found_address != 0 || u.scan_error is Some {
        None
    } else if u.scan_direction == Direction::Read {
        Some(I2CUtilsModel { scan_direction: Direction::Write, ..u })
    } else {
        let a = (u.scan_address + 1) as u8;
        Some(
            I2CUtilsModel {
                scan_direction: Direction::Read,
                scan_address: if a > I2C_MAX_ADDRESS {
                    I2C_MIN_ADDRESS
                } else {
                    a
                },
                ..u
            },
        )
    }
}

/// The scan after the ping of its address answers `result`: no answer goes on; an answer
/// stops the scan at that address (its read is not tried); an error stops the scan.
pub open spec fn scan_recorded(u: I2CUtilsModel, result: Result<bool, Error>) -> I2CUtilsModel {
    match result {
        Ok(false) => u,
        Ok(true) => I2CUtilsModel {
            scan_found_address: u.scan_address,
            scan_direction: Direction::Write,
            ..u
        },
        Err(e) => I2CUtilsModel { scan_error: Some(e), ..u },
    }
}

/// The bytes the client has not read yet.
pub open spec fn unread(s: I2cModel) -> Seq<u8> {
    s.data.subrange(s.bytes_processed as int, s.bytes_to_process as int)
}

/// The client driver once everything is read: the buffer starts over.
pub open spec fn drained(s: I2cModel) -> I2cModel {
    I2cModel { bytes_processed: 0, bytes_to_process: 0, ..s }
}

/// The message buffer after `bytes` arrive at position `pos`: they are kept while positions
/// below 19 are free (the last byte of the buffer stays free), the rest is dropped. Gives the
/// buffer and the new position.
pub open spec fn buffered(buf: Seq<u8>, pos: nat, bytes: Seq<u8>) -> (Seq<u8>, nat) {
    let room = (MAX_MESSAGE_SIZE - 1 - pos) as nat;
    let kept = if bytes.len() < room {
        bytes.len()
    } else {
        room
    };
    (
        Seq::new(
            buf.len(),
            |i: int|
                if pos <= i < pos + kept {
                    bytes[i - pos]
                } else {
                    buf[i]
                },
        ),
        pos + kept,
    )
}

/// The mode after the bytes of a message chunk arrive (see `buffered`), and whether it asks
/// for a redraw: a chunk ending the buffer with a newline, or filling it, completes the
/// message, which then shows (without the newline) from its start.
pub open spec fn chunk_received(u: I2CUtilsModel, bytes: Seq<u8>) -> (I2CUtilsModel, bool) {
    let (buf, pos) = buffered(u.msg_buf, u.msg_buf_pos as nat, bytes);
    if pos > 0 && (buf[pos - 1] == 10 || pos >= MAX_MESSAGE_SIZE - 1) {
        let (buf2, len) = if buf[pos - 1] == 10 {
            (buf.update(pos - 1, 0), (pos - 1) as nat)
        } else {
            (buf, pos)
        };
        (
            I2CUtilsModel {
                msg_buf: buf2,
                msg_data: buf2.subrange(0, len as int) + Seq::new(
                    (MAX_MESSAGE_SIZE - len) as nat,
                    |i: int| 0u8,
                ),
                msg_len: len as u8,
                msg_buf_pos: 0,
                msg_pos: 0,
                ..u
            },
            true,
        )
    } else {
        (I2CUtilsModel { msg_buf: buf, msg_buf_pos: pos as u8, ..u }, false)
    }
}

/// The scroll timing: once the counter passes `100 - msg_speed` it restarts and the message
/// moves one position, wrapping around after the message and its padding.
pub open spec fn scroll_tick(u: I2CUtilsModel) -> (I2CUtilsModel, bool) {
    if u.counter > 100 - u.msg_speed {
        let full = (u.msg_len + 2 * NUM_CHARS) as u8;
        (I2CUtilsModel { counter: 0, msg_pos: ((u.msg_pos + 1) % (full as int)) as u8, ..u }, true)
    } else {
        (u, false)
    }
}

/// The mode and the client driver after the message screen reads what the client received,
/// and whether it asks for a redraw. With unread bytes, the first is a command: 0 sets whether
/// the message shows (from the next byte, when there is one), 1 takes the rest as a chunk of
/// the message (see `chunk_received`), 2 sets the scroll speed (from the next byte, when there
/// is one, at most 100); anything left is dropped and the driver's buffer starts over. Then
/// the scroll moves on (see `scroll_tick`).
pub open spec fn message_step(u: I2CUtilsModel, s: I2cModel) -> (I2CUtilsModel, I2cModel, bool) {
    let (u1, s1, up1) = message_read(u, s);
    let (u3, up2) = scroll_tick(u1);
    (u3, s1, up1 || up2)
}

/// The mode and the client driver after the unread bytes of the client are taken as a command
/// (see `message_step`), and whether it asks for a redraw.
pub open spec fn message_read(u: I2CUtilsModel, s: I2cModel) -> (I2CUtilsModel, I2cModel, bool) {
    let bytes = unread(s);
    let (u1, s1, up1) = if bytes.len() > 0 {
        let command = bytes[0];
        let rest = bytes.drop_first();
        let (u2, up) = if command == 0 {
            (
                I2CUtilsModel {
                    msg_display: if rest.len() > 0 {
                        rest[0] != 0
                    } else {
                        u.msg_display
                    },
                    ..u
                },
                true,
            )
        } else if command == 1 {
            chunk_received(u, rest)
        } else if command == 2 {
            let sp = if rest.len() > 0 {
                rest[0]
            } else {
                u.msg_speed
            };
            (
                I2CUtilsModel {
                    msg_speed: if sp > 100 {
                        100
                    } else {
                        sp
                    },
                    ..u
                },
                false,
            )
        } else {
            (u, false)
        };
        (u2, drained(s), up)
    } else {
        (u, s, false)
    };
    (u1, s1, up1)
}

/// The mode after an event other than holding left, the actions it queues, the utility byte it
/// saves if any, and whether it asks for a redraw: holding right ends the bus, switches the
/// utility (to be set up again) and saves it; pressing right clears a stopped scan.
pub open spec fn i2c_event(u: I2CUtilsModel, event: Option<InputEvent>) -> (
    I2CUtilsModel,
    Seq<Action>,
    Option<u8>,
    bool,
) {
    match event {
        Some(InputEvent::RightHeld) => {
            let next = other_util(u.cur_util);
            (
                I2CUtilsModel { cur_util: next, util_init: false, ..u },
                seq![Action::I2cEnd],
                Some(util_code(next)),
                true,
            )
        },
        Some(InputEvent::RightPressed) => (
            I2CUtilsModel { scan_found_address: 0, scan_error: None, ..u },
            seq![],
            None,
            false,
        ),
        _ => (u, seq![], None, false),
    }
}

/// The mode after its utility is set up, if that is still to do, and the actions it queues:
/// the scan starts over as host, the message from its start as client.
pub open spec fn util_setup(u: I2CUtilsModel) -> (I2CUtilsModel, Seq<Action>) {
    if u.util_init {
        (u, seq![])
    } else {
        match u.cur_util {
            I2CUtil::ScannerHost => (
                I2CUtilsModel {
                    scan_address: (I2C_MIN_ADDRESS - 1) as u8,
                    scan_direction: Direction::Write,
                    scan_error: None,
                    scan_found_address: 0,
                    util_init: true,
                    ..u
                },
                seq![Action::I2cHostSetup(I2C_BUS_SPEED)],
            ),
            I2CUtil::MessageClient => (
                I2CUtilsModel { msg_pos: 0, msg_buf_pos: 0, util_init: true, ..u },
                seq![Action::I2cClientSetup(I2C_CLIENT_ADDRESS)],
            ),
        }
    }
}

/// What the mode shows for its utility.
pub open spec fn util_screen(u: I2CUtilsModel) -> Seq<u8> {
    match u.cur_util {
        I2CUtil::ScannerHost => scan_text(u),
        I2CUtil::MessageClient => scroll_text(u),
    }
}

/// Keeping one more byte of a chunk is keeping the bytes before it and then that byte.
proof fn lemma_buffered_push(buf: Seq<u8>, pos: nat, bytes: Seq<u8>, b: u8)
    requires
        pos < MAX_MESSAGE_SIZE,
        buf.len() == MAX_MESSAGE_SIZE,
    ensures
        ({
            let (buf1, pos1) = buffered(buf, pos, bytes);
            let (buf2, pos2) = buffered(buf, pos, bytes.push(b));
            &&& pos1 < MAX_MESSAGE_SIZE
            &&& buf1.len() == MAX_MESSAGE_SIZE
            &&& if pos1 < MAX_MESSAGE_SIZE - 1 {
                pos2 == pos1 + 1 && buf2 == buf1.update(pos1 as int, b)
            } else {
                pos2 == pos1 && buf2 == buf1
            }
        }),
{
    let (buf1, pos1) = buffered(buf, pos, bytes);
    let (buf2, pos2) = buffered(buf, pos, bytes.push(b));
    if pos1 < MAX_MESSAGE_SIZE - 1 {
        assert(buf2 =~= buf1.update(pos1 as int, b));
    } else {
        assert(buf2 =~= buf1);
    }
}

impl I2CUtils {
    /// The mode on the utility saved last (a saved 0 is the scanner), nothing set up, the
    /// scan before its first address and the waiting message showing.
    pub fn new_with_settings(settings: &SavedSettings) -> (r: Self)
        ensures
            i2c_utils_inv(r.model()),
            r.cur_util == if settings.cells()[setting_offset(Setting::I2CPage) as int] == 0 {
                I2CUtil::ScannerHost
            } else {
                I2CUtil::MessageClient
            },
            !r.util_init,
            r.scan_found_address == 0,
            r.scan_address == I2C_MIN_ADDRESS - 1,
            r.scan_direction == Direction::Write,
            r.scan_error is None,
            r.msg_data@ == waiting_message(),
            r.msg_display,
            r.msg_len == MAX_MESSAGE_SIZE,
            r.msg_pos == 0,
            r.msg_buf_pos == 0,
            r.msg_speed == 90,
            r.counter == 0,
    {
        let saved_util = match settings.read_setting_byte(Setting::I2CPage) {
            0 => I2CUtil::ScannerHost,
            _ => I2CUtil::MessageClient,
        };
        // "Waiting for message..." as far as it fits
        let msg_data: [u8; MAX_MESSAGE_SIZE] = [
            87u8, 97, 105, 116, 105, 110, 103, 32, 102, 111, 114, 32, 109, 101, 115, 115, 97,
            103, 101, 46,
        ];
        assert(msg_data@ =~= waiting_message());
        I2CUtils {
            cur_util: saved_util,
            util_init: false,
            // the scan steps to its first address before trying it
            scan_found_address: 0,
            scan_address: I2C_MIN_ADDRESS - 1,
            scan_direction: Direction::Write,
            scan_error: None,
            msg_buf: [0u8; MAX_MESSAGE_SIZE],
            msg_data,
            msg_display: true,
            msg_len: MAX_MESSAGE_SIZE as u8,
            msg_pos: 0,
            msg_buf_pos: 0,
            msg_speed: 90,
            counter: 0,
        }
    }

    /// Starts the scan from its first address, with the bus set up as host.
    pub fn scan_init(&mut self, actions: &mut Vec<Action>)
        ensures
            final(self).model() == (I2CUtilsModel {
                scan_address: (I2C_MIN_ADDRESS - 1) as u8,
                scan_direction: Direction::Write,
                scan_error: None,
                scan_found_address: 0,
                ..old(self).model()
            }),
            final(actions)@ == old(actions)@.push(Action::I2cHostSetup(I2C_BUS_SPEED)),
    {
        self.scan_address = I2C_MIN_ADDRESS - 1;
        self.scan_direction = Direction::Write;
        self.scan_error = None;
        self.scan_found_address = 0;
        actions.push(Action::I2cHostSetup(I2C_BUS_SPEED));
    }

    /// Moves the scan to its next target (see `scan_next`) and gives it, unless the scan
    /// stopped.
    pub fn scan_update(&mut self) -> (r: Option<(u8, Direction)>)
        requires
            old(self).scan_address <= I2C_MAX_ADDRESS,
        ensures
            match scan_next(old(self).model()) {
                Some(u) => final(self).model() == u && r == Some((u.scan_address, u.scan_direction)),
                None => final(self).model() == old(self).model() && r is None,
            },
            final(self).scan_address <= I2C_MAX_ADDRESS,
    {
        // a found address or an error pauses the scan
        if self.scan_found_address != 0 || self.scan_error.is_some() {
            return None;
        }
        // the next target
        if self.scan_direction == Direction::Read {
            self.scan_direction = Direction::Write;
        } else {
            self.scan_direction = Direction::Read;
            self.scan_address = self.scan_address + 1;
            if self.scan_address > I2C_MAX_ADDRESS {
                self.scan_address = I2C_MIN_ADDRESS;
            }
        }
        Some((self.scan_address, self.scan_direction))
    }

    /// Records the answer of the ping of the scan's target (see `scan_recorded`).
    pub fn scan_record(&mut self, result: Result<bool, Error>)
        ensures
            final(self).model() == scan_recorded(old(self).model(), result),
    {
        match result {
            // no answer: the scan goes on
            Ok(false) => {},
            // an answer stops the scan
            Ok(true) => {
                self.scan_found_address = self.scan_address;
                // the read of an address that answered is not tried
                self.scan_direction = Direction::Write;
            },
            // an error stops the scan
            Err(e) => {
                self.scan_error = Some(e);
            },
        }
    }

    /// Writes what the scanner shows (see `scan_text`).
    pub fn format_scan_result(&self, buf: &mut [u8; NUM_CHARS])
        ensures
            final(buf)@ == scan_text(self.model()),
    {
        if let Some(error) = self.scan_error {
            if self.counter < 0x7F {
                // "ERR:0x"
                let label: [u8; 6] = [69u8, 82, 82, 58, 48, 120];
                let digits = addr_to_ascii(self.scan_address);
                assert(label@ =~= seq![69u8, 82, 82, 58, 48, 120]);
                format_buf(buf, &label, &digits);
            } else {
                // "ERR:"
                let label: [u8; 4] = [69u8, 82, 82, 58];
                assert(label@ =~= seq![69u8, 82, 82, 58]);
                format_uint(buf, &label, error.code(), 0, None);
            }
        } else if self.scan_found_address > 0 {
            // "ACK:0x"
            let label: [u8; 6] = [65u8, 67, 75, 58, 48, 120];
            let digits = addr_to_ascii(self.scan_found_address);
            assert(label@ =~= seq![65u8, 67, 75, 58, 48, 120]);
            format_buf(buf, &label, &digits);
        } else {
            // "NAK:0x"
            let label: [u8; 6] = [78u8, 65, 75, 58, 48, 120];
            let digits = addr_to_ascii(self.scan_address);
            assert(label@ =~= seq![78u8, 65, 75, 58, 48, 120]);
            format_buf(buf, &label, &digits);
        }
    }

    /// Starts the message from its start, with the bus set up as client.
    pub fn scroll_msg_init(&mut self, actions: &mut Vec<Action>)
        ensures
            final(self).model() == (I2CUtilsModel { msg_pos: 0, msg_buf_pos: 0, ..old(self).model() }),
            final(actions)@ == old(actions)@.push(Action::I2cClientSetup(I2C_CLIENT_ADDRESS)),
    {
        self.msg_pos = 0;
        self.msg_buf_pos = 0;
        actions.push(Action::I2cClientSetup(I2C_CLIENT_ADDRESS));
    }

    /// Writes what the message screen shows (see `scroll_text`).
    pub fn format_scroll_msg(&self, buf: &mut [u8; NUM_CHARS])
        requires
            self.msg_len <= MAX_MESSAGE_SIZE,
        ensures
            final(buf)@ == scroll_text(self.model()),
    {
        // spaces before and after the message for the scrolling
        let mut display_index: usize = 0;
        while display_index < NUM_CHARS
            invariant
                display_index <= NUM_CHARS,
                self.msg_len <= MAX_MESSAGE_SIZE,
                buf@.len() == NUM_CHARS,
                forall|i: int|
                    0 <= i < display_index ==> #[trigger] buf@[i] == scroll_text(self.model())[i],
            decreases NUM_CHARS - display_index,
        {
            let offset_index = self.msg_pos as usize + display_index;
            buf[display_index] = if self.msg_display && offset_index >= NUM_CHARS {
                let actual_index = offset_index - NUM_CHARS;
                if actual_index < self.msg_len as usize {
                    self.msg_data[actual_index]
                } else {
                    32u8
                }
            } else {
                32u8
            };
            display_index = display_index + 1;
        }
        assert(buf@ =~= scroll_text(self.model()));
    }
}

/// The two digits of an address (see `addr_text`).
pub fn addr_to_ascii(addr: u8) -> (r: [u8; 2])
    ensures
        r@ == addr_text(addr),
{
    let hi = addr >> 4u8;
    let lo = addr & 0x0Fu8;
    assert(hi == addr / 16 && lo == addr % 16) by (bit_vector)
        requires
            hi == addr >> 4u8,
            lo == addr & 0x0Fu8,
    ;
    let r = [u4_to_hex(hi), u4_to_hex(lo)];
    assert(r@ =~= addr_text(addr));
    r
}

/// The digit of a nibble (see `hex_digit`).
pub fn u4_to_hex(b: u8) -> (r: u8)
    ensures
        r == hex_digit(b),
{
    if b < 0x0A {
        48 + b
    } else if b < 0x10 {
        65 + b
    } else {
        63
    }
}

/// Reads everything the client received and drops it: the driver's buffer starts over.
fn flush(i2c: &mut I2cState)
    requires
        client_readable(old(i2c).model()),
    ensures
        final(i2c).model() == drained(old(i2c).model()),
{
    loop
        invariant_except_break
            i2c.model() == (I2cModel {
                bytes_processed: i2c.bytes_processed,
                ..old(i2c).model()
            }),
            old(i2c).bytes_processed <= i2c.bytes_processed <= i2c.bytes_to_process,
        invariant
            client_readable(i2c.model()),
        ensures
            i2c.model() == drained(old(i2c).model()),
        decreases 2 * (i2c.bytes_to_process - i2c.bytes_processed) + if i2c.bytes_processed > 0 {
            1int
        } else {
            0int
        },
    {
        match i2c.raw_read_client() {
            Some(_) => {},
            None => {
                break ;
            },
        }
    }
}

impl I2CUtils {
    /// Takes the unread bytes of the client as a chunk of the message (see `chunk_received`);
    /// the driver's buffer starts over. Gives whether the message is complete.
    fn read_chunk(&mut self, i2c: &mut I2cState) -> (r: bool)
        requires
            i2c_utils_inv(old(self).model()),
            client_readable(old(i2c).model()),
        ensures
            i2c_utils_inv(final(self).model()),
            (final(self).model(), r) == chunk_received(old(self).model(), unread(old(i2c).model())),
            final(i2c).model() == drained(old(i2c).model()),
    {
        let ghost u0 = self.model();
        let ghost s0 = i2c.model();
        let ghost bytes = unread(s0);
        let ghost p0 = i2c.bytes_processed as int;
        assert(u0.msg_buf.len() == MAX_MESSAGE_SIZE);
        assert(bytes.take(0) =~= Seq::<u8>::empty());
        assert(buffered(u0.msg_buf, u0.msg_buf_pos as nat, bytes.take(0)).0 =~= u0.msg_buf);
        // the chunk into the buffer; bytes past its room are dropped
        loop
            invariant_except_break
                i2c.model() == (I2cModel { bytes_processed: i2c.bytes_processed, ..s0 }),
                p0 <= i2c.bytes_processed <= i2c.bytes_to_process,
                (self.msg_buf@, self.msg_buf_pos as nat) == buffered(
                    u0.msg_buf,
                    u0.msg_buf_pos as nat,
                    bytes.take(i2c.bytes_processed - p0),
                ),
            invariant
                i2c_utils_inv(self.model()),
                client_readable(i2c.model()),
                s0 == old(i2c).model(),
                bytes == unread(s0),
                p0 == s0.bytes_processed,
                s0.data.len() == I2C_BUFFER_SIZE,
                u0.msg_buf.len() == MAX_MESSAGE_SIZE,
                self.model() == (I2CUtilsModel {
                    msg_buf: self.msg_buf@,
                    msg_buf_pos: self.msg_buf_pos,
                    ..u0
                }),
            ensures
                i2c.model() == drained(s0),
                self.model() == (I2CUtilsModel {
                    msg_buf: self.msg_buf@,
                    msg_buf_pos: self.msg_buf_pos,
                    ..u0
                }),
                (self.msg_buf@, self.msg_buf_pos as nat) == buffered(
                    u0.msg_buf,
                    u0.msg_buf_pos as nat,
                    bytes,
                ),
                i2c_utils_inv(self.model()),
            decreases i2c.bytes_to_process - i2c.bytes_processed,
        {
            let ghost k = i2c.bytes_processed - p0;
            match i2c.raw_read_client() {
                Some(data) => {
                    proof {
                        assert(bytes.take(k + 1) =~= bytes.take(k).push(data));
                        lemma_buffered_push(
                            u0.msg_buf,
                            u0.msg_buf_pos as nat,
                            bytes.take(k),
                            data,
                        );
                    }
                    if self.msg_buf_pos < MAX_MESSAGE_SIZE as u8 - 1 {
                        self.msg_buf[self.msg_buf_pos as usize] = data;
                        self.msg_buf_pos = self.msg_buf_pos + 1;
                    }
                },
                None => {
                    proof {
                        assert(bytes.take(k) =~= bytes);
                    }
                    break ;
                },
            }
        }
        // a newline at the end, or a full buffer, completes the message
        let pos = self.msg_buf_pos;
        if pos > 0 && (self.msg_buf[pos as usize - 1] == 10 || pos >= MAX_MESSAGE_SIZE as u8 - 1) {
            let mut len = pos;
            if self.msg_buf[pos as usize - 1] == 10 {
                len = pos - 1;
                self.msg_buf[len as usize] = 0;
            }
            // the message: the bytes received, then zeros
            let buf = self.msg_buf;
            let mut data = [0u8; MAX_MESSAGE_SIZE];
            let mut i: usize = 0;
            while i < MAX_MESSAGE_SIZE
                invariant
                    i <= MAX_MESSAGE_SIZE,
                    len < MAX_MESSAGE_SIZE,
                    forall|t: int|
                        0 <= t < i ==> #[trigger] data@[t] == if t < len {
                            buf@[t]
                        } else {
                            0u8
                        },
                decreases MAX_MESSAGE_SIZE - i,
            {
                data[i] = if i < len as usize {
                    buf[i]
                } else {
                    0
                };
                i = i + 1;
            }
            assert(data@ =~= buf@.subrange(0, len as int) + Seq::new(
                (MAX_MESSAGE_SIZE - len) as nat,
                |t: int| 0u8,
            ));
            self.msg_data = data;
            self.msg_len = len;
            self.msg_buf_pos = 0;
            self.msg_pos = 0;
            true
        } else {
            false
        }
    }

    /// The message screen's cycle: reads what the client received and moves the scroll (see
    /// `message_step`); gives whether to redraw.
    pub fn scroll_msg_update(&mut self, i2c: &mut I2cState) -> (r: bool)
        requires
            i2c_utils_inv(old(self).model()),
            client_readable(old(i2c).model()),
        ensures
            i2c_utils_inv(final(self).model()),
            client_readable(final(i2c).model()),
            (final(self).model(), final(i2c).model(), r) == message_step(
                old(self).model(),
                old(i2c).model(),
            ),
    {
        let read = self.read_message(i2c);
        let moved = self.scroll();
        read || moved
    }

    /// Takes the unread bytes of the client as a command (see `message_read`); gives whether
    /// to redraw.
    fn read_message(&mut self, i2c: &mut I2cState) -> (r: bool)
        requires
            i2c_utils_inv(old(self).model()),
            client_readable(old(i2c).model()),
        ensures
            i2c_utils_inv(final(self).model()),
            client_readable(final(i2c).model()),
            (final(self).model(), final(i2c).model(), r) == message_read(
                old(self).model(),
                old(i2c).model(),
            ),
    {
        let mut update = false;
        let ghost s0 = i2c.model();
        if i2c.raw_available_client() > 0 {
            let command = i2c.raw_read_client().unwrap();
            proof {
                assert(unread(i2c.model()) =~= unread(s0).drop_first());
            }
            if command == 0x00 {
                // show or hide the message
                let value = match i2c.raw_read_client() {
                    Some(v) => v,
                    None => if self.msg_display {
                        1u8
                    } else {
                        0u8
                    },
                };
                self.msg_display = value != 0;
                update = true;
            } else if command == 0x01 {
                // a chunk of the message
                update = self.read_chunk(i2c);
            } else if command == 0x02 {
                // the scroll speed
                self.msg_speed = match i2c.raw_read_client() {
                    Some(v) => v,
                    None => self.msg_speed,
                };
                if self.msg_speed > 100 {
                    self.msg_speed = 100;
                }
            }
            // drop what is left
            flush(i2c);
        }
        update
    }

    /// Moves the scroll when its time has come (see `scroll_tick`); gives whether it moved.
    fn scroll(&mut self) -> (r: bool)
        requires
            i2c_utils_inv(old(self).model()),
        ensures
            i2c_utils_inv(final(self).model()),
            (final(self).model(), r) == scroll_tick(old(self).model()),
    {
        if self.counter > 100 - self.msg_speed {
            self.counter = 0;
            let msg_full_len = self.msg_len + (NUM_CHARS * 2) as u8;
            self.msg_pos = (self.msg_pos + 1) % msg_full_len;
            true
        } else {
            false
        }
    }
}

impl I2CUtils {
    /// Handles an event other than holding left (see `i2c_event`); gives whether it asks for a
    /// redraw.
    fn on_event(
        &mut self,
        event: Option<InputEvent>,
        actions: &mut Vec<Action>,
        settings: &mut SavedSettings,
    ) -> (r: bool)
        requires
            i2c_utils_inv(old(self).model()),
        ensures
            i2c_utils_inv(final(self).model()),
            ({
                let (u, a, saved, up) = i2c_event(old(self).model(), event);
                &&& final(self).model() == u
                &&& final(actions)@ == old(actions)@ + a
                &&& r == up
                &&& match saved {
                    Some(v) => {
                        &&& final(settings).cells() == old(settings).cells().update(
                            setting_offset(Setting::I2CPage) as int,
                            v,
                        )
                        &&& final(settings).pending() == old(settings).pending().push(
                            (Setting::I2CPage.offset_spec(), v),
                        )
                    },
                    None => *final(settings) == *old(settings),
                }
            }),
    {
        let ghost a0 = actions@;
        match event {
            Some(InputEvent::RightHeld) => {
                actions.push(Action::I2cEnd);
                self.cur_util = match self.cur_util {
                    I2CUtil::ScannerHost => I2CUtil::MessageClient,
                    I2CUtil::MessageClient => I2CUtil::ScannerHost,
                };
                let code: u8 = match self.cur_util {
                    I2CUtil::ScannerHost => 0,
                    I2CUtil::MessageClient => 1,
                };
                settings.save_setting_byte(Setting::I2CPage, code);
                self.util_init = false;
                assert(actions@ =~= a0 + seq![Action::I2cEnd]);
                true
            },
            Some(InputEvent::RightPressed) => {
                // clear a stopped scan
                self.scan_found_address = 0;
                self.scan_error = None;
                assert(actions@ =~= a0 + seq![]);
                false
            },
            _ => {
                assert(actions@ =~= a0 + seq![]);
                false
            },
        }
    }

    /// Sets the utility up if that is still to do (see `util_setup`).
    fn setup(&mut self, actions: &mut Vec<Action>)
        requires
            i2c_utils_inv(old(self).model()),
        ensures
            i2c_utils_inv(final(self).model()),
            final(self).model() == util_setup(old(self).model()).0,
            final(actions)@ == old(actions)@ + util_setup(old(self).model()).1,
    {
        let ghost a0 = actions@;
        if !self.util_init {
            match self.cur_util {
                I2CUtil::ScannerHost => self.scan_init(actions),
                I2CUtil::MessageClient => self.scroll_msg_init(actions),
            }
            self.util_init = true;
        }
        assert(actions@ =~= a0 + util_setup(old(self).model()).1);
    }

    /// Writes what the mode shows (see `util_screen`).
    fn format_screen(&self, buf: &mut [u8; NUM_CHARS])
        requires
            i2c_utils_inv(self.model()),
        ensures
            final(buf)@ == util_screen(self.model()),
    {
        match self.cur_util {
            I2CUtil::ScannerHost => self.format_scan_result(buf),
            I2CUtil::MessageClient => self.format_scroll_msg(buf),
        }
    }

    /// One cycle of the mode up to the scanner's ping. Holding left goes back to the menu.
    /// Otherwise after the event (see `i2c_event`) and the set-up (see `util_setup`), a redraw
    /// shows the screen; without one, the message screen takes what the client received (see
    /// `message_step`) and the scanner moves to its next target (see `scan_next`), which it
    /// gives to be pinged: the answer then goes to `finish_scan`, which draws.
    pub fn update(
        &mut self,
        event: Option<InputEvent>,
        context: &mut Context,
        peripherals: &mut Peripherals,
    ) -> (r: Option<(u8, Direction)>)
        requires
            i2c_utils_inv(old(self).model()),
            client_readable(old(peripherals).i2c.model()),
        ensures
            i2c_utils_inv(final(self).model()),
            client_readable(final(peripherals).i2c.model()),
            final(peripherals).rng == old(peripherals).rng,
            final(peripherals).adc == old(peripherals).adc,
            final(context).tone_enabled == old(context).tone_enabled,
            ({
                let u0 = I2CUtilsModel {
                    counter: old(self).counter.wrapping_add(1),
                    ..old(self).model()
                };
                if event == Some(InputEvent::LeftHeld) {
                    &&& final(context).mode_index == 0
                    &&& final(context).menu_counter == old(context).menu_counter.wrapping_add(1)
                    &&& final(context).settings == old(context).settings
                    &&& final(self).model() == u0
                    &&& final(peripherals).actions@ == old(peripherals).actions@
                    &&& final(peripherals).i2c == old(peripherals).i2c
                    &&& r is None
                } else {
                    let (u1, a1, saved, up1) = i2c_event(u0, event);
                    let (u2, a2) = util_setup(u1);
                    let before = old(peripherals).actions@ + a1 + a2;
                    &&& final(context).mode_index == old(context).mode_index
                    &&& final(context).menu_counter == old(context).menu_counter
                    &&& !final(context).redraw
                    &&& match saved {
                        Some(v) => {
                            &&& final(context).settings.cells() == old(
                                context,
                            ).settings.cells().update(setting_offset(Setting::I2CPage) as int, v)
                            &&& final(context).settings.pending() == old(
                                context,
                            ).settings.pending().push((Setting::I2CPage.offset_spec(), v))
                        },
                        None => final(context).settings == old(context).settings,
                    }
                    &&& if old(context).redraw || up1 {
                        &&& final(self).model() == u2
                        &&& final(peripherals).i2c == old(peripherals).i2c
                        &&& r is None
                        &&& appended_text(before, final(peripherals).actions@, util_screen(u2))
                    } else if u2.cur_util == I2CUtil::ScannerHost {
                        &&& final(peripherals).i2c == old(peripherals).i2c
                        &&& final(peripherals).actions@ == before
                        &&& match scan_next(u2) {
                            Some(u3) => final(self).model() == u3 && r == Some(
                                (u3.scan_address, u3.scan_direction),
                            ),
                            None => final(self).model() == u2 && r is None,
                        }
                    } else {
                        let (u3, s3, up) = message_step(u2, old(peripherals).i2c.model());
                        &&& final(self).model() == u3
                        &&& final(peripherals).i2c.model() == s3
                        &&& r is None
                        &&& if up {
                            appended_text(before, final(peripherals).actions@, scroll_text(u3))
                        } else {
                            final(peripherals).actions@ == before
                        }
                    }
                }
            }),
    {
        let mut update = context.need_update();
        self.counter = self.counter.wrapping_add(1);

        if event == Some(InputEvent::LeftHeld) {
            context.to_menu();
            return None;
        }
        let ghost a0 = peripherals.actions@;
        if self.on_event(event, &mut peripherals.actions, &mut context.settings) {
            update = true;
        }
        let ghost a1 = peripherals.actions@;
        // set the utility up if needed
        self.setup(&mut peripherals.actions);
        let ghost a2 = peripherals.actions@;
        assert(a2 =~= a0 + (a1.subrange(a0.len() as int, a1.len() as int)) + (a2.subrange(
            a1.len() as int,
            a2.len() as int,
        )));

        // the utility's own work when nothing else is to be drawn
        if !update {
            match self.cur_util {
                I2CUtil::ScannerHost => {
                    return self.scan_update();
                },
                I2CUtil::MessageClient => {
                    update = self.scroll_msg_update(&mut peripherals.i2c);
                },
            }
        }
        if update {
            let mut buf = [0u8; NUM_CHARS];
            self.format_screen(&mut buf);
            show_text(&mut peripherals.actions, buf);
        }
        None
    }

    /// Records the answer of the scanner's ping (see `scan_recorded`) and shows the scan.
    pub fn finish_scan(&mut self, result: Result<bool, Error>, peripherals: &mut Peripherals)
        requires
            i2c_utils_inv(old(self).model()),
        ensures
            i2c_utils_inv(final(self).model()),
            final(self).model() == scan_recorded(old(self).model(), result),
            final(peripherals).rng == old(peripherals).rng,
            final(peripherals).adc == old(peripherals).adc,
            final(peripherals).i2c == old(peripherals).i2c,
            appended_text(
                old(peripherals).actions@,
                final(peripherals).actions@,
                scan_text(final(self).model()),
            ),
    {
        self.scan_record(result);
        let mut buf = [0u8; NUM_CHARS];
        self.format_scan_result(&mut buf);
        show_text(&mut peripherals.actions, buf);
    }
}

/// The utility is kept: the byte a utility is saved as stands for that utility when the mode
/// starts.
pub proof fn lemma_util_persists(u: I2CUtil)
    ensures
        (if util_code(u) == 0 {
            I2CUtil::ScannerHost
        } else {
            I2CUtil::MessageClient
        }) == u,
{
}

} // verus!
