use crate::modes::PeakCurrent;
use crate::saved_settings::EEPROM_SIZE;
use vstd::prelude::*;

verus! {

/// What an erased or unreadable EEPROM byte reads as.
pub const EEPROM_UNINITIALIZED: u8 = 0xFF;

/// Where the EEPROM starts in the address space.
pub const EEPROM_ADDR_START: u16 = 0x1400;

/// Display brightness when none is saved.
pub const DEFAULT_BRIGHTNESS: u8 = 12;

/// Where each setting lives in the EEPROM.
#[derive(Clone, Copy, Debug, PartialEq, Eq, Structural)]
pub enum EepromOffset {
    Version,
    Brightness,
    Current,
    /// 8 bytes wide
    Name,
}

/// The EEPROM offset of a setting.
pub open spec fn offset_of(o: EepromOffset) -> u16 {
    match o {
        EepromOffset::Version => 0x00,
        EepromOffset::Brightness => 0x01,
        EepromOffset::Current => 0x02,
        EepromOffset::Name => 0x03,
    }
}

impl EepromOffset {
    /// The EEPROM offset of the setting.
    pub fn value(self) -> (r: u16)
        ensures
            r == offset_of(self),
    {
        match self {
            EepromOffset::Version => 0x00,
            EepromOffset::Brightness => 0x01,
            EepromOffset::Current => 0x02,
            EepromOffset::Name => 0x03,
        }
    }
}

/// The device's EEPROM: its contents, whether it was set up (reads before that give
/// `EEPROM_UNINITIALIZED`), and the writes not yet carried out on the device, oldest first, as
/// (offset, byte).
pub struct Eeprom {
    cells: Vec<u8>,
    writes: Vec<(u16, u8)>,
    ready: bool,
}

impl Eeprom {
    /// The EEPROM contents.
    pub closed spec fn cells(&self) -> Seq<u8> {
        self.cells@
    }

    /// The writes not yet carried out on the device.
    pub closed spec fn pending(&self) -> Seq<(u16, u8)> {
        self.writes@
    }

    /// Whether the EEPROM was set up.
    pub closed spec fn ready(&self) -> bool {
        self.ready
    }

    /// What reading the byte at `offset` gives.
    pub open spec fn read_at(&self, offset: int) -> u8 {
        if self.ready() {
            self.cells()[offset]
        } else {
            EEPROM_UNINITIALIZED
        }
    }

    #[verifier::type_invariant]
    closed spec fn holds_whole_eeprom(self) -> bool {
        self.cells@.len() == EEPROM_SIZE
    }

    /// The EEPROM holding `image`, set up; `None` when `image` is not the size of the EEPROM.
    pub fn init(image: Vec<u8>) -> (r: Option<Self>)
        ensures
            image@.len() == EEPROM_SIZE <==> r is Some,
            r matches Some(e) ==> {
                &&& e.cells() == image@
                &&& e.ready()
                &&& e.pending() == Seq::<(u16, u8)>::empty()
            },
    {
        if image.len() == EEPROM_SIZE {
            Some(Eeprom { cells: image, writes: Vec::new(), ready: true })
        } else {
            None
        }
    }

    /// An EEPROM not set up: it reads as erased, and writes are queued.
    pub fn instance() -> (r: Self)
        ensures
            !r.ready(),
            r.cells() == Seq::new(EEPROM_SIZE as nat, |i: int| EEPROM_UNINITIALIZED),
            r.pending() == Seq::<(u16, u8)>::empty(),
    {
        let r = Eeprom {
            cells: vec![EEPROM_UNINITIALIZED; EEPROM_SIZE],
            writes: Vec::new(),
            ready: false,
        };
        assert(r.cells() =~= Seq::new(EEPROM_SIZE as nat, |i: int| EEPROM_UNINITIALIZED));
        r
    }

    /// Writes `value` at the offset of a setting.
    pub fn save_setting(&mut self, offset: EepromOffset, value: u8)
        ensures
            final(self).cells() == old(self).cells().update(offset_of(offset) as int, value),
            final(self).pending() == old(self).pending().push((offset_of(offset), value)),
            final(self).ready() == old(self).ready(),
    {
        self.raw_write_byte(offset.value(), value);
    }

    /// Writes `values` from the offset of a setting on.
    pub fn save_setting_slice(&mut self, start_offset: EepromOffset, values: &[u8])
        requires
            offset_of(start_offset) + values@.len() <= EEPROM_SIZE,
        ensures
            final(self).cells() == old(self).cells().subrange(0, offset_of(start_offset) as int)
                + values@ + old(self).cells().subrange(
                offset_of(start_offset) + values@.len(),
                EEPROM_SIZE as int,
            ),
            final(self).pending() == old(self).pending() + Seq::new(
                values@.len(),
                |i: int| ((offset_of(start_offset) + i) as u16, values@[i]),
            ),
            final(self).ready() == old(self).ready(),
    {
        proof {
            use_type_invariant(&*self);
        }
        let base = start_offset.value();
        let len = values.len();
        let ghost c0 = self.cells();
        let ghost w0 = self.pending();
        let mut i: usize = 0;
        assert(c0 =~= c0.subrange(0, base as int) + values@.subrange(0, 0) + c0.subrange(
            base as int,
            EEPROM_SIZE as int,
        ));
        assert(w0 =~= w0 + Seq::new(0, |k: int| ((base + k) as u16, values@[k])));
        while i < len
            invariant
                i <= len,
                len == values@.len(),
                base == offset_of(start_offset),
                base + len <= EEPROM_SIZE,
                self.cells().len() == EEPROM_SIZE,
                self.ready() == old(self).ready(),
                c0 == old(self).cells(),
                c0.len() == EEPROM_SIZE,
                w0 == old(self).pending(),
                self.cells() == c0.subrange(0, base as int) + values@.subrange(0, i as int)
                    + c0.subrange(base + i, EEPROM_SIZE as int),
                self.pending() == w0 + Seq::new(
                    i as nat,
                    |k: int| ((base + k) as u16, values@[k]),
                ),
            decreases len - i,
        {
            proof {
                use_type_invariant(&*self);
            }
            let ghost prev = self.cells();
            self.raw_write_byte(base + i as u16, values[i]);
            i = i + 1;
            let ghost expected = c0.subrange(0, base as int) + values@.subrange(0, i as int)
                + c0.subrange(base + i, EEPROM_SIZE as int);
            assert forall|k: int| 0 <= k < EEPROM_SIZE implies #[trigger] self.cells()[k]
                == expected[k] by {
                if k < base {
                    assert(prev[k] == c0[k]);
                } else if k < base + i - 1 {
                    assert(prev[k] == values@[k - base]);
                } else if k == base + i - 1 {
                } else {
                    assert(prev[k] == c0[k]);
                }
            }
            assert(self.cells() =~= expected);
            assert(self.pending() =~= w0 + Seq::new(
                i as nat,
                |k: int| ((base + k) as u16, values@[k]),
            ));
        }
        assert(values@.subrange(0, len as int) =~= values@);
    }

    /// The byte of a setting.
    pub fn load_setting(&self, offset: EepromOffset) -> (r: u8)
        ensures
            r == self.read_at(offset_of(offset) as int),
    {
        self.raw_read_byte(offset.value())
    }

    /// Fills `buffer` with the bytes from the offset of a setting on.
    pub fn load_setting_slice(&self, start_offset: EepromOffset, buffer: &mut [u8])
        requires
            offset_of(start_offset) + old(buffer)@.len() <= EEPROM_SIZE,
        ensures
            final(buffer)@.len() == old(buffer)@.len(),
            forall|i: int|
                0 <= i < old(buffer)@.len() ==> #[trigger] final(buffer)@[i] == self.read_at(
                    offset_of(start_offset) + i,
                ),
    {
        let base = start_offset.value();
        let len = buffer.len();
        let mut i: usize = 0;
        while i < len
            invariant
                i <= len,
                len == buffer@.len(),
                base == offset_of(start_offset),
                base + len <= EEPROM_SIZE,
                forall|t: int| 0 <= t < i ==> #[trigger] buffer@[t] == self.read_at(base + t),
            decreases len - i,
        {
            buffer[i] = self.raw_read_byte(base + i as u16);
            i = i + 1;
        }
    }

    /// The byte at `offset` (see `read_at`).
    fn raw_read_byte(&self, offset: u16) -> (r: u8)
        requires
            (offset as nat) < EEPROM_SIZE,
        ensures
            r == self.read_at(offset as int),
    {
        proof {
            use_type_invariant(self);
        }
        if self.ready {
            self.cells[offset as usize]
        } else {
            EEPROM_UNINITIALIZED
        }
    }

    /// Writes `data` at `offset`.
    fn raw_write_byte(&mut self, offset: u16, data: u8)
        requires
            (offset as nat) < EEPROM_SIZE,
        ensures
            final(self).cells() == old(self).cells().update(offset as int, data),
            final(self).pending() == old(self).pending().push((offset, data)),
            final(self).ready() == old(self).ready(),
    {
        proof {
            use_type_invariant(&*self);
        }
        let mut taken = Eeprom { cells: vec![0u8; EEPROM_SIZE], writes: Vec::new(), ready: false };
        std::mem::swap(self, &mut taken);
        let Eeprom { cells: mut c, writes: mut w, ready } = taken;
        c.set(offset as usize, data);
        w.push((offset, data));
        *self = Eeprom { cells: c, writes: w, ready };
    }
}

/// The settings kept in the EEPROM: version, display brightness and peak current, and name.
pub struct EepromSettings {
    pub version: u8,
    pub brightness: u8,
    pub current: PeakCurrent,
    pub name: [u8; 8],
}

/// The peak current a saved control-word byte stands for; others stand for the highest.
pub open spec fn saved_current(b: u8) -> PeakCurrent {
    if b == 0b0010_0000 {
        PeakCurrent::Max4_0Ma
    } else if b == 0b0001_0000 {
        PeakCurrent::Max6_4Ma
    } else if b == 0b0000_0000 {
        PeakCurrent::Max9_3Ma
    } else {
        PeakCurrent::Max12_8Ma
    }
}

/// The name shown when none is saved: " NONIK0 ".
pub open spec fn default_name() -> Seq<u8> {
    seq![32u8, 78, 79, 78, 73, 75, 48, 32]
}

impl EepromSettings {
    /// The settings read from `eeprom`: a brightness above 15 falls back to the default, a
    /// current byte that names no current to the highest, and a name with an erased byte to
    /// the default name.
    pub fn read(eeprom: &Eeprom) -> (r: Self)
        ensures
            r.version == eeprom.read_at(offset_of(EepromOffset::Version) as int),
            r.brightness == ({
                let b = eeprom.read_at(offset_of(EepromOffset::Brightness) as int);
                if b <= 15 {
                    b
                } else {
                    DEFAULT_BRIGHTNESS
                }
            }),
            r.current == saved_current(eeprom.read_at(offset_of(EepromOffset::Current) as int)),
            r.name@ == ({
                let saved = Seq::new(8, |i: int| eeprom.read_at(offset_of(EepromOffset::Name) + i));
                if saved.contains(EEPROM_UNINITIALIZED) {
                    default_name()
                } else {
                    saved
                }
            }),
    {
        let version = eeprom.load_setting(EepromOffset::Version);
        // the version byte is read but not checked
        let saved_brightness = eeprom.load_setting(EepromOffset::Brightness);
        let brightness = if saved_brightness <= 15 {
            saved_brightness
        } else {
            DEFAULT_BRIGHTNESS
        };
        let current = match eeprom.load_setting(EepromOffset::Current) {
            0b0010_0000 => PeakCurrent::Max4_0Ma,
            0b0001_0000 => PeakCurrent::Max6_4Ma,
            0b0000_0000 => PeakCurrent::Max9_3Ma,
            _ => PeakCurrent::Max12_8Ma,
        };
        let mut name = [0u8; 8];
        eeprom.load_setting_slice(EepromOffset::Name, &mut name);
        let ghost saved = Seq::new(8, |i: int| eeprom.read_at(offset_of(EepromOffset::Name) + i));
        assert(name@ =~= saved);
        let mut erased = false;
        let mut i: usize = 0;
        while i < 8
            invariant
                i <= 8,
                name@ == saved,
                erased == exists|k: int| 0 <= k < i && name@[k] == EEPROM_UNINITIALIZED,
            decreases 8 - i,
        {
            if name[i] == EEPROM_UNINITIALIZED {
                erased = true;
            }
            i = i + 1;
        }
        let name = if erased {
            [32u8, 78, 79, 78, 73, 75, 48, 32]
        } else {
            name
        };
        assert(erased ==> name@ =~= default_name());
        proof {
            if saved.contains(EEPROM_UNINITIALIZED) {
                let k = choose|k: int| 0 <= k < saved.len() && saved[k] == EEPROM_UNINITIALIZED;
                assert(0 <= k < 8);
            }
        }
        EepromSettings { version, brightness, current, name }
    }
}

/// Once the EEPROM is set up, reading a byte after writing it gives the byte written, and the
/// other bytes as they were.
pub proof fn lemma_eeprom_read_after_write(
    before: Eeprom,
    after: Eeprom,
    offset: int,
    value: u8,
    other: int,
)
    requires
        before.cells().len() == EEPROM_SIZE,
        0 <= offset < EEPROM_SIZE,
        0 <= other < EEPROM_SIZE,
        before.ready(),
        after.ready() == before.ready(),
        after.cells() == before.cells().update(offset, value),
    ensures
        after.read_at(offset) == value,
        other != offset ==> after.read_at(other) == before.read_at(other),
{
}

} // verus!
