use vstd::prelude::*;

verus! {

/// Bytes of the device's EEPROM.
pub const EEPROM_SIZE: usize = 256;

/// Where each saved setting lives in the EEPROM.
#[derive(Clone, Copy, Debug, PartialEq, Eq, Structural)]
pub enum Setting {
    Version,
    Brightness,
    Current,
    /// 8 bytes wide
    Name,
    LastMode,
    RandomPage,
    SensorPage,
    Tone,
    I2CPage,
}

/// The EEPROM offset of a setting.
pub open spec fn setting_offset(s: Setting) -> nat {
    match s {
        Setting::Version => 0x00,
        Setting::Brightness => 0x01,
        Setting::Current => 0x02,
        Setting::Name => 0x03,
        Setting::LastMode => 0x0B,
        Setting::RandomPage => 0x0C,
        Setting::SensorPage => 0x0D,
        Setting::Tone => 0x0E,
        Setting::I2CPage => 0x0F,
    }
}

impl Setting {
    /// The EEPROM offset of the setting.
    pub fn offset(self) -> (r: u16)
        ensures
            r as nat == setting_offset(self),
    {
        match self {
            Setting::Version => 0x00,
            Setting::Brightness => 0x01,
            Setting::Current => 0x02,
            Setting::Name => 0x03,
            Setting::LastMode => 0x0B,
            Setting::RandomPage => 0x0C,
            Setting::SensorPage => 0x0D,
            Setting::Tone => 0x0E,
            Setting::I2CPage => 0x0F,
        }
    }
}

/// The settings kept in the EEPROM. Reads come from an image of the EEPROM that the owner
/// loads at start; every write updates the image and is queued, in order, for the owner to
/// carry out on the device.
pub struct SavedSettings {
    cells: Vec<u8>,
    writes: Vec<(u16, u8)>,
}

impl SavedSettings {
    /// The current EEPROM contents.
    pub closed spec fn cells(&self) -> Seq<u8> {
        self.cells@
    }

    /// The writes not yet carried out on the device, oldest first: (offset, byte).
    pub closed spec fn pending(&self) -> Seq<(u16, u8)> {
        self.writes@
    }

    #[verifier::type_invariant]
    closed spec fn image_is_whole(self) -> bool {
        self.cells@.len() == EEPROM_SIZE
    }

    /// The image always holds the whole EEPROM.
    pub fn size(&self) -> (r: usize)
        ensures
            r == self.cells().len(),
            r == EEPROM_SIZE,
    {
        proof {
            use_type_invariant(self);
        }
        self.cells.len()
    }

    /// Settings over the EEPROM contents `image`; `None` when `image` is not the size of the
    /// EEPROM.
    pub fn new(image: Vec<u8>) -> (r: Option<Self>)
        ensures
            image@.len() == EEPROM_SIZE <==> r is Some,
            r matches Some(s) ==> s.cells() == image@ && s.pending() == Seq::<(u16, u8)>::empty(),
    {
        if image.len() == EEPROM_SIZE {
            Some(SavedSettings { cells: image, writes: Vec::new() })
        } else {
            None
        }
    }

    /// The byte at `offset`.
    pub fn raw_read_byte(&self, offset: u16) -> (r: u8)
        requires
            (offset as nat) < EEPROM_SIZE,
        ensures
            r == self.cells()[offset as int],
    {
        proof {
            use_type_invariant(self);
        }
        self.cells[offset as usize]
    }

    /// Writes `value` at `offset`.
    fn raw_write_byte(&mut self, offset: u16, value: u8)
        requires
            (offset as nat) < EEPROM_SIZE,
        ensures
            final(self).cells() == old(self).cells().update(offset as int, value),
            final(self).pending() == old(self).pending().push((offset, value)),
    {
        proof {
            use_type_invariant(&*self);
        }
        let mut empty = SavedSettings { cells: vec![0u8; EEPROM_SIZE], writes: Vec::new() };
        std::mem::swap(self, &mut empty);
        let SavedSettings { cells: mut c, writes: mut w } = empty;
        c.set(offset as usize, value);
        w.push((offset, value));
        *self = SavedSettings { cells: c, writes: w };
    }

    /// Fills `buf` with the bytes of `setting` and those after it.
    pub fn read_setting(&self, setting: Setting, buf: &mut [u8])
        requires
            setting_offset(setting) + old(buf)@.len() <= EEPROM_SIZE,
        ensures
            final(buf)@ == self.cells().subrange(
                setting_offset(setting) as int,
                (setting_offset(setting) + old(buf)@.len()) as int,
            ),
    {
        proof {
            use_type_invariant(self);
        }
        let base = setting.offset();
        let len = buf.len();
        let mut i: usize = 0;
        while i < len
            invariant
                i <= len,
                len == buf@.len(),
                base as nat == setting_offset(setting),
                base + len <= EEPROM_SIZE,
                self.cells().len() == EEPROM_SIZE,
                forall|t: int| 0 <= t < i ==> buf@[t] == self.cells()[base + t],
            decreases len - i,
        {
            buf[i] = self.raw_read_byte(base + i as u16);
            i = i + 1;
        }
        assert(buf@ =~= self.cells().subrange(base as int, base + len));
    }

    /// The byte of `setting`.
    pub fn read_setting_byte(&self, setting: Setting) -> (r: u8)
        ensures
            r == self.cells()[setting_offset(setting) as int],
    {
        self.raw_read_byte(setting.offset())
    }

    /// The byte of `setting` read as a flag: any byte but 0 is `true`.
    pub fn read_setting_bool(&self, setting: Setting) -> (r: bool)
        ensures
            r == (self.cells()[setting_offset(setting) as int] != 0),
    {
        self.read_setting_byte(setting) != 0
    }

    /// Writes `buf` from the offset of `setting` on, byte by byte.
    pub fn save_setting(&mut self, setting: Setting, buf: &[u8])
        requires
            setting_offset(setting) + buf@.len() <= EEPROM_SIZE,
        ensures
            final(self).cells() == old(self).cells().subrange(0, setting_offset(setting) as int)
                + buf@ + old(self).cells().subrange(
                (setting_offset(setting) + buf@.len()) as int,
                EEPROM_SIZE as int,
            ),
            final(self).pending() == old(self).pending() + Seq::new(
                buf@.len(),
                |i: int| ((setting_offset(setting) + i) as u16, buf@[i]),
            ),
    {
        proof {
            use_type_invariant(&*self);
        }
        let base = setting.offset();
        let len = buf.len();
        let ghost c0 = self.cells();
        let ghost p0 = self.pending();
        let mut i: usize = 0;
        while i < len
            invariant
                i <= len,
                len == buf@.len(),
                base as nat == setting_offset(setting),
                base + len <= EEPROM_SIZE,
                c0.len() == EEPROM_SIZE,
                self.cells().len() == EEPROM_SIZE,
                forall|t: int|
                    0 <= t < EEPROM_SIZE ==> #[trigger] self.cells()[t] == if base <= t < base
                        + i {
                        buf@[t - base]
                    } else {
                        c0[t]
                    },
                self.pending() == p0 + Seq::new(i as nat, |k: int| ((base + k) as u16, buf@[k])),
            decreases len - i,
        {
            proof {
                use_type_invariant(&*self);
            }
            self.raw_write_byte(base + i as u16, buf[i]);
            i = i + 1;
            assert(self.pending() =~= p0 + Seq::new(
                i as nat,
                |k: int| ((base + k) as u16, buf@[k]),
            ));
        }
        assert(self.cells() =~= c0.subrange(0, base as int) + buf@ + c0.subrange(
            base + len,
            EEPROM_SIZE as int,
        ));
    }

    /// Writes `value` at the offset of `setting`.
    pub fn save_setting_byte(&mut self, setting: Setting, value: u8)
        ensures
            final(self).cells() == old(self).cells().update(setting_offset(setting) as int, value),
            final(self).pending() == old(self).pending().push((setting.offset_spec(), value)),
    {
        let offset = setting.offset();
        self.raw_write_byte(offset, value);
    }

    /// Writes a flag at the offset of `setting`: 1 for `true`, 0 for `false`.
    pub fn save_setting_bool(&mut self, setting: Setting, value: bool)
        ensures
            final(self).cells() == old(self).cells().update(
                setting_offset(setting) as int,
                if value { 1u8 } else { 0u8 },
            ),
            final(self).pending() == old(self).pending().push(
                (setting.offset_spec(), if value { 1u8 } else { 0u8 }),
            ),
    {
        self.save_setting_byte(setting, if value { 1u8 } else { 0u8 });
    }

    /// Hands over the queued writes, oldest first, and forgets them.
    pub fn take_writes(&mut self) -> (r: Vec<(u16, u8)>)
        ensures
            r@ == old(self).pending(),
            final(self).pending() == Seq::<(u16, u8)>::empty(),
            final(self).cells() == old(self).cells(),
    {
        proof {
            use_type_invariant(&*self);
        }
        let mut empty = SavedSettings { cells: vec![0u8; EEPROM_SIZE], writes: Vec::new() };
        std::mem::swap(self, &mut empty);
        let SavedSettings { cells, writes } = empty;
        *self = SavedSettings { cells, writes: Vec::new() };
        writes
    }
}

impl Setting {
    /// The EEPROM offset of the setting as a 16-bit value.
    pub open spec fn offset_spec(self) -> u16 {
        setting_offset(self) as u16
    }
}

/// How many bytes a setting takes: 8 for the name, 1 for the others.
pub open spec fn setting_width(s: Setting) -> nat {
    if s == Setting::Name {
        8
    } else {
        1
    }
}

/// The settings lie inside the EEPROM and no two of them share a byte, so saving one leaves
/// the others as they were.
pub proof fn lemma_settings_disjoint(a: Setting, b: Setting)
    ensures
        setting_offset(a) + setting_width(a) <= EEPROM_SIZE,
        a != b ==> setting_offset(a) + setting_width(a) <= setting_offset(b) || setting_offset(b)
            + setting_width(b) <= setting_offset(a),
{
}

/// Reading a setting's byte after writing `value` to setting `a` gives `value` for `a` and the
/// earlier byte for any other setting.
pub proof fn lemma_saved_byte_reads_back(cells: Seq<u8>, a: Setting, b: Setting, value: u8)
    requires
        cells.len() == EEPROM_SIZE,
    ensures
        cells.update(setting_offset(a) as int, value)[setting_offset(b) as int] == if a == b {
            value
        } else {
            cells[setting_offset(b) as int]
        },
{
    lemma_settings_disjoint(a, b);
}

} // verus!
