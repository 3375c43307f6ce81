use nonik0::buttons::{ButtonEvent, Buttons as SimpleButtons};
use nonik0::eeprom::{Eeprom, EepromOffset, EepromSettings, EEPROM_UNINITIALIZED};
use nonik0::input::{Buttons, InputEvent};
use nonik0::modes::PeakCurrent;
use nonik0::random::Rng;
use nonik0::saved_settings::{SavedSettings, Setting, EEPROM_SIZE};
use nonik0::utils::{format_buf, format_uint};

#[test]
fn format_uint_with_prefix_decimals_and_suffix() {
    let mut buf = [0u8; 8];
    format_uint(&mut buf, b"Ve:", 1234, 2, Some(b"V"));
    // the field keeps the rightmost digits that fit
    assert_eq!(&buf, b"Ve:2.34V");
}

#[test]
fn format_uint_with_the_widest_decimals_when_the_digits_fill_the_field() {
    let mut buf = [0u8; 8];
    format_uint(&mut buf, b"Ve:", 12345, u16::MAX, None);
    assert_eq!(&buf, b"Ve:12345");
}

#[test]
fn format_uint_overwrites_the_whole_buffer() {
    let mut b1 = [0u8; 8];
    let mut b2 = [0xAAu8; 8];
    format_uint(&mut b1, b"T:", 42, 1, Some(b"C"));
    format_uint(&mut b2, b"T:", 42, 1, Some(b"C"));
    assert_eq!(b1, b2);
    assert_eq!(&b1, b"T:  4.2C");
}

#[test]
fn format_uint_pads_with_spaces() {
    let mut buf = [0u8; 6];
    format_uint(&mut buf, b"T:", 5, 0, None);
    assert_eq!(&buf, b"T:   5");
}

#[test]
fn format_uint_pads_fraction_with_zeros() {
    let mut buf = [0u8; 8];
    format_uint(&mut buf, b"", 7, 2, None);
    assert_eq!(&buf, b"    0.07");
}

#[test]
fn format_uint_zero_value() {
    let mut buf = [0u8; 4];
    format_uint(&mut buf, b"", 0, 0, None);
    assert_eq!(&buf, b"   0");
}

#[test]
fn format_buf_aligns_both_sides() {
    let mut buf = [0u8; 8];
    format_buf(&mut buf, b"ab", b"cd");
    assert_eq!(&buf, b"ab    cd");
    let mut full = [0u8; 4];
    format_buf(&mut full, b"ab", b"cd");
    assert_eq!(&full, b"abcd");
}

#[test]
fn rng_hands_out_state_bytes_little_endian() {
    let mut rng = Rng::seed(12345);
    assert_eq!(rng.get_u8(), 57);
    assert_eq!(rng.get_u8(), 48);
    assert_eq!(rng.get_u8(), 0);
    assert_eq!(rng.get_u8(), 0);
    // the next state is 12345 * 1664525 + 1013904223
    assert_eq!(rng.get_u32(), 87628868);
}

#[test]
fn rng_from_zero_follows_the_lcg() {
    let mut rng = Rng::seed(0);
    assert_eq!(rng.get_u32(), 0);
    assert_eq!(rng.get_u32(), 1013904223);
    assert_eq!(rng.get_u32(), 1196435762);
    let mut buf = [0u8; 5];
    rng.fill_bytes(&mut buf);
    assert_eq!(buf, [233, 246, 204, 209, 52]);
}

#[test]
fn rng_bytes_and_words_agree() {
    // law: drawing four bytes is drawing one word
    let mut a = Rng::seed(777);
    let mut b = Rng::seed(777);
    a.get_u8();
    b.get_u8();
    let w = a.get_u32();
    let bytes = [b.get_u8(), b.get_u8(), b.get_u8(), b.get_u8()];
    assert_eq!(w, u32::from_le_bytes(bytes));
    assert_eq!(a.get_u8(), b.get_u8());
}

fn run(buttons: &mut Buttons, left: bool, right: bool, n: usize) -> Vec<Option<InputEvent>> {
    let mut out = Vec::new();
    for _ in 0..n {
        out.push(buttons.update(left, right));
    }
    out
}

#[test]
fn short_press_is_pressed_then_released() {
    let mut b = Buttons::new();
    assert_eq!(b.update(true, false), Some(InputEvent::LeftPressed));
    assert_eq!(b.update(false, false), Some(InputEvent::LeftReleased));
    assert_eq!(b.update(false, false), None);
    let mut b = Buttons::new();
    assert_eq!(b.update(false, true), Some(InputEvent::RightPressed));
    assert_eq!(b.update(false, false), Some(InputEvent::RightReleased));
}

#[test]
fn long_press_is_held_on_the_twentieth_cycle() {
    let mut b = Buttons::new();
    let events = run(&mut b, true, false, 25);
    assert_eq!(events[0], Some(InputEvent::LeftPressed));
    for (i, e) in events.iter().enumerate() {
        if i == 19 {
            assert_eq!(*e, Some(InputEvent::LeftHeld));
        } else if i != 0 {
            assert_eq!(*e, None);
        }
    }
    assert_eq!(b.update(false, false), Some(InputEvent::LeftHeldReleased));
}

#[test]
fn release_is_followed_by_debounce() {
    let mut b = Buttons::new();
    b.update(false, true);
    assert_eq!(b.update(false, false), Some(InputEvent::RightReleased));
    // three cycles ignore the button
    assert_eq!(run(&mut b, false, true, 3), vec![None, None, None]);
    assert_eq!(b.update(false, true), Some(InputEvent::RightPressed));
}

#[test]
fn both_buttons_pressed() {
    let mut b = Buttons::new();
    assert_eq!(b.update(true, true), Some(InputEvent::BothPressed));
}

#[test]
fn simple_buttons_press_hold_release() {
    let mut b = SimpleButtons::new();
    assert_eq!(b.update(true, false), Some(ButtonEvent::LeftPressed));
    for _ in 0..9 {
        assert_eq!(b.update(true, false), None);
    }
    assert_eq!(b.update(true, false), Some(ButtonEvent::LeftHeld));
    assert_eq!(b.update(true, false), Some(ButtonEvent::LeftHeld));
    assert_eq!(b.update(false, false), Some(ButtonEvent::LeftReleased));
    assert_eq!(b.update(false, false), None);
}

#[test]
fn simple_buttons_right_and_both() {
    let mut b = SimpleButtons::new();
    assert_eq!(b.update(false, true), Some(ButtonEvent::RightPressed));
    assert_eq!(b.update(false, false), Some(ButtonEvent::RightReleased));
    assert_eq!(b.update(true, true), Some(ButtonEvent::BothPressed));
    assert_eq!(b.left_held_cycles, 1);
    assert_eq!(b.right_held_cycles, 1);
}

fn blank_image() -> Vec<u8> {
    vec![0u8; EEPROM_SIZE]
}

#[test]
fn saved_settings_need_a_whole_image() {
    assert!(SavedSettings::new(vec![0u8; 10]).is_none());
    assert!(SavedSettings::new(blank_image()).is_some());
}

#[test]
fn saved_setting_reads_back() {
    // law: a read gives back what a write wrote
    let mut s = SavedSettings::new(blank_image()).unwrap();
    s.save_setting_byte(Setting::Brightness, 9);
    s.save_setting(Setting::Name, b"ABCDEFGH");
    s.save_setting_bool(Setting::Tone, true);
    assert_eq!(s.read_setting_byte(Setting::Brightness), 9);
    assert!(s.read_setting_bool(Setting::Tone));
    let mut name = [0u8; 8];
    s.read_setting(Setting::Name, &mut name);
    assert_eq!(&name, b"ABCDEFGH");
    // writes to one setting leave the others
    assert_eq!(s.read_setting_byte(Setting::LastMode), 0);
    let writes = s.take_writes();
    assert_eq!(writes.len(), 10);
    assert_eq!(writes[0], (1, 9));
    assert_eq!(writes[1], (3, b'A'));
    assert_eq!(writes[9], (0x0E, 1));
    assert!(s.take_writes().is_empty());
}

#[test]
fn setting_offsets() {
    assert_eq!(Setting::Version.offset(), 0x00);
    assert_eq!(Setting::Name.offset(), 0x03);
    assert_eq!(Setting::LastMode.offset(), 0x0B);
    assert_eq!(Setting::SensorPage.offset(), 0x0D);
}

#[test]
fn eeprom_reads_back_writes() {
    let mut e = Eeprom::init(vec![0u8; EEPROM_SIZE]).unwrap();
    e.save_setting(EepromOffset::Current, 0x10);
    assert_eq!(e.load_setting(EepromOffset::Current), 0x10);
    e.save_setting_slice(EepromOffset::Name, b"nonik0!!");
    let mut buf = [0u8; 8];
    e.load_setting_slice(EepromOffset::Name, &mut buf);
    assert_eq!(&buf, b"nonik0!!");
    assert!(Eeprom::init(vec![0u8; 3]).is_none());
}

#[test]
fn unset_eeprom_gives_defaults() {
    let e = Eeprom::instance();
    assert_eq!(e.load_setting(EepromOffset::Brightness), EEPROM_UNINITIALIZED);
    let s = EepromSettings::read(&e);
    assert_eq!(s.version, 0xFF);
    assert_eq!(s.brightness, 12);
    assert_eq!(s.current, PeakCurrent::Max12_8Ma);
    assert_eq!(&s.name, b" NONIK0 ");
}

#[test]
fn eeprom_settings_from_saved_values() {
    let mut e = Eeprom::init(vec![0u8; EEPROM_SIZE]).unwrap();
    e.save_setting(EepromOffset::Version, 2);
    e.save_setting(EepromOffset::Brightness, 7);
    e.save_setting(EepromOffset::Current, 0b0010_0000);
    e.save_setting_slice(EepromOffset::Name, b"Badge 01");
    let s = EepromSettings::read(&e);
    assert_eq!(s.version, 2);
    assert_eq!(s.brightness, 7);
    assert_eq!(s.current, PeakCurrent::Max4_0Ma);
    assert_eq!(&s.name, b"Badge 01");
    e.save_setting(EepromOffset::Brightness, 16);
    assert_eq!(EepromSettings::read(&e).brightness, 12);
}
