use nonik0::adc::{Adc, AdcChannel, AdcSample};
use nonik0::hcms29xx::{DataOutMode, Hcms29xxError};
use nonik0::i2c::I2cState;
use nonik0::input::InputEvent;
use nonik0::modes::i2c_utils::{addr_to_ascii, u4_to_hex};
use nonik0::modes::sensors::adc::Resolution;
use nonik0::modes::sensors::meter::Sensors as Meter;
use nonik0::modes::sensors::settings::SensorReading;
use nonik0::modes::sensors::{SensorPage, Sensors};
use nonik0::modes::traffic::{Traffic, Truck};
use nonik0::modes::tunnel::{Tunnel, TunnelState};
use nonik0::modes::utils::{Util, Utils};
use nonik0::modes::vibes::Vibes;
use nonik0::modes::{Action, Context, Peripherals};
use nonik0::panic_screen::{next_cursor, panic_message, push_decimal, ByteArrayWriter};
use nonik0::random::Rng;
use nonik0::saved_settings::{SavedSettings, EEPROM_SIZE};
use nonik0::vibes::{CloudState as RingCloud, Vibes as RingVibes};

fn context() -> Context {
    Context::new(SavedSettings::new(vec![0u8; EEPROM_SIZE]).unwrap())
}

fn peripherals(seed: u32) -> Peripherals {
    Peripherals {
        adc: Adc::new(0, 0),
        adc_sample: AdcSample { busy: false, result: 0 },
        rng: Rng::seed(seed),
        i2c: I2cState::new(0x42),
        actions: Vec::new(),
    }
}

fn frames(p: &Peripherals) -> Vec<Vec<u8>> {
    p.actions
        .iter()
        .filter_map(|a| match a {
            Action::PrintCols(c) => Some(c.to_vec()),
            _ => None,
        })
        .collect()
}

#[test]
fn tunnel_generator_from_zero_bytes() {
    let mut st = TunnelState::new();
    let mut rng = Rng::seed(0);
    for _ in 0..4 {
        assert_eq!(st.next_tunnel_col(&mut rng), None);
    }
    // bytes 0, 0, 0, 0: shift up refused at the edge, harder tunnel, rows 1..6 open
    assert_eq!(st.next_tunnel_col(&mut rng), Some(0b100_0001));
    assert_eq!(st.pos, 1);
    assert_eq!(st.cur_width, 5);
    assert_eq!(st.min_width, 4);
    assert_eq!(st.max_width, 6);
}

#[test]
fn tunnel_scrolls_and_shows_runner() {
    let mut ctx = context();
    ctx.to_mode(6);
    let mut p = peripherals(0);
    let mut t = Tunnel::new();
    assert_eq!(t.get_runner_col(), 8);
    for _ in 0..5 {
        t.update(None, &mut ctx, &mut p);
    }
    let f = frames(&p);
    assert_eq!(f.len(), 2);
    for frame in &f {
        assert_eq!(frame.len(), 40);
        assert_eq!(frame[2], 8);
        assert_eq!(frame[3], 8);
    }
    // the new column scrolled in at the right end
    assert_eq!(f[1][39], 0b100_0001);
    assert_eq!(f[0][39], 0);
    t.update(Some(InputEvent::LeftReleased), &mut ctx, &mut p);
    assert_eq!(t.runner_pos, 4);
    assert_eq!(t.get_runner_col(), 4);
    t.update(Some(InputEvent::LeftHeld), &mut ctx, &mut p);
    assert!(ctx.is_menu());
}

#[test]
fn traffic_first_frame() {
    let mut ctx = context();
    ctx.to_mode(5);
    let mut p = peripherals(3);
    let mut t = Traffic::new();
    assert_eq!(t.driver_col(), 8);
    assert!(ctx.redraw);
    t.update(None, &mut ctx, &mut p);
    // the entry redraw is taken
    assert!(!ctx.redraw);
    let f = frames(&p);
    assert_eq!(f.len(), 1);
    let frame = &f[0];
    assert_eq!(frame.len(), 40);
    for (i, &c) in frame.iter().enumerate() {
        match i {
            0 | 1 => assert_eq!(c, 8),
            24 => assert_eq!(c, 0b0101_0101),
            _ => assert_eq!(c, 0),
        }
    }
    assert!(t.is_driver_pos(1));
    assert!(t.is_driver_pos(0));
    assert!(!t.is_driver_pos(2));
}

#[test]
fn traffic_lanes_and_trucks() {
    let mut ctx = context();
    let mut p = peripherals(3);
    let mut t = Traffic::new();
    t.update(Some(InputEvent::RightReleased), &mut ctx, &mut p);
    assert_eq!(t.driver_lane, 2);
    assert_eq!(t.driver_col(), 16);
    let truck = Truck { lane: 2, length: 3, width: 2 };
    assert_eq!(Traffic::truck_col(&truck), 0b0001_1000);
    let bottom = Truck { lane: 6, length: 3, width: 2 };
    assert_eq!(Traffic::truck_col(&bottom), 0b0000_0001);
    let mut tr = Truck { lane: 0, length: 0, width: 0 };
    let mut rng = Rng::seed(0);
    tr.rand(0, 6, &mut rng);
    // length 2 + 0 % 7, so one lane wide, in lane 0 + 0 % 7
    assert_eq!((tr.lane, tr.length, tr.width), (0, 2, 1));
    t.update(Some(InputEvent::LeftHeld), &mut ctx, &mut p);
    assert!(ctx.is_menu());
}

#[test]
fn traffic_driver_advances_every_period() {
    let mut t = Traffic::new();
    for _ in 0..34 {
        assert_eq!(t.next_driver_pos(), None);
    }
    assert_eq!(t.next_driver_pos(), Some(2));
}

#[test]
fn vibes_sky_then_mountain() {
    let mut ctx = context();
    let mut p = peripherals(0);
    let mut v = Vibes::new();
    v.update(None, &mut ctx, &mut p);
    v.update(None, &mut ctx, &mut p);
    v.update(None, &mut ctx, &mut p);
    let f = frames(&p);
    assert_eq!(f.len(), 2);
    assert!(f[0].iter().all(|&c| c == 0x7F));
    // the first mountain column, one row high, scrolled in at the right end
    assert_eq!(f[1][39], 0x3F);
    assert_eq!(f[1][38], 0x7F);
    v.update(Some(InputEvent::LeftHeld), &mut ctx, &mut p);
    assert!(ctx.is_menu());
}

#[test]
fn ring_vibes_from_zero_seed() {
    let mut rng = Rng::seed(0);
    let mut v = RingVibes::new(&mut rng);
    assert_eq!(v.cloud_state.gap, 1);
    assert_eq!(v.cloud_state.loc, 1);
    assert_eq!(v.cloud_state.height, 2);
    assert_eq!(v.cloud_state.length, 6);
    // bytes 95, 243, 110: peak 4 + 95 % 3, length 6 + 1 + (243 % 7 + 110 % 7) / 2
    assert_eq!(v.earth_state.height, 6);
    assert_eq!(v.earth_state.length, 12);
    let mut p = peripherals(0);
    for _ in 0..4 {
        v.update(&mut p);
    }
    assert!(p.actions.is_empty());
    v.update(&mut p);
    assert_eq!(v.earth_cols[0], 63);
    assert_eq!(v.earth_index, 1);
    for _ in 0..5 {
        v.update(&mut p);
    }
    assert_eq!(v.earth_cols[1], 31);
    assert_eq!(v.cloud_index, 1);
    let f = frames(&p);
    assert_eq!(f.len(), 2);
    let last = &f[1];
    assert_eq!(last.len(), 40);
    assert_eq!(last[39], 63);
    assert_eq!(last[0], 0x7F);
}

#[test]
fn ring_cloud_column_darkens_its_rows() {
    let mut rng = Rng::seed(0);
    let mut c = RingCloud { loc: 1, gap: 0, cur_length: 0, height: 2, length: 3 };
    let col = c.next_col(&mut rng);
    assert_eq!(col, 0x79);
    assert_eq!(c.cur_length, 1);
    let mut gap = RingCloud { loc: 1, gap: 2, cur_length: 0, height: 2, length: 3 };
    assert_eq!(gap.next_col(&mut rng), 0x7F);
    assert_eq!(gap.gap, 1);
}

#[test]
fn sensors_pages_and_readings() {
    let s = SavedSettings::new(vec![0u8; EEPROM_SIZE]).unwrap();
    let mut sensors = Sensors::new_with_settings(&s);
    assert_eq!(sensors.cur_page, SensorPage::AdcChannel(AdcChannel::Temp));
    let mut page = sensors.cur_page;
    let mut seen = Vec::new();
    for _ in 0..6 {
        page = page.next();
        seen.push(page);
    }
    assert_eq!(seen[0], SensorPage::AdcChannel(AdcChannel::Vsda));
    assert_eq!(seen[1], SensorPage::AdcChannel(AdcChannel::Vscl));
    assert_eq!(seen[4], SensorPage::ContinuityTest);
    assert_eq!(seen[5], SensorPage::AdcChannel(AdcChannel::Temp));
    assert_eq!(u8::from(SensorPage::ContinuityTest), 5);
    assert_eq!(SensorPage::from(2u8), SensorPage::AdcChannel(AdcChannel::Vscl));
    assert_eq!(SensorPage::from(4u8), SensorPage::AdcChannel(AdcChannel::Vref));
    sensors.cur_page = SensorPage::AdcChannel(AdcChannel::Vsda);
    let mut buf = [0u8; 8];
    sensors.format_reading(330, &mut buf);
    assert_eq!(&buf, b"Vb:3.30V");
    sensors.cur_page = SensorPage::ContinuityTest;
    sensors.format_reading(1, &mut buf);
    assert_eq!(&buf, b"Cx: blue");
    sensors.format_reading(2, &mut buf);
    assert_eq!(&buf, b"Cx:yellw");
    sensors.format_reading(3, &mut buf);
    assert_eq!(&buf, b"Cx:bl+yl");
    sensors.format_reading(0, &mut buf);
    assert_eq!(&buf, b"Cx: none");
}

#[test]
fn continuity_test_reads_both_lines() {
    let s = SavedSettings::new(vec![0u8; EEPROM_SIZE]).unwrap();
    let mut ctx = context();
    ctx.to_mode(3);
    let mut p = peripherals(0);
    let mut sensors = Sensors::new_with_settings(&s);
    sensors.cur_page = SensorPage::ContinuityTest;
    let text = |p: &Peripherals| match p.actions.last() {
        Some(Action::PrintAscii(b)) => *b,
        other => panic!("unexpected {:?}", other),
    };
    sensors.update(None, &mut ctx, &mut p);
    assert_eq!(&text(&p), b"Cx: none");
    assert!(p.actions.iter().any(|a| matches!(a, Action::I2cPinsPullup)));
    // SCL reads low: the blue bit
    sensors.update(None, &mut ctx, &mut p);
    assert_eq!(&text(&p), b"Cx: blue");
    assert!(p.actions.iter().any(|a| matches!(a, Action::AdcSelect(AdcChannel::Vscl))));
    assert!(matches!(p.actions[p.actions.len() - 2], Action::Tone(3000, 0)));
    // SDA reads low too: both
    sensors.update(None, &mut ctx, &mut p);
    assert_eq!(&text(&p), b"Cx:bl+yl");
    assert!(matches!(p.actions[p.actions.len() - 2], Action::Tone(5000, 0)));
    // SCL reads high: only yellow is left
    p.adc_sample = AdcSample { busy: false, result: 500 };
    sensors.update(None, &mut ctx, &mut p);
    assert_eq!(&text(&p), b"Cx:yellw");
    assert!(matches!(p.actions[p.actions.len() - 2], Action::Tone(4000, 0)));
}

#[test]
fn utils_texts() {
    let mut u = Utils::new_with_adc(0, 0);
    assert_eq!(u.cur_util, Util::ReadTemp);
    assert_eq!(&u.format_util(), b"Tf:....\x98");
    u.cur_util = Util::SetResolution;
    assert_eq!(&u.format_util(), b"Res: 10b");
    u.cur_util = Util::SetPrescaler;
    assert_eq!(&u.format_util(), b"Div: 256");
    u.cur_util = Util::SetSampleLength;
    assert_eq!(&u.format_util(), b"Slen:  0");
}

#[test]
fn hex_digits_of_addresses() {
    assert_eq!(u4_to_hex(0), b'0');
    assert_eq!(u4_to_hex(9), b'9');
    // letters start ten past 'A'
    assert_eq!(u4_to_hex(0x0A), b'K');
    assert_eq!(u4_to_hex(0x10), b'?');
    assert_eq!(addr_to_ascii(0x27), *b"27");
}

#[test]
fn panic_text() {
    let msg = panic_message(Some((b"src/main.rs", 42, 7)));
    assert_eq!(msg.as_slice(), b"        PANIC! src/main.rs:42:7        ");
    let msg = panic_message(None);
    assert_eq!(msg.as_slice(), b"        PANIC!         ");
    let long = [b'x'; 80];
    let msg = panic_message(Some((&long, 1, 2)));
    assert_eq!(msg.len(), 64);
    assert_eq!(&msg[0..15], b"        PANIC! ");
    assert_eq!(msg[63], b'x');
    assert_eq!(next_cursor(0, 39), 1);
    assert_eq!(next_cursor(30, 39), 0);
}

#[test]
fn byte_writer_keeps_what_fits() {
    let mut w = ByteArrayWriter::new(vec![0u8; 4]);
    w.write_str(b"ab");
    assert_eq!(w.as_bytes(), b"ab".to_vec());
    w.write_str(b"cdef");
    assert_eq!(w.as_bytes(), b"abcd".to_vec());
    w.write_char(b'z');
    assert_eq!(w.as_bytes(), b"abcd".to_vec());
    let mut digits = Vec::new();
    push_decimal(&mut digits, 0);
    push_decimal(&mut digits, 4_294_967_295);
    assert_eq!(digits, b"04294967295".to_vec());
}

#[test]
fn display_driver_types() {
    assert_eq!(DataOutMode::Serial.bits(), 0);
    assert_eq!(DataOutMode::Simultaneous.bits(), 1);
    let e: Hcms29xxError<u8> = Hcms29xxError::from(5u8);
    assert!(matches!(e, Hcms29xxError::OutputPinError(5)));
}

#[test]
fn resolution_steps_toward_ten_bits() {
    assert_eq!(Resolution::_8bit.next(), Resolution::_10bit);
    assert_eq!(Resolution::_10bit.next(), Resolution::_10bit);
    assert_eq!(Resolution::_10bit.prev(), Resolution::_8bit);
    assert_eq!(Resolution::_8bit.prev(), Resolution::_8bit);
    let mut u = Utils::new_with_adc(0, 0);
    u.cur_util = Util::SetResolution;
    u.decrement_util_setting();
    assert_eq!(&u.format_util(), b"Res:  8b");
    u.increment_util_setting();
    assert_eq!(&u.format_util(), b"Res: 10b");
}

#[test]
fn meter_settings_screen() {
    let mut ctx = context();
    ctx.to_mode(3);
    let mut p = peripherals(0);
    let mut m = Meter::new_with_settings(&ctx.settings, 0, 0);
    assert_eq!(m.cur_reading, SensorReading::Temp);
    m.update(None, &mut ctx, &mut p);
    let text = |p: &Peripherals| match p.actions.last() {
        Some(Action::PrintAscii(b)) => *b,
        other => panic!("unexpected {:?}", other),
    };
    assert_eq!(&text(&p), b"Tf:  0\x98C");
    m.update(Some(InputEvent::RightHeld), &mut ctx, &mut p);
    assert_eq!(&text(&p), b"Res: 10b");
    m.update(Some(InputEvent::LeftReleased), &mut ctx, &mut p);
    assert_eq!(&text(&p), b"Res:  8b");
    m.update(Some(InputEvent::RightReleased), &mut ctx, &mut p);
    m.update(Some(InputEvent::RightHeld), &mut ctx, &mut p);
    assert_eq!(&text(&p), b"Snum: 64");
    m.update(Some(InputEvent::LeftHeld), &mut ctx, &mut p);
    assert!(!m.settings_active);
    assert!(!ctx.is_menu());
}

#[test]
fn meter_reads_and_leaves() {
    let mut ctx = context();
    let mut p = peripherals(0);
    let mut m = Meter::new_with_settings(&ctx.settings, 0, 0);
    m.update(None, &mut ctx, &mut p);
    let drawn = p.actions.len();
    // set up: configure, select the temperature sensor, start
    m.update(None, &mut ctx, &mut p);
    assert_eq!(p.actions.len(), drawn + 3);
    assert!(matches!(p.actions[drawn + 1], Action::AdcSelect(AdcChannel::Temp)));
    // 64 samples accumulated to 640: a reading of 10, shown raw after a toggle cycle
    p.adc_sample = AdcSample { busy: false, result: 640 };
    m.show_raw = true;
    m.update(None, &mut ctx, &mut p);
    assert_eq!(m.last_reading, 10);
    match p.actions.last() {
        Some(Action::PrintAscii(b)) => assert_eq!(b, b"Tf:   10"),
        other => panic!("unexpected {:?}", other),
    }
    m.update(Some(InputEvent::LeftHeld), &mut ctx, &mut p);
    assert!(ctx.is_menu());
    assert!(matches!(p.actions.last(), Some(Action::AdcDisable)));
}
