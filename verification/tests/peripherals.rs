use nonik0::i2c::{
    add_read_bit, add_write_bit, ping_result, twi_baud, ClientStatus, Direction, Error, HostStatus,
    I2cState, Response, Transfer, TransferStep, I2C_BUFFER_SIZE,
};
use nonik0::modes::Action;
use nonik0::music::{
    get_note_frequency, n, note_name_bytes, pause, play_note, play_song, AN, BN, CN, EN, SILENCE,
};
use nonik0::tone::{timer_setup, Tone, ToneState};

#[test]
fn note_words() {
    assert_eq!(n(EN, 5, 4), 21508);
    assert_eq!(pause(4), 65284);
    assert_eq!(n(SILENCE, SILENCE, 0), 0xFF00);
}

#[test]
fn note_frequencies() {
    assert_eq!(get_note_frequency(AN, 4), 440);
    assert_eq!(get_note_frequency(CN, 5), 523);
    assert_eq!(get_note_frequency(AN, 0), 27);
    assert_eq!(get_note_frequency(EN, 8), 5274);
    // below the table, past the last note, past the last octave
    assert_eq!(get_note_frequency(CN, 0), 0);
    assert_eq!(get_note_frequency(BN + 1, 4), 0);
    assert_eq!(get_note_frequency(AN, 9), 0);
    assert_eq!(get_note_frequency(SILENCE, SILENCE), 0);
}

#[test]
fn note_names() {
    assert_eq!(note_name_bytes(0), b"C".to_vec());
    assert_eq!(note_name_bytes(1), b"Cs".to_vec());
    assert_eq!(note_name_bytes(11), b"B".to_vec());
    assert_eq!(note_name_bytes(15), b" ".to_vec());
}

#[test]
fn a_note_is_tone_wait_silence_wait() {
    let mut actions = Vec::new();
    play_note(&mut actions, AN, 1, 4, 15, 3);
    assert_eq!(actions.len(), 4);
    assert!(matches!(actions[0], Action::Tone(440, 60)));
    assert!(matches!(actions[1], Action::Delay(60)));
    assert!(matches!(actions[2], Action::NoTone));
    assert!(matches!(actions[3], Action::Delay(7)));
    let mut rest = Vec::new();
    play_note(&mut rest, SILENCE, SILENCE, 8, 15, 0);
    assert!(matches!(rest[0], Action::NoTone));
    assert!(matches!(rest[1], Action::Delay(120)));
}

#[test]
fn a_long_unit_with_a_short_timing() {
    let mut actions = Vec::new();
    play_note(&mut actions, AN, 1, 1, 20_000_000, 3);
    assert_eq!(actions.len(), 4);
    assert!(matches!(actions[0], Action::Tone(440, 20_000_000)));
    assert!(matches!(actions[1], Action::Delay(20_000_000)));
    assert!(matches!(actions[2], Action::NoTone));
    assert!(matches!(actions[3], Action::Delay(10_000_000)));
}

#[test]
fn the_tune_has_321_notes() {
    let mut actions = Vec::new();
    play_song(&mut actions);
    assert_eq!(actions.len(), 5 * 321);
}

#[test]
fn the_song_starts_with_e_e_pause() {
    let mut actions = Vec::new();
    play_song(&mut actions);
    assert_eq!(actions.len() % 5, 0);
    assert!(actions.len() > 15);
    match &actions[0] {
        Action::PrintBytes(b) => assert_eq!(b.as_slice(), b"E"),
        other => panic!("unexpected {:?}", other),
    }
    assert!(matches!(actions[1], Action::Tone(5274, 60)));
    assert!(matches!(actions[2], Action::Delay(60)));
    assert!(matches!(actions[3], Action::NoTone));
    assert!(matches!(actions[4], Action::Delay(7)));
    match &actions[10] {
        Action::PrintBytes(b) => assert_eq!(b.as_slice(), b" "),
        other => panic!("unexpected {:?}", other),
    }
    assert!(matches!(actions[11], Action::NoTone));
}

#[test]
fn timer_setups() {
    let s = timer_setup(5000, 5);
    assert_eq!(s.clock_divider, 1);
    assert_eq!(s.division_factor, 1);
    assert_eq!(s.compare_value, 999);
    assert_eq!(s.toggle_count, Some(50));
    let s = timer_setup(100, 0);
    assert_eq!((s.clock_divider, s.division_factor, s.compare_value), (1, 1, 49999));
    assert_eq!(s.toggle_count, None);
    let s = timer_setup(10, 0);
    assert_eq!((s.clock_divider, s.division_factor, s.compare_value), (2, 3, 62499));
}

#[test]
fn tone_counts_down_its_toggles() {
    let mut t = Tone::new();
    let setup = t.tone(5000, 5).unwrap();
    assert_eq!(setup.toggle_count, Some(50));
    assert!(t.state.enabled);
    assert_eq!(t.state.cycles_per_toggle, 2);
    let mut s = ToneState::new();
    s.enable(1, 1, 999, Some(2));
    s.int_tick();
    assert!(!s.pin_high);
    s.int_tick();
    assert!(s.pin_high);
    assert_eq!(s.toggles_left, Some(1));
    s.int_tick();
    s.int_tick();
    assert!(!s.pin_high);
    assert!(!s.enabled);
    assert_eq!(s.toggles_left, None);
    assert!(t.tone(0, 0).is_none());
    assert!(!t.state.enabled);
}

#[test]
fn addresses_and_baud() {
    assert_eq!(add_read_bit(0x42), 0x43);
    assert_eq!(add_write_bit(0x43), 0x42);
    // 10 MHz / (2 * 100 kHz) - (5 + 10 * 350 / 2000)
    assert_eq!(twi_baud(100_000, 350), 44);
    assert_eq!(Error::AddressNack.code(), 1);
    assert_eq!(Error::BufferOverflow.code(), 6);
}

#[test]
fn ping_results() {
    assert_eq!(ping_result(Ok(())), Ok(true));
    assert_eq!(ping_result(Err(Error::AddressNack)), Ok(false));
    assert_eq!(ping_result(Err(Error::Bus)), Err(Error::Bus));
}

fn write_status() -> ClientStatus {
    ClientStatus { apif: false, ap: false, dir: false, dif: true, rxack: false, coll: false }
}

#[test]
fn client_receives_what_the_host_writes() {
    // law: a byte the host writes is the next byte the client reads
    let mut s = I2cState::new(0x10);
    assert_eq!(s.client_address, 0x20);
    let addr = ClientStatus { apif: true, ap: true, dir: false, dif: false, rxack: false, coll: false };
    assert!(I2cState::client_reads_data(addr));
    let (resp, out) = s.client_interrupt(addr, 0x20);
    assert_eq!(resp, Response::AckContinue);
    assert_eq!(out, None);
    let (resp, _) = s.client_interrupt(write_status(), 0xAB);
    assert_eq!(resp, Response::AckContinue);
    let (resp, _) = s.client_interrupt(write_status(), 0xCD);
    assert_eq!(resp, Response::AckContinue);
    assert_eq!(s.raw_available_client(), 2);
    assert_eq!(s.raw_read_client(), Some(0xAB));
    assert_eq!(s.raw_read_client(), Some(0xCD));
    assert_eq!(s.raw_read_client(), None);
    assert_eq!(s.bytes_to_process, 0);
}

#[test]
fn client_refuses_when_full_and_reads_with_nothing_to_send() {
    let mut s = I2cState::new(0x10);
    for i in 0..I2C_BUFFER_SIZE {
        let (resp, _) = s.client_interrupt(write_status(), i as u8);
        if i + 1 == I2C_BUFFER_SIZE {
            assert_eq!(resp, Response::NakComplete);
        } else {
            assert_eq!(resp, Response::AckContinue);
        }
    }
    let (resp, _) = s.client_interrupt(write_status(), 0xFF);
    assert_eq!(resp, Response::Nothing);
    let read = ClientStatus { apif: true, ap: true, dir: true, dif: false, rxack: false, coll: false };
    let (resp, _) = s.client_interrupt(read, 0x21);
    assert_eq!(resp, Response::NakComplete);
    let stop = ClientStatus { apif: true, ap: false, dir: false, dif: false, rxack: false, coll: false };
    assert_eq!(s.client_interrupt(stop, 0).0, Response::AckComplete);
}

fn idle() -> HostStatus {
    HostStatus { bus_unknown: false, bus_busy: false, arblost: false, wif: false, rxack: false }
}

#[test]
fn host_write_goes_address_then_data() {
    let mut s = I2cState::new(0);
    assert_eq!(s.raw_start(0x3C, Direction::Write), Ok(()));
    assert_eq!(s.raw_write(&[1, 2]), Ok(()));
    assert_eq!(s.bytes_to_process, 2);
    let mut t = Transfer { addr_sent: false, data_sent: false };
    assert!(matches!(s.transfer_step(&mut t, idle()), TransferStep::WriteAddress(0x78)));
    let acked = HostStatus { wif: true, ..idle() };
    assert!(matches!(s.transfer_step(&mut t, acked), TransferStep::WriteData(1)));
    assert!(matches!(s.transfer_step(&mut t, acked), TransferStep::WriteData(2)));
    assert!(matches!(s.transfer_step(&mut t, acked), TransferStep::Done(Ok(()))));
    let busy = HostStatus { bus_busy: true, ..idle() };
    assert!(matches!(s.transfer_step(&mut t, busy), TransferStep::Wait));
}

#[test]
fn host_transfer_errors() {
    let mut s = I2cState::new(0);
    s.raw_start(0x3C, Direction::Write).unwrap();
    let mut t = Transfer { addr_sent: false, data_sent: false };
    let lost = HostStatus { arblost: true, ..idle() };
    assert!(matches!(s.transfer_step(&mut t, lost), TransferStep::Abort(Error::ArbitrationLost)));
    let unknown = HostStatus { bus_unknown: true, ..idle() };
    assert!(matches!(s.transfer_step(&mut t, unknown), TransferStep::Abort(Error::Uninit)));
    s.transfer_step(&mut t, idle());
    let nack = HostStatus { wif: true, rxack: true, ..idle() };
    assert!(matches!(s.transfer_step(&mut t, nack), TransferStep::Done(Err(Error::AddressNack))));
    assert_eq!(s.raw_write(&[0u8; I2C_BUFFER_SIZE]), Err(Error::BufferOverflow));
}

#[test]
fn host_read_is_capped_at_the_buffer() {
    let mut s = I2cState::new(0);
    let mut buf = [0u8; 40];
    assert_eq!(s.raw_read(&mut buf, true), Ok(()));
    assert_eq!(s.bytes_to_process, I2C_BUFFER_SIZE as u8);
    let mut small = [0u8; 3];
    s.raw_read(&mut small, false).unwrap();
    assert_eq!(s.bytes_to_process, 3);
}
