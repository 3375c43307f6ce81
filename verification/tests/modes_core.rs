use nonik0::adc::{Adc, AdcSample};
use nonik0::i2c::I2cState;
use nonik0::input::InputEvent;
use nonik0::menu::Menu as FirstMenu;
use nonik0::modes::game::Game;
use nonik0::modes::menu::Menu;
use nonik0::modes::nametag::Nametag;
use nonik0::modes::random::{Page, Random};
use nonik0::modes::settings::{Setting as SettingsPage, Settings};
use nonik0::modes::{handle_global_event, names, Action, Context, Mode, PeakCurrent, Peripherals};
use nonik0::random::Rng;
use nonik0::saved_settings::{SavedSettings, Setting, EEPROM_SIZE};

fn settings_with(pairs: &[(usize, u8)]) -> SavedSettings {
    let mut image = vec![0u8; EEPROM_SIZE];
    for &(i, b) in pairs {
        image[i] = b;
    }
    SavedSettings::new(image).unwrap()
}

fn peripherals(seed: u32) -> Peripherals {
    Peripherals {
        adc: Adc::new(0, 0),
        adc_sample: AdcSample { busy: false, result: 0 },
        rng: Rng::seed(seed),
        i2c: I2cState::new(0x42),
        actions: Vec::new(),
    }
}

fn last_text(p: &Peripherals) -> [u8; 8] {
    match p.actions.last() {
        Some(Action::PrintAscii(b)) => *b,
        other => panic!("expected text, got {:?}", other),
    }
}

#[test]
fn context_starts_in_saved_mode() {
    let ctx = Context::new(settings_with(&[(0x0B, 5), (0x0E, 1)]));
    assert_eq!(ctx.mode_index(), 5);
    assert!(ctx.tone_enabled);
    assert_eq!(ctx.menu_counter(), 1);
    let ctx = Context::new(settings_with(&[(0x0B, 200)]));
    assert_eq!(ctx.mode_index(), 1);
    assert!(!ctx.tone_enabled);
}

#[test]
fn context_mode_changes() {
    let mut ctx = Context::new(settings_with(&[]));
    assert!(ctx.is_menu());
    ctx.to_mode(3);
    assert_eq!(ctx.mode(), 3);
    assert_eq!(ctx.settings.read_setting_byte(Setting::LastMode), 3);
    assert!(ctx.need_update());
    assert!(!ctx.need_update());
    ctx.to_menu();
    assert!(ctx.is_menu());
    assert_eq!(ctx.menu_counter(), 2);
    let mut last = 0u16;
    assert!(ctx.needs_update(&mut last));
    assert_eq!(last, 2);
    assert!(!ctx.needs_update(&mut last));
}

#[test]
fn mode_names() {
    assert_eq!(&names(0), b"  NONIK0");
    assert_eq!(&names(1), b" Nametag");
    assert_eq!(&names(7), b"   Vibes");
}

#[test]
fn menu_moves_and_enters() {
    let mut ctx = Context::new(settings_with(&[]));
    let mut p = peripherals(1);
    let mut menu = Menu::new();
    menu.update(None, &mut ctx, &mut p);
    assert_eq!(&last_text(&p), b" Nametag");
    menu.update(None, &mut ctx, &mut p);
    assert_eq!(p.actions.len(), 1);
    menu.update(Some(InputEvent::RightReleased), &mut ctx, &mut p);
    assert_eq!(&last_text(&p), b"  Random");
    menu.update(Some(InputEvent::LeftReleased), &mut ctx, &mut p);
    menu.update(Some(InputEvent::LeftReleased), &mut ctx, &mut p);
    assert_eq!(&last_text(&p), b"   Vibes");
    assert_eq!(menu.index(), 7);
    menu.update(Some(InputEvent::RightReleased), &mut ctx, &mut p);
    assert_eq!(menu.index(), 1);
    menu.update(Some(InputEvent::RightHeld), &mut ctx, &mut p);
    assert_eq!(ctx.mode_index(), 1);
    assert_eq!(ctx.settings.read_setting_byte(Setting::LastMode), 1);
}

#[test]
fn menu_cursor_round_trip() {
    // law: stepping right then left comes back
    let mut ctx = Context::new(settings_with(&[]));
    let mut p = peripherals(1);
    let mut menu = Menu::new();
    for start in 1..8u8 {
        while menu.index() != start {
            menu.update(Some(InputEvent::RightReleased), &mut ctx, &mut p);
        }
        menu.update(Some(InputEvent::RightReleased), &mut ctx, &mut p);
        menu.update(Some(InputEvent::LeftReleased), &mut ctx, &mut p);
        assert_eq!(menu.index(), start);
    }
}

#[test]
fn both_held_goes_to_menu_and_presses_beep() {
    let mut ctx = Context::new(settings_with(&[(0x0B, 6), (0x0E, 1)]));
    let mut actions = Vec::new();
    handle_global_event(Some(InputEvent::LeftPressed), &mut ctx, &mut actions);
    assert!(matches!(actions.last(), Some(Action::Tone(5000, 5))));
    handle_global_event(Some(InputEvent::RightHeld), &mut ctx, &mut actions);
    assert!(matches!(actions.last(), Some(Action::Tone(4000, 10))));
    assert_eq!(ctx.mode_index(), 6);
    handle_global_event(Some(InputEvent::BothHeld), &mut ctx, &mut actions);
    assert!(ctx.is_menu());
    assert_eq!(ctx.menu_counter(), 2);
    handle_global_event(Some(InputEvent::BothHeld), &mut ctx, &mut actions);
    assert_eq!(ctx.menu_counter(), 2);
    assert_eq!(actions.len(), 2);
}

#[test]
fn no_beep_with_tone_off() {
    let mut ctx = Context::new(settings_with(&[]));
    let mut actions = Vec::new();
    handle_global_event(Some(InputEvent::RightPressed), &mut ctx, &mut actions);
    assert!(actions.is_empty());
}

#[test]
fn mode_from_context_follows_index() {
    let ctx = Context::new(settings_with(&[(0x0B, 7)]));
    assert!(matches!(Mode::from_context(&ctx), Mode::Vibes(_)));
    let ctx = Context::new(settings_with(&[(0x0B, 4)]));
    let mut mode = Mode::from_context(&ctx);
    assert!(matches!(mode, Mode::Settings(_)));
    let mut ctx = ctx;
    let mut p = peripherals(1);
    mode.update(None, &mut ctx, &mut p);
    assert_eq!(&last_text(&p), b"Brite: 0");
}

#[test]
fn game_says_it_is_to_come() {
    let mut ctx = Context::new(settings_with(&[]));
    let mut p = peripherals(1);
    let mut game = Game::new();
    game.update(None, &mut ctx, &mut p);
    match p.actions.last() {
        Some(Action::PrintBytes(b)) => assert_eq!(b.as_slice(), b"TO IMPL"),
        other => panic!("unexpected {:?}", other),
    }
    game.update(None, &mut ctx, &mut p);
    assert_eq!(p.actions.len(), 1);
    ctx.to_mode(2);
    game.update(Some(InputEvent::LeftHeld), &mut ctx, &mut p);
    assert!(ctx.is_menu());
    assert_eq!(ctx.menu_counter(), 2);
}

#[test]
fn first_menu_names_and_moves() {
    let mut ctx = Context::new(settings_with(&[]));
    let mut p = peripherals(1);
    let mut menu = FirstMenu::new();
    menu.update(None, &mut ctx, &mut p);
    assert_eq!(&last_text(&p), b"Nametag ");
    menu.update(Some(InputEvent::RightReleased), &mut ctx, &mut p);
    assert_eq!(&last_text(&p), b"  Game  ");
    menu.update(Some(InputEvent::RightReleased), &mut ctx, &mut p);
    assert_eq!(&last_text(&p), b"  Anim  ");
    menu.update(Some(InputEvent::RightReleased), &mut ctx, &mut p);
    assert_eq!(&last_text(&p), b"  ????  ");
    menu.update(Some(InputEvent::LeftHeld), &mut ctx, &mut p);
    assert_eq!(ctx.mode_index(), 4);
}

#[test]
fn nametag_edits_and_saves_name() {
    let mut ctx = Context::new(settings_with(&[]));
    ctx.to_mode(1);
    let mut p = peripherals(1);
    let mut tag = Nametag::new_with_settings(&ctx.settings);
    assert_eq!(&tag.name, b" NONIK0 ");
    tag.update(None, &mut ctx, &mut p);
    assert_eq!(&last_text(&p), b" NONIK0 ");
    tag.update(Some(InputEvent::RightHeld), &mut ctx, &mut p);
    assert_eq!(tag.edit_index, Some(0));
    tag.update(Some(InputEvent::RightReleased), &mut ctx, &mut p);
    assert_eq!(&last_text(&p), b"ANONIK0 ");
    tag.update(Some(InputEvent::LeftHeld), &mut ctx, &mut p);
    assert_eq!(tag.edit_index, None);
    tag.update(Some(InputEvent::LeftHeld), &mut ctx, &mut p);
    assert!(ctx.is_menu());
    let mut saved = [0u8; 8];
    ctx.settings.read_setting(Setting::Name, &mut saved);
    assert_eq!(&saved, b"ANONIK0 ");
}

#[test]
fn nametag_keeps_a_saved_name() {
    let mut image = vec![0u8; EEPROM_SIZE];
    image[3..11].copy_from_slice(b"Ada 2024");
    let s = SavedSettings::new(image).unwrap();
    let tag = Nametag::new_with_settings(&s);
    assert_eq!(&tag.name, b"Ada 2024");
}

#[test]
fn nametag_character_steps() {
    let tag = Nametag::new_with_settings(&settings_with(&[]));
    assert_eq!(tag.next_char(b' '), b'A');
    assert_eq!(tag.next_char(b'Z'), b'a');
    assert_eq!(tag.next_char(b'z'), b'0');
    assert_eq!(tag.next_char(b'9'), b' ');
    assert_eq!(tag.prev_char(b' '), b'9');
    assert_eq!(tag.prev_char(b'a'), b'Z');
    assert_eq!(tag.prev_char(b'A'), b' ');
    assert_eq!(tag.prev_char(b'0'), b'z');
    assert_eq!(tag.adjust_char(b'#', true), b' ');
    // law: a step forward and a step back come back to a name character
    for c in [b' ', b'A', b'Q', b'Z', b'a', b'm', b'z', b'0', b'5', b'9'] {
        assert_eq!(tag.prev_char(tag.next_char(c)), c);
        assert_eq!(tag.next_char(tag.prev_char(c)), c);
    }
}

#[test]
fn random_formats() {
    let mut buf = [0u8; 8];
    Random::format_integer_base10(&mut buf, 1234567);
    assert_eq!(&buf, b"01234567");
    Random::format_integer_base10(&mut buf, 4_294_967_295);
    assert_eq!(&buf, b"94967295");
    Random::format_eight_ball(&mut buf, 27);
    assert_eq!(&buf, b"   Yes  ");
    Random::format_eight_ball(&mut buf, 26);
    assert_eq!(&buf, b"u cappin");
    Random::format_cuisine(&mut buf, 26);
    assert_eq!(&buf, b" Chinese");
    let dice = Random::roll_d6_message(7);
    assert_eq!(dice.len(), 40);
    assert_eq!(&dice[0..5], &[0x00, 0x00, 0x08, 0x00, 0x00]);
    assert_eq!(&dice[30..35], &[0x20, 0x00, 0x00, 0x00, 0x02]);
    assert_eq!(&dice[35..40], &[0x20, 0x00, 0x00, 0x00, 0x02]);
}

#[test]
fn random_pages_cycle_and_save() {
    let mut ctx = Context::new(settings_with(&[(0x0C, 3)]));
    ctx.to_mode(2);
    let mut p = peripherals(0);
    let mut r = Random::new_with_settings(&ctx.settings);
    assert_eq!(r.cur_page, Page::Cuisine);
    r.update(Some(InputEvent::RightHeld), &mut ctx, &mut p);
    assert_eq!(r.cur_page, Page::IntegerBase10);
    assert_eq!(ctx.settings.read_setting_byte(Setting::RandomPage), 0);
    // the first word of a generator seeded with 0 is 0
    assert_eq!(&last_text(&p), b"00000000");
    r.update(Some(InputEvent::LeftPressed), &mut ctx, &mut p);
    assert_eq!(&last_text(&p), b"13904223");
    r.update(Some(InputEvent::LeftHeld), &mut ctx, &mut p);
    assert!(ctx.is_menu());
}

#[test]
fn settings_pages() {
    let mut ctx = Context::new(settings_with(&[]));
    ctx.to_mode(4);
    let mut p = peripherals(1);
    let mut s = Settings::new_with_settings(&ctx.settings);
    assert_eq!(s.cur_setting, SettingsPage::Brightness);
    s.update(None, &mut ctx, &mut p);
    assert_eq!(&last_text(&p), b"Brite: 0");
    s.update(Some(InputEvent::LeftReleased), &mut ctx, &mut p);
    assert_eq!(s.brightness, 15);
    assert!(matches!(p.actions[p.actions.len() - 2], Action::SetBrightness(15)));
    assert_eq!(&last_text(&p), b"Brite:15");
    s.update(Some(InputEvent::RightReleased), &mut ctx, &mut p);
    assert_eq!(s.brightness, 0);
    s.update(Some(InputEvent::RightHeld), &mut ctx, &mut p);
    assert_eq!(&last_text(&p), b"Cur: 4mA");
    s.update(Some(InputEvent::LeftReleased), &mut ctx, &mut p);
    assert_eq!(s.current, 3);
    assert!(matches!(
        p.actions[p.actions.len() - 2],
        Action::SetPeakCurrent(PeakCurrent::Max12_8Ma)
    ));
    assert_eq!(&last_text(&p), b"Cur:13mA");
    s.update(Some(InputEvent::RightHeld), &mut ctx, &mut p);
    assert_eq!(&last_text(&p), b"Tone:Off");
    s.update(Some(InputEvent::RightReleased), &mut ctx, &mut p);
    assert!(ctx.tone_enabled);
    assert_eq!(&last_text(&p), b"Tone: On");
    s.update(Some(InputEvent::LeftHeld), &mut ctx, &mut p);
    assert!(ctx.is_menu());
    assert_eq!(ctx.settings.read_setting_byte(Setting::Current), 3);
    assert!(ctx.settings.read_setting_bool(Setting::Tone));
}

#[test]
fn settings_defaults_and_apply() {
    let s = Settings::new_with_settings(&settings_with(&[(1, 20), (2, 9)]));
    assert_eq!(s.brightness, 12);
    assert_eq!(s.current, 1);
    let mut actions = Vec::new();
    s.apply(&mut actions);
    assert!(matches!(actions[0], Action::SetBrightness(12)));
    assert!(matches!(actions[1], Action::SetPeakCurrent(PeakCurrent::Max6_4Ma)));
    assert_eq!(Settings::current_into(0), PeakCurrent::Max4_0Ma);
    assert_eq!(Settings::current_into(9), PeakCurrent::Max12_8Ma);
}

#[test]
fn long_left_press_leaves_any_mode() {
    // law: holding left exits to the menu unless a submenu is open
    for index in 1..8u8 {
        let mut ctx = Context::new(settings_with(&[(0x0B, index)]));
        let mut p = peripherals(5);
        let mut mode = Mode::from_context(&ctx);
        mode.update(Some(InputEvent::LeftHeld), &mut ctx, &mut p);
        assert!(ctx.is_menu(), "mode {} did not leave", index);
    }
    let mut ctx = Context::new(settings_with(&[(0x0B, 1)]));
    let mut p = peripherals(5);
    let mut mode = Mode::from_context(&ctx);
    mode.update(Some(InputEvent::RightHeld), &mut ctx, &mut p);
    mode.update(Some(InputEvent::LeftHeld), &mut ctx, &mut p);
    assert_eq!(ctx.mode_index(), 1);
    mode.update(Some(InputEvent::LeftHeld), &mut ctx, &mut p);
    assert!(ctx.is_menu());
}

#[test]
fn menu_enters_the_mode_under_the_cursor() {
    let mut ctx = Context::new(settings_with(&[]));
    let mut p = peripherals(5);
    let mut mode = Mode::from_context(&ctx);
    mode.update(Some(InputEvent::RightReleased), &mut ctx, &mut p);
    mode.update(Some(InputEvent::RightReleased), &mut ctx, &mut p);
    mode.update(Some(InputEvent::RightHeld), &mut ctx, &mut p);
    assert_eq!(ctx.mode_index(), 3);
}

#[test]
fn edited_name_is_shown_after_restart() {
    // law: the name is kept in the EEPROM
    let mut ctx = Context::new(settings_with(&[]));
    ctx.to_mode(1);
    let mut p = peripherals(1);
    let mut tag = Nametag::new_with_settings(&ctx.settings);
    tag.update(Some(InputEvent::RightHeld), &mut ctx, &mut p);
    tag.update(Some(InputEvent::LeftReleased), &mut ctx, &mut p);
    tag.update(Some(InputEvent::RightHeld), &mut ctx, &mut p);
    tag.update(Some(InputEvent::RightReleased), &mut ctx, &mut p);
    assert_eq!(&tag.name, b"9OONIK0 ");
    for _ in 0..7 {
        tag.update(Some(InputEvent::RightHeld), &mut ctx, &mut p);
    }
    assert_eq!(tag.edit_index, None);
    tag.update(Some(InputEvent::LeftHeld), &mut ctx, &mut p);
    let again = Nametag::new_with_settings(&ctx.settings);
    assert_eq!(again.name, tag.name);
}

#[test]
fn settings_are_kept_after_restart() {
    // law: brightness, current and tone survive leaving the mode
    let mut ctx = Context::new(settings_with(&[]));
    ctx.to_mode(4);
    let mut p = peripherals(1);
    let mut s = Settings::new_with_settings(&ctx.settings);
    s.update(Some(InputEvent::RightReleased), &mut ctx, &mut p);
    s.update(Some(InputEvent::RightReleased), &mut ctx, &mut p);
    s.update(Some(InputEvent::RightHeld), &mut ctx, &mut p);
    s.update(Some(InputEvent::RightReleased), &mut ctx, &mut p);
    s.update(Some(InputEvent::RightHeld), &mut ctx, &mut p);
    s.update(Some(InputEvent::RightReleased), &mut ctx, &mut p);
    s.update(Some(InputEvent::LeftHeld), &mut ctx, &mut p);
    let again = Settings::new_with_settings(&ctx.settings);
    assert_eq!((again.brightness, again.current), (2, 1));
    let image = {
        let mut v = vec![0u8; EEPROM_SIZE];
        for (offset, value) in ctx.settings.take_writes() {
            v[offset as usize] = value;
        }
        v
    };
    let restarted = Context::new(SavedSettings::new(image).unwrap());
    assert!(restarted.tone_enabled);
}

#[test]
fn random_page_is_kept() {
    let mut ctx = Context::new(settings_with(&[]));
    let mut p = peripherals(0);
    let mut r = Random::new_with_settings(&ctx.settings);
    r.update(Some(InputEvent::RightHeld), &mut ctx, &mut p);
    r.update(Some(InputEvent::RightHeld), &mut ctx, &mut p);
    assert_eq!(r.cur_page, Page::EightBall);
    assert_eq!(Random::new_with_settings(&ctx.settings).cur_page, Page::EightBall);
}
