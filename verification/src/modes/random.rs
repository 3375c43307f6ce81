use super::{appended_cols, appended_text, show_col_slice, show_text, Context, Peripherals};
use crate::input::InputEvent;
use crate::random::{advanced_by, drawn_u32};
use crate::saved_settings::{setting_offset, SavedSettings, Setting};
use crate::utils::pow10;
use crate::{CHAR_WIDTH, NUM_CHARS, NUM_COLS};
use vstd::prelude::*;

verus! {

/// The pages of the random mode.
#[derive(Clone, Copy, Debug, PartialEq, Eq, Structural)]
pub enum Page {
    IntegerBase10,
    RollD6,
    EightBall,
    Cuisine,
}

/// The random mode: a random number, eight dice, an eight-ball answer, or a cuisine.
pub struct Random {
    pub last_update: u16,
    pub cur_page: Page,
}

/// The page's number as saved.
pub open spec fn page_number(p: Page) -> u8 {
    match p {
        Page::IntegerBase10 => 0,
        Page::RollD6 => 1,
        Page::EightBall => 2,
        Page::Cuisine => 3,
    }
}

/// The page saved as `b`; unknown numbers give the number page.
pub open spec fn page_from_byte(b: u8) -> Page {
    if b == 1 {
        Page::RollD6
    } else if b == 2 {
        Page::EightBall
    } else if b == 3 {
        Page::Cuisine
    } else {
        Page::IntegerBase10
    }
}

/// The next page, wrapping around.
pub open spec fn next_page(p: Page) -> Page {
    match p {
        Page::IntegerBase10 => Page::RollD6,
        Page::RollD6 => Page::EightBall,
        Page::EightBall => Page::Cuisine,
        Page::Cuisine => Page::IntegerBase10,
    }
}

/// The last eight decimal digits of `value`, most significant first.
pub open spec fn base10_text(value: u32) -> Seq<u8> {
    Seq::new(NUM_CHARS as nat, |i: int| (48 + (value as nat / pow10((7 - i) as nat)) % 10) as u8)
}

/// Column `i` (0..5) of the die face that shows `face + 1` eyes.
pub open spec fn dice_col(face: nat, i: nat) -> u8 {
    if face == 0 {
        if i == 2 { 0x08 } else { 0x00 }
    } else if face == 1 {
        if i == 0 { 0x20 } else if i == 4 { 0x02 } else { 0x00 }
    } else if face == 2 {
        if i == 0 { 0x20 } else if i == 2 { 0x08 } else if i == 4 { 0x02 } else { 0x00 }
    } else if face == 3 {
        if i == 0 || i == 4 { 0x22 } else { 0x00 }
    } else if face == 4 {
        if i == 0 || i == 4 { 0x22 } else if i == 2 { 0x08 } else { 0x00 }
    } else {
        if i == 0 || i == 4 { 0x2A } else { 0x00 }
    }
}

/// `6^j`.
pub open spec fn pow6(j: nat) -> nat
    decreases j,
{
    if j == 0 {
        1
    } else {
        6 * pow6((j - 1) as nat)
    }
}

/// Eight dice read from `value` in base 6, the last base-6 digit on the rightmost character.
pub open spec fn dice_cols(value: u32) -> Seq<u8> {
    Seq::new(
        NUM_COLS as nat,
        |c: int|
            dice_col(
                (value as nat / pow6((7 - c / CHAR_WIDTH as int) as nat)) % 6,
                (c % CHAR_WIDTH as int) as nat,
            ),
    )
}

/// The answer of the eight ball with number `i`.
pub open spec fn spec_eight_ball_response(i: nat) -> Seq<u8> {
    if i == 0 {
        // "   Yes  "
        seq![32u8, 32, 32, 89, 101, 115, 32, 32]
    } else if i == 1 {
        // "  Yeah! "
        seq![32u8, 32, 89, 101, 97, 104, 33, 32]
    } else if i == 2 {
        // "No doubt"
        seq![78u8, 111, 32, 100, 111, 117, 98, 116]
    } else if i == 3 {
        // "It is so"
        seq![73u8, 116, 32, 105, 115, 32, 115, 111]
    } else if i == 4 {
        // "Yeyeyeye"
        seq![89u8, 101, 121, 101, 121, 101, 121, 101]
    } else if i == 5 {
        // "  Fo sho"
        seq![32u8, 32, 70, 111, 32, 115, 104, 111]
    } else if i == 6 {
        // " Oh, si!"
        seq![32u8, 79, 104, 44, 32, 115, 105, 33]
    } else if i == 7 {
        // " Jawohl!"
        seq![32u8, 74, 97, 119, 111, 104, 108, 33]
    } else if i == 8 {
        // "Oui oui!"
        seq![79u8, 117, 105, 32, 111, 117, 105, 33]
    } else if i == 9 {
        // "True dat"
        seq![84u8, 114, 117, 101, 32, 100, 97, 116]
    } else if i == 10 {
        // " Likely "
        seq![32u8, 76, 105, 107, 101, 108, 121, 32]
    } else if i == 11 {
        // "  Maybe "
        seq![32u8, 32, 77, 97, 121, 98, 101, 32]
    } else if i == 12 {
        // "Maybe no"
        seq![77u8, 97, 121, 98, 101, 32, 110, 111]
    } else if i == 13 {
        // "Unlikely"
        seq![85u8, 110, 108, 105, 107, 101, 108, 121]
    } else if i == 14 {
        // " Please."
        seq![32u8, 80, 108, 101, 97, 115, 101, 46]
    } else if i == 15 {
        // "    No  "
        seq![32u8, 32, 32, 32, 78, 111, 32, 32]
    } else if i == 16 {
        // "   Naw  "
        seq![32u8, 32, 32, 78, 97, 119, 32, 32]
    } else if i == 17 {
        // "  Never "
        seq![32u8, 32, 78, 101, 118, 101, 114, 32]
    } else if i == 18 {
        // "Nooooooo"
        seq![78u8, 111, 111, 111, 111, 111, 111, 111]
    } else if i == 19 {
        // "No no no"
        seq![78u8, 111, 32, 110, 111, 32, 110, 111]
    } else if i == 20 {
        // "  Nein  "
        seq![32u8, 32, 78, 101, 105, 110, 32, 32]
    } else if i == 21 {
        // "  Nyet  "
        seq![32u8, 32, 78, 121, 101, 116, 32, 32]
    } else if i == 22 {
        // "   Wat? "
        seq![32u8, 32, 32, 87, 97, 116, 63, 32]
    } else if i == 23 {
        // "   Dunno"
        seq![32u8, 32, 32, 68, 117, 110, 110, 111]
    } else if i == 24 {
        // " Ask cat"
        seq![32u8, 65, 115, 107, 32, 99, 97, 116]
    } else if i == 25 {
        // " Ask cat"
        seq![32u8, 65, 115, 107, 32, 99, 97, 116]
    } else {
        // "u cappin"
        seq![117u8, 32, 99, 97, 112, 112, 105, 110]
    }
}

/// The answer of the eight ball with number `i`.
pub fn eight_ball_response(i: usize) -> (r: [u8; NUM_CHARS])
    requires
        i < 27,
    ensures
        r@ == spec_eight_ball_response(i as nat),
{
    let r: [u8; NUM_CHARS] = match i {
        0 => [32u8, 32, 32, 89, 101, 115, 32, 32],
        1 => [32u8, 32, 89, 101, 97, 104, 33, 32],
        2 => [78u8, 111, 32, 100, 111, 117, 98, 116],
        3 => [73u8, 116, 32, 105, 115, 32, 115, 111],
        4 => [89u8, 101, 121, 101, 121, 101, 121, 101],
        5 => [32u8, 32, 70, 111, 32, 115, 104, 111],
        6 => [32u8, 79, 104, 44, 32, 115, 105, 33],
        7 => [32u8, 74, 97, 119, 111, 104, 108, 33],
        8 => [79u8, 117, 105, 32, 111, 117, 105, 33],
        9 => [84u8, 114, 117, 101, 32, 100, 97, 116],
        10 => [32u8, 76, 105, 107, 101, 108, 121, 32],
        11 => [32u8, 32, 77, 97, 121, 98, 101, 32],
        12 => [77u8, 97, 121, 98, 101, 32, 110, 111],
        13 => [85u8, 110, 108, 105, 107, 101, 108, 121],
        14 => [32u8, 80, 108, 101, 97, 115, 101, 46],
        15 => [32u8, 32, 32, 32, 78, 111, 32, 32],
        16 => [32u8, 32, 32, 78, 97, 119, 32, 32],
        17 => [32u8, 32, 78, 101, 118, 101, 114, 32],
        18 => [78u8, 111, 111, 111, 111, 111, 111, 111],
        19 => [78u8, 111, 32, 110, 111, 32, 110, 111],
        20 => [32u8, 32, 78, 101, 105, 110, 32, 32],
        21 => [32u8, 32, 78, 121, 101, 116, 32, 32],
        22 => [32u8, 32, 32, 87, 97, 116, 63, 32],
        23 => [32u8, 32, 32, 68, 117, 110, 110, 111],
        24 => [32u8, 65, 115, 107, 32, 99, 97, 116],
        25 => [32u8, 65, 115, 107, 32, 99, 97, 116],
        _ => [117u8, 32, 99, 97, 112, 112, 105, 110],
    };
    assert(r@ =~= spec_eight_ball_response(i as nat));
    r
}

/// The cuisine with number `i`.
pub open spec fn spec_cuisine_response(i: nat) -> Seq<u8> {
    if i == 0 {
        // " Cambodn"
        seq![32u8, 67, 97, 109, 98, 111, 100, 110]
    } else if i == 1 {
        // " Chinese"
        seq![32u8, 67, 104, 105, 110, 101, 115, 101]
    } else if i == 2 {
        // "  Cuban "
        seq![32u8, 32, 67, 117, 98, 97, 110, 32]
    } else if i == 3 {
        // " Ethiopn"
        seq![32u8, 69, 116, 104, 105, 111, 112, 110]
    } else if i == 4 {
        // "Filipino"
        seq![70u8, 105, 108, 105, 112, 105, 110, 111]
    } else if i == 5 {
        // " French "
        seq![32u8, 70, 114, 101, 110, 99, 104, 32]
    } else if i == 6 {
        // " German "
        seq![32u8, 71, 101, 114, 109, 97, 110, 32]
    } else if i == 7 {
        // "  Greek "
        seq![32u8, 32, 71, 114, 101, 101, 107, 32]
    } else if i == 8 {
        // " Indian "
        seq![32u8, 73, 110, 100, 105, 97, 110, 32]
    } else if i == 9 {
        // "Indonesn"
        seq![73u8, 110, 100, 111, 110, 101, 115, 110]
    } else if i == 10 {
        // " Israeli"
        seq![32u8, 73, 115, 114, 97, 101, 108, 105]
    } else if i == 11 {
        // " Italian"
        seq![32u8, 73, 116, 97, 108, 105, 97, 110]
    } else if i == 12 {
        // "Japanese"
        seq![74u8, 97, 112, 97, 110, 101, 115, 101]
    } else if i == 13 {
        // " Koreans"
        seq![32u8, 75, 111, 114, 101, 97, 110, 115]
    } else if i == 14 {
        // " Malaysn"
        seq![32u8, 77, 97, 108, 97, 121, 115, 110]
    } else if i == 15 {
        // " Mexican"
        seq![32u8, 77, 101, 120, 105, 99, 97, 110]
    } else if i == 16 {
        // " Oaxacan"
        seq![32u8, 79, 97, 120, 97, 99, 97, 110]
    } else if i == 17 {
        // "  Pizza "
        seq![32u8, 32, 80, 105, 122, 122, 97, 32]
    } else if i == 18 {
        // " Russian"
        seq![32u8, 82, 117, 115, 115, 105, 97, 110]
    } else if i == 19 {
        // "Schezwan"
        seq![83u8, 99, 104, 101, 122, 119, 97, 110]
    } else if i == 20 {
        // " Spanish"
        seq![32u8, 83, 112, 97, 110, 105, 115, 104]
    } else if i == 21 {
        // "  Thai  "
        seq![32u8, 32, 84, 104, 97, 105, 32, 32]
    } else if i == 22 {
        // " Turkish"
        seq![32u8, 84, 117, 114, 107, 105, 115, 104]
    } else if i == 23 {
        // " Venezln"
        seq![32u8, 86, 101, 110, 101, 122, 108, 110]
    } else {
        // " Vietnam"
        seq![32u8, 86, 105, 101, 116, 110, 97, 109]
    }
}

/// The cuisine with number `i`.
pub fn cuisine_response(i: usize) -> (r: [u8; NUM_CHARS])
    requires
        i < 25,
    ensures
        r@ == spec_cuisine_response(i as nat),
{
    let r: [u8; NUM_CHARS] = match i {
        0 => [32u8, 67, 97, 109, 98, 111, 100, 110],
        1 => [32u8, 67, 104, 105, 110, 101, 115, 101],
        2 => [32u8, 32, 67, 117, 98, 97, 110, 32],
        3 => [32u8, 69, 116, 104, 105, 111, 112, 110],
        4 => [70u8, 105, 108, 105, 112, 105, 110, 111],
        5 => [32u8, 70, 114, 101, 110, 99, 104, 32],
        6 => [32u8, 71, 101, 114, 109, 97, 110, 32],
        7 => [32u8, 32, 71, 114, 101, 101, 107, 32],
        8 => [32u8, 73, 110, 100, 105, 97, 110, 32],
        9 => [73u8, 110, 100, 111, 110, 101, 115, 110],
        10 => [32u8, 73, 115, 114, 97, 101, 108, 105],
        11 => [32u8, 73, 116, 97, 108, 105, 97, 110],
        12 => [74u8, 97, 112, 97, 110, 101, 115, 101],
        13 => [32u8, 75, 111, 114, 101, 97, 110, 115],
        14 => [32u8, 77, 97, 108, 97, 121, 115, 110],
        15 => [32u8, 77, 101, 120, 105, 99, 97, 110],
        16 => [32u8, 79, 97, 120, 97, 99, 97, 110],
        17 => [32u8, 32, 80, 105, 122, 122, 97, 32],
        18 => [32u8, 82, 117, 115, 115, 105, 97, 110],
        19 => [83u8, 99, 104, 101, 122, 119, 97, 110],
        20 => [32u8, 83, 112, 97, 110, 105, 115, 104],
        21 => [32u8, 32, 84, 104, 97, 105, 32, 32],
        22 => [32u8, 84, 117, 114, 107, 105, 115, 104],
        23 => [32u8, 86, 101, 110, 101, 122, 108, 110],
        _ => [32u8, 86, 105, 101, 116, 110, 97, 109],
    };
    assert(r@ =~= spec_cuisine_response(i as nat));
    r
}
/// Column `i` of the die face with `face + 1` eyes.
fn dice_col_of(face: u32, i: usize) -> (r: u8)
    requires
        face < 6,
        i < CHAR_WIDTH,
    ensures
        r == dice_col(face as nat, i as nat),
{
    if face == 0 {
        if i == 2 { 0x08 } else { 0x00 }
    } else if face == 1 {
        if i == 0 { 0x20 } else if i == 4 { 0x02 } else { 0x00 }
    } else if face == 2 {
        if i == 0 { 0x20 } else if i == 2 { 0x08 } else if i == 4 { 0x02 } else { 0x00 }
    } else if face == 3 {
        if i == 0 || i == 4 { 0x22 } else { 0x00 }
    } else if face == 4 {
        if i == 0 || i == 4 { 0x22 } else if i == 2 { 0x08 } else { 0x00 }
    } else {
        if i == 0 || i == 4 { 0x2A } else { 0x00 }
    }
}

impl Random {
    /// Starts on the saved page (the number page when the saved byte names none), drawing on the
    /// first cycle.
    pub fn new_with_settings(settings: &SavedSettings) -> (r: Self)
        ensures
            r.last_update == 0,
            r.cur_page == page_from_byte(
                settings.cells()[setting_offset(Setting::RandomPage) as int],
            ),
    {
        let saved_page = settings.read_setting_byte(Setting::RandomPage);
        let page = match saved_page {
            1 => Page::RollD6,
            2 => Page::EightBall,
            3 => Page::Cuisine,
            _ => Page::IntegerBase10,
        };
        Random { last_update: 0, cur_page: page }
    }

    /// Writes the last eight decimal digits of `value` into `buf`.
    pub fn format_integer_base10(buf: &mut [u8], value: u32)
        requires
            old(buf)@.len() >= NUM_CHARS,
        ensures
            final(buf)@.len() == old(buf)@.len(),
            final(buf)@.subrange(0, NUM_CHARS as int) == base10_text(value),
            final(buf)@.subrange(NUM_CHARS as int, old(buf)@.len() as int) == old(
                buf,
            )@.subrange(NUM_CHARS as int, old(buf)@.len() as int),
    {
        let ghost b0 = buf@;
        let mut v = value;
        let mut index: usize = NUM_CHARS;
        assert(value as nat / 1 == value as nat);
        while index > 0
            invariant
                index <= NUM_CHARS,
                buf@.len() == b0.len(),
                b0.len() >= NUM_CHARS,
                v as nat == value as nat / pow10((NUM_CHARS - index) as nat),
                forall|t: int| index <= t < NUM_CHARS ==> #[trigger] buf@[t] == base10_text(value)[t],
                forall|t: int| NUM_CHARS <= t < b0.len() ==> buf@[t] == b0[t],
            decreases index,
        {
            index = index - 1;
            proof {
                let j = (NUM_CHARS - 1 - index) as nat;
                crate::utils::lemma_pow10_pos(j);
                vstd::arithmetic::div_mod::lemma_div_denominator(value as int, pow10(j) as int, 10);
                assert(pow10(j + 1) == pow10(j) * 10);
            }
            buf[index] = 48u8 + (v % 10) as u8;
            v = v / 10;
        }
        assert(buf@.subrange(0, NUM_CHARS as int) =~= base10_text(value));
        assert(buf@.subrange(NUM_CHARS as int, b0.len() as int) =~= b0.subrange(
            NUM_CHARS as int,
            b0.len() as int,
        ));
    }

    /// Writes eight-ball answer `index % 27` into `buf`.
    pub fn format_eight_ball(buf: &mut [u8], index: u8)
        requires
            old(buf)@.len() == NUM_CHARS,
        ensures
            final(buf)@ == spec_eight_ball_response(index as nat % 27),
    {
        let text = eight_ball_response(index as usize % 27);
        copy_into(buf, &text);
    }

    /// Writes cuisine `index % 25` into `buf`.
    pub fn format_cuisine(buf: &mut [u8], index: u8)
        requires
            old(buf)@.len() == NUM_CHARS,
        ensures
            final(buf)@ == spec_cuisine_response(index as nat % 25),
    {
        let text = cuisine_response(index as usize % 25);
        copy_into(buf, &text);
    }

    /// The columns of eight dice read from `value` in base 6.
    pub fn roll_d6_message(value: u32) -> (r: Vec<u8>)
        ensures
            r@ == dice_cols(value),
    {
        let mut col_buf: Vec<u8> = vec![0u8; NUM_COLS];
        let mut v = value;
        let mut index: usize = NUM_CHARS;
        assert(value as nat / 1 == value as nat);
        while index > 0
            invariant
                index <= NUM_CHARS,
                col_buf@.len() == NUM_COLS,
                v as nat == value as nat / pow6((NUM_CHARS - index) as nat),
                forall|c: int|
                    index * CHAR_WIDTH <= c < NUM_COLS ==> #[trigger] col_buf@[c] == dice_cols(
                        value,
                    )[c],
            decreases index,
        {
            index = index - 1;
            let face = v % 6;
            let mut i: usize = 0;
            let ghost before = col_buf@;
            while i < CHAR_WIDTH
                invariant
                    i <= CHAR_WIDTH,
                    index < NUM_CHARS,
                    face < 6,
                    face as nat == (value as nat / pow6((NUM_CHARS - 1 - index) as nat)) % 6,
                    col_buf@.len() == NUM_COLS,
                    before.len() == NUM_COLS,
                    forall|c: int|
                        (index + 1) * CHAR_WIDTH <= c < NUM_COLS ==> #[trigger] before[c]
                            == dice_cols(value)[c],
                    forall|c: int|
                        0 <= c < NUM_COLS && !(index * CHAR_WIDTH <= c < index * CHAR_WIDTH + i)
                            ==> col_buf@[c] == before[c],
                    forall|t: int|
                        0 <= t < i ==> col_buf@[index * CHAR_WIDTH + t] == #[trigger] dice_col(
                            face as nat,
                            t as nat,
                        ),
                decreases CHAR_WIDTH - i,
            {
                col_buf.set(index * CHAR_WIDTH + i, dice_col_of(face, i));
                i = i + 1;
            }
            proof {
                let j = (NUM_CHARS - 1 - index) as nat;
                lemma_pow6_pos(j);
                vstd::arithmetic::div_mod::lemma_div_denominator(value as int, pow6(j) as int, 6);
                assert(pow6(j + 1) == pow6(j) * 6);
                assert forall|c: int|
                    index * CHAR_WIDTH <= c < NUM_COLS implies #[trigger] col_buf@[c] == dice_cols(
                    value,
                )[c] by {
                    if c < index * CHAR_WIDTH + CHAR_WIDTH {
                        let t = c - index * CHAR_WIDTH;
                        assert(c / CHAR_WIDTH as int == index as int) by (nonlinear_arith)
                            requires
                                index * 5 <= c < index * 5 + 5,
                        ;
                        assert(c % CHAR_WIDTH as int == t) by (nonlinear_arith)
                            requires
                                index * 5 <= c < index * 5 + 5,
                                t == c - index * 5,
                        ;
                        assert(col_buf@[index * CHAR_WIDTH + t] == dice_col(face as nat, t as nat));
                        assert((7 - c / CHAR_WIDTH as int) as nat == j);
                        assert(dice_cols(value)[c] == dice_col(face as nat, t as nat));
                    } else {
                        assert(col_buf@[c] == before[c]);
                        assert(before[c] == dice_cols(value)[c]);
                    }
                }
            }
            v = v / 6;
        }
        assert(col_buf@ =~= dice_cols(value));
        col_buf
    }

    /// One cycle of the random mode: holding left goes back to the menu; holding right turns
    /// the page and saves it; a press or a page turn (or entering the mode) draws a new random
    /// number and shows what it stands for on the page.
    pub fn update(
        &mut self,
        event: Option<InputEvent>,
        context: &mut Context,
        peripherals: &mut Peripherals,
    )
        ensures
            update_post(
                *old(self),
                *final(self),
                event,
                *old(context),
                *final(context),
                *old(peripherals),
                *final(peripherals),
            ),
    {
        let mut last_update = self.last_update;
        let mut update = context.needs_update(&mut last_update);
        self.last_update = last_update;

        match event {
            Some(InputEvent::LeftHeld) => {
                context.to_menu();
                return ;
            },
            Some(InputEvent::RightHeld) => {
                self.cur_page = match self.cur_page {
                    Page::IntegerBase10 => Page::RollD6,
                    Page::RollD6 => Page::EightBall,
                    Page::EightBall => Page::Cuisine,
                    Page::Cuisine => Page::IntegerBase10,
                };
                let page_byte: u8 = match self.cur_page {
                    Page::IntegerBase10 => 0,
                    Page::RollD6 => 1,
                    Page::EightBall => 2,
                    Page::Cuisine => 3,
                };
                context.settings.save_setting_byte(Setting::RandomPage, page_byte);
                update = true;
            },
            Some(InputEvent::LeftPressed) | Some(InputEvent::RightPressed) => {
                update = true;
            },
            _ => {},
        }

        if update {
            let mut buf = [32u8; NUM_CHARS];
            let rand_value = peripherals.rng.get_u32();
            match self.cur_page {
                Page::IntegerBase10 => Self::format_integer_base10(&mut buf, rand_value),
                Page::EightBall => Self::format_eight_ball(&mut buf, rand_value as u8),
                Page::Cuisine => Self::format_cuisine(&mut buf, rand_value as u8),
                Page::RollD6 => {
                    let cols = Self::roll_d6_message(rand_value);
                    show_col_slice(&mut peripherals.actions, cols.as_slice());
                    return ;
                },
            }
            show_text(&mut peripherals.actions, buf);
            proof {
                if self.cur_page == Page::IntegerBase10 {
                    assert(buf@ =~= base10_text(rand_value));
                }
            }
        }
    }
}

/// Copies the eight characters of `text` into `buf`.
fn copy_into(buf: &mut [u8], text: &[u8; NUM_CHARS])
    requires
        old(buf)@.len() == NUM_CHARS,
    ensures
        final(buf)@ == text@,
{
    let mut i: usize = 0;
    while i < NUM_CHARS
        invariant
            i <= NUM_CHARS,
            buf@.len() == NUM_CHARS,
            forall|t: int| 0 <= t < i ==> buf@[t] == text@[t],
        decreases NUM_CHARS - i,
    {
        buf[i] = text[i];
        i = i + 1;
    }
    assert(buf@ =~= text@);
}

/// `6^j` is positive.
pub proof fn lemma_pow6_pos(j: nat)
    ensures
        pow6(j) > 0,
    decreases j,
{
    if j > 0 {
        lemma_pow6_pos((j - 1) as nat);
    }
}

/// The page is kept: the byte a page is saved as stands for that page when the mode starts.
pub proof fn lemma_page_persists(p: Page)
    ensures
        page_from_byte(page_number(p)) == p,
{
}

/// One cycle of `Random::update`: the mode `s0` becomes `s1`, the context `c0` becomes `c1` and
/// the peripherals `p0` become `p1` on `event`.
pub open spec fn update_post(
    s0: Random,
    s1: Random,
    event: Option<InputEvent>,
    c0: Context,
    c1: Context,
    p0: Peripherals,
    p1: Peripherals,
) -> bool {
    &&& p1.adc == p0.adc
    &&& c1.tone_enabled == c0.tone_enabled
    &&& event == Some(InputEvent::LeftHeld) ==> {
        &&& s1.cur_page == s0.cur_page
        &&& c1.mode_index == 0
        &&& c1.menu_counter == c0.menu_counter.wrapping_add(1)
        &&& c1.settings == c0.settings
        &&& p1.rng == p0.rng
        &&& p1.actions@ == p0.actions@
    }
    &&& event != Some(InputEvent::LeftHeld) ==> {
        let turn = event == Some(InputEvent::RightHeld);
        let page = if turn {
            next_page(s0.cur_page)
        } else {
            s0.cur_page
        };
        let draw = s0.last_update < c0.menu_counter || turn || event
            == Some(InputEvent::LeftPressed) || event == Some(InputEvent::RightPressed);
        let value = drawn_u32(p0.rng);
        &&& s1.cur_page == page
        &&& s1.last_update == c0.menu_counter
        &&& c1.mode_index == c0.mode_index
        &&& c1.menu_counter == c0.menu_counter
        &&& c1.redraw == c0.redraw
        &&& c1.settings.cells() == if turn {
            c0.settings.cells().update(
                setting_offset(Setting::RandomPage) as int,
                page_number(page),
            )
        } else {
            c0.settings.cells()
        }
        &&& if draw {
            &&& advanced_by(p0.rng, p1.rng, 4)
            &&& match page {
                Page::IntegerBase10 => appended_text(
                    p0.actions@,
                    p1.actions@,
                    base10_text(value),
                ),
                Page::EightBall => appended_text(
                    p0.actions@,
                    p1.actions@,
                    spec_eight_ball_response((value as u8) as nat % 27),
                ),
                Page::Cuisine => appended_text(
                    p0.actions@,
                    p1.actions@,
                    spec_cuisine_response((value as u8) as nat % 25),
                ),
                Page::RollD6 => appended_cols(
                    p0.actions@,
                    p1.actions@,
                    dice_cols(value),
                ),
            }
        } else {
            &&& p1.rng == p0.rng
            &&& p1.actions@ == p0.actions@
        }
    }
}

} // verus!
