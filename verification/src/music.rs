use crate::modes::Action;
use vstd::prelude::*;

verus! {

/// C
pub const CN: u8 = 0;

/// C sharp
pub const CS: u8 = 1;

/// D flat
pub const DF: u8 = CS;

/// D
pub const DN: u8 = 2;

/// D sharp
pub const DS: u8 = 3;

/// E flat
pub const EF: u8 = DS;

/// E
pub const EN: u8 = 4;

/// F
pub const FN: u8 = 5;

/// F sharp
pub const FS: u8 = 6;

/// G flat
pub const GF: u8 = FS;

/// G
pub const GN: u8 = 7;

/// G sharp
pub const GS: u8 = 8;

/// A flat
pub const AF: u8 = GS;

/// A
pub const AN: u8 = 9;

/// A sharp
pub const AS: u8 = 10;

/// B flat
pub const BF: u8 = AS;

/// B
pub const BN: u8 = 11;

/// Notes in an octave.
pub const NOTE_COUNT: u8 = 12;

/// Bits of the octave in a packed note.
pub const OCTAVE_MASK: u16 = 0xF000;

/// Bits of the note in a packed note.
pub const NOTE_MASK: u16 = 0x0F00;

/// Bits of the length in a packed note.
pub const TIMING_MASK: u16 = 0x00FF;

/// The note and octave of a pause.
pub const SILENCE: u8 = 0xF;

/// The lowest octave played (octave 0 is too low for a piezo buzzer).
pub const MIN_OCTAVE: u8 = 1;

/// The highest octave played.
pub const MAX_OCTAVE: u8 = 8;

/// The packed note that ends a song.
pub const END: u16 = 0;

/// A packed note: the octave in the top four bits, the note in the next four, the length in
/// the low eight.
pub open spec fn packed(note: u8, octave: u8, timing: u8) -> u16 {
    ((octave as u16) << 12u16) | ((note as u16) << 8u16) | (timing as u16)
}

/// Packs a note (see `packed`).
pub fn n(note: u8, octave: u8, timing: u8) -> (r: u16)
    ensures
        r == packed(note, octave, timing),
        note < 16 && octave < 16 ==> r == octave as nat * 4096 + note as nat * 256 + timing as nat,
{
    let r = ((octave as u16) << 12u16) | ((note as u16) << 8u16) | (timing as u16);
    proof {
        if note < 16 && octave < 16 {
            let o = octave as u16;
            let t = note as u16;
            let l = timing as u16;
            assert((o << 12u16) | (t << 8u16) | l == o * 4096 + t * 256 + l) by (bit_vector)
                requires
                    o < 16,
                    t < 16,
                    l < 256,
            ;
        }
    }
    r
}

/// Packs a pause of length `timing`.
pub fn pause(timing: u8) -> (r: u16)
    ensures
        r == packed(SILENCE, SILENCE, timing),
        r == 0xFF00 + timing as nat,
{
    n(SILENCE, SILENCE, timing)
}

/// The frequencies, in Hz, of the semitones from four octaves below A4 to four above.
pub open spec fn frequency_table() -> Seq<u32> {
    seq![
        27u32, 29, 31, 33, 35, 37, 39, 41, 44, 46, 49, 52,
        55, 58, 62, 65, 69, 73, 78, 82, 87, 93, 98, 104,
        110, 117, 123, 131, 139, 147, 156, 165, 175, 185, 196, 208,
        220, 233, 247, 262, 277, 294, 311, 330, 349, 370, 392, 415,
        440, 466, 494, 523, 554, 587, 622, 659, 698, 740, 784, 831,
        880, 932, 988, 1047, 1109, 1175, 1245, 1319, 1397, 1480, 1568, 1661,
        1760, 1865, 1976, 2093, 2217, 2349, 2489, 2637, 2794, 2960, 3136, 3322,
        3520, 3729, 3951, 4186, 4435, 4699, 4978, 5274, 5588, 5920, 6272, 6645,
        7040,
    ]
}

/// The frequency of `note` in `octave`: the table entry of its distance in semitones from A4;
/// 0 (silence) for a note or octave out of range, the pause included.
pub open spec fn note_frequency(note: u8, octave: u8) -> u32 {
    if note > BN || octave > MAX_OCTAVE {
        0
    } else {
        let idx = note as int - AN as int + 12 * (octave as int - 4) + 48;
        if idx < 0 || idx >= 97 {
            0
        } else {
            frequency_table()[idx]
        }
    }
}

/// Neighbouring entries of the table rise, and an entry twelve on is twice as high, give or
/// take 1.
proof fn lemma_table_steps()
    ensures
        frequency_table().len() == 97,
        forall|i: int|
            0 <= i < 96 ==> #[trigger] frequency_table()[i] < frequency_table()[i + 1],
        forall|i: int|
            0 <= i < 85 ==> frequency_table()[i + 12] <= 2 * #[trigger] frequency_table()[i] + 1
                && 2 * frequency_table()[i] <= frequency_table()[i + 12] + 1,
{
    let t = frequency_table();
    assert(t[0] == 27);
    assert(t[1] == 29);
    assert(t[2] == 31);
    assert(t[3] == 33);
    assert(t[4] == 35);
    assert(t[5] == 37);
    assert(t[6] == 39);
    assert(t[7] == 41);
    assert(t[8] == 44);
    assert(t[9] == 46);
    assert(t[10] == 49);
    assert(t[11] == 52);
    assert(t[12] == 55);
    assert(t[13] == 58);
    assert(t[14] == 62);
    assert(t[15] == 65);
    assert(t[16] == 69);
    assert(t[17] == 73);
    assert(t[18] == 78);
    assert(t[19] == 82);
    assert(t[20] == 87);
    assert(t[21] == 93);
    assert(t[22] == 98);
    assert(t[23] == 104);
    assert(t[24] == 110);
    assert(t[25] == 117);
    assert(t[26] == 123);
    assert(t[27] == 131);
    assert(t[28] == 139);
    assert(t[29] == 147);
    assert(t[30] == 156);
    assert(t[31] == 165);
    assert(t[32] == 175);
    assert(t[33] == 185);
    assert(t[34] == 196);
    assert(t[35] == 208);
    assert(t[36] == 220);
    assert(t[37] == 233);
    assert(t[38] == 247);
    assert(t[39] == 262);
    assert(t[40] == 277);
    assert(t[41] == 294);
    assert(t[42] == 311);
    assert(t[43] == 330);
    assert(t[44] == 349);
    assert(t[45] == 370);
    assert(t[46] == 392);
    assert(t[47] == 415);
    assert(t[48] == 440);
    assert(t[49] == 466);
    assert(t[50] == 494);
    assert(t[51] == 523);
    assert(t[52] == 554);
    assert(t[53] == 587);
    assert(t[54] == 622);
    assert(t[55] == 659);
    assert(t[56] == 698);
    assert(t[57] == 740);
    assert(t[58] == 784);
    assert(t[59] == 831);
    assert(t[60] == 880);
    assert(t[61] == 932);
    assert(t[62] == 988);
    assert(t[63] == 1047);
    assert(t[64] == 1109);
    assert(t[65] == 1175);
    assert(t[66] == 1245);
    assert(t[67] == 1319);
    assert(t[68] == 1397);
    assert(t[69] == 1480);
    assert(t[70] == 1568);
    assert(t[71] == 1661);
    assert(t[72] == 1760);
    assert(t[73] == 1865);
    assert(t[74] == 1976);
    assert(t[75] == 2093);
    assert(t[76] == 2217);
    assert(t[77] == 2349);
    assert(t[78] == 2489);
    assert(t[79] == 2637);
    assert(t[80] == 2794);
    assert(t[81] == 2960);
    assert(t[82] == 3136);
    assert(t[83] == 3322);
    assert(t[84] == 3520);
    assert(t[85] == 3729);
    assert(t[86] == 3951);
    assert(t[87] == 4186);
    assert(t[88] == 4435);
    assert(t[89] == 4699);
    assert(t[90] == 4978);
    assert(t[91] == 5274);
    assert(t[92] == 5588);
    assert(t[93] == 5920);
    assert(t[94] == 6272);
    assert(t[95] == 6645);
    assert(t[96] == 7040);
    assert forall|i: int| 0 <= i < 96 implies #[trigger] t[i] < t[i + 1] by {
        assert(i == 0 || i == 1 || i == 2 || i == 3 || i == 4 || i == 5 || i == 6 || i == 7 || i == 8 || i == 9 || i == 10 || i == 11 || i == 12 || i == 13 || i == 14 || i == 15 || i == 16 || i == 17 || i == 18 || i == 19 || i == 20 || i == 21 || i == 22 || i == 23 || i == 24 || i == 25 || i == 26 || i == 27 || i == 28 || i == 29 || i == 30 || i == 31 || i == 32 || i == 33 || i == 34 || i == 35 || i == 36 || i == 37 || i == 38 || i == 39 || i == 40 || i == 41 || i == 42 || i == 43 || i == 44 || i == 45 || i == 46 || i == 47 || i == 48 || i == 49 || i == 50 || i == 51 || i == 52 || i == 53 || i == 54 || i == 55 || i == 56 || i == 57 || i == 58 || i == 59 || i == 60 || i == 61 || i == 62 || i == 63 || i == 64 || i == 65 || i == 66 || i == 67 || i == 68 || i == 69 || i == 70 || i == 71 || i == 72 || i == 73 || i == 74 || i == 75 || i == 76 || i == 77 || i == 78 || i == 79 || i == 80 || i == 81 || i == 82 || i == 83 || i == 84 || i == 85 || i == 86 || i == 87 || i == 88 || i == 89 || i == 90 || i == 91 || i == 92 || i == 93 || i == 94 || i == 95 || i == 96);
    }
    assert forall|i: int| 0 <= i < 85 implies t[i + 12] <= 2 * #[trigger] t[i] + 1 && 2 * t[i]
        <= t[i + 12] + 1 by {
        assert(i == 0 || i == 1 || i == 2 || i == 3 || i == 4 || i == 5 || i == 6 || i == 7 || i == 8 || i == 9 || i == 10 || i == 11 || i == 12 || i == 13 || i == 14 || i == 15 || i == 16 || i == 17 || i == 18 || i == 19 || i == 20 || i == 21 || i == 22 || i == 23 || i == 24 || i == 25 || i == 26 || i == 27 || i == 28 || i == 29 || i == 30 || i == 31 || i == 32 || i == 33 || i == 34 || i == 35 || i == 36 || i == 37 || i == 38 || i == 39 || i == 40 || i == 41 || i == 42 || i == 43 || i == 44 || i == 45 || i == 46 || i == 47 || i == 48 || i == 49 || i == 50 || i == 51 || i == 52 || i == 53 || i == 54 || i == 55 || i == 56 || i == 57 || i == 58 || i == 59 || i == 60 || i == 61 || i == 62 || i == 63 || i == 64 || i == 65 || i == 66 || i == 67 || i == 68 || i == 69 || i == 70 || i == 71 || i == 72 || i == 73 || i == 74 || i == 75 || i == 76 || i == 77 || i == 78 || i == 79 || i == 80 || i == 81 || i == 82 || i == 83 || i == 84 || i == 85 || i == 86 || i == 87 || i == 88 || i == 89 || i == 90 || i == 91 || i == 92 || i == 93 || i == 94 || i == 95 || i == 96);
    }
}

/// The table rises: a later entry is higher.
proof fn lemma_table_rises(i: int, j: int)
    requires
        0 <= i < j < 97,
    ensures
        frequency_table()[i] < frequency_table()[j],
    decreases j - i,
{
    lemma_table_steps();
    if j > i + 1 {
        lemma_table_rises(i, j - 1);
    }
}

/// The frequency rises with the pitch: of two notes that sound, the one more semitones above
/// C0 has the higher frequency.
pub proof fn lemma_frequency_rises(n1: u8, o1: u8, n2: u8, o2: u8)
    requires
        note_frequency(n1, o1) > 0,
        note_frequency(n2, o2) > 0,
        12 * o1 + n1 < 12 * o2 + n2,
    ensures
        note_frequency(n1, o1) < note_frequency(n2, o2),
{
    let i1 = n1 as int - AN as int + 12 * (o1 as int - 4) + 48;
    let i2 = n2 as int - AN as int + 12 * (o2 as int - 4) + 48;
    lemma_table_rises(i1, i2);
}

/// One octave up doubles the frequency, up to 1 Hz of rounding.
pub proof fn lemma_octave_doubles(note: u8, octave: u8)
    requires
        octave < 255,
        note_frequency(note, octave) > 0,
        note_frequency(note, (octave + 1) as u8) > 0,
    ensures
        note_frequency(note, (octave + 1) as u8) <= 2 * note_frequency(note, octave) + 1,
        2 * note_frequency(note, octave) <= note_frequency(note, (octave + 1) as u8) + 1,
{
    lemma_table_steps();
    let i = note as int - AN as int + 12 * (octave as int - 4) + 48;
    assert(frequency_table()[i + 12] <= 2 * frequency_table()[i] + 1);
}

/// The frequency of a note (see `note_frequency`).
pub fn get_note_frequency(note: u8, octave: u8) -> (r: u32)
    ensures
        r == note_frequency(note, octave),
{
    // the pause too
    if note > BN || octave > MAX_OCTAVE {
        return 0;
    }
    let note = if note < CN {
        CN
    } else if note > BN {
        BN
    } else {
        note
    };
    let semitone_distance = (note as i32) - (AN as i32) + 12 * ((octave as i32) - 4);
    // A4 is at index 48
    let table_offset: i32 = 48;
    let idx = semitone_distance + table_offset;
    let table: [u32; 97] = [
        27u32, 29, 31, 33, 35, 37, 39, 41, 44, 46, 49, 52,
        55, 58, 62, 65, 69, 73, 78, 82, 87, 93, 98, 104,
        110, 117, 123, 131, 139, 147, 156, 165, 175, 185, 196, 208,
        220, 233, 247, 262, 277, 294, 311, 330, 349, 370, 392, 415,
        440, 466, 494, 523, 554, 587, 622, 659, 698, 740, 784, 831,
        880, 932, 988, 1047, 1109, 1175, 1245, 1319, 1397, 1480, 1568, 1661,
        1760, 1865, 1976, 2093, 2217, 2349, 2489, 2637, 2794, 2960, 3136, 3322,
        3520, 3729, 3951, 4186, 4435, 4699, 4978, 5274, 5588, 5920, 6272, 6645,
        7040,
    ];
    assert(table@ =~= frequency_table());
    if idx < 0 || idx as usize >= table.len() {
        0
    } else {
        table[idx as usize]
    }
}

/// What playing one note (or pause) queues: the tone for its length (silence when its
/// frequency is 0), a wait of that length, silence, and a wait of half a unit. The octave is
/// shifted by `octave_adjust` first.
pub open spec fn note_actions(
    note_index: u8,
    octave: u8,
    timing: u8,
    timing_unit_ms: u32,
    octave_adjust: i8,
) -> Seq<Action> {
    let octave = (octave as i8 + octave_adjust) as u8;
    let frequency = note_frequency(note_index, octave);
    let ms = (timing as nat * timing_unit_ms as nat) as u32;
    seq![
        if frequency > 0 {
            Action::Tone(frequency, ms)
        } else {
            Action::NoTone
        },
        Action::Delay(ms),
        Action::NoTone,
        Action::Delay(timing_unit_ms / 2),
    ]
}

/// Queues playing one note (see `note_actions`).
pub fn play_note(
    actions: &mut Vec<Action>,
    note_index: u8,
    octave: u8,
    timing: u8,
    timing_unit_ms: u32,
    octave_adjust: i8,
)
    requires
        timing as nat * timing_unit_ms as nat <= u32::MAX,
        i8::MIN <= octave as i8 + octave_adjust <= i8::MAX,
    ensures
        final(actions)@ == old(actions)@ + note_actions(
            note_index,
            octave,
            timing,
            timing_unit_ms,
            octave_adjust,
        ),
{
    let ghost a0 = actions@;
    let ghost given_octave = octave;
    let octave = (octave as i8 + octave_adjust) as u8;
    let frequency = get_note_frequency(note_index, octave);
    let ms = timing as u32 * timing_unit_ms;
    if frequency > 0 {
        actions.push(Action::Tone(frequency, ms));
    } else {
        actions.push(Action::NoTone);
    }
    actions.push(Action::Delay(ms));
    actions.push(Action::NoTone);
    actions.push(Action::Delay(timing_unit_ms >> 1u32));
    assert((timing_unit_ms >> 1u32) == timing_unit_ms / 2) by (bit_vector);
    assert(actions@ =~= a0 + note_actions(
        note_index,
        given_octave,
        timing,
        timing_unit_ms,
        octave_adjust,
    ));
}

/// The name shown for a note: "C", "Cs", "D", "Ds", "E", "F", "Fs", "G", "Gs", "A", "As",
/// "B"; a space for a pause.
pub open spec fn note_name(index: u8) -> Seq<u8> {
    if index == 0 {
        seq![67u8]
    } else if index == 1 {
        seq![67u8, 115]
    } else if index == 2 {
        seq![68u8]
    } else if index == 3 {
        seq![68u8, 115]
    } else if index == 4 {
        seq![69u8]
    } else if index == 5 {
        seq![70u8]
    } else if index == 6 {
        seq![70u8, 115]
    } else if index == 7 {
        seq![71u8]
    } else if index == 8 {
        seq![71u8, 115]
    } else if index == 9 {
        seq![65u8]
    } else if index == 10 {
        seq![65u8, 115]
    } else if index == 11 {
        seq![66u8]
    } else {
        seq![32u8]
    }
}

/// The name shown for a note (see `note_name`).
pub fn note_name_bytes(index: u8) -> (r: Vec<u8>)
    ensures
        r@ == note_name(index),
{
    let mut r: Vec<u8> = Vec::new();
    if index < NOTE_COUNT {
        let letter: u8 = if index <= 1 {
            67
        } else if index <= 3 {
            68
        } else if index == 4 {
            69
        } else if index <= 6 {
            70
        } else if index <= 8 {
            71
        } else if index <= 10 {
            65
        } else {
            66
        };
        r.push(letter);
        if index == 1 || index == 3 || index == 6 || index == 8 || index == 10 {
            r.push(115);
        }
    } else {
        r.push(32);
    }
    assert(r@ =~= note_name(index));
    r
}

/// The octave, note and length of a packed note.
pub open spec fn unpacked(note: u16) -> (u8, u8, u8) {
    (
        ((note & OCTAVE_MASK) >> 12u16) as u8,
        ((note & NOTE_MASK) >> 8u16) as u8,
        (note & TIMING_MASK) as u8,
    )
}

/// Where `song` ends, looking from note `i` on: the first end mark, or its length.
pub open spec fn end_from(song: Seq<u16>, i: nat) -> nat
    decreases song.len() - i,
{
    if i >= song.len() || song[i as int] == END {
        i
    } else {
        end_from(song, i + 1)
    }
}

/// Whether `acts`, from position `p` on, holds what playing packed `note` queues: its name
/// on the display, then the note itself (see `note_actions`) at units of `timing_unit_ms` with
/// the octave shifted by `octave_adjust`.
pub open spec fn note_played_at(
    acts: Seq<Action>,
    p: int,
    note: u16,
    timing_unit_ms: u32,
    octave_adjust: i8,
) -> bool {
    let (octave, index, timing) = unpacked(note);
    &&& 0 <= p
    &&& p + 5 <= acts.len()
    &&& acts[p] matches Action::PrintBytes(b) && b@ == note_name(index)
    &&& acts.subrange(p + 1, p + 5) == note_actions(
        index,
        octave,
        timing,
        timing_unit_ms,
        octave_adjust,
    )
}

/// A tune of packed notes, ending with the end mark.
pub open spec fn super_mario() -> Seq<u16> {
    seq![
    21508, 21508, 65284, 21508, 65284, 20484, 21508, 22280, 65288, 18180, 65288, 20492,
    18180, 65288, 17420, 18696, 19208, 18948, 18696, 18182, 21510, 22278, 22792, 21764,
    22276, 65284, 21512, 20484, 20996, 19212, 20492, 18180, 65288, 17420, 18696, 19208,
    18948, 18696, 18182, 21510, 22278, 22792, 21764, 22276, 65284, 21512, 20484, 20996,
    19212, 65288, 22276, 22020, 21764, 21256, 21508, 65284, 18436, 18692, 16388, 65284,
    18692, 20484, 20996, 65288, 21256, 65284, 21004, 20496, 65296, 65288, 22276, 22020,
    21764, 21256, 21508, 65284, 18436, 18692, 16388, 65284, 18692, 20484, 20996, 65288,
    21256, 65284, 21004, 20496, 65296, 20484, 20488, 20484, 65284, 20484, 21000, 21508,
    20488, 18692, 18192, 20484, 20488, 20484, 65284, 20484, 20996, 21508, 65312, 20484,
    20488, 20484, 65284, 20484, 21000, 21508, 20488, 18692, 18192, 21508, 21508, 65284,
    21508, 65284, 20484, 21512, 22280, 65288, 18184, 65288, 20492, 18180, 65288, 17420,
    18696, 19208, 18948, 18696, 18182, 21510, 22278, 22792, 21764, 22276, 65284, 21512,
    20484, 20996, 19212, 20492, 18180, 65288, 17420, 18696, 19208, 18948, 18696, 18182,
    21510, 22278, 22792, 21764, 22276, 65284, 21512, 20484, 20996, 19212, 21508, 20488,
    18180, 65288, 18440, 18692, 21768, 21764, 18704, 20998, 22790, 22790, 22790, 22278,
    21766, 21508, 20488, 18692, 18192, 21508, 20488, 18180, 65288, 18440, 18692, 21768,
    21764, 18704, 19204, 21768, 21764, 21766, 21510, 20998, 20484, 17416, 17412, 16400,
    21508, 20488, 18180, 65288, 18440, 18692, 21768, 21764, 18704, 20998, 22790, 22790,
    22790, 22278, 21766, 21508, 20488, 18692, 18192, 21508, 20488, 18180, 65288, 18440,
    18692, 21768, 21764, 18704, 19204, 21768, 21764, 21766, 21510, 20998, 20484, 17416,
    17412, 16400, 20484, 20488, 20484, 65284, 20484, 20996, 21508, 65312, 20484, 20488,
    20484, 65284, 20484, 21000, 21508, 20488, 18692, 18192, 21508, 21508, 65284, 21508,
    65284, 20484, 21512, 22280, 65288, 18184, 65288, 21508, 20488, 18180, 65288, 18440,
    18692, 21768, 21764, 18704, 20998, 22790, 22790, 22790, 22278, 21766, 21508, 20488,
    18692, 18192, 21508, 20488, 18180, 65288, 18440, 18692, 21768, 21764, 18704, 19204,
    21768, 21764, 21766, 21510, 20998, 20484, 17416, 17412, 16400, 20492, 18188, 17416,
    18694, 19206, 18694, 18438, 18950, 18438, 18180, 16900, 17432, 0,
    ]
}

/// Queues playing the tune, note by note until its end mark, at 15 ms a unit and three octaves
/// up: five actions per note (see `note_played_at`).
pub fn play_song(actions: &mut Vec<Action>)
    ensures
        final(actions)@.len() == old(actions)@.len() + 5 * end_from(super_mario(), 0),
        final(actions)@.subrange(0, old(actions)@.len() as int) == old(actions)@,
        forall|j: int|
            0 <= j < end_from(super_mario(), 0) ==> #[trigger] note_played_at(
                final(actions)@,
                old(actions)@.len() + 5 * j,
                super_mario()[j],
                15,
                3,
            ),
{
    let timing_unit_ms: u32 = 15;
    let octave_adjust: i8 = 3;
    let song: [u16; 322] = [
        21508, 21508, 65284, 21508, 65284, 20484, 21508, 22280, 65288, 18180, 65288, 20492,
        18180, 65288, 17420, 18696, 19208, 18948, 18696, 18182, 21510, 22278, 22792, 21764,
        22276, 65284, 21512, 20484, 20996, 19212, 20492, 18180, 65288, 17420, 18696, 19208,
        18948, 18696, 18182, 21510, 22278, 22792, 21764, 22276, 65284, 21512, 20484, 20996,
        19212, 65288, 22276, 22020, 21764, 21256, 21508, 65284, 18436, 18692, 16388, 65284,
        18692, 20484, 20996, 65288, 21256, 65284, 21004, 20496, 65296, 65288, 22276, 22020,
        21764, 21256, 21508, 65284, 18436, 18692, 16388, 65284, 18692, 20484, 20996, 65288,
        21256, 65284, 21004, 20496, 65296, 20484, 20488, 20484, 65284, 20484, 21000, 21508,
        20488, 18692, 18192, 20484, 20488, 20484, 65284, 20484, 20996, 21508, 65312, 20484,
        20488, 20484, 65284, 20484, 21000, 21508, 20488, 18692, 18192, 21508, 21508, 65284,
        21508, 65284, 20484, 21512, 22280, 65288, 18184, 65288, 20492, 18180, 65288, 17420,
        18696, 19208, 18948, 18696, 18182, 21510, 22278, 22792, 21764, 22276, 65284, 21512,
        20484, 20996, 19212, 20492, 18180, 65288, 17420, 18696, 19208, 18948, 18696, 18182,
        21510, 22278, 22792, 21764, 22276, 65284, 21512, 20484, 20996, 19212, 21508, 20488,
        18180, 65288, 18440, 18692, 21768, 21764, 18704, 20998, 22790, 22790, 22790, 22278,
        21766, 21508, 20488, 18692, 18192, 21508, 20488, 18180, 65288, 18440, 18692, 21768,
        21764, 18704, 19204, 21768, 21764, 21766, 21510, 20998, 20484, 17416, 17412, 16400,
        21508, 20488, 18180, 65288, 18440, 18692, 21768, 21764, 18704, 20998, 22790, 22790,
        22790, 22278, 21766, 21508, 20488, 18692, 18192, 21508, 20488, 18180, 65288, 18440,
        18692, 21768, 21764, 18704, 19204, 21768, 21764, 21766, 21510, 20998, 20484, 17416,
        17412, 16400, 20484, 20488, 20484, 65284, 20484, 20996, 21508, 65312, 20484, 20488,
        20484, 65284, 20484, 21000, 21508, 20488, 18692, 18192, 21508, 21508, 65284, 21508,
        65284, 20484, 21512, 22280, 65288, 18184, 65288, 21508, 20488, 18180, 65288, 18440,
        18692, 21768, 21764, 18704, 20998, 22790, 22790, 22790, 22278, 21766, 21508, 20488,
        18692, 18192, 21508, 20488, 18180, 65288, 18440, 18692, 21768, 21764, 18704, 19204,
        21768, 21764, 21766, 21510, 20998, 20484, 17416, 17412, 16400, 20492, 18188, 17416,
        18694, 19206, 18694, 18438, 18950, 18438, 18180, 16900, 17432, 0,
    ];
    assert(song@ =~= super_mario());
    let ghost a0 = actions@;
    let mut note_index: usize = 0;
    loop
        invariant
            note_index <= song@.len(),
            song@ == super_mario(),
            timing_unit_ms == 15,
            octave_adjust == 3,
            end_from(song@, 0) == end_from(song@, note_index as nat),
            actions@.len() == a0.len() + 5 * note_index,
            actions@.subrange(0, a0.len() as int) == a0,
            forall|j: int|
                0 <= j < note_index ==> #[trigger] note_played_at(
                    actions@,
                    a0.len() + 5 * j,
                    song@[j],
                    timing_unit_ms,
                    octave_adjust,
                ),
        ensures
            end_from(song@, 0) == note_index,
            actions@.len() == a0.len() + 5 * note_index,
            actions@.subrange(0, a0.len() as int) == a0,
            forall|j: int|
                0 <= j < note_index ==> #[trigger] note_played_at(
                    actions@,
                    a0.len() + 5 * j,
                    song@[j],
                    timing_unit_ms,
                    octave_adjust,
                ),
        decreases song@.len() - note_index,
    {
        if note_index >= song.len() {
            break;
        }
        let note = song[note_index];
        if note == END {
            break;
        }
        let octave = ((note & OCTAVE_MASK) >> 12u16) as u8;
        let index = ((note & NOTE_MASK) >> 8u16) as u8;
        let timing = (note & TIMING_MASK) as u8;
        assert((note & OCTAVE_MASK) >> 12u16 < 16) by (bit_vector);
        let ghost before = actions@;
        actions.push(Action::PrintBytes(note_name_bytes(index)));
        play_note(actions, index, octave, timing, timing_unit_ms, octave_adjust);
        proof {
            let p = a0.len() + 5 * note_index;
            assert(actions@.subrange(p + 1, p + 5) =~= note_actions(
                index,
                octave,
                timing,
                timing_unit_ms,
                octave_adjust,
            ));
            assert(note_played_at(actions@, p, note, timing_unit_ms, octave_adjust));
            assert forall|j: int| 0 <= j < note_index implies #[trigger] note_played_at(
                actions@,
                a0.len() + 5 * j,
                song@[j],
                timing_unit_ms,
                octave_adjust,
            ) by {
                assert(note_played_at(
                    before,
                    a0.len() + 5 * j,
                    song@[j],
                    timing_unit_ms,
                    octave_adjust,
                ));
                let q = a0.len() + 5 * j;
                assert(actions@[q] == before[q]);
                assert(actions@.subrange(q + 1, q + 5) =~= before.subrange(q + 1, q + 5));
            }
            assert(actions@.subrange(0, a0.len() as int) =~= before.subrange(0, a0.len() as int));
        }
        note_index = note_index + 1;
    }
}

/// Unpacking a packed note gives back its octave, note and length.
pub proof fn lemma_pack_round_trip(note: u8, octave: u8, timing: u8)
    requires
        note < 16,
        octave < 16,
    ensures
        unpacked(packed(note, octave, timing)) == (octave, note, timing),
{
    let o = octave as u16;
    let t = note as u16;
    let l = timing as u16;
    let p = (o << 12u16) | (t << 8u16) | l;
    assert(((p & 0xF000u16) >> 12u16) == o && ((p & 0x0F00u16) >> 8u16) == t && (p & 0x00FFu16)
        == l) by (bit_vector)
        requires
            p == (o << 12u16) | (t << 8u16) | l,
            o < 16,
            t < 16,
            l < 256,
    ;
}

/// Where the first end mark of `song` at or after `i` stands at `e`, the song ends there.
proof fn lemma_end_at(song: Seq<u16>, i: nat, e: nat)
    requires
        i <= e < song.len(),
        song[e as int] == END,
        forall|j: int| i <= j < e ==> song[j] != END,
    ensures
        end_from(song, i) == e,
    decreases e - i,
{
    if i < e {
        lemma_end_at(song, i + 1, e);
    }
}

/// The tune is 321 notes long: its end mark is its last entry, and no earlier entry is one.
pub proof fn lemma_tune_length()
    ensures
        super_mario().len() == 322,
        end_from(super_mario(), 0) == 321,
{
    let s = super_mario();
    assert(s.len() == 322);
    assert forall|j: int| 0 <= j < 321 implies s[j] != END by {
        assert(s[j] >= 16388);
    }
    lemma_end_at(s, 0, 321);
}

} // verus!
