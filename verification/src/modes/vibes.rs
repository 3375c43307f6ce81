use super::tunnel::{pow2_7, tunnel_bits, virt_index};
use super::{appended_cols, show_cols, Context, Peripherals};
use crate::colbuf::{col_contents, col_get, col_new, col_push, col_remove, ColBuf};
use crate::input::InputEvent;
use crate::random::{advanced_by, drawn_u8, lemma_advanced_trans, Rng};
use crate::{CHAR_WIDTH, COLUMN_GAP, NUM_COLS, NUM_ROWS, NUM_VIRT_COLS};
use vstd::prelude::*;

verus! {

/// Cycles per cloud column at the start.
pub const DEFAULT_SKY_PERIOD: u8 = 7;

/// Cycles per mountain column at the start.
pub const DEFAULT_EARTH_PERIOD: u8 = 3;

/// The slowest pace, in cycles per column.
pub const MAX_PERIOD: u8 = 30;

/// A column of open sky: all seven rows lit, as clouds and mountains are drawn dark.
pub const SKY_COL: u8 = 0b0111_1111;

/// Which layer the buttons pace.
#[derive(Clone, Copy, Debug, PartialEq, Eq, Structural)]
pub enum Vibe {
    Clouds,
    Mountains,
}

/// The generator of clouds: the sky columns still to pass before the next cloud, and the cloud
/// itself (its top row, its height, its length, and how much of it was drawn).
#[derive(Clone, Copy, Debug, PartialEq, Eq, Structural)]
pub struct CloudState {
    pub loc: u8,
    pub gap: u8,
    pub cur_length: u8,
    pub height: u8,
    pub length: u8,
}

/// The generator of mountains: the current height and how far into the mountain it is, the
/// mountain's peak and length, and whether the slope goes up (1), down (-1) or stays (0).
#[derive(Clone, Copy, Debug, PartialEq, Eq, Structural)]
pub struct MountainState {
    pub cur_height: u8,
    pub cur_length: u8,
    pub height: u8,
    pub length: u8,
    pub increment: i8,
}

/// The next cloud drawn from the bytes of `r` from byte `base` on: 1 to 10 columns of sky
/// before it, its top row in 1..6, 2 or 3 rows high (a high cloud low down moves four rows
/// up), and 6 to 15 columns long. It takes four bytes.
pub open spec fn cloud_drawn(c: CloudState, r: Rng, base: nat) -> CloudState {
    let gap = (drawn_u8(r, base) % 10 + 1) as u8;
    let loc = (1 + drawn_u8(r, base + 1) % ((NUM_ROWS - 2) as u8)) as u8;
    let height = (2 + drawn_u8(r, base + 2) % 2) as u8;
    let length = (6 + drawn_u8(r, base + 3) % 10) as u8;
    CloudState {
        gap,
        loc: if height == 3 && loc > 4 {
            (loc - 4) as u8
        } else {
            loc
        },
        height,
        length,
        ..c
    }
}

/// The column of a cloud with rows `loc .. loc + height` dark. The seven shifts that build it
/// from a sky column leave the lowest sky bit in bit 7.
pub open spec fn cloud_col(loc: u8, height: u8) -> u8 {
    (128 + tunnel_bits(loc, height, NUM_ROWS as nat)) as u8
}

/// The generator after one column from the bytes of `r` from byte `base` on, the column, and
/// how many bytes it took: sky while the gap lasts, then the cloud's columns, then a new cloud
/// is drawn (see `cloud_drawn`) behind one more column of sky.
#[verifier::opaque]
pub open spec fn cloud_step(c: CloudState, r: Rng, base: nat) -> (CloudState, u8, nat) {
    if c.gap > 0 {
        (CloudState { gap: (c.gap - 1) as u8, ..c }, SKY_COL, 0)
    } else if c.cur_length < c.length {
        (CloudState { cur_length: (c.cur_length + 1) as u8, ..c }, cloud_col(c.loc, c.height), 0)
    } else {
        (cloud_drawn(CloudState { cur_length: 0, ..c }, r, base), SKY_COL, 4)
    }
}

/// The next mountain drawn from the bytes of `r` from byte `base` on, from the current height:
/// a peak of 4 to 6 rows and a length of the peak plus 1 plus the mean of two draws up to the
/// peak. It takes three bytes.
pub open spec fn mountain_drawn(m: MountainState, r: Rng, base: nat) -> MountainState {
    let height = (4 + drawn_u8(r, base) % 3) as u8;
    let a = drawn_u8(r, base + 1) % (height + 1) as u8;
    let b = drawn_u8(r, base + 2) % (height + 1) as u8;
    MountainState {
        cur_length: 0,
        height,
        length: (height + 1 + (a + b) / 2) as u8,
        increment: 1,
        ..m
    }
}

/// The generator after one column from the bytes of `r` from byte `base` on, the column, and
/// how many bytes it took: the height moves by the slope and the column shows it (a sky column
/// shifted down by the height); the slope turns down at the peak and flat at the ground; once
/// not climbing and at its length, a new mountain starts (see `mountain_drawn`).
#[verifier::opaque]
pub open spec fn mountain_step(m: MountainState, r: Rng, base: nat) -> (MountainState, u8, nat) {
    let h = (m.cur_height + m.increment) as u8;
    let m1 = MountainState { cur_height: h, cur_length: (m.cur_length + 1) as u8, ..m };
    let m2 = if m1.increment > 0 && m1.cur_height >= m1.height {
        MountainState { increment: -1i8, ..m1 }
    } else {
        m1
    };
    let m3 = if m2.increment < 0 && m2.cur_height == 0 {
        MountainState { increment: 0i8, ..m2 }
    } else {
        m2
    };
    let col = (SKY_COL >> h) as u8;
    if m3.increment <= 0 && m3.cur_length == m3.length {
        (mountain_drawn(m3, r, base), col, 3)
    } else {
        (m3, col, 0)
    }
}

impl CloudState {
    /// The first cloud comes after one column of sky.
    pub fn new() -> (r: Self)
        ensures
            r == (CloudState { loc: 0, gap: 1, cur_length: 0, length: 0, height: 0 }),
    {
        CloudState { loc: 0, gap: 1, cur_length: 0, length: 0, height: 0 }
    }

    /// Draws the next cloud (see `cloud_drawn`).
    pub fn next_cloud(&mut self, rng: &mut Rng)
        ensures
            *final(self) == cloud_drawn(*old(self), *old(rng), 0),
            advanced_by(*old(rng), *final(rng), 4),
            final(self).loc + final(self).height <= NUM_ROWS,
    {
        let ghost r0 = *rng;
        self.gap = rng.get_u8() % 10 + 1;
        let ghost r1 = *rng;
        self.loc = 1 + rng.get_u8() % (NUM_ROWS as u8 - 2);
        let ghost r2 = *rng;
        proof {
            lemma_advanced_trans(r0, r1, r2, 1, 1);
        }
        self.height = 2 + rng.get_u8() % 2;
        let ghost r3 = *rng;
        proof {
            lemma_advanced_trans(r0, r2, r3, 2, 1);
        }
        self.length = 6 + rng.get_u8() % 10;
        proof {
            lemma_advanced_trans(r0, r3, *rng, 3, 1);
        }
        if self.height == 3 && self.loc > 4 {
            self.loc = self.loc - 4;
        }
    }

    /// The next column of the sky (see `cloud_step`).
    pub fn next_col(&mut self, rng: &mut Rng) -> (r: u8)
        requires
            old(self).loc + old(self).height <= NUM_ROWS,
        ensures
            (*final(self), r) == ({
                let (c, col, k) = cloud_step(*old(self), *old(rng), 0);
                (c, col)
            }),
            final(self).loc + final(self).height <= NUM_ROWS,
            if cloud_step(*old(self), *old(rng), 0).2 == 0 {
                *final(rng) == *old(rng)
            } else {
                advanced_by(*old(rng), *final(rng), cloud_step(*old(self), *old(rng), 0).2)
            },
    {
        proof {
            reveal(cloud_step);
        }
        let mut col = SKY_COL;
        if self.gap > 0 {
            self.gap = self.gap - 1;
        } else if self.cur_length < self.length {
            let mut i: usize = 0;
            while i < NUM_ROWS
                invariant
                    i <= NUM_ROWS,
                    self.loc + self.height <= NUM_ROWS,
                    col as nat == sky_shifted(i as nat) + tunnel_bits(
                        self.loc,
                        self.height,
                        i as nat,
                    ),
                    tunnel_bits(self.loc, self.height, i as nat) < pow2_7(i as nat),
                decreases NUM_ROWS - i,
            {
                let bit: u8 = if (i as u8) >= self.loc && (i as u8) < self.loc + self.height {
                    0
                } else {
                    1
                };
                proof {
                    lemma_sky_shift(
                        i as nat,
                        col,
                        bit,
                        tunnel_bits(self.loc, self.height, i as nat),
                    );
                }
                col = col << 1u8 | bit;
                i = i + 1;
            }
            self.cur_length = self.cur_length + 1;
        } else {
            self.cur_length = 0;
            self.next_cloud(rng);
        }
        col
    }
}

impl MountainState {
    /// The generator keeps its numbers small enough: the slope is 1, 0 or -1; climbing, the
    /// peak comes before the length runs out; going down, it is above the ground; flat, it is
    /// on the ground; and not climbing, the length is not reached yet.
    pub open spec fn inv(&self) -> bool {
        &&& self.cur_height <= 7
        &&& self.height <= 7
        &&& self.length <= 15
        &&& self.increment == 1 ==> {
            &&& self.cur_height <= 6
            &&& self.cur_length + (if self.cur_height < self.height {
                self.height - self.cur_height
            } else {
                1
            }) < self.length
        }
        &&& self.increment == -1 ==> self.cur_height >= 1 && self.cur_length < self.length
        &&& self.increment == 0 ==> self.cur_height == 0 && self.cur_length < self.length
        &&& -1 <= self.increment <= 1
    }

    /// A first mountain of 7 rows and 15 columns, climbing from the ground.
    pub fn new() -> (r: Self)
        ensures
            r.inv(),
            r == (MountainState {
                cur_height: 0,
                cur_length: 0,
                height: 7,
                length: 15,
                increment: 1,
            }),
    {
        MountainState { cur_height: 0, cur_length: 0, height: 7, length: 15, increment: 1 }
    }

    /// Draws the next mountain from the current height (see `mountain_drawn`).
    pub fn next_mountain(&mut self, rng: &mut Rng)
        ensures
            *final(self) == mountain_drawn(*old(self), *old(rng), 0),
            advanced_by(*old(rng), *final(rng), 3),
            4 <= final(self).height <= 6,
            final(self).height + 1 <= final(self).length <= 2 * final(self).height + 1,
    {
        let ghost r0 = *rng;
        // the current height stays
        self.cur_length = 0;
        // height in 4..=6
        self.height = 4 + rng.get_u8() % 3;
        let ghost r1 = *rng;
        let a = rng.get_u8() % (self.height + 1);
        let ghost r2 = *rng;
        proof {
            lemma_advanced_trans(r0, r1, r2, 1, 1);
        }
        let b = rng.get_u8() % (self.height + 1);
        proof {
            lemma_advanced_trans(r0, r2, *rng, 2, 1);
        }
        // two draws make lengths near the middle likelier
        self.length = self.height + 1 + (a + b) / 2;
        self.increment = 1;
    }

    /// The next column of the mountains (see `mountain_step`).
    pub fn next_col(&mut self, rng: &mut Rng) -> (r: u8)
        requires
            old(self).inv(),
        ensures
            final(self).inv(),
            (*final(self), r) == ({
                let (m, col, k) = mountain_step(*old(self), *old(rng), 0);
                (m, col)
            }),
            if mountain_step(*old(self), *old(rng), 0).2 == 0 {
                *final(rng) == *old(rng)
            } else {
                advanced_by(*old(rng), *final(rng), mountain_step(*old(self), *old(rng), 0).2)
            },
    {
        proof {
            reveal(mountain_step);
        }
        self.cur_height = (self.cur_height as i8 + self.increment) as u8;
        self.cur_length = self.cur_length + 1;

        // shift in dark rows from the bottom up to the current height
        let mut col = SKY_COL;
        let mut i: u8 = 0;
        assert(SKY_COL >> 0u8 == SKY_COL) by (bit_vector);
        while i < self.cur_height
            invariant
                i <= self.cur_height <= 7,
                col == SKY_COL >> i,
            decreases self.cur_height - i,
        {
            proof {
                assert((SKY_COL >> i) >> 1u8 == SKY_COL >> ((i + 1) as u8)) by (bit_vector)
                    requires
                        i < 7,
                ;
            }
            col = col >> 1u8;
            i = i + 1;
        }

        // start going down
        if self.increment > 0 && self.cur_height >= self.height {
            self.increment = -1;
        }
        // stop going down
        if self.increment < 0 && self.cur_height == 0 {
            self.increment = 0;
        }
        // start a new mountain
        if self.increment <= 0 && self.cur_length == self.length {
            self.next_mountain(rng);
        }
        col
    }
}

/// The sky column after `i` left shifts within 8 bits, as a number.
pub open spec fn sky_shifted(i: nat) -> nat {
    if i == 0 {
        127
    } else if i == 1 {
        254
    } else if i == 2 {
        252
    } else if i == 3 {
        248
    } else if i == 4 {
        240
    } else if i == 5 {
        224
    } else if i == 6 {
        192
    } else {
        128
    }
}

/// One more shift of the cloud column under construction, whose low `i` bits hold `tb`.
proof fn lemma_sky_shift(i: nat, col: u8, bit: u8, tb: nat)
    requires
        i < 7,
        bit < 2,
        col as nat == sky_shifted(i) + tb,
        tb < pow2_7(i),
    ensures
        ((col << 1u8) | bit) as nat == sky_shifted(i + 1) + 2 * tb + bit,
        2 * tb + bit < pow2_7(i + 1),
{
    assert(((col << 1u8) | bit) as nat == (2 * col as nat) % 256 + bit) by (bit_vector)
        requires
            bit < 2,
    ;
    reveal_with_fuel(pow2_7, 8);
}

/// A parallax drive under clouds and past mountains.
pub struct Vibes {
    pub last_update: u16,
    pub cur_vibe: Vibe,
    pub cloud_cols: ColBuf,
    pub cloud_counter: u8,
    pub cloud_period: u8,
    pub cloud_state: CloudState,
    pub earth_cols: ColBuf,
    pub earth_counter: u8,
    pub earth_period: u8,
    pub earth_state: MountainState,
}

/// The scenery as plain values.
pub struct VibesModel {
    pub cur_vibe: Vibe,
    pub cloud_cols: Seq<u8>,
    pub cloud_counter: u8,
    pub cloud_period: u8,
    pub cloud_state: CloudState,
    pub earth_cols: Seq<u8>,
    pub earth_counter: u8,
    pub earth_period: u8,
    pub earth_state: MountainState,
}

impl Vibes {
    /// The scenery as plain values.
    pub open spec fn model(&self) -> VibesModel {
        VibesModel {
            cur_vibe: self.cur_vibe,
            cloud_cols: col_contents(self.cloud_cols),
            cloud_counter: self.cloud_counter,
            cloud_period: self.cloud_period,
            cloud_state: self.cloud_state,
            earth_cols: col_contents(self.earth_cols),
            earth_counter: self.earth_counter,
            earth_period: self.earth_period,
            earth_state: self.earth_state,
        }
    }
}

/// The scenery keeps its buffers, paces and generators within range.
pub open spec fn vibes_inv(m: VibesModel) -> bool {
    &&& m.cloud_cols.len() == NUM_VIRT_COLS
    &&& m.earth_cols.len() == NUM_VIRT_COLS
    &&& 1 <= m.cloud_period <= MAX_PERIOD
    &&& 1 <= m.earth_period <= MAX_PERIOD
    &&& m.cloud_counter < MAX_PERIOD
    &&& m.earth_counter < MAX_PERIOD
    &&& m.cloud_state.loc + m.cloud_state.height <= NUM_ROWS
    &&& m.earth_state.inv()
}

/// The scenery after a button event other than holding left: holding right switches the layer
/// that the releases pace; a left release slows that layer down (to at most `MAX_PERIOD` cycles
/// per column) and a right release speeds it up (to at least one).
pub open spec fn vibes_event(m: VibesModel, event: Option<InputEvent>) -> VibesModel {
    match event {
        Some(InputEvent::RightHeld) => VibesModel {
            cur_vibe: if m.cur_vibe == Vibe::Clouds {
                Vibe::Mountains
            } else {
                Vibe::Clouds
            },
            ..m
        },
        Some(InputEvent::LeftReleased) => if m.cur_vibe == Vibe::Clouds {
            VibesModel {
                cloud_period: if m.cloud_period < MAX_PERIOD {
                    (m.cloud_period + 1) as u8
                } else {
                    m.cloud_period
                },
                ..m
            }
        } else {
            VibesModel {
                earth_period: if m.earth_period < MAX_PERIOD {
                    (m.earth_period + 1) as u8
                } else {
                    m.earth_period
                },
                ..m
            }
        },
        Some(InputEvent::RightReleased) => if m.cur_vibe == Vibe::Clouds {
            VibesModel {
                cloud_period: if m.cloud_period > 1 {
                    (m.cloud_period - 1) as u8
                } else {
                    m.cloud_period
                },
                ..m
            }
        } else {
            VibesModel {
                earth_period: if m.earth_period > 1 {
                    (m.earth_period - 1) as u8
                } else {
                    m.earth_period
                },
                ..m
            }
        },
        _ => m,
    }
}

/// The scenery after the cloud timer of one cycle with the bytes of `r`, whether the clouds
/// moved, and how many bytes it took: every `cloud_period` cycles a cloud column scrolls in
/// (see `cloud_step`).
pub open spec fn cloud_tick(m: VibesModel, r: Rng) -> (VibesModel, bool, nat) {
    let cc = ((m.cloud_counter + 1) % (m.cloud_period as int)) as u8;
    if cc == 0 {
        let (cs, col, k) = cloud_step(m.cloud_state, r, 0);
        (
            VibesModel {
                cloud_counter: 0,
                cloud_state: cs,
                cloud_cols: m.cloud_cols.drop_first().push(col),
                ..m
            },
            true,
            k,
        )
    } else {
        (VibesModel { cloud_counter: cc, ..m }, false, 0nat)
    }
}

/// The scenery after the mountain timer of one cycle with the bytes of `r` from byte `base`
/// on, whether the mountains moved, and how many bytes it took: every `earth_period` cycles a
/// mountain column scrolls in (see `mountain_step`).
pub open spec fn earth_tick(m: VibesModel, r: Rng, base: nat) -> (VibesModel, bool, nat) {
    let ec = ((m.earth_counter + 1) % (m.earth_period as int)) as u8;
    if ec == 0 {
        let (es, col, k) = mountain_step(m.earth_state, r, base);
        (
            VibesModel {
                earth_counter: 0,
                earth_state: es,
                earth_cols: m.earth_cols.drop_first().push(col),
                ..m
            },
            true,
            k,
        )
    } else {
        (VibesModel { earth_counter: ec, ..m }, false, 0nat)
    }
}

/// The scenery after the timers of one cycle with the bytes of `r`, whether a layer moved, and
/// how many bytes it took: the clouds first (see `cloud_tick`), then the mountains (see
/// `earth_tick`) with the bytes after those of the clouds.
pub open spec fn vibes_tick(m: VibesModel, r: Rng) -> (VibesModel, bool, nat) {
    let (m1, u1, k1) = cloud_tick(m, r);
    let (m2, u2, k2) = earth_tick(m1, r, k1);
    (m2, u1 || u2, k1 + k2)
}

/// The display columns: where clouds or mountains are, the sky is dark.
pub open spec fn vibes_frame(m: VibesModel) -> Seq<u8> {
    Seq::new(
        NUM_COLS as nat,
        |o: int| m.cloud_cols[virt_index(o)] & m.earth_cols[virt_index(o)],
    )
}

/// Reading bytes further on gives the same mountain as reading them from an earlier point.
pub proof fn lemma_mountain_step_shift(m: MountainState, r0: Rng, r1: Rng, a: nat)
    requires
        forall|k: nat| #[trigger] drawn_u8(r1, k) == drawn_u8(r0, a + k),
    ensures
        mountain_step(m, r1, 0) == mountain_step(m, r0, a),
{
    reveal(mountain_step);
    assert(drawn_u8(r1, 0) == drawn_u8(r0, a + 0));
    assert(drawn_u8(r1, 1) == drawn_u8(r0, a + 1));
    assert(drawn_u8(r1, 2) == drawn_u8(r0, a + 2));
}

/// A buffer of `NUM_VIRT_COLS` sky columns.
fn sky_cols() -> (r: ColBuf)
    ensures
        col_contents(r) == Seq::new(NUM_VIRT_COLS as nat, |i: int| SKY_COL),
{
    let mut buf = col_new();
    let mut i: usize = 0;
    assert(col_contents(buf) =~= Seq::new(0, |t: int| SKY_COL));
    while i < NUM_VIRT_COLS
        invariant
            i <= NUM_VIRT_COLS,
            col_contents(buf) == Seq::new(i as nat, |t: int| SKY_COL),
        decreases NUM_VIRT_COLS - i,
    {
        let _ = col_push(&mut buf, SKY_COL);
        i = i + 1;
        assert(col_contents(buf) =~= Seq::new(i as nat, |t: int| SKY_COL));
    }
    buf
}

impl Vibes {
    /// A clear sky over flat ground, pacing the mountains.
    pub fn new() -> (r: Self)
        ensures
            vibes_inv(r.model()),
            r.last_update == 0,
            r.model() == (VibesModel {
                cur_vibe: Vibe::Mountains,
                cloud_cols: Seq::new(NUM_VIRT_COLS as nat, |i: int| SKY_COL),
                cloud_counter: 0,
                cloud_period: DEFAULT_SKY_PERIOD,
                cloud_state: CloudState { loc: 0, gap: 1, cur_length: 0, length: 0, height: 0 },
                earth_cols: Seq::new(NUM_VIRT_COLS as nat, |i: int| SKY_COL),
                earth_counter: 0,
                earth_period: DEFAULT_EARTH_PERIOD,
                earth_state: MountainState {
                    cur_height: 0,
                    cur_length: 0,
                    height: 7,
                    length: 15,
                    increment: 1,
                },
            }),
    {
        let cloud_cols = sky_cols();
        let cloud_state = CloudState::new();
        let earth_cols = sky_cols();
        let earth_state = MountainState::new();
        Vibes {
            last_update: 0,
            cur_vibe: Vibe::Mountains,
            cloud_cols,
            cloud_counter: 0,
            cloud_period: DEFAULT_SKY_PERIOD,
            cloud_state,
            earth_cols,
            earth_counter: 0,
            earth_period: DEFAULT_EARTH_PERIOD,
            earth_state,
        }
    }

    /// The timers of one cycle (see `vibes_tick`); gives whether a layer moved.
    fn tick(&mut self, rng: &mut Rng) -> (r: bool)
        requires
            vibes_inv(old(self).model()),
        ensures
            vibes_inv(final(self).model()),
            final(self).last_update == old(self).last_update,
            ({
                let (m, u, k) = vibes_tick(old(self).model(), *old(rng));
                &&& final(self).model() == m
                &&& r == u
                &&& if k == 0 {
                    *final(rng) == *old(rng)
                } else {
                    advanced_by(*old(rng), *final(rng), k)
                }
            }),
    {
        let ghost r0 = *rng;
        let u1 = self.tick_clouds(rng);
        let ghost r1 = *rng;
        let ghost m1 = self.model();
        let ghost k1 = cloud_tick(old(self).model(), r0).2;
        let u2 = self.tick_earth(rng);
        proof {
            let k2 = earth_tick(m1, r1, 0).2;
            if k1 > 0 {
                if k2 > 0 {
                    lemma_advanced_trans(r0, r1, *rng, k1, k2);
                } else {
                    lemma_advanced_trans(r0, r1, r1, k1, 0);
                }
                lemma_mountain_step_shift(m1.earth_state, r0, r1, k1);
            }
            assert(earth_tick(m1, r1, 0) == earth_tick(m1, r0, k1));
        }
        u1 || u2
    }

    /// The cloud timer of one cycle (see `cloud_tick`); gives whether the clouds moved.
    fn tick_clouds(&mut self, rng: &mut Rng) -> (r: bool)
        requires
            vibes_inv(old(self).model()),
        ensures
            vibes_inv(final(self).model()),
            final(self).last_update == old(self).last_update,
            ({
                let (m, u, k) = cloud_tick(old(self).model(), *old(rng));
                &&& final(self).model() == m
                &&& r == u
                &&& if k == 0 {
                    *final(rng) == *old(rng)
                } else {
                    advanced_by(*old(rng), *final(rng), k)
                }
            }),
    {
        let ghost c0 = col_contents(self.cloud_cols);
        self.cloud_counter = ((self.cloud_counter as u16 + 1) % self.cloud_period as u16) as u8;
        if self.cloud_counter == 0 {
            let new_cloud_col = self.cloud_state.next_col(rng);
            let _ = col_remove(&mut self.cloud_cols, 0);
            let _ = col_push(&mut self.cloud_cols, new_cloud_col);
            assert(col_contents(self.cloud_cols) =~= c0.drop_first().push(new_cloud_col));
            true
        } else {
            false
        }
    }

    /// The mountain timer of one cycle (see `earth_tick`); gives whether the mountains moved.
    fn tick_earth(&mut self, rng: &mut Rng) -> (r: bool)
        requires
            vibes_inv(old(self).model()),
        ensures
            vibes_inv(final(self).model()),
            final(self).last_update == old(self).last_update,
            ({
                let (m, u, k) = earth_tick(old(self).model(), *old(rng), 0);
                &&& final(self).model() == m
                &&& r == u
                &&& if k == 0 {
                    *final(rng) == *old(rng)
                } else {
                    advanced_by(*old(rng), *final(rng), k)
                }
            }),
    {
        let ghost e0 = col_contents(self.earth_cols);
        self.earth_counter = ((self.earth_counter as u16 + 1) % self.earth_period as u16) as u8;
        if self.earth_counter == 0 {
            let new_earth_col = self.earth_state.next_col(rng);
            let _ = col_remove(&mut self.earth_cols, 0);
            let _ = col_push(&mut self.earth_cols, new_earth_col);
            assert(col_contents(self.earth_cols) =~= e0.drop_first().push(new_earth_col));
            true
        } else {
            false
        }
    }

    /// The frame of the scenery.
    fn render(&self) -> (cols: ColBuf)
        requires
            vibes_inv(self.model()),
        ensures
            col_contents(cols) == vibes_frame(self.model()),
    {
        let ghost m = self.model();
        let mut cols = col_new();
        let mut i: usize = 0;
        while i < NUM_VIRT_COLS
            invariant
                i <= NUM_VIRT_COLS,
                m == self.model(),
                vibes_inv(m),
                col_contents(cols).len() == (i / 7) * 5 + if i % 7 < 5 {
                    i % 7
                } else {
                    5
                },
                forall|o: int| 0 <= o < col_contents(cols).len() ==> #[trigger] col_contents(cols)[o] == vibes_frame(m)[o],
            decreases NUM_VIRT_COLS - i,
        {
            if i % (CHAR_WIDTH + COLUMN_GAP) < CHAR_WIDTH {
                let cloud_col = match col_get(&self.cloud_cols, i) {
                    Some(c) => c,
                    None => 0,
                };
                let earth_col = match col_get(&self.earth_cols, i) {
                    Some(c) => c,
                    None => 0,
                };
                proof {
                    let o = col_contents(cols).len() as int;
                    assert(o < 40) by (nonlinear_arith)
                        requires
                            o == (i / 7) * 5 + i % 7,
                            i < 54,
                    ;
                    assert(virt_index(o) == i) by (nonlinear_arith)
                        requires
                            o == (i / 7) * 5 + i % 7,
                            i % 7 < 5,
                    ;
                }
                let _ = col_push(&mut cols, cloud_col & earth_col);
            }
            i = i + 1;
        }
        assert(col_contents(cols) =~= vibes_frame(m));
        cols
    }

    /// One cycle of the scenery: holding left goes back to the menu; other events change the
    /// pace or the paced layer (see `vibes_event`) and ask for a frame; then the layers move
    /// (see `vibes_tick`). The frame is shown after any event or move, or when the menu was
    /// entered since the last frame.
    pub fn update(
        &mut self,
        event: Option<InputEvent>,
        context: &mut Context,
        peripherals: &mut Peripherals,
    )
        requires
            vibes_inv(old(self).model()),
        ensures
            update_post(
                *old(self),
                *final(self),
                event,
                *old(context),
                *final(context),
                *old(peripherals),
                *final(peripherals),
            ),
    {
        let mut update = context.needs_update(&mut self.last_update);

        if let Some(event) = event {
            update = true;
            match event {
                InputEvent::LeftHeld => {
                    context.to_menu();
                    return ;
                },
                InputEvent::RightHeld => match self.cur_vibe {
                    Vibe::Clouds => self.cur_vibe = Vibe::Mountains,
                    Vibe::Mountains => self.cur_vibe = Vibe::Clouds,
                },
                InputEvent::LeftReleased => match self.cur_vibe {
                    Vibe::Clouds => {
                        if self.cloud_period < MAX_PERIOD {
                            self.cloud_period = self.cloud_period + 1;
                        }
                    },
                    Vibe::Mountains => {
                        if self.earth_period < MAX_PERIOD {
                            self.earth_period = self.earth_period + 1;
                        }
                    },
                },
                InputEvent::RightReleased => match self.cur_vibe {
                    Vibe::Clouds => {
                        if self.cloud_period > 1 {
                            self.cloud_period = self.cloud_period - 1;
                        }
                    },
                    Vibe::Mountains => {
                        if self.earth_period > 1 {
                            self.earth_period = self.earth_period - 1;
                        }
                    },
                },
                _ => {},
            }
        }
        assert(self.model() == vibes_event(old(self).model(), event));

        if self.tick(&mut peripherals.rng) {
            update = true;
        }

        if update {
            let cols = self.render();
            show_cols(&mut peripherals.actions, cols);
        }
    }
}

/// One cycle of `Vibes::update`: the mode `s0` becomes `s1`, the context `c0` becomes `c1` and
/// the peripherals `p0` become `p1` on `event`.
pub open spec fn update_post(
    s0: Vibes,
    s1: Vibes,
    event: Option<InputEvent>,
    c0: Context,
    c1: Context,
    p0: Peripherals,
    p1: Peripherals,
) -> bool {
    &&& vibes_inv(s1.model())
    &&& s1.last_update == c0.menu_counter
    &&& p1.adc == p0.adc
    &&& c1.tone_enabled == c0.tone_enabled
    &&& c1.settings == c0.settings
    &&& event == Some(InputEvent::LeftHeld) ==> {
        &&& c1.mode_index == 0
        &&& c1.menu_counter == c0.menu_counter.wrapping_add(1)
        &&& s1.model() == s0.model()
        &&& p1.rng == p0.rng
        &&& p1.actions@ == p0.actions@
    }
    &&& event != Some(InputEvent::LeftHeld) ==> {
        let (m, moved, k) = vibes_tick(
            vibes_event(s0.model(), event),
            p0.rng,
        );
        &&& s1.model() == m
        &&& c1.mode_index == c0.mode_index
        &&& c1.menu_counter == c0.menu_counter
        &&& c1.redraw == c0.redraw
        &&& if k == 0 {
            p1.rng == p0.rng
        } else {
            advanced_by(p0.rng, p1.rng, k)
        }
        &&& if s0.last_update < c0.menu_counter || event is Some
            || moved {
            appended_cols(
                p0.actions@,
                p1.actions@,
                vibes_frame(m),
            )
        } else {
            p1.actions@ == p0.actions@
        }
    }
}

} // verus!
