//! An earlier parallax drive: clouds over the left half of the display and mountains over the
//! right half, each kept in a ring of columns that scrolls at its own fixed pace.

use crate::modes::tunnel::virt_index;
use crate::modes::vibes::{
    lemma_mountain_step_shift, mountain_drawn, mountain_step, MountainState, SKY_COL,
};
use crate::colbuf::{col_contents, col_new, col_push, ColBuf};
use crate::modes::{appended_cols, show_cols, Peripherals};
use crate::random::{advanced_by, drawn_u8, lemma_advanced_trans, Rng};
use crate::{CHAR_WIDTH, COLUMN_GAP, NUM_COLS, NUM_ROWS, NUM_VIRT_COLS};
use vstd::prelude::*;

verus! {

/// Cycles per cloud column.
pub const DEFAULT_SKY_PERIOD: u8 = 10;

/// Cycles per mountain column.
pub const DEFAULT_EARTH_PERIOD: u8 = 5;

/// Columns in each ring: half the virtual display.
pub const NUM_VIRT_COLS2: usize = NUM_VIRT_COLS / 2;

/// The generator of clouds: the sky columns still to pass before the next cloud, and the cloud
/// itself (its top row, its height, its length, and how much of it was drawn).
#[derive(Clone, Copy, Debug, PartialEq, Eq, Structural)]
pub struct CloudState {
    pub loc: u8,
    pub gap: u8,
    pub cur_length: u8,
    pub height: u8,
    pub length: u8,
}

/// The generator of mountains: the current height and how far into the mountain it is, the
/// mountain's peak and length, and whether the slope goes up (1), down (-1) or stays (0).
#[derive(Clone, Copy, Debug, PartialEq, Eq, Structural)]
pub struct EarthState {
    pub cur_height: u8,
    pub cur_length: u8,
    pub height: u8,
    pub length: u8,
    pub increment: i8,
}

/// The next cloud drawn from the bytes of `r` from byte `base` on: 1 to 10 columns of sky
/// before it, its top row in 1..5, 2 or 3 rows high, and 6 to 15 columns long. It takes four
/// bytes.
pub open spec fn cloud_drawn(c: CloudState, r: Rng, base: nat) -> CloudState {
    let gap = (drawn_u8(r, base) % 10 + 1) as u8;
    let loc = (1 + drawn_u8(r, base + 1) % ((NUM_ROWS - 3) as u8)) as u8;
    let height = (2 + drawn_u8(r, base + 2) % 2) as u8;
    let length = (6 + drawn_u8(r, base + 3) % 10) as u8;
    CloudState {
        gap,
        loc: if height == 3 && loc > 4 {
            (loc - 4) as u8
        } else {
            loc
        },
        height,
        length,
        ..c
    }
}

/// A sky column with the `height` rows from row `loc` on dark.
pub open spec fn cloud_band(loc: u8, height: u8) -> u8 {
    SKY_COL ^ ((((1u8 << height) - 1) as u8) << loc)
}

/// The generator after one column from the bytes of `r` from byte `base` on, the column, and
/// how many bytes it took: sky while the gap lasts, then the cloud's columns, then a new cloud
/// is drawn (see `cloud_drawn`) behind one more column of sky.
pub open spec fn cloud_step(c: CloudState, r: Rng, base: nat) -> (CloudState, u8, nat) {
    if c.gap > 0 {
        (CloudState { gap: (c.gap - 1) as u8, ..c }, SKY_COL, 0)
    } else if c.cur_length < c.length {
        (CloudState { cur_length: (c.cur_length + 1) as u8, ..c }, cloud_band(c.loc, c.height), 0)
    } else {
        (cloud_drawn(CloudState { cur_length: 0, ..c }, r, base), SKY_COL, 4)
    }
}

/// A cloud fits in the column: at most three rows high, its top row at most the fifth.
pub open spec fn cloud_fits(c: CloudState) -> bool {
    c.height <= 3 && c.loc <= 4
}

/// The column of a mountain `h` rows high: the rows above it lit.
pub open spec fn earth_col(h: u8) -> u8 {
    ((1u8 << ((NUM_ROWS - h) as u8)) - 1) as u8
}

impl EarthState {
    /// The same numbers as a mountain generator of the drive.
    pub open spec fn as_mountain(self) -> MountainState {
        MountainState {
            cur_height: self.cur_height,
            cur_length: self.cur_length,
            height: self.height,
            length: self.length,
            increment: self.increment,
        }
    }
}

/// The generator of the drive as the generator of this scenery.
pub open spec fn from_mountain(m: MountainState) -> EarthState {
    EarthState {
        cur_height: m.cur_height,
        cur_length: m.cur_length,
        height: m.height,
        length: m.length,
        increment: m.increment,
    }
}

/// The generator after one column from the bytes of `r` from byte `base` on, the column, and
/// how many bytes it took: the numbers move as for the drive's mountains (see `mountain_step`),
/// and the column lights the rows above the new height.
pub open spec fn earth_step(e: EarthState, r: Rng, base: nat) -> (EarthState, u8, nat) {
    let (m, col, k) = mountain_step(e.as_mountain(), r, base);
    (from_mountain(m), earth_col(m.cur_height), k)
}

impl CloudState {
    /// Draws a first cloud (see `cloud_drawn`) from all-zero numbers.
    pub fn new(rng: &mut Rng) -> (r: Self)
        ensures
            r == cloud_drawn(
                CloudState { loc: 0, gap: 0, cur_length: 0, height: 0, length: 0 },
                *old(rng),
                0,
            ),
            cloud_fits(r),
            advanced_by(*old(rng), *final(rng), 4),
    {
        let mut state = CloudState { loc: 0, gap: 0, cur_length: 0, height: 0, length: 0 };
        state.next_cloud(rng);
        state
    }

    /// Draws the next cloud (see `cloud_drawn`).
    pub fn next_cloud(&mut self, rng: &mut Rng)
        ensures
            *final(self) == cloud_drawn(*old(self), *old(rng), 0),
            cloud_fits(*final(self)),
            advanced_by(*old(rng), *final(rng), 4),
    {
        let ghost r0 = *rng;
        self.gap = rng.get_u8() % 10 + 1;
        let ghost r1 = *rng;
        self.loc = 1 + rng.get_u8() % (NUM_ROWS as u8 - 3);
        let ghost r2 = *rng;
        proof {
            lemma_advanced_trans(r0, r1, r2, 1, 1);
        }
        self.height = 2 + rng.get_u8() % 2;
        let ghost r3 = *rng;
        proof {
            lemma_advanced_trans(r0, r2, r3, 2, 1);
        }
        self.length = 6 + rng.get_u8() % 10;
        proof {
            lemma_advanced_trans(r0, r3, *rng, 3, 1);
        }
        if self.height == 3 && self.loc > 4 {
            self.loc = self.loc - 4;
        }
    }

    /// The next column of the sky (see `cloud_step`). In a cloud column exactly the rows
    /// `loc .. loc + height` are dark.
    pub fn next_col(&mut self, rng: &mut Rng) -> (r: u8)
        requires
            cloud_fits(*old(self)),
        ensures
            (*final(self), r) == ({
                let (c, col, k) = cloud_step(*old(self), *old(rng), 0);
                (c, col)
            }),
            cloud_fits(*final(self)),
            if cloud_step(*old(self), *old(rng), 0).2 == 0 {
                *final(rng) == *old(rng)
            } else {
                advanced_by(*old(rng), *final(rng), 4)
            },
            old(self).gap == 0 && old(self).cur_length < old(self).length ==> forall|i: u8|
                i < NUM_ROWS ==> (((r >> i) & 1u8) == 0 <==> old(self).loc <= i < old(self).loc
                    + old(self).height),
    {
        if self.gap > 0 {
            self.gap = self.gap - 1;
            SKY_COL
        } else if self.cur_length < self.length {
            self.cur_length = self.cur_length + 1;
            let h = self.height;
            let l = self.loc;
            assert(1u8 << h >= 1) by (bit_vector)
                requires
                    h <= 3,
            ;
            let col = SKY_COL ^ (((1u8 << h) - 1) << l);
            assert forall|i: u8| i < NUM_ROWS implies (((col >> i) & 1u8) == 0 <==> l <= i < l
                + h) by {
                assert(h <= 3 && l <= 4 && i < 7 ==> (((((0x7fu8 ^ ((((1u8 << h) - 1) as u8)
                    << l)) as u8) >> i) & 1u8) == 0 <==> l <= i < l + h)) by (bit_vector);
            }
            col
        } else {
            self.cur_length = 0;
            self.next_cloud(rng);
            SKY_COL
        }
    }
}

impl EarthState {
    /// Draws a first mountain (see `mountain_drawn`) from all-zero numbers.
    pub fn new(rng: &mut Rng) -> (r: Self)
        ensures
            r.as_mountain() == mountain_drawn(
                MountainState { cur_height: 0, cur_length: 0, height: 0, length: 0, increment: 0 },
                *old(rng),
                0,
            ),
            r.as_mountain().inv(),
            advanced_by(*old(rng), *final(rng), 3),
    {
        let mut m = MountainState {
            cur_height: 0,
            cur_length: 0,
            height: 0,
            length: 0,
            increment: 0,
        };
        m.next_mountain(rng);
        EarthState {
            cur_height: m.cur_height,
            cur_length: m.cur_length,
            height: m.height,
            length: m.length,
            increment: m.increment,
        }
    }

    /// Draws the next mountain from the current height (see `mountain_drawn`).
    pub fn next_mountain(&mut self, rng: &mut Rng)
        ensures
            final(self).as_mountain() == mountain_drawn(old(self).as_mountain(), *old(rng), 0),
            advanced_by(*old(rng), *final(rng), 3),
    {
        let mut m = MountainState {
            cur_height: self.cur_height,
            cur_length: self.cur_length,
            height: self.height,
            length: self.length,
            increment: self.increment,
        };
        m.next_mountain(rng);
        self.cur_length = m.cur_length;
        self.height = m.height;
        self.length = m.length;
        self.increment = m.increment;
    }

    /// The next column of the mountains (see `earth_step`).
    pub fn next_col(&mut self, rng: &mut Rng) -> (r: u8)
        requires
            old(self).as_mountain().inv(),
        ensures
            final(self).as_mountain().inv(),
            (*final(self), r) == ({
                let (e, col, k) = earth_step(*old(self), *old(rng), 0);
                (e, col)
            }),
            if earth_step(*old(self), *old(rng), 0).2 == 0 {
                *final(rng) == *old(rng)
            } else {
                advanced_by(*old(rng), *final(rng), earth_step(*old(self), *old(rng), 0).2)
            },
    {
        let mut m = MountainState {
            cur_height: self.cur_height,
            cur_length: self.cur_length,
            height: self.height,
            length: self.length,
            increment: self.increment,
        };
        let _ = m.next_col(rng);
        *self = EarthState {
            cur_height: m.cur_height,
            cur_length: m.cur_length,
            height: m.height,
            length: m.length,
            increment: m.increment,
        };
        let s = NUM_ROWS as u8 - self.cur_height;
        assert(1u8 << s >= 1) by (bit_vector)
            requires
                s <= 7,
        ;
        (1u8 << s) - 1
    }
}

/// The scenery as plain values: the two rings with their write positions, paces and
/// generators.
pub struct RingModel {
    pub cloud_cols: Seq<u8>,
    pub cloud_counter: u8,
    pub cloud_period: u8,
    pub cloud_state: CloudState,
    pub earth_cols: Seq<u8>,
    pub earth_counter: u8,
    pub earth_period: u8,
    pub earth_state: EarthState,
    pub cloud_index: nat,
    pub earth_index: nat,
}

/// The rings have their size, the write positions lie in them, the paces are positive and the
/// counters below them, and the generators keep their numbers in range.
pub open spec fn ring_inv(m: RingModel) -> bool {
    &&& m.cloud_cols.len() == NUM_VIRT_COLS2
    &&& m.earth_cols.len() == NUM_VIRT_COLS2
    &&& m.cloud_index < NUM_VIRT_COLS2
    &&& m.earth_index < NUM_VIRT_COLS2
    &&& 0 < m.cloud_period
    &&& 0 < m.earth_period
    &&& m.cloud_counter < m.cloud_period
    &&& m.earth_counter < m.earth_period
    &&& cloud_fits(m.cloud_state)
    &&& m.earth_state.as_mountain().inv()
}

/// The scenery after the cloud timer of one cycle with the bytes of `r`, whether the clouds
/// moved, and how many bytes it took: every `cloud_period` cycles the next cloud column (see
/// `cloud_step`) overwrites the oldest one and the write position moves on.
pub open spec fn ring_cloud_tick(m: RingModel, r: Rng) -> (RingModel, bool, nat) {
    let cc = ((m.cloud_counter + 1) % (m.cloud_period as int)) as u8;
    if cc == 0 {
        let (cs, col, k) = cloud_step(m.cloud_state, r, 0);
        (
            RingModel {
                cloud_counter: 0,
                cloud_state: cs,
                cloud_cols: m.cloud_cols.update(m.cloud_index as int, col),
                cloud_index: (m.cloud_index + 1) % (NUM_VIRT_COLS2 as nat),
                ..m
            },
            true,
            k,
        )
    } else {
        (RingModel { cloud_counter: cc, ..m }, false, 0nat)
    }
}

/// The scenery after the mountain timer of one cycle with the bytes of `r` from byte `base`
/// on, whether the mountains moved, and how many bytes it took (see `earth_step`).
pub open spec fn ring_earth_tick(m: RingModel, r: Rng, base: nat) -> (RingModel, bool, nat) {
    let ec = ((m.earth_counter + 1) % (m.earth_period as int)) as u8;
    if ec == 0 {
        let (es, col, k) = earth_step(m.earth_state, r, base);
        (
            RingModel {
                earth_counter: 0,
                earth_state: es,
                earth_cols: m.earth_cols.update(m.earth_index as int, col),
                earth_index: (m.earth_index + 1) % (NUM_VIRT_COLS2 as nat),
                ..m
            },
            true,
            k,
        )
    } else {
        (RingModel { earth_counter: ec, ..m }, false, 0nat)
    }
}

/// The display columns: the clouds' ring from its oldest column on fills the left half and
/// the mountains' ring the right half, each skipping the gaps between characters.
pub open spec fn ring_frame(m: RingModel) -> Seq<u8> {
    Seq::new(
        NUM_COLS as nat,
        |o: int|
            if o < NUM_COLS / 2 {
                m.cloud_cols[(m.cloud_index + virt_index(o)) % (NUM_VIRT_COLS2 as int)]
            } else {
                m.earth_cols[(m.earth_index + virt_index(o - NUM_COLS / 2)) % (
                NUM_VIRT_COLS2 as int)]
            },
    )
}

/// Parallax scenery in two rings of columns.
pub struct Vibes {
    pub cloud_cols: [u8; NUM_VIRT_COLS2],
    pub cloud_counter: u8,
    pub cloud_period: u8,
    pub cloud_state: CloudState,
    pub earth_cols: [u8; NUM_VIRT_COLS2],
    pub earth_counter: u8,
    pub earth_period: u8,
    pub earth_state: EarthState,
    pub cloud_index: usize,
    pub earth_index: usize,
}

impl Vibes {
    /// The scenery as plain values.
    pub open spec fn model(&self) -> RingModel {
        RingModel {
            cloud_cols: self.cloud_cols@,
            cloud_counter: self.cloud_counter,
            cloud_period: self.cloud_period,
            cloud_state: self.cloud_state,
            earth_cols: self.earth_cols@,
            earth_counter: self.earth_counter,
            earth_period: self.earth_period,
            earth_state: self.earth_state,
            cloud_index: self.cloud_index as nat,
            earth_index: self.earth_index as nat,
        }
    }

    /// Open sky in both rings, a first cloud and a first mountain drawn (the cloud from the
    /// first four bytes of `rng`, the mountain from the next three).
    pub fn new(rng: &mut Rng) -> (r: Self)
        ensures
            ring_inv(r.model()),
            r.model().cloud_cols == Seq::new(NUM_VIRT_COLS2 as nat, |i: int| SKY_COL),
            r.model().earth_cols == Seq::new(NUM_VIRT_COLS2 as nat, |i: int| SKY_COL),
            r.cloud_counter == 0 && r.earth_counter == 0,
            r.cloud_period == DEFAULT_SKY_PERIOD && r.earth_period == DEFAULT_EARTH_PERIOD,
            r.cloud_index == 0 && r.earth_index == 0,
            r.cloud_state == cloud_drawn(
                CloudState { loc: 0, gap: 0, cur_length: 0, height: 0, length: 0 },
                *old(rng),
                0,
            ),
            r.earth_state.as_mountain() == mountain_drawn(
                MountainState { cur_height: 0, cur_length: 0, height: 0, length: 0, increment: 0 },
                *old(rng),
                4,
            ),
            advanced_by(*old(rng), *final(rng), 7),
    {
        let ghost r0 = *rng;
        let cloud_state = CloudState::new(rng);
        let ghost r1 = *rng;
        let earth_state = EarthState::new(rng);
        proof {
            lemma_advanced_trans(r0, r1, *rng, 4, 3);
            let z = MountainState {
                cur_height: 0,
                cur_length: 0,
                height: 0,
                length: 0,
                increment: 0,
            };
            assert(drawn_u8(r1, 0) == drawn_u8(r0, 4 + 0));
            assert(drawn_u8(r1, 1) == drawn_u8(r0, 4 + 1));
            assert(drawn_u8(r1, 2) == drawn_u8(r0, 4 + 2));
            assert(mountain_drawn(z, r1, 0) == mountain_drawn(z, r0, 4));
        }
        let r = Vibes {
            cloud_cols: [SKY_COL; NUM_VIRT_COLS2],
            cloud_counter: 0,
            cloud_period: DEFAULT_SKY_PERIOD,
            cloud_state,
            earth_cols: [SKY_COL; NUM_VIRT_COLS2],
            earth_counter: 0,
            earth_period: DEFAULT_EARTH_PERIOD,
            earth_state,
            cloud_index: 0,
            earth_index: 0,
        };
        assert(r.model().cloud_cols =~= Seq::new(NUM_VIRT_COLS2 as nat, |i: int| SKY_COL));
        assert(r.model().earth_cols =~= Seq::new(NUM_VIRT_COLS2 as nat, |i: int| SKY_COL));
        r
    }

    /// The position after `index` in a ring.
    fn next_index(&self, index: usize) -> (r: usize)
        requires
            index < NUM_VIRT_COLS2,
        ensures
            r == (index + 1) % (NUM_VIRT_COLS2 as int),
    {
        (index + 1) % NUM_VIRT_COLS2
    }

    /// The cloud timer of one cycle (see `ring_cloud_tick`); gives whether the clouds moved.
    fn tick_clouds(&mut self, rng: &mut Rng) -> (r: bool)
        requires
            ring_inv(old(self).model()),
        ensures
            ring_inv(final(self).model()),
            ({
                let (m, u, k) = ring_cloud_tick(old(self).model(), *old(rng));
                &&& final(self).model() == m
                &&& r == u
                &&& if k == 0 {
                    *final(rng) == *old(rng)
                } else {
                    advanced_by(*old(rng), *final(rng), k)
                }
            }),
    {
        self.cloud_counter = (self.cloud_counter + 1) % self.cloud_period;
        if self.cloud_counter == 0 {
            let col = self.cloud_state.next_col(rng);
            self.cloud_cols[self.cloud_index] = col;
            self.cloud_index = self.next_index(self.cloud_index);
            true
        } else {
            false
        }
    }

    /// The mountain timer of one cycle (see `ring_earth_tick`); gives whether the mountains
    /// moved.
    fn tick_earth(&mut self, rng: &mut Rng) -> (r: bool)
        requires
            ring_inv(old(self).model()),
        ensures
            ring_inv(final(self).model()),
            ({
                let (m, u, k) = ring_earth_tick(old(self).model(), *old(rng), 0);
                &&& final(self).model() == m
                &&& r == u
                &&& if k == 0 {
                    *final(rng) == *old(rng)
                } else {
                    advanced_by(*old(rng), *final(rng), k)
                }
            }),
    {
        self.earth_counter = (self.earth_counter + 1) % self.earth_period;
        if self.earth_counter == 0 {
            let col = self.earth_state.next_col(rng);
            self.earth_cols[self.earth_index] = col;
            self.earth_index = self.next_index(self.earth_index);
            true
        } else {
            false
        }
    }

    /// The frame of the scenery (see `ring_frame`).
    fn render(&self) -> (cols: ColBuf)
        requires
            ring_inv(self.model()),
        ensures
            col_contents(cols) == ring_frame(self.model()),
    {
        let ghost m = self.model();
        let mut cols = col_new();
        let mut v: usize = 0;
        while v < NUM_VIRT_COLS2
            invariant
                v <= NUM_VIRT_COLS2,
                m == self.model(),
                ring_inv(m),
                col_contents(cols).len() == (v / 7) * 5 + if v % 7 < 5 {
                    v % 7
                } else {
                    5
                },
                forall|o: int| 0 <= o < col_contents(cols).len() ==> #[trigger] col_contents(cols)[o] == ring_frame(m)[o],
            decreases NUM_VIRT_COLS2 - v,
        {
            if v % (CHAR_WIDTH + COLUMN_GAP) < CHAR_WIDTH {
                proof {
                    let o = col_contents(cols).len() as int;
                    assert(o < 20) by (nonlinear_arith)
                        requires
                            o == (v / 7) * 5 + v % 7,
                            v % 7 < 5,
                            v < 27,
                    ;
                    assert(virt_index(o) == v) by (nonlinear_arith)
                        requires
                            o == (v / 7) * 5 + v % 7,
                            v % 7 < 5,
                    ;
                }
                let _ = col_push(&mut cols, self.cloud_cols[(self.cloud_index + v) % NUM_VIRT_COLS2]);
            }
            v = v + 1;
        }
        assert(col_contents(cols).len() == NUM_COLS / 2);
        let mut v: usize = 0;
        while v < NUM_VIRT_COLS2
            invariant
                v <= NUM_VIRT_COLS2,
                m == self.model(),
                ring_inv(m),
                col_contents(cols).len() == NUM_COLS / 2 + (v / 7) * 5 + if v % 7 < 5 {
                    v % 7
                } else {
                    5
                },
                forall|o: int| 0 <= o < col_contents(cols).len() ==> #[trigger] col_contents(cols)[o] == ring_frame(m)[o],
            decreases NUM_VIRT_COLS2 - v,
        {
            if v % (CHAR_WIDTH + COLUMN_GAP) < CHAR_WIDTH {
                proof {
                    let o = col_contents(cols).len() as int - NUM_COLS / 2;
                    assert(o < 20) by (nonlinear_arith)
                        requires
                            o == (v / 7) * 5 + v % 7,
                            v % 7 < 5,
                            v < 27,
                    ;
                    assert(virt_index(o) == v) by (nonlinear_arith)
                        requires
                            o == (v / 7) * 5 + v % 7,
                            v % 7 < 5,
                    ;
                }
                let _ = col_push(&mut cols, self.earth_cols[(self.earth_index + v) % NUM_VIRT_COLS2]);
            }
            v = v + 1;
        }
        assert(col_contents(cols) =~= ring_frame(m));
        cols
    }

    /// One cycle: the clouds' timer (see `ring_cloud_tick`), then the mountains' timer with
    /// the bytes after those the clouds took (see `ring_earth_tick`); when a ring moved, the
    /// frame is shown.
    pub fn update(&mut self, peripherals: &mut Peripherals)
        requires
            ring_inv(old(self).model()),
        ensures
            ring_inv(final(self).model()),
            ({
                let (m1, u1, k1) = ring_cloud_tick(old(self).model(), old(peripherals).rng);
                let (m2, u2, k2) = ring_earth_tick(m1, old(peripherals).rng, k1);
                &&& final(self).model() == m2
                &&& if k1 + k2 == 0 {
                    final(peripherals).rng == old(peripherals).rng
                } else {
                    advanced_by(old(peripherals).rng, final(peripherals).rng, k1 + k2)
                }
                &&& if u1 || u2 {
                    appended_cols(
                        old(peripherals).actions@,
                        final(peripherals).actions@,
                        ring_frame(m2),
                    )
                } else {
                    final(peripherals).actions@ == old(peripherals).actions@
                }
            }),
            final(peripherals).adc == old(peripherals).adc,
            final(peripherals).i2c == old(peripherals).i2c,
    {
        let ghost r0 = peripherals.rng;
        let ghost k1 = ring_cloud_tick(self.model(), r0).2;
        let u1 = self.tick_clouds(&mut peripherals.rng);
        let ghost r1 = peripherals.rng;
        let ghost m1 = self.model();
        let u2 = self.tick_earth(&mut peripherals.rng);
        proof {
            let k2 = ring_earth_tick(m1, r1, 0).2;
            if k1 > 0 {
                if k2 > 0 {
                    lemma_advanced_trans(r0, r1, peripherals.rng, k1, k2);
                } else {
                    lemma_advanced_trans(r0, r1, r1, k1, 0);
                }
                lemma_mountain_step_shift(m1.earth_state.as_mountain(), r0, r1, k1);
            }
            assert(ring_earth_tick(m1, r1, 0) == ring_earth_tick(m1, r0, k1));
        }
        if u1 || u2 {
            let cols = self.render();
            show_cols(&mut peripherals.actions, cols);
        }
    }
}

} // verus!
