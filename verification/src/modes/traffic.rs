use super::tunnel::virt_index;
use super::{appended_cols, show_cols, Context, Peripherals};
use crate::colbuf::{col_clear, col_contents, col_get, col_new, col_push, col_remove, col_resize_default, ColBuf};
use crate::input::InputEvent;
use crate::random::{advanced_by, drawn_u8, lemma_advanced_trans, Rng};
use crate::{CHAR_WIDTH, COLUMN_GAP, NUM_COLS, NUM_ROWS, NUM_VIRT_COLS};
use vstd::prelude::*;

verus! {

/// `x - 1` on an 8-bit counter, wrapping below 0.
pub open spec fn dec8(x: u8) -> u8 {
    if x == 0 {
        255
    } else {
        (x - 1) as u8
    }
}

/// Cycles per driver step at the start.
pub const DRIVER_PERIOD_START: u8 = 35;

/// Cycles per traffic column at the start.
pub const TRAFFIC_PERIOD_START: u8 = 5;

/// The blinking goal marker.
pub const GOAL_COL: u8 = 0b0101_0101;

/// Where the goal starts: the middle of the virtual display plus one character.
pub const GOAL_POS_START: u8 = 32;

/// Trucks on the road at the start.
pub const TRUCK_MAX_COUNT_START: usize = 1;

/// Trucks at most.
pub const MAX_TRUCKS: usize = 3;

/// Smallest free run of lanes where a truck may appear.
pub const MIN_GAP_SIZE: u8 = 3;

/// A truck: its top lane, how many columns of it are still to come, and how many lanes wide.
#[derive(Clone, Copy, Debug, PartialEq, Eq, Structural)]
pub struct Truck {
    pub lane: u8,
    pub length: u8,
    pub width: u8,
}

/// The traffic game: the driver moves right towards the goal while trucks come from the right.
pub struct Traffic {
    pub is_driving: bool,
    pub driver_counter: u8,
    pub driver_period: u8,
    pub driver_pos: u8,
    pub driver_lane: u8,
    pub goal_pos: u8,
    pub goal_col: u8,
    pub crashed: bool,
    pub traffic_cols: ColBuf,
    pub traffic_counter: u8,
    pub traffic_period: u8,
    pub truck_max_count: usize,
    pub trucks: [Truck; MAX_TRUCKS],
}

/// The bit of `lane` in a column (lane 0 is bit 6); lanes past the bottom have none.
pub open spec fn lane_bit(lane: int) -> u8 {
    if 0 <= lane < NUM_ROWS {
        (1u8 << ((NUM_ROWS - 1 - lane) as u8)) as u8
    } else {
        0
    }
}

/// The column a truck fills: its top lane and, when two wide, the lane under it.
pub open spec fn truck_bits(t: Truck) -> u8 {
    let first = if t.width >= 1 {
        lane_bit(t.lane as int)
    } else {
        0u8
    };
    let second = if t.width >= 2 {
        lane_bit(t.lane + 1)
    } else {
        0u8
    };
    first | second
}

/// The length of the free run of lanes from `lane` down in `col`.
pub open spec fn run_len(col: u8, lane: nat) -> nat
    decreases NUM_ROWS - lane,
{
    if lane >= NUM_ROWS || (col & lane_bit(lane as int)) != 0 {
        0
    } else {
        1 + run_len(col, lane + 1)
    }
}

/// The free runs of at least `MIN_GAP_SIZE` lanes in `col` from `lane` down, top first, as
/// (first lane, length).
pub open spec fn gaps_from(col: u8, lane: nat) -> Seq<(u8, u8)>
    decreases NUM_ROWS - lane,
{
    if lane >= NUM_ROWS {
        seq![]
    } else {
        let g = run_len(col, lane);
        let here: Seq<(u8, u8)> = if g >= MIN_GAP_SIZE {
            seq![(lane as u8, g as u8)]
        } else {
            seq![]
        };
        let next = if lane + g + 1 >= NUM_ROWS {
            NUM_ROWS as nat
        } else {
            lane + g + 1
        };
        here + gaps_from(col, next)
    }
}

/// The new truck drawn from `r` for the lanes `lane_min ..= lane_max`: 2 to 8 columns long
/// (2 when only one lane is free), two lanes wide when longer than 2 and there is room, at a
/// random lane that fits.
pub open spec fn truck_rand(lane_min: u8, lane_max: u8, r: Rng, base: nat) -> (Truck, nat) {
    let max_width = lane_max - lane_min + 1;
    let (length, k) = if max_width > 1 {
        ((2 + drawn_u8(r, base) % 7) as u8, 1nat)
    } else {
        (2u8, 0nat)
    };
    let width: u8 = if max_width > 1 && length > 2 {
        2
    } else {
        1
    };
    let range = max_width - width + 1;
    (Truck { lane: (lane_min + (drawn_u8(r, base + k) as int) % (range as int)) as u8, length, width }, k + 1)
}

impl Truck {
    /// A truck that fits the lanes.
    pub open spec fn inv(&self) -> bool {
        &&& self.width <= 2
        &&& self.lane < NUM_ROWS
    }

    /// Draws a new truck for the lanes `lane_min ..= lane_max` (see `truck_rand`).
    pub fn rand(&mut self, lane_min: u8, lane_max: u8, rng: &mut Rng)
        requires
            lane_min <= lane_max < NUM_ROWS,
        ensures
            final(self).inv(),
            *final(self) == truck_rand(lane_min, lane_max, *old(rng), 0).0,
            advanced_by(*old(rng), *final(rng), truck_rand(lane_min, lane_max, *old(rng), 0).1),
            lane_min <= final(self).lane,
            final(self).lane + final(self).width - 1 <= lane_max,
    {
        let ghost r0 = *rng;
        let max_width = lane_max - lane_min + 1;
        let mut drawn: usize = 0;
        self.length = 2 + if max_width > 1 {
            drawn = 1;
            rng.get_u8() % 7
        } else {
            0
        };
        self.width = if max_width > 1 && self.length > 2 {
            2
        } else {
            1
        };
        self.lane = lane_min;
        let range = max_width - self.width + 1;
        let ghost r1 = *rng;
        if range > 0 {
            let d = rng.get_u8();
            proof {
                if drawn == 1 {
                    lemma_advanced_trans(r0, r1, *rng, 1, 1);
                } else {
                    assert(r1 == r0);
                }
            }
            self.lane = self.lane + d % range;
        }
    }
}

/// The lanes that the first `n` trucks still coming fill.
pub open spec fn trucks_col_upto(trucks: Seq<Truck>, n: nat) -> u8
    decreases n,
{
    if n == 0 {
        0
    } else {
        let t = trucks[n - 1];
        trucks_col_upto(trucks, (n - 1) as nat) | if t.length > 0 {
            truck_bits(t)
        } else {
            0u8
        }
    }
}

/// How many of the first `n` trucks are still coming.
pub open spec fn active_upto(trucks: Seq<Truck>, n: nat) -> nat
    decreases n,
{
    if n == 0 {
        0
    } else {
        active_upto(trucks, (n - 1) as nat) + if trucks[n - 1].length > 0 {
            1nat
        } else {
            0nat
        }
    }
}

/// What the column of the trucks shows next: every truck still coming fills its lanes.
pub open spec fn trucks_col(trucks: Seq<Truck>) -> u8 {
    trucks_col_upto(trucks, MAX_TRUCKS as nat)
}

/// How many trucks are still coming.
pub open spec fn active_trucks(trucks: Seq<Truck>) -> nat {
    active_upto(trucks, MAX_TRUCKS as nat)
}

/// The trucks after one column went by.
pub open spec fn trucks_advanced(trucks: Seq<Truck>) -> Seq<Truck> {
    trucks.map_values(
        |t: Truck|
            if t.length > 0 {
                Truck { length: (t.length - 1) as u8, ..t }
            } else {
                t
            },
    )
}

/// The first truck slot that is free, if any.
pub open spec fn first_free(trucks: Seq<Truck>) -> Option<int> {
    if trucks[0].length == 0 {
        Some(0)
    } else if trucks[1].length == 0 {
        Some(1)
    } else if trucks[2].length == 0 {
        Some(2)
    } else {
        None
    }
}

/// The lanes a new truck may take in gap `gap`: one lane of margin on each side that is not
/// the edge of the road.
pub open spec fn gap_lanes(gap: (u8, u8)) -> (u8, u8) {
    let start = gap.0;
    let end = (gap.0 + gap.1 - 1) as u8;
    (
        if start == 0 {
            0u8
        } else {
            (start + 1) as u8
        },
        if end == NUM_ROWS - 1 {
            (NUM_ROWS - 1) as u8
        } else {
            (end - 1) as u8
        },
    )
}

/// The trucks `advanced` after a column `col` that `count` trucks filled went by, with the
/// bytes of `r`, and how many bytes it took: when `col` has a wide enough gap and fewer trucks
/// than allowed were coming, with chance 1/(7 + count) a new truck appears in a random gap, in
/// the first free slot.
pub open spec fn spawn_after(advanced: Seq<Truck>, col: u8, count: nat, max_count: nat, r: Rng) -> (
    Seq<Truck>,
    nat,
) {
    let gaps = gaps_from(col, 0);
    if gaps.len() > 0 && count < max_count {
        if (drawn_u8(r, 0) as int) % ((7 + count) as int) == 0 {
            match first_free(advanced) {
                Some(slot) => {
                    let gap = gaps[(drawn_u8(r, 1) as nat % gaps.len()) as int];
                    let (lmin, lmax) = gap_lanes(gap);
                    let (t, k) = truck_rand(lmin, lmax, r, 2);
                    (advanced.update(slot, t), 2 + k)
                },
                None => (advanced, 1),
            }
        } else {
            (advanced, 1)
        }
    } else {
        (advanced, 0)
    }
}

/// The trucks after a new column is produced from the bytes of `r`, and how many bytes it
/// took: the trucks advance, then a new one may appear (see `spawn_after`).
pub open spec fn traffic_spawn(trucks: Seq<Truck>, max_count: nat, r: Rng) -> (Seq<Truck>, nat) {
    spawn_after(trucks_advanced(trucks), trucks_col(trucks), active_trucks(trucks), max_count, r)
}

/// Every gap takes at least `MIN_GAP_SIZE` lanes and one more between gaps, so a column has
/// at most two.
pub proof fn lemma_gaps_bound(col: u8, lane: nat)
    ensures
        gaps_from(col, lane).len() * 4 <= NUM_ROWS + 1 - lane || lane >= NUM_ROWS,
        gaps_from(col, lane).len() <= 2,
    decreases NUM_ROWS - lane,
{
    if lane < NUM_ROWS {
        let g = run_len(col, lane);
        let next = if lane + g + 1 >= NUM_ROWS {
            NUM_ROWS as nat
        } else {
            lane + g + 1
        };
        lemma_gaps_bound(col, next);
        lemma_run_len_bound(col, lane);
    }
}

/// A free run ends at the bottom of the road.
pub proof fn lemma_run_len_bound(col: u8, lane: nat)
    ensures
        lane <= NUM_ROWS ==> lane + run_len(col, lane) <= NUM_ROWS,
    decreases NUM_ROWS - lane,
{
    if lane < NUM_ROWS && (col & lane_bit(lane as int)) == 0 {
        lemma_run_len_bound(col, lane + 1);
    }
}

/// The lane bit as the device computes it.
fn lane_bit_of(lane: u8) -> (r: u8)
    requires
        (lane as nat) < NUM_ROWS,
    ensures
        r == lane_bit(lane as int),
{
    1u8 << (NUM_ROWS as u8 - lane - 1)
}

/// The gaps of `col`, as the arrays of the device: first lanes, lengths, and how many.
fn find_gaps(col: u8) -> (r: ([u8; 4], [u8; 4], usize))
    ensures
        r.2 == gaps_from(col, 0).len(),
        r.2 <= 2,
        forall|i: int| 0 <= i < r.2 ==> (r.0[i], r.1[i]) == #[trigger] gaps_from(col, 0)[i],
{
    let mut gap_lanes = [0u8; 4];
    let mut gap_sizes = [0u8; 4];
    let mut gap_count: usize = 0;
    let mut lane: u8 = 0;
    proof {
        lemma_gaps_bound(col, 0);
    }
    while lane < NUM_ROWS as u8
        invariant
            lane <= NUM_ROWS + 1,
            gap_count <= 2,
            ({
                let l = if lane as nat >= NUM_ROWS {
                    NUM_ROWS as nat
                } else {
                    lane as nat
                };
                &&& gaps_from(col, 0) == Seq::new(
                    gap_count as nat,
                    |i: int| (gap_lanes[i], gap_sizes[i]),
                ) + gaps_from(col, l)
                &&& gap_count + gaps_from(col, l).len() <= 2
            }),
        decreases NUM_ROWS + 1 - lane,
    {
        let mut gap: u8 = 0;
        proof {
            lemma_run_len_bound(col, lane as nat);
        }
        while lane + gap < NUM_ROWS as u8 && (col & lane_bit_of(lane + gap)) == 0
            invariant
                lane < NUM_ROWS,
                lane + gap <= NUM_ROWS,
                run_len(col, lane as nat) == gap + run_len(col, (lane + gap) as nat),
            decreases NUM_ROWS - lane - gap,
        {
            gap = gap + 1;
        }
        assert(run_len(col, (lane + gap) as nat) == 0);
        let ghost prev = Seq::new(gap_count as nat, |i: int| (gap_lanes[i], gap_sizes[i]));
        proof {
            lemma_gaps_bound(col, lane as nat);
        }
        if gap >= MIN_GAP_SIZE {
            gap_lanes[gap_count] = lane;
            gap_sizes[gap_count] = gap;
            gap_count = gap_count + 1;
            assert(Seq::new(gap_count as nat, |i: int| (gap_lanes[i], gap_sizes[i])) =~= prev
                + seq![(lane, gap)]);
        } else {
            assert(Seq::new(gap_count as nat, |i: int| (gap_lanes[i], gap_sizes[i])) =~= prev);
        }
        lane = lane + gap + 1;
        proof {
            let l = if lane as nat >= NUM_ROWS {
                NUM_ROWS as nat
            } else {
                lane as nat
            };
            assert(gaps_from(col, 0) =~= Seq::new(
                gap_count as nat,
                |i: int| (gap_lanes[i], gap_sizes[i]),
            ) + gaps_from(col, l));
        }
    }
    assert(gaps_from(col, NUM_ROWS as nat) =~= Seq::<(u8, u8)>::empty());
    (gap_lanes, gap_sizes, gap_count)
}

/// The traffic as plain values.
pub struct TrafficModel {
    pub is_driving: bool,
    pub driver_counter: u8,
    pub driver_period: u8,
    pub driver_pos: u8,
    pub driver_lane: u8,
    pub goal_pos: u8,
    pub goal_col: u8,
    pub crashed: bool,
    pub cols: Seq<u8>,
    pub traffic_counter: u8,
    pub traffic_period: u8,
    pub truck_max_count: nat,
    pub trucks: Seq<Truck>,
}

/// The road after a restart: no trucks, no traffic columns, not crashed.
pub open spec fn cleared(m: TrafficModel) -> TrafficModel {
    TrafficModel {
        crashed: false,
        trucks: m.trucks.map_values(|t: Truck| Truck { length: 0, ..t }),
        cols: Seq::new(NUM_VIRT_COLS as nat, |i: int| 0u8),
        ..m
    }
}

/// The game after a button event, and whether it asks for a redraw.
pub open spec fn traffic_event(m: TrafficModel, event: Option<InputEvent>) -> (TrafficModel, bool) {
    match event {
        Some(InputEvent::RightHeld) => if !m.is_driving {
            (TrafficModel { truck_max_count: 0, ..cleared(m) }, true)
        } else {
            (m, false)
        },
        Some(InputEvent::LeftReleased) => (
            TrafficModel {
                driver_lane: if m.driver_lane + 1 < NUM_ROWS {
                    (m.driver_lane + 1) as u8
                } else {
                    m.driver_lane
                },
                ..m
            },
            true,
        ),
        Some(InputEvent::RightReleased) => (
            TrafficModel {
                driver_lane: if m.driver_lane > 0 {
                    (m.driver_lane - 1) as u8
                } else {
                    m.driver_lane
                },
                ..m
            },
            true,
        ),
        _ => (m, false),
    }
}

/// The driving game after one cycle, whether it asks for a redraw, and how many random bytes
/// it took: every `traffic_period` cycles a new traffic column scrolls in and the goal blinks;
/// every `driver_period` cycles the driver moves right, and reaching the goal ends the stage.
pub open spec fn drive_tick(m: TrafficModel, r: Rng) -> (TrafficModel, bool, nat) {
    let tc = ((m.traffic_counter + 1) % (m.traffic_period as int)) as u8;
    let (m1, u1, k) = if tc == 0 {
        let (trucks, k) = traffic_spawn(m.trucks, m.truck_max_count, r);
        (
            TrafficModel {
                traffic_counter: 0,
                trucks,
                goal_col: !m.goal_col,
                cols: m.cols.drop_first().push(trucks_col(m.trucks)),
                ..m
            },
            true,
            k,
        )
    } else {
        (TrafficModel { traffic_counter: tc, ..m }, false, 0nat)
    };
    let dc = ((m1.driver_counter + 1) % (m1.driver_period as int)) as u8;
    if dc == 0 {
        let pos = (m1.driver_pos + 1) as u8;
        let m2 = TrafficModel { driver_counter: 0, driver_pos: pos, ..m1 };
        if pos == m1.goal_pos {
            (cleared(TrafficModel { is_driving: false, ..m2 }), true, k)
        } else {
            (m2, true, k)
        }
    } else {
        (TrafficModel { driver_counter: dc, ..m1 }, u1, k)
    }
}

/// The game after one cycle of rolling back to the start after a stage: the driver moves one
/// column left; back at column 1 the next stage starts driving. A won stage (a truck maximum
/// above 0) makes the driver faster and moves the goal a character further; when the goal
/// starts over, one more truck is allowed, else (at three) the traffic quickens and one truck is
/// allowed, else the driver quickens once more. A restarted stage resets the difficulty.
pub open spec fn rollback_tick(m: TrafficModel) -> TrafficModel {
    let pos = dec8(m.driver_pos);
    let m1 = TrafficModel { driver_pos: pos, ..m };
    if pos == 1 {
        let m2 = if m.truck_max_count > 0 {
            let dp = if m.driver_period > 2 {
                (m.driver_period - 1) as u8
            } else {
                m.driver_period
            };
            let goal = (m.goal_pos + CHAR_WIDTH + COLUMN_GAP) as u8;
            if goal >= NUM_VIRT_COLS - 1 {
                if m.truck_max_count < MAX_TRUCKS {
                    TrafficModel {
                        driver_period: dp,
                        goal_pos: GOAL_POS_START,
                        truck_max_count: m.truck_max_count + 1,
                        ..m1
                    }
                } else if m.traffic_period > 2 {
                    TrafficModel {
                        driver_period: dp,
                        goal_pos: GOAL_POS_START,
                        truck_max_count: 1,
                        traffic_period: (m.traffic_period - 1) as u8,
                        ..m1
                    }
                } else if dp > 2 {
                    TrafficModel { driver_period: (dp - 1) as u8, goal_pos: GOAL_POS_START, ..m1 }
                } else {
                    TrafficModel { driver_period: dp, goal_pos: GOAL_POS_START, ..m1 }
                }
            } else {
                TrafficModel { driver_period: dp, goal_pos: goal, ..m1 }
            }
        } else {
            TrafficModel {
                goal_pos: GOAL_POS_START,
                driver_period: DRIVER_PERIOD_START,
                traffic_period: TRAFFIC_PERIOD_START,
                truck_max_count: TRUCK_MAX_COUNT_START as nat,
                ..m1
            }
        };
        TrafficModel { is_driving: true, ..m2 }
    } else {
        m1
    }
}

/// The game after the timers of one cycle, whether it asks for a redraw, and how many random
/// bytes it took: driving (see `drive_tick`), rolling back after a stage (see `rollback_tick`),
/// or standing still after a crash.
pub open spec fn traffic_tick(m: TrafficModel, r: Rng) -> (TrafficModel, bool, nat) {
    if m.is_driving {
        drive_tick(m, r)
    } else if !m.crashed {
        (rollback_tick(m), true, 0)
    } else {
        (m, false, 0)
    }
}

/// The bit of the driver's lane.
pub open spec fn driver_bit(m: TrafficModel) -> u8 {
    lane_bit(m.driver_lane as int)
}

/// Whether virtual column `p` holds the driver (who is two columns long; the column behind
/// column 0 is column 255, as on the device's counter).
pub open spec fn is_driver_at(m: TrafficModel, p: int) -> bool {
    p == m.driver_pos || p == dec8(m.driver_pos)
}

/// Whether virtual column `p` is shown: the columns in the gaps between characters are not.
pub open spec fn visible(p: int) -> bool {
    0 <= p < NUM_VIRT_COLS && p % ((CHAR_WIDTH + COLUMN_GAP) as int) < CHAR_WIDTH
}

/// Whether the driver, drawn at virtual column `p`, hits a truck there.
pub open spec fn collides_at(m: TrafficModel, p: int) -> bool {
    visible(p) && (m.cols[p] & driver_bit(m)) != 0
}

/// Whether the driver overlaps a truck in a shown column.
pub open spec fn traffic_collision(m: TrafficModel) -> bool {
    collides_at(m, m.driver_pos as int) || collides_at(m, dec8(m.driver_pos) as int)
}

/// The display columns of the game: traffic, the driver drawn in, and the blinking goal while
/// driving and not crashed.
pub open spec fn traffic_frame(m: TrafficModel) -> Seq<u8> {
    Seq::new(
        NUM_COLS as nat,
        |o: int|
            {
                let p = virt_index(o);
                if is_driver_at(m, p) {
                    m.cols[p] | driver_bit(m)
                } else if m.is_driving && !traffic_collision(m) && p == m.goal_pos {
                    m.cols[p] | m.goal_col
                } else {
                    m.cols[p]
                }
            },
    )
}

/// The game after its frame is drawn: a collision stops the driver and marks the crash.
pub open spec fn after_draw(m: TrafficModel) -> TrafficModel {
    if traffic_collision(m) {
        TrafficModel { is_driving: false, crashed: true, ..m }
    } else {
        m
    }
}

/// One cycle of the game on `event` with the random bytes of `r`: the game afterwards, the
/// frame it shows if any, and how many random bytes it took. `redraw` asks for a frame anyway.
pub open spec fn traffic_step(m: TrafficModel, event: Option<InputEvent>, r: Rng, redraw: bool) -> (
    TrafficModel,
    Option<Seq<u8>>,
    nat,
) {
    let (m1, u1) = traffic_event(m, event);
    let (m2, u2, k) = traffic_tick(m1, r);
    if redraw || u1 || u2 {
        (after_draw(m2), Some(traffic_frame(m2)), k)
    } else {
        (m2, None, k)
    }
}

impl Traffic {
    /// The traffic as plain values.
    pub open spec fn model(&self) -> TrafficModel {
        TrafficModel {
            is_driving: self.is_driving,
            driver_counter: self.driver_counter,
            driver_period: self.driver_period,
            driver_pos: self.driver_pos,
            driver_lane: self.driver_lane,
            goal_pos: self.goal_pos,
            goal_col: self.goal_col,
            crashed: self.crashed,
            cols: col_contents(self.traffic_cols),
            traffic_counter: self.traffic_counter,
            traffic_period: self.traffic_period,
            truck_max_count: self.truck_max_count as nat,
            trucks: self.trucks@,
        }
    }
}

/// The game keeps its counters, lanes and positions within range.
pub open spec fn traffic_inv(m: TrafficModel) -> bool {
    &&& m.cols.len() == NUM_VIRT_COLS
    &&& (m.driver_lane as nat) < NUM_ROWS
    &&& GOAL_POS_START <= m.goal_pos < NUM_VIRT_COLS - 1
    &&& 2 <= m.driver_period <= DRIVER_PERIOD_START
    &&& 2 <= m.traffic_period <= TRAFFIC_PERIOD_START
    &&& m.driver_counter < DRIVER_PERIOD_START
    &&& m.traffic_counter < TRAFFIC_PERIOD_START
    &&& m.truck_max_count <= MAX_TRUCKS
    &&& m.trucks.len() == MAX_TRUCKS
    &&& forall|i: int| 0 <= i < MAX_TRUCKS ==> #[trigger] m.trucks[i].inv()
    &&& m.is_driving ==> 1 <= m.driver_pos < m.goal_pos
}

/// Every gap of a column is at least `MIN_GAP_SIZE` lanes long and ends inside the road.
pub proof fn lemma_gaps_valid(col: u8, lane: nat)
    ensures
        forall|i: int|
            0 <= i < gaps_from(col, lane).len() ==> {
                let g = #[trigger] gaps_from(col, lane)[i];
                &&& g.1 >= MIN_GAP_SIZE
                &&& g.0 + g.1 <= NUM_ROWS
            },
    decreases NUM_ROWS - lane,
{
    if lane < NUM_ROWS {
        let g = run_len(col, lane);
        let next = if lane + g + 1 >= NUM_ROWS {
            NUM_ROWS as nat
        } else {
            lane + g + 1
        };
        lemma_gaps_valid(col, next);
        lemma_run_len_bound(col, lane);
        let here: Seq<(u8, u8)> = if g >= MIN_GAP_SIZE {
            seq![(lane as u8, g as u8)]
        } else {
            seq![]
        };
        assert(gaps_from(col, lane) == here + gaps_from(col, next));
    }
}

/// Clearing the road keeps the game in range.
proof fn lemma_cleared_inv(m: TrafficModel)
    requires
        traffic_inv(m),
        !m.is_driving,
    ensures
        traffic_inv(cleared(m)),
{
    let c = cleared(m);
    assert forall|i: int| 0 <= i < MAX_TRUCKS implies #[trigger] c.trucks[i].inv() by {
        assert(m.trucks[i].inv());
    }
}

/// No bit is added by an empty column.
proof fn lemma_or_zero(x: u8)
    ensures
        x | 0u8 == x,
        0u8 | x == x,
{
    assert(x | 0u8 == x && 0u8 | x == x) by (bit_vector);
}

impl Traffic {
    /// A new game: driving from column 1 in the middle lane towards the first goal, with one
    /// truck at most and an empty road.
    pub fn new() -> (r: Self)
        ensures
            traffic_inv(r.model()),
            r.model() == (TrafficModel {
                is_driving: true,
                driver_counter: 0,
                driver_period: DRIVER_PERIOD_START,
                driver_pos: 1,
                driver_lane: (NUM_ROWS / 2) as u8,
                goal_pos: GOAL_POS_START,
                goal_col: GOAL_COL,
                crashed: false,
                cols: Seq::new(NUM_VIRT_COLS as nat, |i: int| 0u8),
                traffic_counter: 0,
                traffic_period: TRAFFIC_PERIOD_START,
                truck_max_count: TRUCK_MAX_COUNT_START as nat,
                trucks: Seq::new(MAX_TRUCKS as nat, |i: int| Truck { lane: 0, length: 0, width: 0 }),
            }),
    {
        let mut buf = col_new();
        let _ = col_resize_default(&mut buf, NUM_VIRT_COLS);
        let r = Traffic {
            // the driver is a 2x1 rectangle
            is_driving: true,
            driver_counter: 0,
            driver_period: DRIVER_PERIOD_START,
            driver_pos: 1,
            driver_lane: NUM_ROWS as u8 / 2,
            goal_pos: GOAL_POS_START,
            goal_col: GOAL_COL,
            crashed: false,
            // the traffic has random blocks (trucks) to drive around
            traffic_cols: buf,
            traffic_counter: 0,
            traffic_period: TRAFFIC_PERIOD_START,
            truck_max_count: TRUCK_MAX_COUNT_START,
            trucks: [Truck { lane: 0, length: 0, width: 0 }; MAX_TRUCKS],
        };
        assert(r.model().cols =~= Seq::new(NUM_VIRT_COLS as nat, |i: int| 0u8));
        assert(r.model().trucks =~= Seq::new(
            MAX_TRUCKS as nat,
            |i: int| Truck { lane: 0, length: 0, width: 0 },
        ));
        r
    }

    /// The bit of the driver's lane.
    pub fn driver_col(&self) -> (r: u8)
        requires
            (self.driver_lane as nat) < NUM_ROWS,
        ensures
            r == driver_bit(self.model()),
    {
        lane_bit_of(self.driver_lane)
    }

    /// The lanes `truck` fills.
    pub fn truck_col(truck: &Truck) -> (r: u8)
        requires
            truck.inv(),
        ensures
            r == truck_bits(*truck),
    {
        let ghost first = lane_bit(truck.lane as int);
        let ghost second = lane_bit(truck.lane + 1);
        let mut col: u8 = 0;
        let mut i: u8 = 0;
        while i < truck.width
            invariant
                truck.inv(),
                i <= truck.width,
                first == lane_bit(truck.lane as int),
                second == lane_bit(truck.lane + 1),
                col == if i == 0 {
                    0u8
                } else if i == 1 {
                    first
                } else {
                    first | second
                },
            decreases truck.width - i,
        {
            proof {
                lemma_or_zero(first);
            }
            if truck.lane + i < NUM_ROWS as u8 {
                col = col | lane_bit_of(truck.lane + i);
            }
            i = i + 1;
        }
        proof {
            lemma_or_zero(0u8);
            lemma_or_zero(first);
        }
        col
    }

    /// Whether virtual column `pos` holds the driver.
    pub fn is_driver_pos(&self, pos: usize) -> (r: bool)
        ensures
            r == is_driver_at(self.model(), pos as u8 as int),
    {
        let pos = pos as u8;
        pos == self.driver_pos || pos == self.driver_pos.wrapping_sub(1)
    }

    /// Takes the trucks off the road and empties the traffic columns.
    pub fn clear_traffic(&mut self)
        ensures
            final(self).model() == cleared(old(self).model()),
    {
        self.crashed = false;
        let mut trucks = self.trucks;
        let mut i: usize = 0;
        while i < MAX_TRUCKS
            invariant
                i <= MAX_TRUCKS,
                forall|j: int|
                    0 <= j < i ==> #[trigger] trucks@[j] == (Truck {
                        length: 0,
                        ..old(self).trucks@[j]
                    }),
                forall|j: int| i <= j < MAX_TRUCKS ==> #[trigger] trucks@[j] == old(self).trucks@[j],
            decreases MAX_TRUCKS - i,
        {
            trucks[i].length = 0;
            i = i + 1;
        }
        self.trucks = trucks;
        col_clear(&mut self.traffic_cols);
        let _ = col_resize_default(&mut self.traffic_cols, NUM_VIRT_COLS);
        assert(self.model().trucks =~= cleared(old(self).model()).trucks);
        assert(self.model().cols =~= cleared(old(self).model()).cols);
    }

    /// Counts one cycle of the driver; every `driver_period` cycles the driver moves one column
    /// right and the new column is given.
    pub fn next_driver_pos(&mut self) -> (r: Option<u8>)
        requires
            old(self).driver_period > 0,
            old(self).driver_pos < u8::MAX,
        ensures
            ({
                let dc = ((old(self).driver_counter + 1) % (old(self).driver_period as int)) as u8;
                if dc != 0 {
                    &&& r is None
                    &&& final(self).model() == (TrafficModel {
                        driver_counter: dc,
                        ..old(self).model()
                    })
                } else {
                    &&& r == Some((old(self).driver_pos + 1) as u8)
                    &&& final(self).model() == (TrafficModel {
                        driver_counter: 0,
                        driver_pos: (old(self).driver_pos + 1) as u8,
                        ..old(self).model()
                    })
                }
            }),
    {
        self.driver_counter = ((self.driver_counter as u16 + 1) % self.driver_period as u16) as u8;
        if self.driver_counter != 0 {
            return None;
        }
        self.driver_pos = self.driver_pos + 1;
        Some(self.driver_pos)
    }
    /// Counts one cycle of the traffic; every `traffic_period` cycles the next traffic column
    /// is given (what the trucks still coming fill), the trucks advance, and a new truck may
    /// appear (see `traffic_spawn`).
    pub fn next_traffic_col(&mut self, rng: &mut Rng) -> (r: Option<u8>)
        requires
            old(self).traffic_period > 0,
            old(self).truck_max_count <= MAX_TRUCKS,
            forall|i: int| 0 <= i < MAX_TRUCKS ==> #[trigger] old(self).trucks@[i].inv(),
        ensures
            forall|i: int| 0 <= i < MAX_TRUCKS ==> #[trigger] final(self).trucks@[i].inv(),
            ({
                let tc = ((old(self).traffic_counter + 1) % (old(self).traffic_period as int)) as u8;
                if tc != 0 {
                    &&& r is None
                    &&& *final(rng) == *old(rng)
                    &&& final(self).model() == (TrafficModel {
                        traffic_counter: tc,
                        ..old(self).model()
                    })
                } else {
                    let (trucks, k) = traffic_spawn(
                        old(self).trucks@,
                        old(self).truck_max_count as nat,
                        *old(rng),
                    );
                    &&& r == Some(trucks_col(old(self).trucks@))
                    &&& final(self).model() == (TrafficModel {
                        traffic_counter: 0,
                        trucks,
                        ..old(self).model()
                    })
                    &&& if k == 0 {
                        *final(rng) == *old(rng)
                    } else {
                        advanced_by(*old(rng), *final(rng), k)
                    }
                }
            }),
    {
        self.traffic_counter = ((self.traffic_counter as u16 + 1) % self.traffic_period as u16) as u8;
        if self.traffic_counter != 0 {
            return None;
        }
        let mut trucks = self.trucks;
        let (next_col, truck_count) = take_traffic_col(&mut trucks);
        spawn_truck(&mut trucks, next_col, truck_count, self.truck_max_count, rng);
        self.trucks = trucks;
        Some(next_col)
    }
}

/// Produces the next traffic column: what the trucks still coming fill; they advance by one
/// column. Also gives how many trucks were coming.
fn take_traffic_col(trucks: &mut [Truck; MAX_TRUCKS]) -> (r: (u8, u8))
    requires
        forall|i: int| 0 <= i < MAX_TRUCKS ==> #[trigger] old(trucks)@[i].inv(),
    ensures
        forall|i: int| 0 <= i < MAX_TRUCKS ==> #[trigger] final(trucks)@[i].inv(),
        r.0 == trucks_col(old(trucks)@),
        r.1 == active_trucks(old(trucks)@),
        r.1 <= MAX_TRUCKS,
        final(trucks)@ == trucks_advanced(old(trucks)@),
{
    let ghost t0 = trucks@;
    let mut next_col: u8 = 0;
    let mut truck_count: u8 = 0;
    let mut i: usize = 0;
    while i < MAX_TRUCKS
        invariant
            i <= MAX_TRUCKS,
            t0.len() == MAX_TRUCKS,
            forall|j: int| 0 <= j < MAX_TRUCKS ==> #[trigger] t0[j].inv(),
            forall|j: int| 0 <= j < MAX_TRUCKS ==> #[trigger] trucks@[j].inv(),
            forall|j: int| 0 <= j < i ==> #[trigger] trucks@[j] == trucks_advanced(t0)[j],
            forall|j: int| i <= j < MAX_TRUCKS ==> #[trigger] trucks@[j] == t0[j],
            next_col == trucks_col_upto(t0, i as nat),
            truck_count == active_upto(t0, i as nat),
            truck_count <= i,
        decreases MAX_TRUCKS - i,
    {
        assert(trucks@[i as int] == t0[i as int]);
        if trucks[i].length > 0 {
            next_col = next_col | Traffic::truck_col(&trucks[i]);
            let ghost before = trucks@;
            trucks[i].length = trucks[i].length - 1;
            assert(trucks@ == before.update(i as int, trucks_advanced(t0)[i as int]));
            truck_count = truck_count + 1;
        }
        assert(t0[i as int].inv());
        assert(trucks_advanced(t0)[i as int].inv());
        assert forall|j: int| 0 <= j < MAX_TRUCKS implies #[trigger] trucks@[j].inv() by {
            if j == i {
                assert(trucks@[j] == trucks_advanced(t0)[j]);
            }
        }
        proof {
            lemma_or_zero(next_col);
        }
        i = i + 1;
    }
    assert(trucks@ =~= trucks_advanced(t0));
    (next_col, truck_count)
}

/// After column `col` that `truck_count` trucks filled went by, may put a new truck on the
/// road (see `spawn_after`).
fn spawn_truck(
    trucks: &mut [Truck; MAX_TRUCKS],
    col: u8,
    truck_count: u8,
    truck_max_count: usize,
    rng: &mut Rng,
)
    requires
        truck_count <= MAX_TRUCKS,
        forall|i: int| 0 <= i < MAX_TRUCKS ==> #[trigger] old(trucks)@[i].inv(),
    ensures
        forall|i: int| 0 <= i < MAX_TRUCKS ==> #[trigger] final(trucks)@[i].inv(),
        ({
            let (t, k) = spawn_after(
                old(trucks)@,
                col,
                truck_count as nat,
                truck_max_count as nat,
                *old(rng),
            );
            &&& final(trucks)@ == t
            &&& if k == 0 {
                *final(rng) == *old(rng)
            } else {
                advanced_by(*old(rng), *final(rng), k)
            }
        }),
{
    let ghost r0 = *rng;
    let (gap_lanes, gap_sizes, gap_count) = find_gaps(col);
    proof {
        lemma_gaps_valid(col, 0);
    }
    let truck_chance = 7 + truck_count;
    if gap_count > 0 && (truck_count as usize) < truck_max_count {
        let d = rng.get_u8();
        if d % truck_chance == 0 {
            let ghost r1 = *rng;
            let slot: Option<usize> = if trucks[0].length == 0 {
                Some(0)
            } else if trucks[1].length == 0 {
                Some(1)
            } else if trucks[2].length == 0 {
                Some(2)
            } else {
                None
            };
            if let Some(slot) = slot {
                let g = rng.get_u8();
                let ghost r2 = *rng;
                proof {
                    lemma_advanced_trans(r0, r1, r2, 1, 1);
                }
                let gap_index = g as usize % gap_count;
                proof {
                    let gap = gaps_from(col, 0)[gap_index as int];
                    assert(gap.1 >= MIN_GAP_SIZE && gap.0 + gap.1 <= NUM_ROWS);
                }
                let gap_lane_start = gap_lanes[gap_index];
                let gap_lane_end = gap_lane_start + gap_sizes[gap_index] - 1;
                let min_truck_lane = if gap_lane_start == 0 {
                    0
                } else {
                    gap_lane_start + 1
                };
                let max_truck_lane = if gap_lane_end == NUM_ROWS as u8 - 1 {
                    NUM_ROWS as u8 - 1
                } else {
                    gap_lane_end - 1
                };
                let mut truck = trucks[slot];
                truck.rand(min_truck_lane, max_truck_lane, rng);
                proof {
                    let k = truck_rand(min_truck_lane, max_truck_lane, r2, 0).1;
                    lemma_advanced_trans(r0, r2, *rng, 2, k);
                    assert(truck_rand(min_truck_lane, max_truck_lane, r2, 0) == truck_rand(
                        min_truck_lane,
                        max_truck_lane,
                        r0,
                        2,
                    ));
                }
                trucks[slot] = truck;
            }
        }
    }
}

impl Traffic {
    /// The frame of the game; a driver over a truck crashes.
    fn render(&mut self) -> (cols: ColBuf)
        requires
            traffic_inv(old(self).model()),
        ensures
            col_contents(cols) == traffic_frame(old(self).model()),
            final(self).model() == after_draw(old(self).model()),
    {
        let ghost m = self.model();
        let ghost dp = m.driver_pos as int;
        let ghost dq = dec8(m.driver_pos) as int;
        let driver = self.driver_col();
        let mut is_driving = self.is_driving;
        let mut crashed = self.crashed;
        let mut cols = col_new();
        let mut col_pos: usize = 0;
        while col_pos < NUM_VIRT_COLS
            invariant
                col_pos <= NUM_VIRT_COLS,
                m == self.model(),
                traffic_inv(m),
                dp == m.driver_pos as int,
                dq == dec8(m.driver_pos) as int,
                driver == driver_bit(m),
                col_contents(cols).len() == (col_pos / 7) * 5 + if col_pos % 7 < 5 {
                    col_pos % 7
                } else {
                    5
                },
                forall|o: int|
                    0 <= o < col_contents(cols).len() ==> #[trigger] col_contents(cols)[o] == traffic_frame(m)[o],
                is_driving == (m.is_driving && !(dp < col_pos && collides_at(m, dp)) && !(dq
                    < col_pos && collides_at(m, dq))),
                crashed == (m.crashed || (dp < col_pos && collides_at(m, dp)) || (dq < col_pos
                    && collides_at(m, dq))),
            decreases NUM_VIRT_COLS - col_pos,
        {
            if col_pos % (CHAR_WIDTH + COLUMN_GAP) < CHAR_WIDTH {
                let mut col = match col_get(&self.traffic_cols, col_pos) {
                    Some(c) => c,
                    None => 0,
                };
                if self.is_driver_pos(col_pos) {
                    // the column behind column 0 wraps around, which shows nothing
                    let collision = col & driver != 0;
                    if collision {
                        is_driving = false;
                        crashed = true;
                    }
                    col = col | driver;
                } else if is_driving && col_pos == self.goal_pos as usize {
                    col = col | self.goal_col;
                }
                proof {
                    let o = col_contents(cols).len() as int;
                    assert(o < 40) by (nonlinear_arith)
                        requires
                            o == (col_pos / 7) * 5 + col_pos % 7,
                            col_pos < 54,
                    ;
                    assert(virt_index(o) == col_pos) by (nonlinear_arith)
                        requires
                            o == (col_pos / 7) * 5 + col_pos % 7,
                            col_pos % 7 < 5,
                    ;
                }
                let _ = col_push(&mut cols, col);
            }
            col_pos = col_pos + 1;
        }
        assert(col_contents(cols) =~= traffic_frame(m));
        self.is_driving = is_driving;
        self.crashed = crashed;
        cols
    }

    /// The game after a button event (see `traffic_event`), and whether it asks for a redraw.
    fn on_event(&mut self, event: Option<InputEvent>) -> (r: bool)
        requires
            traffic_inv(old(self).model()),
        ensures
            traffic_inv(final(self).model()),
            (final(self).model(), r) == traffic_event(old(self).model(), event),
    {
        let mut update = false;
        match event {
            Some(InputEvent::RightHeld) => {
                // restart when the stage is over
                if !self.is_driving {
                    update = true;
                    // clear the traffic; a maximum of 0 trucks marks the restart
                    proof {
                        lemma_cleared_inv(self.model());
                    }
                    self.clear_traffic();
                    self.truck_max_count = 0;
                }
            },
            Some(InputEvent::LeftReleased) => {
                update = true;
                if self.driver_lane < NUM_ROWS as u8 - 1 {
                    self.driver_lane = self.driver_lane + 1;
                }
            },
            Some(InputEvent::RightReleased) => {
                update = true;
                if self.driver_lane > 0 {
                    self.driver_lane = self.driver_lane - 1;
                }
            },
            _ => {},
        }
        update
    }

    /// The timers of one cycle (see `traffic_tick`); gives whether they ask for a redraw.
    fn tick(&mut self, rng: &mut Rng) -> (r: bool)
        requires
            traffic_inv(old(self).model()),
        ensures
            traffic_inv(final(self).model()),
            ({
                let (m, u, k) = traffic_tick(old(self).model(), *old(rng));
                &&& final(self).model() == m
                &&& r == u
                &&& if k == 0 {
                    *final(rng) == *old(rng)
                } else {
                    advanced_by(*old(rng), *final(rng), k)
                }
            }),
    {
        if self.is_driving {
            self.drive(rng)
        } else if !self.crashed {
            self.roll_back();
            true
        } else {
            false
        }
    }

    /// One cycle of driving (see `drive_tick`); gives whether it asks for a redraw.
    fn drive(&mut self, rng: &mut Rng) -> (r: bool)
        requires
            traffic_inv(old(self).model()),
            old(self).is_driving,
        ensures
            traffic_inv(final(self).model()),
            ({
                let (m, u, k) = drive_tick(old(self).model(), *old(rng));
                &&& final(self).model() == m
                &&& r == u
                &&& if k == 0 {
                    *final(rng) == *old(rng)
                } else {
                    advanced_by(*old(rng), *final(rng), k)
                }
            }),
    {
        let mut update = false;
        let ghost c0 = col_contents(self.traffic_cols);
        if let Some(new_traffic_col) = self.next_traffic_col(rng) {
            update = true;
            self.goal_col = !self.goal_col;
            let _ = col_remove(&mut self.traffic_cols, 0);
            let _ = col_push(&mut self.traffic_cols, new_traffic_col);
            assert(col_contents(self.traffic_cols) =~= c0.drop_first().push(new_traffic_col));
        }
        if let Some(driver_pos) = self.next_driver_pos() {
            update = true;
            // stage complete
            if driver_pos == self.goal_pos {
                self.is_driving = false;
                proof {
                    lemma_cleared_inv(self.model());
                }
                self.clear_traffic();
            }
        }
        update
    }

    /// One cycle of rolling back after a stage (see `rollback_tick`).
    fn roll_back(&mut self)
        requires
            traffic_inv(old(self).model()),
            !old(self).is_driving,
        ensures
            traffic_inv(final(self).model()),
            final(self).model() == rollback_tick(old(self).model()),
    {
        self.driver_pos = self.driver_pos.wrapping_sub(1);
        if self.driver_pos == 1 {
            // a maximum above 0 trucks means the stage was won, else it was restarted
            if self.truck_max_count > 0 {
                // drive faster
                if self.driver_period > 2 {
                    self.driver_period = self.driver_period - 1;
                }
                // move the goal forward
                self.goal_pos = self.goal_pos + (CHAR_WIDTH + COLUMN_GAP) as u8;
                // the goal starting over raises the difficulty
                if self.goal_pos >= NUM_VIRT_COLS as u8 - 1 {
                    self.goal_pos = GOAL_POS_START;
                    if self.truck_max_count < MAX_TRUCKS {
                        self.truck_max_count = self.truck_max_count + 1;
                    } else if self.traffic_period > 2 {
                        self.truck_max_count = 1;
                        self.traffic_period = self.traffic_period - 1;
                    } else if self.driver_period > 2 {
                        self.driver_period = self.driver_period - 1;
                    }
                }
            } else {
                self.goal_pos = GOAL_POS_START;
                self.driver_period = DRIVER_PERIOD_START;
                self.traffic_period = TRAFFIC_PERIOD_START;
                self.truck_max_count = TRUCK_MAX_COUNT_START;
            }
            self.is_driving = true;
        }
    }

    /// One cycle of the game: holding left goes back to the menu; holding right after a stage
    /// restarts from scratch; releases move the driver down (left) or up (right) within the
    /// lanes. Then the timers run (see `traffic_tick`), and on any change the frame is shown,
    /// where a driver over a truck crashes (see `traffic_step`).
    pub fn update(
        &mut self,
        event: Option<InputEvent>,
        context: &mut Context,
        peripherals: &mut Peripherals,
    )
        requires
            traffic_inv(old(self).model()),
        ensures
            update_post(
                *old(self),
                *final(self),
                event,
                *old(context),
                *final(context),
                *old(peripherals),
                *final(peripherals),
            ),
    {
        let mut update = context.need_update();
        if event == Some(InputEvent::LeftHeld) {
            context.to_menu();
            return ;
        }
        if self.on_event(event) {
            update = true;
        }
        if self.tick(&mut peripherals.rng) {
            update = true;
        }
        if update {
            let cols = self.render();
            show_cols(&mut peripherals.actions, cols);
        }
    }
}

/// One cycle of `Traffic::update`: the mode `s0` becomes `s1`, the context `c0` becomes `c1` and
/// the peripherals `p0` become `p1` on `event`.
pub open spec fn update_post(
    s0: Traffic,
    s1: Traffic,
    event: Option<InputEvent>,
    c0: Context,
    c1: Context,
    p0: Peripherals,
    p1: Peripherals,
) -> bool {
    &&& traffic_inv(s1.model())
    &&& p1.adc == p0.adc
    &&& c1.tone_enabled == c0.tone_enabled
    &&& c1.settings == c0.settings
    &&& event == Some(InputEvent::LeftHeld) ==> {
        &&& c1.mode_index == 0
        &&& c1.menu_counter == c0.menu_counter.wrapping_add(1)
        &&& s1.model() == s0.model()
        &&& p1.actions@ == p0.actions@
    }
    &&& event != Some(InputEvent::LeftHeld) ==> {
        let (m, frame, k) = traffic_step(
            s0.model(),
            event,
            p0.rng,
            c0.redraw,
        );
        &&& s1.model() == m
        &&& c1.mode_index == c0.mode_index
        &&& c1.menu_counter == c0.menu_counter
        &&& !c1.redraw
        &&& if k == 0 {
            p1.rng == p0.rng
        } else {
            advanced_by(p0.rng, p1.rng, k)
        }
        &&& match frame {
            Some(f) => appended_cols(
                p0.actions@,
                p1.actions@,
                f,
            ),
            None => p1.actions@ == p0.actions@,
        }
    }
}

} // verus!
