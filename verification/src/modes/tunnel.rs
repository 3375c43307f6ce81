use super::traffic::dec8;
use super::{appended_cols, show_cols, Context, Peripherals};
use crate::colbuf::{col_clear, col_contents, col_get, col_new, col_push, col_remove, ColBuf};
use crate::input::InputEvent;
use crate::random::{advanced_by, drawn_u8, lemma_advanced_trans, Rng};
use crate::{CHAR_WIDTH, COLUMN_GAP, NUM_COLS, NUM_ROWS, NUM_VIRT_COLS};
use vstd::prelude::*;

verus! {

/// Cycles between two new tunnel columns at the start.
pub const TUNNEL_PERIOD: u8 = 5;

/// The generator of the tunnel: where the open rows start, how many are open, and the limits of
/// that width, plus the pace at which columns come.
#[derive(Clone, Copy, Debug, PartialEq, Eq, Structural)]
pub struct TunnelState {
    pub counter: u8,
    pub period: u8,
    pub pos: u8,
    pub cur_width: u8,
    pub min_width: u8,
    pub max_width: u8,
}

/// The tunnel game: the runner stays in the tunnel that scrolls in from the right.
pub struct Tunnel {
    pub tunnel_cols: ColBuf,
    pub is_running: bool,
    pub runner_pos: u8,
    pub tunnel_state: TunnelState,
}

/// A column with rows `pos .. pos + width` open (bit off) and the others on; row 0 is the
/// most significant of the seven bits, considering only the first `n` rows.
pub open spec fn tunnel_bits(pos: u8, width: u8, n: nat) -> nat
    decreases n,
{
    if n == 0 {
        0
    } else {
        let i = (n - 1) as nat;
        let bit: nat = if pos as nat <= i && i < pos + width {
            0
        } else {
            1
        };
        tunnel_bits(pos, width, i) * 2 + bit
    }
}

/// The column of the tunnel with rows `pos .. pos + width` open.
pub open spec fn tunnel_col(pos: u8, width: u8) -> u8 {
    tunnel_bits(pos, width, NUM_ROWS as nat) as u8
}

/// The random bytes one new tunnel column takes.
pub open spec fn tunnel_draws(r: Rng) -> nat {
    if drawn_u8(r, 0) % 2 == 0 || drawn_u8(r, 1) % 2 != 0 {
        4
    } else {
        6
    }
}

/// The generator after producing one column from the bytes of `r`: the tunnel may shift up or
/// down by one row, or (when it does not shift) grow or shrink by one row within its limits;
/// with chance 1/100 the difficulty rises: two times in three the minimum width drops when it
/// is above one row; otherwise, while the maximum is above it, the minimum drops as well, down to
/// 0 and then wrapping below 0 as the device's 8-bit counter does (a wrapped minimum stops the
/// tunnel from shrinking). Without a difficulty step, with chance 1/200 the pace quickens.
pub open spec fn tunnel_advance(s: TunnelState, r: Rng) -> TunnelState {
    let will_shift = drawn_u8(r, 0) % 2 == 0;
    let rows = NUM_ROWS as int;
    let s1 = if will_shift {
        let shift_up = drawn_u8(r, 1) % 2 == 0;
        if shift_up && s.pos + s.cur_width < rows - 1 {
            TunnelState { pos: (s.pos + 1) as u8, ..s }
        } else if !shift_up && s.pos > 0 {
            TunnelState { pos: (s.pos - 1) as u8, ..s }
        } else {
            s
        }
    } else {
        s
    };
    let will_change_size = !will_shift && drawn_u8(r, 1) % 2 == 0;
    let s2 = if will_change_size {
        let shrink = drawn_u8(r, 2) % 2 == 0;
        let shift = drawn_u8(r, 3) % 2 == 0;
        if shrink && s1.cur_width > s1.min_width && s1.pos + s1.cur_width > 2 {
            TunnelState {
                pos: if shift {
                    (s1.pos + 1) as u8
                } else {
                    s1.pos
                },
                cur_width: (s1.cur_width - 1) as u8,
                ..s1
            }
        } else if !shrink && s1.cur_width < s1.max_width && s1.pos + s1.cur_width < rows - 1 {
            TunnelState {
                pos: if shift && s1.pos > 0 {
                    (s1.pos - 1) as u8
                } else {
                    s1.pos
                },
                cur_width: (s1.cur_width + 1) as u8,
                ..s1
            }
        } else {
            s1
        }
    } else {
        s1
    };
    let k = if will_change_size {
        4nat
    } else {
        2nat
    };
    let difficulty_increase = drawn_u8(r, k) % 100 == 0;
    if difficulty_increase {
        let min_size_decrease = drawn_u8(r, k + 1) % 3 != 0;
        if min_size_decrease && s2.min_width > 1 {
            TunnelState { min_width: (s2.min_width - 1) as u8, ..s2 }
        } else if s2.max_width > s2.min_width {
            TunnelState { min_width: dec8(s2.min_width), ..s2 }
        } else {
            s2
        }
    } else {
        let period_decrease = drawn_u8(r, k + 1) % 200 == 0;
        if period_decrease && s2.period > 1 {
            TunnelState { period: (s2.period - 1) as u8, ..s2 }
        } else {
            s2
        }
    }
}

/// Index, in the virtual display, of display column `o`: each character is followed by a gap.
pub open spec fn virt_index(o: int) -> int {
    (o / CHAR_WIDTH as int) * (CHAR_WIDTH + COLUMN_GAP) as int + o % CHAR_WIDTH as int
}

/// The bit of the runner's row (row 0 is bit 6).
pub open spec fn runner_col(pos: u8) -> u8 {
    (1u8 << ((NUM_ROWS - 1 - pos) as u8)) as u8
}

/// The display columns of the game: the visible tunnel columns, with the runner drawn into
/// columns 2 and 3.
pub open spec fn tunnel_frame(cols: Seq<u8>, pos: u8) -> Seq<u8> {
    Seq::new(
        NUM_COLS as nat,
        |o: int|
            if o == 2 || o == 3 {
                cols[o] | runner_col(pos)
            } else {
                cols[virt_index(o)]
            },
    )
}

/// Whether the runner hits a wall in columns 2 or 3.
pub open spec fn tunnel_collision(cols: Seq<u8>, pos: u8) -> bool {
    (cols[2] & runner_col(pos)) != 0 || (cols[3] & runner_col(pos)) != 0
}

impl TunnelState {
    /// The tunnel stays inside the display and its width within its maximum.
    pub open spec fn inv(&self) -> bool {
        &&& self.pos + self.cur_width <= NUM_ROWS - 1
        &&& self.max_width <= NUM_ROWS - 1
        &&& self.cur_width <= self.max_width
        &&& self.period >= 1
        &&& self.counter < self.period
    }

    /// A tunnel of width 5 starting at row 1, widening up to 6.
    pub fn new() -> (r: Self)
        ensures
            r.inv(),
            r == (TunnelState {
                counter: 0,
                period: TUNNEL_PERIOD,
                pos: 1,
                cur_width: (NUM_ROWS - 2) as u8,
                min_width: (NUM_ROWS - 2) as u8,
                max_width: (NUM_ROWS - 1) as u8,
            }),
    {
        TunnelState {
            counter: 0,
            period: TUNNEL_PERIOD,
            pos: 1,
            cur_width: NUM_ROWS as u8 - 2,
            min_width: NUM_ROWS as u8 - 2,
            max_width: NUM_ROWS as u8 - 1,
        }
    }

    /// Counts one cycle; every `period` cycles the tunnel moves (see `tunnel_advance`) and its
    /// next column is given.
    pub fn next_tunnel_col(&mut self, rng: &mut Rng) -> (r: Option<u8>)
        requires
            old(self).inv(),
        ensures
            final(self).inv(),
            ((old(self).counter + 1) % (old(self).period as int)) != 0 ==> {
                &&& r is None
                &&& *final(rng) == *old(rng)
                &&& *final(self) == TunnelState {
                    counter: ((old(self).counter + 1) % (old(self).period as int)) as u8,
                    ..*old(self)
                }
            },
            ((old(self).counter + 1) % (old(self).period as int)) == 0 ==> {
                let s = tunnel_advance(TunnelState { counter: 0, ..*old(self) }, *old(rng));
                &&& *final(self) == s
                &&& r == Some(tunnel_col(s.pos, s.cur_width))
                &&& advanced_by(*old(rng), *final(rng), tunnel_draws(*old(rng)))
            },
    {
        self.counter = (self.counter + 1) % self.period;
        if self.counter != 0 {
            return None;
        }
        let ghost r0 = *rng;
        let ghost s0 = *self;
        let rows = NUM_ROWS as u8;

        // shift/expand tunnel
        let d0 = rng.get_u8();
        let will_shift = d0 % 2 == 0;
        let ghost r1 = *rng;
        let d1 = rng.get_u8();
        proof {
            lemma_advanced_trans(r0, r1, *rng, 1, 1);
        }
        if will_shift {
            let shift_up = d1 % 2 == 0;
            if shift_up && self.pos + self.cur_width < rows - 1 {
                self.pos = self.pos + 1;
            } else if !shift_up && self.pos > 0 {
                self.pos = self.pos - 1;
            }
        }
        let will_change_size = !will_shift && d1 % 2 == 0;
        let ghost r2 = *rng;
        let mut drawn: usize = 2;
        if will_change_size {
            let shrink = rng.get_u8() % 2 == 0;
            let ghost r3 = *rng;
            proof {
                lemma_advanced_trans(r0, r2, r3, 2, 1);
            }
            let shift = rng.get_u8() % 2 == 0;
            proof {
                lemma_advanced_trans(r0, r3, *rng, 3, 1);
            }
            drawn = 4;
            if shrink && self.cur_width > self.min_width && self.pos + self.cur_width > 2 {
                if shift {
                    self.pos = self.pos + 1;
                }
                self.cur_width = self.cur_width - 1;
            } else if !shrink && self.cur_width < self.max_width && self.pos + self.cur_width < rows
                - 1 {
                if shift && self.pos > 0 {
                    self.pos = self.pos - 1;
                }
                self.cur_width = self.cur_width + 1;
            }
        }
        let ghost rk = *rng;
        let dk = rng.get_u8();
        let difficulty_increase = dk % 100 == 0;
        let ghost rk1 = *rng;
        proof {
            lemma_advanced_trans(r0, rk, rk1, drawn as nat, 1);
        }
        let dk1 = rng.get_u8();
        proof {
            lemma_advanced_trans(r0, rk1, *rng, drawn as nat + 1, 1);
        }
        if difficulty_increase {
            let min_size_decrease = dk1 % 3 != 0;  // 2/3 chance to decrease min size
            if min_size_decrease && self.min_width > 1 {
                self.min_width = self.min_width - 1;
            } else if self.max_width > self.min_width {
                self.min_width = self.min_width.wrapping_sub(1);
            }
        } else {
            let period_decrease = dk1 % 200 == 0;
            if period_decrease {
                if self.period > 1 {
                    self.period = self.period - 1;
                }
            }
        }

        // generate next col
        let mut col: u8 = 0;
        let mut i: usize = 0;
        while i < NUM_ROWS
            invariant
                i <= NUM_ROWS,
                self.pos + self.cur_width <= NUM_ROWS - 1,
                col as nat == tunnel_bits(self.pos, self.cur_width, i as nat),
                col < pow2_7(i as nat),
            decreases NUM_ROWS - i,
        {
            let bit: u8 = if (i as u8) >= self.pos && (i as u8) < self.pos + self.cur_width {
                0
            } else {
                1
            };
            proof {
                reveal_with_fuel(pow2_7, 8);
                assert(col * 2 + bit < pow2_7((i + 1) as nat));
                assert((col << 1u8) | bit == col * 2 + bit) by (bit_vector)
                    requires
                        col < 128,
                        bit < 2,
                ;
            }
            col = col << 1u8 | bit;
            i = i + 1;
        }
        Some(col)
    }
}

/// `2^i` for the rows of a column.
pub open spec fn pow2_7(i: nat) -> nat
    decreases i,
{
    if i == 0 {
        1
    } else {
        2 * pow2_7((i - 1) as nat)
    }
}

/// A buffer of `NUM_VIRT_COLS` empty columns.
fn empty_cols() -> (r: ColBuf)
    ensures
        col_contents(r) == Seq::new(NUM_VIRT_COLS as nat, |i: int| 0u8),
{
    let mut buf = col_new();
    push_zeros(&mut buf);
    buf
}

/// Fills an empty buffer with `NUM_VIRT_COLS` empty columns.
fn push_zeros(buf: &mut ColBuf)
    requires
        col_contents(*old(buf)) == Seq::<u8>::empty(),
    ensures
        col_contents(*final(buf)) == Seq::new(NUM_VIRT_COLS as nat, |i: int| 0u8),
{
    let mut i: usize = 0;
    assert(col_contents(*buf) =~= Seq::new(0, |t: int| 0u8));
    while i < NUM_VIRT_COLS
        invariant
            i <= NUM_VIRT_COLS,
            col_contents(*buf) == Seq::new(i as nat, |t: int| 0u8),
        decreases NUM_VIRT_COLS - i,
    {
        let _ = col_push(buf, 0);
        i = i + 1;
        assert(col_contents(*buf) =~= Seq::new(i as nat, |t: int| 0u8));
    }
}

/// The display columns of the game and whether the runner hits a wall.
fn tunnel_render(tunnel_cols: &ColBuf, runner_pos: u8) -> (r: (ColBuf, bool))
    requires
        col_contents(*tunnel_cols).len() == NUM_VIRT_COLS,
        (runner_pos as nat) < NUM_ROWS,
    ensures
        col_contents(r.0) == tunnel_frame(col_contents(*tunnel_cols), runner_pos),
        r.1 == tunnel_collision(col_contents(*tunnel_cols), runner_pos),
{
    let runner: u8 = 1u8 << (NUM_ROWS as u8 - runner_pos - 1);
    let ghost tc = col_contents(*tunnel_cols);
    let mut collision = false;
    let mut cols = col_new();
    let mut i: usize = 0;
    while i < NUM_VIRT_COLS
        invariant
            i <= NUM_VIRT_COLS,
            tc == col_contents(*tunnel_cols),
            tc.len() == NUM_VIRT_COLS,
            runner == runner_col(runner_pos),
            col_contents(cols).len() == (i / 7) * 5 + if i % 7 < 5 {
                i % 7
            } else {
                5
            },
            forall|o: int|
                0 <= o < col_contents(cols).len() ==> #[trigger] col_contents(cols)[o] == tunnel_frame(tc, runner_pos)[o],
            collision == ((col_contents(cols).len() > 2 && (tc[2] & runner) != 0) || (col_contents(cols).len() > 3 && (tc[3]
                & runner) != 0)),
        decreases NUM_VIRT_COLS - i,
    {
        if i % (CHAR_WIDTH + COLUMN_GAP) < CHAR_WIDTH {
            let mut col = match col_get(tunnel_cols, i) {
                Some(c) => c,
                None => 0,
            };
            if i == 2 || i == 3 {
                if col & runner != 0 {
                    collision = true;
                }
                col = col | runner;
            }
            proof {
                let o = col_contents(cols).len() as int;
                assert(o < 40) by (nonlinear_arith)
                    requires
                        o == (i / 7) * 5 + i % 7,
                        i < 54,
                ;
                assert(virt_index(o) == i) by (nonlinear_arith)
                    requires
                        o == (i / 7) * 5 + i % 7,
                        i % 7 < 5,
                ;
            }
            let _ = col_push(&mut cols, col);
        }
        i = i + 1;
    }
    assert(col_contents(cols) =~= tunnel_frame(tc, runner_pos));
    (cols, collision)
}

impl Tunnel {
    /// The buffer spans the virtual display, the runner is on a row, and the generator is valid.
    pub open spec fn inv(&self) -> bool {
        &&& col_contents(self.tunnel_cols).len() == NUM_VIRT_COLS
        &&& (self.runner_pos as nat) < NUM_ROWS
        &&& self.tunnel_state.inv()
    }

    /// An empty tunnel with the runner in the middle row, running.
    pub fn new() -> (r: Self)
        ensures
            r.inv(),
            col_contents(r.tunnel_cols) == Seq::new(NUM_VIRT_COLS as nat, |i: int| 0u8),
            r.is_running,
            r.runner_pos == (NUM_ROWS / 2) as u8,
            r.tunnel_state.counter == 0 && r.tunnel_state.period == TUNNEL_PERIOD,
    {
        Tunnel {
            tunnel_cols: empty_cols(),
            is_running: true,
            runner_pos: NUM_ROWS as u8 / 2,
            tunnel_state: TunnelState::new(),
        }
    }

    /// The bit of the runner's row.
    pub fn get_runner_col(&self) -> (r: u8)
        requires
            (self.runner_pos as nat) < NUM_ROWS,
        ensures
            r == runner_col(self.runner_pos),
    {
        1u8 << (NUM_ROWS as u8 - self.runner_pos - 1)
    }

    /// One cycle of the game: holding left goes back to the menu; holding right restarts a
    /// game that is over; releases move the runner down (left) or up (right) within the rows.
    /// While running, the tunnel scrolls by one column whenever the generator gives one. On any
    /// change the frame is shown, and a runner inside a wall ends the game.
    pub fn update(
        &mut self,
        event: Option<InputEvent>,
        context: &mut Context,
        peripherals: &mut Peripherals,
    )
        requires
            old(self).inv(),
        ensures
            update_post(
                *old(self),
                *final(self),
                event,
                *old(context),
                *final(context),
                *old(peripherals),
                *final(peripherals),
            ),
    {
        let mut update = context.need_update();

        match event {
            Some(InputEvent::LeftHeld) => {
                context.to_menu();
                return ;
            },
            Some(InputEvent::RightHeld) => {
                // restart if over
                if !self.is_running {
                    update = true;
                    col_clear(&mut self.tunnel_cols);
                    push_zeros(&mut self.tunnel_cols);
                    self.tunnel_state = TunnelState::new();
                    self.is_running = true;
                }
            },
            Some(InputEvent::LeftReleased) => {
                update = true;
                if self.runner_pos < NUM_ROWS as u8 - 1 {
                    self.runner_pos = self.runner_pos + 1;
                }
            },
            Some(InputEvent::RightReleased) => {
                update = true;
                if self.runner_pos > 0 {
                    self.runner_pos = self.runner_pos - 1;
                }
            },
            _ => {},
        }

        if self.is_running {
            if let Some(new_tunnel_col) = self.tunnel_state.next_tunnel_col(&mut peripherals.rng) {
                update = true;
                let _ = col_remove(&mut self.tunnel_cols, 0);
                let _ = col_push(&mut self.tunnel_cols, new_tunnel_col);
            }
        }

        if update {
            let (cols, collision) = tunnel_render(&self.tunnel_cols, self.runner_pos);
            if collision {
                self.is_running = false;
            }
            show_cols(&mut peripherals.actions, cols);
        }
    }
}

/// One cycle of `Tunnel::update`: the mode `s0` becomes `s1`, the context `c0` becomes `c1` and
/// the peripherals `p0` become `p1` on `event`.
pub open spec fn update_post(
    s0: Tunnel,
    s1: Tunnel,
    event: Option<InputEvent>,
    c0: Context,
    c1: Context,
    p0: Peripherals,
    p1: Peripherals,
) -> bool {
    &&& s1.inv()
    &&& p1.adc == p0.adc
    &&& c1.tone_enabled == c0.tone_enabled
    &&& c1.settings == c0.settings
    &&& event == Some(InputEvent::LeftHeld) ==> {
        &&& c1.mode_index == 0
        &&& c1.menu_counter == c0.menu_counter.wrapping_add(1)
        &&& p1.actions@ == p0.actions@
    }
    &&& event != Some(InputEvent::LeftHeld) ==> {
        let restart = event == Some(InputEvent::RightHeld) && !s0.is_running;
        let pos = match event {
            Some(InputEvent::LeftReleased) => if s0.runner_pos + 1 < NUM_ROWS {
                (s0.runner_pos + 1) as u8
            } else {
                s0.runner_pos
            },
            Some(InputEvent::RightReleased) => if s0.runner_pos > 0 {
                (s0.runner_pos - 1) as u8
            } else {
                s0.runner_pos
            },
            _ => s0.runner_pos,
        };
        let cols0 = if restart {
            Seq::new(NUM_VIRT_COLS as nat, |i: int| 0u8)
        } else {
            col_contents(s0.tunnel_cols)
        };
        let gen0 = if restart {
            TunnelState {
                counter: 0,
                period: TUNNEL_PERIOD,
                pos: 1,
                cur_width: (NUM_ROWS - 2) as u8,
                min_width: (NUM_ROWS - 2) as u8,
                max_width: (NUM_ROWS - 1) as u8,
            }
        } else {
            s0.tunnel_state
        };
        let running = restart || s0.is_running;
        let tick = ((gen0.counter + 1) % (gen0.period as int)) == 0;
        let scrolls = running && tick;
        let gen1 = if !running {
            gen0
        } else if tick {
            tunnel_advance(TunnelState { counter: 0, ..gen0 }, p0.rng)
        } else {
            TunnelState { counter: ((gen0.counter + 1) % (gen0.period as int)) as u8, ..gen0 }
        };
        let cols = if scrolls {
            cols0.drop_first().push(tunnel_col(gen1.pos, gen1.cur_width))
        } else {
            cols0
        };
        let draw = c0.redraw || restart || scrolls || event == Some(
            InputEvent::LeftReleased,
        ) || event == Some(InputEvent::RightReleased);
        &&& s1.runner_pos == pos
        &&& s1.tunnel_state == gen1
        &&& col_contents(s1.tunnel_cols) == cols
        &&& c1.mode_index == c0.mode_index
        &&& c1.menu_counter == c0.menu_counter
        &&& !c1.redraw
        &&& if scrolls {
            advanced_by(p0.rng, p1.rng, tunnel_draws(p0.rng))
        } else {
            p1.rng == p0.rng
        }
        &&& if draw {
            &&& s1.is_running == (running && !tunnel_collision(cols, pos))
            &&& appended_cols(
                p0.actions@,
                p1.actions@,
                tunnel_frame(cols, pos),
            )
        } else {
            &&& s1.is_running == running
            &&& p1.actions@ == p0.actions@
        }
    }
}

/// A step of the generator never narrows the tunnel below its minimum: a shrink happens only
/// from above the minimum and by one row. So a tunnel at least its minimum wide stays so, unless
/// the minimum wraps below 0.
pub proof fn lemma_width_above_min(s: TunnelState, r: Rng)
    ensures
        tunnel_advance(s, r).cur_width >= s.cur_width || (tunnel_advance(s, r).cur_width
            == s.cur_width - 1 && s.cur_width > s.min_width),
        tunnel_advance(s, r).min_width <= s.min_width || (s.min_width == 0 && tunnel_advance(
            s,
            r,
        ).min_width == 255),
        s.min_width <= s.cur_width && tunnel_advance(s, r).min_width <= s.min_width ==> tunnel_advance(
            s,
            r,
        ).min_width <= tunnel_advance(s, r).cur_width,
{
}

} // verus!
