//! The text shown when the firmware stops on a fault: "PANIC!" and where it happened, padded
//! with blanks and scrolled across the display.

use crate::NUM_CHARS;
use vstd::prelude::*;

verus! {

/// Bytes kept of the fault message.
pub const PANIC_MSG_LEN: usize = 64;

/// A writer into a fixed buffer that keeps what fits and drops the rest.
pub struct ByteArrayWriter {
    buffer: Vec<u8>,
    pos: usize,
}

impl ByteArrayWriter {
    /// The bytes written so far.
    pub closed spec fn written(&self) -> Seq<u8> {
        self.buffer@.subrange(0, self.pos as int)
    }

    /// The size of the buffer.
    pub closed spec fn capacity(&self) -> nat {
        self.buffer@.len()
    }

    /// The write position lies in the buffer.
    pub closed spec fn wf(&self) -> bool {
        self.pos <= self.buffer@.len()
    }

    /// Nothing written yet into `buffer`.
    pub fn new(buffer: Vec<u8>) -> (r: Self)
        ensures
            r.wf(),
            r.written() == Seq::<u8>::empty(),
            r.capacity() == buffer@.len(),
    {
        let r = ByteArrayWriter { buffer, pos: 0 };
        assert(r.written() =~= Seq::<u8>::empty());
        r
    }

    /// A copy of the bytes written so far.
    pub fn as_bytes(&self) -> (r: Vec<u8>)
        requires
            self.wf(),
        ensures
            r@ == self.written(),
    {
        let mut r: Vec<u8> = Vec::new();
        let mut i: usize = 0;
        while i < self.pos
            invariant
                i <= self.pos <= self.buffer@.len(),
                r@ == self.buffer@.subrange(0, i as int),
            decreases self.pos - i,
        {
            r.push(self.buffer[i]);
            i = i + 1;
            assert(r@ =~= self.buffer@.subrange(0, i as int));
        }
        r
    }

    /// Appends as much of `s` as still fits.
    pub fn write_str(&mut self, s: &[u8])
        requires
            old(self).wf(),
        ensures
            final(self).wf(),
            final(self).capacity() == old(self).capacity(),
            final(self).written() == old(self).written() + s@.subrange(
                0,
                min(s@.len() as int, old(self).capacity() - old(self).written().len()),
            ),
    {
        let remaining = self.buffer.len() - self.pos;
        let to_copy = if s.len() < remaining {
            s.len()
        } else {
            remaining
        };
        let ghost w0 = self.written();
        let mut i: usize = 0;
        while i < to_copy
            invariant
                i <= to_copy,
                self.pos + to_copy <= self.buffer.len(),
                self.buffer@.len() == old(self).buffer@.len(),
                to_copy <= s@.len(),
                self.pos == old(self).pos,
                w0 == old(self).buffer@.subrange(0, self.pos as int),
                self.buffer@.subrange(0, self.pos as int) == w0,
                forall|j: int|
                    self.pos <= j < self.pos + i ==> #[trigger] self.buffer@[j] == s@[j - self.pos],
            decreases to_copy - i,
        {
            self.buffer.set(self.pos + i, s[i]);
            i = i + 1;
            assert(self.buffer@.subrange(0, self.pos as int) =~= w0);
        }
        let ghost p = self.pos;
        self.pos = self.pos + to_copy;
        assert(self.buffer@.subrange(0, self.pos as int) =~= w0 + s@.subrange(0, to_copy as int))
            by {
            assert(self.buffer@.subrange(0, p as int) == w0);
        }
    }

    /// Appends the byte `c` if it still fits.
    pub fn write_char(&mut self, c: u8)
        requires
            old(self).wf(),
        ensures
            final(self).wf(),
            final(self).capacity() == old(self).capacity(),
            final(self).written() == if old(self).written().len() < old(self).capacity() {
                old(self).written().push(c)
            } else {
                old(self).written()
            },
    {
        let one = [c];
        self.write_str(&one);
        assert(one@.subrange(0, 1) =~= seq![c]);
        assert(one@.subrange(0, 0) =~= Seq::<u8>::empty());
        assert(old(self).written() + Seq::<u8>::empty() =~= old(self).written());
    }
}

/// The smaller of two integers.
pub open spec fn min(a: int, b: int) -> int {
    if a < b {
        a
    } else {
        b
    }
}

/// The decimal digits of `n`, as ASCII, without leading zeros.
pub open spec fn decimal(n: nat) -> Seq<u8>
    decreases n,
{
    if n < 10 {
        seq![(48 + n) as u8]
    } else {
        decimal(n / 10).push((48 + n % 10) as u8)
    }
}

/// Appends the decimal digits of `n`.
pub fn push_decimal(out: &mut Vec<u8>, n: u32)
    ensures
        final(out)@ == old(out)@ + decimal(n as nat),
    decreases n,
{
    if n >= 10 {
        push_decimal(out, n / 10);
    }
    out.push(48 + (n % 10) as u8);
    proof {
        if n >= 10 {
            assert(old(out)@ + decimal(n as nat) =~= old(out)@ + decimal((n / 10) as nat) + seq![
                (48 + n % 10) as u8,
            ]);
        }
    }
}

/// `NUM_CHARS` blanks, which scroll the message in and out.
pub open spec fn blanks() -> Seq<u8> {
    Seq::new(NUM_CHARS as nat, |i: int| 32u8)
}

/// "PANIC! ".
pub open spec fn panic_word() -> Seq<u8> {
    seq![80u8, 65, 78, 73, 67, 33, 32]
}

/// The whole message before it is cut to `PANIC_MSG_LEN` bytes: blanks, "PANIC! ", and, where
/// the place of the fault is known, `file:line:column`, then blanks.
pub open spec fn full_panic_message(location: Option<(Seq<u8>, nat, nat)>) -> Seq<u8> {
    blanks() + panic_word() + match location {
        Some((file, line, column)) => file + seq![58u8] + decimal(line) + seq![58u8] + decimal(
            column,
        ),
        None => Seq::empty(),
    } + blanks()
}

/// The first `n` bytes of `s` (all of it when shorter).
pub open spec fn cut(s: Seq<u8>, n: nat) -> Seq<u8> {
    s.subrange(0, min(s.len() as int, n as int))
}

/// Cutting a sequence after appending is appending to the cut sequence what still fits.
proof fn lemma_cut_append(a: Seq<u8>, b: Seq<u8>, n: nat)
    requires
        a.len() <= n,
    ensures
        cut(a + b, n) == a + b.subrange(0, min(b.len() as int, n - a.len())),
{
    assert(cut(a + b, n) =~= a + b.subrange(0, min(b.len() as int, n - a.len())));
}

/// A cut sequence stays cut when more is appended and cut again.
proof fn lemma_cut_cut(a: Seq<u8>, b: Seq<u8>, n: nat)
    ensures
        cut(cut(a, n) + b, n) == cut(a + b, n),
{
    if a.len() <= n {
        assert(cut(a, n) =~= a);
    } else {
        assert(cut(cut(a, n) + b, n) =~= cut(a + b, n));
    }
}

/// The message shown on a fault, cut to `PANIC_MSG_LEN` bytes (see `full_panic_message`).
pub fn panic_message(location: Option<(&[u8], u32, u32)>) -> (r: Vec<u8>)
    ensures
        r@ == cut(
            full_panic_message(
                match location {
                    Some((f, l, c)) => Some((f@, l as nat, c as nat)),
                    None => None,
                },
            ),
            PANIC_MSG_LEN as nat,
        ),
{
    let buffer: Vec<u8> = vec![0u8; PANIC_MSG_LEN];
    let mut writer = ByteArrayWriter::new(buffer);
    let mut i: usize = 0;
    while i < NUM_CHARS
        invariant
            i <= NUM_CHARS,
            writer.wf(),
            writer.capacity() == PANIC_MSG_LEN,
            writer.written() == Seq::new(i as nat, |j: int| 32u8),
        decreases NUM_CHARS - i,
    {
        writer.write_char(32);
        i = i + 1;
        assert(writer.written() =~= Seq::new(i as nat, |j: int| 32u8));
    }
    let word: [u8; 7] = [80u8, 65, 78, 73, 67, 33, 32];
    writer.write_str(&word);
    assert(writer.written() =~= blanks() + panic_word());
    let ghost head = blanks() + panic_word();
    let ghost mid: Seq<u8> = match location {
        Some((f, l, c)) => f@ + seq![58u8] + decimal(l as nat) + seq![58u8] + decimal(c as nat),
        None => Seq::empty(),
    };
    match location {
        Some((file, line, column)) => {
            let mut text: Vec<u8> = Vec::new();
            let mut k: usize = 0;
            while k < file.len()
                invariant
                    k <= file@.len(),
                    text@ == file@.subrange(0, k as int),
                decreases file.len() - k,
            {
                text.push(file[k]);
                k = k + 1;
                assert(text@ =~= file@.subrange(0, k as int));
            }
            text.push(58);
            push_decimal(&mut text, line);
            text.push(58);
            push_decimal(&mut text, column);
            assert(text@ =~= mid);
            writer.write_str(text.as_slice());
        },
        None => {
            assert(mid =~= Seq::<u8>::empty());
        },
    }
    proof {
        lemma_cut_append(head, mid, PANIC_MSG_LEN as nat);
    }
    assert(writer.written() == cut(head + mid, PANIC_MSG_LEN as nat));
    let ghost w1 = writer.written();
    let mut i: usize = 0;
    while i < NUM_CHARS
        invariant
            i <= NUM_CHARS,
            writer.wf(),
            writer.capacity() == PANIC_MSG_LEN,
            w1 == cut(head + mid, PANIC_MSG_LEN as nat),
            writer.written() == cut(w1 + Seq::new(i as nat, |j: int| 32u8), PANIC_MSG_LEN as nat),
        decreases NUM_CHARS - i,
    {
        let ghost before = writer.written();
        writer.write_char(32);
        proof {
            let s0 = w1 + Seq::new(i as nat, |j: int| 32u8);
            let s1 = w1 + Seq::new((i + 1) as nat, |j: int| 32u8);
            assert(s1 =~= s0.push(32u8));
            if s0.len() < PANIC_MSG_LEN {
                assert(cut(s0, PANIC_MSG_LEN as nat) =~= s0);
                assert(cut(s1, PANIC_MSG_LEN as nat) =~= s1);
            } else {
                assert(cut(s1, PANIC_MSG_LEN as nat) =~= cut(s0, PANIC_MSG_LEN as nat));
            }
        }
        i = i + 1;
    }
    proof {
        lemma_cut_cut(head + mid, blanks(), PANIC_MSG_LEN as nat);
        assert(Seq::new(NUM_CHARS as nat, |j: int| 32u8) == blanks());
        assert(head + mid + blanks() =~= full_panic_message(
            match location {
                Some((f, l, c)) => Some((f@, l as nat, c as nat)),
                None => None,
            },
        ));
    }
    writer.as_bytes()
}

/// Where the scrolling window starts next: one byte on, back to the start before it would run
/// past the end of a message `len` bytes long.
pub fn next_cursor(cursor: usize, len: usize) -> (r: usize)
    requires
        len > NUM_CHARS,
        cursor < len,
    ensures
        r == (cursor + 1) % ((len - NUM_CHARS) as int),
        r + NUM_CHARS < len,
{
    (cursor + 1) % (len - NUM_CHARS)
}

} // verus!
