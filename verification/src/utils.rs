use vstd::prelude::*;

verus! {

/// A fieldless enum whose variants are numbered `0..count()` and can be stepped through.
pub trait EnumCycle: Sized + Copy {
    /// The position of a variant in declaration order.
    spec fn spec_index(self) -> nat;

    /// The number of variants.
    spec fn spec_count() -> nat;

    /// The variant at position `i` (the last one for positions past the end).
    spec fn spec_from_index(i: nat) -> Self;

    /// Every variant's position is below the number of variants.
    proof fn lemma_index_bound(self)
        ensures
            self.spec_index() < Self::spec_count(),
    ;

    /// The variant at a position in range has that position.
    proof fn lemma_from_index(i: nat)
        requires
            i < Self::spec_count(),
        ensures
            Self::spec_from_index(i).spec_index() == i,
    ;

    /// A variant is the one at its own position.
    proof fn lemma_at_own_index(self)
        ensures
            Self::spec_from_index(self.spec_index()) == self,
    ;

    /// The number of variants, at least one.
    fn count() -> (c: u8)
        ensures
            c as nat == Self::spec_count(),
            c >= 1,
    ;

    /// The position of `self` in declaration order.
    fn to_u8(self) -> (r: u8)
        ensures
            r as nat == self.spec_index(),
            (r as nat) < Self::spec_count(),
    ;

    /// The variant at position `val`.
    fn from_u8(val: u8) -> (r: Self)
        requires
            (val as nat) < Self::spec_count(),
        ensures
            r.spec_index() == val as nat,
            r == Self::spec_from_index(val as nat),
    ;

    /// The following variant, or `self` when it is the last one.
    fn next(self) -> (r: Self)
        ensures
            r.spec_index() == if self.spec_index() + 1 < Self::spec_count() {
                self.spec_index() + 1
            } else {
                self.spec_index()
            },
            r == if self.spec_index() + 1 < Self::spec_count() {
                Self::spec_from_index(self.spec_index() + 1)
            } else {
                self
            },
    {
        let cur = self.to_u8();
        let count = Self::count();
        if cur < count - 1 {
            Self::from_u8(cur + 1)
        } else {
            self
        }
    }

    /// The following variant, wrapping from the last one back to the first.
    fn next_wrapping(self) -> (r: Self)
        ensures
            r.spec_index() == (self.spec_index() + 1) % Self::spec_count(),
            r == Self::spec_from_index((self.spec_index() + 1) % Self::spec_count()),
    {
        let cur = self.to_u8();
        let count = Self::count();
        let next = ((cur as u16 + 1) % (count as u16)) as u8;
        Self::from_u8(next)
    }

    /// The preceding variant, or `self` when it is the first one.
    fn prev(self) -> (r: Self)
        ensures
            r.spec_index() == if self.spec_index() > 0 {
                (self.spec_index() - 1) as nat
            } else {
                self.spec_index()
            },
            r == if self.spec_index() > 0 {
                Self::spec_from_index((self.spec_index() - 1) as nat)
            } else {
                self
            },
    {
        let cur = self.to_u8();
        if cur > 0 {
            Self::from_u8(cur - 1)
        } else {
            self
        }
    }
}

/// Ten to the power `j`.
pub open spec fn pow10(j: nat) -> nat
    decreases j,
{
    if j == 0 {
        1
    } else {
        10 * pow10((j - 1) as nat)
    }
}

/// How many digits of the value stand right of the position `k` of a field (`k = 0` is the
/// rightmost position): the decimal point, when there is one, takes position `decimals`.
pub open spec fn digit_index(decimals: nat, k: nat) -> nat {
    if decimals > 0 && k > decimals {
        (k - 1) as nat
    } else {
        k
    }
}

/// The character at position `k` (counted from the right, from 0) of the right-aligned decimal
/// field that shows `value` with `decimals` digits after a decimal point: the decimal digits of
/// `value`, padded with `'0'` to at least `decimals + 1` digits, a `'.'` before the last
/// `decimals` digits when `decimals > 0`, and spaces left of all that.
pub open spec fn uint_field_char(value: nat, decimals: nat, k: nat) -> u8 {
    if decimals > 0 && k == decimals {
        46u8
    } else {
        let j = digit_index(decimals, k);
        let rest = value / pow10(j);
        if rest > 0 || j <= decimals {
            (48 + rest % 10) as u8
        } else {
            32u8
        }
    }
}

/// The bytes of an optional suffix (none: empty).
pub open spec fn opt_bytes(suffix: Option<&[u8]>) -> Seq<u8> {
    match suffix {
        Some(s) => s@,
        None => Seq::empty(),
    }
}

/// `n` characters: `prefix` on the left, `suffix` on the right, and between them the decimal
/// field of `value` with `decimals` digits after the point (see `uint_field_char`).
pub open spec fn spec_format_uint(
    n: nat,
    prefix: Seq<u8>,
    value: nat,
    decimals: nat,
    suffix: Seq<u8>,
) -> Seq<u8> {
    let w = n - prefix.len() - suffix.len();
    Seq::new(
        n,
        |i: int|
            if i < prefix.len() {
                prefix[i]
            } else if i >= n - suffix.len() {
                suffix[i - (n - suffix.len())]
            } else {
                uint_field_char(value, decimals, (prefix.len() + w - 1 - i) as nat)
            },
    )
}

/// `n` characters: `left` on the left, `right` on the right, spaces between.
pub open spec fn spec_format_buf(n: nat, left: Seq<u8>, right: Seq<u8>) -> Seq<u8> {
    left + Seq::new((n - left.len() - right.len()) as nat, |i: int| 32u8) + right
}

/// The number of decimal digits of `v` (none for 0).
pub open spec fn num_digits(v: nat) -> nat
    decreases v,
{
    if v == 0 {
        0
    } else {
        1 + num_digits(v / 10)
    }
}

/// A value with more than `k` digits is at least `10^k`.
proof fn lemma_digits_pow10(v: nat, k: nat)
    requires
        k < num_digits(v),
    ensures
        pow10(k) <= v,
    decreases k,
{
    if k > 0 {
        lemma_digits_pow10(v / 10, (k - 1) as nat);
        assert(pow10(k) == 10 * pow10((k - 1) as nat));
    } else {
        assert(pow10(0) == 1);
    }
}

/// Writes `prefix` at the left end of `buf`, `suffix` (when given) at its right end, and between
/// them the decimal field of `value` with `decimal_digits` digits after the point (see
/// `uint_field_char`), cut on the left when it does not fit.
pub fn format_uint(
    buf: &mut [u8],
    prefix: &[u8],
    value: u16,
    decimal_digits: u16,
    suffix: Option<&[u8]>,
)
    requires
        prefix@.len() + (match suffix {
            Some(s) => s@.len(),
            None => 0,
        }) <= old(buf)@.len(),
        decimal_digits < u16::MAX || old(buf)@.len() - prefix@.len() - opt_bytes(suffix).len()
            <= num_digits(value as nat),
    ensures
        final(buf)@.len() == old(buf)@.len(),
        final(buf)@ == spec_format_uint(
            old(buf)@.len(),
            prefix@,
            value as nat,
            decimal_digits as nat,
            opt_bytes(suffix),
        ),
        ({
            let n = old(buf)@.len();
            let p = prefix@.len();
            let s = match suffix {
                Some(s) => s@.len(),
                None => 0nat,
            };
            let w = (n - p - s) as nat;
            &&& final(buf)@.subrange(0, p as int) == prefix@
            &&& (match suffix {
                Some(sfx) => final(buf)@.subrange((n - s) as int, n as int) == sfx@,
                None => true,
            })
            &&& forall|k: int|
                0 <= k < w ==> #[trigger] final(buf)@[p + w - 1 - k] == uint_field_char(
                    value as nat,
                    decimal_digits as nat,
                    k as nat,
                )
        }),
{
    let num_chars = buf.len();
    let prefix_len = prefix.len();
    let ghost n = num_chars as nat;

    // copy prefix to buf (i.e. "Ve:____")
    let mut i: usize = 0;
    while i < prefix_len
        invariant
            i <= prefix_len,
            prefix_len == prefix@.len(),
            prefix_len <= buf@.len(),
            buf@.len() == n,
            forall|t: int| 0 <= t < i ==> buf@[t] == prefix@[t],
        decreases prefix_len - i,
    {
        buf[i] = prefix[i];
        i = i + 1;
    }

    // copy suffix to buf if provided
    let suffix_len: usize = match suffix {
        Some(sfx) => sfx.len(),
        None => 0,
    };
    let ghost buf_with_prefix = buf@;
    if let Some(sfx) = suffix {
        let mut t: usize = 0;
        while t < suffix_len
            invariant
                t <= suffix_len,
                suffix_len == sfx@.len(),
                prefix_len + suffix_len <= num_chars,
                buf@.len() == n,
                n == num_chars,
                buf_with_prefix.len() == n,
                forall|u: int| 0 <= u < prefix_len ==> buf@[u] == buf_with_prefix[u],
                forall|u: int| 0 <= u < t ==> buf@[num_chars - suffix_len + u] == sfx@[u],
            decreases suffix_len - t,
        {
            buf[num_chars - suffix_len + t] = sfx[t];
            t = t + 1;
        }
    }
    assert(buf@.subrange(0, prefix_len as int) =~= prefix@);

    // now copy the value by digit into buf from the right
    let ghost buf_framed = buf@;
    let ghost d = decimal_digits as nat;
    let mut need_decimal = decimal_digits > 0;
    let mut digits_in_buf: u16 = 0;
    let mut value = value;
    let ghost orig = value as nat;
    let value_len = num_chars - prefix_len - suffix_len;
    let mut index = prefix_len + value_len;
    assert(pow10(0) == 1);
    assert(orig / 1 == orig);
    assert(digit_index(d, 0) == 0);
    while index > prefix_len
        invariant
            prefix_len <= index <= prefix_len + value_len,
            prefix_len + value_len + suffix_len == num_chars,
            buf@.len() == n,
            n == num_chars,
            d == decimal_digits as nat,
            decimal_digits < u16::MAX || value_len <= num_digits(orig),
            orig <= u16::MAX,
            buf_framed.len() == n,
            ({
                let k = (prefix_len + value_len - index) as nat;
                let j = digit_index(d, k);
                &&& value as nat == orig / pow10(j)
                &&& digits_in_buf as nat <= j
                &&& (digits_in_buf as nat) < j ==> (value == 0 && digits_in_buf as nat
                    >= d + 1)
                &&& need_decimal == (d > 0 && k <= d)
            }),
            forall|u: int|
                (0 <= u < prefix_len || prefix_len + value_len <= u < n) ==> buf@[u]
                    == buf_framed[u],
            forall|k: int|
                0 <= k < prefix_len + value_len - index ==> #[trigger] buf@[prefix_len
                    + value_len - 1 - k] == uint_field_char(orig, d, k as nat),
        decreases index - prefix_len,
    {
        index = index - 1;
        let ghost k = (prefix_len + value_len - 1 - index) as nat;
        let ghost j = digit_index(d, k);
        proof {
            assert(pow10(j) > 0) by {
                lemma_pow10_pos(j);
            }
            lemma_pow10_pos(j);
        }
        if need_decimal && digits_in_buf == decimal_digits {
            buf[index] = 46u8;
            need_decimal = false;
            proof {
                assert(k == d);
                assert(digit_index(d, k + 1) == j);
            }
        } else if value > 0 {
            proof {
                assert(!(d > 0 && k == d));
                assert(digits_in_buf as nat == j);
                lemma_pow10_pos(j);
                if pow10(j) > orig {
                    vstd::arithmetic::div_mod::lemma_basic_div(orig as int, pow10(j) as int);
                }
                lemma_pow10_grows(j);
                vstd::arithmetic::div_mod::lemma_div_denominator(orig as int, pow10(j) as int, 10);
                assert(pow10(j + 1) == pow10(j) * 10);
                assert(digit_index(d, k + 1) == j + 1);
            }
            buf[index] = 48u8 + (value % 10) as u8;
            value = value / 10;
            digits_in_buf = digits_in_buf + 1;
        } else {
            proof {
                assert(!(d > 0 && k == d));
                lemma_pow10_pos(j);
                vstd::arithmetic::div_mod::lemma_div_denominator(orig as int, pow10(j) as int, 10);
                assert(pow10(j + 1) == pow10(j) * 10);
            }
            proof {
                if decimal_digits == u16::MAX {
                    assert(k < num_digits(orig));
                    lemma_digits_pow10(orig, k);
                    lemma_pow10_grows(k);
                    assert(j == k);
                    let q = pow10(k);
                    assert(orig / q >= 1) by (nonlinear_arith)
                        requires
                            0 < q <= orig,
                    ;
                }
            }
            if digits_in_buf < 1 + decimal_digits {
                proof {
                    assert(digits_in_buf as nat == j);
                    assert(digit_index(d, k + 1) == j + 1);
                }
                digits_in_buf = digits_in_buf + 1;
                buf[index] = 48u8;
            } else {
                proof {
                    assert(digit_index(d, k + 1) == j + 1);
                }
                buf[index] = 32u8;
            }
        }
    }
    assert(buf@.subrange(0, prefix_len as int) =~= prefix@);
    if let Some(sfx) = suffix {
        assert(buf@.subrange((num_chars - suffix_len) as int, num_chars as int) =~= sfx@);
    }
    assert forall|i: int| 0 <= i < n implies buf@[i] == spec_format_uint(
        n,
        prefix@,
        orig,
        d,
        opt_bytes(suffix),
    )[i] by {
        if prefix_len <= i < prefix_len + value_len {
            let k = prefix_len + value_len - 1 - i;
            assert(buf@[prefix_len + value_len - 1 - k] == uint_field_char(orig, d, k as nat));
        } else if i >= prefix_len + value_len {
            if let Some(sfx) = suffix {
                assert(buf@[i] == buf@.subrange(
                    (num_chars - suffix_len) as int,
                    num_chars as int,
                )[i - (num_chars - suffix_len)]);
            }
        }
    }
    assert(buf@ =~= spec_format_uint(n, prefix@, orig, d, opt_bytes(suffix)));
}

/// `10^j` exceeds `j`.
pub proof fn lemma_pow10_grows(j: nat)
    ensures
        pow10(j) >= j + 1,
    decreases j,
{
    if j > 0 {
        lemma_pow10_grows((j - 1) as nat);
    }
}

/// `10^j` is positive.
pub proof fn lemma_pow10_pos(j: nat)
    ensures
        pow10(j) > 0,
    decreases j,
{
    if j > 0 {
        lemma_pow10_pos((j - 1) as nat);
    }
}

/// Writes `left` at the left end of `buf`, `right` at its right end, and spaces between them.
pub fn format_buf(buf: &mut [u8], left: &[u8], right: &[u8])
    requires
        left@.len() + right@.len() <= old(buf)@.len(),
    ensures
        final(buf)@.len() == old(buf)@.len(),
        final(buf)@ == spec_format_buf(old(buf)@.len(), left@, right@),
{
    let num_chars = buf.len();
    let left_len = left.len();
    let right_len = right.len();

    let mut i: usize = 0;
    while i < num_chars
        invariant
            i <= num_chars,
            num_chars == buf@.len(),
            left_len == left@.len(),
            right_len == right@.len(),
            left_len + right_len <= num_chars,
            forall|t: int|
                0 <= t < i ==> #[trigger] buf@[t] == if t < left_len {
                    left@[t]
                } else if t < num_chars - right_len {
                    32u8
                } else {
                    right@[t - (num_chars - right_len)]
                },
        decreases num_chars - i,
    {
        if i < left_len {
            buf[i] = left[i];
        } else if i < num_chars - right_len {
            buf[i] = 32u8;
        } else {
            buf[i] = right[i - (num_chars - right_len)];
        }
        i = i + 1;
    }
    assert(buf@ =~= left@ + Seq::new((num_chars - left_len - right_len) as nat, |i: int| 32u8)
        + right@);
}

/// The variant `k` steps of `next_wrapping` after `e`.
pub open spec fn wrapped<E: EnumCycle>(e: E, k: nat) -> E
    decreases k,
{
    if k == 0 {
        e
    } else {
        let prev = wrapped(e, (k - 1) as nat);
        E::spec_from_index((prev.spec_index() + 1) % E::spec_count())
    }
}

/// `prev` undoes `next` on any variant but the last, and `next` undoes `prev` on any variant
/// but the first.
pub proof fn lemma_prev_undoes_next<E: EnumCycle>(e: E)
    ensures
        e.spec_index() + 1 < E::spec_count() ==> {
            let n = E::spec_from_index(e.spec_index() + 1);
            n.spec_index() > 0 && E::spec_from_index((n.spec_index() - 1) as nat) == e
        },
        e.spec_index() > 0 ==> {
            let p = E::spec_from_index((e.spec_index() - 1) as nat);
            p.spec_index() + 1 < E::spec_count() && E::spec_from_index(p.spec_index() + 1) == e
        },
{
    e.lemma_index_bound();
    e.lemma_at_own_index();
    if e.spec_index() + 1 < E::spec_count() {
        E::lemma_from_index(e.spec_index() + 1);
    }
    if e.spec_index() > 0 {
        E::lemma_from_index((e.spec_index() - 1) as nat);
    }
}

/// `k` steps of `next_wrapping` move the position by `k`, wrapping around.
pub proof fn lemma_wrapping_index<E: EnumCycle>(e: E, k: nat)
    ensures
        wrapped(e, k).spec_index() == (e.spec_index() + k) % E::spec_count(),
        k > 0 ==> wrapped(e, k) == E::spec_from_index(wrapped(e, k).spec_index()),
    decreases k,
{
    e.lemma_index_bound();
    let c = E::spec_count();
    if k == 0 {
        vstd::arithmetic::div_mod::lemma_small_mod(e.spec_index(), c);
    } else {
        lemma_wrapping_index(e, (k - 1) as nat);
        let x: int = e.spec_index() + (k - 1);
        let ci: int = c as int;
        let y: int = 1 + x % ci;
        vstd::arithmetic::div_mod::lemma_mod_bound(y, ci);
        vstd::arithmetic::div_mod::lemma_add_mod_noop_right(1, x, ci);
        E::lemma_from_index((y % ci) as nat);
        assert(e.spec_index() + k == 1 + x);
    }
}

/// After as many steps of `next_wrapping` as there are variants, every variant comes back to
/// itself.
pub proof fn lemma_wrapping_period<E: EnumCycle>(e: E)
    ensures
        wrapped(e, E::spec_count()) == e,
{
    e.lemma_index_bound();
    e.lemma_at_own_index();
    let c = E::spec_count();
    lemma_wrapping_index(e, c);
    vstd::arithmetic::div_mod::lemma_mod_add_multiples_vanish(e.spec_index() as int, c as int);
    vstd::arithmetic::div_mod::lemma_small_mod(e.spec_index(), c);
    assert(e.spec_index() + c == c + e.spec_index());
}

/// `format_uint` writes every byte of the buffer: formatting the same value with the same
/// prefix, decimals and suffix into two buffers of one length gives the same bytes, whatever
/// the buffers held before.
pub proof fn lemma_format_uint_overwrites(
    b1: Seq<u8>,
    b2: Seq<u8>,
    prefix: Seq<u8>,
    value: nat,
    decimals: nat,
    suffix: Seq<u8>,
)
    requires
        b1.len() == b2.len(),
        prefix.len() + suffix.len() <= b1.len(),
    ensures
        spec_format_uint(b1.len(), prefix, value, decimals, suffix) == spec_format_uint(
            b2.len(),
            prefix,
            value,
            decimals,
            suffix,
        ),
{
}

} // verus!
