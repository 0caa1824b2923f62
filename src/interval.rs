use vstd::prelude::*;

verus! {

/// Ticks in one price unit: a price of 1.5 is stored as 1_500_000.
pub const TICKS_PER_UNIT: i64 = 1_000_000;

/// Largest magnitude of a coordinate that grid and frame arithmetic accepts.
pub const COORD_LIMIT: i64 = 1_000_000_000_000_000_000;

/// Largest magnitude of a price that a chart accepts.
pub const PRICE_LIMIT: i64 = 250_000_000_000_000_000;

/// `10^n`.
pub open spec fn pow10(n: nat) -> int
    decreases n,
{
    if n == 0 {
        1
    } else {
        10 * pow10((n - 1) as nat)
    }
}

/// The number of decimal digits of `s` minus one, i.e. `floor(log10(s))` for `s >= 1`.
pub open spec fn decade(s: int) -> nat
    decreases s,
{
    if s < 10 {
        0
    } else {
        1 + decade(s / 10)
    }
}

/// The leading factor of the grid step: 1, 2 or 5, by where `s` falls within its decade.
pub open spec fn grid_multiplier(s: int) -> int {
    let p = pow10(decade(s));
    if s < 2 * p {
        1
    } else if s < 5 * p {
        2
    } else {
        5
    }
}

/// The grid step for a range of size `s`: `grid_multiplier(s) * 10^(decade(s) - 1)`.
pub open spec fn grid_step(s: int) -> int {
    grid_multiplier(s) * pow10((decade(s) - 1) as nat)
}

/// The grid origin: `start` rounded down to a multiple of `step`.
pub open spec fn grid_origin(start: int, step: int) -> int {
    (start / step) * step
}

pub proof fn lemma_pow10_positive(n: nat)
    ensures
        pow10(n) >= 1,
    decreases n,
{
    if n > 0 {
        lemma_pow10_positive((n - 1) as nat);
    }
}

/// `10^decade(s) <= s < 10^(decade(s) + 1)`.
pub proof fn lemma_decade_bounds(s: int)
    requires
        s >= 1,
    ensures
        pow10(decade(s)) <= s < 10 * pow10(decade(s)),
    decreases s,
{
    if s >= 10 {
        lemma_decade_bounds(s / 10);
        assert(decade(s) == 1 + decade(s / 10));
        assert(pow10(decade(s)) == 10 * pow10(decade(s / 10)));
    }
}

/// The grid of a range at least ten ticks wide is sound: the step is positive
/// and is 1, 2 or 5 times a power of ten; the origin lies at or below `start`,
/// less than one step below it; and the range spans at least ten and fewer
/// than twenty-five steps, so finitely many steps from the origin pass `end`.
pub proof fn lemma_grid_covers(start: int, end: int)
    requires
        start < end,
        end - start >= 10,
    ensures
        ({
            let step = grid_step(end - start);
            let origin = grid_origin(start, step);
            &&& step >= 1
            &&& step == grid_multiplier(end - start) * pow10((decade(end - start) - 1) as nat)
            &&& grid_multiplier(end - start) == 1 || grid_multiplier(end - start) == 2
                || grid_multiplier(end - start) == 5
            &&& origin <= start < origin + step
            &&& 10 * step <= end - start < 25 * step
            &&& origin + 26 * step > end
        }),
{
    let s = end - start;
    lemma_decade_bounds(s);
    let d = decade(s);
    assert(d >= 1);
    let p = pow10(d);
    let t = pow10((d - 1) as nat);
    assert(p == 10 * t);
    lemma_pow10_positive((d - 1) as nat);
    let m = grid_multiplier(s);
    let step = grid_step(s);
    assert(step == m * t);
    assert(10 * step <= s < 25 * step) by (nonlinear_arith)
        requires
            step == m * t,
            t >= 1,
            10 * t <= s < 100 * t,
            m == 1 ==> s < 20 * t,
            m == 2 ==> 20 * t <= s < 50 * t,
            m == 5 ==> 50 * t <= s,
            m == 1 || m == 2 || m == 5,
    ;
    assert(step >= 1) by (nonlinear_arith)
        requires
            step == m * t,
            t >= 1,
            m >= 1,
    ;
    let origin = grid_origin(start, step);
    vstd::arithmetic::div_mod::lemma_fundamental_div_mod(start, step);
    assert(origin == step * (start / step)) by (nonlinear_arith)
        requires
            origin == (start / step) * step,
    ;
    assert(origin <= start < origin + step);
}

/// A one-dimensional range `[start, end)` of fixed-point coordinates.
///
/// It is empty when `start >= end`. A range under construction starts out as
/// `[i64::MAX, i64::MIN)` so that folding values into it converges to their bounds.
#[derive(Clone, Copy, Debug, PartialEq, Eq, Structural)]
pub struct RangeF32 {
    pub start: i64,
    pub end: i64,
}

/// `consider` as a function of values: widen `r` so that it covers `low` and `high`.
pub open spec fn considered(r: RangeF32, low: i64, high: i64) -> RangeF32 {
    RangeF32 {
        start: if r.start > low { low } else { r.start },
        end: if r.end < high { high } else { r.end },
    }
}

/// Fold `considered` over a sequence of `(low, high)` pairs, first to last.
pub open spec fn considered_all(r: RangeF32, s: Seq<(i64, i64)>) -> RangeF32
    decreases s.len(),
{
    if s.len() == 0 {
        r
    } else {
        let last = s.last();
        considered(considered_all(r, s.drop_last()), last.0, last.1)
    }
}

/// The bounds that a fold reaches: the start is the least of `r.start` and
/// every low, the end the greatest of `r.end` and every high.
pub proof fn lemma_considered_all_bounds(r: RangeF32, s: Seq<(i64, i64)>)
    ensures
        considered_all(r, s).start <= r.start,
        considered_all(r, s).end >= r.end,
        forall|i: int| 0 <= i < s.len() ==> considered_all(r, s).start <= #[trigger] s[i].0,
        forall|i: int| 0 <= i < s.len() ==> considered_all(r, s).end >= #[trigger] s[i].1,
        considered_all(r, s).start == r.start || exists|i: int|
            0 <= i < s.len() && considered_all(r, s).start == #[trigger] s[i].0,
        considered_all(r, s).end == r.end || exists|i: int|
            0 <= i < s.len() && considered_all(r, s).end == #[trigger] s[i].1,
    decreases s.len(),
{
    if s.len() > 0 {
        let prefix = s.drop_last();
        lemma_considered_all_bounds(r, prefix);
        assert forall|i: int| 0 <= i < prefix.len() implies prefix[i] == s[i] by {}
        let res = considered_all(r, s);
        let pre = considered_all(r, prefix);
        if res.start != r.start && res.start != s.last().0 {
            assert(res.start == pre.start);
            let i = choose|i: int| 0 <= i < prefix.len() && pre.start == #[trigger] prefix[i].0;
            assert(res.start == s[i].0);
        }
        if res.end != r.end && res.end != s.last().1 {
            assert(res.end == pre.end);
            let i = choose|i: int| 0 <= i < prefix.len() && pre.end == #[trigger] prefix[i].1;
            assert(res.end == s[i].1);
        }
        assert(s.last() == s[s.len() - 1]);
    }
}

/// Folding `(low, high)` pairs into a range does not depend on their order: two
/// sequences that hold the same pairs, each as often, reach the same bounds.
pub proof fn lemma_consider_order_independent(r: RangeF32, a: Seq<(i64, i64)>, b: Seq<(i64, i64)>)
    requires
        a.to_multiset() == b.to_multiset(),
    ensures
        considered_all(r, a) == considered_all(r, b),
{
    broadcast use vstd::seq_lib::group_to_multiset_ensures;

    lemma_considered_all_bounds(r, a);
    lemma_considered_all_bounds(r, b);
    let ra = considered_all(r, a);
    let rb = considered_all(r, b);
    assert forall|i: int| 0 <= i < a.len() implies b.contains(#[trigger] a[i]) by {
        assert(a.contains(a[i]));
        assert(a.to_multiset().count(a[i]) > 0);
    }
    assert forall|i: int| 0 <= i < b.len() implies a.contains(#[trigger] b[i]) by {
        assert(b.contains(b[i]));
        assert(b.to_multiset().count(b[i]) > 0);
    }
    if ra.start != r.start {
        let i = choose|i: int| 0 <= i < a.len() && ra.start == #[trigger] a[i].0;
        assert(b.contains(a[i]));
    }
    if rb.start != r.start {
        let i = choose|i: int| 0 <= i < b.len() && rb.start == #[trigger] b[i].0;
        assert(a.contains(b[i]));
    }
    if ra.end != r.end {
        let i = choose|i: int| 0 <= i < a.len() && ra.end == #[trigger] a[i].1;
        assert(b.contains(a[i]));
    }
    if rb.end != r.end {
        let i = choose|i: int| 0 <= i < b.len() && rb.end == #[trigger] b[i].1;
        assert(a.contains(b[i]));
    }
}

impl RangeF32 {
    pub open spec fn spec_is_empty(&self) -> bool {
        !(self.start < self.end)
    }

    /// Both bounds lie within `[-COORD_LIMIT, COORD_LIMIT]`.
    pub open spec fn within_limits(&self) -> bool {
        -COORD_LIMIT <= self.start && self.end <= COORD_LIMIT
    }

    pub fn new(start: i64, end: i64) -> (r: RangeF32)
        ensures
            r.start == start,
            r.end == end,
    {
        RangeF32 { start, end }
    }

    pub fn is_empty(&self) -> (r: bool)
        ensures
            r == self.spec_is_empty(),
    {
        !(self.start < self.end)
    }

    /// The reversed range that every `consider` narrows onto the true bounds.
    pub fn new_with_max_rev() -> (r: RangeF32)
        ensures
            r.start == i64::MAX,
            r.end == i64::MIN,
    {
        RangeF32 { start: i64::MAX, end: i64::MIN }
    }

    /// Widens the range to cover `[l, h]`; bounds only ever move outwards.
    pub fn consider(&mut self, l: i64, h: i64)
        ensures
            *final(self) == considered(*old(self), l, h),
            final(self).start <= old(self).start,
            final(self).end >= old(self).end,
    {
        if self.start > l {
            self.start = l;
        }
        if self.end < h {
            self.end = h;
        }
    }

    /// Translates both bounds by `step`.
    pub fn shift(&mut self, step: i64)
        requires
            i64::MIN <= old(self).start + step <= i64::MAX,
            i64::MIN <= old(self).end + step <= i64::MAX,
        ensures
            final(self).start == old(self).start + step,
            final(self).end == old(self).end + step,
    {
        self.start = self.start + step;
        self.end = self.end + step;
    }

    /// Keeps the high edge and moves the low edge to `end - width`.
    pub fn set_width_from_high(&mut self, width: i64)
        requires
            i64::MIN <= old(self).end - width <= i64::MAX,
        ensures
            final(self).start == old(self).end - width,
            final(self).end == old(self).end,
    {
        self.start = self.end - width;
    }

    pub fn start(&self) -> (r: i64)
        ensures
            r == self.start,
    {
        self.start
    }

    pub fn end(&self) -> (r: i64)
        ensures
            r == self.end,
    {
        self.end
    }

    /// `end - start`, or `None` for an empty range.
    pub fn size(&self) -> (r: Option<u64>)
        ensures
            self.spec_is_empty() ==> r.is_none(),
            !self.spec_is_empty() ==> r == Some((self.end - self.start) as u64),
    {
        if self.start < self.end {
            Some((self.end as i128 - self.start as i128) as u64)
        } else {
            None
        }
    }

    /// Has this range a grid, i.e. is it at least ten ticks wide?
    pub open spec fn has_grid(&self) -> bool {
        self.start < self.end && self.end - self.start >= 10
    }

    /// The grid origin and step of a range: the step is `1`, `2` or `5` times a
    /// power of ten, chosen by the size's decade, and the origin is `start`
    /// rounded down to a multiple of it.
    ///
    /// `None` for an empty range, and for one narrower than ten ticks, whose step
    /// would be finer than a tick.
    pub fn grid_start_step(&self) -> (r: Option<(i64, i64)>)
        requires
            !self.spec_is_empty() ==> self.within_limits(),
        ensures
            !self.has_grid() ==> r.is_none(),
            self.has_grid() ==> r == Some(
                (
                    grid_origin(self.start as int, grid_step(self.end - self.start)) as i64,
                    grid_step(self.end - self.start) as i64,
                ),
            ),
    {
        if !(self.start < self.end) {
            return None;
        }
        let size: i64 = self.end - self.start;
        if size < 10 {
            return None;
        }
        let ghost s = size as int;
        let mut q: i64 = size;
        let mut p: i64 = 1;
        let ghost mut k: nat = 0;
        proof {
            lemma_decade_bounds(s);
        }
        while q >= 10
            invariant
                s == size,
                1 <= q,
                1 <= p,
                p == pow10(k),
                q == s / (p as int),
                decade(s) == k + decade(q as int),
                p * q <= s,
                s <= 2 * COORD_LIMIT,
            decreases q,
        {
            proof {
                vstd::arithmetic::div_mod::lemma_div_denominator(s, p as int, 10);
                assert(p * 10 <= p * q) by (nonlinear_arith)
                    requires
                        q >= 10,
                        p >= 1,
                ;
            }
            q = q / 10;
            p = p * 10;
            proof {
                k = k + 1;
                assert(pow10(k) == 10 * pow10((k - 1) as nat));
                assert(p * q <= s) by {
                    vstd::arithmetic::div_mod::lemma_fundamental_div_mod(s, p as int);
                    vstd::arithmetic::div_mod::lemma_mod_pos_bound(s, p as int);
                }
            }
        }
        assert(decade(s) == k);
        assert(k >= 1) by {
            if k == 0 {
                assert(p == 1);
                assert(q == s);
            }
        }
        assert(pow10(k) == 10 * pow10((k - 1) as nat));
        let t: i64 = p / 10;
        assert(t == pow10((k - 1) as nat));
        let m: i64 = if size < 2 * p {
            1
        } else if size < 5 * p {
            2
        } else {
            5
        };
        assert(m * t <= 5 * t) by (nonlinear_arith)
            requires
                m <= 5,
                t >= 1,
        ;
        let step: i64 = m * t;
        assert(step == grid_step(s));
        assert(p <= s) by (nonlinear_arith)
            requires
                p * q <= s,
                q >= 1,
                p >= 1,
        ;
        assert(1 <= step <= COORD_LIMIT);
        let origin: i64 = if self.start >= 0 {
            proof {
                vstd::arithmetic::div_mod::lemma_fundamental_div_mod(self.start as int, step as int);
                vstd::arithmetic::div_mod::lemma_mod_pos_bound(self.start as int, step as int);
                assert((self.start / step) * step == step * (self.start / step)) by (nonlinear_arith);
                assert((self.start / step) >= 0) by (nonlinear_arith)
                    requires self.start >= 0, step >= 1;
                assert((self.start / step) * step >= 0) by (nonlinear_arith)
                    requires self.start / step >= 0, step >= 1;
            }
            (self.start / step) * step
        } else {
            let neg: i64 = -self.start;
            proof {
                vstd::arithmetic::div_mod::lemma_fundamental_div_mod(neg as int, step as int);
                vstd::arithmetic::div_mod::lemma_mod_pos_bound(neg as int, step as int);
                assert(step * (neg / step) <= neg);
                assert((neg / step) * step == step * (neg / step)) by (nonlinear_arith);
                assert((neg / step + 1) * step == (neg / step) * step + step) by (nonlinear_arith);
            }
            if neg % step == 0 {
                -((neg / step) * step)
            } else {
                -((neg / step + 1) * step)
            }
        };
        assert(origin == grid_origin(self.start as int, step as int)) by {
            let a = self.start as int;
            let st = step as int;
            vstd::arithmetic::div_mod::lemma_fundamental_div_mod(a, st);
            if a < 0 {
                let n = -a;
                vstd::arithmetic::div_mod::lemma_fundamental_div_mod(n, st);
                vstd::arithmetic::div_mod::lemma_mod_pos_bound(n, st);
                assert(st * (a / st) + a % st == a);
                assert(st * (n / st) + n % st == n);
                if n % st == 0 {
                    assert(a == st * (-(n / st))) by (nonlinear_arith)
                        requires a == -n, st * (n / st) + n % st == n, n % st == 0;
                    vstd::arithmetic::div_mod::lemma_div_multiples_vanish(-(n / st), st);
                } else {
                    assert(a == st * (-(n / st) - 1) + (st - n % st)) by (nonlinear_arith)
                        requires a == -n, st * (n / st) + n % st == n;
                    vstd::arithmetic::div_mod::lemma_fundamental_div_mod_converse(
                        a,
                        st,
                        -(n / st) - 1,
                        st - n % st,
                    );
                }
            }
        }
        Some((origin, step))
    }
}

} // verus!
