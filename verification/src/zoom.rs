//! The zoom view state.
//!
//! Zoom is multiplicative: each step scales by five quarters, clamped to the
//! range from one tenth to five. Every reachable value is therefore one of
//! three ladders of exact rationals — powers of five quarters started from
//! one, from the upper clamp, or from the lower clamp — so the state is a
//! ladder name and a rung index, and the value is the exact fraction
//! `zoom_num / zoom_den`.

use vstd::prelude::*;

verus! {

/// Five to the `k`.
pub open spec fn pow5(k: nat) -> int
    decreases k,
{
    if k == 0 {
        1
    } else {
        5 * pow5((k - 1) as nat)
    }
}

/// Four to the `k`.
pub open spec fn pow4(k: nat) -> int
    decreases k,
{
    if k == 0 {
        1
    } else {
        4 * pow4((k - 1) as nat)
    }
}

pub proof fn lemma_pow5_pos(k: nat)
    ensures
        pow5(k) >= 1,
    decreases k,
{
    if k > 0 {
        lemma_pow5_pos((k - 1) as nat);
    }
}

pub proof fn lemma_pow4_pos(k: nat)
    ensures
        pow4(k) >= 1,
    decreases k,
{
    if k > 0 {
        lemma_pow4_pos((k - 1) as nat);
    }
}

pub proof fn lemma_pow4_le_pow5(k: nat)
    ensures
        1 <= pow4(k) <= pow5(k),
    decreases k,
{
    if k > 0 {
        lemma_pow4_le_pow5((k - 1) as nat);
    }
}

pub proof fn lemma_pow5_mono(a: nat, b: nat)
    requires
        a <= b,
    ensures
        1 <= pow5(a) <= pow5(b),
    decreases b,
{
    lemma_pow5_pos(a);
    if a < b {
        lemma_pow5_mono(a, (b - 1) as nat);
        lemma_pow5_pos((b - 1) as nat);
    }
}

pub proof fn lemma_pow4_mono(a: nat, b: nat)
    requires
        a <= b,
    ensures
        1 <= pow4(a) <= pow4(b),
    decreases b,
{
    lemma_pow4_pos(a);
    if a < b {
        lemma_pow4_mono(a, (b - 1) as nat);
        lemma_pow4_pos((b - 1) as nat);
    }
}

/// The concrete powers up to the deepest rung.
pub proof fn lemma_pow_vals()
    ensures
        pow5(0) == 1 && pow5(1) == 5 && pow5(2) == 25 && pow5(3) == 125 && pow5(4) == 625 && pow5(
            5,
        ) == 3125 && pow5(6) == 15625 && pow5(7) == 78125 && pow5(8) == 390625 && pow5(9)
            == 1953125 && pow5(10) == 9765625 && pow5(11) == 48828125 && pow5(12) == 244140625
            && pow5(13) == 1220703125 && pow5(14) == 6103515625 && pow5(15) == 30517578125 && pow5(
            16,
        ) == 152587890625 && pow5(17) == 762939453125,
        pow4(0) == 1 && pow4(1) == 4 && pow4(2) == 16 && pow4(3) == 64 && pow4(4) == 256 && pow4(5)
            == 1024 && pow4(6) == 4096 && pow4(7) == 16384 && pow4(8) == 65536 && pow4(9) == 262144
            && pow4(10) == 1048576 && pow4(11) == 4194304 && pow4(12) == 16777216 && pow4(13)
            == 67108864 && pow4(14) == 268435456 && pow4(15) == 1073741824 && pow4(16) == 4294967296
            && pow4(17) == 17179869184,
{
    reveal_with_fuel(pow5, 19);
    reveal_with_fuel(pow4, 19);
}

/// Ratio bounds along a ladder: how far five-to-the-k can run ahead of
/// four-to-the-k on the rungs the ladders use.
pub proof fn lemma_pow_ratio(k: nat)
    requires
        k <= 17,
    ensures
        k <= 6 ==> pow5(k) <= 4 * pow4(k),
        k <= 9 ==> pow5(k) <= 8 * pow4(k),
        k <= 10 ==> pow5(k) <= 10 * pow4(k),
        k <= 16 ==> pow5(k) <= 40 * pow4(k),
        pow5(k) <= 50 * pow4(k),
{
    lemma_pow_vals();
}

/// One zoom-in step relates the old and new exact fractions: the new value
/// is five quarters of the old one unless that would pass five, in which
/// case it is five exactly.
pub open spec fn zoom_in_rel(a: ZoomLevel, b: ZoomLevel) -> bool {
    let on = zoom_num(a);
    let od = zoom_den(a);
    let nn = zoom_num(b);
    let nd = zoom_den(b);
    if on <= 4 * od {
        nn * (4 * od) == (5 * on) * nd
    } else {
        nn == 5 * nd
    }
}

/// One zoom-out step relates the old and new exact fractions: the new value
/// is four fifths of the old one unless that would pass one tenth, in which
/// case it is one tenth exactly.
pub open spec fn zoom_out_rel(a: ZoomLevel, b: ZoomLevel) -> bool {
    let on = zoom_num(a);
    let od = zoom_den(a);
    let nn = zoom_num(b);
    let nd = zoom_den(b);
    if 8 * on >= od {
        nn * (5 * od) == (4 * on) * nd
    } else {
        10 * nn == nd
    }
}

/// The zoom factor: a rung on one of three ladders of powers of five
/// quarters. `FromUnit(k)` is five-quarters to the `k` (started at one),
/// `BelowMax(k)` is the upper clamp of five shrunk `k` times, `AboveMin(k)`
/// is the lower clamp of one tenth grown `k` times.
#[derive(Clone, Copy, PartialEq, Eq, Structural, Debug)]
pub enum ZoomLevel {
    FromUnit(i32),
    BelowMax(i32),
    AboveMin(i32),
}

/// Numerator of the exact zoom fraction.
pub open spec fn zoom_num(z: ZoomLevel) -> int {
    match z {
        ZoomLevel::FromUnit(k) => if k >= 0 {
            pow5(k as nat)
        } else {
            pow4((-(k as int)) as nat)
        },
        ZoomLevel::BelowMax(k) => 5 * pow4(k as nat),
        ZoomLevel::AboveMin(k) => pow5(k as nat),
    }
}

/// Denominator of the exact zoom fraction.
pub open spec fn zoom_den(z: ZoomLevel) -> int {
    match z {
        ZoomLevel::FromUnit(k) => if k >= 0 {
            pow4(k as nat)
        } else {
            pow5((-(k as int)) as nat)
        },
        ZoomLevel::BelowMax(k) => pow5(k as nat),
        ZoomLevel::AboveMin(k) => 10 * pow4(k as nat),
    }
}

impl ZoomLevel {
    /// The rung index stays on its ladder.
    pub open spec fn wf(self) -> bool {
        match self {
            ZoomLevel::FromUnit(k) => -10 <= k <= 7,
            ZoomLevel::BelowMax(k) => 0 <= k <= 17,
            ZoomLevel::AboveMin(k) => 0 <= k <= 17,
        }
    }
}

/// A well-formed zoom factor lies between one tenth and five: the
/// denominator is at most ten numerators and the numerator at most five
/// denominators, and both are positive and bounded.
pub proof fn lemma_zoom_range(z: ZoomLevel)
    requires
        z.wf(),
    ensures
        1 <= zoom_num(z) <= 0x10000000000,
        1 <= zoom_den(z) <= 0x20000000000,
        zoom_den(z) <= 10 * zoom_num(z),
        zoom_num(z) <= 5 * zoom_den(z),
{
    lemma_pow_vals();
    match z {
        ZoomLevel::FromUnit(k) => {
            if k >= 0 {
                lemma_pow_ratio(k as nat);
                lemma_pow4_le_pow5(k as nat);
            } else {
                lemma_pow_ratio((-(k as int)) as nat);
                lemma_pow4_le_pow5((-(k as int)) as nat);
            }
        },
        ZoomLevel::BelowMax(k) => {
            lemma_pow_ratio(k as nat);
            lemma_pow4_le_pow5(k as nat);
        },
        ZoomLevel::AboveMin(k) => {
            lemma_pow_ratio(k as nat);
            lemma_pow4_le_pow5(k as nat);
        },
    }
}

impl ZoomLevel {
    /// One zoom-in step: scale by five quarters, clamped at five. The new
    /// fraction equals the candidate when the candidate is at most five, and
    /// equals five exactly otherwise.
    pub fn zoom_in(&mut self)
        requires
            old(self).wf(),
        ensures
            final(self).wf(),
            zoom_in_rel(*old(self), *final(self)),
    {
        let ghost on = zoom_num(*old(self));
        let ghost od = zoom_den(*old(self));
        match *self {
            ZoomLevel::FromUnit(k) => {
                if k < 7 {
                    *self = ZoomLevel::FromUnit(k + 1);
                    proof {
                        lemma_pow_vals();
                        if k >= 0 {
                            lemma_pow_ratio(k as nat);
                            let p5 = pow5(k as nat);
                            let p4 = pow4(k as nat);
                            assert(zoom_num(*self) == 5 * p5);
                            assert(zoom_den(*self) == 4 * p4);
                            assert((5 * p5) * (4 * p4) == (5 * p5) * (4 * p4));
                        } else {
                            let j = (-(k as int)) as nat;
                            lemma_pow4_le_pow5(j);
                            let p5 = pow5((j - 1) as nat);
                            let p4 = pow4((j - 1) as nat);
                            assert(on == pow4(j) && od == pow5(j));
                            assert(pow4(j) == 4 * p4 && pow5(j) == 5 * p5);
                            assert(zoom_num(*self) * (4 * od) == (5 * on) * zoom_den(*self))
                                by (nonlinear_arith)
                                requires
                                    zoom_num(*self) == p4,
                                    zoom_den(*self) == p5,
                                    on == 4 * p4,
                                    od == 5 * p5,
                            ;
                        }
                    }
                } else {
                    *self = ZoomLevel::BelowMax(0);
                    proof {
                        lemma_pow_vals();
                    }
                }
            },
            ZoomLevel::BelowMax(k) => {
                if k > 0 {
                    *self = ZoomLevel::BelowMax(k - 1);
                    proof {
                        lemma_pow_ratio(k as nat);
                        lemma_pow4_le_pow5((k - 1) as nat);
                        let p5 = pow5((k - 1) as nat);
                        let p4 = pow4((k - 1) as nat);
                        assert(on == 5 * (4 * p4) && od == 5 * p5);
                        assert(on <= 4 * od) by (nonlinear_arith)
                            requires
                                on == 20 * p4,
                                od == 5 * p5,
                                p4 <= p5,
                        ;
                        assert(zoom_num(*self) * (4 * od) == (5 * on) * zoom_den(*self))
                            by (nonlinear_arith)
                            requires
                                zoom_num(*self) == 5 * p4,
                                zoom_den(*self) == p5,
                                on == 20 * p4,
                                od == 5 * p5,
                        ;
                    }
                } else {
                    proof {
                        lemma_pow_vals();
                    }
                }
            },
            ZoomLevel::AboveMin(k) => {
                if k < 17 {
                    *self = ZoomLevel::AboveMin(k + 1);
                    proof {
                        lemma_pow_ratio(k as nat);
                        let p5 = pow5(k as nat);
                        let p4 = pow4(k as nat);
                        assert(on == p5 && od == 10 * p4);
                        assert(zoom_num(*self) == 5 * p5);
                        assert(zoom_den(*self) == 10 * (4 * p4));
                        assert((5 * p5) * (4 * (10 * p4)) == (5 * p5) * ((10 * (4 * p4))))
                            by (nonlinear_arith);
                        assert(zoom_num(*self) * (4 * od) == (5 * on) * zoom_den(*self))
                            by (nonlinear_arith)
                            requires
                                zoom_num(*self) == 5 * p5,
                                zoom_den(*self) == 40 * p4,
                                on == p5,
                                od == 10 * p4,
                        ;
                    }
                } else {
                    *self = ZoomLevel::BelowMax(0);
                    proof {
                        lemma_pow_vals();
                    }
                }
            },
        }
    }

    /// One zoom-out step: scale by four fifths, clamped at one tenth. The
    /// new fraction equals the candidate when the candidate is at least one
    /// tenth, and equals one tenth exactly otherwise.
    pub fn zoom_out(&mut self)
        requires
            old(self).wf(),
        ensures
            final(self).wf(),
            zoom_out_rel(*old(self), *final(self)),
    {
        let ghost on = zoom_num(*old(self));
        let ghost od = zoom_den(*old(self));
        match *self {
            ZoomLevel::FromUnit(k) => {
                if k > -10 {
                    *self = ZoomLevel::FromUnit(k - 1);
                    proof {
                        lemma_pow_vals();
                        if k >= 1 {
                            lemma_pow4_le_pow5(k as nat);
                            let p5 = pow5((k - 1) as nat);
                            let p4 = pow4((k - 1) as nat);
                            assert(on == 5 * p5 && od == 4 * p4);
                            lemma_pow4_le_pow5((k - 1) as nat);
                            assert(8 * on >= od) by (nonlinear_arith)
                                requires
                                    on == 5 * p5,
                                    od == 4 * p4,
                                    1 <= p4 <= p5,
                            ;
                            assert(zoom_num(*self) * (5 * od) == (4 * on) * zoom_den(*self))
                                by (nonlinear_arith)
                                requires
                                    zoom_num(*self) == p5,
                                    zoom_den(*self) == p4,
                                    on == 5 * p5,
                                    od == 4 * p4,
                            ;
                        } else {
                            let j = (-(k as int)) as nat;
                            lemma_pow_ratio(j);
                            lemma_pow_ratio((j + 1) as nat);
                            let p5 = pow5(j);
                            let p4 = pow4(j);
                            assert(on == p4 && od == p5);
                            assert(zoom_num(*self) == 4 * p4);
                            assert(zoom_den(*self) == 5 * p5);
                            assert(zoom_num(*self) * (5 * od) == (4 * on) * zoom_den(*self))
                                by (nonlinear_arith)
                                requires
                                    zoom_num(*self) == 4 * p4,
                                    zoom_den(*self) == 5 * p5,
                                    on == p4,
                                    od == p5,
                            ;
                        }
                    }
                } else {
                    *self = ZoomLevel::AboveMin(0);
                    proof {
                        lemma_pow_vals();
                    }
                }
            },
            ZoomLevel::BelowMax(k) => {
                if k < 17 {
                    *self = ZoomLevel::BelowMax(k + 1);
                    proof {
                        lemma_pow_ratio(k as nat);
                        let p5 = pow5(k as nat);
                        let p4 = pow4(k as nat);
                        assert(on == 5 * p4 && od == p5);
                        assert(8 * on >= od) by (nonlinear_arith)
                            requires
                                on == 5 * p4,
                                od == p5,
                                p5 <= 40 * p4,
                        ;
                        assert(zoom_num(*self) == 5 * (4 * p4));
                        assert(zoom_den(*self) == 5 * p5);
                        assert(zoom_num(*self) * (5 * od) == (4 * on) * zoom_den(*self))
                            by (nonlinear_arith)
                            requires
                                zoom_num(*self) == 20 * p4,
                                zoom_den(*self) == 5 * p5,
                                on == 5 * p4,
                                od == p5,
                        ;
                    }
                } else {
                    *self = ZoomLevel::AboveMin(0);
                    proof {
                        lemma_pow_vals();
                    }
                }
            },
            ZoomLevel::AboveMin(k) => {
                if k > 0 {
                    *self = ZoomLevel::AboveMin(k - 1);
                    proof {
                        lemma_pow_vals();
                        lemma_pow4_le_pow5((k - 1) as nat);
                        let p5 = pow5((k - 1) as nat);
                        let p4 = pow4((k - 1) as nat);
                        assert(on == 5 * p5 && od == 10 * (4 * p4));
                        assert(8 * on >= od) by (nonlinear_arith)
                            requires
                                on == 5 * p5,
                                od == 40 * p4,
                                1 <= p4 <= p5,
                        ;
                        assert(zoom_num(*self) * (5 * od) == (4 * on) * zoom_den(*self))
                            by (nonlinear_arith)
                            requires
                                zoom_num(*self) == p5,
                                zoom_den(*self) == 10 * p4,
                                on == 5 * p5,
                                od == 40 * p4,
                        ;
                    }
                } else {
                    proof {
                        lemma_pow_vals();
                    }
                }
            },
        }
    }

    /// Back to a zoom factor of exactly one.
    pub fn reset(&mut self)
        ensures
            *final(self) == ZoomLevel::FromUnit(0i32),
            final(self).wf(),
            zoom_num(*final(self)) == 1 && zoom_den(*final(self)) == 1,
    {
        *self = ZoomLevel::FromUnit(0);
    }

    /// The exact zoom fraction as machine integers.
    pub fn parts(&self) -> (r: (u64, u64))
        requires
            self.wf(),
        ensures
            r.0 == zoom_num(*self),
            r.1 == zoom_den(*self),
    {
        proof {
            lemma_zoom_range(*self);
        }
        match *self {
            ZoomLevel::FromUnit(k) => {
                if k >= 0 {
                    (pow5_u64(k as u32), pow4_u64(k as u32))
                } else {
                    (pow4_u64((-k) as u32), pow5_u64((-k) as u32))
                }
            },
            ZoomLevel::BelowMax(k) => {
                proof {
                    lemma_pow_vals();
                    lemma_pow4_mono(k as nat, 17);
                }
                (5 * pow4_u64(k as u32), pow5_u64(k as u32))
            },
            ZoomLevel::AboveMin(k) => {
                proof {
                    lemma_pow_vals();
                    lemma_pow4_mono(k as nat, 17);
                }
                (pow5_u64(k as u32), 10 * pow4_u64(k as u32))
            },
        }
    }
}

/// Five to the `k` as a machine integer.
fn pow5_u64(k: u32) -> (r: u64)
    requires
        k <= 17,
    ensures
        r == pow5(k as nat),
{
    let mut r: u64 = 1;
    let mut i: u32 = 0;
    while i < k
        invariant
            i <= k <= 17,
            r == pow5(i as nat),
        decreases k - i,
    {
        proof {
            lemma_pow5_mono((i + 1) as nat, 17);
            lemma_pow_vals();
        }
        r = r * 5;
        i += 1;
    }
    r
}

/// Four to the `k` as a machine integer.
fn pow4_u64(k: u32) -> (r: u64)
    requires
        k <= 17,
    ensures
        r == pow4(k as nat),
{
    let mut r: u64 = 1;
    let mut i: u32 = 0;
    while i < k
        invariant
            i <= k <= 17,
            r == pow4(i as nat),
        decreases k - i,
    {
        proof {
            lemma_pow4_mono((i + 1) as nat, 17);
            lemma_pow_vals();
        }
        r = r * 4;
        i += 1;
    }
    r
}

} // verus!
