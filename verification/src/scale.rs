//! The coordinate mapper: a fixed rational display scale relates window
//! pixels to device pixels. Window dimensions are the scaled-down device
//! dimensions; pointer positions are scaled back up before they are sent to
//! the device.

use vstd::prelude::*;

verus! {

/// `a / b` rounded to the nearest integer, ties rounding up.
/// Meaningful for `a >= 0` and `b > 0`.
pub open spec fn round_div(a: int, b: int) -> int {
    (2 * a + b) / (2 * b)
}

/// The window coordinate that device coordinate `d` lands on under the
/// scale `num / den`.
pub open spec fn window_of_device(d: int, num: int, den: int) -> int {
    round_div(d * num, den)
}

/// The device coordinate that window coordinate `w` lands on under the
/// scale `num / den`; positions left of or above the window clamp to 0.
pub open spec fn device_of_window(w: int, num: int, den: int) -> int {
    if w <= 0 {
        0
    } else {
        round_div(w * den, num)
    }
}

/// Saturation of an integer into the range of `u32`.
pub open spec fn sat_u32(x: int) -> int {
    if x > u32::MAX {
        u32::MAX as int
    } else {
        x
    }
}

/// The display scale as an exact rational `num / den`, with
/// `0 < num / den <= 1`.
#[derive(Clone, Copy, Debug, PartialEq, Eq, Structural)]
pub struct Scale {
    pub num: u32,
    pub den: u32,
}

impl Scale {
    /// A scale is a fraction in `(0, 1]`.
    pub open spec fn wf(self) -> bool {
        0 < self.num <= self.den
    }

    /// Builds a scale, rejecting a zero numerator or a fraction above 1.
    pub fn new(num: u32, den: u32) -> (r: Option<Scale>)
        ensures
            r is Some <==> 0 < num <= den,
            r matches Some(s) ==> s == (Scale { num, den }) && s.wf(),
    {
        if 0 < num && num <= den {
            Some(Scale { num, den })
        } else {
            None
        }
    }

    /// Scales a device dimension or coordinate down into window space,
    /// rounding to the nearest pixel. The result never exceeds the input,
    /// so it stays a `u32`.
    pub fn to_window(&self, d: u32) -> (r: u32)
        requires
            self.wf(),
        ensures
            r == window_of_device(d as int, self.num as int, self.den as int),
    {
        let num: u128 = self.num as u128;
        let den: u128 = self.den as u128;
        let du: u128 = d as u128;
        proof {
            assert(2 * du * num + den <= u128::MAX) by (nonlinear_arith)
                requires
                    du <= u32::MAX,
                    num <= u32::MAX,
                    den <= u32::MAX,
            ;
        }
        let q: u128 = (2 * du * num + den) / (2 * den);
        proof {
            let di = d as int;
            let n = self.num as int;
            let dn = self.den as int;
            assert(q == round_div(di * n, dn)) by {
                assert(2 * du * num + den == 2 * (di * n) + dn) by (nonlinear_arith)
                    requires
                        di == du,
                        n == num,
                        dn == den,
                ;
            }
            assert(2 * (di * n) + dn < (2 * dn) * (di + 1)) by (nonlinear_arith)
                requires
                    0 <= di,
                    0 < n <= dn,
            ;
            assert(round_div(di * n, dn) <= di) by {
                vstd::arithmetic::div_mod::lemma_fundamental_div_mod(2 * (di * n) + dn, 2 * dn);
                vstd::arithmetic::div_mod::lemma_mod_bound(2 * (di * n) + dn, 2 * dn);
                assert((2 * (di * n) + dn) / (2 * dn) < di + 1) by (nonlinear_arith)
                    requires
                        2 * (di * n) + dn < (2 * dn) * (di + 1),
                        0 < dn,
                        2 * (di * n) + dn == (2 * dn) * ((2 * (di * n) + dn) / (2 * dn)) + (2 * (di
                            * n) + dn) % (2 * dn),
                        0 <= (2 * (di * n) + dn) % (2 * dn) < 2 * dn,
                ;
            }
            assert(round_div(di * n, dn) >= 0) by {
                vstd::arithmetic::div_mod::lemma_div_pos_is_pos(2 * (di * n) + dn, 2 * dn);
                assert(2 * (di * n) + dn >= 0) by (nonlinear_arith)
                    requires
                        0 <= di,
                        0 < n,
                        0 < dn,
                ;
            }
        }
        q as u32
    }

    /// Scales a window coordinate up into device space, rounding to the
    /// nearest device pixel; the result saturates at `u32::MAX` and clamps
    /// negative window positions to 0.
    pub fn to_device(&self, w: i64) -> (r: u32)
        requires
            self.wf(),
        ensures
            r == sat_u32(device_of_window(w as int, self.num as int, self.den as int)),
    {
        if w <= 0 {
            return 0;
        }
        let num: u128 = self.num as u128;
        let den: u128 = self.den as u128;
        let wu: u128 = w as u128;
        proof {
            assert(2 * wu * den + num <= u128::MAX) by (nonlinear_arith)
                requires
                    wu <= i64::MAX,
                    num <= u32::MAX,
                    den <= u32::MAX,
            ;
        }
        let q: u128 = (2 * wu * den + num) / (2 * num);
        proof {
            let wi = w as int;
            let n = self.num as int;
            let dn = self.den as int;
            assert(q == round_div(wi * dn, n)) by {
                assert(2 * wu * den + num == 2 * (wi * dn) + n) by (nonlinear_arith)
                    requires
                        wi == wu,
                        n == num,
                        dn == den,
                ;
            }
            vstd::arithmetic::div_mod::lemma_div_pos_is_pos(2 * (wi * dn) + n, 2 * n);
            assert(2 * (wi * dn) + n >= 0) by (nonlinear_arith)
                requires
                    0 < wi,
                    0 < n,
                    0 < dn,
            ;
        }
        if q > u32::MAX as u128 {
            u32::MAX
        } else {
            q as u32
        }
    }
}

/// Coordinate round trip: mapping a device pixel `p` into the window and
/// back lands within one pixel of `p`, for any scale of at least one third.
/// (For smaller scales the window rounding can move the reconstructed pixel
/// by more than one.)
pub proof fn lemma_round_trip(p: int, num: int, den: int)
    requires
        0 < num <= den,
        den <= 3 * num,
        0 <= p,
    ensures
        device_of_window(window_of_device(p, num, den), num, den) - p <= 1,
        p - device_of_window(window_of_device(p, num, den), num, den) <= 1,
{
    let a1 = 2 * (p * num) + den;
    let w = a1 / (2 * den);
    let r1 = a1 % (2 * den);
    assert(p * num >= 0) by (nonlinear_arith)
        requires
            p >= 0,
            num > 0,
    ;
    vstd::arithmetic::div_mod::lemma_fundamental_div_mod(a1, 2 * den);
    vstd::arithmetic::div_mod::lemma_mod_bound(a1, 2 * den);
    vstd::arithmetic::div_mod::lemma_div_pos_is_pos(a1, 2 * den);
    assert(w == window_of_device(p, num, den));
    if w == 0 {
        // The window pixel is 0, so the device pixel reconstructed from it
        // is 0; p itself can only be 0 or 1 here.
        assert(a1 == r1) by (nonlinear_arith)
            requires
                a1 == (2 * den) * w + r1,
                w == 0,
        ;
        assert(2 * (p * num) < den);
        assert(p <= 1) by (nonlinear_arith)
            requires
                2 * (p * num) < den,
                den <= 3 * num,
                num > 0,
                p >= 0,
        ;
        assert(device_of_window(0, num, den) == 0);
    } else {
        let a2 = 2 * (w * den) + num;
        let t = a2 / (2 * num);
        let r2 = a2 % (2 * num);
        assert(w * den > 0) by (nonlinear_arith)
            requires
                w > 0,
                den > 0,
        ;
        vstd::arithmetic::div_mod::lemma_fundamental_div_mod(a2, 2 * num);
        vstd::arithmetic::div_mod::lemma_mod_bound(a2, 2 * num);
        assert(device_of_window(w, num, den) == t);
        assert(2 * num * (t - p) == den + num - r1 - r2) by (nonlinear_arith)
            requires
                a1 == 2 * (p * num) + den,
                a1 == (2 * den) * w + r1,
                a2 == 2 * (w * den) + num,
                a2 == (2 * num) * t + r2,
        ;
        assert(den + num - r1 - r2 > -(den + num));
        assert(den + num - r1 - r2 <= den + num);
        assert(t - p >= -1) by (nonlinear_arith)
            requires
                2 * num * (t - p) > -(den + num),
                den <= 3 * num,
                num > 0,
        ;
        assert(t - p <= 2) by (nonlinear_arith)
            requires
                2 * num * (t - p) <= den + num,
                den <= 3 * num,
                num > 0,
        ;
        if t - p == 2 {
            // Impossible: it would force both roundings to be exact and the
            // scale to be exactly one third, which cannot happen together.
            assert(r1 + r2 == den - 3 * num) by (nonlinear_arith)
                requires
                    2 * num * (t - p) == den + num - r1 - r2,
                    t - p == 2,
                    num > 0,
            ;
            assert(r1 == 0 && r2 == 0 && den == 3 * num);
            assert(2 * (p * num) + 3 * num == (6 * num) * w) by (nonlinear_arith)
                requires
                    a1 == 2 * (p * num) + den,
                    a1 == (2 * den) * w + r1,
                    r1 == 0,
                    den == 3 * num,
            ;
            assert(2 * p + 3 == 6 * w) by (nonlinear_arith)
                requires
                    2 * (p * num) + 3 * num == (6 * num) * w,
                    num > 0,
            ;
            assert(false);
        }
    }
}

} // verus!
