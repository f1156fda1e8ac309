use vstd::prelude::*;

verus! {

/// `2^e`.
pub open spec fn pow2(e: nat) -> nat
    decreases e,
{
    if e == 0 {
        1
    } else {
        2 * pow2((e - 1) as nat)
    }
}

/// Numerator of the factor `2^e` written as a fraction.
pub open spec fn scale_num(e: int) -> nat {
    if e >= 0 {
        pow2(e as nat)
    } else {
        1
    }
}

/// Denominator of the factor `2^e` written as a fraction.
pub open spec fn scale_den(e: int) -> nat {
    if e >= 0 {
        1
    } else {
        pow2((-e) as nat)
    }
}

/// The factor `2^a` equals `num / den` times the factor `2^b`.
pub open spec fn scaled_by(a: int, b: int, num: nat, den: nat) -> bool {
    scale_num(a) * scale_den(b) * den == num * scale_num(b) * scale_den(a)
}

/// Exponent after one doubling; it stays put at the top of its range.
pub open spec fn exp_up(e: i32) -> i32 {
    if e < i32::MAX {
        (e + 1) as i32
    } else {
        e
    }
}

/// Exponent after one halving; it stays put at the bottom of its range.
pub open spec fn exp_down(e: i32) -> i32 {
    if e > i32::MIN {
        (e - 1) as i32
    } else {
        e
    }
}

/// Runtime display gain and advance speed. Each is held as a power of two,
/// `gain = 2^gain_exp` and `speed = 2^speed_exp`, so doubling and halving are exact.
#[derive(Debug, Clone, Copy, PartialEq, Eq, Structural)]
pub struct Controls {
    pub gain_exp: i32,
    pub speed_exp: i32,
}

/// Exponent of the display gain at start-up: a gain of 1.
pub const INITIAL_GAIN_EXP: i32 = 0;

/// Exponent of the advance speed at start-up: a speed of one quarter.
pub const INITIAL_SPEED_EXP: i32 = -2;

impl Controls {
    pub open spec fn new_spec() -> Controls {
        Controls { gain_exp: INITIAL_GAIN_EXP, speed_exp: INITIAL_SPEED_EXP }
    }

    /// Gain 1 and speed one quarter.
    pub fn new() -> (r: Controls)
        ensures
            r == Controls::new_spec(),
    {
        Controls { gain_exp: INITIAL_GAIN_EXP, speed_exp: INITIAL_SPEED_EXP }
    }

    /// Doubles the display gain.
    pub fn increase_gain(&mut self)
        ensures
            final(self).gain_exp == exp_up(old(self).gain_exp),
            final(self).speed_exp == old(self).speed_exp,
    {
        if self.gain_exp < i32::MAX {
            self.gain_exp = self.gain_exp + 1;
        }
    }

    /// Halves the display gain.
    pub fn decrease_gain(&mut self)
        ensures
            final(self).gain_exp == exp_down(old(self).gain_exp),
            final(self).speed_exp == old(self).speed_exp,
    {
        if self.gain_exp > i32::MIN {
            self.gain_exp = self.gain_exp - 1;
        }
    }

    /// Doubles the advance speed.
    pub fn increase_speed(&mut self)
        ensures
            final(self).speed_exp == exp_up(old(self).speed_exp),
            final(self).gain_exp == old(self).gain_exp,
    {
        if self.speed_exp < i32::MAX {
            self.speed_exp = self.speed_exp + 1;
        }
    }

    /// Halves the advance speed.
    pub fn decrease_speed(&mut self)
        ensures
            final(self).speed_exp == exp_down(old(self).speed_exp),
            final(self).gain_exp == old(self).gain_exp,
    {
        if self.speed_exp > i32::MIN {
            self.speed_exp = self.speed_exp - 1;
        }
    }
}

proof fn lemma_pow2_step(e: nat)
    ensures
        pow2(e + 1) == 2 * pow2(e),
        pow2(e) >= 1,
    decreases e,
{
    if e > 0 {
        lemma_pow2_step((e - 1) as nat);
    }
}

/// Raising the exponent by two scales the factor by exactly 4.
pub proof fn lemma_exp_plus_two(e: int)
    ensures
        scaled_by(e + 2, e, 4, 1),
{
    lemma_pow2_step(0);
    lemma_pow2_step(1);
    if e >= 0 {
        lemma_pow2_step(e as nat);
        lemma_pow2_step((e + 1) as nat);
        assert(scale_num(e + 2) == 4 * scale_num(e));
    } else if e == -1 {
        assert(scale_num(e + 2) == 2 && scale_den(e) == 2);
    } else if e == -2 {
        assert(scale_num(e + 2) == 1 && scale_den(e) == 4);
    } else {
        lemma_pow2_step((-e - 2) as nat);
        lemma_pow2_step((-e - 1) as nat);
        assert(scale_den(e) == 4 * scale_den(e + 2));
    }
}

/// Two gain increases away from the top of the range multiply the gain by exactly 4,
/// and two decreases away from the bottom multiply it by exactly one quarter.
pub proof fn lemma_gain_twice(e: i32)
    ensures
        e <= i32::MAX - 2 ==> scaled_by(exp_up(exp_up(e)) as int, e as int, 4, 1),
        e >= i32::MIN + 2 ==> scaled_by(exp_down(exp_down(e)) as int, e as int, 1, 4),
{
    lemma_exp_plus_two(e as int);
    lemma_exp_plus_two(e - 2);
    let (a, b) = (e - 2, e as int);
    assert(scale_num(b) * scale_den(a) * 1 == 4 * scale_num(a) * scale_den(b)
        ==> scale_num(a) * scale_den(b) * 4 == 1 * scale_num(b) * scale_den(a)) by (nonlinear_arith);
}

} // verus!
