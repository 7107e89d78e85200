use vstd::prelude::*;

verus! {

/// How often a storage write is tried and how long to wait between tries:
/// after failed attempt `k` (counting from 0) the wait is
/// `base_delay_ms * multiplier^k` milliseconds, capped at `u64::MAX`.
#[derive(Clone, Copy, Debug, PartialEq, Eq, Structural)]
pub struct RetryPolicy {
    pub max_attempts: u32,
    pub base_delay_ms: u64,
    pub multiplier: u64,
}

/// What to do after an attempt.
#[derive(Clone, Copy, Debug, PartialEq, Eq, Structural)]
pub enum RetryStep {
    /// The write succeeded.
    Done,
    /// Wait this many milliseconds, then try again.
    Wait(u64),
    /// The write failed for the last time.
    GiveUp,
}

pub open spec fn power(b: nat, e: nat) -> nat
    decreases e,
{
    if e == 0 {
        1
    } else {
        b * power(b, (e - 1) as nat)
    }
}

pub open spec fn capped(x: int) -> u64 {
    if x > u64::MAX {
        u64::MAX
    } else {
        x as u64
    }
}

impl RetryPolicy {
    /// Up to three attempts, waiting 100 ms after the first failure and
    /// 200 ms after the second; the third failure is final.
    pub fn standard() -> (r: RetryPolicy)
        ensures
            r == (RetryPolicy { max_attempts: 3, base_delay_ms: 100, multiplier: 2 }),
    {
        RetryPolicy { max_attempts: 3, base_delay_ms: 100, multiplier: 2 }
    }

    pub open spec fn delay_of(self, attempt: nat) -> u64 {
        capped(self.base_delay_ms * power(self.multiplier as nat, attempt))
    }

    pub open spec fn step_of(self, attempt: nat, succeeded: bool) -> RetryStep {
        if succeeded {
            RetryStep::Done
        } else if attempt + 1 >= self.max_attempts {
            RetryStep::GiveUp
        } else {
            RetryStep::Wait(self.delay_of(attempt))
        }
    }

    /// The wait after failed attempt `attempt`.
    pub fn delay(&self, attempt: u32) -> (r: u64)
        ensures
            r == self.delay_of(attempt as nat),
    {
        let mut d: u64 = self.base_delay_ms;
        let mut i: u32 = 0;
        assert(power(self.multiplier as nat, 0) == 1);
        while i < attempt
            invariant
                i <= attempt,
                d == capped(self.base_delay_ms * power(self.multiplier as nat, i as nat)),
            decreases attempt - i,
        {
            let ghost exact = self.base_delay_ms * power(self.multiplier as nat, i as nat);
            let ghost m = self.multiplier as int;
            assert(self.base_delay_ms * power(m as nat, (i + 1) as nat) == exact * m) by (
            nonlinear_arith)
                requires
                    power(m as nat, (i + 1) as nat) == m * power(m as nat, i as nat),
                    exact == self.base_delay_ms * power(m as nat, i as nat),
            ;
            assert(exact >= 0) by (nonlinear_arith)
                requires
                    exact == self.base_delay_ms * power(m as nat, i as nat),
            ;
            proof {
                if exact > u64::MAX && m >= 1 {
                    assert(exact * m >= exact) by (nonlinear_arith)
                        requires
                            exact >= 0,
                            m >= 1,
                    ;
                    assert(d as int * m >= d as int) by (nonlinear_arith)
                        requires
                            m >= 1,
                    ;
                } else if exact > u64::MAX {
                    assert(m == 0);
                    assert(exact * m == 0);
                    assert(d as int * m == 0);
                } else {
                    assert(d as int == exact);
                }
            }
            d = match d.checked_mul(self.multiplier) {
                Some(x) => x,
                None => u64::MAX,
            };
            i += 1;
        }
        d
    }

    /// The decision after attempt `attempt` (counting from 0).
    pub fn next_step(&self, attempt: u32, succeeded: bool) -> (r: RetryStep)
        ensures
            r == self.step_of(attempt as nat, succeeded),
    {
        if succeeded {
            RetryStep::Done
        } else if attempt as u64 + 1 >= self.max_attempts as u64 {
            RetryStep::GiveUp
        } else {
            RetryStep::Wait(self.delay(attempt))
        }
    }
}

} // verus!
