//! Health pools: damage, and the once-per-tick constrain step.
use vstd::prelude::*;
use crate::num::{sat, saturate};

verus! {

/// A health pool. Damage may push `value` out of `[0, max_value]` within a
/// tick; `constrain` brings it back.
#[derive(Clone, Copy, Debug, PartialEq, Eq, Structural)]
pub struct HealthComponent {
    pub value: i32,
    pub max_value: i32,
}

/// `v` brought into `[0, m]` (for `m >= 0`).
pub open spec fn constrain_value(v: int, m: int) -> int {
    if v < 0 {
        0
    } else if v > m {
        m
    } else {
        v
    }
}

impl HealthComponent {
    pub open spec fn damaged(self, amount: int) -> HealthComponent {
        HealthComponent { value: sat(self.value - amount) as i32, ..self }
    }

    pub open spec fn constrained(self) -> HealthComponent {
        HealthComponent {
            value: constrain_value(self.value as int, self.max_value as int) as i32,
            ..self
        }
    }

    pub open spec fn in_range(self) -> bool {
        0 <= self.value <= self.max_value
    }

    /// Subtracts `amount` from the value, saturating at the bounds of `i32`.
    pub fn take_damage(&mut self, amount: i32)
        ensures
            *final(self) == old(self).damaged(amount as int),
    {
        self.value = saturate(self.value as i128 - amount as i128);
    }

    /// Brings the value back into `[0, max_value]`.
    pub fn constrain(&mut self)
        ensures
            *final(self) == old(self).constrained(),
            old(self).max_value >= 0 ==> final(self).in_range(),
    {
        if self.value < 0 {
            self.value = 0;
        } else if self.value > self.max_value {
            self.value = self.max_value;
        }
    }
}

/// The pool after each damage amount of `ds`, in order.
pub open spec fn damaged_by_all(h: HealthComponent, ds: Seq<i32>) -> HealthComponent
    decreases ds.len(),
{
    if ds.len() == 0 {
        h
    } else {
        damaged_by_all(h, ds.drop_last()).damaged(ds.last() as int)
    }
}

/// Applies a tick's damage amounts in order, then constrains the pool.
pub fn apply_damage_and_constrain(h: &mut HealthComponent, ds: &Vec<i32>)
    ensures
        *final(h) == damaged_by_all(*old(h), ds@).constrained(),
{
    let mut i: usize = 0;
    while i < ds.len()
        invariant
            i <= ds.len(),
            *h == damaged_by_all(*old(h), ds@.subrange(0, i as int)),
        decreases ds.len() - i,
    {
        h.take_damage(ds[i]);
        proof {
            assert(ds@.subrange(0, i + 1).drop_last() =~= ds@.subrange(0, i as int));
        }
        i = i + 1;
    }
    proof {
        assert(ds@.subrange(0, ds.len() as int) =~= ds@);
    }
    h.constrain();
}

/// Whatever damage a tick brings, the constrained pool lies in
/// `[0, max_value]`, and the max is never touched.
pub proof fn lemma_health_floor(h: HealthComponent, ds: Seq<i32>)
    requires
        h.max_value >= 0,
    ensures
        damaged_by_all(h, ds).constrained().in_range(),
        damaged_by_all(h, ds).max_value == h.max_value,
    decreases ds.len(),
{
    if ds.len() > 0 {
        lemma_health_floor(h, ds.drop_last());
    }
}

} // verus!
