//! Balance: the angular velocity decays every step and follows the rotate intents.

use vstd::prelude::*;
use crate::body::PhysicsBody;
use crate::units::{ANGULAR_INCREMENT, ANGULAR_LIMIT, DAMPING_PERCENT};

verus! {

/// Magnitude of an integer.
pub open spec fn magnitude(v: int) -> int {
    if v >= 0 {
        v
    } else {
        -v
    }
}

/// The angular velocity after one step's decay: scaled by the damping factor
/// and rounded towards zero.
pub open spec fn damped(v: int) -> int {
    if v >= 0 {
        v * DAMPING_PERCENT / 100
    } else {
        -((-v) * DAMPING_PERCENT / 100)
    }
}

/// The angular velocity after one step: first the decay, then the increment
/// of the positive rotate intent if the value is below the limit, then the
/// decrement of the negative one if the value is above the lower limit.
pub open spec fn balance_step(v: int, rotate_positive: bool, rotate_negative: bool) -> int {
    let decayed = damped(v);
    let raised = if rotate_positive && decayed < ANGULAR_LIMIT {
        decayed + ANGULAR_INCREMENT
    } else {
        decayed
    };
    if rotate_negative && raised > -ANGULAR_LIMIT {
        raised - ANGULAR_INCREMENT
    } else {
        raised
    }
}

/// The angular velocity after a run of steps, one pair of rotate intents
/// (positive, negative) per step.
pub open spec fn balance_run(v: int, intents: Seq<(bool, bool)>) -> int
    decreases intents.len(),
{
    if intents.len() == 0 {
        v
    } else {
        balance_step(balance_run(v, intents.drop_last()), intents.last().0, intents.last().1)
    }
}

/// Whether the value lies within the limit on both sides.
pub open spec fn within_limit(v: int) -> bool {
    -ANGULAR_LIMIT <= v <= ANGULAR_LIMIT
}

/// Whether the value lies within the limit widened by one increment, the
/// range that no run of steps leaves.
pub open spec fn within_reach(v: int) -> bool {
    -(ANGULAR_LIMIT + ANGULAR_INCREMENT) <= v <= ANGULAR_LIMIT + ANGULAR_INCREMENT
}

/// Whether a step from `v` carries a lone rotate intent past the limit: the
/// decayed value is still inside the limit, so the intent is let through, but
/// less than one increment away from it.
pub open spec fn overshoots(v: int, rotate_positive: bool, rotate_negative: bool) -> bool {
    ||| rotate_positive && !rotate_negative && damped(v) > ANGULAR_LIMIT - ANGULAR_INCREMENT
    ||| rotate_negative && !rotate_positive && damped(v) < -(ANGULAR_LIMIT - ANGULAR_INCREMENT)
}

/// Whether no step of the run from `v` overshoots.
pub open spec fn run_never_overshoots(v: int, intents: Seq<(bool, bool)>) -> bool {
    forall|i: int|
        0 <= i < intents.len() ==> !overshoots(
            balance_run(v, #[trigger] intents.take(i)),
            intents[i].0,
            intents[i].1,
        )
}

/// One step's decay of an angular velocity.
pub fn damp(v: i64) -> (r: i64)
    ensures
        r == damped(v as int),
        magnitude(r as int) <= magnitude(v as int),
{
    let wide: i128 = v as i128;
    let percent: i128 = DAMPING_PERCENT as i128;
    if wide >= 0 {
        (wide * percent / 100) as i64
    } else {
        (-((-wide) * percent / 100)) as i64
    }
}

/// Runs the balance controller for one step on the body's angular velocity.
/// Position and linear velocity are never touched.
pub fn rotate_player(rotate_positive: bool, rotate_negative: bool, body: &mut PhysicsBody)
    ensures
        final(body).angular_velocity == balance_step(
            old(body).angular_velocity as int,
            rotate_positive,
            rotate_negative,
        ),
        final(body).position == old(body).position,
        final(body).linear_velocity == old(body).linear_velocity,
{
    let mut angular: i64 = damp(body.angular_velocity);
    if rotate_positive && angular < ANGULAR_LIMIT {
        angular = angular + ANGULAR_INCREMENT;
    }
    if rotate_negative && angular > -ANGULAR_LIMIT {
        angular = angular - ANGULAR_INCREMENT;
    }
    body.angular_velocity = angular;
}

/// With no rotate intent held the magnitude of the angular velocity never
/// grows, shrinks whenever it is not yet zero, and the value never changes sign.
pub proof fn lemma_damping_monotone(v: int)
    ensures
        balance_step(v, false, false) == damped(v),
        magnitude(balance_step(v, false, false)) <= magnitude(v),
        v != 0 ==> magnitude(balance_step(v, false, false)) < magnitude(v),
        v >= 0 ==> balance_step(v, false, false) >= 0,
        v <= 0 ==> balance_step(v, false, false) <= 0,
{
}

/// Whether no rotate intent is held in any step of the run.
pub open spec fn no_intent_held(steps: Seq<(bool, bool)>) -> bool {
    forall|i: int| 0 <= i < steps.len() ==> !(#[trigger] steps[i]).0 && !steps[i].1
}

/// With no rotate intent held the magnitude after a longer rest is never
/// above the magnitude after a shorter one, and every step that does not
/// start from zero takes at least one unit off it.
pub proof fn lemma_rest_never_grows(v: int, steps: Seq<(bool, bool)>)
    requires
        no_intent_held(steps),
    ensures
        magnitude(balance_run(v, steps)) <= magnitude(v),
        steps.len() > 0 ==> magnitude(balance_run(v, steps)) <= magnitude(
            balance_run(v, steps.drop_last()),
        ),
        balance_run(v, steps) == 0 || magnitude(balance_run(v, steps)) <= magnitude(v)
            - steps.len(),
    decreases steps.len(),
{
    if steps.len() > 0 {
        lemma_rest_never_grows(v, steps.drop_last());
        lemma_damping_monotone(balance_run(v, steps.drop_last()));
    }
}

/// With no rotate intent held the angular velocity converges to zero: in
/// this representation it is zero after as many steps as its magnitude has
/// units, at the latest.
pub proof fn lemma_rest_converges(v: int, steps: Seq<(bool, bool)>)
    requires
        no_intent_held(steps),
        steps.len() >= magnitude(v),
    ensures
        balance_run(v, steps) == 0,
{
    lemma_rest_never_grows(v, steps);
}

/// A step keeps the angular velocity within the limit, unless a lone rotate
/// intent is let through less than one increment away from the limit.
pub proof fn lemma_step_keeps_limit(v: int, rotate_positive: bool, rotate_negative: bool)
    requires
        within_limit(v),
        !overshoots(v, rotate_positive, rotate_negative),
    ensures
        within_limit(balance_step(v, rotate_positive, rotate_negative)),
{
}

/// Where a lone rotate intent is let through less than one increment away
/// from the limit, the step does leave the limit.
pub proof fn lemma_overshoot_leaves_limit(v: int, rotate_positive: bool, rotate_negative: bool)
    requires
        within_limit(v),
        overshoots(v, rotate_positive, rotate_negative),
    ensures
        !within_limit(balance_step(v, rotate_positive, rotate_negative)),
        within_reach(balance_step(v, rotate_positive, rotate_negative)),
{
}

/// For every sequence of rotate intents of which no step overshoots, the
/// angular velocity is within the limit after the last step, and so after
/// every step before it.
pub proof fn lemma_run_keeps_limit(v: int, intents: Seq<(bool, bool)>)
    requires
        within_limit(v),
        run_never_overshoots(v, intents),
    ensures
        within_limit(balance_run(v, intents)),
    decreases intents.len(),
{
    if intents.len() > 0 {
        let shorter = intents.drop_last();
        assert forall|i: int| 0 <= i < shorter.len() implies !overshoots(
            balance_run(v, #[trigger] shorter.take(i)),
            shorter[i].0,
            shorter[i].1,
        ) by {
            assert(shorter.take(i) =~= intents.take(i));
        }
        lemma_run_keeps_limit(v, shorter);
        assert(intents.take(intents.len() - 1) =~= shorter);
        lemma_step_keeps_limit(balance_run(v, shorter), intents.last().0, intents.last().1);
    }
}

/// Whatever the rotate intents, a step never carries the angular velocity
/// further than one increment past the limit.
pub proof fn lemma_step_keeps_reach(v: int, rotate_positive: bool, rotate_negative: bool)
    requires
        within_reach(v),
    ensures
        within_reach(balance_step(v, rotate_positive, rotate_negative)),
{
}

/// For every sequence of rotate intents, the angular velocity after any
/// number of steps is at most one increment past the limit.
pub proof fn lemma_run_keeps_reach(v: int, intents: Seq<(bool, bool)>)
    requires
        within_reach(v),
    ensures
        within_reach(balance_run(v, intents)),
    decreases intents.len(),
{
    if intents.len() > 0 {
        lemma_run_keeps_reach(v, intents.drop_last());
        lemma_step_keeps_reach(
            balance_run(v, intents.drop_last()),
            intents.last().0,
            intents.last().1,
        );
    }
}

} // verus!
