//! The decisions of the glider character state in one tick: whether the glide goes on, and,
//! while it does, the speed cap, the boost and whether the player's steering is still ignored.
//! The flight physics around them is floating-point work that stays with the caller.

use vstd::prelude::*;

verus! {

/// What the glide state does in a tick once the glider input has been handled.
#[derive(Clone, Copy, Debug, PartialEq, Eq, Structural)]
pub enum GlideStep {
    /// The input handling already switched the character to another state; it stands.
    Leave,
    /// Landed and at rest: back to holding the glider.
    Wield,
    /// In liquid or without a glider in the glider slot: back to idle.
    Idle,
    /// Still airborne: the caller tries to grab a ledge, and glides on when that fails.
    TryClimb,
}

/// What the glide state reads about the character in a tick.
#[derive(Clone, Copy, Debug, PartialEq, Eq, Structural)]
pub struct GlideConditions {
    /// The character is still gliding after the glider input was handled.
    pub still_gliding: bool,
    /// The character stands on the ground.
    pub on_ground: bool,
    /// Its speed relative to the ground is below 2 blocks per second.
    pub slow_on_ground: bool,
    /// The glide state held a booster at the start of the tick.
    pub booster_gained: bool,
    /// The character is in a liquid.
    pub in_liquid: bool,
    /// The inventory holds a glider in the glider slot.
    pub glider_equipped: bool,
}

/// The step the glide state takes under `c`.
pub open spec fn glide_step_of(c: GlideConditions) -> GlideStep {
    if !c.still_gliding {
        GlideStep::Leave
    } else if c.on_ground && c.slow_on_ground && !c.booster_gained {
        GlideStep::Wield
    } else if c.in_liquid || !c.glider_equipped {
        GlideStep::Idle
    } else {
        GlideStep::TryClimb
    }
}

/// Decides the glide state's step for a tick.
pub fn glide_step(c: &GlideConditions) -> (r: GlideStep)
    ensures
        r == glide_step_of(*c),
        !c.still_gliding ==> r == GlideStep::Leave,
        r == GlideStep::Wield <==> c.still_gliding && c.on_ground && c.slow_on_ground
            && !c.booster_gained,
        r == GlideStep::Idle <==> c.still_gliding && !(c.on_ground && c.slow_on_ground
            && !c.booster_gained) && (c.in_liquid || !c.glider_equipped),
        r == GlideStep::TryClimb <==> c.still_gliding && !(c.on_ground && c.slow_on_ground
            && !c.booster_gained) && !c.in_liquid && c.glider_equipped,
{
    if !c.still_gliding {
        GlideStep::Leave
    } else if c.on_ground && c.slow_on_ground && !c.booster_gained {
        GlideStep::Wield
    } else if c.in_liquid || !c.glider_equipped {
        GlideStep::Idle
    } else {
        GlideStep::TryClimb
    }
}

/// The extra push the boost switch gives a gliding character.
#[derive(Clone, Copy, Debug, PartialEq, Eq, Structural)]
pub enum BoostPush {
    /// No push.
    Off,
    /// On the ground: an upward kick to help the start.
    Lift,
    /// In the air: horizontal speed grows with the tick's length.
    Surge,
}

/// What a glide that goes on reads in a tick.
#[derive(Clone, Copy, Debug, PartialEq, Eq, Structural)]
pub struct FlightInputs {
    /// The player's steering was still ignored before this tick. A glide starts so, and
    /// steering is taken up once the player lets go of the movement input.
    pub inputs_disabled: bool,
    /// The player gives no movement direction.
    pub move_dir_zero: bool,
    /// The roll input is pressed.
    pub roll_pressed: bool,
    /// The boost switch is on.
    pub boost_on: bool,
    /// The glider already flies too fast.
    pub too_fast: bool,
    /// The character stands on the ground.
    pub on_ground: bool,
}

/// What a glide that goes on does in a tick.
#[derive(Clone, Copy, Debug, PartialEq, Eq, Structural)]
pub struct GlideFlight {
    /// The speed cap is on; pressing roll lifts it.
    pub cap_speed: bool,
    /// The push of the boost switch.
    pub push: BoostPush,
    /// The player's steering is still ignored after this tick.
    pub inputs_disabled: bool,
}

/// The push that the boost switch gives: none when it is off or the glider is too fast,
/// a lift on the ground, a surge in the air.
pub open spec fn push_of(boost_on: bool, too_fast: bool, on_ground: bool) -> BoostPush {
    if boost_on && !too_fast {
        if on_ground {
            BoostPush::Lift
        } else {
            BoostPush::Surge
        }
    } else {
        BoostPush::Off
    }
}

/// What a glide that goes on does under `f`.
pub open spec fn glide_flight_of(f: FlightInputs) -> GlideFlight {
    GlideFlight {
        cap_speed: !f.roll_pressed,
        push: push_of(f.boost_on, f.too_fast, f.on_ground),
        inputs_disabled: f.inputs_disabled && !f.move_dir_zero,
    }
}

/// Decides what a glide that goes on does in a tick.
pub fn glide_flight(f: &FlightInputs) -> (r: GlideFlight)
    ensures
        r == glide_flight_of(*f),
        r.cap_speed == !f.roll_pressed,
        !f.boost_on ==> r.push == BoostPush::Off,
        f.too_fast ==> r.push == BoostPush::Off,
        f.boost_on && !f.too_fast && f.on_ground ==> r.push == BoostPush::Lift,
        f.boost_on && !f.too_fast && !f.on_ground ==> r.push == BoostPush::Surge,
        r.inputs_disabled == (f.inputs_disabled && !f.move_dir_zero),
{
    let cap_speed = !f.roll_pressed;
    let push = if f.boost_on && !f.too_fast {
        if f.on_ground {
            BoostPush::Lift
        } else {
            BoostPush::Surge
        }
    } else {
        BoostPush::Off
    };
    let inputs_disabled = f.inputs_disabled && !f.move_dir_zero;
    GlideFlight { cap_speed, push, inputs_disabled }
}

/// The kind of a booster picked up while gliding.
#[derive(Clone, Copy, Debug, PartialEq, Eq, Structural)]
pub enum BoostKind {
    /// Slowly increases the horizontal speed.
    Forward,
    /// Gives a vertical impulse.
    Upward,
}

/// The direction in which a booster pushes.
#[derive(Clone, Copy, Debug, PartialEq, Eq, Structural)]
pub enum PushAxis {
    Horizontal,
    Vertical,
}

impl BoostKind {
    /// The direction in which a booster of this kind pushes.
    pub open spec fn spec_axis(self) -> PushAxis {
        match self {
            BoostKind::Forward => PushAxis::Horizontal,
            BoostKind::Upward => PushAxis::Vertical,
        }
    }

    /// The direction in which a booster of this kind pushes.
    pub fn axis(&self) -> (r: PushAxis)
        ensures
            r == self.spec_axis(),
    {
        match self {
            BoostKind::Forward => PushAxis::Horizontal,
            BoostKind::Upward => PushAxis::Vertical,
        }
    }
}

/// The push a booster held at the start of a tick gives: a Forward booster raises the
/// horizontal speed, an Upward booster gives a vertical impulse, and no booster gives none.
pub open spec fn booster_push_of(held: Option<BoostKind>) -> Option<PushAxis> {
    match held {
        Some(k) => Some(k.spec_axis()),
        None => None,
    }
}

/// Decides the push of the booster held at the start of a tick.
pub fn booster_push(held: Option<BoostKind>) -> (r: Option<PushAxis>)
    ensures
        r == booster_push_of(held),
{
    match held {
        Some(k) => Some(k.axis()),
        None => None,
    }
}

/// What putting the glider away does: the character goes idle, and the glider is reported
/// as no longer wielded.
#[derive(Clone, Copy, Debug, PartialEq, Eq, Structural)]
pub struct Unwield {
    /// The step the glide state takes.
    pub step: GlideStep,
    /// Whether the reported glider is still wielded.
    pub wielded: bool,
}

/// Decides what putting the glider away does.
pub fn unwield() -> (r: Unwield)
    ensures
        r == (Unwield { step: GlideStep::Idle, wielded: false }),
{
    Unwield { step: GlideStep::Idle, wielded: false }
}

/// The booster the glide state holds in the next tick, given the one it `held` at the start
/// of this tick and the one handed to it during this tick: only the latter.
pub open spec fn next_booster_of<B>(held: Option<B>, set_this_tick: Option<B>) -> Option<B> {
    set_this_tick
}

/// The booster the glide state holds in the next tick. The glide state drops the booster it
/// held at the start of a tick and keeps only one handed to it during the tick.
pub fn next_booster<B>(held: Option<B>, set_this_tick: Option<B>) -> (r: Option<B>)
    ensures
        r == next_booster_of(held, set_this_tick),
{
    let _dropped = held;
    set_this_tick
}

/// A booster lasts one tick: one held at the start of a tick is gone in the next unless a
/// booster is handed over again during the tick.
pub proof fn lemma_booster_lasts_one_tick<B>(held: B)
    ensures
        next_booster_of(Some(held), None::<B>) is None,
{
}

/// Input handling that switched the character away from gliding always stands: the step is
/// to leave, whatever the ground, liquid, booster and glider are.
pub proof fn lemma_switched_state_stands(c: GlideConditions)
    requires
        !c.still_gliding,
    ensures
        glide_step_of(c) == GlideStep::Leave,
{
}

/// A glide goes on to the ledge check exactly when it is still gliding, has not landed at
/// rest without a booster, is out of liquid and still has its glider; it lands into wielding
/// exactly when it is still gliding and at rest on the ground without a booster.
pub proof fn lemma_glide_step_cases(c: GlideConditions)
    ensures
        glide_step_of(c) == GlideStep::TryClimb <==> c.still_gliding && !(c.on_ground
            && c.slow_on_ground && !c.booster_gained) && !c.in_liquid && c.glider_equipped,
        glide_step_of(c) == GlideStep::Wield <==> c.still_gliding && c.on_ground
            && c.slow_on_ground && !c.booster_gained,
{
}

/// With the boost switch off there is no push, on the ground or in the air.
pub proof fn lemma_boost_switch_off_no_push(f: FlightInputs)
    requires
        !f.boost_on,
    ensures
        glide_flight_of(f).push == BoostPush::Off,
{
}

/// The switch pushes exactly when it is on and the glider is not too fast: upward on the
/// ground, horizontally in the air.
pub proof fn lemma_boost_push_cases(f: FlightInputs)
    ensures
        glide_flight_of(f).push != BoostPush::Off <==> f.boost_on && !f.too_fast,
        glide_flight_of(f).push == BoostPush::Lift <==> f.boost_on && !f.too_fast && f.on_ground,
        glide_flight_of(f).push == BoostPush::Surge <==> f.boost_on && !f.too_fast
            && !f.on_ground,
{
}

/// The speed cap is on exactly when roll is not pressed, whatever else the tick reads.
pub proof fn lemma_cap_follows_roll(f: FlightInputs)
    ensures
        glide_flight_of(f).cap_speed <==> !f.roll_pressed,
{
}

/// Steering stays ignored exactly while it was ignored and the player still gives a
/// movement direction.
pub proof fn lemma_steering_taken_up_on_release(f: FlightInputs)
    ensures
        glide_flight_of(f).inputs_disabled <==> f.inputs_disabled && !f.move_dir_zero,
{
}

/// Steering, once enabled, stays enabled: no later tick ignores it again.
pub proof fn lemma_steering_stays_enabled(f: FlightInputs)
    requires
        !f.inputs_disabled,
    ensures
        !glide_flight_of(f).inputs_disabled,
{
}

/// A glider that already flies too fast gets no push from the boost switch.
pub proof fn lemma_no_boost_when_too_fast(f: FlightInputs)
    requires
        f.too_fast,
    ensures
        glide_flight_of(f).push == BoostPush::Off,
{
}

/// A glide that holds a booster does not end by landing: on the ground it goes on unless it
/// is in liquid or the glider is gone.
pub proof fn lemma_booster_keeps_gliding(c: GlideConditions)
    requires
        c.still_gliding,
        c.booster_gained,
        !c.in_liquid,
        c.glider_equipped,
    ensures
        glide_step_of(c) == GlideStep::TryClimb,
{
}

} // verus!
