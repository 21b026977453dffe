use veloren::glide::{
    booster_push, glide_flight, glide_step, next_booster, unwield, BoostKind, BoostPush,
    FlightInputs, GlideConditions, GlideFlight, GlideStep, PushAxis, Unwield,
};

fn airborne() -> GlideConditions {
    GlideConditions {
        still_gliding: true,
        on_ground: false,
        slow_on_ground: false,
        booster_gained: false,
        in_liquid: false,
        glider_equipped: true,
    }
}

fn cruising() -> FlightInputs {
    FlightInputs {
        inputs_disabled: false,
        move_dir_zero: false,
        roll_pressed: false,
        boost_on: false,
        too_fast: false,
        on_ground: false,
    }
}

#[test]
fn switched_state_stands() {
    let c = GlideConditions { still_gliding: false, on_ground: true, slow_on_ground: true, ..airborne() };
    assert_eq!(glide_step(&c), GlideStep::Leave);
}

#[test]
fn landing_at_rest_wields() {
    let c = GlideConditions { on_ground: true, slow_on_ground: true, ..airborne() };
    assert_eq!(glide_step(&c), GlideStep::Wield);
}

#[test]
fn landing_fast_keeps_gliding() {
    let c = GlideConditions { on_ground: true, slow_on_ground: false, ..airborne() };
    assert_eq!(glide_step(&c), GlideStep::TryClimb);
}

#[test]
fn booster_prevents_landing() {
    let c = GlideConditions { on_ground: true, slow_on_ground: true, booster_gained: true, ..airborne() };
    assert_eq!(glide_step(&c), GlideStep::TryClimb);
}

#[test]
fn liquid_goes_idle() {
    let c = GlideConditions { in_liquid: true, ..airborne() };
    assert_eq!(glide_step(&c), GlideStep::Idle);
}

#[test]
fn missing_glider_goes_idle() {
    let c = GlideConditions { glider_equipped: false, ..airborne() };
    assert_eq!(glide_step(&c), GlideStep::Idle);
}

#[test]
fn landing_wins_over_liquid() {
    let c = GlideConditions { on_ground: true, slow_on_ground: true, in_liquid: true, ..airborne() };
    assert_eq!(glide_step(&c), GlideStep::Wield);
}

#[test]
fn airborne_tries_climb() {
    assert_eq!(glide_step(&airborne()), GlideStep::TryClimb);
}

#[test]
fn plain_cruise() {
    assert_eq!(
        glide_flight(&cruising()),
        GlideFlight { cap_speed: true, push: BoostPush::Off, inputs_disabled: false }
    );
}

#[test]
fn roll_lifts_speed_cap() {
    let f = FlightInputs { roll_pressed: true, ..cruising() };
    assert!(!glide_flight(&f).cap_speed);
}

#[test]
fn boost_surges_in_air() {
    let f = FlightInputs { boost_on: true, ..cruising() };
    assert_eq!(glide_flight(&f).push, BoostPush::Surge);
}

#[test]
fn boost_lifts_on_ground() {
    let f = FlightInputs { boost_on: true, on_ground: true, ..cruising() };
    assert_eq!(glide_flight(&f).push, BoostPush::Lift);
}

#[test]
fn boost_off_when_too_fast() {
    let f = FlightInputs { boost_on: true, too_fast: true, on_ground: true, ..cruising() };
    assert_eq!(glide_flight(&f).push, BoostPush::Off);
}

#[test]
fn steering_enabled_once_movement_released() {
    let moving = FlightInputs { inputs_disabled: true, move_dir_zero: false, ..cruising() };
    assert!(glide_flight(&moving).inputs_disabled);
    let released = FlightInputs { inputs_disabled: true, move_dir_zero: true, ..cruising() };
    assert!(!glide_flight(&released).inputs_disabled);
}

#[test]
fn steering_stays_enabled() {
    let f = FlightInputs { inputs_disabled: false, move_dir_zero: true, ..cruising() };
    assert!(!glide_flight(&f).inputs_disabled);
}

#[test]
fn held_booster_dropped_next_tick() {
    assert_eq!(next_booster(Some(3.0f32), None), None);
}

#[test]
fn booster_set_this_tick_kept() {
    assert_eq!(next_booster(Some(3.0f32), Some(5.0f32)), Some(5.0f32));
    assert_eq!(next_booster(None, Some(BoostKind::Upward)), Some(BoostKind::Upward));
}

#[test]
fn booster_axes() {
    assert_eq!(BoostKind::Forward.axis(), PushAxis::Horizontal);
    assert_eq!(BoostKind::Upward.axis(), PushAxis::Vertical);
}

#[test]
fn forward_booster_pushes_horizontally() {
    assert_eq!(booster_push(Some(BoostKind::Forward)), Some(PushAxis::Horizontal));
}

#[test]
fn upward_booster_pushes_vertically() {
    assert_eq!(booster_push(Some(BoostKind::Upward)), Some(PushAxis::Vertical));
}

#[test]
fn no_booster_no_push() {
    assert_eq!(booster_push(None), None);
}

#[test]
fn unwield_goes_idle_unwielded() {
    assert_eq!(unwield(), Unwield { step: GlideStep::Idle, wielded: false });
}
