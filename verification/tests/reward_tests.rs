use geostone::reward::{
    activation_cost, base_growth, environment_bonus, growth_increment, harvest_reward,
    initial_moss, Environment,
};
use geostone::stone::StoneType;

#[test]
fn cost_scaling_level_1() {
    assert_eq!(activation_cost(1000, 1), 800);
}

#[test]
fn cost_scaling_level_2() {
    assert_eq!(activation_cost(1000, 2), 1000);
}

#[test]
fn cost_scaling_level_3() {
    assert_eq!(activation_cost(1000, 3), 1200);
}

#[test]
fn cost_scaling_floors() {
    // 999 * 80 / 100 = 799.2 -> 799
    assert_eq!(activation_cost(999, 1), 799);
    assert_eq!(activation_cost(0, 3), 0);
}

#[test]
fn initial_moss_by_type_and_level() {
    assert_eq!(initial_moss(StoneType::Genesis, 1), 20);
    assert_eq!(initial_moss(StoneType::Genesis, 2), 25);
    assert_eq!(initial_moss(StoneType::Genesis, 3), 30);
    assert_eq!(initial_moss(StoneType::Astral, 1), 10);
    assert_eq!(initial_moss(StoneType::Astral, 2), 15);
    assert_eq!(initial_moss(StoneType::Astral, 3), 20);
}

fn env(temperature: i64, humidity: i64, air_quality: i64, light_level: i64) -> Environment {
    Environment { temperature, humidity, air_quality, light_level }
}

#[test]
fn environment_bonus_all_conditions_met() {
    assert_eq!(environment_bonus(&env(20, 70, 80, 60)), 4);
}

#[test]
fn environment_bonus_none_met() {
    assert_eq!(environment_bonus(&env(0, 0, 0, 0)), 0);
}

#[test]
fn environment_bonus_bounds_are_exclusive() {
    // Each boundary value earns nothing: the bounds are strict.
    assert_eq!(environment_bonus(&env(15, 70, 80, 60)), 3);
    assert_eq!(environment_bonus(&env(30, 70, 80, 60)), 3);
    assert_eq!(environment_bonus(&env(20, 60, 80, 60)), 3);
    assert_eq!(environment_bonus(&env(20, 90, 80, 60)), 3);
    assert_eq!(environment_bonus(&env(20, 70, 70, 60)), 3);
    assert_eq!(environment_bonus(&env(20, 70, 80, 50)), 3);
}

#[test]
fn base_growth_one_point_per_full_hour() {
    assert_eq!(base_growth(0, 0), 0);
    assert_eq!(base_growth(0, 3599), 0);
    assert_eq!(base_growth(0, 3600), 1);
    assert_eq!(base_growth(0, 7199), 1);
    assert_eq!(base_growth(0, 7200), 2);
}

#[test]
fn base_growth_caps_at_ten() {
    assert_eq!(base_growth(0, 36000), 10);
    assert_eq!(base_growth(0, 1000000), 10);
}

#[test]
fn base_growth_clock_skew_earns_nothing() {
    assert_eq!(base_growth(100, 50), 0);
    assert_eq!(base_growth(i64::MAX, i64::MIN), 0);
}

#[test]
fn growth_increment_sums_terms() {
    assert_eq!(growth_increment(1, 2, 3, 3), 9);
    assert_eq!(growth_increment(0, 0, 0, 1), 1);
}

#[test]
fn harvest_reward_formula() {
    // 10 + 49/10 + 5 + 0 = 19
    assert_eq!(harvest_reward(StoneType::Genesis, 49, 0), 19);
    // 10 + 100/10 + 0 + 3 = 23
    assert_eq!(harvest_reward(StoneType::Astral, 100, 3), 23);
    assert_eq!(harvest_reward(StoneType::Astral, 0, 0), 10);
}

#[test]
fn reward_functions_are_deterministic() {
    let e = env(22, 75, 90, 80);
    assert_eq!(environment_bonus(&e), environment_bonus(&e));
    assert_eq!(
        harvest_reward(StoneType::Genesis, 42, 7),
        harvest_reward(StoneType::Genesis, 42, 7)
    );
    assert_eq!(growth_increment(4, 2, 3, 1), growth_increment(4, 2, 3, 1));
}
