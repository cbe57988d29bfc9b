use whyyouforgetme::plant::{configured_name, PlantState};

fn plant(days_to_die: u32) -> PlantState {
    PlantState::new(String::from("Samambaia"), days_to_die)
}

#[test]
fn new_plant_is_fresh() {
    let p = plant(7);
    assert_eq!(p.name, "Samambaia");
    assert_eq!(p.days_lived, 0);
    assert_eq!(p.days_no_water, 0);
    assert!(!p.sleeping);
    assert!(!p.dead);
    assert_eq!(p.record_days, 0);
    assert_eq!(p.days_to_die, 7);
}

#[test]
fn tick_waits_for_a_full_day() {
    let mut p = plant(7);
    assert!(!p.try_tick(false));
    assert_eq!(p.days_lived, 0);
    assert_eq!(p.days_no_water, 0);
    assert_eq!(p.record_days, 0);
}

#[test]
fn tick_counts_a_day() {
    let mut p = plant(7);
    assert!(p.try_tick(true));
    assert_eq!(p.days_lived, 1);
    assert_eq!(p.days_no_water, 1);
    assert_eq!(p.record_days, 1);
    assert!(!p.dead);
}

#[test]
fn plant_dies_on_the_day_its_dry_spell_reaches_the_limit() {
    let mut p = plant(7);
    for day in 1..7 {
        assert!(p.try_tick(true));
        assert!(!p.dead, "alive on day {}", day);
    }
    assert!(p.try_tick(true));
    assert!(p.dead);
    assert_eq!(p.days_no_water, 7);
}

#[test]
fn water_restarts_the_dry_spell() {
    let mut p = plant(3);
    p.try_tick(true);
    p.try_tick(true);
    p.water();
    assert_eq!(p.days_no_water, 0);
    assert_eq!(p.days_lived, 2);
    p.try_tick(true);
    p.try_tick(true);
    assert!(!p.dead);
    p.try_tick(true);
    assert!(p.dead);
}

#[test]
fn water_twice_is_water_once() {
    let mut p = plant(5);
    p.try_tick(true);
    p.water();
    let once = p.clone();
    p.water();
    assert_eq!(p.days_no_water, once.days_no_water);
    assert_eq!(p.days_lived, once.days_lived);
}

#[test]
fn dead_plant_stays_dead() {
    let mut p = plant(1);
    p.try_tick(true);
    assert!(p.dead);
    p.water();
    assert!(p.dead);
    p.toggle_sleep();
    assert!(p.dead);
    p.try_tick(true);
    assert!(p.dead);
    assert_eq!(p.days_lived, 2);
}

#[test]
fn zero_days_to_die_kills_on_first_day() {
    let mut p = plant(0);
    assert!(!p.dead);
    p.try_tick(true);
    assert!(p.dead);
}

#[test]
fn toggle_sleep_reports_the_new_state() {
    let mut p = plant(7);
    assert!(p.toggle_sleep());
    assert!(p.sleeping);
    assert!(!p.toggle_sleep());
    assert!(!p.sleeping);
}

#[test]
fn reset_keeps_record_and_limit() {
    let mut p = plant(2);
    p.try_tick(true);
    p.try_tick(true);
    p.toggle_sleep();
    assert!(p.dead);
    p.reset(String::from("Cacto"));
    assert_eq!(p.name, "Cacto");
    assert_eq!(p.days_lived, 0);
    assert_eq!(p.days_no_water, 0);
    assert!(!p.sleeping);
    assert!(!p.dead);
    assert_eq!(p.record_days, 2);
    assert_eq!(p.days_to_die, 2);
}

#[test]
fn record_never_drops() {
    let mut p = plant(10);
    for _ in 0..4 {
        p.try_tick(true);
    }
    assert_eq!(p.record_days, 4);
    p.reset(String::from("Outra"));
    assert_eq!(p.record_days, 4);
    p.try_tick(true);
    assert_eq!(p.record_days, 4);
    for _ in 0..4 {
        p.try_tick(true);
    }
    assert_eq!(p.days_lived, 5);
    assert_eq!(p.record_days, 5);
}

#[test]
fn restore_keeps_saved_plant_under_new_limit() {
    let mut saved = plant(7);
    saved.try_tick(true);
    saved.toggle_sleep();
    let p = PlantState::restore(Some(saved), String::from("Ignorada"), 3);
    assert_eq!(p.name, "Samambaia");
    assert_eq!(p.days_lived, 1);
    assert!(p.sleeping);
    assert_eq!(p.days_to_die, 3);
}

#[test]
fn restore_without_save_makes_a_fresh_plant() {
    let p = PlantState::restore(None, String::from("Hera"), 4);
    assert_eq!(p.name, "Hera");
    assert_eq!(p.days_lived, 0);
    assert_eq!(p.record_days, 0);
    assert_eq!(p.days_to_die, 4);
    assert!(!p.dead);
}

#[test]
fn configured_name_blank_means_draw_one() {
    assert_eq!(configured_name(""), None);
    assert_eq!(configured_name("Violeta"), Some(String::from("Violeta")));
}
