use whyyouforgetme::display::{
    day_bar_color, format_time, placeholder_color, sprite_path, thirst, thirst_color, Rgb, Thirst,
};

#[test]
fn sprite_for_each_state() {
    assert_eq!(sprite_path(0, false), "assets/sprites/plant_happy.png");
    assert_eq!(sprite_path(2, false), "assets/sprites/plant_happy.png");
    assert_eq!(sprite_path(3, false), "assets/sprites/plant_stressed.png");
    assert_eq!(sprite_path(4, false), "assets/sprites/plant_stressed.png");
    assert_eq!(sprite_path(5, false), "assets/sprites/plant_dying.png");
    assert_eq!(sprite_path(40, false), "assets/sprites/plant_dying.png");
    assert_eq!(sprite_path(0, true), "assets/sprites/plant_dead.png");
    assert_eq!(sprite_path(9, true), "assets/sprites/plant_dead.png");
}

#[test]
fn thirst_classes() {
    assert_eq!(thirst(2), Thirst::Fine);
    assert_eq!(thirst(3), Thirst::Stressed);
    assert_eq!(thirst(5), Thirst::Dying);
}

#[test]
fn thirst_bar_colors() {
    assert_eq!(thirst_color(1), Rgb { r: 80, g: 180, b: 80 });
    assert_eq!(thirst_color(4), Rgb { r: 220, g: 180, b: 50 });
    assert_eq!(thirst_color(6), Rgb { r: 210, g: 60, b: 60 });
}

#[test]
fn placeholder_colors() {
    assert_eq!(placeholder_color(0, true), Rgb { r: 80, g: 60, b: 60 });
    assert_eq!(placeholder_color(5, false), Rgb { r: 180, g: 60, b: 60 });
    assert_eq!(placeholder_color(3, false), Rgb { r: 180, g: 160, b: 40 });
    assert_eq!(placeholder_color(2, false), Rgb { r: 60, g: 160, b: 60 });
}

#[test]
fn day_bar_follows_sleep() {
    assert_eq!(day_bar_color(true), Rgb { r: 80, g: 100, b: 180 });
    assert_eq!(day_bar_color(false), Rgb { r: 80, g: 180, b: 80 });
}

#[test]
fn time_is_hours_minutes_seconds() {
    assert_eq!(format_time(0), "00h 00m 00s");
    assert_eq!(format_time(3723), "01h 02m 03s");
    assert_eq!(format_time(59), "00h 00m 59s");
    assert_eq!(format_time(3600 * 125 + 61), "125h 01m 01s");
}
