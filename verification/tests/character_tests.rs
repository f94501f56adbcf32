use pathtracker::character::{Chr, Health};
use std::cmp::Ordering;

#[test]
fn chr_order_greater_initiative_is_less_order() {
    let c1 = Chr::builder("a", 20, true).build();
    let c2 = Chr::builder("b", 10, true).build();

    assert_eq!(Ordering::Less, c1.cmp(&c2));
}

#[test]
fn chr_order_less_initiative_is_greater_order() {
    let c1 = Chr::builder("a", 10, true).build();
    let c2 = Chr::builder("b", 20, true).build();

    assert_eq!(Ordering::Greater, c1.cmp(&c2));
}

#[test]
fn chr_order_same_init_enemy_less_than_player() {
    let c1 = Chr::builder("a", 10, false).build();
    let c2 = Chr::builder("b", 10, true).build();

    assert_eq!(Ordering::Less, c1.cmp(&c2));
}

#[test]
fn chr_order_same_init_enemy_equal_enemy() {
    let c1 = Chr::builder("a", 10, false).build();
    let c2 = Chr::builder("b", 10, false).build();

    assert_eq!(Ordering::Equal, c1.cmp(&c2));
}

#[test]
fn damage_less_than_all() {
    let mut health = Health::new(100);
    health.damage(23);

    assert_eq!(77, health.current);
}

#[test]
fn damage_overkill() {
    let mut health = Health::new(100);
    health.damage(101);

    assert_eq!(0, health.current);
}

#[test]
fn damage_temp_absorbs_less_than_all() {
    let mut health = Health::new(100);
    health.set_temp(20);
    health.damage(6);

    assert_eq!(100, health.current);
    assert_eq!(14, health.temp)
}

#[test]
fn damage_more_than_temp_rolls_over() {
    let mut health = Health::new(100);
    health.set_temp(10);
    health.damage(12);

    assert_eq!(98, health.current);
    assert_eq!(0, health.temp);
}
