use pathtracker::character::{Chr, ChrBuilder, ChrName, Health};
use std::cmp::Ordering;

#[test]
fn new_health_is_full() {
    let h = Health::new(30);
    assert_eq!(Health { current: 30, max: 30, temp: 0 }, h);
}

#[test]
fn heal_stops_at_max() {
    let mut h = Health::new(30);
    h.damage(10);
    h.heal(4);
    assert_eq!(24, h.current);
    h.heal(100);
    assert_eq!(30, h.current);
    h.heal(u32::MAX);
    assert_eq!(30, h.current);
}

#[test]
fn heal_of_the_largest_pool_does_not_overflow() {
    let mut h = Health { current: u32::MAX - 1, max: u32::MAX, temp: 0 };
    h.heal(u32::MAX);
    assert_eq!(u32::MAX, h.current);
}

#[test]
fn damage_exactly_temp_leaves_current() {
    let mut h = Health::new(50);
    h.set_temp(8);
    h.damage(8);
    assert_eq!(Health { current: 50, max: 50, temp: 0 }, h);
}

#[test]
fn damage_of_everything_leaves_nothing() {
    let mut h = Health::new(50);
    h.set_temp(8);
    h.damage(58);
    assert_eq!(Health { current: 0, max: 50, temp: 0 }, h);
    h.damage(u32::MAX);
    assert_eq!(Health { current: 0, max: 50, temp: 0 }, h);
}

#[test]
fn set_current_is_capped() {
    let mut h = Health::new(50);
    h.set_current(20);
    assert_eq!(20, h.current);
    h.set_current(51);
    assert_eq!(50, h.current);
}

#[test]
fn set_max_cuts_current_down() {
    let mut h = Health::new(50);
    h.set_max(30);
    assert_eq!(Health { current: 30, max: 30, temp: 0 }, h);
    h.set_max(40);
    assert_eq!(Health { current: 30, max: 40, temp: 0 }, h);
}

#[test]
fn temp_is_set_and_stacked() {
    let mut h = Health::new(50);
    h.set_temp(5);
    h.add_temp(7);
    assert_eq!(12, h.temp);
    h.set_temp(3);
    assert_eq!(3, h.temp);
}

#[test]
fn chr_without_health_takes_no_change() {
    let mut c = Chr::builder("a", 1, true).build();
    assert!(!c.heal(3));
    assert!(!c.damage(3));
    assert!(!c.set_temp_health(3));
    assert!(!c.set_current_health(3));
    assert!(!c.add_temp_health(3));
    assert_eq!(None, c.health);
}

#[test]
fn chr_with_health_changes() {
    let mut c = Chr::builder("a", 1, true).with_health(Health::new(20)).build();
    assert!(c.damage(7));
    assert_eq!(Some(Health { current: 13, max: 20, temp: 0 }), c.health);
    assert!(c.heal(2));
    assert!(c.set_temp_health(4));
    assert!(c.add_temp_health(1));
    assert_eq!(Some(Health { current: 15, max: 20, temp: 5 }), c.health);
    assert!(c.set_current_health(99));
    assert_eq!(Some(Health { current: 20, max: 20, temp: 5 }), c.health);
}

#[test]
fn set_max_health_makes_a_pool() {
    let mut c = Chr::builder("a", 1, true).build();
    c.set_max_health(12);
    assert_eq!(Some(Health { current: 12, max: 12, temp: 0 }), c.health);
    c.set_max_health(5);
    assert_eq!(Some(Health { current: 5, max: 5, temp: 0 }), c.health);
    c.set_health(Health::new(9));
    assert_eq!(Some(Health::new(9)), c.health);
}

#[test]
fn builder_builds_what_was_given() {
    let c = ChrBuilder::new(ChrName::new("Zed"), -3, false).with_health(Health::new(4)).build();
    assert_eq!("Zed", c.name.as_str());
    assert_eq!(-3, c.init);
    assert!(!c.player);
    assert_eq!(Some(Health::new(4)), c.health);
    assert_eq!(c, Chr::builder("Zed", -3, false).with_health(Health::new(4)).build());
}

#[test]
fn names_compare_by_spelling() {
    assert_eq!(ChrName::new("a"), ChrName::new("a"));
    assert_ne!(ChrName::new("a"), ChrName::new("A"));
    assert_eq!("abc".to_string(), ChrName::new("abc").into_string());
}

#[test]
fn same_init_player_after_enemy() {
    let p = Chr::builder("p", 10, true).build();
    let e = Chr::builder("e", 10, false).build();
    assert_eq!(Ordering::Greater, p.cmp(&e));
    assert_eq!(Ordering::Equal, p.cmp(&p));
    assert!(e.precedes(&p));
    assert!(!p.precedes(&e));
    assert!(!p.precedes(&p));
}

#[test]
fn order_goes_by_initiative_first() {
    let p = Chr::builder("p", 11, true).build();
    let e = Chr::builder("e", 10, false).build();
    assert_eq!(Ordering::Less, p.cmp(&e));
    let low = Chr::builder("l", i32::MIN, false).build();
    let high = Chr::builder("h", i32::MAX, true).build();
    assert_eq!(Ordering::Less, high.cmp(&low));
}
