use pathtracker::character::{Chr, ChrName, Health};
use pathtracker::settings::{Pf2eVersion, Settings, DEFAULT_UNDO_SIZE};
use pathtracker::tracker::history::BoundedStack;
use pathtracker::tracker::roster::{are_valid, is_in_order, land, pos, sort};

fn chr(name: &str, init: i32, player: bool) -> Chr {
    Chr::builder(name, init, player).build()
}

fn names(chrs: &[Chr]) -> Vec<&str> {
    chrs.iter().map(|c| c.name.as_str()).collect()
}

#[test]
fn sort_is_by_initiative_then_side_then_as_given() {
    let mut v = vec![
        chr("a", 1, true),
        chr("b", 3, true),
        chr("c", 1, false),
        chr("d", 3, true),
        chr("e", 2, false),
        chr("f", 1, false),
    ];
    sort(&mut v);
    assert_eq!(vec!["b", "d", "e", "c", "f", "a"], names(&v));
    assert!(is_in_order(&v));
    let before = v.clone();
    sort(&mut v);
    assert_eq!(before, v);
}

#[test]
fn sort_of_nothing_and_of_one() {
    let mut v: Vec<Chr> = vec![];
    sort(&mut v);
    assert!(v.is_empty());
    assert!(is_in_order(&v));
    let mut v = vec![chr("a", 1, true)];
    sort(&mut v);
    assert_eq!(vec!["a"], names(&v));
    assert!(is_in_order(&v));
}

#[test]
fn order_is_checked() {
    assert!(is_in_order(&vec![chr("a", 3, true), chr("b", 3, true), chr("c", 2, false)]));
    assert!(!is_in_order(&vec![chr("a", 2, true), chr("b", 3, true)]));
    assert!(!is_in_order(&vec![chr("a", 3, true), chr("b", 3, false)]));
    assert!(!is_in_order(&vec![chr("a", 9, true), chr("b", 3, false), chr("c", 4, false)]));
}

#[test]
fn landing_place_of_a_new_character_is_behind_its_ties() {
    let v = vec![chr("a", 5, false), chr("b", 5, true), chr("c", 3, true)];
    assert_eq!(0, land(&v, &chr("x", 6, true), 3));
    assert_eq!(1, land(&v, &chr("x", 5, false), 3));
    assert_eq!(2, land(&v, &chr("x", 5, true), 3));
    assert_eq!(2, land(&v, &chr("x", 4, false), 3));
    assert_eq!(3, land(&v, &chr("x", 3, true), 3));
    assert_eq!(3, land(&v, &chr("x", -1, false), 3));
    assert_eq!(0, land(&vec![], &chr("x", 0, false), 0));
}

#[test]
fn landing_place_of_a_moved_character_is_among_its_ties_where_it_stood() {
    let v = vec![chr("a", 5, true), chr("b", 5, true), chr("c", 5, true)];
    let x = chr("x", 5, true);
    assert_eq!(0, land(&v, &x, 0));
    assert_eq!(1, land(&v, &x, 1));
    assert_eq!(2, land(&v, &x, 2));
    assert_eq!(3, land(&v, &x, 3));
    let y = chr("y", 6, true);
    assert_eq!(0, land(&v, &y, 3));
    let z = chr("z", 4, true);
    assert_eq!(3, land(&v, &z, 0));
}

#[test]
fn pools_are_checked() {
    let good = Chr::builder("a", 1, true).with_health(Health { current: 3, max: 3, temp: 9 }).build();
    let bad = Chr::builder("b", 1, true).with_health(Health { current: 4, max: 3, temp: 0 }).build();
    assert!(good.is_valid());
    assert!(!bad.is_valid());
    assert!(chr("c", 1, true).is_valid());
    assert!(are_valid(&vec![]));
    assert!(are_valid(&vec![good.clone(), chr("c", 1, true)]));
    assert!(!are_valid(&vec![good, bad]));
}

#[test]
fn pos_finds_the_first_of_a_name() {
    let v = vec![chr("a", 5, true), chr("b", 4, true), chr("a", 3, true)];
    assert_eq!(Some(0), pos(&v, &ChrName::new("a")));
    assert_eq!(Some(1), pos(&v, &ChrName::new("b")));
    assert_eq!(None, pos(&v, &ChrName::new("c")));
    assert_eq!(None, pos(&vec![], &ChrName::new("a")));
}

#[test]
fn stack_gives_back_the_latest_first() {
    let mut s: BoundedStack<u8> = BoundedStack::new(3);
    assert_eq!(3, s.get_bound());
    assert_eq!(None, s.pop());
    s.push(1);
    s.push(2);
    assert_eq!(2, s.len());
    assert_eq!(&2, s.get(0));
    assert_eq!(&1, s.get(1));
    assert_eq!(Some(2), s.pop());
    assert_eq!(Some(1), s.pop());
    assert_eq!(None, s.pop());
}

#[test]
fn full_stack_drops_the_oldest() {
    let mut s: BoundedStack<u8> = BoundedStack::new(2);
    s.push(1);
    s.push(2);
    s.push(3);
    assert_eq!(2, s.len());
    assert_eq!(Some(3), s.pop());
    assert_eq!(Some(2), s.pop());
    assert_eq!(None, s.pop());
}

#[test]
fn stack_of_bound_zero_holds_nothing() {
    let mut s: BoundedStack<u8> = BoundedStack::new(0);
    s.push(1);
    assert_eq!(0, s.len());
    assert_eq!(None, s.pop());
}

#[test]
fn set_bound_drops_the_oldest_beyond_it() {
    let mut s: BoundedStack<u8> = BoundedStack::new(5);
    for i in 1..=4 {
        s.push(i);
    }
    s.set_bound(2);
    assert_eq!(2, s.get_bound());
    assert_eq!(2, s.len());
    assert_eq!(Some(4), s.pop());
    assert_eq!(Some(3), s.pop());
    assert_eq!(None, s.pop());
    s.set_bound(9);
    assert_eq!(9, s.get_bound());
    assert_eq!(0, s.len());
}

#[test]
fn stack_clone_is_the_same_stack() {
    let mut s: BoundedStack<u8> = BoundedStack::new(5);
    s.push(1);
    s.push(2);
    assert_eq!(s, s.clone());
}

#[test]
fn settings_hold_what_was_set() {
    let mut s = Settings::default();
    assert_eq!(128, DEFAULT_UNDO_SIZE);
    assert_eq!(128, s.get_undo_size());
    assert_eq!(Pf2eVersion::Remastered, s.get_pf2e_version());
    assert_eq!(Pf2eVersion::Remastered, Pf2eVersion::default());
    s.set_undo_size(3);
    s.set_pf2e_version(Pf2eVersion::Old);
    assert_eq!(3, s.get_undo_size());
    assert_eq!(Pf2eVersion::Old, s.get_pf2e_version());
    assert_eq!(s, Settings::new(Pf2eVersion::Old, 3));
}
