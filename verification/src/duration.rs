//! Game time in mixed units.
//!
//! One action is two seconds, one turn three actions, one minute ten turns,
//! one hour sixty minutes and one day twenty-four hours. A [`Duration`] always
//! holds its amount in the unique form in which every unit but the day is
//! below the next unit's ratio.

use vstd::prelude::*;
use vstd::std_specs::ops::{AddSpecImpl, SubSpecImpl};

verus! {

/// The number of seconds that the six unit counts stand for together.
pub open spec fn seconds_in(
    seconds: nat,
    actions: nat,
    turns: nat,
    minutes: nat,
    hours: nat,
    days: nat,
) -> nat {
    seconds + 2 * actions + 6 * turns + 60 * minutes + 3600 * hours + 86400 * days
}

/// Dividing by a unit's length in seconds is dividing by the ratios one after
/// another.
pub proof fn lemma_unit_quotients(total: nat)
    ensures
        total / 6 == total / 2 / 3,
        total / 60 == total / 6 / 10,
        total / 3600 == total / 60 / 60,
        total / 86400 == total / 3600 / 24,
{
    let t: int = total as int;
    vstd::arithmetic::div_mod::lemma_div_denominator(t, 2, 3);
    vstd::arithmetic::div_mod::lemma_div_denominator(t, 6, 10);
    vstd::arithmetic::div_mod::lemma_div_denominator(t, 60, 60);
    vstd::arithmetic::div_mod::lemma_div_denominator(t, 3600, 24);
}

/// An amount of game time.
#[derive(Debug, Clone, Copy, PartialEq, Eq, Structural, PartialOrd, Ord, Hash)]
pub struct Duration {
    seconds: u32,
    actions: u32,
    turns: u32,
    minutes: u32,
    hours: u32,
    days: u32,
}

impl View for Duration {
    type V = nat;

    /// The whole amount in seconds.
    closed spec fn view(&self) -> nat {
        seconds_in(
            self.seconds as nat,
            self.actions as nat,
            self.turns as nat,
            self.minutes as nat,
            self.hours as nat,
            self.days as nat,
        )
    }
}

impl Duration {
    /// Every unit but the day is below the next unit's ratio.
    #[verifier::type_invariant]
    pub closed spec fn is_normal(self) -> bool {
        &&& self.seconds < 2
        &&& self.actions < 3
        &&& self.turns < 10
        &&& self.minutes < 60
        &&& self.hours < 24
    }

    /// The normal form of `total` seconds, for an amount whose days fit.
    pub closed spec fn of_seconds(total: nat) -> Duration {
        Duration {
            seconds: (total % 2) as u32,
            actions: (total / 2 % 3) as u32,
            turns: (total / 6 % 10) as u32,
            minutes: (total / 60 % 60) as u32,
            hours: (total / 3600 % 24) as u32,
            days: (total / 86400) as u32,
        }
    }

    /// Whether `total` seconds can be held: the days must fit.
    pub open spec fn fits(total: nat) -> bool {
        total / 86400 <= u32::MAX
    }

    /// `of_seconds` gives a normal form with the amount asked for.
    pub proof fn lemma_of_seconds(total: nat)
        requires
            Self::fits(total),
        ensures
            Self::of_seconds(total).is_normal(),
            Self::of_seconds(total)@ == total,
    {
        lemma_unit_quotients(total);
    }

    /// The duration of `total` seconds, which may be more than the narrower
    /// constructors take.
    #[must_use]
    pub fn from_total_seconds(total: u64) -> (r: Duration)
        requires
            Self::fits(total as nat),
        ensures
            r == Self::of_seconds(total as nat),
            r@ == total,
    {
        proof {
            Self::lemma_of_seconds(total as nat);
        }
        Duration {
            seconds: (total % 2) as u32,
            actions: (total / 2 % 3) as u32,
            turns: (total / 6 % 10) as u32,
            minutes: (total / 60 % 60) as u32,
            hours: (total / 3600 % 24) as u32,
            days: (total / 86400) as u32,
        }
    }

    /// The whole amount in seconds, in a type that always holds it.
    pub fn total_seconds(self) -> (r: u64)
        ensures
            r == self@,
            Self::fits(self@),
    {
        proof {
            use_type_invariant(&self);
        }
        self.seconds as u64 + 2 * (self.actions as u64) + 6 * (self.turns as u64) + 60 * (
        self.minutes as u64) + 3600 * (self.hours as u64) + 86400 * (self.days as u64)
    }

    /// Starts a duration whose units are all unset.
    #[must_use]
    pub fn builder() -> (r: DurationBuilder)
        ensures
            r.units() == (0nat, 0nat, 0nat, 0nat, 0nat, 0nat),
    {
        DurationBuilder::default()
    }

    /// `n` seconds.
    #[must_use]
    pub fn from_seconds(n: u32) -> (r: Self)
        ensures
            r == Self::of_seconds(n as nat),
            r@ == n,
    {
        Self::builder().with_seconds(n).build()
    }

    /// `n` actions.
    #[must_use]
    pub fn from_actions(n: u32) -> (r: Self)
        ensures
            r == Self::of_seconds(2 * n as nat),
            r@ == 2 * n,
    {
        Self::builder().with_actions(n).build()
    }

    /// `n` turns.
    #[must_use]
    pub fn from_turns(n: u32) -> (r: Self)
        ensures
            r == Self::of_seconds(6 * n as nat),
            r@ == 6 * n,
    {
        Self::builder().with_turns(n).build()
    }

    /// `n` minutes.
    #[must_use]
    pub fn from_minutes(n: u32) -> (r: Self)
        ensures
            r == Self::of_seconds(60 * n as nat),
            r@ == 60 * n,
    {
        Self::builder().with_minutes(n).build()
    }

    /// `n` hours.
    #[must_use]
    pub fn from_hours(n: u32) -> (r: Self)
        ensures
            r == Self::of_seconds(3600 * n as nat),
            r@ == 3600 * n,
    {
        Self::builder().with_hours(n).build()
    }

    /// `n` days.
    #[must_use]
    pub fn from_days(n: u32) -> (r: Self)
        ensures
            r == Self::of_seconds(86400 * n as nat),
            r@ == 86400 * n,
    {
        Self::builder().with_days(n).build()
    }

    /// The whole seconds of the amount.
    #[must_use]
    pub fn in_seconds(self) -> (r: u32)
        requires
            self@ <= u32::MAX,
        ensures
            r == self@,
    {
        self.total_seconds() as u32
    }

    /// The whole actions of the amount.
    #[must_use]
    pub fn in_actions(self) -> (r: u32)
        requires
            self@ / 2 <= u32::MAX,
        ensures
            r == self@ / 2,
    {
        (self.total_seconds() / 2) as u32
    }

    /// The whole turns of the amount.
    #[must_use]
    pub fn in_turns(self) -> (r: u32)
        requires
            self@ / 6 <= u32::MAX,
        ensures
            r == self@ / 6,
    {
        (self.total_seconds() / 6) as u32
    }

    /// The whole minutes of the amount.
    #[must_use]
    pub fn in_minutes(self) -> (r: u32)
        requires
            self@ / 60 <= u32::MAX,
        ensures
            r == self@ / 60,
    {
        (self.total_seconds() / 60) as u32
    }

    /// The whole hours of the amount.
    #[must_use]
    pub fn in_hours(self) -> (r: u32)
        requires
            self@ / 3600 <= u32::MAX,
        ensures
            r == self@ / 3600,
    {
        (self.total_seconds() / 3600) as u32
    }

    /// The whole days of the amount.
    #[must_use]
    pub fn in_days(self) -> (r: u32)
        ensures
            r == self@ / 86400,
    {
        (self.total_seconds() / 86400) as u32
    }

    /// The counts of the six units, from the seconds to the days: each but
    /// the days below the ratio of the next unit, and together the amount.
    #[must_use]
    pub fn units(self) -> (r: (u32, u32, u32, u32, u32, u32))
        ensures
            seconds_in(r.0 as nat, r.1 as nat, r.2 as nat, r.3 as nat, r.4 as nat, r.5 as nat)
                == self@,
            r.0 < 2,
            r.1 < 3,
            r.2 < 10,
            r.3 < 60,
            r.4 < 24,
    {
        proof {
            use_type_invariant(&self);
        }
        (self.seconds, self.actions, self.turns, self.minutes, self.hours, self.days)
    }

    /// The whole turns of the amount, in a type that always holds them.
    #[must_use]
    pub fn whole_turns(self) -> (r: u64)
        ensures
            r == self@ / 6,
    {
        self.total_seconds() / 6
    }

    /// `self` less `rhs`, or nothing where `rhs` is the longer.
    #[must_use]
    pub fn saturating_sub(self, rhs: Self) -> (r: Self)
        ensures
            r == Self::of_seconds(
                if self@ >= rhs@ {
                    (self@ - rhs@) as nat
                } else {
                    0
                },
            ),
            r@ == if self@ >= rhs@ {
                self@ - rhs@
            } else {
                0
            },
    {
        let x: u64 = self.total_seconds();
        let y: u64 = rhs.total_seconds();
        let left: u64 = if x >= y {
            x - y
        } else {
            0
        };
        proof {
            lemma_quotient_grows(left as nat, x as nat);
        }
        Self::from_total_seconds(left)
    }
}

/// A whole number of any unit is read back as it was given: `n` of a unit,
/// taken as a duration, is `n` of that unit again, whatever `n`.
pub proof fn law_units_read_back(n: u32)
    ensures
        Duration::of_seconds(n as nat)@ == n,
        Duration::of_seconds(2 * n as nat)@ / 2 == n,
        Duration::of_seconds(6 * n as nat)@ / 6 == n,
        Duration::of_seconds(60 * n as nat)@ / 60 == n,
        Duration::of_seconds(3600 * n as nat)@ / 3600 == n,
        Duration::of_seconds(86400 * n as nat)@ / 86400 == n,
{
    Duration::lemma_of_seconds(n as nat);
    Duration::lemma_of_seconds(2 * n as nat);
    Duration::lemma_of_seconds(6 * n as nat);
    Duration::lemma_of_seconds(60 * n as nat);
    Duration::lemma_of_seconds(3600 * n as nat);
    Duration::lemma_of_seconds(86400 * n as nat);
}

/// A longer amount has no fewer days.
pub proof fn lemma_quotient_grows(a: nat, b: nat)
    requires
        a <= b,
    ensures
        a / 86400 <= b / 86400,
{
}

impl Default for Duration {
    /// No time at all.
    fn default() -> (r: Self)
        ensures
            r == Self::of_seconds(0),
            r@ == 0,
    {
        Self::from_total_seconds(0)
    }
}

impl core::ops::Add for Duration {
    type Output = Self;

    /// The two amounts together.
    fn add(self, rhs: Self) -> (r: Self)
        ensures
            r@ == self@ + rhs@,
    {
        let x: u64 = self.total_seconds();
        let y: u64 = rhs.total_seconds();
        Self::from_total_seconds(x + y)
    }
}

impl AddSpecImpl for Duration {
    open spec fn obeys_add_spec() -> bool {
        true
    }

    /// The days of the sum must fit.
    open spec fn add_req(self, rhs: Self) -> bool {
        Self::fits(self@ + rhs@)
    }

    open spec fn add_spec(self, rhs: Self) -> Self {
        Self::of_seconds(self@ + rhs@)
    }
}

impl core::ops::Sub for Duration {
    type Output = Self;

    /// `self` less `rhs`, which must not be the longer.
    fn sub(self, rhs: Self) -> (r: Self)
        ensures
            r@ == self@ - rhs@,
    {
        let x: u64 = self.total_seconds();
        let y: u64 = rhs.total_seconds();
        proof {
            lemma_quotient_grows((x - y) as nat, x as nat);
        }
        Self::from_total_seconds(x - y)
    }
}

impl SubSpecImpl for Duration {
    open spec fn obeys_sub_spec() -> bool {
        true
    }

    open spec fn sub_req(self, rhs: Self) -> bool {
        rhs@ <= self@
    }

    open spec fn sub_spec(self, rhs: Self) -> Self {
        Self::of_seconds((self@ - rhs@) as nat)
    }
}

/// The units of a duration as they were given, before they are carried over.
#[derive(Debug, Clone, Copy, PartialEq, Eq, Structural, PartialOrd, Ord)]
pub struct DurationBuilder {
    seconds: Option<u32>,
    actions: Option<u32>,
    turns: Option<u32>,
    minutes: Option<u32>,
    hours: Option<u32>,
    days: Option<u32>,
}

/// The count of a unit: nothing where it was not set.
pub open spec fn count(unit: Option<u32>) -> nat {
    match unit {
        Some(n) => n as nat,
        None => 0,
    }
}

impl Default for DurationBuilder {
    /// The builder with no unit set.
    fn default() -> (r: Self)
        ensures
            r.units() == (0nat, 0nat, 0nat, 0nat, 0nat, 0nat),
    {
        DurationBuilder {
            seconds: None,
            actions: None,
            turns: None,
            minutes: None,
            hours: None,
            days: None,
        }
    }
}

impl View for DurationBuilder {
    type V = nat;

    /// The seconds that the units given so far stand for.
    open spec fn view(&self) -> nat {
        let u = self.units();
        seconds_in(u.0, u.1, u.2, u.3, u.4, u.5)
    }
}

impl DurationBuilder {
    /// The counts given so far, from the seconds to the days; a unit that was
    /// not set counts nothing.
    pub closed spec fn units(self) -> (nat, nat, nat, nat, nat, nat) {
        (
            count(self.seconds),
            count(self.actions),
            count(self.turns),
            count(self.minutes),
            count(self.hours),
            count(self.days),
        )
    }

    /// Whether the units given make a duration that can be held.
    #[must_use]
    pub fn can_build(&self) -> (r: bool)
        ensures
            r == Duration::fits(self@),
    {
        let seconds: u64 = unit_count(self.seconds);
        let actions: u64 = unit_count(self.actions);
        let turns: u64 = unit_count(self.turns);
        let minutes: u64 = unit_count(self.minutes);
        let hours: u64 = unit_count(self.hours);
        let days: u64 = unit_count(self.days);
        let total: u64 = seconds + 2 * actions + 6 * turns + 60 * minutes + 3600 * hours + 86400
            * days;
        total / 86400 <= 0xffff_ffff
    }

    /// The duration of the units given, carried over into normal form.
    #[must_use]
    pub fn build(self) -> (r: Duration)
        requires
            Duration::fits(self@),
        ensures
            r == Duration::of_seconds(self@),
            r@ == self@,
    {
        let seconds: u64 = unit_count(self.seconds);
        let actions: u64 = unit_count(self.actions);
        let turns: u64 = unit_count(self.turns);
        let minutes: u64 = unit_count(self.minutes);
        let hours: u64 = unit_count(self.hours);
        let days: u64 = unit_count(self.days);
        Duration::from_total_seconds(
            seconds + 2 * actions + 6 * turns + 60 * minutes + 3600 * hours + 86400 * days,
        )
    }

    /// Sets the seconds.
    #[must_use]
    pub fn with_seconds(self, n: u32) -> (r: Self)
        ensures
            r.units() == (
                n as nat,
                self.units().1,
                self.units().2,
                self.units().3,
                self.units().4,
                self.units().5,
            ),
    {
        Self { seconds: Some(n), ..self }
    }

    /// Sets the actions.
    #[must_use]
    pub fn with_actions(self, n: u32) -> (r: Self)
        ensures
            r.units() == (
                self.units().0,
                n as nat,
                self.units().2,
                self.units().3,
                self.units().4,
                self.units().5,
            ),
    {
        Self { actions: Some(n), ..self }
    }

    /// Sets the turns.
    #[must_use]
    pub fn with_turns(self, n: u32) -> (r: Self)
        ensures
            r.units() == (
                self.units().0,
                self.units().1,
                n as nat,
                self.units().3,
                self.units().4,
                self.units().5,
            ),
    {
        Self { turns: Some(n), ..self }
    }

    /// Sets the minutes.
    #[must_use]
    pub fn with_minutes(self, n: u32) -> (r: Self)
        ensures
            r.units() == (
                self.units().0,
                self.units().1,
                self.units().2,
                n as nat,
                self.units().4,
                self.units().5,
            ),
    {
        Self { minutes: Some(n), ..self }
    }

    /// Sets the hours.
    #[must_use]
    pub fn with_hours(self, n: u32) -> (r: Self)
        ensures
            r.units() == (
                self.units().0,
                self.units().1,
                self.units().2,
                self.units().3,
                n as nat,
                self.units().5,
            ),
    {
        Self { hours: Some(n), ..self }
    }

    /// Sets the days.
    #[must_use]
    pub fn with_days(self, n: u32) -> (r: Self)
        ensures
            r.units() == (
                self.units().0,
                self.units().1,
                self.units().2,
                self.units().3,
                self.units().4,
                n as nat,
            ),
    {
        Self { days: Some(n), ..self }
    }
}

/// The count of a unit in a wide type.
fn unit_count(unit: Option<u32>) -> (r: u64)
    ensures
        r == count(unit),
{
    match unit {
        Some(n) => n as u64,
        None => 0,
    }
}

} // verus!
