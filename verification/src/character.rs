//! The participants of an encounter: a name, an initiative score, a side and
//! an optional pool of hit points.

use core::cmp::Ordering;
use vstd::prelude::*;
use vstd::std_specs::cmp::PartialEqSpecImpl;

verus! {

/// The smaller of two amounts.
pub open spec fn least(a: int, b: int) -> int {
    if a <= b {
        a
    } else {
        b
    }
}

/// A pool of hit points. Temporary hit points are lost before current ones.
#[derive(Debug, PartialEq, Eq, Hash)]
pub struct Health {
    pub current: u32,
    pub max: u32,
    pub temp: u32,
}

impl Clone for Health {
    fn clone(&self) -> (r: Self)
        ensures
            r == *self,
    {
        Health { current: self.current, max: self.max, temp: self.temp }
    }
}

impl Health {
    /// The current hit points do not exceed the maximum.
    pub open spec fn wf(self) -> bool {
        self.current <= self.max
    }

    /// The pool after `x` points were healed: never above the maximum.
    pub open spec fn healed(self, x: u32) -> Health {
        Health { current: least(self.max as int, self.current + x) as u32, ..self }
    }

    /// The pool after `x` points of damage: the temporary points absorb what
    /// they can, the rest is taken from the current points, down to zero.
    pub open spec fn damaged(self, x: u32) -> Health {
        if x <= self.temp {
            Health { temp: (self.temp - x) as u32, ..self }
        } else if self.current <= x - self.temp {
            Health { current: 0, temp: 0, ..self }
        } else {
            Health {
                current: least(self.current - (x - self.temp), self.max as int) as u32,
                temp: 0,
                ..self
            }
        }
    }

    /// The pool with `hp` temporary points.
    pub open spec fn with_temp(self, hp: u32) -> Health {
        Health { temp: hp, ..self }
    }

    /// The pool with its current points set to `hp`, or to the maximum if
    /// `hp` is above it.
    pub open spec fn with_current(self, hp: u32) -> Health {
        Health { current: least(hp as int, self.max as int) as u32, ..self }
    }

    /// The pool with a new maximum; current points above it are cut down.
    pub open spec fn with_max(self, max: u32) -> Health {
        Health { max, current: least(self.current as int, max as int) as u32, ..self }
    }

    /// A full pool of `max` points without temporary points.
    #[must_use]
    pub fn new(max: u32) -> (r: Self)
        ensures
            r == (Health { current: max, max, temp: 0 }),
            r.wf(),
    {
        Self { max, current: max, temp: 0 }
    }

    /// Heals `x` points, up to the maximum.
    pub fn heal(&mut self, x: u32)
        ensures
            *final(self) == old(self).healed(x),
            final(self).current <= final(self).max,
    {
        if self.max <= self.current || x >= self.max - self.current {
            self.current = self.max;
        } else {
            self.current = self.current + x;
        }
    }

    /// Deals `x` points of damage.
    pub fn damage(&mut self, x: u32)
        ensures
            *final(self) == old(self).damaged(x),
            old(self).wf() ==> final(self).wf(),
    {
        if x <= self.temp {
            let left: u32 = self.temp - x;
            self.set_temp(left);
        } else {
            let rest: u32 = x - self.temp;
            let hp: u32 = if self.current <= rest {
                0
            } else {
                self.current - rest
            };
            self.set_current(hp);
            self.set_temp(0);
        }
    }

    /// Sets the temporary points.
    pub fn set_temp(&mut self, hp: u32)
        ensures
            *final(self) == old(self).with_temp(hp),
            old(self).wf() ==> final(self).wf(),
    {
        self.temp = hp
    }

    /// Sets the current points, at most to the maximum.
    pub fn set_current(&mut self, hp: u32)
        ensures
            *final(self) == old(self).with_current(hp),
            final(self).wf(),
    {
        self.current = if hp <= self.max {
            hp
        } else {
            self.max
        }
    }

    /// Sets the maximum and cuts the current points down to it.
    pub fn set_max(&mut self, max: u32)
        ensures
            *final(self) == old(self).with_max(max),
            final(self).wf(),
    {
        self.max = max;
        if self.current > max {
            self.current = max;
        }
    }

    /// Adds `hp` temporary points to those already there.
    pub fn add_temp(&mut self, hp: u32)
        requires
            old(self).temp + hp <= u32::MAX,
        ensures
            *final(self) == old(self).with_temp((old(self).temp + hp) as u32),
            old(self).wf() ==> final(self).wf(),
    {
        self.temp = self.temp + hp;
    }
}

/// The name of a character, by which the roster and the conditions find it.
#[derive(Debug, Default, Eq, Hash, PartialOrd, Ord)]
pub struct ChrName(String);

impl View for ChrName {
    type V = Seq<char>;

    /// The characters of the name.
    closed spec fn view(&self) -> Seq<char> {
        self.0@
    }
}

impl Clone for ChrName {
    fn clone(&self) -> (r: Self)
        ensures
            r == *self,
    {
        ChrName(self.0.clone())
    }
}

impl PartialEq for ChrName {
    fn eq(&self, other: &Self) -> (r: bool) {
        self.0 == other.0
    }
}

impl PartialEqSpecImpl for ChrName {
    open spec fn obeys_eq_spec() -> bool {
        true
    }

    /// Two names are equal when they are spelled alike.
    open spec fn eq_spec(&self, other: &Self) -> bool {
        self@ == other@
    }
}

impl ChrName {
    /// The name spelled `name`.
    pub fn new(name: &str) -> (r: Self)
        ensures
            r@ == name@,
    {
        Self(name.to_owned())
    }

    /// The name as a string.
    pub fn into_string(self) -> (r: String)
        ensures
            r@ == self@,
    {
        self.0
    }

    /// The name as a string slice.
    pub fn as_str(&self) -> (r: &str)
        ensures
            r@ == self@,
    {
        self.0.as_str()
    }
}

/// A participant of the encounter.
#[derive(Debug, PartialEq, Eq, Hash)]
pub struct Chr {
    pub name: ChrName,
    pub init: i32,
    pub player: bool,
    pub health: Option<Health>,
}

impl Clone for Chr {
    fn clone(&self) -> (r: Self)
        ensures
            r == *self,
    {
        Chr {
            name: self.name.clone(),
            init: self.init,
            player: self.player,
            health: match &self.health {
                Some(h) => Some(h.clone()),
                None => None,
            },
        }
    }
}

impl Chr {
    /// `self` acts strictly before `other`: it has the higher initiative, or
    /// the same and is a foe where `other` is a player.
    pub open spec fn acts_before(self, other: Chr) -> bool {
        self.init > other.init || (self.init == other.init && !self.player && other.player)
    }

    /// Neither acts strictly before the other.
    pub open spec fn tied_with(self, other: Chr) -> bool {
        self.init == other.init && self.player == other.player
    }

    /// A pool, if there is one, holds no more current points than its maximum.
    pub open spec fn wf(self) -> bool {
        self.health matches Some(h) ==> h.wf()
    }

    /// The character after `x` points were healed.
    pub open spec fn healed(self, x: u32) -> Chr {
        match self.health {
            Some(h) => Chr { health: Some(h.healed(x)), ..self },
            None => self,
        }
    }

    /// The character after `x` points of damage.
    pub open spec fn damaged(self, x: u32) -> Chr {
        match self.health {
            Some(h) => Chr { health: Some(h.damaged(x)), ..self },
            None => self,
        }
    }

    /// The character with `hp` temporary points.
    pub open spec fn with_temp(self, hp: u32) -> Chr {
        match self.health {
            Some(h) => Chr { health: Some(h.with_temp(hp)), ..self },
            None => self,
        }
    }

    /// The character with `hp` more temporary points.
    pub open spec fn with_more_temp(self, hp: u32) -> Chr {
        match self.health {
            Some(h) => Chr { health: Some(h.with_temp((h.temp + hp) as u32)), ..self },
            None => self,
        }
    }

    /// The character with its current points set to `hp`, at most to the
    /// maximum.
    pub open spec fn with_current(self, hp: u32) -> Chr {
        match self.health {
            Some(h) => Chr { health: Some(h.with_current(hp)), ..self },
            None => self,
        }
    }

    /// The character under the name `name`.
    pub open spec fn renamed(self, name: ChrName) -> Chr {
        Chr { name, ..self }
    }

    /// The character with the pool `health`.
    pub open spec fn with_health(self, health: Health) -> Chr {
        Chr { health: Some(health), ..self }
    }

    /// The character with the maximum `max`: its pool cut down to it, or a
    /// full new pool where it had none.
    pub open spec fn with_max(self, max: u32) -> Chr {
        match self.health {
            Some(h) => Chr { health: Some(h.with_max(max)), ..self },
            None => Chr { health: Some(Health { current: max, max, temp: 0 }), ..self },
        }
    }

    /// Whether the pool, if there is one, is valid.
    pub fn is_valid(&self) -> (r: bool)
        ensures
            r == self.wf(),
    {
        match &self.health {
            Some(h) => h.current <= h.max,
            None => true,
        }
    }

    /// Starts a character with the given name, initiative and side.
    pub fn builder(name: &str, init: i32, player: bool) -> (r: ChrBuilder)
        ensures
            r.described().name@ == name@,
            r.described().init == init,
            r.described().player == player,
            r.described().health is None,
    {
        ChrBuilder::new(ChrName::new(name), init, player)
    }

    /// Whether `self` acts strictly before `other`.
    pub fn precedes(&self, other: &Chr) -> (r: bool)
        ensures
            r == self.acts_before(*other),
    {
        self.init > other.init || (self.init == other.init && !self.player && other.player)
    }

    /// The turn order of two characters: `Less` for the one that acts first.
    pub fn cmp(&self, other: &Chr) -> (r: Ordering)
        ensures
            r is Less <==> self.acts_before(*other),
            r is Greater <==> other.acts_before(*self),
            r is Equal <==> self.tied_with(*other),
    {
        if self.precedes(other) {
            Ordering::Less
        } else if other.precedes(self) {
            Ordering::Greater
        } else {
            Ordering::Equal
        }
    }

    /// Heals `x` points if the character has a pool, and says whether it has.
    pub fn heal(&mut self, x: u32) -> (r: bool)
        ensures
            r == old(self).health is Some,
            *final(self) == old(self).healed(x),
            old(self).wf() ==> final(self).wf(),
    {
        match &mut self.health {
            Some(health) => {
                health.heal(x);
                true
            },
            None => false,
        }
    }

    /// Deals `x` points of damage if the character has a pool, and says
    /// whether it has.
    pub fn damage(&mut self, x: u32) -> (r: bool)
        ensures
            r == old(self).health is Some,
            *final(self) == old(self).damaged(x),
            old(self).wf() ==> final(self).wf(),
    {
        match &mut self.health {
            Some(health) => {
                health.damage(x);
                true
            },
            None => false,
        }
    }

    /// Sets the temporary points if the character has a pool, and says
    /// whether it has.
    pub fn set_temp_health(&mut self, hp: u32) -> (r: bool)
        ensures
            r == old(self).health is Some,
            *final(self) == old(self).with_temp(hp),
            old(self).wf() ==> final(self).wf(),
    {
        match &mut self.health {
            Some(health) => {
                health.set_temp(hp);
                true
            },
            None => false,
        }
    }

    /// Gives the character the pool `health`.
    pub fn set_health(&mut self, health: Health)
        ensures
            *final(self) == old(self).with_health(health),
            health.wf() ==> final(self).wf(),
    {
        self.health = Some(health);
    }

    /// Sets the current points if the character has a pool, and says whether
    /// it has.
    pub fn set_current_health(&mut self, hp: u32) -> (r: bool)
        ensures
            r == old(self).health is Some,
            *final(self) == old(self).with_current(hp),
            old(self).wf() ==> final(self).wf(),
    {
        match &mut self.health {
            Some(health) => {
                health.set_current(hp);
                true
            },
            None => false,
        }
    }

    /// Sets the maximum of the pool; a character without one gets a full pool
    /// of `max` points.
    pub fn set_max_health(&mut self, max: u32)
        ensures
            *final(self) == old(self).with_max(max),
            final(self).wf(),
    {
        match &mut self.health {
            Some(hp) => {
                hp.set_max(max);
            },
            None => {
                self.health = Some(Health::new(max));
            },
        }
    }

    /// Adds temporary points if the character has a pool, and says whether it
    /// has.
    pub fn add_temp_health(&mut self, hp: u32) -> (r: bool)
        requires
            old(self).health matches Some(h) ==> h.temp + hp <= u32::MAX,
        ensures
            r == old(self).health is Some,
            *final(self) == old(self).with_more_temp(hp),
            old(self).wf() ==> final(self).wf(),
    {
        match &mut self.health {
            Some(health) => {
                health.add_temp(hp);
                true
            },
            None => false,
        }
    }
}

/// A character under construction.
pub struct ChrBuilder {
    name: ChrName,
    init: i32,
    player: bool,
    health: Option<Health>,
}

impl ChrBuilder {
    /// The character described so far.
    pub closed spec fn described(self) -> Chr {
        Chr { name: self.name, init: self.init, player: self.player, health: self.health }
    }

    /// Starts a character without a pool of hit points.
    #[must_use]
    pub fn new(name: ChrName, init: i32, player: bool) -> (r: Self)
        ensures
            r.described() == (Chr { name, init, player, health: None }),
    {
        Self { name, init, player, health: None }
    }

    /// The character as it was described.
    #[must_use]
    pub fn build(self) -> (r: Chr)
        ensures
            r == self.described(),
    {
        Chr { name: self.name, init: self.init, player: self.player, health: self.health }
    }

    /// Gives the character the pool `health`.
    #[must_use]
    pub fn with_health(self, health: Health) -> (r: Self)
        ensures
            r.described() == (Chr { health: Some(health), ..self.described() }),
    {
        Self { health: Some(health), ..self }
    }
}

} // verus!
