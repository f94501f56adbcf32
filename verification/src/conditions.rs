//! Conditions: what afflicts a character, how severely, and by which rule it
//! ends.
//!
//! A condition is told from another by its kind alone: a character holds at
//! most one condition of a kind, whatever its level and its term.

use crate::character::ChrName;
use crate::duration::Duration;
use crate::settings::Pf2eVersion;
use crate::text::{decimal, push_decimal};
use vstd::prelude::*;
use vstd::std_specs::cmp::PartialEqSpecImpl;
use vstd::string::StringExecFns;

pub mod condition_manager;

verus! {

/// How much of a condition's term is written out.
#[derive(Debug, Clone, Copy, PartialEq, Eq, Structural, PartialOrd, Ord)]
pub enum CondDetail {
    Long,
    Short,
}

impl Default for CondDetail {
    /// The long form.
    fn default() -> (r: Self)
        ensures
            r == CondDetail::Long,
    {
        CondDetail::Long
    }
}

/// How a condition is written: in how much detail, and with the names of
/// which edition.
#[derive(Debug, Clone, Copy, PartialEq, Eq, Structural, PartialOrd, Ord)]
pub struct CondFormat {
    detail: CondDetail,
    version: Pf2eVersion,
}

impl Default for CondFormat {
    /// The long form with the names of the remastered edition.
    fn default() -> (r: Self)
        ensures
            r.detail() == CondDetail::Long,
            r.version() == Pf2eVersion::Remastered,
    {
        CondFormat { detail: CondDetail::Long, version: Pf2eVersion::Remastered }
    }
}

impl CondFormat {
    /// The detail of the format.
    pub closed spec fn detail(self) -> CondDetail {
        self.detail
    }

    /// The edition of the format.
    pub closed spec fn version(self) -> Pf2eVersion {
        self.version
    }

    /// The format with the given detail and edition.
    #[must_use]
    pub fn new(detail: CondDetail, version: Pf2eVersion) -> (r: Self)
        ensures
            r.detail() == detail,
            r.version() == version,
    {
        CondFormat { detail, version }
    }

    /// The format with another edition.
    #[must_use]
    pub fn set_version(self, v: Pf2eVersion) -> (r: Self)
        ensures
            r.version() == v,
            r.detail() == self.detail(),
    {
        CondFormat { detail: self.detail, version: v }
    }

    /// The edition of the format.
    #[must_use]
    pub fn get_version(&self) -> (r: Pf2eVersion)
        ensures
            r == self.version(),
    {
        self.version
    }

    /// The detail of the format.
    #[must_use]
    pub fn get_detail(&self) -> (r: CondDetail)
        ensures
            r == self.detail(),
    {
        self.detail
    }
}

/// A kind of damage.
#[derive(Debug, Clone, Copy, PartialEq, Eq, Structural, PartialOrd, Ord, Hash)]
pub enum DamageType {
    Bleed,
    Poison,
    Piercing,
    Bludgeoning,
    Slashing,
    Acid,
    Cold,
    Electricity,
    Sonic,
    Positive,
    Negative,
    Force,
    Chaotic,
    Evil,
    Good,
    Lawful,
}

impl Default for DamageType {
    /// Bleed.
    fn default() -> (r: Self)
        ensures
            r == DamageType::Bleed,
    {
        DamageType::Bleed
    }
}

impl DamageType {
    /// The name in the old edition.
    pub open spec fn old_name(self) -> Seq<char> {
        match self {
            Self::Bleed => "bleed"@,
            Self::Poison => "poison"@,
            Self::Piercing => "piercing"@,
            Self::Bludgeoning => "bludgeoning"@,
            Self::Slashing => "slashing"@,
            Self::Acid => "acid"@,
            Self::Cold => "cold"@,
            Self::Electricity => "electricity"@,
            Self::Sonic => "sonic"@,
            Self::Positive => "positive"@,
            Self::Negative => "negative"@,
            Self::Force => "force"@,
            Self::Chaotic => "chaotic"@,
            Self::Evil => "evil"@,
            Self::Good => "good"@,
            Self::Lawful => "lawful"@,
        }
    }

    /// The name in the remastered edition.
    pub open spec fn remas_name(self) -> Seq<char> {
        match self {
            Self::Bleed => "bleed"@,
            Self::Poison => "poison"@,
            Self::Piercing => "piercing"@,
            Self::Bludgeoning => "bludgeoning"@,
            Self::Slashing => "slashing"@,
            Self::Acid => "acid"@,
            Self::Cold => "cold"@,
            Self::Electricity => "clectricity"@,
            Self::Sonic => "sonic"@,
            Self::Positive => "vitality"@,
            Self::Negative => "void"@,
            Self::Force => "force"@,
            Self::Chaotic => "chaotic?"@,
            Self::Evil => "evil?"@,
            Self::Good => "good?"@,
            Self::Lawful => "lawful?"@,
        }
    }

    /// The kinds of damage, each once.
    pub open spec fn all() -> Seq<DamageType> {
        seq![
            DamageType::Bleed,
            DamageType::Poison,
            DamageType::Piercing,
            DamageType::Bludgeoning,
            DamageType::Slashing,
            DamageType::Acid,
            DamageType::Cold,
            DamageType::Electricity,
            DamageType::Sonic,
            DamageType::Positive,
            DamageType::Negative,
            DamageType::Force,
            DamageType::Chaotic,
            DamageType::Evil,
            DamageType::Good,
            DamageType::Lawful,
        ]
    }

    /// The name in the old edition.
    #[must_use]
    pub fn to_old_string(self) -> (r: String)
        ensures
            r@ == self.old_name(),
    {
        let name: &str = match self {
            Self::Bleed => "bleed",
            Self::Poison => "poison",
            Self::Piercing => "piercing",
            Self::Bludgeoning => "bludgeoning",
            Self::Slashing => "slashing",
            Self::Acid => "acid",
            Self::Cold => "cold",
            Self::Electricity => "electricity",
            Self::Sonic => "sonic",
            Self::Positive => "positive",
            Self::Negative => "negative",
            Self::Force => "force",
            Self::Chaotic => "chaotic",
            Self::Evil => "evil",
            Self::Good => "good",
            Self::Lawful => "lawful",
        };
        name.to_owned()
    }

    /// The name in the remastered edition.
    #[must_use]
    pub fn to_remas_string(self) -> (r: String)
        ensures
            r@ == self.remas_name(),
    {
        let name: &str = match self {
            Self::Bleed => "bleed",
            Self::Poison => "poison",
            Self::Piercing => "piercing",
            Self::Bludgeoning => "bludgeoning",
            Self::Slashing => "slashing",
            Self::Acid => "acid",
            Self::Cold => "cold",
            Self::Electricity => "clectricity",
            Self::Sonic => "sonic",
            Self::Positive => "vitality",
            Self::Negative => "void",
            Self::Force => "force",
            Self::Chaotic => "chaotic?",
            Self::Evil => "evil?",
            Self::Good => "good?",
            Self::Lawful => "lawful?",
        };
        name.to_owned()
    }
}

/// The kinds of damage, each once.
pub fn damage_types() -> (r: Vec<DamageType>)
    ensures
        r@ == DamageType::all(),
{
    let r = vec![
        DamageType::Bleed,
        DamageType::Poison,
        DamageType::Piercing,
        DamageType::Bludgeoning,
        DamageType::Slashing,
        DamageType::Acid,
        DamageType::Cold,
        DamageType::Electricity,
        DamageType::Sonic,
        DamageType::Positive,
        DamageType::Negative,
        DamageType::Force,
        DamageType::Chaotic,
        DamageType::Evil,
        DamageType::Good,
        DamageType::Lawful,
    ];
    assert(r@ =~= DamageType::all());
    r
}

/// The kinds of condition that have a level.
#[derive(Debug, Clone, Copy, PartialEq, Eq, Structural, PartialOrd, Ord, Hash)]
pub enum ValuedCondition {
    PersistentDamage(DamageType),
    Clumsy,
    Doomed,
    Drained,
    Dying,
    Enfeebled,
    Frightened,
    Sickened,
    Slowed,
    Stunned,
    Stupified,
    Wounded,
}

impl ValuedCondition {
    /// The name in the old edition.
    pub open spec fn old_name(self) -> Seq<char> {
        match self {
            Self::PersistentDamage(ty) => "p. "@ + ty.old_name(),
            Self::Clumsy => "clumsy"@,
            Self::Doomed => "doomed"@,
            Self::Drained => "drained"@,
            Self::Dying => "dying"@,
            Self::Enfeebled => "enfeebled"@,
            Self::Frightened => "frightened"@,
            Self::Sickened => "sickened"@,
            Self::Slowed => "slowed"@,
            Self::Stunned => "stunned"@,
            Self::Stupified => "stupified"@,
            Self::Wounded => "wounded"@,
        }
    }

    /// The name in the remastered edition.
    pub open spec fn remas_name(self) -> Seq<char> {
        match self {
            Self::PersistentDamage(ty) => "p. "@ + ty.remas_name(),
            Self::Clumsy => "clumsy"@,
            Self::Doomed => "doomed"@,
            Self::Drained => "drained"@,
            Self::Dying => "dying"@,
            Self::Enfeebled => "enfeebled"@,
            Self::Frightened => "frightened"@,
            Self::Sickened => "sickened"@,
            Self::Slowed => "slowed"@,
            Self::Stunned => "stunned"@,
            Self::Stupified => "stupified"@,
            Self::Wounded => "wounded"@,
        }
    }

    /// The name in the edition `version`.
    pub open spec fn name(self, version: Pf2eVersion) -> Seq<char> {
        match version {
            Pf2eVersion::Old => self.old_name(),
            Pf2eVersion::Remastered => self.remas_name(),
        }
    }

    /// The name in the edition of `format`.
    #[must_use]
    pub fn to_string(self, format: CondFormat) -> (r: String)
        ensures
            r@ == self.name(format.version()),
    {
        match format.get_version() {
            Pf2eVersion::Old => self.to_old_string(),
            Pf2eVersion::Remastered => self.to_remas_string(),
        }
    }

    /// The name in the old edition.
    #[must_use]
    pub fn to_old_string(self) -> (r: String)
        ensures
            r@ == self.old_name(),
    {
        match self {
            Self::PersistentDamage(ty) => {
                let mut name: String = "p. ".to_owned();
                name.append(ty.to_old_string().as_str());
                name
            },
            Self::Clumsy => "clumsy".to_owned(),
            Self::Doomed => "doomed".to_owned(),
            Self::Drained => "drained".to_owned(),
            Self::Dying => "dying".to_owned(),
            Self::Enfeebled => "enfeebled".to_owned(),
            Self::Frightened => "frightened".to_owned(),
            Self::Sickened => "sickened".to_owned(),
            Self::Slowed => "slowed".to_owned(),
            Self::Stunned => "stunned".to_owned(),
            Self::Stupified => "stupified".to_owned(),
            Self::Wounded => "wounded".to_owned(),
        }
    }

    /// The name in the remastered edition.
    #[must_use]
    pub fn to_remas_string(self) -> (r: String)
        ensures
            r@ == self.remas_name(),
    {
        match self {
            Self::PersistentDamage(ty) => {
                let mut name: String = "p. ".to_owned();
                name.append(ty.to_remas_string().as_str());
                name
            },
            Self::Clumsy => "clumsy".to_owned(),
            Self::Doomed => "doomed".to_owned(),
            Self::Drained => "drained".to_owned(),
            Self::Dying => "dying".to_owned(),
            Self::Enfeebled => "enfeebled".to_owned(),
            Self::Frightened => "frightened".to_owned(),
            Self::Sickened => "sickened".to_owned(),
            Self::Slowed => "slowed".to_owned(),
            Self::Stunned => "stunned".to_owned(),
            Self::Stupified => "stupified".to_owned(),
            Self::Wounded => "wounded".to_owned(),
        }
    }
}

/// The kinds of condition that have no level.
#[derive(Debug, Clone, Copy, PartialEq, Eq, Structural, PartialOrd, Ord, Hash)]
pub enum NonValuedCondition {
    Blinded,
    Broken,
    Concealed,
    Confused,
    Controlled,
    Dazzled,
    Deafened,
    Encumbered,
    Fascinated,
    Fatigued,
    FlatFooted,
    Fleeing,
    Friendly,
    Grabbed,
    Helpful,
    Hidden,
    Hostile,
    Immobilized,
    Indifferent,
    Invisible,
    Observed,
    Paralyzed,
    Petrified,
    Prone,
    Quickened,
    Restrained,
    Unconscious,
    Undetected,
    Unfriendly,
    Unnoticed,
}

impl NonValuedCondition {
    /// The name in the old edition.
    pub open spec fn old_name(self) -> Seq<char> {
        match self {
            Self::Blinded => "blinded"@,
            Self::Broken => "broken"@,
            Self::Concealed => "concealed"@,
            Self::Confused => "confused"@,
            Self::Controlled => "controlled"@,
            Self::Dazzled => "dazzled"@,
            Self::Deafened => "deafened"@,
            Self::Encumbered => "encumbered"@,
            Self::Fascinated => "fascinated"@,
            Self::Fatigued => "fatigued"@,
            Self::FlatFooted => "flat-footed"@,
            Self::Fleeing => "fleeing"@,
            Self::Friendly => "friendly"@,
            Self::Grabbed => "grabbed"@,
            Self::Helpful => "helpful"@,
            Self::Hidden => "hidden"@,
            Self::Hostile => "hostile"@,
            Self::Immobilized => "immobilized"@,
            Self::Indifferent => "indifferent"@,
            Self::Invisible => "invisible"@,
            Self::Observed => "observed"@,
            Self::Paralyzed => "paralyzed"@,
            Self::Petrified => "petrified"@,
            Self::Prone => "prone"@,
            Self::Quickened => "quickened"@,
            Self::Restrained => "restrained"@,
            Self::Unconscious => "unconscious"@,
            Self::Undetected => "undetected"@,
            Self::Unfriendly => "unfriendly"@,
            Self::Unnoticed => "unnoticed"@,
        }
    }

    /// The name in the remastered edition.
    pub open spec fn remas_name(self) -> Seq<char> {
        match self {
            Self::Blinded => "blinded"@,
            Self::Broken => "broken"@,
            Self::Concealed => "concealed"@,
            Self::Confused => "confused"@,
            Self::Controlled => "controlled"@,
            Self::Dazzled => "dazzled"@,
            Self::Deafened => "deafened"@,
            Self::Encumbered => "encumbered"@,
            Self::Fascinated => "fascinated"@,
            Self::Fatigued => "fatigued"@,
            Self::FlatFooted => "off-guard"@,
            Self::Fleeing => "fleeing"@,
            Self::Friendly => "friendly"@,
            Self::Grabbed => "grabbed"@,
            Self::Helpful => "helpful"@,
            Self::Hidden => "hidden"@,
            Self::Hostile => "hostile"@,
            Self::Immobilized => "immobilized"@,
            Self::Indifferent => "indifferent"@,
            Self::Invisible => "invisible"@,
            Self::Observed => "observed"@,
            Self::Paralyzed => "paralyzed"@,
            Self::Petrified => "petrified"@,
            Self::Prone => "prone"@,
            Self::Quickened => "quickened"@,
            Self::Restrained => "restrained"@,
            Self::Unconscious => "unconscious"@,
            Self::Undetected => "undetected"@,
            Self::Unfriendly => "unfriendly"@,
            Self::Unnoticed => "unnoticed"@,
        }
    }

    /// The name in the edition `version`.
    pub open spec fn name(self, version: Pf2eVersion) -> Seq<char> {
        match version {
            Pf2eVersion::Old => self.old_name(),
            Pf2eVersion::Remastered => self.remas_name(),
        }
    }

    /// The name in the edition of `format`.
    #[must_use]
    pub fn to_string(self, format: CondFormat) -> (r: String)
        ensures
            r@ == self.name(format.version()),
    {
        match format.get_version() {
            Pf2eVersion::Old => self.to_old_string(),
            Pf2eVersion::Remastered => self.to_remas_string(),
        }
    }

    /// The name in the old edition.
    #[must_use]
    pub fn to_old_string(self) -> (r: String)
        ensures
            r@ == self.old_name(),
    {
        let name: &str = match self {
            Self::Blinded => "blinded",
            Self::Broken => "broken",
            Self::Concealed => "concealed",
            Self::Confused => "confused",
            Self::Controlled => "controlled",
            Self::Dazzled => "dazzled",
            Self::Deafened => "deafened",
            Self::Encumbered => "encumbered",
            Self::Fascinated => "fascinated",
            Self::Fatigued => "fatigued",
            Self::FlatFooted => "flat-footed",
            Self::Fleeing => "fleeing",
            Self::Friendly => "friendly",
            Self::Grabbed => "grabbed",
            Self::Helpful => "helpful",
            Self::Hidden => "hidden",
            Self::Hostile => "hostile",
            Self::Immobilized => "immobilized",
            Self::Indifferent => "indifferent",
            Self::Invisible => "invisible",
            Self::Observed => "observed",
            Self::Paralyzed => "paralyzed",
            Self::Petrified => "petrified",
            Self::Prone => "prone",
            Self::Quickened => "quickened",
            Self::Restrained => "restrained",
            Self::Unconscious => "unconscious",
            Self::Undetected => "undetected",
            Self::Unfriendly => "unfriendly",
            Self::Unnoticed => "unnoticed",
        };
        name.to_owned()
    }

    /// The name in the remastered edition.
    #[must_use]
    pub fn to_remas_string(self) -> (r: String)
        ensures
            r@ == self.remas_name(),
    {
        let name: &str = match self {
            Self::Blinded => "blinded",
            Self::Broken => "broken",
            Self::Concealed => "concealed",
            Self::Confused => "confused",
            Self::Controlled => "controlled",
            Self::Dazzled => "dazzled",
            Self::Deafened => "deafened",
            Self::Encumbered => "encumbered",
            Self::Fascinated => "fascinated",
            Self::Fatigued => "fatigued",
            Self::FlatFooted => "off-guard",
            Self::Fleeing => "fleeing",
            Self::Friendly => "friendly",
            Self::Grabbed => "grabbed",
            Self::Helpful => "helpful",
            Self::Hidden => "hidden",
            Self::Hostile => "hostile",
            Self::Immobilized => "immobilized",
            Self::Indifferent => "indifferent",
            Self::Invisible => "invisible",
            Self::Observed => "observed",
            Self::Paralyzed => "paralyzed",
            Self::Petrified => "petrified",
            Self::Prone => "prone",
            Self::Quickened => "quickened",
            Self::Restrained => "restrained",
            Self::Unconscious => "unconscious",
            Self::Undetected => "undetected",
            Self::Unfriendly => "unfriendly",
            Self::Unnoticed => "unnoticed",
        };
        name.to_owned()
    }
}

/// The start or the end of a character's turn, as the moment at which a
/// condition ends or weakens.
#[derive(Debug, Eq, PartialOrd, Ord, Hash)]
pub enum TurnEvent {
    /// The next time the character's turn starts.
    StartOfNextTurn(ChrName),
    /// The end of the character's next turn: not of a turn that is running
    /// when the condition is added.
    EndOfNextTurn(ChrName),
    /// The next time the character's turn ends, a running turn included.
    EndOfCurrentTurn(ChrName),
}

impl Clone for TurnEvent {
    fn clone(&self) -> (r: Self)
        ensures
            r == *self,
    {
        match self {
            Self::StartOfNextTurn(name) => Self::StartOfNextTurn(name.clone()),
            Self::EndOfNextTurn(name) => Self::EndOfNextTurn(name.clone()),
            Self::EndOfCurrentTurn(name) => Self::EndOfCurrentTurn(name.clone()),
        }
    }
}

impl PartialEq for TurnEvent {
    fn eq(&self, other: &Self) -> (r: bool) {
        match (self, other) {
            (Self::StartOfNextTurn(a), Self::StartOfNextTurn(b)) => a == b,
            (Self::EndOfNextTurn(a), Self::EndOfNextTurn(b)) => a == b,
            (Self::EndOfCurrentTurn(a), Self::EndOfCurrentTurn(b)) => a == b,
            _ => false,
        }
    }
}

impl PartialEqSpecImpl for TurnEvent {
    open spec fn obeys_eq_spec() -> bool {
        true
    }

    /// Two events are the same when they are the same moment of the turn of
    /// characters of the same name.
    open spec fn eq_spec(&self, other: &Self) -> bool {
        self.same_as(*other)
    }
}

impl TurnEvent {
    /// The character whose turn it is about.
    pub open spec fn who(self) -> ChrName {
        match self {
            Self::StartOfNextTurn(name) => name,
            Self::EndOfNextTurn(name) => name,
            Self::EndOfCurrentTurn(name) => name,
        }
    }

    /// The same moment of the turn of a character of the same name.
    pub open spec fn same_as(self, other: TurnEvent) -> bool {
        &&& self.who()@ == other.who()@
        &&& self is StartOfNextTurn <==> other is StartOfNextTurn
        &&& self is EndOfNextTurn <==> other is EndOfNextTurn
        &&& self is EndOfCurrentTurn <==> other is EndOfCurrentTurn
    }

    /// The event in words.
    pub open spec fn text(self) -> Seq<char> {
        match self {
            Self::StartOfNextTurn(name) => "start of next turn of "@ + name@,
            Self::EndOfNextTurn(name) => "end of next turn of "@ + name@,
            Self::EndOfCurrentTurn(name) => "end of current turn of "@ + name@,
        }
    }

    /// The event in words.
    #[must_use]
    pub fn to_string(&self) -> (r: String)
        ensures
            r@ == self.text(),
    {
        match self {
            Self::StartOfNextTurn(name) => {
                let mut text: String = "start of next turn of ".to_owned();
                text.append(name.as_str());
                text
            },
            Self::EndOfNextTurn(name) => {
                let mut text: String = "end of next turn of ".to_owned();
                text.append(name.as_str());
                text
            },
            Self::EndOfCurrentTurn(name) => {
                let mut text: String = "end of current turn of ".to_owned();
                text.append(name.as_str());
                text
            },
        }
    }
}

/// The rule by which a condition without a level ends.
#[derive(Debug, PartialEq, Eq, PartialOrd, Ord, Hash)]
pub enum NonValuedTerm {
    /// It ends when it is removed by hand.
    Manual,
    /// It ends when the time has passed, counted in turns of the character
    /// that holds it.
    For(Duration),
    /// It ends at the event.
    Until(TurnEvent),
}

impl Default for NonValuedTerm {
    fn default() -> (r: Self)
        ensures
            r == NonValuedTerm::Manual,
    {
        NonValuedTerm::Manual
    }
}

impl Clone for NonValuedTerm {
    fn clone(&self) -> (r: Self)
        ensures
            r == *self,
    {
        match self {
            Self::Manual => Self::Manual,
            Self::For(dur) => Self::For(*dur),
            Self::Until(event) => Self::Until(event.clone()),
        }
    }
}

impl NonValuedTerm {
    /// The rule in a word.
    pub open spec fn short_text(self) -> Seq<char> {
        match self {
            Self::Manual => ""@,
            Self::For(_) => "for..."@,
            Self::Until(_) => "until..."@,
        }
    }

    /// The rule in full.
    pub open spec fn long_text(self) -> Seq<char> {
        match self {
            Self::Manual => ""@,
            Self::For(dur) => "for "@ + decimal(dur@ / 6) + " turns"@,
            Self::Until(event) => "until "@ + event.text(),
        }
    }

    /// The rule in the given detail.
    pub open spec fn text(self, detail: CondDetail) -> Seq<char> {
        match detail {
            CondDetail::Short => self.short_text(),
            CondDetail::Long => self.long_text(),
        }
    }

    /// The rule in a word.
    #[must_use]
    pub fn to_short_string(&self) -> (r: String)
        ensures
            r@ == self.short_text(),
    {
        match self {
            Self::Manual => "".to_owned(),
            Self::For(_) => "for...".to_owned(),
            Self::Until(_) => "until...".to_owned(),
        }
    }

    /// The rule in full.
    #[must_use]
    pub fn to_long_string(&self) -> (r: String)
        ensures
            r@ == self.long_text(),
    {
        match self {
            Self::Manual => "".to_owned(),
            Self::For(dur) => for_turns_string(dur),
            Self::Until(event) => until_string(event),
        }
    }

    /// The rule in the given detail.
    fn to_string(&self, detail: CondDetail) -> (r: String)
        ensures
            r@ == self.text(detail),
    {
        match detail {
            CondDetail::Short => self.to_short_string(),
            CondDetail::Long => self.to_long_string(),
        }
    }
}

/// "for", the whole turns of `dur`, "turns".
fn for_turns_string(dur: &Duration) -> (r: String)
    ensures
        r@ == "for "@ + decimal(dur@ / 6) + " turns"@,
{
    let mut text: String = "for ".to_owned();
    push_decimal(&mut text, dur.whole_turns());
    text.append(" turns");
    text
}

/// "until" and the event.
fn until_string(event: &TurnEvent) -> (r: String)
    ensures
        r@ == "until "@ + event.text(),
{
    let mut text: String = "until ".to_owned();
    text.append(event.to_string().as_str());
    text
}

/// The rule by which a condition with a level ends or weakens.
#[derive(Debug, PartialEq, Eq, PartialOrd, Ord, Hash)]
pub enum ValuedTerm {
    /// It ends when it is removed by hand.
    Manual,
    /// It ends when the time has passed, counted in turns of the character
    /// that holds it.
    For(Duration),
    /// It ends at the event.
    Until(TurnEvent),
    /// Its level sinks by the amount at each such event, and it ends when
    /// the level reaches zero.
    Reduced(TurnEvent, u8),
}

impl Default for ValuedTerm {
    fn default() -> (r: Self)
        ensures
            r == ValuedTerm::Manual,
    {
        ValuedTerm::Manual
    }
}

impl Clone for ValuedTerm {
    fn clone(&self) -> (r: Self)
        ensures
            r == *self,
    {
        match self {
            Self::Manual => Self::Manual,
            Self::For(dur) => Self::For(*dur),
            Self::Until(event) => Self::Until(event.clone()),
            Self::Reduced(event, amount) => Self::Reduced(event.clone(), *amount),
        }
    }
}

impl ValuedTerm {
    /// The rule in a word.
    pub open spec fn short_text(self) -> Seq<char> {
        match self {
            Self::Manual => ""@,
            Self::For(_) => "for..."@,
            Self::Until(_) => "until..."@,
            Self::Reduced(_, _) => "reduced..."@,
        }
    }

    /// The rule in full.
    pub open spec fn long_text(self) -> Seq<char> {
        match self {
            Self::Manual => ""@,
            Self::For(dur) => "for "@ + decimal(dur@ / 6) + " turns"@,
            Self::Until(event) => "until "@ + event.text(),
            Self::Reduced(event, amount) => "reduced by "@ + decimal(amount as nat) + " at "@
                + event.text(),
        }
    }

    /// The rule in the given detail.
    pub open spec fn text(self, detail: CondDetail) -> Seq<char> {
        match detail {
            CondDetail::Short => self.short_text(),
            CondDetail::Long => self.long_text(),
        }
    }

    /// The rule in a word.
    #[must_use]
    pub fn to_short_string(&self) -> (r: String)
        ensures
            r@ == self.short_text(),
    {
        match self {
            Self::Manual => "".to_owned(),
            Self::For(_) => "for...".to_owned(),
            Self::Until(_) => "until...".to_owned(),
            Self::Reduced(_, _) => "reduced...".to_owned(),
        }
    }

    /// The rule in full.
    #[must_use]
    pub fn to_long_string(&self) -> (r: String)
        ensures
            r@ == self.long_text(),
    {
        match self {
            Self::Manual => "".to_owned(),
            Self::For(dur) => for_turns_string(dur),
            Self::Until(event) => until_string(event),
            Self::Reduced(event, amount) => {
                let mut text: String = "reduced by ".to_owned();
                push_decimal(&mut text, *amount as u64);
                text.append(" at ");
                text.append(event.to_string().as_str());
                text
            },
        }
    }

    /// The rule in the given detail.
    fn to_string(&self, detail: CondDetail) -> (r: String)
        ensures
            r@ == self.text(detail),
    {
        match detail {
            CondDetail::Short => self.to_short_string(),
            CondDetail::Long => self.to_long_string(),
        }
    }
}

/// A condition: its kind, the rule by which it ends and, for the kinds that
/// have one, its level.
#[derive(Debug, Eq, PartialOrd, Ord)]
#[allow(inconsistent_fields)]
pub enum Condition {
    Valued { cond: ValuedCondition, term: ValuedTerm, level: u8 },
    NonValued { cond: NonValuedCondition, term: NonValuedTerm },
}

impl Clone for Condition {
    fn clone(&self) -> (r: Self)
        ensures
            r == *self,
    {
        match self {
            Self::Valued { cond, term, level } => Self::Valued {
                cond: *cond,
                term: term.clone(),
                level: *level,
            },
            Self::NonValued { cond, term } => Self::NonValued { cond: *cond, term: term.clone() },
        }
    }
}

impl PartialEq for Condition {
    fn eq(&self, other: &Self) -> (r: bool) {
        match (self, other) {
            (Self::Valued { cond: c1, .. }, Self::Valued { cond: c2, .. }) => *c1 == *c2,
            (Self::NonValued { cond: c1, .. }, Self::NonValued { cond: c2, .. }) => *c1 == *c2,
            _ => false,
        }
    }
}

impl PartialEqSpecImpl for Condition {
    open spec fn obeys_eq_spec() -> bool {
        true
    }

    /// Two conditions are equal when they are of the same kind, whatever
    /// their levels and terms.
    open spec fn eq_spec(&self, other: &Self) -> bool {
        self.same_kind(*other)
    }
}

impl Condition {
    /// Of the same kind: both with a level or both without, and the same
    /// affliction.
    pub open spec fn same_kind(self, other: Condition) -> bool {
        match (self, other) {
            (Self::Valued { cond: c1, .. }, Self::Valued { cond: c2, .. }) => c1 == c2,
            (Self::NonValued { cond: c1, .. }, Self::NonValued { cond: c2, .. }) => c1 == c2,
            _ => false,
        }
    }

    /// The level of a condition that has one, and nothing for one that has
    /// none.
    pub open spec fn level_or_zero(self) -> nat {
        match self {
            Self::Valued { level, .. } => level as nat,
            Self::NonValued { .. } => 0,
        }
    }

    /// The condition written in `format`: its name, its level if it has one,
    /// and its term, with a blank between them.
    pub open spec fn text(self, format: CondFormat) -> Seq<char> {
        match self {
            Self::Valued { cond, term, level } => cond.name(format.version()) + " "@ + decimal(
                level as nat,
            ) + " "@ + term.text(format.detail()),
            Self::NonValued { cond, term } => cond.name(format.version()) + " "@ + term.text(
                format.detail(),
            ),
        }
    }

    /// Starts a condition.
    #[must_use]
    pub fn builder() -> (r: ConditionBuilder)
    {
        ConditionBuilder::default()
    }

    /// The condition written in `format`.
    #[must_use]
    pub fn to_string(&self, format: CondFormat) -> (r: String)
        ensures
            r@ == self.text(format),
    {
        match self {
            Self::Valued { cond, term, level } => {
                let mut text: String = cond.to_string(format);
                text.append(" ");
                push_decimal(&mut text, *level as u64);
                text.append(" ");
                text.append(term.to_string(format.get_detail()).as_str());
                text
            },
            Self::NonValued { cond, term } => {
                let mut text: String = cond.to_string(format);
                text.append(" ");
                text.append(term.to_string(format.get_detail()).as_str());
                text
            },
        }
    }
}

/// The place of a part that a [`ConditionBuilder`] has not been given yet.
pub struct Empty;

/// The kinds of condition: those with a level and those without.
pub trait CondType {

}

impl CondType for ValuedCondition {

}

impl CondType for NonValuedCondition {

}

/// A condition under construction: first its kind, then, in any order, its
/// level (if the kind has one) and its term. A term that is not given is
/// `Manual`.
pub struct ConditionBuilder<Cond = Empty, Value = Empty, Term = Empty> {
    cond: Cond,
    value: Value,
    term: Term,
}

impl Default for ConditionBuilder<Empty, Empty, Empty> {
    fn default() -> (r: Self) {
        Self { cond: Empty, value: Empty, term: Empty }
    }
}

impl<Cond, Value, Term> ConditionBuilder<Cond, Value, Term> {
    /// The kind given.
    pub closed spec fn kind(self) -> Cond {
        self.cond
    }

    /// The level given.
    pub closed spec fn level(self) -> Value {
        self.value
    }

    /// The term given.
    pub closed spec fn ends(self) -> Term {
        self.term
    }
}

impl ConditionBuilder<Empty, Empty, Empty> {
    /// Gives the kind.
    #[must_use]
    pub fn condition<Cond: CondType>(self, cond: Cond) -> (r: ConditionBuilder<Cond, Empty, Empty>)
        ensures
            r.kind() == cond,
    {
        ConditionBuilder { cond, value: Empty, term: Empty }
    }
}

impl<Term> ConditionBuilder<NonValuedCondition, Empty, Term> {
    /// Gives the term.
    #[must_use]
    pub fn term(self, term: NonValuedTerm) -> (r: ConditionBuilder<
        NonValuedCondition,
        Empty,
        NonValuedTerm,
    >)
        ensures
            r.kind() == self.kind(),
            r.ends() == term,
    {
        ConditionBuilder { cond: self.cond, value: self.value, term }
    }
}

impl ConditionBuilder<NonValuedCondition, Empty, NonValuedTerm> {
    /// The condition with the kind and the term given.
    #[must_use]
    pub fn build(self) -> (r: Condition)
        ensures
            r == (Condition::NonValued { cond: self.kind(), term: self.ends() }),
    {
        Condition::NonValued { cond: self.cond, term: self.term }
    }
}

impl ConditionBuilder<NonValuedCondition, Empty, Empty> {
    /// The condition with the kind given, which ends by hand.
    #[must_use]
    pub fn build(self) -> (r: Condition)
        ensures
            r == (Condition::NonValued { cond: self.kind(), term: NonValuedTerm::Manual }),
    {
        Condition::NonValued { cond: self.cond, term: NonValuedTerm::Manual }
    }
}

impl<Value, Term> ConditionBuilder<ValuedCondition, Value, Term> {
    /// Gives the level.
    #[must_use]
    pub fn value(self, value: u8) -> (r: ConditionBuilder<ValuedCondition, u8, Term>)
        ensures
            r.kind() == self.kind(),
            r.level() == value,
            r.ends() == self.ends(),
    {
        ConditionBuilder { cond: self.cond, value, term: self.term }
    }

    /// Gives the term.
    #[must_use]
    pub fn term(self, term: ValuedTerm) -> (r: ConditionBuilder<
        ValuedCondition,
        Value,
        ValuedTerm,
    >)
        ensures
            r.kind() == self.kind(),
            r.level() == self.level(),
            r.ends() == term,
    {
        ConditionBuilder { cond: self.cond, value: self.value, term }
    }
}

impl ConditionBuilder<ValuedCondition, u8, ValuedTerm> {
    /// The condition with the kind, the level and the term given.
    #[must_use]
    pub fn build(self) -> (r: Condition)
        ensures
            r == (Condition::Valued {
                cond: self.kind(),
                term: self.ends(),
                level: self.level(),
            }),
    {
        Condition::Valued { cond: self.cond, term: self.term, level: self.value }
    }
}

impl ConditionBuilder<ValuedCondition, u8, Empty> {
    /// The condition with the kind and the level given, which ends by hand.
    #[must_use]
    pub fn build(self) -> (r: Condition)
        ensures
            r == (Condition::Valued {
                cond: self.kind(),
                term: ValuedTerm::Manual,
                level: self.level(),
            }),
    {
        Condition::Valued { cond: self.cond, term: ValuedTerm::Manual, level: self.value }
    }
}

} // verus!
