//! Predictor for night events like fairies and meteors.

use vstd::prelude::*;

use crate::error::ConfigError;

verus! {

/// A night event the simulation can predict for the end of a day.
#[derive(Clone, Copy, Debug, PartialEq, Eq, Structural)]
pub enum NightEventKind {
    /// The crop fairy.
    Fairy,
    /// The witch.
    Witch,
    /// A meteorite strike.
    Meteor,
    /// The stone owl.
    StoneOwl,
    /// The strange capsule.
    StrangeCapsule,
    /// No event at all.
    NoEvent,
}

impl NightEventKind {
    /// The kind a configuration names, if the name is recognized.
    pub open spec fn spec_parse(name: Seq<char>) -> Option<NightEventKind> {
        if name == "fairy"@ {
            Some(NightEventKind::Fairy)
        } else if name == "witch"@ {
            Some(NightEventKind::Witch)
        } else if name == "meteor"@ {
            Some(NightEventKind::Meteor)
        } else if name == "stone_owl"@ {
            Some(NightEventKind::StoneOwl)
        } else if name == "strange_capsule"@ {
            Some(NightEventKind::StrangeCapsule)
        } else if name == "none"@ {
            Some(NightEventKind::NoEvent)
        } else {
            None
        }
    }

    /// Parse an enumerated night-event name; an unrecognized name is a
    /// configuration error.
    pub fn parse(name: &String) -> (r: Result<NightEventKind, ConfigError>)
        ensures
            r is Ok <==> NightEventKind::spec_parse(name@) is Some,
            r matches Ok(k) ==> NightEventKind::spec_parse(name@) == Some(k),
    {
        if *name == "fairy".to_owned() {
            Ok(NightEventKind::Fairy)
        } else if *name == "witch".to_owned() {
            Ok(NightEventKind::Witch)
        } else if *name == "meteor".to_owned() {
            Ok(NightEventKind::Meteor)
        } else if *name == "stone_owl".to_owned() {
            Ok(NightEventKind::StoneOwl)
        } else if *name == "strange_capsule".to_owned() {
            Ok(NightEventKind::StrangeCapsule)
        } else if *name == "none".to_owned() {
            Ok(NightEventKind::NoEvent)
        } else {
            Err(ConfigError::UnknownEnumValue(name.clone()))
        }
    }
}

/// Configuration for [`NightEvent`].
#[derive(Clone, Debug, PartialEq, Eq)]
pub struct NightEventConfig {
    /// Name of the night event to search for.
    pub event: String,
}

/// Decides whether the night event the simulation predicted is the one
/// searched for. The observed event itself comes from the external night
/// event simulation.
#[derive(Clone, Copy, Debug, PartialEq, Eq, Structural)]
pub struct NightEvent {
    /// The event searched for.
    pub event: NightEventKind,
}

impl NightEvent {
    /// Create a new [`NightEvent`] from a [`NightEventConfig`].
    ///
    /// Fails exactly when the enumerated event name is unrecognized.
    pub fn new(config: &NightEventConfig) -> (r: Result<Self, ConfigError>)
        ensures
            r is Ok <==> NightEventKind::spec_parse(config.event@) is Some,
            r matches Ok(p) ==> NightEventKind::spec_parse(config.event@) == Some(p.event),
    {
        match NightEventKind::parse(&config.event) {
            Ok(event) => Ok(NightEvent { event }),
            Err(e) => Err(e),
        }
    }

    /// Whether the observed event is the one searched for.
    pub open spec fn spec_decide(self, observed: NightEventKind) -> bool {
        observed == self.event
    }

    /// Decide this predictor's condition on one observed night event.
    pub fn decide(&self, observed: &NightEventKind) -> (b: bool)
        ensures
            b == self.spec_decide(*observed),
    {
        *observed == self.event
    }
}

} // verus!
