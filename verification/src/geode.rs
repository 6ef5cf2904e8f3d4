//! Predictor for items received by breaking geodes.

use vstd::prelude::*;

use crate::error::ConfigError;

verus! {

/// The kind of geode that is broken.
#[derive(Clone, Copy, Debug, PartialEq, Eq, Structural)]
pub enum GeodeKind {
    /// A regular geode.
    Geode,
    /// A frozen geode.
    FrozenGeode,
    /// A magma geode.
    MagmaGeode,
    /// An omni geode.
    OmniGeode,
    /// An artifact trove.
    ArtifactTrove,
    /// A golden coconut.
    GoldenCoconut,
}

impl GeodeKind {
    /// The kind a configuration names, if the name is recognized.
    pub open spec fn spec_parse(name: Seq<char>) -> Option<GeodeKind> {
        if name == "geode"@ {
            Some(GeodeKind::Geode)
        } else if name == "frozen_geode"@ {
            Some(GeodeKind::FrozenGeode)
        } else if name == "magma_geode"@ {
            Some(GeodeKind::MagmaGeode)
        } else if name == "omni_geode"@ {
            Some(GeodeKind::OmniGeode)
        } else if name == "artifact_trove"@ {
            Some(GeodeKind::ArtifactTrove)
        } else if name == "golden_coconut"@ {
            Some(GeodeKind::GoldenCoconut)
        } else {
            None
        }
    }

    /// Parse an enumerated geode-type name; an unrecognized name is a
    /// configuration error.
    pub fn parse(name: &String) -> (r: Result<GeodeKind, ConfigError>)
        ensures
            r is Ok <==> GeodeKind::spec_parse(name@) is Some,
            r matches Ok(k) ==> GeodeKind::spec_parse(name@) == Some(k),
    {
        if *name == "geode".to_owned() {
            Ok(GeodeKind::Geode)
        } else if *name == "frozen_geode".to_owned() {
            Ok(GeodeKind::FrozenGeode)
        } else if *name == "magma_geode".to_owned() {
            Ok(GeodeKind::MagmaGeode)
        } else if *name == "omni_geode".to_owned() {
            Ok(GeodeKind::OmniGeode)
        } else if *name == "artifact_trove".to_owned() {
            Ok(GeodeKind::ArtifactTrove)
        } else if *name == "golden_coconut".to_owned() {
            Ok(GeodeKind::GoldenCoconut)
        } else {
            Err(ConfigError::UnknownEnumValue(name.clone()))
        }
    }
}

/// Configuration for [`Geode`].
#[derive(Clone, Debug, PartialEq, Eq)]
pub struct GeodeConfig {
    /// Item identifier to search for.
    pub item: String,
    /// Minimum quantity required.
    pub quantity: u32,
    /// Name of the geode type broken for the search.
    pub geode_type: String,
}

/// What the geode simulation predicted for one state: the reward pulled out
/// of the broken geode.
#[derive(Clone, Debug, PartialEq, Eq)]
pub struct GeodeReward {
    /// Identifier of the rewarded item.
    pub item: String,
    /// Quantity of the rewarded item.
    pub quantity: u32,
}

/// Decides whether the reward of a broken geode is a required quantity of a
/// required item. The reward itself comes from the external geode
/// simulation.
#[derive(Clone, Debug, PartialEq, Eq)]
pub struct Geode {
    /// Item identifier to search for.
    pub item: String,
    /// Minimum quantity required.
    pub quantity: u32,
    /// The kind of geode broken; recorded for reporting and for the
    /// simulation collaborator.
    pub geode_type: GeodeKind,
}

impl Geode {
    /// Create a new [`Geode`] from a [`GeodeConfig`].
    ///
    /// Fails exactly when the enumerated geode-type name is unrecognized.
    /// Whether the item identifier exists in the game's catalog is the
    /// catalog collaborator's to check.
    pub fn new(config: &GeodeConfig) -> (r: Result<Self, ConfigError>)
        ensures
            r is Ok <==> GeodeKind::spec_parse(config.geode_type@) is Some,
            r matches Ok(g) ==> {
                &&& g.item@ == config.item@
                &&& g.quantity == config.quantity
                &&& GeodeKind::spec_parse(config.geode_type@) == Some(g.geode_type)
            },
    {
        let geode_type = match GeodeKind::parse(&config.geode_type) {
            Ok(k) => k,
            Err(e) => {
                return Err(e);
            },
        };
        Ok(Geode { item: config.item.as_str().to_owned(), quantity: config.quantity, geode_type })
    }

    /// Whether a reward satisfies the requirement: the required item, in at
    /// least the required quantity.
    pub open spec fn spec_decide(self, reward: GeodeReward) -> bool {
        reward.item@ == self.item@ && reward.quantity >= self.quantity
    }

    /// Decide this predictor's condition on one predicted reward.
    pub fn decide(&self, reward: &GeodeReward) -> (b: bool)
        ensures
            b == self.spec_decide(*reward),
    {
        reward.item == self.item && reward.quantity >= self.quantity
    }
}

} // verus!
