//! The builder: from a declarative configuration tree to a composed
//! predicate graph, through a stub leaf factory.

use seed_maker::ConfigError;
use seed_maker::DayRangeConfig;
use seed_maker::EvalError;
use seed_maker::GarbageConfig;
use seed_maker::GeodeConfig;
use seed_maker::NightEventConfig;
use seed_maker::Predicate;
use seed_maker::Predictor;
use seed_maker::PredictorConfig;
use seed_maker::PredictorFactory;
use seed_maker::ReportError;
use seed_maker::RngType;
use seed_maker::SeedFinder;
use seed_maker::SeedFinderConfig;
use seed_maker::SeedFinderStateConfig;
use seed_maker::WeatherConfig;
use seed_maker::WorldState;

/// A stand-in for the simulation-backed leaves: each variant records what
/// it was built from, and matching is an arbitrary cheap rule.
#[derive(Debug, PartialEq)]
enum StubLeaf {
    Garbage(usize),
    Geode,
    Night,
    /// Matches even seeds when built with `is_rain` set.
    Weather(bool),
}

impl Predictor for StubLeaf {
    fn predict(&self, state: &WorldState) -> Result<bool, EvalError> {
        match self {
            StubLeaf::Garbage(_) => Ok(true),
            StubLeaf::Geode => Ok(true),
            StubLeaf::Night => Ok(true),
            StubLeaf::Weather(rain) => Ok(*rain && state.game_id % 2 == 0),
        }
    }

    fn report(&self, _state: &WorldState) -> Result<String, ReportError> {
        Ok(String::from("stub\n"))
    }
}

struct StubFactory;

impl PredictorFactory<StubLeaf> for StubFactory {
    fn garbage(&self, _rng: &RngType, config: &GarbageConfig) -> Result<StubLeaf, ConfigError> {
        Ok(StubLeaf::Garbage(config.items.len()))
    }

    fn geode(&self, _rng: &RngType, config: &GeodeConfig) -> Result<StubLeaf, ConfigError> {
        if config.geode_type == "geode" {
            Ok(StubLeaf::Geode)
        } else {
            Err(ConfigError::UnknownEnumValue(config.geode_type.clone()))
        }
    }

    fn night_event(
        &self,
        _rng: &RngType,
        _config: &NightEventConfig,
    ) -> Result<StubLeaf, ConfigError> {
        Ok(StubLeaf::Night)
    }

    fn weather(&self, _rng: &RngType, config: &WeatherConfig) -> Result<StubLeaf, ConfigError> {
        Ok(StubLeaf::Weather(config.is_rain))
    }
}

fn default_state() -> SeedFinderStateConfig {
    SeedFinderStateConfig {
        multiplayer_id: 0,
        day: 1,
        daily_luck_bits: 0,
        geodes_cracked: 1,
        deepest_mine_level: 0,
    }
}

#[test]
fn state_config_conversion_keeps_fields() {
    let cfg = SeedFinderStateConfig {
        multiplayer_id: 7,
        day: 33,
        daily_luck_bits: 123,
        geodes_cracked: 2,
        deepest_mine_level: 55,
    };
    let ws = WorldState::from(cfg);
    assert_eq!(ws.game_id, 0);
    assert_eq!(ws.multiplayer_id, 7);
    assert_eq!(ws.days_played, 33);
    assert_eq!(ws.daily_luck_bits, 123);
    assert_eq!(ws.geodes_cracked, 2);
    assert_eq!(ws.deepest_mine_level, 55);
}

#[test]
fn builder_mirrors_configuration_tree() {
    let config = PredictorConfig::DayRange(DayRangeConfig {
        start_day: 1,
        end_day: 12,
        min_matches: 4,
        child: Box::new(PredictorConfig::Weather(WeatherConfig {
            is_rain: true,
            is_storm: false,
            maybe_storm: false,
        })),
    });
    let p = config.predictor(&StubFactory, &RngType::Hashed).unwrap();
    match p {
        Predicate::Quorum { start_day, end_day, min_matches, child } => {
            assert_eq!(start_day, 1);
            assert_eq!(end_day, 12);
            assert_eq!(min_matches, 4);
            assert!(matches!(*child, Predicate::Leaf(StubLeaf::Weather(true))));
        },
        Predicate::Leaf(_) => panic!("expected a quorum node"),
    }
}

#[test]
fn builder_fails_on_unbuildable_leaf() {
    let config = PredictorConfig::DayRange(DayRangeConfig {
        start_day: 1,
        end_day: 3,
        min_matches: 1,
        child: Box::new(PredictorConfig::Geode(GeodeConfig {
            item: String::from("(O)378"),
            quantity: 20,
            geode_type: String::from("pearl"),
        })),
    });
    let r = config.predictor(&StubFactory, &RngType::Hashed);
    assert!(matches!(r, Err(ConfigError::UnknownEnumValue(_))));
}

#[test]
fn from_config_builds_a_working_engine() {
    let config = SeedFinderConfig {
        rng_type: RngType::Hashed,
        max_seeds: 3,
        game_state: default_state(),
        predictors: vec![PredictorConfig::Weather(WeatherConfig {
            is_rain: true,
            is_storm: false,
            maybe_storm: false,
        })],
    };
    let finder = SeedFinder::from_config(&StubFactory, &config).unwrap();
    assert_eq!(finder.max_seeds, 3);
    assert_eq!(finder.initial_state.days_played, 1);
    assert_eq!(finder.initial_state.geodes_cracked, 1);
    let seeds = finder.find_seeds_in(0, 100);
    assert_eq!(seeds, vec![0, 2, 4]);
}

#[test]
fn from_config_surfaces_leaf_errors() {
    let config = SeedFinderConfig {
        rng_type: RngType::Legacy,
        max_seeds: 3,
        game_state: default_state(),
        predictors: vec![
            PredictorConfig::Garbage(GarbageConfig { items: Vec::new() }),
            PredictorConfig::Geode(GeodeConfig {
                item: String::from("(O)378"),
                quantity: 1,
                geode_type: String::from("pearl"),
            }),
        ],
    };
    let r = SeedFinder::from_config(&StubFactory, &config);
    assert!(matches!(r, Err(ConfigError::UnknownEnumValue(_))));
}

#[test]
fn built_quorum_graph_evaluates_like_the_combinator() {
    // The stub weather leaf matches even seeds on every day, so a quorum
    // of 4 days out of [1, 12] holds exactly for even seeds.
    let config = SeedFinderConfig {
        rng_type: RngType::Hashed,
        max_seeds: 10,
        game_state: default_state(),
        predictors: vec![PredictorConfig::DayRange(DayRangeConfig {
            start_day: 1,
            end_day: 12,
            min_matches: 4,
            child: Box::new(PredictorConfig::Weather(WeatherConfig {
                is_rain: true,
                is_storm: false,
                maybe_storm: false,
            })),
        })],
    };
    let finder = SeedFinder::from_config(&StubFactory, &config).unwrap();
    let seeds = finder.find_seeds_in(0, 10);
    assert_eq!(seeds, vec![0, 2, 4, 6, 8]);
}
