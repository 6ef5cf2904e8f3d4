//! A configuration-driven framework for searching the 32-bit seed space of a
//! deterministic simulation for seeds whose derived game state satisfies a
//! user-declared set of conditions.
//!
//! The crate is built from:
//!
//! * **Predictors**: boolean conditions over a [`WorldState`], combinable
//!   through the [`Predictor`] trait and the [`DayRange`] quorum combinator.
//! * **Configuration**: a declarative tree ([`SeedFinderConfig`]) describing
//!   the conditions without writing code.
//! * **Search engine**: a parallel engine ([`SeedFinder`]) that scans the seed
//!   space, collects up to a configured number of matches, and can stream
//!   progress while it runs.
//!
//! The domain simulations that compute concrete outcomes (weather, item
//! drops, night events) from a seed are external collaborators: leaf
//! predictors obtain their observations from them and this crate only
//! decides, combines and searches.

mod config;
mod day_range;
mod error;
mod finder;
mod garbage;
mod geode;
mod night_event;
mod predictor;
mod state;
mod text;
mod weather;

pub use config::DayRangeConfig;
pub use config::Predicate;
pub use config::PredictorConfig;
pub use config::PredictorFactory;
pub use config::SeedFinderConfig;
pub use config::SeedFinderStateConfig;
pub use day_range::DayRange;
pub use error::ConfigError;
pub use error::EvalError;
pub use error::ReportError;
pub use finder::Progress;
pub use finder::SeedFinder;
pub use garbage::Garbage;
pub use garbage::GarbageConfig;
pub use geode::Geode;
pub use geode::GeodeConfig;
pub use geode::GeodeKind;
pub use geode::GeodeReward;
pub use night_event::NightEvent;
pub use night_event::NightEventConfig;
pub use night_event::NightEventKind;
pub use predictor::Predictor;
pub use state::RngType;
pub use state::WorldState;
pub use weather::Weather;
pub use weather::WeatherConfig;
pub use weather::WeatherForecast;
