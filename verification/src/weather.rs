//! Predictor for a day's weather.

use vstd::prelude::*;

verus! {

/// Configuration for [`Weather`]. Flags that are left false are not
/// required.
#[derive(Clone, Copy, Debug, PartialEq, Eq, Structural)]
pub struct WeatherConfig {
    /// Require rain (a certain chance of rain or storm). Defaults to false.
    pub is_rain: bool,
    /// Require storm (a certain chance of storm). Defaults to false.
    pub is_storm: bool,
    /// Require a chance of storm. Defaults to false.
    pub maybe_storm: bool,
}

/// What the weather simulation forecast for one day, reduced to the
/// observations the predictor reads. The simulation collaborator derives
/// these flags from its forecast probabilities.
#[derive(Clone, Copy, Debug, PartialEq, Eq, Structural)]
pub struct WeatherForecast {
    /// The combined chance of rain and storm reaches certainty.
    pub certain_rain_or_storm: bool,
    /// The chance of storm alone reaches certainty.
    pub certain_storm: bool,
    /// The chance of storm is not negative; false only for a forecast that
    /// rules a storm out entirely.
    pub possible_storm: bool,
}

/// Decides whether a day's weather forecast satisfies the configured
/// requirements. The forecast itself comes from the external weather
/// simulation; this type only holds the requirements and the decision rule.
#[derive(Clone, Copy, Debug, PartialEq, Eq, Structural)]
pub struct Weather {
    /// Require rain or storm to be certain.
    pub is_rain: bool,
    /// Require storm to be certain.
    pub is_storm: bool,
    /// Require storm to be possible.
    pub maybe_storm: bool,
}

impl Weather {
    /// Create a new [`Weather`] from a [`WeatherConfig`].
    pub fn new(config: &WeatherConfig) -> (r: Self)
        ensures
            r == (Weather {
                is_rain: config.is_rain,
                is_storm: config.is_storm,
                maybe_storm: config.maybe_storm,
            }),
    {
        Weather { is_rain: config.is_rain, is_storm: config.is_storm, maybe_storm: config.maybe_storm }
    }

    /// Whether a forecast satisfies the configured requirements: each flag
    /// that is set demands the corresponding observation.
    pub open spec fn spec_decide(self, forecast: WeatherForecast) -> bool {
        &&& self.is_rain ==> forecast.certain_rain_or_storm
        &&& self.is_storm ==> forecast.certain_storm
        &&& self.maybe_storm ==> forecast.possible_storm
    }

    /// Decide this predictor's condition on one day's forecast.
    pub fn decide(&self, forecast: &WeatherForecast) -> (b: bool)
        ensures
            b == self.spec_decide(*forecast),
    {
        (!self.is_rain || forecast.certain_rain_or_storm) && (!self.is_storm
            || forecast.certain_storm) && (!self.maybe_storm || forecast.possible_storm)
    }
}

} // verus!
