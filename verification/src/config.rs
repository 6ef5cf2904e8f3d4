//! The composed predicate graph: a tagged tree of leaf predictors and
//! quorum combinators, as the builder constructs it from a configuration.

use vstd::prelude::*;
use vstd::string::StringExecFns;

use crate::day_range::{quorum_count, DayRange};
use crate::error::{ConfigError, EvalError, ReportError};
use crate::finder::SeedFinder;
use crate::garbage::GarbageConfig;
use crate::geode::GeodeConfig;
use crate::night_event::NightEventConfig;
use crate::predictor::Predictor;
use crate::state::{RngType, WorldState};
use crate::text::{decimal_string, spec_decimal};
use crate::weather::WeatherConfig;

verus! {

/// A composed predicate: either a leaf predictor produced by a factory, or
/// a quorum-over-range combinator over a nested predicate.
///
/// This owned tree is what the builder produces from a configuration; it
/// implements [`Predictor`] itself, with the same semantics as the
/// standalone [`crate::DayRange`] combinator for its quorum nodes.
pub enum Predicate<P: Predictor> {
    /// A leaf predictor.
    Leaf(P),
    /// A quorum combinator: succeed when the nested predicate matches on at
    /// least `min_matches` days of `[start_day, end_day]`.
    Quorum {
        /// Starting day of the range (inclusive).
        start_day: u32,
        /// Ending day of the range (inclusive).
        end_day: u32,
        /// Minimum number of matching days required.
        min_matches: usize,
        /// The nested predicate evaluated once per day.
        child: Box<Predicate<P>>,
    },
}

/// Number of days `d` in `[lo, hi]` for which `q` matches the state derived
/// from `state` by substituting day `d`.
pub open spec fn graph_quorum_count<P: Predictor>(
    q: &Predicate<P>,
    state: WorldState,
    lo: int,
    hi: int,
) -> nat
    decreases q, hi + 1 - lo + 2,
{
    if lo > hi {
        0
    } else {
        (if q.p_matches(state.spec_with_day(lo as u32)) {
            1nat
        } else {
            0nat
        }) + graph_quorum_count(q, state, lo + 1, hi)
    }
}

/// The labeled block that a quorum node's report emits for one matching
/// day.
pub open spec fn graph_day_block<P: Predictor>(
    q: &Predicate<P>,
    state: WorldState,
    day: int,
) -> Seq<char>
    decreases q, 2int,
{
    "Day "@ + spec_decimal(day as nat) + " "@ + q.p_spec_report(state.spec_with_day(day as u32))
}

/// The report text of a quorum node over `[lo, hi]`: one labeled block per
/// matching day.
pub open spec fn graph_quorum_report<P: Predictor>(
    q: &Predicate<P>,
    state: WorldState,
    lo: int,
    hi: int,
) -> Seq<char>
    decreases q, hi + 1 - lo + 3,
{
    if lo > hi {
        Seq::<char>::empty()
    } else {
        (if q.p_matches(state.spec_with_day(lo as u32)) {
            graph_day_block(q, state, lo)
        } else {
            Seq::<char>::empty()
        }) + graph_quorum_report(q, state, lo + 1, hi)
    }
}

impl<P: Predictor> Predicate<P> {
    /// Well-formedness of the whole tree.
    pub open spec fn p_wf(&self) -> bool
        decreases self,
    {
        match self {
            Predicate::Leaf(p) => p.wf(),
            Predicate::Quorum { child, .. } => (**child).p_wf(),
        }
    }

    /// Whether evaluation succeeds on `state` everywhere in the tree.
    pub open spec fn p_ok(&self, state: WorldState) -> bool
        decreases self, 0int,
    {
        match self {
            Predicate::Leaf(p) => p.spec_ok(state),
            Predicate::Quorum { start_day, end_day, child, .. } => forall|d: u32|
                *start_day <= d <= *end_day ==> (**child).p_ok(#[trigger] state.spec_with_day(d)),
        }
    }

    /// The condition of the whole tree on `state`.
    pub open spec fn p_matches(&self, state: WorldState) -> bool
        decreases self, 1int,
    {
        match self {
            Predicate::Leaf(p) => p.spec_matches(state),
            Predicate::Quorum { start_day, end_day, min_matches, child } => graph_quorum_count(
                &**child,
                state,
                *start_day as int,
                *end_day as int,
            ) >= *min_matches,
        }
    }

    /// Whether rendering a report succeeds on `state` everywhere it is
    /// attempted.
    pub open spec fn p_report_ok(&self, state: WorldState) -> bool
        decreases self, 2int,
    {
        match self {
            Predicate::Leaf(p) => p.report_ok(state),
            Predicate::Quorum { start_day, end_day, child, .. } => forall|d: u32|
                *start_day <= d <= *end_day ==> {
                    &&& (**child).p_ok(#[trigger] state.spec_with_day(d))
                    &&& (**child).p_matches(state.spec_with_day(d)) ==> (**child).p_report_ok(
                        state.spec_with_day(d),
                    )
                },
        }
    }

    /// The text that a successful report on `state` yields.
    pub open spec fn p_spec_report(&self, state: WorldState) -> Seq<char>
        decreases self, 1int,
    {
        match self {
            Predicate::Leaf(p) => p.spec_report(state),
            Predicate::Quorum { start_day, end_day, child, .. } => graph_quorum_report(
                &**child,
                state,
                *start_day as int,
                *end_day as int,
            ),
        }
    }
}

proof fn lemma_graph_quorum_count_split_last<P: Predictor>(
    q: &Predicate<P>,
    state: WorldState,
    lo: int,
    hi: int,
)
    requires
        lo <= hi,
    ensures
        graph_quorum_count(q, state, lo, hi) == graph_quorum_count(q, state, lo, hi - 1) + (
        if q.p_matches(state.spec_with_day(hi as u32)) {
            1nat
        } else {
            0nat
        }),
    decreases hi - lo,
{
    if lo < hi {
        lemma_graph_quorum_count_split_last(q, state, lo + 1, hi);
    } else {
        assert(graph_quorum_count(q, state, lo, hi - 1) == 0);
        assert(graph_quorum_count(q, state, lo + 1, hi) == 0);
    }
}

proof fn lemma_graph_quorum_report_split_last<P: Predictor>(
    q: &Predicate<P>,
    state: WorldState,
    lo: int,
    hi: int,
)
    requires
        lo <= hi,
    ensures
        graph_quorum_report(q, state, lo, hi) == graph_quorum_report(q, state, lo, hi - 1) + (
        if q.p_matches(state.spec_with_day(hi as u32)) {
            graph_day_block(q, state, hi)
        } else {
            Seq::<char>::empty()
        }),
    decreases hi - lo,
{
    if lo < hi {
        lemma_graph_quorum_report_split_last(q, state, lo + 1, hi);
        assert(graph_quorum_report(q, state, lo, hi) =~= graph_quorum_report(q, state, lo, hi - 1)
            + (if q.p_matches(state.spec_with_day(hi as u32)) {
            graph_day_block(q, state, hi)
        } else {
            Seq::<char>::empty()
        }));
    } else {
        assert(graph_quorum_report(q, state, lo, hi - 1) =~= Seq::<char>::empty());
        assert(graph_quorum_report(q, state, lo + 1, hi) =~= Seq::<char>::empty());
        assert(graph_quorum_report(q, state, lo, hi) =~= graph_quorum_report(q, state, lo, hi - 1)
            + (if q.p_matches(state.spec_with_day(hi as u32)) {
            graph_day_block(q, state, hi)
        } else {
            Seq::<char>::empty()
        }));
    }
}

proof fn lemma_leaf_count_agrees<P: Predictor>(c: P, state: WorldState, lo: int, hi: int)
    ensures
        graph_quorum_count(&Predicate::Leaf(c), state, lo, hi) == quorum_count(c, state, lo, hi),
    decreases hi + 1 - lo,
{
    if lo <= hi {
        lemma_leaf_count_agrees(c, state, lo + 1, hi);
        assert(Predicate::Leaf(c).p_matches(state.spec_with_day(lo as u32)) == c.spec_matches(
            state.spec_with_day(lo as u32),
        ));
    } else {
        assert(graph_quorum_count(&Predicate::Leaf(c), state, lo, hi) == 0);
        assert(quorum_count(c, state, lo, hi) == 0);
    }
}

/// A quorum node over a leaf has exactly the standalone [`DayRange`]
/// combinator's semantics: the two ways of composing a day-range quorum
/// cannot drift apart.
pub proof fn lemma_quorum_node_agrees_with_combinator<P: Predictor>(
    d: DayRange<P>,
    g: Predicate<P>,
    state: WorldState,
)
    requires
        g matches Predicate::Quorum { start_day, end_day, min_matches, child } && start_day
            == d.start_day && end_day == d.end_day && min_matches == d.min_matches && *child
            == Predicate::Leaf(d.child),
    ensures
        g.p_matches(state) == d.spec_matches(state),
{
    lemma_leaf_count_agrees(d.child, state, d.start_day as int, d.end_day as int);
}

impl<P: Predictor> Predictor for Predicate<P> {
    open spec fn wf(&self) -> bool {
        self.p_wf()
    }

    open spec fn spec_ok(&self, state: WorldState) -> bool {
        self.p_ok(state)
    }

    open spec fn spec_matches(&self, state: WorldState) -> bool {
        self.p_matches(state)
    }

    open spec fn report_ok(&self, state: WorldState) -> bool {
        self.p_report_ok(state)
    }

    open spec fn spec_report(&self, state: WorldState) -> Seq<char> {
        self.p_spec_report(state)
    }

    #[verifier::loop_isolation(false)]
    fn predict(&self, state: &WorldState) -> (r: Result<bool, EvalError>)
        decreases self,
    {
        match self {
            Predicate::Leaf(p) => p.predict(state),
            Predicate::Quorum { start_day, end_day, min_matches, child } => {
                let start: u32 = *start_day;
                let end: u32 = *end_day;
                let mut successes: u64 = 0;
                if start <= end {
                    let n: u64 = (end - start) as u64 + 1;
                    let mut i: u64 = 0;
                    while i < n
                        invariant
                            (**child).p_wf(),
                            start <= end,
                            n == end - start + 1,
                            0 <= i <= n,
                            successes == graph_quorum_count(
                                &**child,
                                *state,
                                start as int,
                                start + i - 1,
                            ),
                            successes <= i,
                            forall|d: u32|
                                start <= d < start + i ==> (**child).p_ok(
                                    #[trigger] state.spec_with_day(d),
                                ),
                        decreases n - i,
                    {
                        let day: u32 = start + (i as u32);
                        let st = state.with_day(day);
                        match (**child).predict(&st) {
                            Ok(true) => {
                                successes = successes + 1;
                            },
                            Ok(false) => {},
                            Err(e) => {
                                proof {
                                    assert(!(**child).p_ok(state.spec_with_day(day)));
                                    assert(!self.p_ok(*state));
                                }
                                return Err(e);
                            },
                        }
                        proof {
                            lemma_graph_quorum_count_split_last(
                                &**child,
                                *state,
                                start as int,
                                start + i as int,
                            );
                        }
                        i = i + 1;
                    }
                }
                Ok(successes >= *min_matches as u64)
            },
        }
    }

    #[verifier::loop_isolation(false)]
    fn report(&self, state: &WorldState) -> (r: Result<String, ReportError>)
        decreases self,
    {
        match self {
            Predicate::Leaf(p) => p.report(state),
            Predicate::Quorum { start_day, end_day, child, .. } => {
                let start: u32 = *start_day;
                let end: u32 = *end_day;
                let mut out = String::new();
                if start <= end {
                    let n: u64 = (end - start) as u64 + 1;
                    let mut i: u64 = 0;
                    while i < n
                        invariant
                            (**child).p_wf(),
                            start <= end,
                            n == end - start + 1,
                            0 <= i <= n,
                            out@ == graph_quorum_report(
                                &**child,
                                *state,
                                start as int,
                                start + i - 1,
                            ),
                            forall|d: u32|
                                start <= d < start + i ==> {
                                    &&& (**child).p_ok(#[trigger] state.spec_with_day(d))
                                    &&& (**child).p_matches(state.spec_with_day(d)) ==> (
                                    **child).p_report_ok(state.spec_with_day(d))
                                },
                        decreases n - i,
                    {
                        let day: u32 = start + (i as u32);
                        let st = state.with_day(day);
                        match (**child).predict(&st) {
                            Ok(true) => {
                                out.append("Day ");
                                let ds = decimal_string(day);
                                out.append(ds.as_str());
                                out.append(" ");
                                match (**child).report(&st) {
                                    Ok(block) => {
                                        out.append(block.as_str());
                                        proof {
                                            assert(out@ =~= graph_quorum_report(
                                                &**child,
                                                *state,
                                                start as int,
                                                start + i - 1,
                                            ) + graph_day_block(&**child, *state, day as int));
                                        }
                                    },
                                    Err(e) => {
                                        proof {
                                            assert(!self.p_report_ok(*state));
                                        }
                                        return Err(e);
                                    },
                                }
                            },
                            Ok(false) => {},
                            Err(e) => {
                                proof {
                                    assert(!(**child).p_ok(state.spec_with_day(day)));
                                    assert(!self.p_report_ok(*state));
                                }
                                return Err(ReportError::Eval(e));
                            },
                        }
                        proof {
                            lemma_graph_quorum_report_split_last(
                                &**child,
                                *state,
                                start as int,
                                start + i as int,
                            );
                            assert(out@ =~= graph_quorum_report(
                                &**child,
                                *state,
                                start as int,
                                start + i,
                            ));
                        }
                        i = i + 1;
                    }
                }
                Ok(out)
            },
        }
    }
}

} // verus!

verus! {

/// Configuration for a quorum combinator node.
pub struct DayRangeConfig {
    /// Starting day of the range (inclusive).
    pub start_day: u32,
    /// Ending day of the range (inclusive).
    pub end_day: u32,
    /// Minimum number of matching days of the child required.
    pub min_matches: usize,
    /// Configuration of the child evaluated every day of the range.
    pub child: Box<PredictorConfig>,
}

/// Configuration of a single predictor: a tagged tree node whose
/// discriminator names the predictor kind.
pub enum PredictorConfig {
    /// A quorum-over-range combinator.
    DayRange(DayRangeConfig),
    /// A garbage-can predictor.
    Garbage(GarbageConfig),
    /// A geode predictor.
    Geode(GeodeConfig),
    /// A night-event predictor.
    NightEvent(NightEventConfig),
    /// A weather predictor.
    Weather(WeatherConfig),
}

/// Builds leaf predictors from their configurations.
///
/// The leaves delegate to external simulations, so their construction —
/// catalog lookups, identifier parsing, location contexts — happens behind
/// this trait; the RNG variant is handed in once, at build time, for the
/// whole graph. Each method's contract ties what it returns to the
/// implementation's own building relation, so that the builder's contract
/// can speak about the composed graph.
pub trait PredictorFactory<P: Predictor> {
    /// The leaf built from a garbage configuration, if construction
    /// succeeds.
    ///
    /// The specification members carry defaults so that factories outside
    /// the verified world need only provide the executable methods.
    open spec fn spec_garbage(&self, rng: RngType, config: GarbageConfig) -> Option<P> {
        None
    }

    /// The leaf built from a geode configuration, if construction succeeds.
    open spec fn spec_geode(&self, rng: RngType, config: GeodeConfig) -> Option<P> {
        None
    }

    /// The leaf built from a night-event configuration, if construction
    /// succeeds.
    open spec fn spec_night_event(&self, rng: RngType, config: NightEventConfig) -> Option<P> {
        None
    }

    /// The leaf built from a weather configuration, if construction
    /// succeeds.
    open spec fn spec_weather(&self, rng: RngType, config: WeatherConfig) -> Option<P> {
        None
    }

    /// Build a garbage-can leaf.
    fn garbage(&self, rng: &RngType, config: &GarbageConfig) -> (r: Result<P, ConfigError>)
        ensures
            r is Ok <==> self.spec_garbage(*rng, *config) is Some,
            r matches Ok(p) ==> self.spec_garbage(*rng, *config) == Some(p) && p.wf(),
    ;

    /// Build a geode leaf.
    fn geode(&self, rng: &RngType, config: &GeodeConfig) -> (r: Result<P, ConfigError>)
        ensures
            r is Ok <==> self.spec_geode(*rng, *config) is Some,
            r matches Ok(p) ==> self.spec_geode(*rng, *config) == Some(p) && p.wf(),
    ;

    /// Build a night-event leaf.
    fn night_event(&self, rng: &RngType, config: &NightEventConfig) -> (r: Result<P, ConfigError>)
        ensures
            r is Ok <==> self.spec_night_event(*rng, *config) is Some,
            r matches Ok(p) ==> self.spec_night_event(*rng, *config) == Some(p) && p.wf(),
    ;

    /// Build a weather leaf.
    fn weather(&self, rng: &RngType, config: &WeatherConfig) -> (r: Result<P, ConfigError>)
        ensures
            r is Ok <==> self.spec_weather(*rng, *config) is Some,
            r matches Ok(p) ==> self.spec_weather(*rng, *config) == Some(p) && p.wf(),
    ;
}

impl PredictorConfig {
    /// Whether the factory can build every leaf of this configuration.
    pub open spec fn buildable<P: Predictor, F: PredictorFactory<P>>(
        &self,
        factory: &F,
        rng: RngType,
    ) -> bool
        decreases self,
    {
        match self {
            PredictorConfig::DayRange(c) => c.child.buildable(factory, rng),
            PredictorConfig::Garbage(c) => factory.spec_garbage(rng, *c) is Some,
            PredictorConfig::Geode(c) => factory.spec_geode(rng, *c) is Some,
            PredictorConfig::NightEvent(c) => factory.spec_night_event(rng, *c) is Some,
            PredictorConfig::Weather(c) => factory.spec_weather(rng, *c) is Some,
        }
    }

    /// Whether `p` is the predicate graph this configuration describes:
    /// combinator nodes mirror the configuration tree and leaf nodes are
    /// what the factory builds.
    pub open spec fn conforms<P: Predictor, F: PredictorFactory<P>>(
        &self,
        factory: &F,
        rng: RngType,
        p: Predicate<P>,
    ) -> bool
        decreases self,
    {
        match self {
            PredictorConfig::DayRange(c) => {
                &&& p matches Predicate::Quorum { start_day, end_day, min_matches, child }
                &&& p->Quorum_start_day == c.start_day
                &&& p->Quorum_end_day == c.end_day
                &&& p->Quorum_min_matches == c.min_matches
                &&& c.child.conforms(factory, rng, *p->Quorum_child)
            },
            PredictorConfig::Garbage(c) => p matches Predicate::Leaf(q)
                && factory.spec_garbage(rng, *c) == Some(q),
            PredictorConfig::Geode(c) => p matches Predicate::Leaf(q) && factory.spec_geode(
                rng,
                *c,
            ) == Some(q),
            PredictorConfig::NightEvent(c) => p matches Predicate::Leaf(q)
                && factory.spec_night_event(rng, *c) == Some(q),
            PredictorConfig::Weather(c) => p matches Predicate::Leaf(q) && factory.spec_weather(
                rng,
                *c,
            ) == Some(q),
        }
    }

    /// Create a new predicate graph using this configuration.
    ///
    /// Succeeds exactly when the factory can build every leaf; the result
    /// then mirrors the configuration tree.
    pub fn predictor<P: Predictor, F: PredictorFactory<P>>(
        &self,
        factory: &F,
        rng: &RngType,
    ) -> (r: Result<Predicate<P>, ConfigError>)
        ensures
            r is Ok <==> self.buildable(factory, *rng),
            r matches Ok(p) ==> self.conforms(factory, *rng, p) && p.p_wf(),
        decreases self,
    {
        match self {
            PredictorConfig::DayRange(c) => {
                match c.child.predictor(factory, rng) {
                    Ok(q) => Ok(
                        Predicate::Quorum {
                            start_day: c.start_day,
                            end_day: c.end_day,
                            min_matches: c.min_matches,
                            child: Box::new(q),
                        },
                    ),
                    Err(e) => Err(e),
                }
            },
            PredictorConfig::Garbage(c) => {
                match factory.garbage(rng, c) {
                    Ok(p) => Ok(Predicate::Leaf(p)),
                    Err(e) => Err(e),
                }
            },
            PredictorConfig::Geode(c) => {
                match factory.geode(rng, c) {
                    Ok(p) => Ok(Predicate::Leaf(p)),
                    Err(e) => Err(e),
                }
            },
            PredictorConfig::NightEvent(c) => {
                match factory.night_event(rng, c) {
                    Ok(p) => Ok(Predicate::Leaf(p)),
                    Err(e) => Err(e),
                }
            },
            PredictorConfig::Weather(c) => {
                match factory.weather(rng, c) {
                    Ok(p) => Ok(Predicate::Leaf(p)),
                    Err(e) => Err(e),
                }
            },
        }
    }
}

} // verus!

verus! {

/// Game state configuration: the initial world state template, all fields
/// except the seed.
#[derive(Clone, Copy, Debug, PartialEq, Eq, Structural)]
pub struct SeedFinderStateConfig {
    /// Multiplayer/session identifier. Defaults to 0.
    pub multiplayer_id: i64,
    /// Day of interest; day 1 is the game's first day.
    pub day: u32,
    /// The IEEE-754 bit pattern of the daily-luck value. Defaults to 0,
    /// the bit pattern of luck 0.
    pub daily_luck_bits: u64,
    /// Number of geodes cracked plus one. Defaults to 1.
    pub geodes_cracked: u32,
    /// Deepest mine level reached. Defaults to 0.
    pub deepest_mine_level: u32,
}

impl SeedFinderStateConfig {
    /// The world state template this configuration describes, with the
    /// seed left at zero until a candidate substitutes it.
    pub open spec fn spec_world_state(self) -> WorldState {
        WorldState {
            game_id: 0u32,
            multiplayer_id: self.multiplayer_id,
            days_played: self.day,
            daily_luck_bits: self.daily_luck_bits,
            geodes_cracked: self.geodes_cracked,
            deepest_mine_level: self.deepest_mine_level,
        }
    }
}

impl From<SeedFinderStateConfig> for WorldState {
    fn from(config: SeedFinderStateConfig) -> (r: WorldState) {
        WorldState {
            game_id: 0,
            multiplayer_id: config.multiplayer_id,
            days_played: config.day,
            daily_luck_bits: config.daily_luck_bits,
            geodes_cracked: config.geodes_cracked,
            deepest_mine_level: config.deepest_mine_level,
        }
    }
}

impl vstd::std_specs::convert::FromSpecImpl<SeedFinderStateConfig> for WorldState {
    open spec fn obeys_from_spec() -> bool {
        true
    }

    open spec fn from_spec(config: SeedFinderStateConfig) -> WorldState {
        config.spec_world_state()
    }
}

/// Top level configuration for a [`SeedFinder`].
pub struct SeedFinderConfig {
    /// Which RNG seeding scheme the whole graph uses.
    pub rng_type: RngType,
    /// Maximum number of seeds to find.
    pub max_seeds: usize,
    /// Initial game state for seed finding.
    pub game_state: SeedFinderStateConfig,
    /// Conditions used to validate seeds, AND-ed left to right.
    pub predictors: Vec<PredictorConfig>,
}

impl<P: Predictor> SeedFinder<Predicate<P>> {
    /// Create a new engine from a configuration, building every configured
    /// predictor through the factory.
    ///
    /// Succeeds exactly when every configured predictor is buildable; the
    /// engine then carries, in order, the graphs the configurations
    /// describe, over the world state template the configuration gives.
    pub fn from_config<F: PredictorFactory<P>>(factory: &F, config: &SeedFinderConfig) -> (r:
        Result<Self, ConfigError>)
        ensures
            r is Ok <==> (forall|i: int|
                0 <= i < config.predictors@.len() ==> #[trigger] config.predictors@[i].buildable(
                    factory,
                    config.rng_type,
                )),
            r matches Ok(f) ==> {
                &&& f.wf()
                &&& f.max_seeds == config.max_seeds
                &&& f.initial_state == config.game_state.spec_world_state()
                &&& f.predictors@.len() == config.predictors@.len()
                &&& forall|i: int|
                    0 <= i < config.predictors@.len() ==> config.predictors@[i].conforms(
                        factory,
                        config.rng_type,
                        #[trigger] f.predictors@[i],
                    )
            },
    {
        let mut preds: Vec<Predicate<P>> = Vec::new();
        let n = config.predictors.len();
        let mut i: usize = 0;
        while i < n
            invariant
                n == config.predictors@.len(),
                0 <= i <= n,
                preds@.len() == i,
                forall|k: int|
                    0 <= k < i ==> #[trigger] config.predictors@[k].buildable(
                        factory,
                        config.rng_type,
                    ),
                forall|k: int|
                    0 <= k < i ==> config.predictors@[k].conforms(
                        factory,
                        config.rng_type,
                        #[trigger] preds@[k],
                    ) && preds@[k].p_wf(),
            decreases n - i,
        {
            match config.predictors[i].predictor(factory, &config.rng_type) {
                Ok(p) => {
                    let ghost old_preds = preds@;
                    preds.push(p);
                    proof {
                        assert(preds@ == old_preds.push(p));
                        assert forall|k: int| 0 <= k < i + 1 implies config.predictors@[k].conforms(
                            factory,
                            config.rng_type,
                            #[trigger] preds@[k],
                        ) && preds@[k].p_wf() by {
                            if k < i {
                                assert(preds@[k] == old_preds[k]);
                                assert(config.predictors@[k].conforms(
                                    factory,
                                    config.rng_type,
                                    old_preds[k],
                                ) && old_preds[k].p_wf());
                            } else {
                                assert(preds@[k] == p);
                            }
                        }
                    }
                },
                Err(e) => {
                    proof {
                        assert(!config.predictors@[i as int].buildable(factory, config.rng_type));
                    }
                    return Err(e);
                },
            }
            i = i + 1;
        }
        Ok(
            SeedFinder {
                max_seeds: config.max_seeds,
                initial_state: WorldState::from(config.game_state),
                predictors: preds,
            },
        )
    }
}

} // verus!
