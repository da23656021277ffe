//! The adaptive concurrency controller: the state machine that grows the
//! in-flight ceiling while responses succeed and contracts it on 429s.

use vstd::prelude::*;

use crate::models::spec_add_value;
use crate::storage::Storage;

verus! {

/// The ceiling a fresh controller starts from.
pub const REQUESTS_START_COUNT: u16 = 5;

/// Below this ceiling fast growth doubles and contraction halves; above it
/// both move by this amount instead.
pub const REQUESTS_INCREASE_THRESHOLD: u16 = 50;

/// The largest period the EveryN strategy will grow to.
pub const EVERY_N_THRESHOLD: u8 = 20;

/// The strategy era a worker was dispatched under: `First` while the
/// controller was still in fast growth, `Second` afterwards. A 429 carrying
/// `First` after the controller has already contracted is stale evidence and
/// must not drive the state machine a second time.
#[derive(Debug, Clone, Copy, PartialEq, Eq, Structural)]
pub enum RequestVersion {
    First,
    Second,
}

/// What one request came back as.
#[derive(Debug, Clone, Copy, PartialEq, Eq, Structural)]
pub enum RequestResult {
    Error,
    TooManyRequests,
    Success { value: usize },
}

/// One worker's report: its outcome and the era it was dispatched under.
#[derive(Debug, Clone, Copy, PartialEq, Eq, Structural)]
pub struct RequestReturn {
    pub result: RequestResult,
    pub version: RequestVersion,
}

/// The growth regime the controller is in. The three stages are strictly
/// one-way: fast growth until the first 429, linear growth until a
/// post-contraction 429, then periodic growth for good.
#[derive(Debug, Clone, Copy, PartialEq, Eq, Structural)]
pub enum RequestStrategy {
    FastGrowth,
    Single,
    EveryN { count: u8, threshold: u8 },
}

/// In EveryN the success counter stays below its period, and the period lies
/// between two and the saturation bound.
pub open spec fn strategy_wf(strategy: RequestStrategy) -> bool {
    match strategy {
        RequestStrategy::EveryN { count, threshold } => count < threshold && 2 <= threshold
            <= EVERY_N_THRESHOLD,
        _ => true,
    }
}

/// The era new workers are tagged with under `strategy`.
pub open spec fn spec_version_of(strategy: RequestStrategy) -> RequestVersion {
    match strategy {
        RequestStrategy::FastGrowth => RequestVersion::First,
        _ => RequestVersion::Second,
    }
}

/// Fast growth on success: double the ceiling up to the threshold, add the
/// threshold beyond it.
pub open spec fn spec_increase_max(max: u16) -> int {
    if max > REQUESTS_INCREASE_THRESHOLD {
        max + REQUESTS_INCREASE_THRESHOLD
    } else {
        max * 2
    }
}

/// Fast contraction on the first 429: subtract the threshold above it, halve
/// below it, never below one.
pub open spec fn spec_decrease_max(max: u16) -> int {
    if max > REQUESTS_INCREASE_THRESHOLD {
        max - REQUESTS_INCREASE_THRESHOLD
    } else if max == 1 {
        1
    } else {
        max as int / 2
    }
}

/// Contraction by one, never below one.
pub open spec fn spec_decrease_by_one(max: u16) -> int {
    if max == 1 {
        1
    } else {
        max - 1
    }
}

/// Strategy and ceiling after one success is absorbed.
pub open spec fn spec_grow(strategy: RequestStrategy, max: u16) -> (RequestStrategy, int) {
    match strategy {
        RequestStrategy::FastGrowth => (strategy, spec_increase_max(max)),
        RequestStrategy::Single => (strategy, max + 1),
        RequestStrategy::EveryN { count, threshold } => if count + 1 == threshold {
            (RequestStrategy::EveryN { count: 0, threshold }, max + 1)
        } else {
            (RequestStrategy::EveryN { count: (count + 1) as u8, threshold }, max as int)
        },
    }
}

/// Strategy after one 429 is absorbed, given the era tag it carried.
pub open spec fn spec_shrink_strategy(
    strategy: RequestStrategy,
    version: RequestVersion,
) -> RequestStrategy {
    match strategy {
        RequestStrategy::FastGrowth => RequestStrategy::Single,
        RequestStrategy::Single => match version {
            RequestVersion::First => RequestStrategy::Single,
            RequestVersion::Second => RequestStrategy::EveryN { count: 0, threshold: 2 },
        },
        RequestStrategy::EveryN { count, threshold } => RequestStrategy::EveryN {
            count: 0,
            threshold: if threshold == EVERY_N_THRESHOLD {
                threshold
            } else {
                (threshold + 1) as u8
            },
        },
    }
}

/// Ceiling after one 429 is absorbed.
pub open spec fn spec_shrink_max(strategy: RequestStrategy, max: u16) -> int {
    match strategy {
        RequestStrategy::FastGrowth => spec_decrease_max(max),
        _ => spec_decrease_by_one(max),
    }
}

/// The controller's state: the run it reports under, the concurrency
/// ceiling, how many workers are in flight, and the growth strategy.
#[derive(Debug, Clone, Copy, PartialEq, Eq, Structural)]
pub struct RequestsInfo {
    pub id: u16,
    pub max: u16,
    pub started: u16,
    pub strategy: RequestStrategy,
}

impl RequestsInfo {
    /// The ceiling never drops below one and the strategy stays within its
    /// bounds.
    pub open spec fn wf(&self) -> bool {
        1 <= self.max && strategy_wf(self.strategy)
    }

    /// A fresh controller for run `id`: the starting ceiling, nothing in
    /// flight, fast growth.
    pub fn new(id: u16) -> (info: Self)
        ensures
            info.id == id,
            info.max == REQUESTS_START_COUNT,
            info.started == 0,
            info.strategy == RequestStrategy::FastGrowth,
            info.wf(),
    {
        RequestsInfo {
            id,
            max: REQUESTS_START_COUNT,
            started: 0,
            strategy: RequestStrategy::FastGrowth,
        }
    }

    /// The era tag every newly dispatched worker must carry right now.
    pub fn request_version_by_strategy(&self) -> (version: RequestVersion)
        ensures
            version == spec_version_of(self.strategy),
    {
        match self.strategy {
            RequestStrategy::FastGrowth => RequestVersion::First,
            _ => RequestVersion::Second,
        }
    }

    /// Grow the ceiling fast: double it, or add the threshold once above it.
    pub fn increase_max(&mut self)
        requires
            old(self).max + REQUESTS_INCREASE_THRESHOLD <= u16::MAX,
        ensures
            final(self).max == spec_increase_max(old(self).max),
            final(self).id == old(self).id,
            final(self).started == old(self).started,
            final(self).strategy == old(self).strategy,
    {
        if self.max > REQUESTS_INCREASE_THRESHOLD {
            self.max = self.max + REQUESTS_INCREASE_THRESHOLD;
        } else {
            self.max = self.max * 2;
        }
    }

    /// Grow the ceiling by one.
    pub fn increase_by_one(&mut self)
        requires
            old(self).max < u16::MAX,
        ensures
            final(self).max == old(self).max + 1,
            final(self).id == old(self).id,
            final(self).started == old(self).started,
            final(self).strategy == old(self).strategy,
    {
        self.max = self.max + 1;
    }

    /// Contract the ceiling fast: subtract the threshold, or halve it below
    /// the threshold, never below one.
    pub fn decrease_max(&mut self)
        ensures
            final(self).max == spec_decrease_max(old(self).max),
            final(self).id == old(self).id,
            final(self).started == old(self).started,
            final(self).strategy == old(self).strategy,
    {
        if self.max > REQUESTS_INCREASE_THRESHOLD {
            self.max = self.max - REQUESTS_INCREASE_THRESHOLD;
        } else if self.max == 1 {
        } else {
            self.max = self.max / 2;
        }
    }

    /// Contract the ceiling by one, never below one.
    pub fn decrease_by_one(&mut self)
        requires
            old(self).max >= 1,
        ensures
            final(self).max == spec_decrease_by_one(old(self).max),
            final(self).id == old(self).id,
            final(self).started == old(self).started,
            final(self).strategy == old(self).strategy,
    {
        if self.max == 1 {
        } else {
            self.max = self.max - 1;
        }
    }

    /// Absorb one success: grow the ceiling by the current strategy and
    /// advance the EveryN counter.
    pub fn update_count(&mut self)
        requires
            strategy_wf(old(self).strategy),
            old(self).max + REQUESTS_INCREASE_THRESHOLD <= u16::MAX,
        ensures
            final(self).strategy == spec_grow(old(self).strategy, old(self).max).0,
            final(self).max == spec_grow(old(self).strategy, old(self).max).1,
            final(self).id == old(self).id,
            final(self).started == old(self).started,
            strategy_wf(final(self).strategy),
            final(self).max >= old(self).max,
    {
        match self.strategy {
            RequestStrategy::FastGrowth => self.increase_max(),
            RequestStrategy::Single => self.increase_by_one(),
            RequestStrategy::EveryN { count, threshold } => {
                let new_count: u8 = count + 1;
                let new_strategy = if threshold == new_count {
                    self.increase_by_one();
                    RequestStrategy::EveryN { count: 0, threshold }
                } else {
                    RequestStrategy::EveryN { count: new_count, threshold }
                };
                self.strategy = new_strategy;
            },
        }
    }

    /// Absorb one 429: move the strategy one stage along FastGrowth ->
    /// Single -> EveryN as its era tag warrants, and contract the ceiling,
    /// never below one.
    pub fn reduce_by_strategy(&mut self, version: RequestVersion)
        requires
            strategy_wf(old(self).strategy),
            old(self).max >= 1,
        ensures
            final(self).strategy == spec_shrink_strategy(old(self).strategy, version),
            final(self).max == spec_shrink_max(old(self).strategy, old(self).max),
            final(self).id == old(self).id,
            final(self).started == old(self).started,
            strategy_wf(final(self).strategy),
            final(self).max >= 1,
    {
        match self.strategy {
            RequestStrategy::FastGrowth => {
                self.strategy = RequestStrategy::Single;
                self.decrease_max();
            },
            RequestStrategy::Single => match version {
                RequestVersion::First => self.decrease_by_one(),
                RequestVersion::Second => {
                    self.strategy = RequestStrategy::EveryN { count: 0, threshold: 2 };
                    self.decrease_by_one();
                },
            },
            RequestStrategy::EveryN { count: _, threshold } => {
                let new_strategy = if threshold == EVERY_N_THRESHOLD {
                    RequestStrategy::EveryN { count: 0, threshold }
                } else {
                    RequestStrategy::EveryN { count: 0, threshold: threshold + 1 }
                };
                self.strategy = new_strategy;
                self.decrease_by_one();
            },
        }
    }

    /// Account for one newly dispatched worker and say which era tag it must
    /// carry; the caller actually spawns it.
    pub fn start_one(&mut self) -> (version: RequestVersion)
        requires
            old(self).started < u16::MAX,
        ensures
            final(self).started == old(self).started + 1,
            final(self).id == old(self).id,
            final(self).max == old(self).max,
            final(self).strategy == old(self).strategy,
            version == spec_version_of(old(self).strategy),
    {
        self.started = self.started + 1;
        self.request_version_by_strategy()
    }

    /// Refill to the ceiling: account for one worker per missing slot (none
    /// when the ceiling is already met or exceeded) and return how many the
    /// caller must spawn.
    pub fn start_all_possible(&mut self) -> (n: u16)
        ensures
            final(self).id == old(self).id,
            final(self).max == old(self).max,
            final(self).strategy == old(self).strategy,
            final(self).started == spec_refill(old(self).started as int, old(self).max as int),
            old(self).started + n == final(self).started,
    {
        let ghost pre: RequestsInfo = *self;
        let mut n: u16 = 0;
        while self.started < self.max
            invariant
                self.id == pre.id,
                self.max == pre.max,
                self.strategy == pre.strategy,
                pre.started <= self.started,
                self.started == pre.started + n,
                pre.started < pre.max ==> self.started <= pre.max,
                pre.started >= pre.max ==> self.started == pre.started,
            decreases self.max - self.started,
        {
            self.start_one();
            n = n + 1;
        }
        n
    }
}

/// The in-flight count after a refill: up to the ceiling, unless more than
/// the ceiling is already in flight.
pub open spec fn spec_refill(started: int, max: int) -> int {
    if started <= max {
        max
    } else {
        started
    }
}

/// The controller state after one outcome is absorbed: the returned worker
/// leaves the in-flight count, the strategy and ceiling move, and the refill
/// (one replacement only, after an error) is accounted for.
pub open spec fn spec_step(info: RequestsInfo, ret: RequestReturn) -> RequestsInfo {
    let after: int = info.started - 1;
    match ret.result {
        RequestResult::Error => RequestsInfo {
            id: info.id,
            max: info.max,
            started: (after + 1) as u16,
            strategy: info.strategy,
        },
        RequestResult::Success { value } => {
            let grown = spec_grow(info.strategy, info.max);
            RequestsInfo {
                id: info.id,
                max: grown.1 as u16,
                started: spec_refill(after, grown.1) as u16,
                strategy: grown.0,
            }
        },
        RequestResult::TooManyRequests => if after <= info.max {
            let contracted_max = spec_shrink_max(info.strategy, info.max);
            RequestsInfo {
                id: info.id,
                max: contracted_max as u16,
                started: spec_refill(after, contracted_max) as u16,
                strategy: spec_shrink_strategy(info.strategy, ret.version),
            }
        } else {
            RequestsInfo { id: info.id, max: info.max, started: after as u16, strategy: info.strategy }
        },
    }
}

impl RequestsInfo {
    /// One controller step. Account for the worker that just returned, then:
    /// after an error, replace just that worker; after a success, record the
    /// value for this run, grow, and refill to the ceiling; after a 429 that
    /// is not stale with respect to an earlier contraction, contract and
    /// refill to the new ceiling, and otherwise ignore it. Returns how many
    /// workers the caller must now spawn; each must carry the era tag
    /// `request_version_by_strategy` gives after this call.
    pub fn handle_outcome(&mut self, storage: &mut Storage, ret: RequestReturn) -> (n: u16)
        requires
            old(self).wf(),
            1 <= old(self).started,
            (ret.result matches RequestResult::Success { value } ==> {
                &&& old(self).max + REQUESTS_INCREASE_THRESHOLD <= u16::MAX
                &&& old(storage).runs().contains_key(old(self).id)
                &&& old(storage).runs()[old(self).id].successful_responses_count < u16::MAX
                &&& old(storage).runs()[old(self).id].sum + value <= usize::MAX
            }),
        ensures
            *final(self) == spec_step(*old(self), ret),
            final(self).wf(),
            old(self).started - 1 + n == final(self).started,
            (ret.result matches RequestResult::Success { value } ==> final(storage).runs()
                == old(storage).runs().insert(
                old(self).id,
                spec_add_value(old(storage).runs()[old(self).id], value),
            )),
            !(ret.result matches RequestResult::Success { .. }) ==> *final(storage) == *old(
                storage,
            ),
            final(storage).next_id() == old(storage).next_id(),
            old(storage).wf() ==> final(storage).wf(),
    {
        self.started = self.started - 1;
        match ret.result {
            RequestResult::Error => {
                let _version = self.start_one();
                1
            },
            RequestResult::Success { value } => {
                storage.insert(self.id, value);
                self.update_count();
                self.start_all_possible()
            },
            RequestResult::TooManyRequests => {
                if self.started <= self.max {
                    self.reduce_by_strategy(ret.version);
                    self.start_all_possible()
                } else {
                    0
                }
            },
        }
    }
}

/// What one exchange with the upstream means to the controller. `status` is
/// the response's status code, or nothing when the transport itself failed
/// (conflated with backpressure, so the controller backs off on network
/// trouble); `value` is the value parsed out of a 200 body, or nothing when
/// the body did not parse.
pub open spec fn spec_response_outcome(status: Option<u16>, value: Option<usize>) -> RequestResult {
    match status {
        Option::None => RequestResult::TooManyRequests,
        Option::Some(code) => if code == 200 {
            match value {
                Option::Some(v) => RequestResult::Success { value: v },
                Option::None => RequestResult::Error,
            }
        } else if code == 429 {
            RequestResult::TooManyRequests
        } else {
            RequestResult::Error
        },
    }
}

/// Classify one exchange with the upstream: a parsed 200 is a success, a 429
/// or a transport failure is backpressure, anything else is an error.
pub fn response_outcome(status: Option<u16>, value: Option<usize>) -> (result: RequestResult)
    ensures
        result == spec_response_outcome(status, value),
{
    match status {
        Option::None => RequestResult::TooManyRequests,
        Option::Some(code) => if code == 200 {
            match value {
                Option::Some(v) => RequestResult::Success { value: v },
                Option::None => RequestResult::Error,
            }
        } else if code == 429 {
            RequestResult::TooManyRequests
        } else {
            RequestResult::Error
        },
    }
}

/// How far along FastGrowth -> Single -> EveryN a strategy stands.
pub open spec fn strategy_rank(strategy: RequestStrategy) -> int {
    match strategy {
        RequestStrategy::FastGrowth => 0,
        RequestStrategy::Single => 1,
        RequestStrategy::EveryN { .. } => 2,
    }
}

/// Every step keeps the controller well formed — in particular the ceiling
/// never drops below one — and restores the dispatch invariant: a success
/// refills to the (new) ceiling, an error replaces exactly the worker it
/// accounts for, and a 429 outside fast growth refills to the contracted
/// ceiling. The one exception is a 429 during fast growth, whose contraction
/// can fall below the workers still in flight; the controller then drains
/// down to the new ceiling over the following steps instead of spawning.
pub proof fn lemma_step_keeps_controller_invariants(info: RequestsInfo, ret: RequestReturn)
    requires
        info.wf(),
        1 <= info.started <= info.max,
        info.max + REQUESTS_INCREASE_THRESHOLD <= u16::MAX,
    ensures
        spec_step(info, ret).wf(),
        ret.result matches RequestResult::Success { .. } ==> spec_step(info, ret).started
            == spec_step(info, ret).max,
        ret.result matches RequestResult::Error ==> spec_step(info, ret).started == info.started
            && spec_step(info, ret).max == info.max,
        (ret.result matches RequestResult::TooManyRequests && !(info.strategy
            matches RequestStrategy::FastGrowth)) ==> spec_step(info, ret).started == spec_step(
            info,
            ret,
        ).max,
        !(ret.result matches RequestResult::TooManyRequests && info.strategy
            matches RequestStrategy::FastGrowth) ==> spec_step(info, ret).started <= spec_step(
            info,
            ret,
        ).max,
{
}

/// The strategy only ever moves forward along FastGrowth -> Single ->
/// EveryN: no step re-enters a stage once it is left.
pub proof fn lemma_strategy_one_way(info: RequestsInfo, ret: RequestReturn)
    ensures
        strategy_rank(spec_step(info, ret).strategy) >= strategy_rank(info.strategy),
{
}

/// Within EveryN the period stays between two and the saturation bound and
/// never decreases.
pub proof fn lemma_threshold_monotone(info: RequestsInfo, ret: RequestReturn)
    requires
        info.wf(),
    ensures
        (info.strategy matches RequestStrategy::EveryN { threshold: before, .. } ==> spec_step(
            info,
            ret,
        ).strategy matches RequestStrategy::EveryN { threshold: after, .. } && before <= after
            && 2 <= after <= EVERY_N_THRESHOLD),
{
}

/// Stale-429 immunity: once the strategy has left fast growth, a 429 still
/// carrying the `First` era tag moves the state machine no further than a
/// `First`-tagged 429 inside Single would — the stage is kept (Single stays
/// exactly Single) and the ceiling drops by exactly one, floor one; and when
/// the 429 is stale with respect to an earlier contraction it changes
/// neither strategy nor ceiling at all.
pub proof fn lemma_stale_429_immunity(info: RequestsInfo, ret: RequestReturn)
    requires
        info.wf(),
        1 <= info.started,
        !(info.strategy matches RequestStrategy::FastGrowth),
        ret.result matches RequestResult::TooManyRequests,
        ret.version == RequestVersion::First,
    ensures
        strategy_rank(spec_step(info, ret).strategy) == strategy_rank(info.strategy),
        info.strategy matches RequestStrategy::Single ==> spec_step(info, ret).strategy
            == RequestStrategy::Single,
        info.started - 1 <= info.max ==> spec_step(info, ret).max == spec_decrease_by_one(
            info.max,
        ),
        info.started - 1 > info.max ==> spec_step(info, ret).max == info.max && spec_step(
            info,
            ret,
        ).strategy == info.strategy,
{
}

/// The upstream endpoint every worker GETs.
pub fn host() -> (url: String)
    ensures
        url@ == "http://faulty-server-htz-nbg1-1.wvservices.exchange:8080"@,
{
    "http://faulty-server-htz-nbg1-1.wvservices.exchange:8080".to_owned()
}

} // verus!

