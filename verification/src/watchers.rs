//! Watching a value from tick to tick.
//!
//! A [`Watcher`] sits on top of anything that can be asked for a value and
//! may fail to give one. It asks at most once per tick for as long as the
//! answer was usable, remembers what it saw on the tick before, and tells
//! whether the two differ.

use vstd::prelude::*;
use vstd::std_specs::cmp::PartialEqSpec;
use crate::error::WatchError;

pub mod gba;
pub mod pointer_path;
pub mod unity;

verus! {

/// Something that, upon request, tries to retrieve a value.
///
/// The canonical case reads the value out of another process. Nothing is
/// promised of the answer: two requests in a row may well differ, and any of
/// them may fail. A source may keep notes of its own between requests, which
/// is why it is asked through `&mut`.
pub trait ValueGetter<T> {
    /// Whether `outcome` is something that this source may answer when it is
    /// asked now. A source says of itself what it may answer; one that says
    /// nothing allows every outcome.
    open spec fn may_yield(&self, outcome: Result<T, WatchError>) -> bool {
        true
    }

    fn get(&mut self) -> (outcome: Result<T, WatchError>)
        ensures
            old(self).may_yield(outcome),
    ;
}

/// What a [`Watcher`] holds, apart from its source.
pub struct WatcherView<T> {
    /// The value of this tick, once it has been read.
    pub current: Option<T>,
    /// The value that the tick before ended with.
    pub previous: Option<T>,
    /// What stands in for a reading that failed.
    pub fallback: Option<T>,
}

/// What an answer `raw` of a source is worth to a watcher with that
/// fallback: itself where it is a value, the fallback where it is a failure
/// and there is a fallback, and the failure otherwise.
pub open spec fn settle<T>(raw: Result<T, WatchError>, fallback: Option<T>) -> Result<
    T,
    WatchError,
> {
    match raw {
        Ok(value) => Ok(value),
        Err(failure) => match fallback {
            Some(value) => Ok(value),
            None => Err(failure),
        },
    }
}

impl<T> WatcherView<T> {
    /// A watcher that has seen nothing yet and has no fallback.
    pub open spec fn fresh() -> Self {
        WatcherView { current: None, previous: None, fallback: None }
    }

    /// What asking for the current value returns, where `raw` is what the
    /// source would say if it were asked.
    pub open spec fn reading(self, raw: Result<T, WatchError>) -> Result<T, WatchError> {
        match self.current {
            Some(value) => Ok(value),
            None => settle(raw, self.fallback),
        }
    }

    /// The watcher after it was asked for the current value. A usable
    /// reading is kept for the rest of the tick, a failure leaves no trace.
    pub open spec fn polled(self, raw: Result<T, WatchError>) -> Self {
        match self.current {
            Some(_) => self,
            None => WatcherView {
                current: match settle(raw, self.fallback) {
                    Ok(value) => Some(value),
                    Err(_) => None,
                },
                ..self
            },
        }
    }

    /// The watcher after it was asked for the current value once for each
    /// of `raws`, in that order.
    pub open spec fn polled_all(self, raws: Seq<Result<T, WatchError>>) -> Self
        decreases raws.len(),
    {
        if raws.len() == 0 {
            self
        } else {
            self.polled_all(raws.drop_last()).polled(raws.last())
        }
    }

    /// Whether the request at position `at` of a tick asks the source, where
    /// `raws` is what the source would say to each request of the tick.
    pub open spec fn asks_at(self, raws: Seq<Result<T, WatchError>>, at: int) -> bool {
        self.polled_all(raws.take(at)).current is None
    }

    /// What the request at position `at` of a tick returns.
    pub open spec fn reading_at(self, raws: Seq<Result<T, WatchError>>, at: int) -> Result<
        T,
        WatchError,
    > {
        self.polled_all(raws.take(at)).reading(raws[at])
    }

    /// The watcher at the start of the next tick: what was read becomes the
    /// previous value, and where nothing was read there is no previous value.
    pub open spec fn invalidated(self) -> Self {
        WatcherView { current: None, previous: self.current, ..self }
    }

    /// The same watcher with `value` as its fallback.
    pub open spec fn with_fallback(self, value: T) -> Self {
        WatcherView { fallback: Some(value), ..self }
    }
}

/// Decides what a reading of the source is worth, given the fallback.
pub fn settle_reading<T: Copy>(raw: Result<T, WatchError>, fallback: Option<T>) -> (settled:
    Result<T, WatchError>)
    ensures
        settled == settle(raw, fallback),
{
    match raw {
        Ok(value) => Ok(value),
        Err(failure) => match fallback {
            Some(value) => Ok(value),
            None => Err(failure),
        },
    }
}

/// Whether `outcome` tells rightly if `now`, a reading of the current
/// value, differs from `before`: a failed reading is handed on as it is, and
/// two values differ where `==` says so.
pub open spec fn told_apart<T: PartialEq>(
    before: T,
    now: Result<T, WatchError>,
    outcome: Result<bool, WatchError>,
) -> bool {
    match now {
        Ok(value) => outcome matches Ok(changed) && (T::obeys_eq_spec() ==> changed
            == !before.eq_spec(&value)),
        Err(failure) => outcome == Err::<bool, WatchError>(failure),
    }
}

/// Decides whether `now`, a reading of the current value, differs from
/// `before`. A failed reading is handed on as it is.
pub fn differs<T: Copy + PartialEq>(before: T, now: Result<T, WatchError>) -> (outcome: Result<
    bool,
    WatchError,
>)
    ensures
        told_apart(before, now, outcome),
{
    match now {
        Ok(value) => Ok(before != value),
        Err(failure) => Err(failure),
    }
}

/// A Watcher is used for fetching values, and comparing those values against
/// old versions of that value.
///
/// It will:
/// 1. Fetch a value from its source when asked with `current()`
/// 2. Cache that value and return it on future calls to `current()`
/// 3. Invalidate that cache on calls to `invalidate()`
/// 4. Return the latest invalidated version of that value in `previous()`
///
/// In typical usage the value is fetched wherever a tick needs it, and the
/// watcher is invalidated between two ticks. During a tick one can then see
/// how the value changed from the tick before, and act on it.
#[verifier::reject_recursive_types(T)]
pub struct Watcher<'a, T: Copy> {
    source: Box<dyn ValueGetter<T> + 'a>,
    current: Option<T>,
    previous: Option<T>,
    fallback: Option<T>,
}

impl<'a, T: Copy> View for Watcher<'a, T> {
    type V = WatcherView<T>;

    closed spec fn view(&self) -> WatcherView<T> {
        WatcherView { current: self.current, previous: self.previous, fallback: self.fallback }
    }
}

impl<'a, T: Copy> Watcher<'a, T> {
    /// Whether `raw` is something that the source of this watcher may answer
    /// when it is asked now.
    pub closed spec fn source_may_yield(self, raw: Result<T, WatchError>) -> bool {
        self.source.may_yield(raw)
    }

    /// Whether `other` asks the same source, in the same state.
    pub closed spec fn same_source(self, other: Self) -> bool {
        self.source == other.source
    }

    /// Whether asking this watcher for the current value may return
    /// `reading` and leave `after`, where `raw` is what the source answers if
    /// it is asked: it is asked only where nothing is cached, and then `raw`
    /// is an answer of that source.
    pub open spec fn polls(
        self,
        raw: Result<T, WatchError>,
        reading: Result<T, WatchError>,
        after: WatcherView<T>,
    ) -> bool {
        &&& self@.current is None ==> self.source_may_yield(raw)
        &&& reading == self@.reading(raw)
        &&& after == self@.polled(raw)
    }

    /// A watcher over `source` that has seen nothing yet.
    pub fn new(source: Box<dyn ValueGetter<T> + 'a>) -> (watcher: Self)
        ensures
            watcher@ == WatcherView::<T>::fresh(),
    {
        Watcher { source, current: None, previous: None, fallback: None }
    }

    /// The value of this tick.
    ///
    /// The first call of a tick asks the source. A value, or the fallback in
    /// place of a failure, is cached until `invalidate`, and while it is
    /// cached the source is left alone. A failure without a fallback is
    /// handed to the caller and not cached: the next call asks again.
    pub fn current(&mut self) -> (reading: Result<T, WatchError>)
        ensures
            old(self)@.current is Some ==> *final(self) == *old(self),
            exists|raw: Result<T, WatchError>| old(self).polls(raw, reading, final(self)@),
    {
        match self.current {
            Some(value) => {
                proof {
                    let raw = Ok::<T, WatchError>(value);
                    assert(old(self).polls(raw, Ok(value), self@));
                }
                Ok(value)
            },
            None => {
                let raw = self.source.get();
                let ghost asked = raw;
                let settled = settle_reading(raw, self.fallback);
                if let Ok(value) = &settled {
                    self.current = Some(*value);
                }
                proof {
                    assert(old(self).polls(asked, settled, self@));
                }
                settled
            },
        }
    }

    /// Retrieve the previous value for this watcher: the one that `current`
    /// had cached when `invalidate` was last called, if any.
    pub fn previous(&self) -> (value: Option<T>)
        ensures
            value == self@.previous,
    {
        self.previous
    }

    /// Ends the tick. The cached value moves to `previous()`, and the next
    /// call to `current()` asks the source afresh.
    ///
    /// Where `current()` was not called, or only failed, since the last
    /// `invalidate`, there is no previous value afterwards: the one of an
    /// earlier tick is not carried forward.
    pub fn invalidate(&mut self)
        ensures
            final(self)@ == old(self)@.invalidated(),
            final(self).same_source(*old(self)),
    {
        self.previous = self.current;
        self.current = None;
    }

    /// When the source fails, use `value` instead of failing the call to
    /// `current()`.
    pub fn default_given(self, value: T) -> (watcher: Self)
        ensures
            watcher@ == self@.with_fallback(value),
            watcher.same_source(self),
    {
        let mut watcher = self;
        watcher.fallback = Some(value);
        watcher
    }
}

impl<'a, T: Copy + PartialEq> Watcher<'a, T> {
    /// Tells whether the value changed since the tick before.
    ///
    /// Without a previous value nothing has changed, and the source is not
    /// asked. With one, the current value is read as `current()` reads it,
    /// so this can fail as `current()` does.
    pub fn changed(&mut self) -> (outcome: Result<bool, WatchError>)
        ensures
            old(self)@.previous is None ==> outcome == Ok::<bool, WatchError>(false)
                && *final(self) == *old(self),
            old(self)@.previous matches Some(before) ==> exists|raw: Result<T, WatchError>|
                {
                    &&& #[trigger] old(self).polls(
                        raw,
                        old(self)@.reading(raw),
                        final(self)@,
                    )
                    &&& told_apart(before, old(self)@.reading(raw), outcome)
                },
            old(self)@.current is Some ==> *final(self) == *old(self),
    {
        match self.previous {
            None => Ok(false),
            Some(before) => {
                let now = self.current();
                differs(before, now)
            },
        }
    }
}

impl<'a, T: Copy + Default> Watcher<'a, T> {
    /// Use the default value of `T` when the source fails.
    ///
    /// See `default_given`.
    pub fn default(self) -> (watcher: Self)
        ensures
            exists|value: T|
                call_ensures(T::default, (), value) && watcher@ == self@.with_fallback(value),
            watcher.same_source(self),
    {
        let value = T::default();
        let mut watcher = self;
        watcher.fallback = Some(value);
        proof {
            assert(call_ensures(T::default, (), value) && watcher@ == self@.with_fallback(value));
        }
        watcher
    }
}

/// A default that stood in for a failed reading is a value like any other:
/// it is what `current()` returns, and after `invalidate()` it is the
/// previous value.
pub proof fn lemma_fallback_takes_part<T>(watcher: WatcherView<T>, failure: WatchError, value: T)
    requires
        watcher.current is None,
        watcher.fallback == Some(value),
    ensures
        watcher.reading(Err(failure)) == Ok::<T, WatchError>(value),
        watcher.polled(Err(failure)).current == Some(value),
        watcher.polled(Err(failure)).invalidated().previous == Some(value),
        watcher.polled(Err(failure)).invalidated().fallback == Some(value),
{
}

proof fn lemma_request_extends_tick<T>(
    watcher: WatcherView<T>,
    raws: Seq<Result<T, WatchError>>,
    at: int,
)
    requires
        0 <= at < raws.len(),
    ensures
        watcher.polled_all(raws.take(at + 1)) == watcher.polled_all(raws.take(at)).polled(
            raws[at],
        ),
{
    assert(raws.take(at + 1).drop_last() =~= raws.take(at));
}

proof fn lemma_value_stays<T>(
    watcher: WatcherView<T>,
    raws: Seq<Result<T, WatchError>>,
    from: int,
    to: int,
)
    requires
        0 <= from <= to <= raws.len(),
        watcher.polled_all(raws.take(from)).current is Some,
    ensures
        watcher.polled_all(raws.take(to)) == watcher.polled_all(raws.take(from)),
    decreases to - from,
{
    if from < to {
        lemma_value_stays(watcher, raws, from, to - 1);
        lemma_request_extends_tick(watcher, raws, to - 1);
    }
}

/// Once `current()` has returned a value, every later request of the tick
/// returns that value and leaves the source alone, whatever the source would
/// say by then.
///
/// A request that failed has cached nothing, so the one after it asks again:
/// only from the first value on is the source asked no more.
pub proof fn lemma_read_once_per_tick<T>(
    watcher: WatcherView<T>,
    raws: Seq<Result<T, WatchError>>,
    first: int,
    later: int,
)
    requires
        0 <= first < later < raws.len(),
        watcher.reading_at(raws, first) is Ok,
    ensures
        !watcher.asks_at(raws, later),
        watcher.reading_at(raws, later) == watcher.reading_at(raws, first),
{
    lemma_request_extends_tick(watcher, raws, first);
    lemma_value_stays(watcher, raws, first + 1, later);
}

/// `previous()` after `invalidate()` is the value that `current()` returned
/// in the tick that ended, and nothing where it returned none: because it
/// was not called, or because every call failed.
pub proof fn lemma_previous_is_last_reading<T>(
    watcher: WatcherView<T>,
    raws: Seq<Result<T, WatchError>>,
)
    requires
        watcher.current is None,
    ensures
        forall|at: int|
            0 <= at < raws.len() && (#[trigger] watcher.reading_at(raws, at)) is Ok
                ==> watcher.polled_all(raws).invalidated().previous == Some(
                watcher.reading_at(raws, at)->Ok_0,
            ),
        (forall|at: int| 0 <= at < raws.len() ==> (#[trigger] watcher.reading_at(raws, at)) is Err)
            ==> watcher.polled_all(raws).invalidated().previous is None,
        watcher.polled_all(raws).invalidated().current is None,
    decreases raws.len(),
{
    assert(raws.take(raws.len() as int) =~= raws);
    assert forall|at: int|
        0 <= at < raws.len() && (#[trigger] watcher.reading_at(raws, at)) is Ok implies
        watcher.polled_all(raws).invalidated().previous == Some(
        watcher.reading_at(raws, at)->Ok_0,
    ) by {
        lemma_request_extends_tick(watcher, raws, at);
        lemma_value_stays(watcher, raws, at + 1, raws.len() as int);
    }
    if forall|at: int| 0 <= at < raws.len() ==> (#[trigger] watcher.reading_at(raws, at)) is Err {
        lemma_failures_leave_no_trace(watcher, raws, raws.len() as int);
    }
}

proof fn lemma_failures_leave_no_trace<T>(
    watcher: WatcherView<T>,
    raws: Seq<Result<T, WatchError>>,
    upto: int,
)
    requires
        watcher.current is None,
        0 <= upto <= raws.len(),
        forall|at: int| 0 <= at < upto ==> (#[trigger] watcher.reading_at(raws, at)) is Err,
    ensures
        watcher.polled_all(raws.take(upto)).current is None,
    decreases upto,
{
    if upto > 0 {
        lemma_failures_leave_no_trace(watcher, raws, upto - 1);
        lemma_request_extends_tick(watcher, raws, upto - 1);
        assert(watcher.reading_at(raws, upto - 1) is Err);
    }
}

/// Watchers that ask the same source are answered alike: what the source of
/// the one may yield, the source of the other may yield. So a watcher that was
/// invalidated, or given a fallback, still asks what it asked.
pub proof fn lemma_same_source_yields_alike<'a, T: Copy>(
    one: Watcher<'a, T>,
    other: Watcher<'a, T>,
)
    requires
        one.same_source(other),
    ensures
        other.same_source(one),
        forall|raw: Result<T, WatchError>| #[trigger]
            one.source_may_yield(raw) == other.source_may_yield(raw),
{
}

/// A watcher that was built and given a fallback, and has not been asked
/// yet, has no previous value.
pub proof fn lemma_fresh_has_no_previous<T>(value: T)
    ensures
        WatcherView::<T>::fresh().previous is None,
        WatcherView::<T>::fresh().with_fallback(value).previous is None,
        WatcherView::<T>::fresh().invalidated().previous is None,
{
}

} // verus!
