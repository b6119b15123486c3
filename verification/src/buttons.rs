//! The analog button bank: a disjoint-threshold classifier over one shared
//! sensing line, plus one 8-sample debounce filter per button slot. A raw
//! voltage sample is classified against each slot's inclusive threshold
//! range, and a slot's confirmed state flips only when its last eight raw
//! classifications are unanimous in the new direction.

use vstd::prelude::*;
use crate::config::BUTTON_COUNT;

verus! {

/// Number of raw classifications a slot must agree on before its confirmed
/// state changes.
pub const HISTORY_LEN: usize = 8;

/// One inclusive `[low, high]` interval of ADC counts per button slot.
#[derive(Clone, Copy, Debug, PartialEq, Eq, Structural)]
pub struct ThresholdRange {
    pub low: u16,
    pub high: u16,
}

/// The fixed per-slot threshold ranges of the resistor-ladder multiplexer.
pub open spec fn spec_thresholds() -> Seq<ThresholdRange> {
    seq![
        ThresholdRange { low: 700, high: 1000 },
        ThresholdRange { low: 1500, high: 1800 },
        ThresholdRange { low: 2300, high: 2600 },
        ThresholdRange { low: 3200, high: 3500 },
    ]
}

/// Sample `sample` lies inside `r`, both bounds included.
pub open spec fn in_range_spec(r: ThresholdRange, sample: u16) -> bool {
    r.low <= sample <= r.high
}

/// Inclusive range test: a sample equal to `low` or to `high` counts as in
/// range.
pub fn in_range(r: &ThresholdRange, sample: u16) -> (b: bool)
    ensures
        b == in_range_spec(*r, sample),
{
    r.low <= sample && sample <= r.high
}

/// The raw classification of `sample` for slot `i`: whether it lies in that
/// slot's threshold range.
pub open spec fn raw_at(sample: u16, i: int) -> bool {
    in_range_spec(spec_thresholds()[i], sample)
}

/// The configured threshold ranges are pairwise disjoint: no sample is a raw
/// candidate for two slots at once.
pub proof fn lemma_thresholds_disjoint(i: int, j: int, sample: u16)
    requires
        0 <= i < BUTTON_COUNT,
        0 <= j < BUTTON_COUNT,
        i != j,
    ensures
        !(in_range_spec(spec_thresholds()[i], sample) && in_range_spec(
            spec_thresholds()[j],
            sample,
        )),
{
    assert(spec_thresholds()[0] == (ThresholdRange { low: 700, high: 1000 }));
    assert(spec_thresholds()[1] == (ThresholdRange { low: 1500, high: 1800 }));
    assert(spec_thresholds()[2] == (ThresholdRange { low: 2300, high: 2600 }));
    assert(spec_thresholds()[3] == (ThresholdRange { low: 3200, high: 3500 }));
}

/// A single-slot edge: the confirmed state just flipped.
#[derive(Clone, Copy, Debug, PartialEq, Eq, Structural)]
pub enum Edge {
    Rising,
    Falling,
}

/// Every element of `s` equals `b`.
pub open spec fn all_same(s: Seq<bool>, b: bool) -> bool {
    forall|i: int| 0 <= i < s.len() ==> s[i] == b
}

/// Mathematical view of one debounce filter: the last `HISTORY_LEN` raw
/// classifications, oldest first, plus the confirmed state.
#[verifier::ext_equal]
pub ghost struct DebounceView {
    pub window: Seq<bool>,
    pub confirmed: bool,
}

impl DebounceView {
    /// The window is full, and a unanimous window always agrees with the
    /// confirmed state.
    pub open spec fn wf(self) -> bool {
        &&& self.window.len() == HISTORY_LEN
        &&& (all_same(self.window, true) ==> self.confirmed)
        &&& (all_same(self.window, false) ==> !self.confirmed)
    }

    /// One debounce step: shift `raw` into the window; the confirmed state
    /// flips only when the new window is unanimous in the new direction.
    pub open spec fn step(self, raw: bool) -> DebounceView {
        let w = self.window.skip(1).push(raw);
        DebounceView {
            window: w,
            confirmed: if all_same(w, true) {
                true
            } else if all_same(w, false) {
                false
            } else {
                self.confirmed
            },
        }
    }

    /// The edge reported by one debounce step: `Rising` or `Falling` exactly
    /// when the confirmed state flips, `None` otherwise.
    pub open spec fn step_edge(self, raw: bool) -> Option<Edge> {
        let w = self.window.skip(1).push(raw);
        if all_same(w, true) && !self.confirmed {
            Some(Edge::Rising)
        } else if all_same(w, false) && self.confirmed {
            Some(Edge::Falling)
        } else {
            None
        }
    }
}

/// The state of a freshly constructed filter: an all-false window, released.
pub open spec fn fresh_debounce() -> DebounceView {
    DebounceView { window: Seq::new(HISTORY_LEN as nat, |i: int| false), confirmed: false }
}

/// One per-slot debounce filter.
pub struct DebounceState {
    pub window: Vec<bool>,
    pub confirmed: bool,
}

impl View for DebounceState {
    type V = DebounceView;

    open spec fn view(&self) -> DebounceView {
        DebounceView { window: self.window@, confirmed: self.confirmed }
    }
}

/// Tests whether every sample in the window equals `b`.
fn all_value(w: &Vec<bool>, b: bool) -> (r: bool)
    ensures
        r == all_same(w@, b),
{
    let mut i: usize = 0;
    while i < w.len()
        invariant
            i <= w@.len(),
            forall|j: int| 0 <= j < i ==> w@[j] == b,
        decreases w@.len() - i,
    {
        if w[i] != b {
            assert(!all_same(w@, b));
            return false;
        }
        i = i + 1;
    }
    true
}

impl DebounceState {
    /// A fresh filter: all-false history, confirmed released.
    pub fn new() -> (s: Self)
        ensures
            s@ == fresh_debounce(),
            s@.wf(),
    {
        let mut window: Vec<bool> = Vec::new();
        let mut i: usize = 0;
        while i < HISTORY_LEN
            invariant
                i <= HISTORY_LEN,
                window@.len() == i,
                forall|j: int| 0 <= j < i ==> window@[j] == false,
            decreases HISTORY_LEN - i,
        {
            window.push(false);
            i = i + 1;
        }
        let s = DebounceState { window, confirmed: false };
        proof {
            assert(s@ =~= fresh_debounce());
            assert(s@.window[0] == false);
        }
        s
    }

    /// Shifts one raw classification into the filter and reports the edge,
    /// if any, of the confirmed state.
    pub fn update(&mut self, raw: bool) -> (edge: Option<Edge>)
        requires
            old(self)@.wf(),
        ensures
            final(self)@ == old(self)@.step(raw),
            final(self)@.wf(),
            edge == old(self)@.step_edge(raw),
    {
        self.window.remove(0);
        self.window.push(raw);
        proof {
            assert(self.window@ =~= old(self)@.window.skip(1).push(raw));
            if all_same(self.window@, true) && all_same(self.window@, false) {
                assert(self.window@[0]);
                assert(!self.window@[0]);
            }
        }
        let went_high = all_value(&self.window, true);
        let went_low = all_value(&self.window, false);
        if went_high && !self.confirmed {
            self.confirmed = true;
            Some(Edge::Rising)
        } else if went_low && self.confirmed {
            self.confirmed = false;
            Some(Edge::Falling)
        } else {
            None
        }
    }
}

/// The filter state after feeding a whole sequence of raw classifications,
/// in order.
pub open spec fn feed(v: DebounceView, raws: Seq<bool>) -> DebounceView
    decreases raws.len(),
{
    if raws.len() == 0 {
        v
    } else {
        feed(v, raws.drop_last()).step(raws.last())
    }
}

/// The window after feeding a sequence is exactly the last `HISTORY_LEN`
/// elements of the combined stream: initial window, then the fed values.
pub proof fn lemma_feed_window(v: DebounceView, raws: Seq<bool>)
    requires
        v.window.len() == HISTORY_LEN,
    ensures
        feed(v, raws).window =~= (v.window + raws).skip(raws.len() as int),
    decreases raws.len(),
{
    let n = raws.len() as int;
    if n == 0 {
        assert(feed(v, raws).window =~= (v.window + raws).skip(0));
    } else {
        let p = raws.drop_last();
        lemma_feed_window(v, p);
        let prev = feed(v, p).window;
        let cur = feed(v, raws).window;
        assert(cur =~= prev.skip(1).push(raws.last()));
        assert forall|k: int| 0 <= k < HISTORY_LEN implies cur[k] == (v.window + raws)[n + k] by {
            if k < HISTORY_LEN - 1 {
                assert(prev[k + 1] == (v.window + p)[n - 1 + k + 1]);
                assert((v.window + p)[n + k] == (v.window + raws)[n + k]);
            } else {
                assert((v.window + raws)[n + k] == raws[n - 1]);
            }
        }
        assert(cur =~= (v.window + raws).skip(n));
    }
}

/// Debounce stability, one step: whenever a step flips the confirmed state,
/// the window after that step holds `HISTORY_LEN` copies of the new state —
/// a mixed window never produces a transition.
pub proof fn lemma_change_needs_unanimity(v: DebounceView, raw: bool)
    ensures
        v.step(raw).confirmed != v.confirmed ==> all_same(v.step(raw).window, v.step(raw).confirmed),
{
}

/// Debounce stability over a whole input: whenever feeding one more raw
/// classification flips the confirmed state, the last `HISTORY_LEN` values
/// of the combined raw stream (initial window, then the fed sequence) are
/// unanimous in the new direction. In particular, fewer than `HISTORY_LEN`
/// consecutive identical classifications never flip the confirmed state.
pub proof fn lemma_debounce_stability(v: DebounceView, raws: Seq<bool>)
    requires
        v.window.len() == HISTORY_LEN,
        raws.len() > 0,
        feed(v, raws).confirmed != feed(v, raws.drop_last()).confirmed,
    ensures
        all_same((v.window + raws).skip(raws.len() as int), feed(v, raws).confirmed),
{
    lemma_change_needs_unanimity(feed(v, raws.drop_last()), raws.last());
    lemma_feed_window(v, raws);
}

/// `raws` holds a run of `HISTORY_LEN` consecutive `true` classifications
/// ending just before position `end`.
pub open spec fn has_true_run(raws: Seq<bool>, end: int) -> bool {
    HISTORY_LEN <= end <= raws.len() && forall|k: int| end - HISTORY_LEN <= k < end ==> raws[k]
}

/// From a fresh filter, an input without a run of `HISTORY_LEN` consecutive
/// `true` classifications never confirms a press, however long it is.
pub proof fn lemma_no_short_run_press(raws: Seq<bool>)
    requires
        forall|end: int| !has_true_run(raws, end),
    ensures
        !feed(fresh_debounce(), raws).confirmed,
    decreases raws.len(),
{
    let v = fresh_debounce();
    let n = raws.len() as int;
    if n > 0 {
        let p = raws.drop_last();
        assert forall|end: int| !has_true_run(p, end) by {
            if has_true_run(p, end) {
                assert forall|k: int| end - HISTORY_LEN <= k < end implies raws[k] by {
                    assert(p[k]);
                }
                assert(has_true_run(raws, end));
            }
        }
        lemma_no_short_run_press(p);
        let pre = feed(v, p);
        if feed(v, raws).confirmed {
            lemma_change_needs_unanimity(pre, raws.last());
            lemma_feed_window(v, raws);
            let w = feed(v, raws).window;
            if n < HISTORY_LEN {
                assert(w[0] == (v.window + raws)[n]);
                assert((v.window + raws)[n] == false);
                assert(w[0]);
            } else {
                assert forall|k: int| n - HISTORY_LEN <= k < n implies raws[k] by {
                    assert(w[k - (n - HISTORY_LEN)]);
                    assert(w[k - (n - HISTORY_LEN)] == (v.window + raws)[k + HISTORY_LEN]);
                }
                assert(has_true_run(raws, n));
            }
        }
    }
}

/// The bank-level event produced once per poll tick.
#[derive(Clone, Copy, Debug, PartialEq, Eq, Structural)]
pub enum State {
    Rising(usize),
    Falling(usize),
    Idle,
}

/// The button bank: the fixed threshold table plus one debounce filter per
/// slot.
pub struct Buttons {
    pub thresholds: Vec<ThresholdRange>,
    pub debouncers: Vec<DebounceState>,
}

impl Buttons {
    /// The thresholds are the configured table and every filter window is
    /// full and consistent.
    pub open spec fn wf(self) -> bool {
        &&& self.thresholds@ == spec_thresholds()
        &&& self.debouncers@.len() == BUTTON_COUNT
        &&& forall|i: int|
            0 <= i < BUTTON_COUNT ==> (#[trigger] self.debouncers@[i])@.wf()
    }

    /// Slot `i` reports a rising edge for `sample` from this (pre-tick)
    /// state.
    pub open spec fn rises(self, sample: u16, i: int) -> bool {
        self.debouncers@[i]@.step_edge(raw_at(sample, i)) == Some(Edge::Rising)
    }

    /// Slot `i` reports a falling edge for `sample` from this (pre-tick)
    /// state.
    pub open spec fn falls(self, sample: u16, i: int) -> bool {
        self.debouncers@[i]@.step_edge(raw_at(sample, i)) == Some(Edge::Falling)
    }

    /// A bank with the configured thresholds and fresh (released) filters.
    pub fn new() -> (b: Buttons)
        ensures
            b.wf(),
            forall|i: int|
                0 <= i < BUTTON_COUNT ==> (#[trigger] b.debouncers@[i])@ == fresh_debounce(),
    {
        let mut thresholds: Vec<ThresholdRange> = Vec::new();
        thresholds.push(ThresholdRange { low: 700, high: 1000 });
        thresholds.push(ThresholdRange { low: 1500, high: 1800 });
        thresholds.push(ThresholdRange { low: 2300, high: 2600 });
        thresholds.push(ThresholdRange { low: 3200, high: 3500 });
        proof {
            assert(thresholds@ =~= spec_thresholds());
        }
        let mut debouncers: Vec<DebounceState> = Vec::new();
        let mut i: usize = 0;
        while i < BUTTON_COUNT
            invariant
                i <= BUTTON_COUNT,
                debouncers@.len() == i,
                forall|j: int| 0 <= j < i ==> (#[trigger] debouncers@[j])@ == fresh_debounce(),
                forall|j: int| 0 <= j < i ==> (#[trigger] debouncers@[j])@.wf(),
            decreases BUTTON_COUNT - i,
        {
            debouncers.push(DebounceState::new());
            i = i + 1;
        }
        Buttons { thresholds, debouncers }
    }

    /// One poll tick: classifies `sample` against every slot and advances
    /// every filter. A rising edge takes priority over any falling edge (the
    /// highest rising slot wins); among falling edges alone the lowest slot
    /// wins; with no edge the tick reports `State::Idle`.
    pub fn get_state(&mut self, sample: u16) -> (r: State)
        requires
            old(self).wf(),
        ensures
            final(self).wf(),
            final(self).thresholds@ == old(self).thresholds@,
            forall|i: int|
                0 <= i < BUTTON_COUNT ==> (#[trigger] final(self).debouncers@[i])@ == old(
                    self,
                ).debouncers@[i]@.step(raw_at(sample, i)),
            match r {
                State::Rising(i) => i < BUTTON_COUNT && old(self).rises(sample, i as int)
                    && (forall|j: int| i < j < BUTTON_COUNT ==> !old(self).rises(sample, j)),
                State::Falling(i) => i < BUTTON_COUNT && old(self).falls(sample, i as int)
                    && (forall|j: int| 0 <= j < BUTTON_COUNT ==> !old(self).rises(sample, j))
                    && (forall|j: int| 0 <= j < i ==> !old(self).falls(sample, j)),
                State::Idle => forall|j: int|
                    0 <= j < BUTTON_COUNT ==> !old(self).rises(sample, j) && !old(self).falls(
                        sample,
                        j,
                    ),
            },
    {
        let mut r = State::Idle;
        let mut i: usize = 0;
        while i < BUTTON_COUNT
            invariant
                i <= BUTTON_COUNT,
                self.thresholds@ == old(self).thresholds@,
                self.thresholds@ == spec_thresholds(),
                self.debouncers@.len() == BUTTON_COUNT,
                forall|k: int|
                    0 <= k < i ==> (#[trigger] self.debouncers@[k])@ == old(
                        self,
                    ).debouncers@[k]@.step(raw_at(sample, k)),
                forall|k: int|
                    i <= k < BUTTON_COUNT ==> #[trigger] self.debouncers@[k] == old(
                        self,
                    ).debouncers@[k],
                forall|k: int| 0 <= k < BUTTON_COUNT ==> (#[trigger] self.debouncers@[k])@.wf(),
                match r {
                    State::Rising(b) => b < i && old(self).rises(sample, b as int)
                        && (forall|j: int| b < j < i ==> !old(self).rises(sample, j)),
                    State::Falling(b) => b < i && old(self).falls(sample, b as int)
                        && (forall|j: int| 0 <= j < i ==> !old(self).rises(sample, j))
                        && (forall|j: int| 0 <= j < b ==> !old(self).falls(sample, j)),
                    State::Idle => forall|j: int|
                        0 <= j < i ==> !old(self).rises(sample, j) && !old(self).falls(sample, j),
                },
            decreases BUTTON_COUNT - i,
        {
            let raw = in_range(&self.thresholds[i], sample);
            let edge = self.debouncers[i].update(raw);
            match edge {
                Some(Edge::Rising) => {
                    r = State::Rising(i);
                },
                Some(Edge::Falling) => {
                    let keep = match r {
                        State::Idle => true,
                        _ => false,
                    };
                    if keep {
                        r = State::Falling(i);
                    }
                },
                None => {},
            }
            i = i + 1;
        }
        r
    }

    /// True exactly when every slot's confirmed state is released.
    pub fn all_released(&self) -> (r: bool)
        requires
            self.wf(),
        ensures
            r == forall|i: int|
                0 <= i < BUTTON_COUNT ==> !(#[trigger] self.debouncers@[i])@.confirmed,
    {
        let mut i: usize = 0;
        while i < BUTTON_COUNT
            invariant
                i <= BUTTON_COUNT,
                self.debouncers@.len() == BUTTON_COUNT,
                forall|j: int| 0 <= j < i ==> !(#[trigger] self.debouncers@[j])@.confirmed,
            decreases BUTTON_COUNT - i,
        {
            if self.debouncers[i].confirmed {
                return false;
            }
            i = i + 1;
        }
        true
    }
}

} // verus!
