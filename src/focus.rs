//! Coarse focus labels and the debouncer that turns a noisy attention label
//! into stable focus transitions.

use vstd::prelude::*;

verus! {

/// Milliseconds a label must stay unchanged before a transition is announced.
pub const STABLE_MS: u64 = 2000;

/// The coarse focus state derived from a raw attention label.
#[derive(Clone, Copy, Debug, PartialEq, Eq, Structural)]
pub enum FocusState {
    Focused,
    Unfocused,
}

/// Whether `w` occurs as a contiguous run inside `s`.
pub open spec fn has_infix(s: Seq<char>, w: Seq<char>) -> bool {
    exists|i: int| 0 <= i && i + w.len() <= s.len() && #[trigger] s.subrange(i, i + w.len()) == w
}

/// The coarse state of an already lowercased label.
pub open spec fn coarse_of_lowered(l: Seq<char>) -> FocusState {
    if has_infix(l, "unfocused"@) || has_infix(l, "low"@) {
        FocusState::Unfocused
    } else {
        FocusState::Focused
    }
}

/// The coarse state of a raw label: case-insensitive search for
/// "unfocused" or "low".
pub open spec fn coarse_of(label: Seq<char>) -> FocusState {
    coarse_of_lowered(lower_of(label))
}

/// The lowercase form of a label, as `str::to_lowercase` computes it.
pub uninterp spec fn lower_of(s: Seq<char>) -> Seq<char>;

/// Relies on `str::to_lowercase`: the lowercase form depends on the
/// characters alone.
#[verifier::external_body]
fn lowercase(s: &str) -> (r: String)
    ensures
        r@ == lower_of(s@),
{
    s.to_lowercase()
}

/// Whether `w` occurs in `s` starting at character `i`.
fn matches_at(s: &str, w: &str, i: usize) -> (r: bool)
    requires
        i + w@.len() <= s@.len(),
    ensures
        r == (s@.subrange(i as int, i + w@.len()) == w@),
{
    let n = s.unicode_len();
    let m = w.unicode_len();
    let mut j: usize = 0;
    while j < m
        invariant
            n == s@.len(),
            m == w@.len(),
            i + m <= s@.len(),
            j <= m,
            forall|t: int| 0 <= t < j ==> s@[i + t] == w@[t],
        decreases m - j,
    {
        if s.get_char(i + j) != w.get_char(j) {
            assert(s@.subrange(i as int, i + m)[j as int] != w@[j as int]);
            return false;
        }
        j += 1;
    }
    assert(s@.subrange(i as int, i + m) =~= w@);
    true
}

/// Substring search over characters.
pub fn contains_chars(s: &str, w: &str) -> (r: bool)
    ensures
        r == has_infix(s@, w@),
{
    let n = s.unicode_len();
    let m = w.unicode_len();
    if m > n {
        return false;
    }
    let mut i: usize = 0;
    while i <= n - m
        invariant
            n == s@.len(),
            m == w@.len(),
            m <= n,
            i <= n - m,
            forall|k: int| 0 <= k < i ==> #[trigger] s@.subrange(k, k + m) != w@,
        decreases n - m + 1 - i,
    {
        if matches_at(s, w, i) {
            return true;
        }
        if i == n - m {
            return false;
        }
        i += 1;
    }
    false
}

/// Maps an already lowercased label to its coarse focus state.
pub fn focus_state_of_lowered(lowered: &str) -> (r: FocusState)
    ensures
        r == coarse_of_lowered(lowered@),
{
    if contains_chars(lowered, "unfocused") || contains_chars(lowered, "low") {
        FocusState::Unfocused
    } else {
        FocusState::Focused
    }
}

/// Maps a raw attention label to its coarse focus state, ignoring case.
pub fn focus_state_for(label: &str) -> (r: FocusState)
    ensures
        r == coarse_of(label@),
{
    let lowered = lowercase(label);
    focus_state_of_lowered(lowered.as_str())
}

/// The debouncer's state as plain values: the last observed raw label and
/// the instant (in milliseconds) at which it last changed.
pub struct FocusView {
    pub label: Option<Seq<char>>,
    pub since: Option<u64>,
}

/// Whether `since + STABLE_MS` has been reached at `now`.
pub open spec fn stable_at(since: u64, now: u64) -> bool {
    now >= since + STABLE_MS
}

/// One successful observation of `label` at `now`: the next state and the
/// focus transition to announce, if any.
pub open spec fn focus_step(v: FocusView, label: Seq<char>, now: u64) -> (FocusView, Option<FocusState>) {
    if v.label != Some(label) {
        (FocusView { label: Some(label), since: Some(now) }, None)
    } else {
        match v.since {
            Some(t) => if stable_at(t, now) {
                (FocusView { label: v.label, since: None }, Some(coarse_of(label)))
            } else {
                (v, None)
            },
            None => (v, None),
        }
    }
}

/// The debouncer fed the successful observations `obs` (label and instant)
/// in order: the final state and what each observation announced.
pub open spec fn focus_trace(v: FocusView, obs: Seq<(Seq<char>, u64)>) -> (FocusView, Seq<Option<FocusState>>)
    decreases obs.len(),
{
    if obs.len() == 0 {
        (v, seq![])
    } else {
        let (v1, out) = focus_trace(v, obs.drop_last());
        let (v2, e) = focus_step(v1, obs.last().0, obs.last().1);
        (v2, out.push(e))
    }
}

/// Observation `k` carries a label that has been observed without change
/// since an observation at least `STABLE_MS` earlier.
pub open spec fn held_stable(obs: Seq<(Seq<char>, u64)>, k: int) -> bool {
    exists|j: int|
        0 <= j <= k && #[trigger] obs[j].1 + STABLE_MS <= obs[k].1
            && forall|m: int| j <= m <= k ==> #[trigger] obs[m].0 == obs[k].0
}

/// Whether an open window of the state `v` after `obs` started at an
/// observation from which the label has not changed.
spec fn window_matches(v: FocusView, obs: Seq<(Seq<char>, u64)>) -> bool {
    &&& obs.len() > 0 ==> v.label == Some(obs.last().0)
    &&& obs.len() == 0 ==> v.since is None
    &&& v.since is Some ==> exists|j: int|
        0 <= j < obs.len() && #[trigger] obs[j].1 == v.since->0
            && forall|m: int| j <= m < obs.len() ==> #[trigger] obs[m].0 == obs.last().0
}

proof fn lemma_trace_stable(v: FocusView, obs: Seq<(Seq<char>, u64)>)
    requires
        v.label is None,
        v.since is None,
    ensures
        window_matches(focus_trace(v, obs).0, obs),
        focus_trace(v, obs).1.len() == obs.len(),
        forall|k: int| 0 <= k < obs.len() && #[trigger] focus_trace(v, obs).1[k] is Some ==> held_stable(obs, k),
    decreases obs.len(),
{
    if obs.len() > 0 {
        let pre = obs.drop_last();
        lemma_trace_stable(v, pre);
        let (v1, out) = focus_trace(v, pre);
        let (label, now) = obs.last();
        let (v2, e) = focus_step(v1, label, now);
        let last = obs.len() - 1;
        assert forall|k: int| 0 <= k < obs.len() && #[trigger] focus_trace(v, obs).1[k] is Some implies held_stable(obs, k) by {
            if k < last {
                assert(out[k] is Some);
                assert(held_stable(pre, k));
                let j = choose|j: int|
                    0 <= j <= k && #[trigger] pre[j].1 + STABLE_MS <= pre[k].1
                        && forall|m: int| j <= m <= k ==> #[trigger] pre[m].0 == pre[k].0;
                assert(obs[j].1 + STABLE_MS <= obs[k].1);
                assert forall|m: int| j <= m <= k implies #[trigger] obs[m].0 == obs[k].0 by {
                    assert(pre[m].0 == pre[k].0);
                }
            } else {
                let t = v1.since->0;
                let j = choose|j: int|
                    0 <= j < pre.len() && #[trigger] pre[j].1 == t
                        && forall|m: int| j <= m < pre.len() ==> #[trigger] pre[m].0 == pre.last().0;
                assert(obs[j].1 + STABLE_MS <= obs[k].1);
                assert forall|m: int| j <= m <= k implies #[trigger] obs[m].0 == obs[k].0 by {
                    if m < last {
                        assert(pre[m].0 == pre.last().0);
                    }
                }
            }
        }
        if v2.since is Some {
            if v1.label != Some(label) {
                assert(obs[last].1 == v2.since->0);
            } else {
                let j = choose|j: int|
                    0 <= j < pre.len() && #[trigger] pre[j].1 == v1.since->0
                        && forall|m: int| j <= m < pre.len() ==> #[trigger] pre[m].0 == pre.last().0;
                assert(obs[j].1 == v2.since->0);
                assert forall|m: int| j <= m < obs.len() implies #[trigger] obs[m].0 == obs.last().0 by {
                    if m < last {
                        assert(pre[m].0 == pre.last().0);
                    }
                }
            }
        }
    }
}

/// Starting from a fresh debouncer, a focus transition is announced only
/// for an observation whose label has stayed unchanged since an
/// observation at least `STABLE_MS` earlier.
pub proof fn lemma_announce_only_when_stable(v: FocusView, obs: Seq<(Seq<char>, u64)>, k: int)
    requires
        v.label is None,
        v.since is None,
        0 <= k < obs.len(),
        focus_trace(v, obs).1[k] is Some,
    ensures
        held_stable(obs, k),
{
    lemma_trace_stable(v, obs);
}

/// The observations of `label` at each of `times`.
pub open spec fn repeated(label: Seq<char>, times: Seq<u64>) -> Seq<(Seq<char>, u64)> {
    times.map_values(|t: u64| (label, t))
}

/// After an announcement the window is closed, so observing the same label
/// again, at any instants, announces nothing more.
pub proof fn lemma_no_repeat_announcement(v: FocusView, label: Seq<char>, now: u64, later: Seq<u64>)
    requires
        focus_step(v, label, now).1 is Some,
    ensures
        focus_step(v, label, now).0.since is None,
        forall|k: int| 0 <= k < later.len() ==>
            #[trigger] focus_trace(focus_step(v, label, now).0, repeated(label, later)).1[k] is None,
{
    let v1 = focus_step(v, label, now).0;
    lemma_quiet_run(v1, label, later);
}

proof fn lemma_quiet_run(v: FocusView, label: Seq<char>, later: Seq<u64>)
    requires
        v.label == Some(label),
        v.since is None,
    ensures
        focus_trace(v, repeated(label, later)).0 == v,
        focus_trace(v, repeated(label, later)).1.len() == later.len(),
        forall|k: int| 0 <= k < later.len() ==>
            #[trigger] focus_trace(v, repeated(label, later)).1[k] is None,
    decreases later.len(),
{
    if later.len() > 0 {
        let obs = repeated(label, later);
        assert(obs.drop_last() =~= repeated(label, later.drop_last()));
        lemma_quiet_run(v, label, later.drop_last());
    }
}

/// Debounce state of the focus signal. `last_change_ms` is `None` when no
/// stability window is open.
#[derive(Debug)]
pub struct FocusDebounceState {
    pub last_label: Option<String>,
    pub last_change_ms: Option<u64>,
}

impl View for FocusDebounceState {
    type V = FocusView;

    open spec fn view(&self) -> FocusView {
        FocusView {
            label: match self.last_label {
                Some(l) => Some(l@),
                None => None,
            },
            since: self.last_change_ms,
        }
    }
}

impl FocusDebounceState {
    /// No label seen yet, no window open.
    pub fn new() -> (r: Self)
        ensures
            r@.label is None,
            r@.since is None,
    {
        FocusDebounceState { last_label: None, last_change_ms: None }
    }

    /// Forgets the last label and closes any open window.
    pub fn clear(&mut self)
        ensures
            final(self)@.label is None,
            final(self)@.since is None,
    {
        self.last_label = None;
        self.last_change_ms = None;
    }

    /// Feeds the label of a successful snapshot taken at `now_ms`; returns the
    /// coarse state to announce once the label has held for `STABLE_MS`.
    pub fn observe(&mut self, label: &str, now_ms: u64) -> (r: Option<FocusState>)
        ensures
            (final(self)@, r) == focus_step(old(self)@, label@, now_ms),
    {
        let current = label.to_owned();
        let changed = match &self.last_label {
            Some(prev) => !prev.eq(&current),
            None => true,
        };
        if changed {
            self.last_label = Some(current);
            self.last_change_ms = Some(now_ms);
            None
        } else {
            match self.last_change_ms {
                Some(t) => {
                    if now_ms >= t && now_ms - t >= STABLE_MS {
                        self.last_change_ms = None;
                        Some(focus_state_for(label))
                    } else {
                        None
                    }
                },
                None => None,
            }
        }
    }
}

} // verus!
