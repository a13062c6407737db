//! Guided play: the stored progress per guided scenario (bounded, validated,
//! reset only on a second request), which stage comes next, and the counters
//! of an attempt (actions, turns, hints, retries).
use vstd::prelude::*;

use crate::keyed::{lemma_map_of_contains, lemma_map_of_index, lemma_map_of_push, lemma_map_of_remove, lemma_map_of_update, map_of, unique_keys};
use crate::text::{decimal, decimal_text, same_text};
use vstd::seq_lib::lemma_concat_associative;

verus! {

/// The stored progress format this client reads and writes.
pub const GUIDED_PROGRESS_VERSION: u16 = 1;

/// The most guided scenarios with stored progress.
pub const MAX_PROGRESS_ENTRIES: usize = 256;

/// The largest stored counter.
pub const MAX_METRIC: u32 = 1_000_000;

/// The longest guided scenario identifier, in characters.
pub const MAX_GUIDED_ID_CHARS: usize = 128;

/// What is stored of one guided scenario.
#[derive(Debug, Clone, Copy, PartialEq, Eq, Structural)]
pub struct GuidedMetrics {
    pub completed: bool,
    pub attempts: u16,
    pub retries: u16,
    pub hints_revealed: u16,
    pub best_actions: Option<u16>,
    pub best_turns: Option<u16>,
}

/// Nothing recorded yet.
pub open spec fn fresh_metrics() -> GuidedMetrics {
    GuidedMetrics {
        completed: false,
        attempts: 0,
        retries: 0,
        hints_revealed: 0,
        best_actions: None,
        best_turns: None,
    }
}

impl GuidedMetrics {
    /// Nothing recorded yet.
    pub fn new() -> (metrics: Self)
        ensures
            metrics == fresh_metrics(),
    {
        GuidedMetrics {
            completed: false,
            attempts: 0,
            retries: 0,
            hints_revealed: 0,
            best_actions: None,
            best_turns: None,
        }
    }
}

/// The stored progress: its format and the metrics per guided scenario.
#[derive(Debug)]
pub struct GuidedProgress {
    pub format_version: u16,
    pub entries: Vec<(String, GuidedMetrics)>,
}

/// The entries with their identifiers as text.
pub open spec fn entries_view(entries: Seq<(String, GuidedMetrics)>) -> Seq<(Seq<char>, GuidedMetrics)> {
    entries.map_values(|p: (String, GuidedMetrics)| (p.0@, p.1))
}

/// A change to one scenario's metrics during an attempt.
#[derive(Debug, Clone, Copy, PartialEq, Eq, Structural)]
pub enum MetricChange {
    /// An attempt started.
    Attempt,
    /// A hint was revealed.
    Hint,
    /// The attempt's retries now number this many.
    Retries(u16),
}

/// One more, held at the largest `u16`.
pub open spec fn one_more(n: u16) -> u16 {
    if n == u16::MAX {
        n
    } else {
        (n + 1) as u16
    }
}

/// The metrics recorded of `id`, or nothing recorded when it has no entry.
pub open spec fn recorded_metrics(metrics: Map<Seq<char>, GuidedMetrics>, id: Seq<char>) -> GuidedMetrics {
    if metrics.contains_key(id) {
        metrics[id]
    } else {
        fresh_metrics()
    }
}

/// The metrics after a change.
pub open spec fn changed_metrics(metrics: GuidedMetrics, change: MetricChange) -> GuidedMetrics {
    match change {
        MetricChange::Attempt => GuidedMetrics { attempts: one_more(metrics.attempts), ..metrics },
        MetricChange::Hint => GuidedMetrics { hints_revealed: one_more(metrics.hints_revealed), ..metrics },
        MetricChange::Retries(retries) => GuidedMetrics { retries, ..metrics },
    }
}

impl GuidedProgress {
    /// The metrics per guided scenario identifier.
    pub open spec fn metrics(&self) -> Map<Seq<char>, GuidedMetrics> {
        map_of(entries_view(self.entries@))
    }

    /// Each guided scenario has one entry.
    pub open spec fn well_formed(&self) -> bool {
        unique_keys(entries_view(self.entries@))
    }

    /// Empty progress in the current format.
    pub fn new() -> (progress: Self)
        ensures
            progress.well_formed(),
            progress.format_version == GUIDED_PROGRESS_VERSION,
            progress.metrics() == Map::<Seq<char>, GuidedMetrics>::empty(),
    {
        let progress = GuidedProgress { format_version: GUIDED_PROGRESS_VERSION, entries: Vec::new() };
        assert(entries_view(progress.entries@) =~= Seq::empty());
        progress
    }

    /// The position of the entry of `id`, if it has one.
    pub fn find(&self, id: &str) -> (found: Option<usize>)
        requires
            self.well_formed(),
        ensures
            match found {
                Some(i) => i < self.entries@.len() && self.entries@[i as int].0@ == id@,
                None => !self.metrics().contains_key(id@),
            },
            found is Some <==> self.metrics().contains_key(id@),
    {
        let mut i: usize = 0;
        while i < self.entries.len()
            invariant
                i <= self.entries@.len(),
                forall|j: int| 0 <= j < i ==> self.entries@[j].0@ != id@,
            decreases self.entries.len() - i,
        {
            if same_text(self.entries[i].0.as_str(), id) {
                proof {
                    lemma_map_of_contains(entries_view(self.entries@), id@);
                    assert(entries_view(self.entries@)[i as int].0 == id@);
                }
                return Some(i);
            }
            i = i + 1;
        }
        proof {
            lemma_map_of_contains(entries_view(self.entries@), id@);
            if self.metrics().contains_key(id@) {
                let j = choose|j: int| 0 <= j < entries_view(self.entries@).len() && #[trigger] entries_view(self.entries@)[j].0 == id@;
                assert(self.entries@[j].0@ == id@);
            }
        }
        None
    }

    /// The position of the entry of `id`, added with nothing recorded when
    /// it has none.
    pub fn entry_index(&mut self, id: &str) -> (index: usize)
        requires
            old(self).well_formed(),
        ensures
            final(self).well_formed(),
            index < final(self).entries@.len(),
            final(self).entries@[index as int].0@ == id@,
            final(self).format_version == old(self).format_version,
            final(self).metrics() == (if old(self).metrics().contains_key(id@) {
                old(self).metrics()
            } else {
                old(self).metrics().insert(id@, fresh_metrics())
            }),
    {
        match self.find(id) {
            Some(i) => i,
            None => {
                let ghost before = self.entries@;
                self.entries.push((id.to_owned(), GuidedMetrics::new()));
                proof {
                    assert(entries_view(self.entries@) =~= entries_view(before).push(
                        (id@, fresh_metrics()),
                    ));
                    lemma_map_of_push(entries_view(before), id@, fresh_metrics());
                }
                self.entries.len() - 1
            },
        }
    }

    /// Replaces the metrics at a position.
    pub fn set_metrics(&mut self, index: usize, metrics: GuidedMetrics)
        requires
            old(self).well_formed(),
            index < old(self).entries@.len(),
        ensures
            final(self).well_formed(),
            final(self).format_version == old(self).format_version,
            final(self).entries@.len() == old(self).entries@.len(),
            final(self).entries@[index as int].0@ == old(self).entries@[index as int].0@,
            final(self).metrics() == old(self).metrics().insert(
                old(self).entries@[index as int].0@,
                metrics,
            ),
    {
        let ghost before = self.entries@;
        let id = self.entries[index].0.clone();
        self.entries.set(index, (id, metrics));
        proof {
            let v = entries_view(before);
            assert(entries_view(self.entries@) =~= v.update(index as int, (v[index as int].0, metrics)));
            lemma_map_of_update(v, index as int, metrics);
        }
    }

    /// Forgets the progress of `id`.
    pub fn remove_entry(&mut self, id: &str)
        requires
            old(self).well_formed(),
        ensures
            final(self).well_formed(),
            final(self).format_version == old(self).format_version,
            final(self).metrics() == old(self).metrics().remove(id@),
    {
        match self.find(id) {
            None => {
                assert(self.metrics() =~= self.metrics().remove(id@));
            },
            Some(i) => {
                let ghost before = self.entries@;
                self.entries.remove(i);
                proof {
                    let v = entries_view(before);
                    assert(entries_view(self.entries@) =~= v.remove(i as int));
                    lemma_map_of_remove(v, i as int);
                }
            },
        }
    }

    fn adjust(&mut self, id: &str, change: MetricChange)
        requires
            old(self).well_formed(),
        ensures
            final(self).well_formed(),
            final(self).format_version == old(self).format_version,
            final(self).metrics() == old(self).metrics().insert(
                id@,
                changed_metrics(recorded_metrics(old(self).metrics(), id@), change),
            ),
    {
        let ghost old_metrics = self.metrics();
        let index = self.entry_index(id);
        let current = self.entries[index].1;
        proof {
            lemma_map_of_index(entries_view(self.entries@), index as int);
        }
        let updated = match change {
            MetricChange::Attempt => GuidedMetrics { attempts: current.attempts.saturating_add(1), ..current },
            MetricChange::Hint => GuidedMetrics {
                hints_revealed: current.hints_revealed.saturating_add(1),
                ..current
            },
            MetricChange::Retries(retries) => GuidedMetrics { retries, ..current },
        };
        self.set_metrics(index, updated);
        proof {
            if !old_metrics.contains_key(id@) {
                assert(self.metrics() =~= old_metrics.insert(id@, updated));
            }
        }
    }

    /// Counts one more started attempt of `id` (held at the largest `u16`),
    /// adding its entry when it has none.
    pub fn record_attempt(&mut self, id: &str)
        requires
            old(self).well_formed(),
        ensures
            final(self).well_formed(),
            final(self).format_version == old(self).format_version,
            final(self).metrics() == old(self).metrics().insert(
                id@,
                changed_metrics(recorded_metrics(old(self).metrics(), id@), MetricChange::Attempt),
            ),
    {
        self.adjust(id, MetricChange::Attempt)
    }

    /// Counts one more hint revealed in `id` (held at the largest `u16`).
    pub fn record_hint(&mut self, id: &str)
        requires
            old(self).well_formed(),
        ensures
            final(self).well_formed(),
            final(self).format_version == old(self).format_version,
            final(self).metrics() == old(self).metrics().insert(
                id@,
                changed_metrics(recorded_metrics(old(self).metrics(), id@), MetricChange::Hint),
            ),
    {
        self.adjust(id, MetricChange::Hint)
    }

    /// Stores the retries of the running attempt of `id`.
    pub fn record_retries(&mut self, id: &str, retries: u16)
        requires
            old(self).well_formed(),
        ensures
            final(self).well_formed(),
            final(self).format_version == old(self).format_version,
            final(self).metrics() == old(self).metrics().insert(
                id@,
                changed_metrics(
                    recorded_metrics(old(self).metrics(), id@),
                    MetricChange::Retries(retries),
                ),
            ),
    {
        self.adjust(id, MetricChange::Retries(retries))
    }

    /// Records a completed attempt of `id`: completed, the most retries seen,
    /// and the fewest actions and turns when the scenario records them.
    pub fn record_completion(
        &mut self,
        id: &str,
        retries: u16,
        total_actions: u16,
        total_turns: u16,
        records_best_actions: bool,
        records_best_turns: bool,
    )
        requires
            old(self).well_formed(),
        ensures
            final(self).well_formed(),
            final(self).format_version == old(self).format_version,
            ({
                let before = if old(self).metrics().contains_key(id@) {
                    old(self).metrics()[id@]
                } else {
                    fresh_metrics()
                };
                final(self).metrics() == old(self).metrics().insert(
                    id@,
                    completed_metrics(
                        before,
                        retries,
                        total_actions,
                        total_turns,
                        records_best_actions,
                        records_best_turns,
                    ),
                )
            }),
    {
        let ghost old_metrics = self.metrics();
        let index = self.entry_index(id);
        let current = self.entries[index].1;
        proof {
            lemma_map_of_index(entries_view(self.entries@), index as int);
        }
        let updated = complete_metrics(
            current,
            retries,
            total_actions,
            total_turns,
            records_best_actions,
            records_best_turns,
        );
        self.set_metrics(index, updated);
        proof {
            if !old_metrics.contains_key(id@) {
                assert(self.metrics() =~= old_metrics.insert(id@, updated));
            }
        }
    }

    /// Checks the stored progress: the current format, at most 256 entries,
    /// each named by 1 to 128 characters with counters within bounds.
    pub fn validate_entries(&self) -> (result: Result<(), String>)
        ensures
            result is Ok <==> entries_valid(self.format_version, self.entries@),
            self.format_version != GUIDED_PROGRESS_VERSION ==> result is Err,
            self.format_version == GUIDED_PROGRESS_VERSION && self.entries@.len()
                > MAX_PROGRESS_ENTRIES ==> result is Err && result->Err_0@
                == "guided progress contains too many entries"@,
    {
        if self.format_version != GUIDED_PROGRESS_VERSION {
            return Err(String::from_str("guided progress format is unsupported"));
        }
        if self.entries.len() > MAX_PROGRESS_ENTRIES {
            return Err(String::from_str("guided progress contains too many entries"));
        }
        let mut i: usize = 0;
        while i < self.entries.len()
            invariant
                i <= self.entries@.len(),
                self.entries@.len() <= MAX_PROGRESS_ENTRIES,
                self.format_version == GUIDED_PROGRESS_VERSION,
                forall|j: int| 0 <= j < i ==> entry_valid(#[trigger] self.entries@[j]),
            decreases self.entries.len() - i,
        {
            let (id, metrics) = (&self.entries[i].0, self.entries[i].1);
            let n = id.unicode_len();
            if n == 0 || n > MAX_GUIDED_ID_CHARS || metrics.attempts as u32 > MAX_METRIC
                || metrics.retries as u32 > MAX_METRIC || metrics.hints_revealed as u32
                > MAX_METRIC {
                assert(!entry_valid(self.entries@[i as int]));
                return Err(String::from_str("guided progress contains invalid bounded metrics"));
            }
            i = i + 1;
        }
        Ok(())
    }
}

/// Whether one stored entry is within bounds.
pub open spec fn entry_valid(entry: (String, GuidedMetrics)) -> bool {
    &&& 0 < entry.0@.len() <= MAX_GUIDED_ID_CHARS
    &&& entry.1.attempts <= MAX_METRIC
    &&& entry.1.retries <= MAX_METRIC
    &&& entry.1.hints_revealed <= MAX_METRIC
}

/// Whether stored progress may be used.
pub open spec fn entries_valid(format_version: u16, entries: Seq<(String, GuidedMetrics)>) -> bool {
    &&& format_version == GUIDED_PROGRESS_VERSION
    &&& entries.len() <= MAX_PROGRESS_ENTRIES
    &&& forall|j: int| 0 <= j < entries.len() ==> entry_valid(#[trigger] entries[j])
}

/// The smaller of a recorded best and a new result; the new result when none
/// was recorded.
pub open spec fn best_of(best: Option<u16>, latest: u16) -> u16 {
    match best {
        Some(b) => if b < latest {
            b
        } else {
            latest
        },
        None => latest,
    }
}

/// The metrics after a completed attempt.
pub open spec fn completed_metrics(
    metrics: GuidedMetrics,
    retries: u16,
    total_actions: u16,
    total_turns: u16,
    records_best_actions: bool,
    records_best_turns: bool,
) -> GuidedMetrics {
    GuidedMetrics {
        completed: true,
        retries: if metrics.retries < retries {
            retries
        } else {
            metrics.retries
        },
        best_actions: if records_best_actions {
            Some(best_of(metrics.best_actions, total_actions))
        } else {
            metrics.best_actions
        },
        best_turns: if records_best_turns {
            Some(best_of(metrics.best_turns, total_turns))
        } else {
            metrics.best_turns
        },
        ..metrics
    }
}

/// Updates metrics for a completed attempt.
pub fn complete_metrics(
    metrics: GuidedMetrics,
    retries: u16,
    total_actions: u16,
    total_turns: u16,
    records_best_actions: bool,
    records_best_turns: bool,
) -> (updated: GuidedMetrics)
    ensures
        updated == completed_metrics(
            metrics,
            retries,
            total_actions,
            total_turns,
            records_best_actions,
            records_best_turns,
        ),
{
    let best_actions = if records_best_actions {
        Some(
            match metrics.best_actions {
                Some(b) => if b < total_actions {
                    b
                } else {
                    total_actions
                },
                None => total_actions,
            },
        )
    } else {
        metrics.best_actions
    };
    let best_turns = if records_best_turns {
        Some(
            match metrics.best_turns {
                Some(b) => if b < total_turns {
                    b
                } else {
                    total_turns
                },
                None => total_turns,
            },
        )
    } else {
        metrics.best_turns
    };
    GuidedMetrics {
        completed: true,
        retries: if metrics.retries < retries {
            retries
        } else {
            metrics.retries
        },
        best_actions,
        best_turns,
        ..metrics
    }
}

/// A best result only ever improves: after any completed attempt it is at
/// most what it was and at most the attempt's own result.
pub proof fn law_best_results_only_improve(
    metrics: GuidedMetrics,
    retries: u16,
    total_actions: u16,
    total_turns: u16,
)
    ensures
        ({
            let after = completed_metrics(metrics, retries, total_actions, total_turns, true, true);
            &&& after.completed
            &&& after.best_actions matches Some(b) && b <= total_actions && (
            metrics.best_actions matches Some(old_best) ==> b <= old_best)
            &&& after.best_turns matches Some(t) && t <= total_turns && (
            metrics.best_turns matches Some(old_best) ==> t <= old_best)
            &&& after.retries >= metrics.retries && after.retries >= retries
        }),
{
}

/// What a reset request did.
#[derive(Debug, Clone, Copy, PartialEq, Eq, Structural)]
pub enum ResetOutcome {
    /// The first request: armed, nothing removed.
    Armed,
    /// The second request for the same scenario: its progress is gone, and
    /// so is the saved attempt when it belongs to that scenario.
    Reset { clear_resume: bool },
}

/// Resets the progress of `guided_id` only when a reset of the same scenario
/// was already armed; otherwise arms it. A reset disarms.
pub fn request_progress_reset(
    progress: &mut GuidedProgress,
    armed: &mut Option<String>,
    guided_id: &str,
    resume_guided_id: Option<&str>,
) -> (outcome: ResetOutcome)
    requires
        old(progress).well_formed(),
    ensures
        final(progress).well_formed(),
        final(progress).format_version == old(progress).format_version,
        (match *old(armed) {
            Some(a) => a@ == guided_id@,
            None => false,
        }) ==> {
            &&& outcome == ResetOutcome::Reset {
                clear_resume: match resume_guided_id {
                    Some(r) => r@ == guided_id@,
                    None => false,
                },
            }
            &&& final(progress).metrics() == old(progress).metrics().remove(guided_id@)
            &&& *final(armed) is None
        },
        !(match *old(armed) {
            Some(a) => a@ == guided_id@,
            None => false,
        }) ==> {
            &&& outcome == ResetOutcome::Armed
            &&& final(progress).metrics() == old(progress).metrics()
            &&& *final(armed) matches Some(a) && a@ == guided_id@
        },
{
    let same = match armed {
        Some(a) => same_text(a.as_str(), guided_id),
        None => false,
    };
    if !same {
        *armed = Some(guided_id.to_owned());
        return ResetOutcome::Armed;
    }
    progress.remove_entry(guided_id);
    let clear_resume = match resume_guided_id {
        Some(r) => same_text(r, guided_id),
        None => false,
    };
    *armed = None;
    ResetOutcome::Reset { clear_resume }
}

/// A stage as the guided content lists it: its identifier and the stages it
/// requires first.
#[derive(Debug)]
pub struct StageOutline {
    pub id: String,
    pub prerequisites: Vec<String>,
}

/// Whether a list of texts holds `t`.
pub open spec fn holds_text(list: Seq<String>, t: Seq<char>) -> bool {
    exists|j: int| 0 <= j < list.len() && #[trigger] list[j]@ == t
}

/// Whether a stage may be played: not completed, and every prerequisite is.
pub open spec fn stage_available(stage: StageOutline, completed: Seq<String>) -> bool {
    &&& !holds_text(completed, stage.id@)
    &&& forall|k: int| 0 <= k < stage.prerequisites@.len() ==> holds_text(
        completed,
        #[trigger] stage.prerequisites@[k]@,
    )
}

fn text_in(list: &[String], t: &str) -> (found: bool)
    ensures
        found == holds_text(list@, t@),
{
    let mut i: usize = 0;
    while i < list.len()
        invariant
            i <= list@.len(),
            forall|j: int| 0 <= j < i ==> list@[j]@ != t@,
        decreases list.len() - i,
    {
        if same_text(list[i].as_str(), t) {
            return true;
        }
        i = i + 1;
    }
    false
}

fn available(stage: &StageOutline, completed: &[String]) -> (ok: bool)
    ensures
        ok == stage_available(*stage, completed@),
{
    if text_in(completed, stage.id.as_str()) {
        return false;
    }
    let mut k: usize = 0;
    while k < stage.prerequisites.len()
        invariant
            k <= stage.prerequisites@.len(),
            forall|m: int| 0 <= m < k ==> holds_text(completed@, #[trigger] stage.prerequisites@[m]@),
        decreases stage.prerequisites.len() - k,
    {
        if !text_in(completed, stage.prerequisites[k].as_str()) {
            return false;
        }
        k = k + 1;
    }
    true
}

/// The first stage that may be played next, if any.
pub fn first_available_stage(stages: &[StageOutline], completed: &[String]) -> (next: Option<usize>)
    ensures
        match next {
            Some(i) => i < stages@.len() && stage_available(stages@[i as int], completed@)
                && forall|j: int| 0 <= j < i ==> !stage_available(#[trigger] stages@[j], completed@),
            None => forall|j: int| 0 <= j < stages@.len() ==> !stage_available(#[trigger] stages@[j], completed@),
        },
{
    let mut i: usize = 0;
    while i < stages.len()
        invariant
            i <= stages@.len(),
            forall|j: int| 0 <= j < i ==> !stage_available(#[trigger] stages@[j], completed@),
        decreases stages.len() - i,
    {
        if available(&stages[i], completed) {
            return Some(i);
        }
        i = i + 1;
    }
    None
}

/// The scenario shown after moving the browser selection, cycling through
/// `count` (none at all keeps the first).
pub fn select_relative(selected: usize, count: usize, backwards: bool) -> (next: usize)
    ensures
        count == 0 ==> next == 0,
        count > 0 && selected < count ==> next == (if backwards {
            (selected + count - 1) % (count as int)
        } else {
            (selected + 1) % (count as int)
        }),
        count > 0 ==> next < count,
{
    if count == 0 {
        return 0;
    }
    let s = if selected < count {
        selected
    } else {
        selected % count
    };
    if backwards {
        let r = if s == 0 {
            count - 1
        } else {
            s - 1
        };
        proof {
            if selected < count {
                let c = count as int;
                if s == 0 {
                    vstd::arithmetic::div_mod::lemma_small_mod((c - 1) as nat, c as nat);
                } else {
                    vstd::arithmetic::div_mod::lemma_mod_add_multiples_vanish(s - 1, c);
                    vstd::arithmetic::div_mod::lemma_small_mod((s - 1) as nat, c as nat);
                }
            }
        }
        r
    } else {
        let r = if s + 1 == count {
            0
        } else {
            s + 1
        };
        proof {
            if selected < count {
                let c = count as int;
                if s + 1 == count {
                    vstd::arithmetic::div_mod::lemma_mod_self_0(c);
                } else {
                    vstd::arithmetic::div_mod::lemma_small_mod((s + 1) as nat, c as nat);
                }
            }
        }
        r
    }
}

/// The counters of a guided attempt.
#[derive(Debug)]
pub struct GuidedSession {
    pub stage_index: usize,
    pub hint_reveals: Vec<u8>,
    pub actions_taken: u16,
    pub turns_elapsed: u16,
    pub total_actions: u16,
    pub total_turns: u16,
    pub ai_actions_taken: u16,
    pub retries: u16,
    pub failed: bool,
    pub complete: bool,
    pub last_turn_number: u64,
}

/// How the current stage's objective stands after a transition.
#[derive(Debug, Clone, Copy, PartialEq, Eq, Structural)]
pub enum ObjectiveResult {
    InProgress,
    Failed,
    Succeeded,
    EvaluationFailed,
}

/// A `u16` counter increased by one, held at its largest value.
pub open spec fn bumped(n: u16) -> u16 {
    if n == u16::MAX {
        u16::MAX
    } else {
        (n + 1) as u16
    }
}

/// A `u16` counter increased by `k`, held at its largest value.
pub open spec fn raised(n: u16, k: u16) -> u16 {
    if n + k > u16::MAX {
        u16::MAX
    } else {
        (n + k) as u16
    }
}

/// The turns elapsed since `last`, held within a `u16`.
pub open spec fn elapsed_turns(turn: u64, last: u64) -> u16 {
    if turn <= last {
        0
    } else if turn - last > u16::MAX {
        u16::MAX
    } else {
        (turn - last) as u16
    }
}

impl GuidedSession {
    /// Counts one transition of the match: an action (and whether the guide's
    /// computer side played it) and the turns elapsed since the last one.
    /// Nothing is counted once the attempt failed or completed.
    pub fn count_transition(&mut self, had_action: bool, guide_side_moved: bool, turn_number: u64)
        ensures
            old(self).failed || old(self).complete ==> final(self).actions_taken == old(self).actions_taken && final(self).turns_elapsed == old(self).turns_elapsed
                && final(self).last_turn_number == old(self).last_turn_number
                && final(self).total_actions == old(self).total_actions,
            !(old(self).failed || old(self).complete) ==> {
                let turns = elapsed_turns(turn_number, old(self).last_turn_number);
                &&& final(self).actions_taken == (if had_action {
                    bumped(old(self).actions_taken)
                } else {
                    old(self).actions_taken
                })
                &&& final(self).total_actions == (if had_action {
                    bumped(old(self).total_actions)
                } else {
                    old(self).total_actions
                })
                &&& final(self).ai_actions_taken == (if had_action && guide_side_moved {
                    bumped(old(self).ai_actions_taken)
                } else {
                    old(self).ai_actions_taken
                })
                &&& final(self).turns_elapsed == raised(old(self).turns_elapsed, turns)
                &&& final(self).total_turns == raised(old(self).total_turns, turns)
                &&& final(self).last_turn_number == turn_number
            },
            final(self).stage_index == old(self).stage_index,
            final(self).hint_reveals@ == old(self).hint_reveals@,
            final(self).failed == old(self).failed,
            final(self).complete == old(self).complete,
            final(self).retries == old(self).retries,
    {
        if self.failed || self.complete {
            return;
        }
        if had_action {
            self.actions_taken = self.actions_taken.saturating_add(1);
            self.total_actions = self.total_actions.saturating_add(1);
            if guide_side_moved {
                self.ai_actions_taken = self.ai_actions_taken.saturating_add(1);
            }
        }
        let turns: u16 = if turn_number <= self.last_turn_number {
            0
        } else if turn_number - self.last_turn_number > 65535 {
            65535
        } else {
            (turn_number - self.last_turn_number) as u16
        };
        self.turns_elapsed = self.turns_elapsed.saturating_add(turns);
        self.total_turns = self.total_turns.saturating_add(turns);
        self.last_turn_number = turn_number;
    }

    /// Takes the result of the stage objective: failing it (or being unable
    /// to judge it) fails the attempt; meeting it moves to `next_stage`
    /// (restarting the stage counters from `turn_number`) or completes the
    /// attempt.
    pub fn apply_objective(&mut self, result: ObjectiveResult, next_stage: Option<usize>, turn_number: u64)
        ensures
            match result {
                ObjectiveResult::InProgress => final(self).failed == old(self).failed
                    && final(self).complete == old(self).complete && final(self).stage_index
                    == old(self).stage_index,
                ObjectiveResult::Failed | ObjectiveResult::EvaluationFailed => final(self).failed
                    && final(self).complete == old(self).complete && final(self).stage_index
                    == old(self).stage_index,
                ObjectiveResult::Succeeded => match next_stage {
                    Some(next) => final(self).stage_index == next && final(self).actions_taken
                        == 0 && final(self).turns_elapsed == 0 && final(self).last_turn_number
                        == turn_number && final(self).complete == old(self).complete
                        && final(self).failed == old(self).failed,
                    None => final(self).complete && final(self).stage_index == old(self).stage_index && final(self).failed == old(self).failed,
                },
            },
            final(self).total_actions == old(self).total_actions,
            final(self).total_turns == old(self).total_turns,
            final(self).retries == old(self).retries,
            final(self).hint_reveals@ == old(self).hint_reveals@,
    {
        match result {
            ObjectiveResult::InProgress => {},
            ObjectiveResult::Failed | ObjectiveResult::EvaluationFailed => {
                self.failed = true;
            },
            ObjectiveResult::Succeeded => match next_stage {
                Some(next) => {
                    self.stage_index = next;
                    self.actions_taken = 0;
                    self.turns_elapsed = 0;
                    self.last_turn_number = turn_number;
                },
                None => {
                    self.complete = true;
                },
            },
        }
    }

    /// Reveals one more hint of the current stage, which has `available`
    /// hints; gives the number now revealed, or nothing when all are.
    pub fn reveal_hint(&mut self, available: usize) -> (revealed: Option<u8>)
        requires
            old(self).stage_index < old(self).hint_reveals@.len(),
        ensures
            ({
                let current = old(self).hint_reveals@[old(self).stage_index as int];
                &&& (current as int) < available ==> revealed == Some(
                    (if current == u8::MAX {
                        u8::MAX
                    } else {
                        (current + 1) as u8
                    }),
                ) && final(self).hint_reveals@ == old(self).hint_reveals@.update(
                    old(self).stage_index as int,
                    revealed->0,
                )
                &&& (current as int) >= available ==> revealed is None && final(self).hint_reveals@ == old(self).hint_reveals@
            }),
            final(self).stage_index == old(self).stage_index,
            final(self).actions_taken == old(self).actions_taken,
            final(self).failed == old(self).failed,
            final(self).complete == old(self).complete,
    {
        let current = self.hint_reveals[self.stage_index];
        if (current as usize) < available {
            let next = current.saturating_add(1);
            self.hint_reveals.set(self.stage_index, next);
            Some(next)
        } else {
            None
        }
    }

    /// Restores the stage's start: its counters restart from `turn_number`,
    /// the verdict is cleared, and one more retry is counted.
    pub fn retry(&mut self, turn_number: u64)
        ensures
            final(self).actions_taken == 0,
            final(self).turns_elapsed == 0,
            final(self).last_turn_number == turn_number,
            !final(self).failed,
            !final(self).complete,
            final(self).retries == bumped(old(self).retries),
            final(self).stage_index == old(self).stage_index,
            final(self).total_actions == old(self).total_actions,
            final(self).total_turns == old(self).total_turns,
            final(self).hint_reveals@ == old(self).hint_reveals@,
    {
        self.actions_taken = 0;
        self.turns_elapsed = 0;
        self.last_turn_number = turn_number;
        self.failed = false;
        self.complete = false;
        self.retries = self.retries.saturating_add(1);
    }
}

/// A control of guided play.
#[derive(Debug, Clone, Copy, PartialEq, Eq, Structural)]
pub enum GuidedControl {
    Open,
    Previous,
    Next,
    Start,
    Resume,
    Reset,
    Close,
    Hint,
    Retry,
    Replay,
    Leave,
}

/// The guided-play keys pressed this frame.
#[derive(Debug, Clone, Copy, PartialEq, Eq, Structural)]
pub struct GuidedKeys {
    pub open: bool,
    pub previous: bool,
    pub next: bool,
    pub start: bool,
    pub resume: bool,
    pub reset: bool,
    pub escape: bool,
    pub hint: bool,
    pub retry: bool,
}

/// A control when its key was pressed, else nothing.
pub open spec fn when(pressed: bool, control: GuidedControl) -> Seq<GuidedControl> {
    if pressed {
        seq![control]
    } else {
        Seq::empty()
    }
}

/// The controls of the keys while the browser is open.
pub open spec fn browser_keys(keys: GuidedKeys) -> Seq<GuidedControl> {
    when(keys.previous, GuidedControl::Previous) + when(keys.next, GuidedControl::Next) + when(
        keys.start,
        GuidedControl::Start,
    ) + when(keys.resume, GuidedControl::Resume) + when(keys.reset, GuidedControl::Reset) + when(
        keys.escape,
        GuidedControl::Close,
    )
}

/// The controls of the keys during an attempt.
pub open spec fn attempt_keys(keys: GuidedKeys) -> Seq<GuidedControl> {
    when(keys.hint, GuidedControl::Hint) + when(keys.retry, GuidedControl::Retry) + when(
        keys.escape,
        GuidedControl::Leave,
    )
}

/// The controls the keys add after the pressed buttons: opening the browser
/// from setup; browsing, starting, resuming, resetting or closing while it is
/// open; otherwise, during an attempt that is being played or has ended, a
/// hint, a retry or leaving.
pub open spec fn key_controls(keys: GuidedKeys, in_setup: bool, browser_open: bool, playing_attempt: bool) -> Seq<GuidedControl> {
    when(in_setup && !browser_open && keys.open, GuidedControl::Open) + if browser_open {
        browser_keys(keys)
    } else if playing_attempt {
        attempt_keys(keys)
    } else {
        Seq::empty()
    }
}

fn push_if(controls: &mut Vec<GuidedControl>, pressed: bool, control: GuidedControl)
    ensures
        final(controls)@ == old(controls)@ + when(pressed, control),
{
    if pressed {
        controls.push(control);
    }
    assert(final(controls)@ =~= old(controls)@ + when(pressed, control));
}

fn push_browser_keys(controls: &mut Vec<GuidedControl>, keys: &GuidedKeys)
    ensures
        final(controls)@ == old(controls)@ + browser_keys(*keys),
{
    let ghost start = controls@;
    let ghost w1 = when(keys.previous, GuidedControl::Previous);
    let ghost w2 = when(keys.next, GuidedControl::Next);
    let ghost w3 = when(keys.start, GuidedControl::Start);
    let ghost w4 = when(keys.resume, GuidedControl::Resume);
    let ghost w5 = when(keys.reset, GuidedControl::Reset);
    let ghost w6 = when(keys.escape, GuidedControl::Close);
    push_if(controls, keys.previous, GuidedControl::Previous);
    push_if(controls, keys.next, GuidedControl::Next);
    proof { lemma_concat_associative(start, w1, w2); }
    push_if(controls, keys.start, GuidedControl::Start);
    proof { lemma_concat_associative(start, w1 + w2, w3); }
    push_if(controls, keys.resume, GuidedControl::Resume);
    proof { lemma_concat_associative(start, w1 + w2 + w3, w4); }
    push_if(controls, keys.reset, GuidedControl::Reset);
    proof { lemma_concat_associative(start, w1 + w2 + w3 + w4, w5); }
    push_if(controls, keys.escape, GuidedControl::Close);
    proof { lemma_concat_associative(start, w1 + w2 + w3 + w4 + w5, w6); }
}

fn push_attempt_keys(controls: &mut Vec<GuidedControl>, keys: &GuidedKeys)
    ensures
        final(controls)@ == old(controls)@ + attempt_keys(*keys),
{
    let ghost start = controls@;
    let ghost w1 = when(keys.hint, GuidedControl::Hint);
    let ghost w2 = when(keys.retry, GuidedControl::Retry);
    let ghost w3 = when(keys.escape, GuidedControl::Leave);
    push_if(controls, keys.hint, GuidedControl::Hint);
    push_if(controls, keys.retry, GuidedControl::Retry);
    proof { lemma_concat_associative(start, w1, w2); }
    push_if(controls, keys.escape, GuidedControl::Leave);
    proof { lemma_concat_associative(start, w1 + w2, w3); }
}

fn copy_controls(pressed: &[GuidedControl]) -> (controls: Vec<GuidedControl>)
    ensures
        controls@ == pressed@,
{
    let mut controls: Vec<GuidedControl> = Vec::new();
    let mut i: usize = 0;
    while i < pressed.len()
        invariant
            i <= pressed@.len(),
            controls@ == pressed@.subrange(0, i as int),
        decreases pressed.len() - i,
    {
        controls.push(pressed[i]);
        assert(pressed@.subrange(0, i + 1) =~= pressed@.subrange(0, i as int).push(pressed@[i as int]));
        i = i + 1;
    }
    assert(pressed@.subrange(0, pressed@.len() as int) =~= pressed@);
    controls
}

/// The controls of one frame: the pressed buttons, then those of the keys.
#[verifier::spinoff_prover]
pub fn guided_controls(
    pressed: &[GuidedControl],
    keys: &GuidedKeys,
    in_setup: bool,
    browser_open: bool,
    playing_attempt: bool,
) -> (controls: Vec<GuidedControl>)
    ensures
        controls@ == pressed@ + key_controls(*keys, in_setup, browser_open, playing_attempt),
{
    let mut controls = copy_controls(pressed);
    push_if(&mut controls, in_setup && !browser_open && keys.open, GuidedControl::Open);
    let ghost after_open = controls@;
    if browser_open {
        push_browser_keys(&mut controls, keys);
    } else if playing_attempt {
        push_attempt_keys(&mut controls, keys);
    }
    assert(controls@ =~= pressed@ + key_controls(*keys, in_setup, browser_open, playing_attempt));
    controls
}

/// What one control does in the state it meets.
#[derive(Debug, Clone, Copy, PartialEq, Eq, Structural)]
pub struct GuidedStep {
    /// The control takes effect.
    pub applies: bool,
    /// A pending computer search must be cancelled.
    pub cancels_search: bool,
    /// The progress must be saved at the end of the frame.
    pub persists: bool,
}

/// Whether a control takes effect: opening only from setup, browsing only
/// with the browser open; hints, retries, replays and leaving always.
pub open spec fn control_applies(control: GuidedControl, in_setup: bool, browser_open: bool) -> bool {
    match control {
        GuidedControl::Open => in_setup,
        GuidedControl::Previous | GuidedControl::Next | GuidedControl::Start
        | GuidedControl::Resume | GuidedControl::Reset | GuidedControl::Close => browser_open,
        _ => true,
    }
}

/// What one control does in the state it meets.
pub fn guided_step(control: GuidedControl, in_setup: bool, browser_open: bool) -> (step: GuidedStep)
    ensures
        step.applies == control_applies(control, in_setup, browser_open),
        step.cancels_search == (step.applies && (control == GuidedControl::Start || control
            == GuidedControl::Resume || control == GuidedControl::Retry || control
            == GuidedControl::Replay || control == GuidedControl::Leave)),
        step.persists == (control == GuidedControl::Hint),
{
    let applies = match control {
        GuidedControl::Open => in_setup,
        GuidedControl::Previous | GuidedControl::Next | GuidedControl::Start
        | GuidedControl::Resume | GuidedControl::Reset | GuidedControl::Close => browser_open,
        _ => true,
    };
    let cancels = match control {
        GuidedControl::Start | GuidedControl::Resume | GuidedControl::Retry
        | GuidedControl::Replay | GuidedControl::Leave => true,
        _ => false,
    };
    GuidedStep {
        applies,
        cancels_search: applies && cancels,
        persists: match control {
            GuidedControl::Hint => true,
            _ => false,
        },
    }
}

/// A guided scenario as a saved attempt is checked against it: its
/// identifier and, per stage, the stage's identifier and number of hints.
#[derive(Debug)]
pub struct GuidedOutline {
    pub id: String,
    pub stage_ids: Vec<String>,
    pub hint_counts: Vec<usize>,
}

/// What a saved attempt says of its place in a guided scenario.
#[derive(Debug)]
pub struct ResumeMeta {
    pub guided_id: String,
    pub stage_index: usize,
    pub completed_stage_ids: Vec<String>,
    pub hint_reveals: Vec<u8>,
}

/// Whether a saved attempt fits its guided scenario: the same scenario, a
/// stage that exists, one hint count per stage within that stage's hints,
/// and completed stages that exist and are listed once.
pub open spec fn resume_fits(outline: GuidedOutline, resume: ResumeMeta) -> bool {
    let stages = outline.stage_ids@;
    let done = resume.completed_stage_ids@;
    &&& outline.hint_counts@.len() == stages.len()
    &&& outline.id@ == resume.guided_id@
    &&& resume.stage_index < stages.len()
    &&& resume.hint_reveals@.len() == stages.len()
    &&& done.len() <= stages.len()
    &&& forall|i: int, j: int| 0 <= i < j < done.len() ==> #[trigger] done[i]@ != #[trigger] done[j]@
    &&& forall|i: int| 0 <= i < done.len() ==> holds_text(stages, #[trigger] done[i]@)
    &&& forall|i: int| 0 <= i < stages.len() ==> #[trigger] resume.hint_reveals@[i] as int <= outline.hint_counts@[i]
}

fn all_distinct(items: &[String]) -> (distinct: bool)
    ensures
        distinct == forall|i: int, j: int| 0 <= i < j < items@.len() ==> #[trigger] items@[i]@ != #[trigger] items@[j]@,
{
    let n = items.len();
    let mut i: usize = 0;
    while i < n
        invariant
            i <= n == items@.len(),
            forall|a: int, b: int| 0 <= a < b < items@.len() && a < i ==> #[trigger] items@[a]@ != #[trigger] items@[b]@,
        decreases n - i,
    {
        let mut j: usize = i + 1;
        while j < n
            invariant
                i < j <= n,
                n == items@.len(),
                forall|a: int, b: int| 0 <= a < b < items@.len() && a < i ==> #[trigger] items@[a]@ != #[trigger] items@[b]@,
                forall|b: int| i < b < j ==> items@[i as int]@ != #[trigger] items@[b]@,
            decreases n - j,
        {
            if same_text(items[i].as_str(), items[j].as_str()) {
                return false;
            }
            j = j + 1;
        }
        i = i + 1;
    }
    true
}

fn all_known(items: &[String], known: &[String]) -> (ok: bool)
    ensures
        ok == forall|i: int| 0 <= i < items@.len() ==> holds_text(known@, #[trigger] items@[i]@),
{
    let mut i: usize = 0;
    while i < items.len()
        invariant
            i <= items@.len(),
            forall|k: int| 0 <= k < i ==> holds_text(known@, #[trigger] items@[k]@),
        decreases items.len() - i,
    {
        if !text_in(known, items[i].as_str()) {
            return false;
        }
        i = i + 1;
    }
    true
}

fn reveals_within(reveals: &[u8], limits: &[usize]) -> (ok: bool)
    requires
        reveals@.len() == limits@.len(),
    ensures
        ok == forall|i: int| 0 <= i < limits@.len() ==> #[trigger] reveals@[i] as int <= limits@[i],
{
    let mut i: usize = 0;
    while i < limits.len()
        invariant
            i <= limits@.len(),
            reveals@.len() == limits@.len(),
            forall|k: int| 0 <= k < i ==> #[trigger] reveals@[k] as int <= limits@[k],
        decreases limits.len() - i,
    {
        if reveals[i] as usize > limits[i] {
            return false;
        }
        i = i + 1;
    }
    true
}

/// Checks a saved attempt against its guided scenario.
pub fn resume_consistent(outline: &GuidedOutline, resume: &ResumeMeta) -> (fits: bool)
    ensures
        fits == resume_fits(*outline, *resume),
{
    let stages = outline.stage_ids.len();
    outline.hint_counts.len() == stages && same_text(outline.id.as_str(), resume.guided_id.as_str())
        && resume.stage_index < stages && resume.hint_reveals.len() == stages
        && resume.completed_stage_ids.len() <= stages && all_distinct(
        resume.completed_stage_ids.as_slice(),
    ) && all_known(resume.completed_stage_ids.as_slice(), outline.stage_ids.as_slice())
        && reveals_within(resume.hint_reveals.as_slice(), outline.hint_counts.as_slice())
}

/// A message of the guided runtime.
#[derive(Debug, Clone, Copy, PartialEq, Eq, Structural)]
pub enum GuidedNotice {
    NoScenarios,
    NoSelection,
    ScenarioInvalid,
    NoResume,
    ResumeOtherScenario,
    ResumeScenarioMalformed,
    ContentChanged,
    ResumeStateInvalid,
    Started,
    Resumed,
    StageRestored,
    ResetArmed,
    ResetApplied,
    NoFurtherHints,
}

/// The text of a guided message.
pub open spec fn guided_notice_message(notice: GuidedNotice) -> Seq<char> {
    match notice {
        GuidedNotice::NoScenarios => "No guided scenarios are installed."@,
        GuidedNotice::NoSelection => "No guided scenario is selected."@,
        GuidedNotice::ScenarioInvalid => "This guided scenario no longer validates."@,
        GuidedNotice::NoResume => "No guided attempt is available to resume."@,
        GuidedNotice::ResumeOtherScenario => "The saved attempt belongs to another guided scenario."@,
        GuidedNotice::ResumeScenarioMalformed => "The guided resume scenario is malformed."@,
        GuidedNotice::ContentChanged => "Guided content changed; start a fresh attempt."@,
        GuidedNotice::ResumeStateInvalid => "The guided resume state failed canonical validation."@,
        GuidedNotice::Started => "Guided attempt started."@,
        GuidedNotice::Resumed => "Guided attempt resumed from its exact canonical state."@,
        GuidedNotice::StageRestored => "Stage restored to its canonical starting state."@,
        GuidedNotice::ResetArmed => "Reset is armed but not applied. Press Reset again to confirm."@,
        GuidedNotice::ResetApplied => "Guided progress reset; ordinary save slots were untouched."@,
        GuidedNotice::NoFurtherHints => "No further hints are available for this stage."@,
    }
}

/// The text of a guided message.
pub fn guided_notice_text(notice: GuidedNotice) -> (text: &'static str)
    ensures
        text@ == guided_notice_message(notice),
{
    match notice {
        GuidedNotice::NoScenarios => "No guided scenarios are installed.",
        GuidedNotice::NoSelection => "No guided scenario is selected.",
        GuidedNotice::ScenarioInvalid => "This guided scenario no longer validates.",
        GuidedNotice::NoResume => "No guided attempt is available to resume.",
        GuidedNotice::ResumeOtherScenario => "The saved attempt belongs to another guided scenario.",
        GuidedNotice::ResumeScenarioMalformed => "The guided resume scenario is malformed.",
        GuidedNotice::ContentChanged => "Guided content changed; start a fresh attempt.",
        GuidedNotice::ResumeStateInvalid => "The guided resume state failed canonical validation.",
        GuidedNotice::Started => "Guided attempt started.",
        GuidedNotice::Resumed => "Guided attempt resumed from its exact canonical state.",
        GuidedNotice::StageRestored => "Stage restored to its canonical starting state.",
        GuidedNotice::ResetArmed => "Reset is armed but not applied. Press Reset again to confirm.",
        GuidedNotice::ResetApplied => "Guided progress reset; ordinary save slots were untouched.",
        GuidedNotice::NoFurtherHints => "No further hints are available for this stage.",
    }
}

/// What a reset request tells the player.
pub fn reset_notice(outcome: ResetOutcome) -> (notice: GuidedNotice)
    ensures
        notice == match outcome {
            ResetOutcome::Armed => GuidedNotice::ResetArmed,
            ResetOutcome::Reset { .. } => GuidedNotice::ResetApplied,
        },
{
    match outcome {
        ResetOutcome::Armed => GuidedNotice::ResetArmed,
        ResetOutcome::Reset { .. } => GuidedNotice::ResetApplied,
    }
}

/// The message of a hint request: which hint of how many was revealed, or
/// that none is left.
pub open spec fn hint_message_of(revealed: Option<u8>, available: usize) -> Seq<char> {
    match revealed {
        Some(n) => "Hint "@ + decimal(n as nat) + " of "@ + decimal(available as nat)
            + " revealed by request."@,
        None => guided_notice_message(GuidedNotice::NoFurtherHints),
    }
}

fn append_piece(text: &mut String, part: &str)
    ensures
        final(text)@ == old(text)@ + part@,
{
    vstd::string::StringExecFns::append(text, part);
}

/// The message of a hint request, from what `GuidedSession::reveal_hint`
/// gave.
pub fn hint_message(revealed: Option<u8>, available: usize) -> (text: String)
    ensures
        text@ == hint_message_of(revealed, available),
{
    match revealed {
        Some(n) => {
            let mut text = String::from_str("Hint ");
            let shown = decimal_text(n as u64);
            append_piece(&mut text, shown.as_str());
            append_piece(&mut text, " of ");
            let total = decimal_text(available as u64);
            append_piece(&mut text, total.as_str());
            append_piece(&mut text, " revealed by request.");
            text
        },
        None => String::from_str(guided_notice_text(GuidedNotice::NoFurtherHints)),
    }
}

/// The message when a guided scenario's AI configuration is refused.
pub fn ai_configuration_message(error: &str) -> (text: String)
    ensures
        text@ == "Guided AI configuration is invalid: "@ + error@,
{
    let mut text = String::from_str("Guided AI configuration is invalid: ");
    append_piece(&mut text, error);
    text
}

/// What was found of a saved attempt, in the order it is checked before it
/// resumes.
#[derive(Debug, Clone, Copy, PartialEq, Eq, Structural)]
pub struct ResumeChecks {
    /// A saved attempt exists.
    pub saved: bool,
    /// It belongs to the selected guided scenario.
    pub same_scenario: bool,
    /// Its stored scenario parses.
    pub scenario_parses: bool,
    /// Its stored scenario equals the installed one.
    pub scenario_unchanged: bool,
    /// Its state and stage start pass canonical validation.
    pub state_valid: bool,
}

/// Why a saved attempt cannot resume: the first failed check.
pub open spec fn resume_refusal_of(checks: ResumeChecks) -> Option<GuidedNotice> {
    if !checks.saved {
        Some(GuidedNotice::NoResume)
    } else if !checks.same_scenario {
        Some(GuidedNotice::ResumeOtherScenario)
    } else if !checks.scenario_parses {
        Some(GuidedNotice::ResumeScenarioMalformed)
    } else if !checks.scenario_unchanged {
        Some(GuidedNotice::ContentChanged)
    } else if !checks.state_valid {
        Some(GuidedNotice::ResumeStateInvalid)
    } else {
        None
    }
}

/// Decides whether a saved attempt resumes, or why not.
pub fn resume_refusal(checks: ResumeChecks) -> (refusal: Option<GuidedNotice>)
    ensures
        refusal == resume_refusal_of(checks),
{
    if !checks.saved {
        Some(GuidedNotice::NoResume)
    } else if !checks.same_scenario {
        Some(GuidedNotice::ResumeOtherScenario)
    } else if !checks.scenario_parses {
        Some(GuidedNotice::ResumeScenarioMalformed)
    } else if !checks.scenario_unchanged {
        Some(GuidedNotice::ContentChanged)
    } else if !checks.state_valid {
        Some(GuidedNotice::ResumeStateInvalid)
    } else {
        None
    }
}

} // verus!
