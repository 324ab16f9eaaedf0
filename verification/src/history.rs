//! The bounded sample history with its record of completed charge sessions.

use vstd::prelude::*;
use crate::battery::BatterySample;
use crate::session::{
    at_threshold, charging, ChargeSession, SessionModel, SessionTracker, TrackerModel,
};

verus! {

/// Most samples that the history retains.
pub const MAX_SAMPLES: usize = 40000;

/// Most completed sessions that the history retains.
pub const MAX_SESSIONS: usize = 2;

/// The newest `cap` items of a sequence that is ordered oldest first.
pub open spec fn keep_newest<T>(items: Seq<T>, cap: nat) -> Seq<T> {
    if items.len() > cap {
        items.subrange(items.len() - cap, items.len() as int)
    } else {
        items
    }
}

/// The unbroken run of charging samples at the end of `inputs`.
pub open spec fn charging_run(inputs: Seq<BatterySample>) -> Seq<BatterySample>
    decreases inputs.len(),
{
    if inputs.len() == 0 || !charging(inputs.last()) {
        Seq::empty()
    } else {
        charging_run(inputs.drop_last()).push(inputs.last())
    }
}

/// The values of a sequence of sessions.
pub open spec fn session_models(sessions: Seq<ChargeSession>) -> Seq<SessionModel> {
    Seq::new(sessions.len(), |i: int| sessions[i]@)
}

/// The mathematical value of a [`History`].
pub struct HistoryModel {
    /// Retained samples, oldest first.
    pub samples: Seq<BatterySample>,
    /// Retained completed sessions, oldest first.
    pub completed_sessions: Seq<SessionModel>,
    /// The session detector, with the session in progress if there is one.
    pub tracker: TrackerModel,
}

impl HistoryModel {
    /// The history that holds nothing.
    pub open spec fn empty() -> HistoryModel {
        HistoryModel {
            samples: Seq::empty(),
            completed_sessions: Seq::empty(),
            tracker: TrackerModel::Idle,
        }
    }

    /// The completed sessions among `sessions`, in their order.
    pub open spec fn completed_only(sessions: Seq<SessionModel>) -> Seq<SessionModel> {
        sessions.filter(|s: SessionModel| s.completed)
    }

    /// The history made of persisted samples and sessions.
    pub open spec fn restored(
        samples: Seq<BatterySample>,
        sessions: Seq<SessionModel>,
    ) -> HistoryModel {
        HistoryModel {
            samples: keep_newest(samples, MAX_SAMPLES as nat),
            completed_sessions: keep_newest(Self::completed_only(sessions), MAX_SESSIONS as nat),
            tracker: TrackerModel::Idle,
        }
    }

    /// The history after one more sample: the sample is appended and run
    /// through the session detector, a session that it closed as completed
    /// is recorded, and both sequences are cut back to their newest items.
    pub open spec fn add_sample(self, sample: BatterySample) -> HistoryModel {
        HistoryModel {
            samples: keep_newest(self.samples.push(sample), MAX_SAMPLES as nat),
            completed_sessions: match self.tracker.recorded(sample) {
                Some(session) => keep_newest(
                    self.completed_sessions.push(session),
                    MAX_SESSIONS as nat,
                ),
                None => self.completed_sessions,
            },
            tracker: self.tracker.step(sample),
        }
    }

    /// The history after a run of samples, fed oldest first.
    pub open spec fn feed(self, inputs: Seq<BatterySample>) -> HistoryModel
        decreases inputs.len(),
    {
        if inputs.len() == 0 {
            self
        } else {
            self.feed(inputs.drop_last()).add_sample(inputs.last())
        }
    }

    /// What holds of every history: the caps are kept, every recorded
    /// session is completed, and the session in progress agrees with its
    /// samples.
    pub open spec fn valid(self) -> bool {
        &&& self.samples.len() <= MAX_SAMPLES
        &&& self.completed_sessions.len() <= MAX_SESSIONS
        &&& forall|i: int|
            0 <= i < self.completed_sessions.len() ==> (#[trigger] self.completed_sessions[i]).completed
        &&& self.tracker.consistent()
    }

    /// What is persisted of a history: all but the session in progress.
    pub open spec fn persisted(self) -> HistoryModel {
        HistoryModel { tracker: TrackerModel::Idle, ..self }
    }

    /// Whether the timestamps of `samples` never decrease.
    pub open spec fn time_ordered(samples: Seq<BatterySample>) -> bool {
        forall|i: int, j: int|
            0 <= i <= j < samples.len() ==> (#[trigger] samples[i]).timestamp <= (
            #[trigger] samples[j]).timestamp
    }

    /// Adding a sample keeps a history valid.
    pub proof fn lemma_add_sample_valid(self, sample: BatterySample)
        requires
            self.valid(),
        ensures
            self.add_sample(sample).valid(),
    {
        self.tracker.lemma_step_consistent(sample);
    }

    /// A restored history is valid, whatever was persisted.
    pub proof fn lemma_restored_valid(samples: Seq<BatterySample>, sessions: Seq<SessionModel>)
        ensures
            Self::restored(samples, sessions).valid(),
    {
        let pred = |s: SessionModel| s.completed;
        let kept = Self::completed_only(sessions);
        let newest = keep_newest(kept, MAX_SESSIONS as nat);
        assert forall|i: int| 0 <= i < newest.len() implies (#[trigger] newest[i]).completed by {
            let j = if kept.len() > MAX_SESSIONS {
                i + kept.len() - MAX_SESSIONS
            } else {
                i
            };
            assert(newest[i] == kept[j]);
            sessions.lemma_filter_pred(pred, j);
        }
    }

    /// Restoring what was persisted of a valid history gives that history
    /// back, without its session in progress.
    pub proof fn lemma_restore_round_trip(self)
        requires
            self.valid(),
        ensures
            Self::restored(self.samples, self.completed_sessions) == self.persisted(),
    {
        lemma_filter_keeps_all(self.completed_sessions, |s: SessionModel| s.completed);
    }

    /// A sample that is no older than the newest one retained keeps the
    /// retained samples in the order of their timestamps.
    pub proof fn lemma_add_sample_time_ordered(self, sample: BatterySample)
        requires
            Self::time_ordered(self.samples),
            self.samples.len() > 0 ==> self.samples.last().timestamp <= sample.timestamp,
        ensures
            Self::time_ordered(self.add_sample(sample).samples),
    {
        let grown = self.samples.push(sample);
        assert(Self::time_ordered(grown)) by {
            assert forall|i: int, j: int| 0 <= i <= j < grown.len() implies (
            #[trigger] grown[i]).timestamp <= (#[trigger] grown[j]).timestamp by {
                if j < self.samples.len() {
                    assert(grown[i] == self.samples[i] && grown[j] == self.samples[j]);
                } else if i < self.samples.len() {
                    assert(grown[i] == self.samples[i]);
                    assert(self.samples[i].timestamp <= self.samples.last().timestamp);
                }
            }
        }
        let kept = self.add_sample(sample).samples;
        let offset = grown.len() - kept.len();
        assert forall|i: int, j: int| 0 <= i <= j < kept.len() implies (
        #[trigger] kept[i]).timestamp <= (#[trigger] kept[j]).timestamp by {
            assert(kept[i] == grown[i + offset] && kept[j] == grown[j + offset]);
        }
    }

    /// The session in progress holds exactly the charging samples that
    /// came in since the last sample that was not charging: after a run of
    /// samples fed to a history with no session in progress, a session is
    /// open if and only if the newest sample is charging, and its samples
    /// are the unbroken run of charging samples at the end.
    pub proof fn lemma_session_in_progress(self, inputs: Seq<BatterySample>)
        requires
            self.tracker is Idle,
        ensures
            match self.feed(inputs).tracker {
                TrackerModel::Idle => charging_run(inputs).len() == 0,
                TrackerModel::Open(session) => session.samples == charging_run(inputs)
                    && inputs.len() > 0 && session.consistent(),
            },
        decreases inputs.len(),
    {
        if inputs.len() > 0 {
            let head = inputs.drop_last();
            self.lemma_session_in_progress(head);
            let before = self.feed(head).tracker;
            before.lemma_step_consistent(inputs.last());
            if charging(inputs.last()) {
                match before {
                    TrackerModel::Idle => {
                        assert(seq![inputs.last()] =~= charging_run(head).push(inputs.last()));
                    },
                    TrackerModel::Open(session) => {},
                }
            }
        }
    }

    /// Every history that is reached from the empty one is valid.
    pub proof fn lemma_feed_valid(self, inputs: Seq<BatterySample>)
        requires
            self.valid(),
        ensures
            self.feed(inputs).valid(),
        decreases inputs.len(),
    {
        if inputs.len() > 0 {
            self.lemma_feed_valid(inputs.drop_last());
            self.feed(inputs.drop_last()).lemma_add_sample_valid(inputs.last());
        }
    }

    /// However many samples are fed, the retained samples are the newest of
    /// all that the history has seen, in their order, and never more than
    /// `MAX_SAMPLES`.
    pub proof fn lemma_feed_retains_newest(self, inputs: Seq<BatterySample>)
        ensures
            inputs.len() > 0 ==> self.feed(inputs).samples == keep_newest(
                self.samples + inputs,
                MAX_SAMPLES as nat,
            ),
            inputs.len() > 0 ==> self.feed(inputs).samples.len() <= MAX_SAMPLES,
            self.feed(inputs).samples.is_suffix_of(self.samples + inputs),
        decreases inputs.len(),
    {
        let all = self.samples + inputs;
        if inputs.len() == 0 {
            assert(all =~= self.samples);
            assert(self.samples =~= all.subrange(0, all.len() as int));
        } else {
            let head = inputs.drop_last();
            let last = inputs.last();
            self.lemma_feed_retains_newest(head);
            let before = self.feed(head).samples;
            let earlier = self.samples + head;
            assert(all =~= earlier.push(last));
            let cap = MAX_SAMPLES as nat;
            if head.len() == 0 {
                assert(earlier =~= self.samples);
            }
            assert(keep_newest(before.push(last), cap) =~= keep_newest(all, cap));
            let kept = keep_newest(all, cap);
            assert(kept =~= all.subrange(all.len() - kept.len(), all.len() as int));
        }
    }

    /// A session that closes is recorded if and only if a sample taken in
    /// after its opening one showed the threshold; a session that is not
    /// recorded leaves the record as it was.
    pub proof fn lemma_recorded_iff_reached_threshold(self, sample: BatterySample)
        requires
            self.valid(),
            self.tracker is Open,
            !charging(sample),
        ensures
            self.tracker->Open_0.reached_threshold() ==> self.add_sample(
                sample,
            ).completed_sessions.last() == self.tracker->Open_0.close(sample),
            !self.tracker->Open_0.reached_threshold() ==> self.add_sample(
                sample,
            ).completed_sessions == self.completed_sessions,
            self.add_sample(sample).tracker is Idle,
    {
    }

    /// A run of charging samples that a sample which is not charging ends
    /// is recorded as a session if and only if a sample of the run after
    /// its first shows the threshold.  The session recorded holds the run,
    /// and a run that is not recorded leaves the record as it was.
    pub proof fn lemma_run_recorded_iff_threshold(
        self,
        inputs: Seq<BatterySample>,
        closing: BatterySample,
    )
        requires
            self.valid(),
            self.tracker is Idle,
            charging_run(inputs).len() > 0,
            !charging(closing),
        ensures
            ({
                let run = charging_run(inputs);
                let before = self.feed(inputs);
                let after = before.add_sample(closing);
                if exists|i: int| 1 <= i < run.len() && at_threshold(#[trigger] run[i]) {
                    &&& after.completed_sessions.len() > 0
                    &&& after.completed_sessions.last().samples == run
                    &&& after.completed_sessions.last().completed
                    &&& after.completed_sessions.last().start_capacity == run.first().capacity
                    &&& after.completed_sessions.last().end_capacity == run.last().capacity
                } else {
                    after.completed_sessions == before.completed_sessions
                }
            }),
    {
        self.lemma_session_in_progress(inputs);
        self.lemma_feed_valid(inputs);
        self.feed(inputs).lemma_recorded_iff_reached_threshold(closing);
    }

    /// While no session closes as completed, the record stays as it is.
    pub proof fn lemma_record_changes_only_on_completion(self, sample: BatterySample)
        requires
            charging(sample) || self.tracker is Idle,
        ensures
            self.add_sample(sample).completed_sessions == self.completed_sessions,
    {
    }

    /// A session recorded while two are held evicts the older of the two and
    /// leaves the other two in their order.
    pub proof fn lemma_third_session_evicts_oldest(self, sample: BatterySample)
        requires
            self.completed_sessions.len() == MAX_SESSIONS,
            self.tracker.recorded(sample) is Some,
        ensures
            self.add_sample(sample).completed_sessions == seq![
                self.completed_sessions[1],
                self.tracker.recorded(sample)->0,
            ],
    {
        let grown = self.completed_sessions.push(self.tracker.recorded(sample)->0);
        assert(keep_newest(grown, MAX_SESSIONS as nat) =~= seq![grown[1], grown[2]]);
    }

    /// A session is in progress after a sample if and only if that sample
    /// is charging.
    pub proof fn lemma_active_iff_charging(self, sample: BatterySample)
        ensures
            self.add_sample(sample).tracker is Open <==> charging(sample),
    {
    }
}

/// A filter keeps a sequence whose items all pass it as it is.
proof fn lemma_filter_keeps_all<T>(items: Seq<T>, pred: spec_fn(T) -> bool)
    requires
        forall|i: int| 0 <= i < items.len() ==> pred(#[trigger] items[i]),
    ensures
        items.filter(pred) == items,
    decreases items.len(),
{
    reveal(Seq::filter);
    if items.len() > 0 {
        let head = items.drop_last();
        assert forall|i: int| 0 <= i < head.len() implies pred(#[trigger] head[i]) by {
            assert(head[i] == items[i]);
        }
        lemma_filter_keeps_all(head, pred);
        assert(head.push(items.last()) =~= items);
    }
}

/// Taking the values of sessions commutes with appending one.
proof fn lemma_models_push(sessions: Seq<ChargeSession>, session: ChargeSession)
    ensures
        session_models(sessions.push(session)) == session_models(sessions).push(session@),
{
    assert(session_models(sessions.push(session)) =~= session_models(sessions).push(session@));
}

/// Taking the values of sessions commutes with keeping the newest.
proof fn lemma_models_keep_newest(sessions: Seq<ChargeSession>, cap: nat)
    ensures
        session_models(keep_newest(sessions, cap)) == keep_newest(session_models(sessions), cap),
{
    assert(session_models(keep_newest(sessions, cap)) =~= keep_newest(
        session_models(sessions),
        cap,
    ));
}

/// Samples and completed sessions, both bounded, and the session detector.
///
/// The session in progress is no part of what is persisted: a history that
/// is restored starts with none.
#[derive(Debug)]
pub struct History {
    samples: Vec<BatterySample>,
    charge_sessions: Vec<ChargeSession>,
    tracker: SessionTracker,
}

impl View for History {
    type V = HistoryModel;

    closed spec fn view(&self) -> HistoryModel {
        HistoryModel {
            samples: self.samples@,
            completed_sessions: session_models(self.charge_sessions@),
            tracker: self.tracker@,
        }
    }
}

/// What is persisted of a history: the retained samples and the completed
/// sessions, never the session in progress.
#[derive(Debug)]
pub struct StoredHistory {
    pub samples: Vec<BatterySample>,
    pub charge_sessions: Vec<ChargeSession>,
}

/// Cuts a vector that is ordered oldest first back to its newest `cap` items.
fn drop_oldest<T>(items: &mut Vec<T>, cap: usize)
    ensures
        final(items)@ == keep_newest(old(items)@, cap as nat),
{
    if items.len() > cap {
        let excess = items.len() - cap;
        let kept = items.split_off(excess);
        *items = kept;
    }
}

/// Moves the completed sessions out of `sessions`, in their order.
fn completed_only(sessions: Vec<ChargeSession>) -> (kept: Vec<ChargeSession>)
    ensures
        session_models(kept@) == HistoryModel::completed_only(session_models(sessions@)),
{
    let ghost all = session_models(sessions@);
    let ghost pred = |s: SessionModel| s.completed;
    let mut rest = sessions;
    let mut kept: Vec<ChargeSession> = Vec::new();
    assert(session_models(kept@) =~= Seq::empty());
    assert(Seq::<SessionModel>::empty() + all.filter(pred) =~= all.filter(pred));
    while rest.len() > 0
        invariant
            pred == |s: SessionModel| s.completed,
            session_models(kept@) + session_models(rest@).filter(pred) == all.filter(pred),
        decreases rest.len(),
    {
        let ghost before = session_models(rest@);
        let ghost kept_before = session_models(kept@);
        let session = rest.remove(0);
        proof {
            let after = session_models(rest@);
            assert(before =~= seq![session@] + after);
            Seq::filter_distributes_over_add(seq![session@], after, pred);
            reveal_with_fuel(Seq::filter, 2);
            assert(seq![session@].drop_last() =~= Seq::<SessionModel>::empty());
            assert(seq![session@].last() == session@);
        }
        if session.completed {
            kept.push(session);
            proof {
                assert(session_models(kept@) =~= kept_before.push(session@));
                assert(seq![session@].filter(pred) =~= seq![session@]);
                assert(session_models(kept@) + session_models(rest@).filter(pred) =~= kept_before
                    + (seq![session@] + session_models(rest@).filter(pred)));
            }
        } else {
            proof {
                assert(seq![session@].filter(pred) =~= Seq::<SessionModel>::empty());
                assert(seq![session@].filter(pred) + session_models(rest@).filter(pred)
                    =~= session_models(rest@).filter(pred));
            }
        }
    }
    assert(session_models(rest@) =~= Seq::empty());
    assert(session_models(kept@) + Seq::<SessionModel>::empty() =~= session_models(kept@));
    kept
}

impl History {
    #[verifier::type_invariant]
    closed spec fn well_formed(&self) -> bool {
        self@.valid()
    }

    /// An empty history.
    pub fn new() -> (history: History)
        ensures
            history@ == HistoryModel::empty(),
            history@.valid(),
    {
        let history = History {
            samples: Vec::new(),
            charge_sessions: Vec::new(),
            tracker: SessionTracker::new(),
        };
        assert(history@.completed_sessions =~= Seq::empty());
        history
    }

    /// The history that is made of persisted parts: the newest samples and
    /// the newest completed sessions, up to the caps, and no session in
    /// progress.
    pub fn restore(samples: Vec<BatterySample>, sessions: Vec<ChargeSession>) -> (history: History)
        ensures
            history@ == HistoryModel::restored(samples@, session_models(sessions@)),
            history@.valid(),
    {
        let ghost persisted = samples@;
        let mut samples = samples;
        drop_oldest(&mut samples, MAX_SAMPLES);
        let mut charge_sessions = completed_only(sessions);
        let ghost completed = charge_sessions@;
        drop_oldest(&mut charge_sessions, MAX_SESSIONS);
        proof {
            lemma_models_keep_newest(completed, MAX_SESSIONS as nat);
            HistoryModel::lemma_restored_valid(persisted, session_models(sessions@));
        }
        History { samples, charge_sessions, tracker: SessionTracker::new() }
    }

    /// The history that is made of what was stored, or an empty one where
    /// nothing was, or nothing that could be read.
    pub fn load(stored: Option<StoredHistory>) -> (history: History)
        ensures
            history@ == match stored {
                Some(parts) => HistoryModel::restored(
                    parts.samples@,
                    session_models(parts.charge_sessions@),
                ),
                None => HistoryModel::empty(),
            },
            history@.valid(),
            history@.tracker is Idle,
    {
        match stored {
            Some(parts) => History::restore(parts.samples, parts.charge_sessions),
            None => History::new(),
        }
    }

    /// What is to be stored of the history: the retained samples and the
    /// completed sessions.  Loading it gives the history back without its
    /// session in progress.
    pub fn save(&self) -> (stored: StoredHistory)
        ensures
            stored.samples@ == self@.samples,
            session_models(stored.charge_sessions@) == self@.completed_sessions,
            HistoryModel::restored(stored.samples@, session_models(stored.charge_sessions@))
                == self@.persisted(),
    {
        proof {
            use_type_invariant(self);
            self@.lemma_restore_round_trip();
        }
        let mut samples: Vec<BatterySample> = Vec::new();
        let mut i: usize = 0;
        while i < self.samples.len()
            invariant
                i <= self.samples@.len(),
                samples@ == self.samples@.take(i as int),
            decreases self.samples@.len() - i,
        {
            samples.push(self.samples[i]);
            assert(samples@ =~= self.samples@.take(i + 1));
            i += 1;
        }
        assert(self.samples@.take(i as int) =~= self.samples@);
        let mut charge_sessions: Vec<ChargeSession> = Vec::new();
        let mut k: usize = 0;
        assert(session_models(charge_sessions@) =~= session_models(self.charge_sessions@).take(0));
        while k < self.charge_sessions.len()
            invariant
                k <= self.charge_sessions@.len(),
                session_models(charge_sessions@) == session_models(self.charge_sessions@).take(
                    k as int,
                ),
            decreases self.charge_sessions@.len() - k,
        {
            let ghost held = charge_sessions@;
            let copy = self.charge_sessions[k].clone();
            charge_sessions.push(copy);
            proof {
                lemma_models_push(held, copy);
                assert(session_models(held).push(copy@) =~= session_models(
                    self.charge_sessions@,
                ).take(k + 1));
            }
            k += 1;
        }
        assert(session_models(self.charge_sessions@).take(k as int) =~= session_models(
            self.charge_sessions@,
        ));
        StoredHistory { samples, charge_sessions }
    }

    /// Adds a sample and updates the record of charge sessions.  The
    /// retained samples are the newest of those held before and the new
    /// one, in their order.
    pub fn add_sample(&mut self, sample: BatterySample)
        ensures
            final(self)@ == old(self)@.add_sample(sample),
            final(self)@.valid(),
            final(self)@.samples.len() <= MAX_SAMPLES,
            final(self)@.samples.is_suffix_of(old(self)@.samples.push(sample)),
            final(self)@.completed_sessions.len() <= MAX_SESSIONS,
    {
        proof {
            use_type_invariant(&*self);
        }
        // The parts are moved out, updated and put back, so that the
        // invariant is checked once, on the whole value.
        let mut current = History::new();
        core::mem::swap(self, &mut current);
        let History { mut samples, mut charge_sessions, mut tracker } = current;
        let ghost before = current@;
        let done = tracker.observe(sample);
        if let Some(session) = done {
            let ghost held = charge_sessions@;
            charge_sessions.push(session);
            drop_oldest(&mut charge_sessions, MAX_SESSIONS);
            proof {
                lemma_models_push(held, session);
                lemma_models_keep_newest(held.push(session), MAX_SESSIONS as nat);
            }
        }
        samples.push(sample);
        drop_oldest(&mut samples, MAX_SAMPLES);
        proof {
            before.lemma_add_sample_valid(sample);
            let grown = before.samples.push(sample);
            assert(samples@ =~= grown.subrange(grown.len() - samples@.len(), grown.len() as int));
        }
        *self = History { samples, charge_sessions, tracker };
    }

    /// The retained samples, oldest first.
    pub fn all_samples(&self) -> (samples: &[BatterySample])
        ensures
            samples@ == self@.samples,
            samples@.len() <= MAX_SAMPLES,
            self@.valid(),
    {
        proof {
            use_type_invariant(self);
        }
        self.samples.as_slice()
    }

    /// The retained completed sessions, oldest first.
    pub fn completed_sessions(&self) -> (sessions: &[ChargeSession])
        ensures
            session_models(sessions@) == self@.completed_sessions,
            sessions@.len() <= MAX_SESSIONS,
            forall|i: int| 0 <= i < sessions@.len() ==> (#[trigger] sessions@[i]).completed,
            self@.valid(),
    {
        proof {
            use_type_invariant(self);
            assert forall|i: int| 0 <= i < self.charge_sessions@.len() implies (
            #[trigger] self.charge_sessions@[i]).completed by {
                assert(self@.completed_sessions[i] == self.charge_sessions@[i]@);
            }
        }
        self.charge_sessions.as_slice()
    }

    /// The session in progress, if the battery is charging.
    pub fn active_session(&self) -> (session: Option<&ChargeSession>)
        ensures
            match session {
                Some(s) => self@.tracker == TrackerModel::Open(s@) && s@.consistent(),
                None => self@.tracker == TrackerModel::Idle,
            },
            self@.valid(),
    {
        proof {
            use_type_invariant(self);
        }
        self.tracker.active_session()
    }
}

} // verus!
