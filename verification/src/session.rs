//! Charge sessions and the state machine that detects them.
//!
//! A session opens with the first charging sample seen while none is open,
//! takes in every charging sample that follows, and closes with the first
//! sample that is not charging.  It counts as completed once a sample taken
//! in after the opening one shows the completion threshold.

use vstd::prelude::*;
use crate::battery::{BatterySample, BatteryStatus};

verus! {

/// Charge level, in percent, from which a session counts as completed.
pub const COMPLETION_THRESHOLD: i64 = 90;

/// One charging episode.
#[derive(Debug)]
pub struct ChargeSession {
    /// Timestamp of the sample that opened the session.
    pub start_time: i64,
    /// Timestamp of the latest sample taken in after the opening one, or of
    /// the closing sample where there was none.
    pub end_time: Option<i64>,
    /// Charge level of the opening sample.
    pub start_capacity: i64,
    /// Charge level of the latest sample taken in.
    pub end_capacity: i64,
    /// Every sample seen while the session was open, oldest first.
    pub samples: Vec<BatterySample>,
    /// Whether the threshold was reached.
    pub completed: bool,
}

/// The mathematical value of a [`ChargeSession`].
pub struct SessionModel {
    pub start_time: i64,
    pub end_time: Option<i64>,
    pub start_capacity: i64,
    pub end_capacity: i64,
    pub samples: Seq<BatterySample>,
    pub completed: bool,
}

impl View for ChargeSession {
    type V = SessionModel;

    open spec fn view(&self) -> SessionModel {
        SessionModel {
            start_time: self.start_time,
            end_time: self.end_time,
            start_capacity: self.start_capacity,
            end_capacity: self.end_capacity,
            samples: self.samples@,
            completed: self.completed,
        }
    }
}

/// Whether a sample shows the battery taking charge.
pub open spec fn charging(sample: BatterySample) -> bool {
    sample.status == BatteryStatus::Charging
}

/// Whether a sample shows the completion threshold.
pub open spec fn at_threshold(sample: BatterySample) -> bool {
    sample.capacity >= COMPLETION_THRESHOLD
}

impl SessionModel {
    /// The session that `sample` opens.
    pub open spec fn begin(sample: BatterySample) -> SessionModel {
        SessionModel {
            start_time: sample.timestamp,
            end_time: None,
            start_capacity: sample.capacity,
            end_capacity: sample.capacity,
            samples: seq![sample],
            completed: false,
        }
    }

    /// The session after it has taken in one more charging sample.
    /// `completed` is sticky: once set it stays set.
    pub open spec fn extend(self, sample: BatterySample) -> SessionModel {
        SessionModel {
            start_time: self.start_time,
            end_time: Some(sample.timestamp),
            start_capacity: self.start_capacity,
            end_capacity: sample.capacity,
            samples: self.samples.push(sample),
            completed: self.completed || at_threshold(sample),
        }
    }

    /// The session as `sample`, which is not charging, closes it: the end
    /// time is filled in where no sample had set it.
    pub open spec fn close(self, sample: BatterySample) -> SessionModel {
        SessionModel {
            start_time: self.start_time,
            end_time: if self.end_time is None {
                Some(sample.timestamp)
            } else {
                self.end_time
            },
            start_capacity: self.start_capacity,
            end_capacity: self.end_capacity,
            samples: self.samples,
            completed: self.completed,
        }
    }

    /// Whether some sample taken in after the opening one shows the
    /// threshold.
    pub open spec fn reached_threshold(self) -> bool {
        exists|i: int| 1 <= i < self.samples.len() && at_threshold(#[trigger] self.samples[i])
    }

    /// What holds of every session that the tracker has open: the summary
    /// fields agree with the samples taken in so far.
    pub open spec fn consistent(self) -> bool {
        &&& self.samples.len() >= 1
        &&& forall|i: int| 0 <= i < self.samples.len() ==> charging(#[trigger] self.samples[i])
        &&& self.start_time == self.samples[0].timestamp
        &&& self.start_capacity == self.samples[0].capacity
        &&& self.end_capacity == self.samples.last().capacity
        &&& self.end_time == if self.samples.len() == 1 {
            None
        } else {
            Some(self.samples.last().timestamp)
        }
        &&& self.completed <==> self.reached_threshold()
    }
}

/// The session detector: either no session is open, or one is.
#[derive(Debug)]
pub enum SessionTracker {
    Idle,
    Open(ChargeSession),
}

/// The mathematical value of a [`SessionTracker`].
pub enum TrackerModel {
    Idle,
    Open(SessionModel),
}

impl View for SessionTracker {
    type V = TrackerModel;

    open spec fn view(&self) -> TrackerModel {
        match self {
            SessionTracker::Idle => TrackerModel::Idle,
            SessionTracker::Open(session) => TrackerModel::Open(session@),
        }
    }
}

impl TrackerModel {
    /// The state after `sample` has been observed.
    pub open spec fn step(self, sample: BatterySample) -> TrackerModel {
        match self {
            TrackerModel::Idle => if charging(sample) {
                TrackerModel::Open(SessionModel::begin(sample))
            } else {
                TrackerModel::Idle
            },
            TrackerModel::Open(session) => if charging(sample) {
                TrackerModel::Open(session.extend(sample))
            } else {
                TrackerModel::Idle
            },
        }
    }

    /// The session that observing `sample` hands out for recording: the open
    /// session, closed, where `sample` is not charging and the session is
    /// completed.  A session closed before it was completed is dropped.
    pub open spec fn recorded(self, sample: BatterySample) -> Option<SessionModel> {
        match self {
            TrackerModel::Open(session) if !charging(sample) && session.completed => Some(
                session.close(sample),
            ),
            _ => None,
        }
    }

    /// What holds of every tracker that started idle.
    pub open spec fn consistent(self) -> bool {
        self matches TrackerModel::Open(session) ==> session.consistent()
    }

    /// Observing a sample keeps the tracker consistent.
    pub proof fn lemma_step_consistent(self, sample: BatterySample)
        requires
            self.consistent(),
        ensures
            self.step(sample).consistent(),
    {
        match self {
            TrackerModel::Idle => {
                if charging(sample) {
                    let opened = SessionModel::begin(sample);
                    assert(opened.samples.len() == 1);
                    assert(opened.samples[0] == sample);
                }
            },
            TrackerModel::Open(session) => {
                if charging(sample) {
                    lemma_extend_consistent(session, sample);
                }
            },
        }
    }
}

/// The value of an optional session.
pub open spec fn session_option_model(session: Option<ChargeSession>) -> Option<SessionModel> {
    match session {
        Some(s) => Some(s@),
        None => None,
    }
}

impl Clone for ChargeSession {
    fn clone(&self) -> (session: ChargeSession)
        ensures
            session@ == self@,
    {
        let mut samples: Vec<BatterySample> = Vec::new();
        let mut i: usize = 0;
        while i < self.samples.len()
            invariant
                i <= self.samples@.len(),
                samples@ == self.samples@.take(i as int),
            decreases self.samples@.len() - i,
        {
            samples.push(self.samples[i]);
            assert(samples@ =~= self.samples@.take(i + 1));
            i += 1;
        }
        assert(self.samples@.take(i as int) =~= self.samples@);
        ChargeSession {
            start_time: self.start_time,
            end_time: self.end_time,
            start_capacity: self.start_capacity,
            end_capacity: self.end_capacity,
            samples,
            completed: self.completed,
        }
    }
}

impl ChargeSession {
    /// Opens a session with its first sample.
    pub fn begin(sample: BatterySample) -> (session: ChargeSession)
        ensures
            session@ == SessionModel::begin(sample),
    {
        let mut samples: Vec<BatterySample> = Vec::new();
        samples.push(sample);
        let session = ChargeSession {
            start_time: sample.timestamp,
            end_time: None,
            start_capacity: sample.capacity,
            end_capacity: sample.capacity,
            samples,
            completed: false,
        };
        assert(session@.samples =~= seq![sample]);
        session
    }

    /// Takes in one more charging sample.
    pub fn extend(&mut self, sample: BatterySample)
        ensures
            final(self)@ == old(self)@.extend(sample),
    {
        self.end_capacity = sample.capacity;
        self.end_time = Some(sample.timestamp);
        self.samples.push(sample);
        if sample.capacity >= COMPLETION_THRESHOLD && !self.completed {
            self.completed = true;
        }
    }

    /// Closes the session with the first sample that is not charging.
    pub fn close(&mut self, sample: BatterySample)
        ensures
            final(self)@ == old(self)@.close(sample),
    {
        if self.end_time.is_none() {
            self.end_time = Some(sample.timestamp);
        }
    }
}

impl SessionTracker {
    /// A tracker with no session open.
    pub fn new() -> (tracker: SessionTracker)
        ensures
            tracker@ == TrackerModel::Idle,
    {
        SessionTracker::Idle
    }

    /// The session in progress, if one is open.
    pub fn active_session(&self) -> (session: Option<&ChargeSession>)
        ensures
            match session {
                Some(s) => self@ == TrackerModel::Open(s@),
                None => self@ == TrackerModel::Idle,
            },
    {
        match self {
            SessionTracker::Idle => None,
            SessionTracker::Open(session) => Some(session),
        }
    }

    /// Applies one sample to the state machine and hands out the session,
    /// if any, that this sample closed as completed.
    pub fn observe(&mut self, sample: BatterySample) -> (done: Option<ChargeSession>)
        ensures
            final(self)@ == old(self)@.step(sample),
            session_option_model(done) == old(self)@.recorded(sample),
    {
        let mut previous = SessionTracker::Idle;
        core::mem::swap(self, &mut previous);
        match previous {
            SessionTracker::Idle => {
                if sample.status.is_charging() {
                    *self = SessionTracker::Open(ChargeSession::begin(sample));
                }
                None
            },
            SessionTracker::Open(mut session) => {
                if sample.status.is_charging() {
                    session.extend(sample);
                    *self = SessionTracker::Open(session);
                    None
                } else {
                    session.close(sample);
                    if session.completed {
                        Some(session)
                    } else {
                        None
                    }
                }
            },
        }
    }
}

/// Taking in a charging sample keeps an open session consistent.
pub proof fn lemma_extend_consistent(session: SessionModel, sample: BatterySample)
    requires
        session.consistent(),
        charging(sample),
    ensures
        session.extend(sample).consistent(),
{
    let next = session.extend(sample);
    let n = session.samples.len() as int;
    assert(next.samples.len() == n + 1);
    assert(next.samples.last() == sample);
    assert forall|i: int| 0 <= i < next.samples.len() implies charging(
        #[trigger] next.samples[i],
    ) by {
        if i < n {
            assert(next.samples[i] == session.samples[i]);
        }
    }
    if session.reached_threshold() {
        let i = choose|i: int| 1 <= i < session.samples.len() && at_threshold(
            #[trigger] session.samples[i],
        );
        assert(next.samples[i] == session.samples[i]);
        assert(next.reached_threshold());
    }
    if at_threshold(sample) {
        assert(next.samples[n] == sample);
        assert(next.reached_threshold());
    }
    if next.reached_threshold() {
        let i = choose|i: int| 1 <= i < next.samples.len() && at_threshold(
            #[trigger] next.samples[i],
        );
        if i < n {
            assert(next.samples[i] == session.samples[i]);
            assert(session.reached_threshold());
        }
    }
}

} // verus!
