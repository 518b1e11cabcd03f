//! A training session: a three-state machine that collects telemetry while it
//! is started and keeps the distance travelled.

use vstd::prelude::*;

verus! {

/// Milliseconds in the hour divided by metres in the kilometre: a speed in
/// km/h times a duration in milliseconds, divided by this, is a distance in
/// metres.
pub const MS_KMH_PER_METRE: u64 = 3600;

/// Where a session stands. It changes only when the session is asked to
/// start, to pause or to stop.
#[derive(Clone, Copy, Debug, PartialEq, Eq, Structural)]
pub enum SessionStatus {
    Started,
    Paused,
    Stopped,
}

/// One complete sample of a trainer: cadence in rpm, speed in km/h, power in
/// watts.
#[derive(Clone, Copy, Debug, PartialEq, Eq, Structural)]
pub struct IndoorBikeData {
    pub cadence: u16,
    pub speed: u16,
    pub power: i16,
}

/// The samples of one training session.
///
/// `last_integration` is the time, in milliseconds on the host's monotonic
/// clock, at which distance was last integrated from speed.
#[derive(Debug)]
pub struct Session {
    pub status: SessionStatus,
    pub indoor_bike_data: Vec<IndoorBikeData>,
    pub heart_rate_data: Vec<u16>,
    pub total_distance: u32,
    pub last_integration: Option<u64>,
}

/// What a session holds, as mathematical values.
pub struct SessionView {
    pub status: SessionStatus,
    pub indoor_bike_data: Seq<IndoorBikeData>,
    pub heart_rate_data: Seq<u16>,
    pub total_distance: nat,
    pub last_integration: Option<u64>,
}

/// The metres travelled at `speed` km/h during `elapsed_ms` milliseconds,
/// rounded down.
pub open spec fn distance_travelled(speed: u16, elapsed_ms: nat) -> nat {
    (speed as nat * elapsed_ms) / (MS_KMH_PER_METRE as nat)
}

/// The milliseconds between the previous integration and `now_ms`: none at
/// the first integration, and none if the clock did not advance.
pub open spec fn elapsed_since(last: Option<u64>, now_ms: u64) -> nat {
    match last {
        Some(then) if then <= now_ms => (now_ms - then) as nat,
        _ => 0,
    }
}

/// The distance that a sample with this speed adds after `elapsed_ms`
/// milliseconds, as a 32-bit number of metres: the largest such number
/// where the distance is larger still, and nothing without a speed.
pub open spec fn distance_from_speed(speed: Option<u16>, elapsed_ms: u64) -> Option<u32> {
    match speed {
        Some(speed) => Some(
            if distance_travelled(speed, elapsed_ms as nat) <= u32::MAX {
                distance_travelled(speed, elapsed_ms as nat) as u32
            } else {
                u32::MAX
            },
        ),
        None => None,
    }
}

/// Computes [`distance_travelled`].
fn metres_travelled(speed: u16, elapsed_ms: u64) -> (metres: u128)
    ensures
        metres == distance_travelled(speed, elapsed_ms as nat),
{
    assert(speed as nat * elapsed_ms as nat <= 0xffff * 0xffff_ffff_ffff_ffff) by (nonlinear_arith)
        requires
            speed <= 0xffff,
            elapsed_ms <= 0xffff_ffff_ffff_ffff,
    ;
    let product: u128 = (speed as u128) * (elapsed_ms as u128);
    product / (MS_KMH_PER_METRE as u128)
}

/// The metres travelled at a speed in km/h during `elapsed_ms` milliseconds.
pub fn get_distance_from_speed(speed: Option<u16>, elapsed_ms: u64) -> (distance: Option<u32>)
    ensures
        distance == distance_from_speed(speed, elapsed_ms),
{
    match speed {
        Some(speed) => {
            let metres = metres_travelled(speed, elapsed_ms);
            if metres <= u32::MAX as u128 {
                Some(metres as u32)
            } else {
                Some(u32::MAX)
            }
        },
        None => None,
    }
}

impl SessionView {
    /// A session that has not been started and holds nothing.
    pub open spec fn new() -> SessionView {
        SessionView {
            status: SessionStatus::Stopped,
            indoor_bike_data: Seq::empty(),
            heart_rate_data: Seq::empty(),
            total_distance: 0,
            last_integration: None,
        }
    }

    /// The same session in another status.
    pub open spec fn with_status(self, status: SessionStatus) -> SessionView {
        SessionView { status, ..self }
    }

    /// The session after it was asked to start.
    pub open spec fn start(self) -> SessionView {
        self.with_status(SessionStatus::Started)
    }

    /// The session after it was asked to pause.
    pub open spec fn pause(self) -> SessionView {
        self.with_status(SessionStatus::Paused)
    }

    /// The session after it was asked to stop.
    pub open spec fn stop(self) -> SessionView {
        self.with_status(SessionStatus::Stopped)
    }

    /// A trainer sample arrives: kept while started, dropped otherwise.
    pub open spec fn add_indoor_bike_data(self, data: IndoorBikeData) -> SessionView {
        if self.status == SessionStatus::Started {
            SessionView { indoor_bike_data: self.indoor_bike_data.push(data), ..self }
        } else {
            self
        }
    }

    /// A heart rate sample arrives: kept while started, dropped otherwise.
    pub open spec fn add_heart_rate_data(self, bpm: u16) -> SessionView {
        if self.status == SessionStatus::Started {
            SessionView { heart_rate_data: self.heart_rate_data.push(bpm), ..self }
        } else {
            self
        }
    }

    /// The trainer reported its own total: it replaces the session's.
    pub open spec fn set_total_distance(self, distance: u32) -> SessionView {
        SessionView { total_distance: distance as nat, ..self }
    }

    /// The metres that an integration at `now_ms` adds for `speed` km/h.
    pub open spec fn distance_step(self, speed: u16, now_ms: u64) -> nat {
        distance_travelled(speed, elapsed_since(self.last_integration, now_ms))
    }

    /// Distance is integrated from `speed` km/h over the time since the
    /// previous integration, which `now_ms` then becomes.
    pub open spec fn calculate_total_distance(self, speed: u16, now_ms: u64) -> SessionView {
        SessionView {
            total_distance: self.total_distance + self.distance_step(speed, now_ms),
            last_integration: Some(now_ms),
            ..self
        }
    }
}

impl SessionView {
    /// The complete sample that a notification of the trainer holds, if it
    /// has cadence, speed and power.
    pub open spec fn complete_sample(
        sample: crate::data::indoor_bike_data::IndoorBikeData,
    ) -> Option<IndoorBikeData> {
        match (sample.cadence, sample.speed, sample.power) {
            (Some(cadence), Some(speed), Some(power)) => Some(
                IndoorBikeData { cadence, speed, power },
            ),
            _ => None,
        }
    }

    /// Whether a notification of the trainer can be taken at `now_ms`: the
    /// distance that it makes the session integrate fits the total.
    pub open spec fn can_record(
        self,
        sample: crate::data::indoor_bike_data::IndoorBikeData,
        now_ms: u64,
    ) -> bool {
        self.status == SessionStatus::Started && sample.distance is None ==> (sample.speed matches Some(
            speed,
        ) ==> self.total_distance + self.distance_step(speed, now_ms) <= u32::MAX)
    }

    /// A notification of the trainer arrives at `now_ms`. A session that is
    /// not started drops it. A started one keeps it as a sample, if it is
    /// complete; then the distance of the notification, if it has one,
    /// replaces the total, and else distance is integrated from its speed,
    /// if it has one.
    pub open spec fn record(
        self,
        sample: crate::data::indoor_bike_data::IndoorBikeData,
        now_ms: u64,
    ) -> SessionView {
        if self.status != SessionStatus::Started {
            self
        } else {
            let kept = match SessionView::complete_sample(sample) {
                Some(complete) => self.add_indoor_bike_data(complete),
                None => self,
            };
            match (sample.speed, sample.distance) {
                (_, Some(distance)) => kept.set_total_distance(distance),
                (Some(speed), None) => kept.calculate_total_distance(speed, now_ms),
                (None, None) => kept,
            }
        }
    }

    /// The notification as it is passed on: where a started session
    /// integrated distance for it, it carries the session's new total.
    pub open spec fn passed_on(
        self,
        sample: crate::data::indoor_bike_data::IndoorBikeData,
        now_ms: u64,
    ) -> crate::data::indoor_bike_data::IndoorBikeData {
        if self.status == SessionStatus::Started && sample.distance is None && sample.speed
            is Some {
            crate::data::indoor_bike_data::IndoorBikeData {
                distance: Some(self.record(sample, now_ms).total_distance as u32),
                ..sample
            }
        } else {
            sample
        }
    }
}

impl View for Session {
    type V = SessionView;

    open spec fn view(&self) -> SessionView {
        SessionView {
            status: self.status,
            indoor_bike_data: self.indoor_bike_data@,
            heart_rate_data: self.heart_rate_data@,
            total_distance: self.total_distance as nat,
            last_integration: self.last_integration,
        }
    }
}

impl Session {
    /// A session that has not been started and holds nothing.
    pub fn new() -> (session: Session)
        ensures
            session@ == SessionView::new(),
    {
        Session {
            status: SessionStatus::Stopped,
            indoor_bike_data: Vec::new(),
            heart_rate_data: Vec::new(),
            total_distance: 0,
            last_integration: None,
        }
    }

    /// Starts or resumes the session. Nothing else changes.
    pub fn start_session(&mut self)
        ensures
            final(self)@ == old(self)@.start(),
    {
        self.status = SessionStatus::Started;
    }

    /// Pauses the session. Nothing else changes.
    pub fn pause_session(&mut self)
        ensures
            final(self)@ == old(self)@.pause(),
    {
        self.status = SessionStatus::Paused;
    }

    /// Stops the session. What it has collected stays.
    pub fn stop_session(&mut self)
        ensures
            final(self)@ == old(self)@.stop(),
    {
        self.status = SessionStatus::Stopped;
    }

    /// Appends a trainer sample if the session is started; drops it
    /// otherwise.
    pub fn add_indoor_bike_data(&mut self, data: IndoorBikeData)
        ensures
            final(self)@ == old(self)@.add_indoor_bike_data(data),
    {
        if self.status == SessionStatus::Started {
            self.indoor_bike_data.push(data);
        }
    }

    /// Appends a heart rate sample if the session is started; drops it
    /// otherwise.
    pub fn add_heart_rate_data(&mut self, bpm: u16)
        ensures
            final(self)@ == old(self)@.add_heart_rate_data(bpm),
    {
        if self.status == SessionStatus::Started {
            self.heart_rate_data.push(bpm);
        }
    }

    /// This is used for when FTMS supports total distance
    pub fn set_total_distance(&mut self, distance: u32)
        ensures
            final(self)@ == old(self)@.set_total_distance(distance),
    {
        self.total_distance = distance
    }

    /// Whether an integration at `now_ms` keeps the total within `u32`.
    pub fn can_integrate(&self, speed: u16, now_ms: u64) -> (fits: bool)
        ensures
            fits == (self@.calculate_total_distance(speed, now_ms).total_distance <= u32::MAX),
    {
        let elapsed: u64 = match self.last_integration {
            Some(then) => if then <= now_ms { now_ms - then } else { 0 },
            None => 0,
        };
        let step: u128 = metres_travelled(speed, elapsed);
        step <= (u32::MAX - self.total_distance) as u128
    }

    /// Adds the distance travelled at `speed` km/h since the previous call,
    /// and returns the new total in metres. The first call adds nothing.
    pub fn calculate_total_distance(&mut self, speed: u16, now_ms: u64) -> (total: u32)
        requires
            old(self)@.calculate_total_distance(speed, now_ms).total_distance <= u32::MAX,
        ensures
            final(self)@ == old(self)@.calculate_total_distance(speed, now_ms),
            total == final(self).total_distance,
    {
        let elapsed: u64 = match self.last_integration {
            Some(then) => if then <= now_ms { now_ms - then } else { 0 },
            None => 0,
        };
        let step: u32 = match get_distance_from_speed(Some(speed), elapsed) {
            Some(distance) => distance,
            None => 0,
        };
        self.total_distance = self.total_distance + step;
        self.last_integration = Some(now_ms);
        self.total_distance
    }

    /// Whether [`Session::record`] can take the notification at `now_ms`.
    pub fn can_record(
        &self,
        sample: &crate::data::indoor_bike_data::IndoorBikeData,
        now_ms: u64,
    ) -> (fits: bool)
        ensures
            fits == self@.can_record(*sample, now_ms),
    {
        match (self.status, sample.speed, sample.distance) {
            (SessionStatus::Started, Some(speed), None) => self.can_integrate(speed, now_ms),
            _ => true,
        }
    }

    /// Takes a notification of the trainer at `now_ms` on the host's
    /// monotonic clock, and returns it as it is to be passed on. Nothing
    /// happens unless the session is started.
    pub fn record(
        &mut self,
        sample: crate::data::indoor_bike_data::IndoorBikeData,
        now_ms: u64,
    ) -> (passed_on: crate::data::indoor_bike_data::IndoorBikeData)
        requires
            old(self)@.can_record(sample, now_ms),
        ensures
            final(self)@ == old(self)@.record(sample, now_ms),
            passed_on == old(self)@.passed_on(sample, now_ms),
    {
        let mut passed_on = sample;
        if self.status == SessionStatus::Started {
            match (sample.cadence, sample.speed, sample.power) {
                (Some(cadence), Some(speed), Some(power)) => {
                    self.add_indoor_bike_data(IndoorBikeData { cadence, speed, power });
                },
                _ => {},
            }
            match (sample.speed, sample.distance) {
                (Some(speed), None) => {
                    let distance = self.calculate_total_distance(speed, now_ms);
                    passed_on.distance = Some(distance);
                },
                (_, Some(distance)) => {
                    self.set_total_distance(distance);
                },
                _ => {},
            }
        }
        passed_on
    }

    /// A copy of the session as it stands.
    pub fn get_session_data(&self) -> (data: Session)
        ensures
            data@ == self@,
    {
        Session {
            status: self.status,
            indoor_bike_data: self.indoor_bike_data.clone(),
            heart_rate_data: self.heart_rate_data.clone(),
            total_distance: self.total_distance,
            last_integration: self.last_integration,
        }
    }
}

/// Samples are kept only while the session is started. Of two heart rates
/// and two trainer samples, the first of each arriving after a start and the
/// second after a pause, a session that is then stopped has kept the first
/// and dropped the second.
pub proof fn lemma_samples_kept_only_while_started(
    session: SessionView,
    first_bpm: u16,
    second_bpm: u16,
    first_sample: IndoorBikeData,
    second_sample: IndoorBikeData,
)
    ensures
        session.start().add_heart_rate_data(first_bpm).pause().add_heart_rate_data(
            second_bpm,
        ).stop().heart_rate_data == session.heart_rate_data.push(first_bpm),
        session.start().add_indoor_bike_data(first_sample).pause().add_indoor_bike_data(
            second_sample,
        ).stop().indoor_bike_data == session.indoor_bike_data.push(first_sample),
        SessionView::new().start().add_heart_rate_data(first_bpm).pause().add_heart_rate_data(
            second_bpm,
        ).stop().heart_rate_data == seq![first_bpm],
{
    assert(Seq::<u16>::empty().push(first_bpm) =~= seq![first_bpm]);
}

/// A session that is not started lets every sample pass without a trace.
pub proof fn lemma_samples_dropped_unless_started(
    session: SessionView,
    bpm: u16,
    sample: IndoorBikeData,
    notification: crate::data::indoor_bike_data::IndoorBikeData,
    now_ms: u64,
)
    requires
        session.status != SessionStatus::Started,
    ensures
        session.add_heart_rate_data(bpm) == session,
        session.add_indoor_bike_data(sample) == session,
        session.record(notification, now_ms) == session,
        session.passed_on(notification, now_ms) == notification,
{
}

/// The status of a session changes only by a start, a pause or a stop:
/// samples and distances leave it as it is.
pub proof fn lemma_status_changes_only_on_request(
    session: SessionView,
    bpm: u16,
    sample: IndoorBikeData,
    notification: crate::data::indoor_bike_data::IndoorBikeData,
    distance: u32,
    speed: u16,
    now_ms: u64,
)
    ensures
        session.add_heart_rate_data(bpm).status == session.status,
        session.add_indoor_bike_data(sample).status == session.status,
        session.record(notification, now_ms).status == session.status,
        session.set_total_distance(distance).status == session.status,
        session.calculate_total_distance(speed, now_ms).status == session.status,
{
}

/// Distance is integrated from speed over time: the first integration adds
/// nothing, and each later one adds the speed in km/h times the milliseconds
/// since the one before, divided by 3600 and rounded down.
pub proof fn lemma_distance_is_integrated(
    session: SessionView,
    speed: u16,
    first_ms: u64,
    later_ms: u64,
)
    requires
        session.last_integration is None,
        first_ms <= later_ms,
    ensures
        session.calculate_total_distance(speed, first_ms).total_distance
            == session.total_distance,
        session.calculate_total_distance(speed, first_ms).calculate_total_distance(
            speed,
            later_ms,
        ).total_distance == session.total_distance + distance_travelled(
            speed,
            (later_ms - first_ms) as nat,
        ),
{
    let first = session.calculate_total_distance(speed, first_ms);
    assert(elapsed_since(session.last_integration, first_ms) == 0);
    assert(distance_travelled(speed, 0) == 0) by (nonlinear_arith);
    assert(first.total_distance == session.total_distance);
    assert(elapsed_since(first.last_integration, later_ms) == (later_ms - first_ms) as nat);
}

/// At 36 km/h each second adds ten metres.
pub proof fn lemma_ten_metres_a_second_at_36_kmh(session: SessionView, now_ms: u64)
    requires
        session.last_integration is Some,
        session.last_integration->0 + 1000 == now_ms,
        now_ms + 1000 <= u64::MAX,
    ensures
        session.calculate_total_distance(36, now_ms).total_distance == session.total_distance
            + 10,
        session.calculate_total_distance(36, now_ms).calculate_total_distance(
            36,
            (now_ms + 1000) as u64,
        ).total_distance == session.total_distance + 20,
{
}

} // verus!
