//! A stand-in for hardware: once a second it makes up a heart rate and a
//! trainer sample around two set-points and feeds them to a session of its
//! own, as the notifications of real devices would be.

use crate::ble::constants::StopControl;
use crate::data::heart_rate_measurement::HeartRateMeasurement;
use crate::data::indoor_bike_data::IndoorBikeData;
use crate::data::session::{Session, SessionStatus, SessionView};
use rand::rngs::ThreadRng;
use vstd::prelude::*;

verus! {

/// The simulated speed is drawn from this one up, in km/h.
pub const MIN_SPEED: u16 = 27;

/// The simulated speed stays below this one, in km/h.
pub const MAX_SPEED: u16 = 30;

/// How far the heart rate strays from its band, in beats per minute.
pub const HEART_RATE_JITTER: u16 = 5;

/// How far the cadence strays from its target, in rpm.
pub const CADENCE_JITTER: u16 = 5;

/// How far the power strays from its target, in watts.
pub const POWER_JITTER: u16 = 3;

/// The largest target power for which every simulated power is a valid
/// signed 16-bit number of watts.
pub const MAX_TARGET_POWER: u16 = 32765;

/// The largest target cadence whose upper bound is a 16-bit number.
pub const MAX_TARGET_CADENCE: u16 = 65530;

/// Whether the simulation runs.
#[derive(Clone, Copy, Debug, PartialEq, Eq, Structural)]
pub enum SimulationStatus {
    Started,
    Paused,
    Stopped,
}

/// The simulation engine: its run state, its session and its set-points.
#[derive(Debug)]
pub struct Simulation {
    pub status: SimulationStatus,
    pub session: Option<Session>,
    pub target_cadence: Option<u16>,
    pub target_power: Option<u16>,
}

/// What a simulation holds, as mathematical values.
pub struct SimulationView {
    pub status: SimulationStatus,
    pub session: Option<SessionView>,
    pub target_cadence: Option<u16>,
    pub target_power: Option<u16>,
}

/// The four numbers that one tick makes up.
#[derive(Clone, Copy, Debug, PartialEq, Eq, Structural)]
pub struct SimulatedValues {
    pub bpm: u16,
    pub cadence: u16,
    pub speed: u16,
    pub power: u16,
}

/// What the host does after a tick.
#[derive(Clone, Copy, Debug, PartialEq, Eq, Structural)]
pub enum SimulationStep {
    /// The simulation has been stopped: end the loop.
    Stop,
    /// Nothing to publish: wait for the next tick.
    Idle,
    /// Publish the two samples, then wait for the next tick.
    Emit(HeartRateMeasurement, IndoorBikeData),
}

/// The heart rate that goes with a target power and cadence, by thresholds.
/// The table is a plausible one, not a physiological model.
pub open spec fn heart_rate_band(power: u16, cadence: u16) -> u16 {
    if power < 100 && cadence < 100 {
        80
    } else if power < 110 && 80 < cadence < 100 {
        100
    } else if 100 < power < 150 && 80 < cadence < 100 {
        120
    } else if power > 120 {
        160
    } else {
        70
    }
}

/// The lower bound of a jittered value: `jitter` below the centre, and not
/// below zero.
pub open spec fn jitter_floor(centre: u16, jitter: u16) -> int {
    if centre >= jitter {
        centre - jitter
    } else {
        0
    }
}

/// Whether the upper ends of the ranges around the targets are 16-bit
/// numbers.
pub open spec fn targets_can_be_drawn(power: u16, cadence: u16) -> bool {
    power + POWER_JITTER <= u16::MAX && cadence + CADENCE_JITTER <= u16::MAX
}

/// Whether the targets are such that every value a tick may draw is a 16-bit
/// number, and every power a signed one.
pub open spec fn targets_in_range(power: u16, cadence: u16) -> bool {
    power <= MAX_TARGET_POWER && cadence <= MAX_TARGET_CADENCE
}

impl SimulatedValues {
    /// Whether the values lie in the ranges that the targets allow: the
    /// heart rate within 5 of its band, the cadence within 5 of its target,
    /// the power within 3 of its target, each range without its upper end,
    /// and the speed from 27 up to and without 30 km/h.
    pub open spec fn within(self, power: u16, cadence: u16) -> bool {
        &&& heart_rate_band(power, cadence) - HEART_RATE_JITTER <= self.bpm < heart_rate_band(
            power,
            cadence,
        ) + HEART_RATE_JITTER
        &&& jitter_floor(cadence, CADENCE_JITTER) <= self.cadence < cadence + CADENCE_JITTER
        &&& MIN_SPEED <= self.speed < MAX_SPEED
        &&& jitter_floor(power, POWER_JITTER) <= self.power < power + POWER_JITTER
    }

    /// The heart rate sample that the values stand for: the simulated sensor
    /// is always in contact.
    pub open spec fn heart_rate(self) -> HeartRateMeasurement {
        HeartRateMeasurement {
            bpm: self.bpm,
            is_sensor_contact_supported: true,
            is_sensor_in_contact: true,
        }
    }

    /// The trainer sample that the values stand for, with the distance that
    /// the session gave it.
    pub open spec fn bike_data(self, distance: Option<u32>) -> IndoorBikeData {
        IndoorBikeData {
            cadence: Some(self.cadence),
            speed: Some(self.speed),
            distance,
            power: Some(self.power as i16),
            average_speed: None,
            average_cadence: None,
            resistance_level: None,
        }
    }
}

impl SessionView {
    /// The session after a tick's values reached it at `now_ms`: the heart
    /// rate first, then the trainer sample, each as a notification of a real
    /// device would be taken.
    pub open spec fn simulate(self, values: SimulatedValues, now_ms: u64) -> SessionView {
        self.add_heart_rate_data(values.bpm).record(values.bike_data(None), now_ms)
    }

    /// Whether the distance of a tick at `now_ms` fits the session's total,
    /// whatever speed is drawn.
    pub open spec fn can_simulate(self, now_ms: u64) -> bool {
        self.status == SessionStatus::Started ==> forall|speed: u16|
            MIN_SPEED <= speed < MAX_SPEED ==> self.total_distance + #[trigger] self.distance_step(
                speed,
                now_ms,
            ) <= u32::MAX
    }
}

impl SimulationView {
    /// A simulation that waits to be started, with both targets at zero.
    pub open spec fn new() -> SimulationView {
        SimulationView {
            status: SimulationStatus::Paused,
            session: None,
            target_cadence: Some(0),
            target_power: Some(0),
        }
    }

    /// Whether a tick draws values: the simulation runs and has both
    /// targets.
    pub open spec fn is_live(self) -> bool {
        self.status == SimulationStatus::Started && self.target_power is Some
            && self.target_cadence is Some
    }

    /// The simulation after the values of a tick were applied.
    pub open spec fn apply(self, values: SimulatedValues, now_ms: u64) -> SimulationView {
        match self.session {
            Some(session) => SimulationView {
                session: Some(session.simulate(values, now_ms)),
                ..self
            },
            None => self,
        }
    }

    /// What is published after the values of a tick were applied: the heart
    /// rate, and the trainer sample as the session passes it on; without a
    /// session, the trainer sample as it was drawn.
    pub open spec fn published(self, values: SimulatedValues, now_ms: u64) -> SimulationStep {
        match self.session {
            Some(session) => SimulationStep::Emit(
                values.heart_rate(),
                session.add_heart_rate_data(values.bpm).passed_on(values.bike_data(None), now_ms),
            ),
            None => SimulationStep::Emit(values.heart_rate(), values.bike_data(None)),
        }
    }
}

impl View for Simulation {
    type V = SimulationView;

    open spec fn view(&self) -> SimulationView {
        SimulationView {
            status: self.status,
            session: match self.session {
                Some(session) => Some(session@),
                None => None,
            },
            target_cadence: self.target_cadence,
            target_power: self.target_power,
        }
    }
}

/// The thread-local generator of `rand`, `rand::thread_rng`. Nothing is
/// claimed of it.
#[verifier::external_type_specification]
#[verifier::external_body]
pub struct ExThreadRng(ThreadRng);

/// `rand::thread_rng`: hands out the generator of the calling thread.
/// Nothing is claimed of the result. The call panics only where the
/// operating system has no entropy to seed the generator with.
#[verifier::external_body]
fn thread_rng() -> ThreadRng {
    rand::thread_rng()
}

/// `rand::Rng::gen_range` on a range of `u16` without its upper end. The
/// range must not be empty, or the call panics. Whatever number is drawn, it
/// lies in the range: at least `low` and less than `high`.
#[verifier::external_body]
fn gen_range(rng: &mut ThreadRng, low: u16, high: u16) -> (value: u16)
    requires
        low < high,
    ensures
        low <= value < high,
{
    rand::Rng::gen_range(rng, low..high)
}

/// Computes [`heart_rate_band`].
pub fn get_heart_rate_band(power: u16, cadence: u16) -> (hr: u16)
    ensures
        hr == heart_rate_band(power, cadence),
{
    if power < 100 && cadence < 100 {
        80
    } else if power < 110 && cadence > 80 && cadence < 100 {
        100
    } else if power > 100 && power < 150 && cadence > 80 && cadence < 100 {
        120
    } else if power > 120 {
        160
    } else {
        70
    }
}

/// Draws the four values of a tick at random around the targets.
pub fn draw_values(target_power: u16, target_cadence: u16) -> (values: SimulatedValues)
    requires
        targets_can_be_drawn(target_power, target_cadence),
    ensures
        values.within(target_power, target_cadence),
{
    let mut rng = thread_rng();
    let hr: u16 = get_heart_rate_band(target_power, target_cadence);
    let min_hr: u16 = hr - HEART_RATE_JITTER;
    let min_cadence: u16 = if target_cadence >= CADENCE_JITTER {
        target_cadence - CADENCE_JITTER
    } else {
        0
    };
    let min_power: u16 = if target_power >= POWER_JITTER {
        target_power - POWER_JITTER
    } else {
        0
    };
    let bpm = gen_range(&mut rng, min_hr, hr + HEART_RATE_JITTER);
    let cadence = gen_range(&mut rng, min_cadence, target_cadence + CADENCE_JITTER);
    let speed = gen_range(&mut rng, MIN_SPEED, MAX_SPEED);
    let power = gen_range(&mut rng, min_power, target_power + POWER_JITTER);
    SimulatedValues { bpm, cadence, speed, power }
}

impl Simulation {
    /// A simulation that waits to be started, with both targets at zero and
    /// without a session.
    pub fn new() -> (simulation: Simulation)
        ensures
            simulation@ == SimulationView::new(),
    {
        Simulation {
            status: SimulationStatus::Paused,
            session: None,
            target_cadence: Some(0),
            target_power: Some(0),
        }
    }

    /// Lets the simulation run.
    pub fn start(&mut self)
        ensures
            final(self)@ == (SimulationView { status: SimulationStatus::Started, ..old(self)@ }),
    {
        self.status = SimulationStatus::Started;
    }

    /// Stops the simulation for `"stop"`, pauses it for `"pause"`, and lets
    /// it run for any other action.
    pub fn stop(&mut self, action: &str)
        ensures
            final(self)@ == (SimulationView {
                status: match StopControl::spec_from_action(action@) {
                    Some(StopControl::Stop) => SimulationStatus::Stopped,
                    Some(StopControl::Pause) => SimulationStatus::Paused,
                    None => SimulationStatus::Started,
                },
                ..old(self)@
            }),
    {
        let status = match StopControl::from_action(action) {
            Some(StopControl::Stop) => SimulationStatus::Stopped,
            Some(StopControl::Pause) => SimulationStatus::Paused,
            None => SimulationStatus::Started,
        };
        self.status = status;
    }

    /// Replaces the session by a new one, started.
    pub fn start_session(&mut self)
        ensures
            final(self)@ == (SimulationView {
                session: Some(SessionView::new().start()),
                ..old(self)@
            }),
    {
        let mut session = Session::new();
        session.start_session();
        self.session = Some(session);
    }

    /// Stops the session for `"stop"`, pauses it for `"pause"`. Any other
    /// action, and any action without a session, changes nothing.
    pub fn stop_session(&mut self, action: &str)
        ensures
            final(self)@ == (SimulationView {
                session: match (old(self)@.session, StopControl::spec_from_action(action@)) {
                    (Some(session), Some(StopControl::Stop)) => Some(session.stop()),
                    (Some(session), Some(StopControl::Pause)) => Some(session.pause()),
                    (session, _) => session,
                },
                ..old(self)@
            }),
    {
        let control = StopControl::from_action(action);
        match &mut self.session {
            Some(session) => {
                match control {
                    Some(StopControl::Stop) => session.stop_session(),
                    Some(StopControl::Pause) => session.pause_session(),
                    None => {},
                }
            },
            None => {},
        }
    }

    /// A copy of the session, or a new session where there is none.
    pub fn get_session_data(&self) -> (data: Session)
        ensures
            data@ == (match self@.session {
                Some(session) => session,
                None => SessionView::new(),
            }),
    {
        match &self.session {
            Some(session) => session.get_session_data(),
            None => Session::new(),
        }
    }

    /// Sets the power and the cadence around which values are drawn.
    pub fn set_targets(&mut self, power: u16, cadence: u16)
        ensures
            final(self)@ == (SimulationView {
                target_power: Some(power),
                target_cadence: Some(cadence),
                ..old(self)@
            }),
    {
        self.target_power = Some(power);
        self.target_cadence = Some(cadence);
    }

    /// Whether a tick at `now_ms` may be taken: the targets are in range and
    /// the distance of the tick fits the session's total.
    pub open spec fn spec_can_tick(&self, now_ms: u64) -> bool {
        self@.is_live() ==> {
            &&& targets_in_range(self.target_power->0, self.target_cadence->0)
            &&& self@.session matches Some(session) ==> session.can_simulate(now_ms)
        }
    }

    /// Whether a tick at `now_ms` may be taken: a simulation that runs and
    /// has its targets needs them in range, and a session whose total has
    /// room for the distance of the tick, whatever speed is drawn.
    #[verifier::when_used_as_spec(spec_can_tick)]
    pub fn can_tick(&self, now_ms: u64) -> (ready: bool)
        ensures
            ready == self.spec_can_tick(now_ms),
    {
        let (power, cadence) = match (self.status, self.target_power, self.target_cadence) {
            (SimulationStatus::Started, Some(power), Some(cadence)) => (power, cadence),
            _ => {
                return true;
            },
        };
        if power > MAX_TARGET_POWER || cadence > MAX_TARGET_CADENCE {
            return false;
        }
        match &self.session {
            Some(session) => {
                if session.status != SessionStatus::Started {
                    return true;
                }
                let fits = session.can_integrate(27, now_ms) && session.can_integrate(28, now_ms)
                    && session.can_integrate(29, now_ms);
                proof {
                    if fits {
                        assert forall|speed: u16| MIN_SPEED <= speed < MAX_SPEED implies session@.total_distance
                            + #[trigger] session@.distance_step(speed, now_ms) <= u32::MAX by {
                            assert(speed == 27 || speed == 28 || speed == 29);
                        }
                    } else {
                        assert(session@.total_distance + session@.distance_step(27, now_ms)
                            > u32::MAX || session@.total_distance + session@.distance_step(
                            28,
                            now_ms,
                        ) > u32::MAX || session@.total_distance + session@.distance_step(
                            29,
                            now_ms,
                        ) > u32::MAX);
                    }
                }
                fits
            },
            None => true,
        }
    }

    /// Feeds the values of a tick to the session, if there is one, and says
    /// what to publish.
    pub fn apply_values(&mut self, values: SimulatedValues, now_ms: u64) -> (step: SimulationStep)
        requires
            values.power <= i16::MAX,
            old(self)@.session matches Some(session) ==> session.status == SessionStatus::Started
                ==> session.total_distance + session.distance_step(values.speed, now_ms)
                <= u32::MAX,
        ensures
            final(self)@ == old(self)@.apply(values, now_ms),
            step == old(self)@.published(values, now_ms),
    {
        let hr_data = HeartRateMeasurement {
            bpm: values.bpm,
            is_sensor_in_contact: true,
            is_sensor_contact_supported: true,
        };
        let mut bike_data = IndoorBikeData {
            cadence: Some(values.cadence),
            speed: Some(values.speed),
            distance: None,
            power: Some(values.power as i16),
            average_speed: None,
            average_cadence: None,
            resistance_level: None,
        };
        match &mut self.session {
            Some(session) => {
                session.add_heart_rate_data(hr_data.bpm);
                bike_data = session.record(bike_data, now_ms);
            },
            None => {},
        }
        SimulationStep::Emit(hr_data, bike_data)
    }
}

/// One tick of the simulation at `now_ms` on the host's monotonic clock.
///
/// A stopped simulation ends the loop. A paused one, or one without both
/// targets, publishes nothing. A running one draws a heart rate, a cadence,
/// a speed and a power at random around the targets, feeds them to the
/// session and publishes them.
pub fn handle_notifications(simulation: &mut Simulation, now_ms: u64) -> (step: SimulationStep)
    requires
        old(simulation).can_tick(now_ms),
    ensures
        old(simulation).status == SimulationStatus::Stopped ==> step == SimulationStep::Stop
            && final(simulation)@ == old(simulation)@,
        old(simulation).status != SimulationStatus::Stopped && !old(simulation)@.is_live()
            ==> step == SimulationStep::Idle && final(simulation)@ == old(simulation)@,
        old(simulation)@.is_live() ==> exists|values: SimulatedValues|
            {
                &&& values.within(
                    old(simulation).target_power->0,
                    old(simulation).target_cadence->0,
                )
                &&& final(simulation)@ == #[trigger] old(simulation)@.apply(values, now_ms)
                &&& step == old(simulation)@.published(values, now_ms)
            },
{
    match simulation.status {
        SimulationStatus::Stopped => {
            return SimulationStep::Stop;
        },
        SimulationStatus::Paused => {
            return SimulationStep::Idle;
        },
        SimulationStatus::Started => {},
    }
    let target_power = match simulation.target_power {
        Some(power) => power,
        None => {
            return SimulationStep::Idle;
        },
    };
    let target_cadence = match simulation.target_cadence {
        Some(cadence) => cadence,
        None => {
            return SimulationStep::Idle;
        },
    };
    let values = draw_values(target_power, target_cadence);
    let step = simulation.apply_values(values, now_ms);
    step
}

} // verus!
