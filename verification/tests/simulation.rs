use cycling_trainer::data::heart_rate_measurement::HeartRateMeasurement;
use cycling_trainer::data::session::{IndoorBikeData, SessionStatus};
use cycling_trainer::data::simulation::{
    draw_values, get_heart_rate_band, handle_notifications, SimulatedValues, Simulation,
    SimulationStatus, SimulationStep,
};

#[test]
fn a_new_simulation_waits_with_targets_at_zero() {
    let simulation = Simulation::new();
    assert_eq!(simulation.status, SimulationStatus::Paused);
    assert!(simulation.session.is_none());
    assert_eq!(simulation.target_power, Some(0));
    assert_eq!(simulation.target_cadence, Some(0));
}

#[test]
fn heart_rate_bands() {
    assert_eq!(get_heart_rate_band(0, 0), 80);
    assert_eq!(get_heart_rate_band(99, 99), 80);
    assert_eq!(get_heart_rate_band(100, 90), 100);
    assert_eq!(get_heart_rate_band(109, 81), 100);
    assert_eq!(get_heart_rate_band(110, 90), 120);
    assert_eq!(get_heart_rate_band(149, 99), 120);
    assert_eq!(get_heart_rate_band(150, 90), 160);
    assert_eq!(get_heart_rate_band(121, 100), 160);
    assert_eq!(get_heart_rate_band(1000, 0), 160);
    assert_eq!(get_heart_rate_band(50, 100), 70);
    assert_eq!(get_heart_rate_band(100, 80), 70);
    assert_eq!(get_heart_rate_band(120, 100), 70);
    assert_eq!(get_heart_rate_band(105, 95), 100);
}

#[test]
fn drawn_values_lie_around_the_targets() {
    for _ in 0..500 {
        let values = draw_values(200, 90);
        assert!((155..165).contains(&values.bpm));
        assert!((85..95).contains(&values.cadence));
        assert!((27..30).contains(&values.speed));
        assert!((197..203).contains(&values.power));
    }
    for _ in 0..200 {
        let values = draw_values(0, 0);
        assert!((75..85).contains(&values.bpm));
        assert!(values.cadence < 5);
        assert!(values.power < 3);
    }
    let values = draw_values(32765, 65530);
    assert!((32762..=32767).contains(&values.power));
    assert!(values.cadence >= 65525);
    let values = draw_values(65532, 65530);
    assert!(values.power >= 65529);
}

#[test]
fn drawn_values_vary() {
    let first = draw_values(200, 90);
    let mut speeds = vec![];
    let mut differs = false;
    for _ in 0..500 {
        let values = draw_values(200, 90);
        differs = differs || values != first;
        if !speeds.contains(&values.speed) {
            speeds.push(values.speed);
        }
    }
    assert!(differs);
    // The lower bound is not all that is ever drawn.
    assert!(speeds.len() > 1);
}

#[test]
fn status_follows_start_and_stop() {
    let mut simulation = Simulation::new();
    simulation.start();
    assert_eq!(simulation.status, SimulationStatus::Started);
    simulation.stop("pause");
    assert_eq!(simulation.status, SimulationStatus::Paused);
    simulation.stop("stop");
    assert_eq!(simulation.status, SimulationStatus::Stopped);
    simulation.stop("anything else");
    assert_eq!(simulation.status, SimulationStatus::Started);
}

#[test]
fn session_of_the_simulation() {
    let mut simulation = Simulation::new();
    assert_eq!(simulation.get_session_data().status, SessionStatus::Stopped);
    simulation.stop_session("stop");
    assert!(simulation.session.is_none());
    simulation.start_session();
    assert_eq!(simulation.get_session_data().status, SessionStatus::Started);
    simulation.stop_session("pause");
    assert_eq!(simulation.get_session_data().status, SessionStatus::Paused);
    simulation.stop_session("resume");
    assert_eq!(simulation.get_session_data().status, SessionStatus::Paused);
    simulation.stop_session("stop");
    assert_eq!(simulation.get_session_data().status, SessionStatus::Stopped);
    // A new start replaces the session.
    simulation.start();
    simulation.start_session();
    handle_notifications(&mut simulation, 0);
    assert_eq!(simulation.get_session_data().heart_rate_data.len(), 1);
    simulation.start_session();
    assert!(simulation.get_session_data().heart_rate_data.is_empty());
}

#[test]
fn targets_are_set() {
    let mut simulation = Simulation::new();
    simulation.set_targets(250, 95);
    assert_eq!(simulation.target_power, Some(250));
    assert_eq!(simulation.target_cadence, Some(95));
}

#[test]
fn a_stopped_simulation_ends_the_loop() {
    let mut simulation = Simulation::new();
    simulation.start_session();
    simulation.stop("stop");
    assert_eq!(handle_notifications(&mut simulation, 0), SimulationStep::Stop);
    assert!(simulation.get_session_data().heart_rate_data.is_empty());
}

#[test]
fn a_paused_simulation_publishes_nothing() {
    let mut simulation = Simulation::new();
    simulation.start_session();
    assert_eq!(handle_notifications(&mut simulation, 0), SimulationStep::Idle);
    assert!(simulation.get_session_data().heart_rate_data.is_empty());
}

#[test]
fn a_simulation_without_targets_publishes_nothing() {
    let mut simulation = Simulation::new();
    simulation.start();
    simulation.target_power = None;
    assert_eq!(handle_notifications(&mut simulation, 0), SimulationStep::Idle);
    simulation.target_power = Some(100);
    simulation.target_cadence = None;
    assert_eq!(handle_notifications(&mut simulation, 0), SimulationStep::Idle);
}

#[test]
fn a_running_simulation_publishes_and_feeds_its_session() {
    let mut simulation = Simulation::new();
    simulation.set_targets(200, 90);
    simulation.start();
    simulation.start_session();
    let mut total = 0;
    for tick in 0..10u64 {
        let step = handle_notifications(&mut simulation, tick * 1_000);
        let SimulationStep::Emit(heart_rate, bike) = step else {
            panic!("nothing published");
        };
        assert!((155..165).contains(&heart_rate.bpm));
        assert!(heart_rate.is_sensor_contact_supported && heart_rate.is_sensor_in_contact);
        let speed = bike.speed.unwrap();
        assert!((27..30).contains(&speed));
        assert!((85..95).contains(&bike.cadence.unwrap()));
        assert!((197..203).contains(&bike.power.unwrap()));
        if tick > 0 {
            total += speed as u32 * 1_000 / 3_600;
        }
        assert_eq!(bike.distance, Some(total));
        let session = simulation.get_session_data();
        assert_eq!(session.heart_rate_data.len(), tick as usize + 1);
        assert_eq!(session.heart_rate_data.last(), Some(&heart_rate.bpm));
        assert_eq!(
            session.indoor_bike_data.last(),
            Some(&IndoorBikeData {
                cadence: bike.cadence.unwrap(),
                speed,
                power: bike.power.unwrap()
            })
        );
        assert_eq!(session.total_distance, total);
    }
}

#[test]
fn without_a_started_session_values_are_published_without_distance() {
    let mut simulation = Simulation::new();
    simulation.start();
    let SimulationStep::Emit(_, bike) = handle_notifications(&mut simulation, 0) else {
        panic!("nothing published");
    };
    assert_eq!(bike.distance, None);
    assert!(simulation.session.is_none());
    simulation.start_session();
    simulation.stop_session("pause");
    let SimulationStep::Emit(_, bike) = handle_notifications(&mut simulation, 1_000) else {
        panic!("nothing published");
    };
    assert_eq!(bike.distance, None);
    let session = simulation.get_session_data();
    assert!(session.heart_rate_data.is_empty());
    assert!(session.indoor_bike_data.is_empty());
}

#[test]
fn given_values_are_applied_exactly() {
    let mut simulation = Simulation::new();
    simulation.start_session();
    let values = SimulatedValues { bpm: 150, cadence: 88, speed: 36, power: 210 };
    simulation.apply_values(values, 0);
    let step = simulation.apply_values(values, 1_000);
    assert_eq!(
        step,
        SimulationStep::Emit(
            HeartRateMeasurement {
                bpm: 150,
                is_sensor_contact_supported: true,
                is_sensor_in_contact: true
            },
            cycling_trainer::data::indoor_bike_data::IndoorBikeData {
                cadence: Some(88),
                speed: Some(36),
                distance: Some(10),
                power: Some(210),
                average_speed: None,
                average_cadence: None,
                resistance_level: None,
            }
        )
    );
    let session = simulation.get_session_data();
    assert_eq!(session.heart_rate_data, vec![150, 150]);
    assert_eq!(session.total_distance, 10);
}
