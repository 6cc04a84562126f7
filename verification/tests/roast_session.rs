use cambio_torrefaction::curve::{CurveFit, CurveSettings, value_window};
use cambio_torrefaction::roast::Roast;
use cambio_torrefaction::roasting::{Message, Rgb, Roasting, State, TempSensor, Update};
use cambio_torrefaction::sensor::{Event, TempData};

fn two_test_sensors(value_bounds: (i64, i64)) -> Vec<TempSensor> {
    let settings = CurveSettings { min: value_bounds.0, max: value_bounds.1, fit: CurveFit::Normal };
    vec![
        TempSensor::new(0, "A", Rgb { r: 0, g: 128, b: 255 }, settings, 0, 572104, 0),
        TempSensor::new(1, "B", Rgb { r: 255, g: 0, b: 0 }, settings, 0, 572104, 1),
    ]
}

// Scenario: a roast over two channels; channel A reads 20.0 degrees at
// t = 0 s and 22.0 degrees at t = 5 s. Under Fixed(0, 100) bounds on a
// 100 x 100 plot the first reading maps to (0, 80), and x is
// proportional to elapsed roast time.
#[test]
fn two_channel_roast_maps_readings() {
    let sensors = two_test_sensors((0, 100_000));
    let time_axis = CurveSettings { min: 0, max: 5_000, fit: CurveFit::Normal };
    let mut roast = Roast::new(&sensors, time_axis, 0);
    assert_eq!(roast.start_time, 0);
    assert_eq!(roast.last_time, 0);
    assert_eq!(roast.curves.len(), 2);

    assert!(roast.accept(0, TempData { temp: 20_000, time: 0 }));
    assert!(roast.accept(0, TempData { temp: 22_000, time: 5_000 }));
    assert_eq!(roast.last_time, 5_000);

    let path_a = roast.curve_path(0, 100, 100);
    assert_eq!(path_a, vec![(0, 80), (100, 78)]);
    let path_b = roast.curve_path(1, 100, 100);
    assert!(path_b.is_empty());
}

// A reading whose timestamp does not exceed the series' last accepted
// timestamp is dropped silently; every series stays strictly increasing.
#[test]
fn out_of_order_readings_are_rejected() {
    let sensors = two_test_sensors((0, 100_000));
    let time_axis = CurveSettings { min: 0, max: 1_020_000, fit: CurveFit::Padding(0, 10_000) };
    let mut roast = Roast::new(&sensors, time_axis, 0);

    assert!(roast.accept(0, TempData { temp: 20_000, time: 5_000 }));
    // duplicate timestamp: dropped
    assert!(!roast.accept(0, TempData { temp: 20_500, time: 5_000 }));
    // earlier timestamp: dropped
    assert!(!roast.accept(0, TempData { temp: 21_000, time: 4_000 }));
    // later: accepted
    assert!(roast.accept(0, TempData { temp: 21_000, time: 6_000 }));
    // the other channel has its own series and floor
    assert!(roast.accept(1, TempData { temp: 19_000, time: 5_500 }));

    let times: Vec<i64> = roast.curves[0].points.iter().map(|td| td.time).collect();
    assert_eq!(times, vec![5_000, 6_000]);
    for w in times.windows(2) {
        assert!(w[0] < w[1]);
    }
    assert_eq!(roast.last_time, 6_000);
}

#[test]
fn last_time_never_decreases() {
    let sensors = two_test_sensors((0, 100_000));
    let time_axis = CurveSettings { min: 0, max: 1_020_000, fit: CurveFit::Padding(0, 10_000) };
    let mut roast = Roast::new(&sensors, time_axis, 1_000);
    assert!(roast.accept(0, TempData { temp: 20_000, time: 9_000 }));
    assert_eq!(roast.last_time, 9_000);
    // accepted on channel 1 (its series is empty) but earlier than the
    // roast-wide last accepted instant: last_time stays put
    assert!(roast.accept(1, TempData { temp: 19_000, time: 3_000 }));
    assert_eq!(roast.last_time, 9_000);
}

// The full message loop: readings forwarded by live channels land in the
// active roast; stale readings after a detach do not.
#[test]
fn roast_collects_only_live_readings() {
    let (mut roasting, _) = Roasting::boot();
    roasting.update(Message::StartRoast(0));
    assert!(roasting.roast.is_some());

    roasting.update(Message::SensorUpdated(
        0,
        Update::EventReceived(Event::Change(TempData { temp: 20_000, time: 1_000 })),
    ));
    roasting.update(Message::SensorUpdated(0, Update::EventReceived(Event::Detach)));
    assert_eq!(roasting.sensors[0].state, State::Disconnected);
    // the stale task still delivers: ignored, not recorded
    roasting.update(Message::SensorUpdated(
        0,
        Update::EventReceived(Event::Change(TempData { temp: 30_000, time: 2_000 })),
    ));

    let roast = roasting.roast.as_ref().unwrap();
    assert_eq!(roast.curves[0].points.len(), 1);
    assert_eq!(roast.curves[0].points[0], TempData { temp: 20_000, time: 1_000 });
    assert_eq!(roast.last_time, 1_000);
}

#[test]
fn reconnect_keeps_connected_channels_and_history() {
    let (mut roasting, _) = Roasting::boot();
    roasting.update(Message::StartRoast(0));
    roasting.update(Message::SensorUpdated(
        0,
        Update::EventReceived(Event::Change(TempData { temp: 20_000, time: 1_000 })),
    ));
    roasting.update(Message::SensorUpdated(1, Update::EventReceived(Event::Detach)));

    let actions = roasting.update(Message::TryReconnect(2_000));
    // only the disconnected channel is retried
    assert_eq!(actions.len(), 1);
    assert_eq!(actions[0].id, 1);
    // the connected channel kept its task and reading
    assert_eq!(
        roasting.sensors[0].state,
        State::Connected(TempData { temp: 20_000, time: 1_000 })
    );
    // the roast kept its history
    let roast = roasting.roast.as_ref().unwrap();
    assert_eq!(roast.curves[0].points.len(), 1);
}

#[test]
fn stop_roast_discards_the_session() {
    let (mut roasting, _) = Roasting::boot();
    roasting.update(Message::StartRoast(500));
    roasting.update(Message::SensorUpdated(
        0,
        Update::EventReceived(Event::Change(TempData { temp: 20_000, time: 1_000 })),
    ));
    roasting.update(Message::StopRoast);
    assert!(roasting.roast.is_none());
    // a fresh session starts empty
    roasting.update(Message::StartRoast(2_000));
    let roast = roasting.roast.as_ref().unwrap();
    assert_eq!(roast.start_time, 2_000);
    assert!(roast.curves.iter().all(|c| c.points.is_empty()));
}

#[test]
fn padded_bounds_grow_as_readings_arrive() {
    let settings = CurveSettings { min: 0, max: 25_000, fit: CurveFit::Padding(1_000, 1_000) };
    let mut points: Vec<TempData> = Vec::new();
    let mut previous = value_window(&settings, &points);
    let readings = [
        TempData { temp: 20_000, time: 1 },
        TempData { temp: 26_000, time: 2 },
        TempData { temp: -3_000, time: 3 },
        TempData { temp: 10_000, time: 4 },
    ];
    for td in readings {
        points.push(td);
        let current = value_window(&settings, &points);
        assert!(current.0 <= previous.0 && previous.1 <= current.1);
        previous = current;
    }
    assert_eq!(previous, (-4_000, 27_000));
}

#[test]
fn always_fit_bounds_follow_the_series() {
    let settings = CurveSettings { min: 0, max: 230_000, fit: CurveFit::AlwaysFit(2_000, 2_000) };
    let mut points = vec![
        TempData { temp: 18_000, time: 1 },
        TempData { temp: 24_000, time: 2 },
    ];
    assert_eq!(value_window(&settings, &points), (16_000, 26_000));
    points.push(TempData { temp: 30_000, time: 3 });
    assert_eq!(value_window(&settings, &points), (16_000, 32_000));
}
