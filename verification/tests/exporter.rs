use veml7700_prometheus_exporter::config::{Config, ListenAddress, LogLevel};
use veml7700_prometheus_exporter::failure::Failure;
use veml7700_prometheus_exporter::protocol::{Action, Event};
use veml7700_prometheus_exporter::run::{Phase, Run};
use veml7700_prometheus_exporter::sensor::{Channel, Reading};

fn config() -> Config {
    Config {
        log_level: LogLevel::Info,
        i2c_device: String::from("/dev/i2c-1"),
        exporter_listen: ListenAddress::V4 { ipv4: 0, port: 9184 },
    }
}

fn failed(detail: &str) -> Event {
    Event::Failed { detail: String::from(detail) }
}

fn reading(white: f64, lux: f64) -> Reading {
    Reading { white: white.to_bits(), lux: lux.to_bits() }
}

/// An exporter whose startup has succeeded and that waits for a request.
fn serving() -> Run {
    let mut run = Run::new(config());
    for _ in 0..5 {
        assert!(run.run(Event::Completed).is_some());
    }
    assert_eq!(run.phase(), &Phase::WaitForRequest);
    run
}

/// Serves one request whose two bus reads end as given, and returns every
/// action the exporter asked for on the way.
fn serve(run: &mut Run, white: Option<f64>, lux: Option<f64>) -> Vec<Action> {
    let mut actions = vec![];
    let mut event = Event::RequestArrived;
    loop {
        let action = run.run(event).expect("the event answers the pending action");
        actions.push(action.clone());
        event = match action {
            Action::AwaitRequest => return actions,
            Action::ReadChannel { channel: Channel::White } => match white {
                Some(value) => Event::Read { bits: value.to_bits() },
                None => failed("i2c"),
            },
            Action::ReadChannel { channel: Channel::Lux } => match lux {
                Some(value) => Event::Read { bits: value.to_bits() },
                None => failed("i2c"),
            },
            _ => Event::Completed,
        };
    }
}

#[test]
fn startup_asks_for_five_operations_in_order() {
    let mut run = Run::new(config());
    assert_eq!(run.action(), Action::RegisterGauge { channel: Channel::White });
    assert_eq!(
        run.run(Event::Completed),
        Some(Action::RegisterGauge { channel: Channel::Lux })
    );
    assert_eq!(
        run.run(Event::Completed),
        Some(Action::OpenBus { device: String::from("/dev/i2c-1") })
    );
    assert_eq!(run.run(Event::Completed), Some(Action::EnableSensor));
    assert_eq!(
        run.run(Event::Completed),
        Some(Action::StartExporter { listen: ListenAddress::V4 { ipv4: 0, port: 9184 } })
    );
    assert_eq!(run.run(Event::Completed), Some(Action::AwaitRequest));
    assert_eq!(run.phase(), &Phase::WaitForRequest);
    assert_eq!(run.request_counter(), 0);
    assert_eq!(run.published(), None);
    assert_eq!(run.config(), &config());
}

#[test]
fn end_to_end_three_scrapes() {
    let mut run = serving();

    let first = serve(&mut run, Some(120.5), Some(14.3));
    assert_eq!(
        first,
        vec![
            Action::Tag { request_id: 0 },
            Action::ReadChannel { channel: Channel::White },
            Action::ReadChannel { channel: Channel::Lux },
            Action::Publish { reading: reading(120.5, 14.3) },
            Action::Release { request_id: 0 },
            Action::AwaitRequest,
        ]
    );
    let gauges = run.published().unwrap();
    assert_eq!(f64::from_bits(gauges.channel(Channel::White)), 120.5);
    assert_eq!(f64::from_bits(gauges.channel(Channel::Lux)), 14.3);

    let second = serve(&mut run, Some(1.0), None);
    assert_eq!(
        second,
        vec![
            Action::Tag { request_id: 1 },
            Action::ReadChannel { channel: Channel::White },
            Action::ReadChannel { channel: Channel::Lux },
            Action::ReportFailure {
                request_id: 1,
                failure: Failure::SensorRead { channel: Channel::Lux },
            },
            Action::Release { request_id: 1 },
            Action::AwaitRequest,
        ]
    );
    assert_eq!(run.published(), Some(reading(120.5, 14.3)));

    let third = serve(&mut run, Some(200.0), Some(30.0));
    assert_eq!(third[0], Action::Tag { request_id: 2 });
    assert_eq!(third[3], Action::Publish { reading: reading(200.0, 30.0) });
    assert_eq!(third[4], Action::Release { request_id: 2 });
    assert_eq!(run.published(), Some(reading(200.0, 30.0)));
    assert_eq!(run.request_counter(), 3);
}

#[test]
fn gauges_equal_each_reading_when_all_samples_succeed() {
    let mut run = serving();
    for i in 0..20u32 {
        let white = f64::from(i) * 1.5;
        let lux = f64::from(i) + 0.25;
        serve(&mut run, Some(white), Some(lux));
        assert_eq!(run.published(), Some(reading(white, lux)));
    }
}

#[test]
fn gauges_are_unset_until_a_sample_succeeds() {
    let mut run = serving();
    serve(&mut run, None, None);
    assert_eq!(run.published(), None);
    serve(&mut run, Some(3.0), None);
    assert_eq!(run.published(), None);
    serve(&mut run, Some(3.0), Some(4.0));
    assert_eq!(run.published(), Some(reading(3.0, 4.0)));
}

#[test]
fn failed_white_read_skips_lux_and_keeps_gauges() {
    let mut run = serving();
    serve(&mut run, Some(10.0), Some(20.0));
    let actions = serve(&mut run, None, Some(99.0));
    assert_eq!(
        actions,
        vec![
            Action::Tag { request_id: 1 },
            Action::ReadChannel { channel: Channel::White },
            Action::ReportFailure {
                request_id: 1,
                failure: Failure::SensorRead { channel: Channel::White },
            },
            Action::Release { request_id: 1 },
            Action::AwaitRequest,
        ]
    );
    assert_eq!(run.published(), Some(reading(10.0, 20.0)));
}

#[test]
fn white_alone_is_never_published() {
    let mut run = serving();
    serve(&mut run, Some(10.0), Some(20.0));
    let actions = serve(&mut run, Some(11.0), None);
    assert!(actions.iter().all(|action| !matches!(action, Action::Publish { .. })));
    assert_eq!(run.published(), Some(reading(10.0, 20.0)));
}

#[test]
fn gauges_change_only_once_publishing_is_done() {
    let mut run = serving();
    run.run(Event::RequestArrived);
    run.run(Event::Completed);
    run.run(Event::Read { bits: 1 });
    assert_eq!(
        run.run(Event::Read { bits: 2 }),
        Some(Action::Publish { reading: Reading { white: 1, lux: 2 } })
    );
    assert_eq!(run.published(), None);
    assert_eq!(run.run(Event::Completed), Some(Action::Release { request_id: 0 }));
    assert_eq!(run.published(), Some(Reading { white: 1, lux: 2 }));
}

#[test]
fn request_ids_count_up_by_one() {
    let mut run = serving();
    for expected in 0..50usize {
        assert_eq!(run.request_counter(), expected);
        let actions = serve(&mut run, if expected % 3 == 0 { None } else { Some(1.0) }, Some(2.0));
        assert_eq!(actions[0], Action::Tag { request_id: expected });
        assert_eq!(actions[actions.len() - 2], Action::Release { request_id: expected });
    }
    assert_eq!(run.request_counter(), 50);
}

#[test]
fn counter_moves_on_arrival_only() {
    let mut run = serving();
    run.run(Event::RequestArrived);
    assert_eq!(run.request_counter(), 1);
    run.run(Event::Completed);
    run.run(Event::Read { bits: 0 });
    run.run(failed("nack"));
    run.run(Event::Completed);
    run.run(Event::Completed);
    assert_eq!(run.phase(), &Phase::WaitForRequest);
    assert_eq!(run.request_counter(), 1);
}

#[test]
fn second_arrival_waits_for_the_release_of_the_first() {
    let mut run = serving();
    assert_eq!(run.run(Event::RequestArrived), Some(Action::Tag { request_id: 0 }));
    let events = [
        Event::Completed,
        Event::Read { bits: 5 },
        Event::Read { bits: 6 },
        Event::Completed,
        Event::Completed,
    ];
    for event in events {
        let phase = run.phase().clone();
        assert_eq!(run.run(Event::RequestArrived), None);
        assert_eq!(run.phase(), &phase);
        assert_eq!(run.request_counter(), 1);
        assert!(run.run(event).is_some());
    }
    assert_eq!(run.run(Event::RequestArrived), Some(Action::Tag { request_id: 1 }));
}

#[test]
fn events_that_do_not_answer_the_pending_action_change_nothing() {
    let mut run = Run::new(config());
    assert_eq!(run.run(Event::RequestArrived), None);
    assert_eq!(run.run(Event::Read { bits: 1 }), None);
    assert_eq!(run.phase(), &Phase::RegisterGauge { channel: Channel::White });

    let mut run = serving();
    assert_eq!(run.run(Event::Completed), None);
    assert_eq!(run.run(failed("x")), None);
    assert_eq!(run.run(Event::Read { bits: 1 }), None);
    assert_eq!(run.phase(), &Phase::WaitForRequest);

    run.run(Event::RequestArrived);
    assert_eq!(run.run(Event::Read { bits: 1 }), None);
    assert_eq!(run.run(failed("x")), None);
    assert_eq!(run.phase(), &Phase::Tag { request_id: 0 });

    run.run(Event::Completed);
    assert_eq!(run.run(Event::Completed), None);
    assert_eq!(run.phase(), &Phase::SampleWhite { request_id: 0 });

    run.run(Event::Read { bits: 1 });
    run.run(Event::Read { bits: 2 });
    assert_eq!(run.run(failed("x")), None);
    assert_eq!(run.run(Event::Read { bits: 3 }), None);
    assert_eq!(
        run.phase(),
        &Phase::Publish { request_id: 0, reading: Reading { white: 1, lux: 2 } }
    );
}

/// Startup in which the operation after `completed` successes fails.
fn failing_startup(completed: usize, detail: &str) -> (Run, Option<Action>) {
    let mut run = Run::new(config());
    for _ in 0..completed {
        run.run(Event::Completed);
    }
    let answer = run.run(failed(detail));
    (run, answer)
}

#[test]
fn startup_fails_if_the_white_gauge_fails_to_register() {
    let (run, answer) = failing_startup(0, "duplicate");
    let failure = Failure::GaugeRegistration { detail: String::from("duplicate") };
    assert_eq!(answer, Some(Action::Abort { failure: failure.clone() }));
    assert_eq!(run.phase(), &Phase::Failed { failure });
}

#[test]
fn startup_fails_if_the_lux_gauge_fails_to_register() {
    let (run, answer) = failing_startup(1, "duplicate");
    let failure = Failure::GaugeRegistration { detail: String::from("duplicate") };
    assert_eq!(answer, Some(Action::Abort { failure: failure.clone() }));
    assert_eq!(run.phase(), &Phase::Failed { failure });
}

#[test]
fn startup_fails_if_bus_open_fails() {
    let (run, answer) = failing_startup(2, "No such file or directory (os error 2)");
    let failure = Failure::BusOpen {
        device: String::from("/dev/i2c-1"),
        detail: String::from("No such file or directory (os error 2)"),
    };
    assert_eq!(answer, Some(Action::Abort { failure: failure.clone() }));
    assert_eq!(run.phase(), &Phase::Failed { failure });
}

#[test]
fn startup_fails_if_enable_fails() {
    let (run, answer) = failing_startup(3, "nack");
    assert_eq!(answer, Some(Action::Abort { failure: Failure::SensorEnable }));
    assert_eq!(run.phase(), &Phase::Failed { failure: Failure::SensorEnable });
}

#[test]
fn startup_fails_if_the_listener_fails() {
    let (run, answer) = failing_startup(4, "can not start http server: in use");
    let failure = Failure::Trigger { detail: String::from("can not start http server: in use") };
    assert_eq!(answer, Some(Action::Abort { failure: failure.clone() }));
    assert_eq!(run.phase(), &Phase::Failed { failure });
}

#[test]
fn failed_startup_starts_nothing() {
    for completed in 0..5 {
        let (mut run, answer) = failing_startup(completed, "broken");
        let abort = answer.unwrap();
        assert!(matches!(abort, Action::Abort { .. }));
        let phase = run.phase().clone();
        let later = [
            Event::Completed,
            Event::RequestArrived,
            Event::Read { bits: 1 },
            failed("again"),
            Event::Completed,
        ];
        for event in later {
            assert_eq!(run.run(event), None);
            assert_eq!(run.action(), abort);
            assert_eq!(run.phase(), &phase);
            assert_eq!(run.request_counter(), 0);
            assert_eq!(run.published(), None);
        }
    }
}

#[test]
fn same_events_give_the_same_exporter() {
    let events = || {
        vec![
            Event::Completed,
            Event::Completed,
            Event::Completed,
            Event::Completed,
            Event::Completed,
            Event::RequestArrived,
            Event::Completed,
            Event::Read { bits: 7 },
            failed("nack"),
        ]
    };
    let mut one = Run::new(config());
    let mut two = Run::new(config());
    let first: Vec<_> = events().into_iter().map(|event| one.run(event)).collect();
    let second: Vec<_> = events().into_iter().map(|event| two.run(event)).collect();
    assert_eq!(first, second);
    assert_eq!(one.phase(), two.phase());
    assert_eq!(one.phase(), &Phase::ReportFailure { request_id: 0, channel: Channel::Lux });
}

#[test]
fn listen_address_is_handed_on_unchanged() {
    let listen = ListenAddress::V6 { ipv6: 1, port: 9184, flowinfo: 0, scope_id: 3 };
    let mut run = Run::new(Config { exporter_listen: listen, ..config() });
    for _ in 0..3 {
        run.run(Event::Completed);
    }
    assert_eq!(run.run(Event::Completed), Some(Action::StartExporter { listen }));
}
