use veml7700_prometheus_exporter::config::LogLevel;
use veml7700_prometheus_exporter::failure::Failure;
use veml7700_prometheus_exporter::sensor::{Channel, Reading};

#[test]
fn bus_open_message_quotes_the_device() {
    let failure = Failure::BusOpen {
        device: String::from("/dev/i2c-1"),
        detail: String::from("No such file or directory (os error 2)"),
    };
    assert_eq!(
        failure.message(),
        "Cannot initialize i2c device \"/dev/i2c-1\": No such file or directory (os error 2)"
    );
}

#[test]
fn bus_open_message_escapes_as_a_path_does() {
    let device = "/dev/my \"bus\"\n";
    let failure = Failure::BusOpen { device: String::from(device), detail: String::from("x") };
    let expected = format!(
        "Cannot initialize i2c device {:?}: x",
        std::path::PathBuf::from(device)
    );
    assert_eq!(failure.message(), expected);
    assert_eq!(
        failure.message(),
        "Cannot initialize i2c device \"/dev/my \\\"bus\\\"\\n\": x"
    );
}

#[test]
fn sensor_messages() {
    assert_eq!(Failure::SensorEnable.message(), "Cannot enable sensor");
    assert_eq!(
        Failure::SensorRead { channel: Channel::White }.message(),
        "Cannot read white from sensor"
    );
    assert_eq!(
        Failure::SensorRead { channel: Channel::Lux }.message(),
        "Cannot read LUX from sensor"
    );
}

#[test]
fn outside_reports_are_passed_on_as_they_are() {
    let registration = Failure::GaugeRegistration {
        detail: String::from("Duplicate metrics collector registration attempted"),
    };
    assert_eq!(registration.message(), "Duplicate metrics collector registration attempted");
    let trigger = Failure::Trigger {
        detail: String::from("can not start http server: Address already in use (os error 98)"),
    };
    assert_eq!(
        trigger.message(),
        "can not start http server: Address already in use (os error 98)"
    );
}

#[test]
fn duplicate_is_equal() {
    let failures = [
        Failure::GaugeRegistration { detail: String::from("a") },
        Failure::BusOpen { device: String::from("b"), detail: String::from("c") },
        Failure::SensorEnable,
        Failure::SensorRead { channel: Channel::Lux },
        Failure::Trigger { detail: String::from("d") },
    ];
    for failure in failures {
        assert_eq!(failure.duplicate(), failure);
    }
}

#[test]
fn gauge_names_and_help() {
    assert_eq!(Channel::White.gauge_name(), "veml7700_white");
    assert_eq!(Channel::Lux.gauge_name(), "veml7700_lux");
    assert_eq!(Channel::White.gauge_help(), "VEML7700 abient light white");
    assert_eq!(Channel::Lux.gauge_help(), "VEML7700 abient light LUX");
}

#[test]
fn reading_by_channel() {
    let reading = Reading { white: 120.5f64.to_bits(), lux: 14.3f64.to_bits() };
    assert_eq!(f64::from_bits(reading.channel(Channel::White)), 120.5);
    assert_eq!(f64::from_bits(reading.channel(Channel::Lux)), 14.3);
}

#[test]
fn log_levels_map_to_slog_levels_of_the_same_name() {
    assert_eq!(slog::Level::from(LogLevel::Critical), slog::Level::Critical);
    assert_eq!(slog::Level::from(LogLevel::Error), slog::Level::Error);
    assert_eq!(slog::Level::from(LogLevel::Warning), slog::Level::Warning);
    assert_eq!(slog::Level::from(LogLevel::Info), slog::Level::Info);
    assert_eq!(slog::Level::from(LogLevel::Debug), slog::Level::Debug);
    assert_eq!(slog::Level::from(LogLevel::Trace), slog::Level::Trace);
    let level: slog::Level = LogLevel::Warning.into();
    assert_eq!(level.as_usize(), 3);
}
