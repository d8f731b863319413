//! Tests of configuration validation: acceptance, and each rejection with
//! the index of the first offender.

use fancontrol::config::{
    Config, ConfigError, Device, InterpolationSettings, QuadraticSettings, Sensor,
};

fn sensor(nice_name: &str, n_sample_avg: i32) -> Sensor {
    Sensor {
        hwmon_name: String::from("k10temp"),
        nice_name: String::from(nice_name),
        sensor_name: String::from("temp1"),
        n_sample_avg,
    }
}

fn device(sensor_name: &str, interpolator: InterpolationSettings) -> Device {
    Device {
        hwmon_name: String::from("amdgpu"),
        nice_name: String::from("GPU"),
        max_temp: 95_000,
        temp_deadzone: 2,
        sensor_name: String::from(sensor_name),
        poll_mult: 1,
        interpolator,
    }
}

fn quad(a: i64) -> InterpolationSettings {
    InterpolationSettings::Quadratic(QuadraticSettings { a, b: 2_000, c: 1_000, t_threshold: 0 })
}

fn config(sensors: Vec<Sensor>, devices: Vec<Device>) -> Config {
    Config {
        loop_interval: 250,
        control_loop_ratio: 4,
        base_hwmon_path: String::from("/sys/class/hwmon"),
        charge_state_path: String::from("/sys/class/power_supply/BAT1/status"),
        fan_hwmon_name: String::from("jupiter"),
        fan_hwmon_name_alt: String::from("steamdeck_hwmon"),
        fan_min_speed: 1000,
        fan_threshold_speed: 1500,
        fan_max_speed: 7300,
        fan_gain: 10,
        ec_ramp_rate: 20,
        sensors,
        devices,
    }
}

#[test]
fn validate_accepts_good_config() {
    let c = config(
        vec![sensor("cpu", 4), sensor("gpu", 1)],
        vec![device("cpu", quad(1_000)), device("gpu", quad(0))],
    );
    assert_eq!(c.validate(), Ok(()));
}

#[test]
fn validate_accepts_empty_lists() {
    let c = config(vec![], vec![]);
    assert_eq!(c.validate(), Ok(()));
}

#[test]
fn validate_rejects_bad_sample_window() {
    let c = config(vec![sensor("cpu", 4), sensor("gpu", 0)], vec![]);
    assert_eq!(c.validate(), Err(ConfigError::InvalidSampleWindow { sensor_index: 1 }));
}

#[test]
fn validate_rejects_unknown_sensor() {
    let c = config(
        vec![sensor("cpu", 1)],
        vec![device("cpu", quad(0)), device("ssd", quad(0))],
    );
    assert_eq!(c.validate(), Err(ConfigError::UnknownSensor { device_index: 1 }));
}

#[test]
fn validate_rejects_out_of_range_parameter() {
    let c = config(vec![sensor("cpu", 1)], vec![device("cpu", quad(10_000_001))]);
    assert_eq!(c.validate(), Err(ConfigError::ParameterOutOfRange { device_index: 0 }));
}

#[test]
fn validate_reports_sensors_before_devices() {
    let c = config(vec![sensor("cpu", -3)], vec![device("ssd", quad(0))]);
    assert_eq!(c.validate(), Err(ConfigError::InvalidSampleWindow { sensor_index: 0 }));
}
