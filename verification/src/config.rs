//! Configuration model: sensors, cooled devices, and the numeric parameters
//! of each interpolation strategy.
//!
//! The surrounding daemon loads these values from its configuration file and
//! hands them over fully populated; [`Config::validate`] then rejects, before
//! any control step runs, every shape the strategies cannot accept: a sample
//! averaging window below one, a device naming no known sensor, or a
//! parameter outside the fixed-point range.

use crate::fixed::{in_param, PARAM_LIMIT};
use vstd::prelude::*;

verus! {

/// One hardware temperature source.
pub struct Sensor {
    /// Hardware-monitor identifier of the chip exposing the reading.
    pub hwmon_name: String,
    /// Human-readable name; devices refer to their sensor by this name.
    pub nice_name: String,
    /// Channel name within the hardware monitor.
    pub sensor_name: String,
    /// Count of samples to average; must be at least one.
    pub n_sample_avg: i32,
}

impl Sensor {
    /// The sample-averaging window is usable.
    pub open spec fn wf(&self) -> bool {
        self.n_sample_avg >= 1
    }
}

/// Parameters of the stateless quadratic curve `A*x*x + B*x + C`.
#[derive(Clone, Copy)]
pub struct QuadraticSettings {
    /// Quadratic coefficient, fixed-point.
    pub a: i64,
    /// Linear coefficient, fixed-point.
    pub b: i64,
    /// Constant coefficient, fixed-point.
    pub c: i64,
    /// Temperature threshold carried by the configuration; no strategy
    /// consumes it today.
    pub t_threshold: i64,
}

impl QuadraticSettings {
    /// Every coefficient lies within the fixed-point parameter range.
    pub open spec fn wf(&self) -> bool {
        &&& in_param(self.a as int)
        &&& in_param(self.b as int)
        &&& in_param(self.c as int)
        &&& in_param(self.t_threshold as int)
    }
}

/// Parameters of the quadratic-plus-feedforward strategy.
#[derive(Clone, Copy)]
pub struct FeedforwardQuadraticSettings {
    /// Quadratic coefficient of the inner curve, fixed-point.
    pub a_quad: i64,
    /// Linear coefficient of the inner curve, fixed-point.
    pub b_quad: i64,
    /// Constant coefficient of the inner curve, fixed-point.
    pub c_quad: i64,
    /// First feedforward factor, fixed-point.
    pub a_ff: i64,
    /// Second feedforward factor, fixed-point.
    pub b_ff: i64,
}

impl FeedforwardQuadraticSettings {
    /// Every coefficient lies within the fixed-point parameter range.
    pub open spec fn wf(&self) -> bool {
        &&& in_param(self.a_quad as int)
        &&& in_param(self.b_quad as int)
        &&& in_param(self.c_quad as int)
        &&& in_param(self.a_ff as int)
        &&& in_param(self.b_ff as int)
    }
}

/// Parameters of the PID feedback controller.
#[derive(Clone, Copy)]
pub struct PIDSettings {
    /// Target temperature, fixed-point.
    pub t_setpoint: i64,
    /// Proportional gain, fixed-point.
    pub k_p: i64,
    /// Integral gain, fixed-point.
    pub k_i: i64,
    /// Derivative gain, fixed-point.
    pub k_d: i64,
    /// Saturation bound for the integral accumulator; nonnegative.
    pub windup_limit: i64,
}

impl PIDSettings {
    /// Every parameter lies within the fixed-point parameter range and the
    /// windup limit is a usable clamp bound.
    pub open spec fn wf(&self) -> bool {
        &&& in_param(self.t_setpoint as int)
        &&& in_param(self.k_p as int)
        &&& in_param(self.k_i as int)
        &&& in_param(self.k_d as int)
        &&& in_param(self.windup_limit as int)
        &&& self.windup_limit >= 0
    }
}

/// The closed set of interpolation strategies a device can be configured
/// with, each variant carrying only that strategy's numeric parameters.
#[derive(Clone, Copy)]
pub enum InterpolationSettings {
    /// Stateless quadratic curve.
    Quadratic(QuadraticSettings),
    /// Quadratic curve plus debounced feedforward term.
    FFQuad(FeedforwardQuadraticSettings),
    /// PID feedback controller.
    PID(PIDSettings),
}

impl InterpolationSettings {
    /// The carried parameters are acceptable for the tagged strategy.
    pub open spec fn wf(&self) -> bool {
        match *self {
            InterpolationSettings::Quadratic(q) => q.wf(),
            InterpolationSettings::FFQuad(f) => f.wf(),
            InterpolationSettings::PID(p) => p.wf(),
        }
    }
}

/// One cooled component and the strategy that controls its fan share.
pub struct Device {
    /// Hardware-monitor identifier of the component.
    pub hwmon_name: String,
    /// Display name.
    pub nice_name: String,
    /// Maximum safe temperature, fixed-point.
    pub max_temp: i64,
    /// Temperature band below which control changes would be suppressed;
    /// carried by the configuration, consumed by no strategy today.
    pub temp_deadzone: i32,
    /// Name of the sensor this device reads, matching a sensor's
    /// human-readable name.
    pub sensor_name: String,
    /// Run this device's control step once every this many daemon ticks.
    pub poll_mult: i32,
    /// The interpolation strategy and its parameters.
    pub interpolator: InterpolationSettings,
}

/// Root of the configuration: global loop parameters, fan actuator bounds,
/// and the sensor and device lists. Pure value data.
pub struct Config {
    /// Base polling interval of the daemon loop, fixed-point seconds.
    pub loop_interval: i64,
    /// Run the full device sweep once every this many base ticks.
    pub control_loop_ratio: i32,
    /// Filesystem path of the hardware-monitor tree.
    pub base_hwmon_path: String,
    /// Filesystem path of the charge-state file.
    pub charge_state_path: String,
    /// Hardware-monitor name of the fan actuator.
    pub fan_hwmon_name: String,
    /// Alternative hardware-monitor name of the fan actuator.
    pub fan_hwmon_name_alt: String,
    /// Lowest fan speed the actuation layer will command.
    pub fan_min_speed: i32,
    /// Fan speed threshold of the actuation layer.
    pub fan_threshold_speed: i32,
    /// Highest fan speed the actuation layer will command.
    pub fan_max_speed: i32,
    /// Gain applied by the actuation layer.
    pub fan_gain: i32,
    /// Ramp-rate limit of the embedded controller.
    pub ec_ramp_rate: i32,
    /// The temperature sources.
    pub sensors: Vec<Sensor>,
    /// The cooled components.
    pub devices: Vec<Device>,
}

/// Why a configuration was rejected at startup.
#[derive(Clone, Copy, Debug, PartialEq, Eq, Structural)]
pub enum ConfigError {
    /// The sensor at this index has a sample-averaging window below one.
    InvalidSampleWindow { sensor_index: usize },
    /// The device at this index carries a strategy parameter outside the
    /// fixed-point range.
    ParameterOutOfRange { device_index: usize },
    /// The device at this index names a sensor no sensor list entry has.
    UnknownSensor { device_index: usize },
}

/// Some sensor in the list carries this human-readable name.
pub open spec fn sensor_named(sensors: Seq<Sensor>, name: Seq<char>) -> bool {
    exists|i: int| 0 <= i < sensors.len() && sensors[i].nice_name@ == name
}

/// The device's parameters are acceptable and its sensor reference resolves.
pub open spec fn device_ok(d: Device, sensors: Seq<Sensor>) -> bool {
    &&& d.interpolator.wf()
    &&& sensor_named(sensors, d.sensor_name@)
}

impl Config {
    /// Every sensor and every device is acceptable.
    pub open spec fn wf(&self) -> bool {
        &&& forall|i: int| 0 <= i < self.sensors@.len() ==> self.sensors@[i].wf()
        &&& forall|i: int|
            0 <= i < self.devices@.len() ==> device_ok(self.devices@[i], self.sensors@)
    }

    /// Accepts the configuration exactly when every sensor and device is
    /// acceptable; otherwise reports the first offender, sensors first, and
    /// for a device its parameter range before its sensor reference.
    pub fn validate(&self) -> (r: Result<(), ConfigError>)
        ensures
            r is Ok <==> self.wf(),
            match r {
                Ok(()) => self.wf(),
                Err(e) => match e {
                    ConfigError::InvalidSampleWindow { sensor_index } => {
                        &&& sensor_index < self.sensors@.len()
                        &&& !self.sensors@[sensor_index as int].wf()
                        &&& forall|j: int| 0 <= j < sensor_index ==> self.sensors@[j].wf()
                    },
                    ConfigError::ParameterOutOfRange { device_index } => {
                        &&& forall|j: int| 0 <= j < self.sensors@.len() ==> self.sensors@[j].wf()
                        &&& device_index < self.devices@.len()
                        &&& !self.devices@[device_index as int].interpolator.wf()
                        &&& forall|j: int|
                            0 <= j < device_index ==> device_ok(self.devices@[j], self.sensors@)
                    },
                    ConfigError::UnknownSensor { device_index } => {
                        &&& forall|j: int| 0 <= j < self.sensors@.len() ==> self.sensors@[j].wf()
                        &&& device_index < self.devices@.len()
                        &&& self.devices@[device_index as int].interpolator.wf()
                        &&& !sensor_named(
                            self.sensors@,
                            self.devices@[device_index as int].sensor_name@,
                        )
                        &&& forall|j: int|
                            0 <= j < device_index ==> device_ok(self.devices@[j], self.sensors@)
                    },
                },
            },
    {
        let mut i: usize = 0;
        while i < self.sensors.len()
            invariant
                i <= self.sensors@.len(),
                forall|j: int| 0 <= j < i ==> self.sensors@[j].wf(),
            decreases self.sensors@.len() - i,
        {
            if self.sensors[i].n_sample_avg < 1 {
                return Err(ConfigError::InvalidSampleWindow { sensor_index: i });
            }
            i += 1;
        }
        let mut d: usize = 0;
        while d < self.devices.len()
            invariant
                d <= self.devices@.len(),
                forall|j: int| 0 <= j < self.sensors@.len() ==> self.sensors@[j].wf(),
                forall|j: int| 0 <= j < d ==> device_ok(self.devices@[j], self.sensors@),
            decreases self.devices@.len() - d,
        {
            let dev = &self.devices[d];
            if !settings_in_range(&dev.interpolator) {
                return Err(ConfigError::ParameterOutOfRange { device_index: d });
            }
            if !sensor_exists(&self.sensors, &dev.sensor_name) {
                return Err(ConfigError::UnknownSensor { device_index: d });
            }
            d += 1;
        }
        Ok(())
    }
}

/// Whether one fixed-point parameter lies within the accepted range.
fn param_in_range(x: i64) -> (r: bool)
    ensures
        r == in_param(x as int),
{
    -PARAM_LIMIT <= x && x <= PARAM_LIMIT
}

/// Whether every parameter of the tagged strategy lies within the accepted
/// range.
fn settings_in_range(s: &InterpolationSettings) -> (r: bool)
    ensures
        r == s.wf(),
{
    match s {
        InterpolationSettings::Quadratic(q) => {
            param_in_range(q.a) && param_in_range(q.b) && param_in_range(q.c) && param_in_range(
                q.t_threshold,
            )
        },
        InterpolationSettings::FFQuad(f) => {
            param_in_range(f.a_quad) && param_in_range(f.b_quad) && param_in_range(f.c_quad)
                && param_in_range(f.a_ff) && param_in_range(f.b_ff)
        },
        InterpolationSettings::PID(p) => {
            param_in_range(p.t_setpoint) && param_in_range(p.k_p) && param_in_range(p.k_i)
                && param_in_range(p.k_d) && param_in_range(p.windup_limit) && p.windup_limit >= 0
        },
    }
}

/// Whether some sensor carries the given human-readable name.
fn sensor_exists(sensors: &Vec<Sensor>, name: &String) -> (r: bool)
    ensures
        r == sensor_named(sensors@, name@),
{
    let mut i: usize = 0;
    while i < sensors.len()
        invariant
            i <= sensors@.len(),
            forall|j: int| 0 <= j < i ==> sensors@[j].nice_name@ != name@,
        decreases sensors@.len() - i,
    {
        if sensors[i].nice_name == *name {
            return true;
        }
        i += 1;
    }
    false
}

} // verus!
