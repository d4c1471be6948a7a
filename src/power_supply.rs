//! Power supplies of `/sys/class/power_supply`.
use vstd::prelude::*;
use crate::attrs::{attr_i64, attr_i64_ok, attr_text, read_i64, read_text};
use crate::error::MetricError;
use crate::kv::PairView;

verus! {


/// A power supply: mains adapter or battery.
#[derive(Debug, Clone)]
pub struct PowerSupply {
    pub authentic: Option<i64>,
    pub calibrate: Option<i64>,
    pub capacity: Option<i64>,
    pub capacity_alert_max: Option<i64>,
    pub capacity_alert_min: Option<i64>,
    pub capacity_level: Option<String>,
    pub charge_avg: Option<i64>,
    pub charge_control_limit: Option<i64>,
    pub charge_control_limit_max: Option<i64>,
    pub charge_counter: Option<i64>,
    pub charge_empty: Option<i64>,
    pub charge_empty_design: Option<i64>,
    pub charge_start_threshold: Option<i64>,
    pub charge_stop_threshold: Option<i64>,
    pub charge_full: Option<i64>,
    pub charge_full_design: Option<i64>,
    pub charge_now: Option<i64>,
    pub charge_term_current: Option<i64>,
    pub charge_type: Option<String>,
    pub constant_charge_current: Option<i64>,
    pub constant_charge_current_max: Option<i64>,
    pub constant_charge_voltage: Option<i64>,
    pub constant_charge_voltage_max: Option<i64>,
    pub current_avg: Option<i64>,
    pub current_boot: Option<i64>,
    pub current_max: Option<i64>,
    pub current_now: Option<i64>,
    pub cycle_count: Option<i64>,
    pub energy_avg: Option<i64>,
    pub energy_empty: Option<i64>,
    pub energy_empty_design: Option<i64>,
    pub energy_full: Option<i64>,
    pub energy_full_design: Option<i64>,
    pub energy_now: Option<i64>,
    pub health: Option<String>,
    pub input_current_limit: Option<i64>,
    pub manufacturer: Option<String>,
    pub model_name: Option<String>,
    pub online: Option<i64>,
    pub power_avg: Option<i64>,
    pub power_now: Option<i64>,
    pub precharge_current: Option<i64>,
    pub present: Option<i64>,
    pub scope: Option<String>,
    pub serial_number: Option<String>,
    pub status: Option<String>,
    pub technology: Option<String>,
    pub temp: Option<i64>,
    pub temp_alert_max: Option<i64>,
    pub temp_alert_min: Option<i64>,
    pub temp_ambient: Option<i64>,
    pub temp_ambient_max: Option<i64>,
    pub temp_ambient_min: Option<i64>,
    pub temp_max: Option<i64>,
    pub temp_min: Option<i64>,
    pub time_to_empty_avg: Option<i64>,
    pub time_to_empty_now: Option<i64>,
    pub time_to_full_avg: Option<i64>,
    pub time_to_full_now: Option<i64>,
    pub ps_type: Option<String>,
    pub usb_type: Option<String>,
    pub voltage_avg: Option<i64>,
    pub voltage_boot: Option<i64>,
    pub voltage_max: Option<i64>,
    pub voltage_max_design: Option<i64>,
    pub voltage_min: Option<i64>,
    pub voltage_min_design: Option<i64>,
    pub voltage_now: Option<i64>,
    pub voltage_ocv: Option<i64>,
}

impl PowerSupply {
    /// Each field holds what the attribute files give it.
    pub open spec fn read_from(&self, attrs: Seq<PairView>) -> bool {
        self.authentic == attr_i64(attrs, "authentic"@)
            && self.calibrate == attr_i64(attrs, "calibrate"@)
            && self.capacity == attr_i64(attrs, "capacity"@)
            && self.capacity_alert_max == attr_i64(attrs, "capacity_alert_max"@)
            && self.capacity_alert_min == attr_i64(attrs, "capacity_alert_min"@)
            && self.capacity_level.deep_view() == attr_text(attrs, "capacity_level"@)
            && self.charge_avg == attr_i64(attrs, "charge_avg"@)
            && self.charge_control_limit == attr_i64(attrs, "charge_control_limit"@)
            && self.charge_control_limit_max == attr_i64(attrs, "charge_control_limit_max"@)
            && self.charge_counter == attr_i64(attrs, "charge_counter"@)
            && self.charge_empty == attr_i64(attrs, "charge_empty"@)
            && self.charge_empty_design == attr_i64(attrs, "charge_empty_design"@)
            && self.charge_start_threshold == attr_i64(attrs, "charge_start_threshold"@)
            && self.charge_stop_threshold == attr_i64(attrs, "charge_stop_threshold"@)
            && self.charge_full == attr_i64(attrs, "charge_full"@)
            && self.charge_full_design == attr_i64(attrs, "charge_full_design"@)
            && self.charge_now == attr_i64(attrs, "charge_now"@)
            && self.charge_term_current == attr_i64(attrs, "charge_term_current"@)
            && self.charge_type.deep_view() == attr_text(attrs, "charge_type"@)
            && self.constant_charge_current == attr_i64(attrs, "constant_charge_current"@)
            && self.constant_charge_current_max == attr_i64(attrs, "constant_charge_current_max"@)
            && self.constant_charge_voltage == attr_i64(attrs, "constant_charge_voltage"@)
            && self.constant_charge_voltage_max == attr_i64(attrs, "constant_charge_voltage_max"@)
            && self.current_avg == attr_i64(attrs, "current_avg"@)
            && self.current_boot == attr_i64(attrs, "current_boot"@)
            && self.current_max == attr_i64(attrs, "current_max"@)
            && self.current_now == attr_i64(attrs, "current_now"@)
            && self.cycle_count == attr_i64(attrs, "cycle_count"@)
            && self.energy_avg == attr_i64(attrs, "energy_avg"@)
            && self.energy_empty == attr_i64(attrs, "energy_empty"@)
            && self.energy_empty_design == attr_i64(attrs, "energy_empty_design"@)
            && self.energy_full == attr_i64(attrs, "energy_full"@)
            && self.energy_full_design == attr_i64(attrs, "energy_full_design"@)
            && self.energy_now == attr_i64(attrs, "energy_now"@)
            && self.health.deep_view() == attr_text(attrs, "health"@)
            && self.input_current_limit == attr_i64(attrs, "input_current_limit"@)
            && self.manufacturer.deep_view() == attr_text(attrs, "manufacturer"@)
            && self.model_name.deep_view() == attr_text(attrs, "model_name"@)
            && self.online == attr_i64(attrs, "online"@)
            && self.power_avg == attr_i64(attrs, "power_avg"@)
            && self.power_now == attr_i64(attrs, "power_now"@)
            && self.precharge_current == attr_i64(attrs, "precharge_current"@)
            && self.present == attr_i64(attrs, "present"@)
            && self.scope.deep_view() == attr_text(attrs, "scope"@)
            && self.serial_number.deep_view() == attr_text(attrs, "serial_number"@)
            && self.status.deep_view() == attr_text(attrs, "status"@)
            && self.technology.deep_view() == attr_text(attrs, "technology"@)
            && self.temp == attr_i64(attrs, "temp"@)
            && self.temp_alert_max == attr_i64(attrs, "temp_alert_max"@)
            && self.temp_alert_min == attr_i64(attrs, "temp_alert_min"@)
            && self.temp_ambient == attr_i64(attrs, "temp_ambient"@)
            && self.temp_ambient_max == attr_i64(attrs, "temp_ambient_max"@)
            && self.temp_ambient_min == attr_i64(attrs, "temp_ambient_min"@)
            && self.temp_max == attr_i64(attrs, "temp_max"@)
            && self.temp_min == attr_i64(attrs, "temp_min"@)
            && self.time_to_empty_avg == attr_i64(attrs, "time_to_empty_avg"@)
            && self.time_to_empty_now == attr_i64(attrs, "time_to_empty_now"@)
            && self.time_to_full_avg == attr_i64(attrs, "time_to_full_avg"@)
            && self.time_to_full_now == attr_i64(attrs, "time_to_full_now"@)
            && self.ps_type.deep_view() == attr_text(attrs, "type"@)
            && self.usb_type.deep_view() == attr_text(attrs, "usb_type"@)
            && self.voltage_avg == attr_i64(attrs, "voltage_avg"@)
            && self.voltage_boot == attr_i64(attrs, "voltage_boot"@)
            && self.voltage_max == attr_i64(attrs, "voltage_max"@)
            && self.voltage_max_design == attr_i64(attrs, "voltage_max_design"@)
            && self.voltage_min == attr_i64(attrs, "voltage_min"@)
            && self.voltage_min_design == attr_i64(attrs, "voltage_min_design"@)
            && self.voltage_now == attr_i64(attrs, "voltage_now"@)
            && self.voltage_ocv == attr_i64(attrs, "voltage_ocv"@)
    }

    /// Every numeric attribute that is given parses.
    pub open spec fn readable(attrs: Seq<PairView>) -> bool {
        attr_i64_ok(attrs, "authentic"@)
            && attr_i64_ok(attrs, "calibrate"@)
            && attr_i64_ok(attrs, "capacity"@)
            && attr_i64_ok(attrs, "capacity_alert_max"@)
            && attr_i64_ok(attrs, "capacity_alert_min"@)
            && attr_i64_ok(attrs, "charge_avg"@)
            && attr_i64_ok(attrs, "charge_control_limit"@)
            && attr_i64_ok(attrs, "charge_control_limit_max"@)
            && attr_i64_ok(attrs, "charge_counter"@)
            && attr_i64_ok(attrs, "charge_empty"@)
            && attr_i64_ok(attrs, "charge_empty_design"@)
            && attr_i64_ok(attrs, "charge_start_threshold"@)
            && attr_i64_ok(attrs, "charge_stop_threshold"@)
            && attr_i64_ok(attrs, "charge_full"@)
            && attr_i64_ok(attrs, "charge_full_design"@)
            && attr_i64_ok(attrs, "charge_now"@)
            && attr_i64_ok(attrs, "charge_term_current"@)
            && attr_i64_ok(attrs, "constant_charge_current"@)
            && attr_i64_ok(attrs, "constant_charge_current_max"@)
            && attr_i64_ok(attrs, "constant_charge_voltage"@)
            && attr_i64_ok(attrs, "constant_charge_voltage_max"@)
            && attr_i64_ok(attrs, "current_avg"@)
            && attr_i64_ok(attrs, "current_boot"@)
            && attr_i64_ok(attrs, "current_max"@)
            && attr_i64_ok(attrs, "current_now"@)
            && attr_i64_ok(attrs, "cycle_count"@)
            && attr_i64_ok(attrs, "energy_avg"@)
            && attr_i64_ok(attrs, "energy_empty"@)
            && attr_i64_ok(attrs, "energy_empty_design"@)
            && attr_i64_ok(attrs, "energy_full"@)
            && attr_i64_ok(attrs, "energy_full_design"@)
            && attr_i64_ok(attrs, "energy_now"@)
            && attr_i64_ok(attrs, "input_current_limit"@)
            && attr_i64_ok(attrs, "online"@)
            && attr_i64_ok(attrs, "power_avg"@)
            && attr_i64_ok(attrs, "power_now"@)
            && attr_i64_ok(attrs, "precharge_current"@)
            && attr_i64_ok(attrs, "present"@)
            && attr_i64_ok(attrs, "temp"@)
            && attr_i64_ok(attrs, "temp_alert_max"@)
            && attr_i64_ok(attrs, "temp_alert_min"@)
            && attr_i64_ok(attrs, "temp_ambient"@)
            && attr_i64_ok(attrs, "temp_ambient_max"@)
            && attr_i64_ok(attrs, "temp_ambient_min"@)
            && attr_i64_ok(attrs, "temp_max"@)
            && attr_i64_ok(attrs, "temp_min"@)
            && attr_i64_ok(attrs, "time_to_empty_avg"@)
            && attr_i64_ok(attrs, "time_to_empty_now"@)
            && attr_i64_ok(attrs, "time_to_full_avg"@)
            && attr_i64_ok(attrs, "time_to_full_now"@)
            && attr_i64_ok(attrs, "voltage_avg"@)
            && attr_i64_ok(attrs, "voltage_boot"@)
            && attr_i64_ok(attrs, "voltage_max"@)
            && attr_i64_ok(attrs, "voltage_max_design"@)
            && attr_i64_ok(attrs, "voltage_min"@)
            && attr_i64_ok(attrs, "voltage_min_design"@)
            && attr_i64_ok(attrs, "voltage_now"@)
            && attr_i64_ok(attrs, "voltage_ocv"@)
    }

    /// Every field empty.
    pub open spec fn is_blank(&self) -> bool {
        self.authentic is None
            && self.calibrate is None
            && self.capacity is None
            && self.capacity_alert_max is None
            && self.capacity_alert_min is None
            && self.capacity_level is None
            && self.charge_avg is None
            && self.charge_control_limit is None
            && self.charge_control_limit_max is None
            && self.charge_counter is None
            && self.charge_empty is None
            && self.charge_empty_design is None
            && self.charge_start_threshold is None
            && self.charge_stop_threshold is None
            && self.charge_full is None
            && self.charge_full_design is None
            && self.charge_now is None
            && self.charge_term_current is None
            && self.charge_type is None
            && self.constant_charge_current is None
            && self.constant_charge_current_max is None
            && self.constant_charge_voltage is None
            && self.constant_charge_voltage_max is None
            && self.current_avg is None
            && self.current_boot is None
            && self.current_max is None
            && self.current_now is None
            && self.cycle_count is None
            && self.energy_avg is None
            && self.energy_empty is None
            && self.energy_empty_design is None
            && self.energy_full is None
            && self.energy_full_design is None
            && self.energy_now is None
            && self.health is None
            && self.input_current_limit is None
            && self.manufacturer is None
            && self.model_name is None
            && self.online is None
            && self.power_avg is None
            && self.power_now is None
            && self.precharge_current is None
            && self.present is None
            && self.scope is None
            && self.serial_number is None
            && self.status is None
            && self.technology is None
            && self.temp is None
            && self.temp_alert_max is None
            && self.temp_alert_min is None
            && self.temp_ambient is None
            && self.temp_ambient_max is None
            && self.temp_ambient_min is None
            && self.temp_max is None
            && self.temp_min is None
            && self.time_to_empty_avg is None
            && self.time_to_empty_now is None
            && self.time_to_full_avg is None
            && self.time_to_full_now is None
            && self.ps_type is None
            && self.usb_type is None
            && self.voltage_avg is None
            && self.voltage_boot is None
            && self.voltage_max is None
            && self.voltage_max_design is None
            && self.voltage_min is None
            && self.voltage_min_design is None
            && self.voltage_now is None
            && self.voltage_ocv is None
    }

    pub fn new() -> (r: Self)
        ensures
            r.is_blank(),
    {
        PowerSupply {
            authentic: None,
            calibrate: None,
            capacity: None,
            capacity_alert_max: None,
            capacity_alert_min: None,
            capacity_level: None,
            charge_avg: None,
            charge_control_limit: None,
            charge_control_limit_max: None,
            charge_counter: None,
            charge_empty: None,
            charge_empty_design: None,
            charge_start_threshold: None,
            charge_stop_threshold: None,
            charge_full: None,
            charge_full_design: None,
            charge_now: None,
            charge_term_current: None,
            charge_type: None,
            constant_charge_current: None,
            constant_charge_current_max: None,
            constant_charge_voltage: None,
            constant_charge_voltage_max: None,
            current_avg: None,
            current_boot: None,
            current_max: None,
            current_now: None,
            cycle_count: None,
            energy_avg: None,
            energy_empty: None,
            energy_empty_design: None,
            energy_full: None,
            energy_full_design: None,
            energy_now: None,
            health: None,
            input_current_limit: None,
            manufacturer: None,
            model_name: None,
            online: None,
            power_avg: None,
            power_now: None,
            precharge_current: None,
            present: None,
            scope: None,
            serial_number: None,
            status: None,
            technology: None,
            temp: None,
            temp_alert_max: None,
            temp_alert_min: None,
            temp_ambient: None,
            temp_ambient_max: None,
            temp_ambient_min: None,
            temp_max: None,
            temp_min: None,
            time_to_empty_avg: None,
            time_to_empty_now: None,
            time_to_full_avg: None,
            time_to_full_now: None,
            ps_type: None,
            usb_type: None,
            voltage_avg: None,
            voltage_boot: None,
            voltage_max: None,
            voltage_max_design: None,
            voltage_min: None,
            voltage_min_design: None,
            voltage_now: None,
            voltage_ocv: None,
        }
    }

    /// The supply whose attribute files are `attrs`.
    pub fn from_attrs(attrs: &Vec<(String, String)>) -> (r: Result<Self, MetricError>)
        ensures
            r is Ok <==> Self::readable(attrs.deep_view()),
            r is Ok ==> r->Ok_0.read_from(attrs.deep_view()),
    {
        let authentic = match read_i64(attrs, "authentic") {
            Ok(v) => v,
            Err(e) => return Err(e),
        };
        let calibrate = match read_i64(attrs, "calibrate") {
            Ok(v) => v,
            Err(e) => return Err(e),
        };
        let capacity = match read_i64(attrs, "capacity") {
            Ok(v) => v,
            Err(e) => return Err(e),
        };
        let capacity_alert_max = match read_i64(attrs, "capacity_alert_max") {
            Ok(v) => v,
            Err(e) => return Err(e),
        };
        let capacity_alert_min = match read_i64(attrs, "capacity_alert_min") {
            Ok(v) => v,
            Err(e) => return Err(e),
        };
        let charge_avg = match read_i64(attrs, "charge_avg") {
            Ok(v) => v,
            Err(e) => return Err(e),
        };
        let charge_control_limit = match read_i64(attrs, "charge_control_limit") {
            Ok(v) => v,
            Err(e) => return Err(e),
        };
        let charge_control_limit_max = match read_i64(attrs, "charge_control_limit_max") {
            Ok(v) => v,
            Err(e) => return Err(e),
        };
        let charge_counter = match read_i64(attrs, "charge_counter") {
            Ok(v) => v,
            Err(e) => return Err(e),
        };
        let charge_empty = match read_i64(attrs, "charge_empty") {
            Ok(v) => v,
            Err(e) => return Err(e),
        };
        let charge_empty_design = match read_i64(attrs, "charge_empty_design") {
            Ok(v) => v,
            Err(e) => return Err(e),
        };
        let charge_start_threshold = match read_i64(attrs, "charge_start_threshold") {
            Ok(v) => v,
            Err(e) => return Err(e),
        };
        let charge_stop_threshold = match read_i64(attrs, "charge_stop_threshold") {
            Ok(v) => v,
            Err(e) => return Err(e),
        };
        let charge_full = match read_i64(attrs, "charge_full") {
            Ok(v) => v,
            Err(e) => return Err(e),
        };
        let charge_full_design = match read_i64(attrs, "charge_full_design") {
            Ok(v) => v,
            Err(e) => return Err(e),
        };
        let charge_now = match read_i64(attrs, "charge_now") {
            Ok(v) => v,
            Err(e) => return Err(e),
        };
        let charge_term_current = match read_i64(attrs, "charge_term_current") {
            Ok(v) => v,
            Err(e) => return Err(e),
        };
        let constant_charge_current = match read_i64(attrs, "constant_charge_current") {
            Ok(v) => v,
            Err(e) => return Err(e),
        };
        let constant_charge_current_max = match read_i64(attrs, "constant_charge_current_max") {
            Ok(v) => v,
            Err(e) => return Err(e),
        };
        let constant_charge_voltage = match read_i64(attrs, "constant_charge_voltage") {
            Ok(v) => v,
            Err(e) => return Err(e),
        };
        let constant_charge_voltage_max = match read_i64(attrs, "constant_charge_voltage_max") {
            Ok(v) => v,
            Err(e) => return Err(e),
        };
        let current_avg = match read_i64(attrs, "current_avg") {
            Ok(v) => v,
            Err(e) => return Err(e),
        };
        let current_boot = match read_i64(attrs, "current_boot") {
            Ok(v) => v,
            Err(e) => return Err(e),
        };
        let current_max = match read_i64(attrs, "current_max") {
            Ok(v) => v,
            Err(e) => return Err(e),
        };
        let current_now = match read_i64(attrs, "current_now") {
            Ok(v) => v,
            Err(e) => return Err(e),
        };
        let cycle_count = match read_i64(attrs, "cycle_count") {
            Ok(v) => v,
            Err(e) => return Err(e),
        };
        let energy_avg = match read_i64(attrs, "energy_avg") {
            Ok(v) => v,
            Err(e) => return Err(e),
        };
        let energy_empty = match read_i64(attrs, "energy_empty") {
            Ok(v) => v,
            Err(e) => return Err(e),
        };
        let energy_empty_design = match read_i64(attrs, "energy_empty_design") {
            Ok(v) => v,
            Err(e) => return Err(e),
        };
        let energy_full = match read_i64(attrs, "energy_full") {
            Ok(v) => v,
            Err(e) => return Err(e),
        };
        let energy_full_design = match read_i64(attrs, "energy_full_design") {
            Ok(v) => v,
            Err(e) => return Err(e),
        };
        let energy_now = match read_i64(attrs, "energy_now") {
            Ok(v) => v,
            Err(e) => return Err(e),
        };
        let input_current_limit = match read_i64(attrs, "input_current_limit") {
            Ok(v) => v,
            Err(e) => return Err(e),
        };
        let online = match read_i64(attrs, "online") {
            Ok(v) => v,
            Err(e) => return Err(e),
        };
        let power_avg = match read_i64(attrs, "power_avg") {
            Ok(v) => v,
            Err(e) => return Err(e),
        };
        let power_now = match read_i64(attrs, "power_now") {
            Ok(v) => v,
            Err(e) => return Err(e),
        };
        let precharge_current = match read_i64(attrs, "precharge_current") {
            Ok(v) => v,
            Err(e) => return Err(e),
        };
        let present = match read_i64(attrs, "present") {
            Ok(v) => v,
            Err(e) => return Err(e),
        };
        let temp = match read_i64(attrs, "temp") {
            Ok(v) => v,
            Err(e) => return Err(e),
        };
        let temp_alert_max = match read_i64(attrs, "temp_alert_max") {
            Ok(v) => v,
            Err(e) => return Err(e),
        };
        let temp_alert_min = match read_i64(attrs, "temp_alert_min") {
            Ok(v) => v,
            Err(e) => return Err(e),
        };
        let temp_ambient = match read_i64(attrs, "temp_ambient") {
            Ok(v) => v,
            Err(e) => return Err(e),
        };
        let temp_ambient_max = match read_i64(attrs, "temp_ambient_max") {
            Ok(v) => v,
            Err(e) => return Err(e),
        };
        let temp_ambient_min = match read_i64(attrs, "temp_ambient_min") {
            Ok(v) => v,
            Err(e) => return Err(e),
        };
        let temp_max = match read_i64(attrs, "temp_max") {
            Ok(v) => v,
            Err(e) => return Err(e),
        };
        let temp_min = match read_i64(attrs, "temp_min") {
            Ok(v) => v,
            Err(e) => return Err(e),
        };
        let time_to_empty_avg = match read_i64(attrs, "time_to_empty_avg") {
            Ok(v) => v,
            Err(e) => return Err(e),
        };
        let time_to_empty_now = match read_i64(attrs, "time_to_empty_now") {
            Ok(v) => v,
            Err(e) => return Err(e),
        };
        let time_to_full_avg = match read_i64(attrs, "time_to_full_avg") {
            Ok(v) => v,
            Err(e) => return Err(e),
        };
        let time_to_full_now = match read_i64(attrs, "time_to_full_now") {
            Ok(v) => v,
            Err(e) => return Err(e),
        };
        let voltage_avg = match read_i64(attrs, "voltage_avg") {
            Ok(v) => v,
            Err(e) => return Err(e),
        };
        let voltage_boot = match read_i64(attrs, "voltage_boot") {
            Ok(v) => v,
            Err(e) => return Err(e),
        };
        let voltage_max = match read_i64(attrs, "voltage_max") {
            Ok(v) => v,
            Err(e) => return Err(e),
        };
        let voltage_max_design = match read_i64(attrs, "voltage_max_design") {
            Ok(v) => v,
            Err(e) => return Err(e),
        };
        let voltage_min = match read_i64(attrs, "voltage_min") {
            Ok(v) => v,
            Err(e) => return Err(e),
        };
        let voltage_min_design = match read_i64(attrs, "voltage_min_design") {
            Ok(v) => v,
            Err(e) => return Err(e),
        };
        let voltage_now = match read_i64(attrs, "voltage_now") {
            Ok(v) => v,
            Err(e) => return Err(e),
        };
        let voltage_ocv = match read_i64(attrs, "voltage_ocv") {
            Ok(v) => v,
            Err(e) => return Err(e),
        };
        Ok(PowerSupply {
            authentic,
            calibrate,
            capacity,
            capacity_alert_max,
            capacity_alert_min,
            capacity_level: read_text(attrs, "capacity_level"),
            charge_avg,
            charge_control_limit,
            charge_control_limit_max,
            charge_counter,
            charge_empty,
            charge_empty_design,
            charge_start_threshold,
            charge_stop_threshold,
            charge_full,
            charge_full_design,
            charge_now,
            charge_term_current,
            charge_type: read_text(attrs, "charge_type"),
            constant_charge_current,
            constant_charge_current_max,
            constant_charge_voltage,
            constant_charge_voltage_max,
            current_avg,
            current_boot,
            current_max,
            current_now,
            cycle_count,
            energy_avg,
            energy_empty,
            energy_empty_design,
            energy_full,
            energy_full_design,
            energy_now,
            health: read_text(attrs, "health"),
            input_current_limit,
            manufacturer: read_text(attrs, "manufacturer"),
            model_name: read_text(attrs, "model_name"),
            online,
            power_avg,
            power_now,
            precharge_current,
            present,
            scope: read_text(attrs, "scope"),
            serial_number: read_text(attrs, "serial_number"),
            status: read_text(attrs, "status"),
            technology: read_text(attrs, "technology"),
            temp,
            temp_alert_max,
            temp_alert_min,
            temp_ambient,
            temp_ambient_max,
            temp_ambient_min,
            temp_max,
            temp_min,
            time_to_empty_avg,
            time_to_empty_now,
            time_to_full_avg,
            time_to_full_now,
            ps_type: read_text(attrs, "type"),
            usb_type: read_text(attrs, "usb_type"),
            voltage_avg,
            voltage_boot,
            voltage_max,
            voltage_max_design,
            voltage_min,
            voltage_min_design,
            voltage_now,
            voltage_ocv,
        })
    }
}

} // verus!
