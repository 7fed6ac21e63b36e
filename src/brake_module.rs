//! The brake control state machine: enable and disable, command
//! application, per-cycle fault detection and bus dispatch.
//!
//! Every operation takes what the hardware shows (the two pedal-position
//! samples, the time) as arguments and returns what the hardware must do
//! (a converter write, a fault report) as an `Effects` value; the levels of
//! the spoof-enable and brake-light outputs are fields of the module.

use vstd::prelude::*;
use crate::dac_mcp4922::DAC_OUTPUT_MAX;
use crate::dual_signal::{average_of, AdcSignal, DualSignal};
use crate::fault_condition::{grounded, FaultCondition};

verus! {

pub const OSCC_MAGIC_BYTE_0: u8 = 0x05;
pub const OSCC_MAGIC_BYTE_1: u8 = 0xCC;
pub const OSCC_BRAKE_ENABLE_CAN_ID: u32 = 0x70;
pub const OSCC_BRAKE_DISABLE_CAN_ID: u32 = 0x71;
pub const OSCC_BRAKE_COMMAND_CAN_ID: u32 = 0x72;
pub const OSCC_BRAKE_REPORT_CAN_ID: u32 = 0x73;
pub const OSCC_FAULT_REPORT_CAN_ID: u32 = 0xAF;
/// Origin tag this module puts in its fault reports.
pub const FAULT_ORIGIN_BRAKE: u32 = 0;
/// Bit of the diagnostic bitfield: a grounded or disconnected sensor.
pub const OSCC_BRAKE_DTC_INVALID_SENSOR_VAL: u8 = 0;
/// Bit of the diagnostic bitfield: the driver pressed the pedal.
pub const OSCC_BRAKE_DTC_OPERATOR_OVERRIDE: u8 = 1;

/// Vehicle-specific tuning, in converter steps and milliseconds.
#[derive(Clone, Copy, Debug)]
pub struct BrakeConfig {
    pub spoof_high_signal_range_min: u16,
    pub spoof_high_signal_range_max: u16,
    pub spoof_low_signal_range_min: u16,
    pub spoof_low_signal_range_max: u16,
    pub brake_light_spoof_high_threshold: u16,
    pub brake_light_spoof_low_threshold: u16,
    /// Pedal-position average at or above which the driver is pressing.
    pub pedal_override_threshold: u16,
    /// Sample value at or below which a sensor reads as grounded.
    pub grounded_threshold: u16,
    /// How long a fault condition must hold before it is confirmed.
    pub fault_hysteresis: u32,
}

impl BrakeConfig {
    pub open spec fn wf(self) -> bool {
        &&& self.spoof_high_signal_range_min <= self.spoof_high_signal_range_max
        &&& self.spoof_high_signal_range_max <= DAC_OUTPUT_MAX
        &&& self.spoof_low_signal_range_min <= self.spoof_low_signal_range_max
        &&& self.spoof_low_signal_range_max <= DAC_OUTPUT_MAX
    }
}

#[derive(Clone, Copy, Debug)]
pub struct BrakeControlState {
    pub enabled: bool,
    pub operator_override: bool,
    pub dtcs: u8,
}

impl BrakeControlState {
    pub fn new() -> (r: BrakeControlState)
        ensures
            r == (BrakeControlState { enabled: false, operator_override: false, dtcs: 0 }),
    {
        BrakeControlState { enabled: false, operator_override: false, dtcs: 0 }
    }
}

/// The periodic status record.
#[derive(Clone, Copy, Debug, PartialEq, Eq, Structural)]
pub struct BrakeReport {
    pub enabled: bool,
    pub operator_override: bool,
    pub dtcs: u8,
}

/// A fault record, sent by this module or received from another.
#[derive(Clone, Copy, Debug, PartialEq, Eq, Structural)]
pub struct FaultReport {
    pub fault_origin_id: u32,
    pub dtcs: u8,
}

/// What one operation asks of the hardware.
#[derive(Clone, Copy, Debug, PartialEq, Eq)]
pub struct Effects {
    /// Values for converter channels A and B, written as one pair.
    pub dac_write: Option<(u16, u16)>,
    /// A fault report to transmit.
    pub fault_report: Option<FaultReport>,
}

pub open spec fn no_effects() -> Effects {
    Effects { dac_write: None, fault_report: None }
}

/// The kinds of bus frame this module acts on.
#[derive(Clone, Copy, Debug, PartialEq, Eq, Structural)]
pub enum FrameKind {
    Enable,
    Disable,
    BrakeCommand,
    FaultReport,
}

/// What dispatching one frame came to.
#[derive(Clone, Copy, Debug, PartialEq, Eq)]
pub enum RxOutcome {
    /// Not a frame for this module; nothing changed.
    Ignored,
    /// Acted on; the hardware must carry out these effects.
    Handled(Effects),
    /// A brake command: its pedal position is to be translated into
    /// converter steps and handed to `update_brake`.
    BrakeCommand,
}

/// `v` limited to `lo..=hi`.
pub open spec fn clamp_spec(v: u16, lo: u16, hi: u16) -> u16 {
    if v < lo {
        lo
    } else if v > hi {
        hi
    } else {
        v
    }
}

pub fn clamp(v: u16, lo: u16, hi: u16) -> (r: u16)
    requires
        lo <= hi,
    ensures
        r == clamp_spec(v, lo, hi),
        lo <= r <= hi,
{
    if v < lo {
        lo
    } else if v > hi {
        hi
    } else {
        v
    }
}

/// The diagnostic bitfield with bit `code` set.
pub open spec fn dtc_set(dtcs: u8, code: u8) -> u8 {
    dtcs | (1u8 << code)
}

/// The kind of a frame with identifier `id` and payload `data`: `None`
/// where the payload lacks the two-byte marker or the identifier is not one
/// this module handles.
pub open spec fn frame_kind_spec(id: u32, data: Seq<u8>) -> Option<FrameKind> {
    if data.len() < 2 || data[0] != OSCC_MAGIC_BYTE_0 || data[1] != OSCC_MAGIC_BYTE_1 {
        None
    } else if id == OSCC_BRAKE_ENABLE_CAN_ID {
        Some(FrameKind::Enable)
    } else if id == OSCC_BRAKE_DISABLE_CAN_ID {
        Some(FrameKind::Disable)
    } else if id == OSCC_BRAKE_COMMAND_CAN_ID {
        Some(FrameKind::BrakeCommand)
    } else if id == OSCC_FAULT_REPORT_CAN_ID {
        Some(FrameKind::FaultReport)
    } else {
        None
    }
}

pub fn frame_kind(id: u32, data: &[u8]) -> (r: Option<FrameKind>)
    ensures
        r == frame_kind_spec(id, data@),
{
    if data.len() < 2 || data[0] != OSCC_MAGIC_BYTE_0 || data[1] != OSCC_MAGIC_BYTE_1 {
        None
    } else if id == OSCC_BRAKE_ENABLE_CAN_ID {
        Some(FrameKind::Enable)
    } else if id == OSCC_BRAKE_DISABLE_CAN_ID {
        Some(FrameKind::Disable)
    } else if id == OSCC_BRAKE_COMMAND_CAN_ID {
        Some(FrameKind::BrakeCommand)
    } else if id == OSCC_FAULT_REPORT_CAN_ID {
        Some(FrameKind::FaultReport)
    } else {
        None
    }
}

pub struct BrakeModule {
    pub config: BrakeConfig,
    pub brake_pedal_position: DualSignal,
    pub control_state: BrakeControlState,
    pub grounded_fault_state: FaultCondition,
    pub operator_override_state: FaultCondition,
    pub brake_report: BrakeReport,
    pub fault_report: FaultReport,
    /// Level of the output that routes the converter to the actuator.
    pub spoof_enable: bool,
    /// Level of the brake-light output.
    pub brake_light_enable: bool,
}

impl BrakeModule {
    pub open spec fn wf(self) -> bool {
        &&& self.config.wf()
        &&& self.brake_pedal_position.wf()
        &&& self.control_state.operator_override ==> !self.control_state.enabled
        &&& self.spoof_enable ==> self.control_state.enabled
        &&& self.brake_light_enable ==> self.control_state.enabled
    }

    pub open spec fn enable_spec(self, high: u16, low: u16) -> (BrakeModule, Effects) {
        if !self.control_state.enabled && !self.control_state.operator_override {
            (
                BrakeModule {
                    brake_pedal_position: self.brake_pedal_position.primed(high, low),
                    control_state: BrakeControlState { enabled: true, ..self.control_state },
                    spoof_enable: true,
                    ..self
                },
                Effects { dac_write: Some((high, low)), fault_report: None },
            )
        } else {
            (self, no_effects())
        }
    }

    pub open spec fn disable_spec(self, high: u16, low: u16) -> (BrakeModule, Effects) {
        if self.control_state.enabled {
            (
                BrakeModule {
                    brake_pedal_position: self.brake_pedal_position.primed(high, low),
                    control_state: BrakeControlState { enabled: false, ..self.control_state },
                    spoof_enable: false,
                    brake_light_enable: false,
                    ..self
                },
                Effects { dac_write: Some((high, low)), fault_report: None },
            )
        } else {
            (self, no_effects())
        }
    }

    pub open spec fn update_brake_spec(self, command_high: u16, command_low: u16) -> (BrakeModule, Effects) {
        if self.control_state.enabled {
            let c = self.config;
            let h = clamp_spec(command_high, c.spoof_high_signal_range_min, c.spoof_high_signal_range_max);
            let l = clamp_spec(command_low, c.spoof_low_signal_range_min, c.spoof_low_signal_range_max);
            (
                BrakeModule {
                    brake_light_enable: h > c.brake_light_spoof_high_threshold || l
                        > c.brake_light_spoof_low_threshold,
                    ..self
                },
                Effects { dac_write: Some((h, l)), fault_report: None },
            )
        } else {
            (self, no_effects())
        }
    }

    /// Disable, latch diagnostic bit `code` and report it.
    pub open spec fn fault_spec(self, high: u16, low: u16, code: u8) -> (BrakeModule, Effects) {
        let d = self.disable_spec(high, low).0;
        let dtcs = dtc_set(d.control_state.dtcs, code);
        let report = FaultReport { fault_origin_id: FAULT_ORIGIN_BRAKE, dtcs };
        (
            BrakeModule {
                control_state: BrakeControlState { dtcs, ..d.control_state },
                fault_report: report,
                ..d
            },
            Effects { dac_write: self.disable_spec(high, low).1.dac_write, fault_report: Some(report) },
        )
    }

    /// The override latch after a cycle that sees samples `high`, `low`.
    pub open spec fn override_latch_after(self, high: u16, low: u16, now: u32) -> FaultCondition {
        self.operator_override_state.next(
            average_of(high, low) >= self.config.pedal_override_threshold,
            self.config.fault_hysteresis,
            now,
        )
    }

    /// The grounded-sensor latch after a cycle that sees samples `high`, `low`.
    pub open spec fn grounded_latch_after(self, high: u16, low: u16, now: u32) -> FaultCondition {
        self.grounded_fault_state.next(
            grounded(high, low, self.config.grounded_threshold),
            self.config.fault_hysteresis,
            now,
        )
    }

    /// Whether a fault check runs at all in the current state.
    pub open spec fn checks_faults(self) -> bool {
        self.control_state.enabled || self.control_state.dtcs > 0
    }

    pub open spec fn check_spec(self, high: u16, low: u16, now: u32) -> (BrakeModule, Effects) {
        if self.checks_faults() {
            let ov = self.override_latch_after(high, low, now);
            let gr = self.grounded_latch_after(high, low, now);
            let s = BrakeModule {
                brake_pedal_position: self.brake_pedal_position.sampled(high, low),
                operator_override_state: ov,
                grounded_fault_state: gr,
                ..self
            };
            if gr.confirmed {
                s.fault_spec(high, low, OSCC_BRAKE_DTC_INVALID_SENSOR_VAL)
            } else if ov.confirmed {
                if !s.control_state.operator_override {
                    let t = s.fault_spec(high, low, OSCC_BRAKE_DTC_OPERATOR_OVERRIDE);
                    (
                        BrakeModule {
                            control_state: BrakeControlState { operator_override: true, ..t.0.control_state },
                            ..t.0
                        },
                        t.1,
                    )
                } else {
                    (s, no_effects())
                }
            } else {
                (
                    BrakeModule {
                        control_state: BrakeControlState { dtcs: 0, operator_override: false, ..s.control_state },
                        ..s
                    },
                    no_effects(),
                )
            }
        } else {
            (self, no_effects())
        }
    }

    pub open spec fn brake_report_of(self) -> BrakeReport {
        BrakeReport {
            enabled: self.control_state.enabled,
            operator_override: self.control_state.operator_override,
            dtcs: self.control_state.dtcs,
        }
    }

    pub open spec fn rx_spec(self, id: u32, data: Seq<u8>, high: u16, low: u16) -> (BrakeModule, RxOutcome) {
        match frame_kind_spec(id, data) {
            None => (self, RxOutcome::Ignored),
            Some(FrameKind::Enable) => {
                let t = self.enable_spec(high, low);
                (t.0, RxOutcome::Handled(t.1))
            },
            Some(FrameKind::Disable) | Some(FrameKind::FaultReport) => {
                let t = self.disable_spec(high, low);
                (t.0, RxOutcome::Handled(t.1))
            },
            Some(FrameKind::BrakeCommand) => (self, RxOutcome::BrakeCommand),
        }
    }

    pub fn new(config: BrakeConfig) -> (r: BrakeModule)
        requires
            config.wf(),
        ensures
            r.wf(),
            r.config == config,
            r.control_state == (BrakeControlState { enabled: false, operator_override: false, dtcs: 0 }),
            r.brake_pedal_position.high == 0,
            r.brake_pedal_position.low == 0,
            !r.grounded_fault_state.confirmed,
            r.grounded_fault_state.start_time == None::<u32>,
            !r.operator_override_state.confirmed,
            r.operator_override_state.start_time == None::<u32>,
            !r.spoof_enable,
            !r.brake_light_enable,
    {
        BrakeModule {
            config,
            brake_pedal_position: DualSignal::new(
                0,
                0,
                AdcSignal::BrakePedalPositionSensorHigh,
                AdcSignal::BrakePedalPositionSensorLow,
            ),
            control_state: BrakeControlState::new(),
            grounded_fault_state: FaultCondition::new(),
            operator_override_state: FaultCondition::new(),
            brake_report: BrakeReport { enabled: false, operator_override: false, dtcs: 0 },
            fault_report: FaultReport { fault_origin_id: FAULT_ORIGIN_BRAKE, dtcs: 0 },
            spoof_enable: false,
            brake_light_enable: false,
        }
    }

    /// Drives both outputs low.
    pub fn init_devices(&mut self)
        requires
            old(self).wf(),
        ensures
            final(self).wf(),
            *final(self) == (BrakeModule { spoof_enable: false, brake_light_enable: false, ..*old(self) }),
    {
        self.spoof_enable = false;
        self.brake_light_enable = false;
    }

    /// Hands control back to the driver. `high`, `low` are what the sensor
    /// inputs show now; they prime the converter.
    pub fn disable_control(&mut self, high: u16, low: u16) -> (r: Effects)
        requires
            old(self).wf(),
            high <= DAC_OUTPUT_MAX,
            low <= DAC_OUTPUT_MAX,
        ensures
            final(self).wf(),
            (*final(self), r) == old(self).disable_spec(high, low),
            !final(self).control_state.enabled,
    {
        if self.control_state.enabled {
            self.brake_pedal_position.prevent_signal_discontinuity(high, low);
            let a = self.brake_pedal_position.dac_output_a;
            let b = self.brake_pedal_position.dac_output_b;
            self.spoof_enable = false;
            self.brake_light_enable = false;
            self.control_state.enabled = false;
            Effects { dac_write: Some((a, b)), fault_report: None }
        } else {
            Effects { dac_write: None, fault_report: None }
        }
    }

    /// Takes control, unless it has it or the driver's override is flagged.
    /// `high`, `low` are what the sensor inputs show now; they prime the
    /// converter.
    pub fn enable_control(&mut self, high: u16, low: u16) -> (r: Effects)
        requires
            old(self).wf(),
            high <= DAC_OUTPUT_MAX,
            low <= DAC_OUTPUT_MAX,
        ensures
            final(self).wf(),
            (*final(self), r) == old(self).enable_spec(high, low),
    {
        if !self.control_state.enabled && !self.control_state.operator_override {
            self.brake_pedal_position.prevent_signal_discontinuity(high, low);
            let a = self.brake_pedal_position.dac_output_a;
            let b = self.brake_pedal_position.dac_output_b;
            self.spoof_enable = true;
            self.control_state.enabled = true;
            Effects { dac_write: Some((a, b)), fault_report: None }
        } else {
            Effects { dac_write: None, fault_report: None }
        }
    }

    /// Applies a pair of converter commands, each limited to its channel's
    /// range, and sets the brake light; does nothing while disabled.
    pub fn update_brake(&mut self, spoof_command_high: u16, spoof_command_low: u16) -> (r: Effects)
        requires
            old(self).wf(),
        ensures
            final(self).wf(),
            (*final(self), r) == old(self).update_brake_spec(spoof_command_high, spoof_command_low),
            !old(self).control_state.enabled ==> r == no_effects() && *final(self) == *old(self),
            old(self).control_state.enabled ==> r.dac_write == Some(
                (
                    clamp_spec(
                        spoof_command_high,
                        old(self).config.spoof_high_signal_range_min,
                        old(self).config.spoof_high_signal_range_max,
                    ),
                    clamp_spec(
                        spoof_command_low,
                        old(self).config.spoof_low_signal_range_min,
                        old(self).config.spoof_low_signal_range_max,
                    ),
                ),
            ),
    {
        if self.control_state.enabled {
            let spoof_high = clamp(
                spoof_command_high,
                self.config.spoof_high_signal_range_min,
                self.config.spoof_high_signal_range_max,
            );
            let spoof_low = clamp(
                spoof_command_low,
                self.config.spoof_low_signal_range_min,
                self.config.spoof_low_signal_range_max,
            );
            self.brake_light_enable = spoof_high > self.config.brake_light_spoof_high_threshold
                || spoof_low > self.config.brake_light_spoof_low_threshold;
            Effects { dac_write: Some((spoof_high, spoof_low)), fault_report: None }
        } else {
            Effects { dac_write: None, fault_report: None }
        }
    }

    fn raise_fault(&mut self, high: u16, low: u16, code: u8) -> (r: Effects)
        requires
            old(self).wf(),
            high <= DAC_OUTPUT_MAX,
            low <= DAC_OUTPUT_MAX,
            code < 8,
        ensures
            final(self).wf(),
            (*final(self), r) == old(self).fault_spec(high, low, code),
    {
        let d = self.disable_control(high, low);
        self.control_state.dtcs = self.control_state.dtcs | (1u8 << code);
        let report = self.publish_fault_report();
        Effects { dac_write: d.dac_write, fault_report: Some(report) }
    }

    /// One control cycle's fault check, given the samples just read and the
    /// time. Runs only while enabled or while a diagnostic code is latched.
    pub fn check_for_faults(&mut self, high: u16, low: u16, now: u32) -> (r: Effects)
        requires
            old(self).wf(),
            high <= DAC_OUTPUT_MAX,
            low <= DAC_OUTPUT_MAX,
        ensures
            final(self).wf(),
            (*final(self), r) == old(self).check_spec(high, low, now),
    {
        if self.control_state.enabled || self.control_state.dtcs > 0 {
            self.read_brake_pedal_position_sensor(high, low);
            let average = self.brake_pedal_position.average();
            let operator_overridden = self.operator_override_state.condition_exceeded_duration(
                average >= self.config.pedal_override_threshold,
                self.config.fault_hysteresis,
                now,
            );
            let inputs_grounded = self.grounded_fault_state.check_voltage_grounded(
                &self.brake_pedal_position,
                self.config.grounded_threshold,
                self.config.fault_hysteresis,
                now,
            );
            if inputs_grounded {
                self.raise_fault(high, low, OSCC_BRAKE_DTC_INVALID_SENSOR_VAL)
            } else if operator_overridden {
                if !self.control_state.operator_override {
                    let r = self.raise_fault(high, low, OSCC_BRAKE_DTC_OPERATOR_OVERRIDE);
                    self.control_state.operator_override = true;
                    r
                } else {
                    Effects { dac_write: None, fault_report: None }
                }
            } else {
                self.control_state.dtcs = 0;
                self.control_state.operator_override = false;
                Effects { dac_write: None, fault_report: None }
            }
        } else {
            Effects { dac_write: None, fault_report: None }
        }
    }

    /// A converter transfer failed part-way, so the two channels may
    /// disagree: handled as a sensor-integrity fault.
    pub fn report_output_failure(&mut self, high: u16, low: u16) -> (r: Effects)
        requires
            old(self).wf(),
            high <= DAC_OUTPUT_MAX,
            low <= DAC_OUTPUT_MAX,
        ensures
            final(self).wf(),
            (*final(self), r) == old(self).fault_spec(high, low, OSCC_BRAKE_DTC_INVALID_SENSOR_VAL),
    {
        self.raise_fault(high, low, OSCC_BRAKE_DTC_INVALID_SENSOR_VAL)
    }

    /// Refreshes and returns the status record.
    pub fn publish_brake_report(&mut self) -> (r: BrakeReport)
        ensures
            r == old(self).brake_report_of(),
            *final(self) == (BrakeModule { brake_report: r, ..*old(self) }),
    {
        self.brake_report.enabled = self.control_state.enabled;
        self.brake_report.operator_override = self.control_state.operator_override;
        self.brake_report.dtcs = self.control_state.dtcs;
        self.brake_report
    }

    /// Refreshes and returns the fault record.
    pub fn publish_fault_report(&mut self) -> (r: FaultReport)
        ensures
            r == (FaultReport { fault_origin_id: FAULT_ORIGIN_BRAKE, dtcs: old(self).control_state.dtcs }),
            *final(self) == (BrakeModule { fault_report: r, ..*old(self) }),
    {
        self.fault_report.fault_origin_id = FAULT_ORIGIN_BRAKE;
        self.fault_report.dtcs = self.control_state.dtcs;
        self.fault_report
    }

    /// Dispatches a received frame. `high`, `low` are what the sensor inputs
    /// show now, for a change of control mode.
    pub fn process_rx_frame(&mut self, id: u32, data: &[u8], high: u16, low: u16) -> (r: RxOutcome)
        requires
            old(self).wf(),
            high <= DAC_OUTPUT_MAX,
            low <= DAC_OUTPUT_MAX,
        ensures
            final(self).wf(),
            (*final(self), r) == old(self).rx_spec(id, data@, high, low),
    {
        match frame_kind(id, data) {
            None => RxOutcome::Ignored,
            Some(FrameKind::Enable) => RxOutcome::Handled(self.enable_control(high, low)),
            Some(FrameKind::Disable) => RxOutcome::Handled(self.disable_control(high, low)),
            Some(FrameKind::BrakeCommand) => RxOutcome::BrakeCommand,
            Some(FrameKind::FaultReport) => RxOutcome::Handled(self.process_fault_report(high, low)),
        }
    }

    /// A fault anywhere in the system hands braking back to the driver.
    pub fn process_fault_report(&mut self, high: u16, low: u16) -> (r: Effects)
        requires
            old(self).wf(),
            high <= DAC_OUTPUT_MAX,
            low <= DAC_OUTPUT_MAX,
        ensures
            final(self).wf(),
            (*final(self), r) == old(self).disable_spec(high, low),
    {
        self.disable_control(high, low)
    }

    fn read_brake_pedal_position_sensor(&mut self, high: u16, low: u16)
        requires
            old(self).wf(),
            high <= DAC_OUTPUT_MAX,
            low <= DAC_OUTPUT_MAX,
        ensures
            final(self).wf(),
            *final(self) == (BrakeModule {
                brake_pedal_position: old(self).brake_pedal_position.sampled(high, low),
                ..*old(self)
            }),
    {
        self.brake_pedal_position.update(high, low);
    }
}

/// Enabling and then at once disabling, while the sensor inputs show the
/// same samples, primes the converter with the same pair on both calls, and
/// that pair averages to the sensor's average: no step in the output.
pub proof fn lemma_enable_disable_primes_alike(m: BrakeModule, high: u16, low: u16)
    requires
        m.wf(),
        !m.control_state.enabled,
        !m.control_state.operator_override,
        high <= DAC_OUTPUT_MAX,
        low <= DAC_OUTPUT_MAX,
    ensures
        m.enable_spec(high, low).1.dac_write == Some((high, low)),
        m.enable_spec(high, low).0.disable_spec(high, low).1.dac_write == m.enable_spec(high, low).1.dac_write,
        average_of(
            m.enable_spec(high, low).0.disable_spec(high, low).0.brake_pedal_position.dac_output_a,
            m.enable_spec(high, low).0.disable_spec(high, low).0.brake_pedal_position.dac_output_b,
        ) == average_of(high, low),
        !m.enable_spec(high, low).0.disable_spec(high, low).0.control_state.enabled,
{
}

/// A command outside a channel's range is sent as that range's nearest
/// bound, never as given, and every value sent lies in its channel's range.
pub proof fn lemma_commands_clamped(m: BrakeModule, command_high: u16, command_low: u16)
    requires
        m.wf(),
        m.control_state.enabled,
    ensures
        m.update_brake_spec(command_high, command_low).1.dac_write is Some,
        ({
            let w = m.update_brake_spec(command_high, command_low).1.dac_write->0;
            let c = m.config;
            &&& command_high < c.spoof_high_signal_range_min ==> w.0 == c.spoof_high_signal_range_min
            &&& command_high > c.spoof_high_signal_range_max ==> w.0 == c.spoof_high_signal_range_max
            &&& command_low < c.spoof_low_signal_range_min ==> w.1 == c.spoof_low_signal_range_min
            &&& command_low > c.spoof_low_signal_range_max ==> w.1 == c.spoof_low_signal_range_max
            &&& c.spoof_high_signal_range_min <= w.0 <= c.spoof_high_signal_range_max
            &&& c.spoof_low_signal_range_min <= w.1 <= c.spoof_low_signal_range_max
        }),
{
}

/// Every confirmation of a grounded sensor disables control and sends a
/// fault report with the invalid-sensor code, whatever the state: also when
/// control is already off and another code is latched.
pub proof fn lemma_grounded_always_reports(m: BrakeModule, high: u16, low: u16, now: u32)
    requires
        m.wf(),
        m.checks_faults(),
        m.grounded_latch_after(high, low, now).confirmed,
    ensures
        !m.check_spec(high, low, now).0.control_state.enabled,
        m.check_spec(high, low, now).0.control_state.dtcs == dtc_set(
            m.control_state.dtcs,
            OSCC_BRAKE_DTC_INVALID_SENSOR_VAL,
        ),
        m.check_spec(high, low, now).1.fault_report == Some(
            FaultReport {
                fault_origin_id: FAULT_ORIGIN_BRAKE,
                dtcs: dtc_set(m.control_state.dtcs, OSCC_BRAKE_DTC_INVALID_SENSOR_VAL),
            },
        ),
{
}

/// At most one override report per continuous override: the cycle that
/// sends one flags the override; while it is flagged, a cycle that finds no
/// grounded sensor sends nothing and writes nothing, and keeps the flag as
/// long as the override stays confirmed.
pub proof fn lemma_override_reported_once(m: BrakeModule, high: u16, low: u16, now: u32)
    requires
        m.wf(),
    ensures
        m.control_state.operator_override && !m.grounded_latch_after(high, low, now).confirmed
            ==> m.check_spec(high, low, now).1 == no_effects(),
        m.control_state.operator_override && !m.grounded_latch_after(high, low, now).confirmed
            && m.override_latch_after(high, low, now).confirmed
            ==> m.check_spec(high, low, now).0.control_state.operator_override,
        !m.grounded_latch_after(high, low, now).confirmed && m.check_spec(high, low, now).1.fault_report
            is Some ==> m.check_spec(high, low, now).0.control_state.operator_override,
{
}

/// An enable frame, where control is free to take, shows as enabled in the
/// next status report.
pub proof fn lemma_enable_frame_reported(m: BrakeModule, data: Seq<u8>, high: u16, low: u16)
    requires
        m.wf(),
        !m.control_state.operator_override,
        data.len() >= 2,
        data[0] == OSCC_MAGIC_BYTE_0,
        data[1] == OSCC_MAGIC_BYTE_1,
    ensures
        m.rx_spec(OSCC_BRAKE_ENABLE_CAN_ID, data, high, low).0.brake_report_of().enabled,
{
}

/// A fault report frame from another module shows as disabled in the next
/// status report, with no new diagnostic code.
pub proof fn lemma_fault_frame_reported(m: BrakeModule, data: Seq<u8>, high: u16, low: u16)
    requires
        m.wf(),
        data.len() >= 2,
        data[0] == OSCC_MAGIC_BYTE_0,
        data[1] == OSCC_MAGIC_BYTE_1,
    ensures
        !m.rx_spec(OSCC_FAULT_REPORT_CAN_ID, data, high, low).0.brake_report_of().enabled,
        m.rx_spec(OSCC_FAULT_REPORT_CAN_ID, data, high, low).0.brake_report_of().dtcs == m.control_state.dtcs,
{
}

/// The module after a run of check cycles, each given as its two samples and
/// its time, and the number of fault reports the run sent.
pub open spec fn check_run(m: BrakeModule, cycles: Seq<(u16, u16, u32)>) -> (BrakeModule, nat)
    decreases cycles.len(),
{
    if cycles.len() == 0 {
        (m, 0)
    } else {
        let p = check_run(m, cycles.drop_last());
        let c = cycles.last();
        let t = p.0.check_spec(c.0, c.1, c.2);
        (t.0, p.1 + if t.1.fault_report is Some { 1nat } else { 0nat })
    }
}

/// The module after a run of steps, and the number of fault reports the run
/// sent. A step `(true, high, low, t)` is an enable request and
/// `(false, high, low, t)` a check cycle, each seeing samples `high`, `low`
/// at time `t`.
pub open spec fn session_run(m: BrakeModule, steps: Seq<(bool, u16, u16, u32)>) -> (BrakeModule, nat)
    decreases steps.len(),
{
    if steps.len() == 0 {
        (m, 0)
    } else {
        let p = session_run(m, steps.drop_last());
        let c = steps.last();
        if c.0 {
            (p.0.enable_spec(c.1, c.2).0, p.1)
        } else {
            let t = p.0.check_spec(c.1, c.2, c.3);
            (t.0, p.1 + if t.1.fault_report is Some { 1nat } else { 0nat })
        }
    }
}

/// An operator override held continuously yields at most one fault report,
/// and once it has been reported control stays off, enable requests
/// notwithstanding: over a run of check cycles and enable requests that
/// starts with no override run in progress, in which every step's average is
/// at or above the override threshold, no step's samples read as grounded
/// and time does not go back.
pub proof fn lemma_one_report_per_override_episode(m: BrakeModule, steps: Seq<(bool, u16, u16, u32)>)
    requires
        m.operator_override_state.start_time is None,
        forall|i: int|
            0 <= i < steps.len() ==> average_of((#[trigger] steps[i]).1, steps[i].2)
                >= m.config.pedal_override_threshold && !grounded(
                steps[i].1,
                steps[i].2,
                m.config.grounded_threshold,
            ),
        forall|i: int| 0 < i < steps.len() ==> (#[trigger] steps[i]).3 >= steps[i - 1].3,
    ensures
        forall|k: int| 0 <= k <= steps.len() ==> (#[trigger] session_run(m, steps.take(k))).1 <= 1,
        forall|k: int|
            0 <= k <= steps.len() && (#[trigger] session_run(m, steps.take(k))).1 == 1 ==> !session_run(
                m,
                steps.take(k),
            ).0.control_state.enabled,
{
    assert forall|k: int| 0 <= k <= steps.len() implies (#[trigger] session_run(m, steps.take(k))).1 <= 1
        && (session_run(m, steps.take(k)).1 == 1 ==> !session_run(m, steps.take(k)).0.control_state.enabled) by {
        lemma_override_episode_prefix(m, steps, k);
    }
}

proof fn lemma_override_episode_prefix(m: BrakeModule, steps: Seq<(bool, u16, u16, u32)>, k: int)
    requires
        m.operator_override_state.start_time is None,
        forall|i: int|
            0 <= i < steps.len() ==> average_of((#[trigger] steps[i]).1, steps[i].2)
                >= m.config.pedal_override_threshold && !grounded(
                steps[i].1,
                steps[i].2,
                m.config.grounded_threshold,
            ),
        forall|i: int| 0 < i < steps.len() ==> (#[trigger] steps[i]).3 >= steps[i - 1].3,
        0 <= k <= steps.len(),
    ensures
        ({
            let (s, n) = session_run(m, steps.take(k));
            &&& s.config == m.config
            &&& n <= 1
            &&& s.operator_override_state.start_time is Some ==> k > 0
                && s.operator_override_state.start_time->0 <= steps[k - 1].3
            &&& n == 1 ==> {
                &&& k > 0
                &&& s.control_state.operator_override
                &&& !s.control_state.enabled
                &&& s.control_state.dtcs > 0
                &&& s.operator_override_state.start_time is Some
                &&& steps[k - 1].3 - s.operator_override_state.start_time->0 >= m.config.fault_hysteresis
            }
        }),
    decreases k,
{
    if k > 0 {
        lemma_override_episode_prefix(m, steps, k - 1);
        let q = steps.take(k);
        assert(q.drop_last() =~= steps.take(k - 1));
        assert(q.last() == steps[k - 1]);
        let p = session_run(m, steps.take(k - 1));
        let c = steps[k - 1];
        assert(average_of(c.1, c.2) >= m.config.pedal_override_threshold);
        if k > 1 {
            assert(steps[k - 1].3 >= steps[k - 2].3);
        }
        let dtcs = p.0.control_state.dtcs;
        assert(dtcs | (1u8 << 1u8) > 0u8) by (bit_vector);
    } else {
        assert(steps.take(0) =~= Seq::<(bool, u16, u16, u32)>::empty());
    }
}

/// Whether a cycle's samples put the pedal at or above the override threshold.
pub open spec fn pressed(m: BrakeModule, c: (u16, u16, u32)) -> bool {
    average_of(c.0, c.1) >= m.config.pedal_override_threshold
}

/// An override condition that is never true on two cycles in a row never
/// confirms, however long it goes on: from an enabled module with no code,
/// no override and an idle override latch, a run of check cycles in which no
/// sensor reads as grounded leaves control enabled, sends no fault report
/// and latches no code.
pub proof fn lemma_flapping_override_never_disables(m: BrakeModule, cycles: Seq<(u16, u16, u32)>)
    requires
        m.control_state == (BrakeControlState { enabled: true, operator_override: false, dtcs: 0 }),
        m.operator_override_state.start_time is None,
        forall|i: int|
            0 <= i < cycles.len() ==> !grounded(
                (#[trigger] cycles[i]).0,
                cycles[i].1,
                m.config.grounded_threshold,
            ),
        forall|i: int| 0 < i < cycles.len() ==> !(pressed(m, #[trigger] cycles[i]) && pressed(m, cycles[i - 1])),
    ensures
        forall|k: int|
            0 <= k <= cycles.len() ==> (#[trigger] check_run(m, cycles.take(k))).1 == 0
                && check_run(m, cycles.take(k)).0.control_state == m.control_state,
{
    assert forall|k: int| 0 <= k <= cycles.len() implies (#[trigger] check_run(m, cycles.take(k))).1 == 0
        && check_run(m, cycles.take(k)).0.control_state == m.control_state by {
        lemma_flapping_prefix_module(m, cycles, k);
    }
}

proof fn lemma_flapping_prefix_module(m: BrakeModule, cycles: Seq<(u16, u16, u32)>, k: int)
    requires
        m.control_state == (BrakeControlState { enabled: true, operator_override: false, dtcs: 0 }),
        m.operator_override_state.start_time is None,
        forall|i: int|
            0 <= i < cycles.len() ==> !grounded(
                (#[trigger] cycles[i]).0,
                cycles[i].1,
                m.config.grounded_threshold,
            ),
        forall|i: int| 0 < i < cycles.len() ==> !(pressed(m, #[trigger] cycles[i]) && pressed(m, cycles[i - 1])),
        0 <= k <= cycles.len(),
    ensures
        check_run(m, cycles.take(k)).1 == 0,
        check_run(m, cycles.take(k)).0.control_state == m.control_state,
        check_run(m, cycles.take(k)).0.config == m.config,
        k == 0 || !pressed(m, cycles[k - 1]) ==> check_run(m, cycles.take(k)).0.operator_override_state.start_time
            is None,
    decreases k,
{
    if k > 0 {
        lemma_flapping_prefix_module(m, cycles, k - 1);
        let q = cycles.take(k);
        assert(q.drop_last() =~= cycles.take(k - 1));
        assert(q.last() == cycles[k - 1]);
        assert(!grounded(cycles[k - 1].0, cycles[k - 1].1, m.config.grounded_threshold));
        if k > 1 {
            assert(!(pressed(m, cycles[k - 1]) && pressed(m, cycles[k - 2])));
        }
    } else {
        assert(cycles.take(0) =~= Seq::<(u16, u16, u32)>::empty());
    }
}

} // verus!
