use oxcc::brake_module::{
    clamp, frame_kind, BrakeConfig, BrakeControlState, BrakeModule, FaultReport, FrameKind, RxOutcome,
    FAULT_ORIGIN_BRAKE, OSCC_BRAKE_COMMAND_CAN_ID, OSCC_BRAKE_DISABLE_CAN_ID, OSCC_BRAKE_ENABLE_CAN_ID,
    OSCC_BRAKE_REPORT_CAN_ID, OSCC_FAULT_REPORT_CAN_ID,
};
use oxcc::dual_signal::{AdcSignal, DualSignal};
use oxcc::fault_condition::FaultCondition;

const HYSTERESIS: u32 = 150;
const MARKED: [u8; 8] = [0x05, 0xCC, 0, 0, 0, 0, 0, 0];
const INVALID_SENSOR: u8 = 0b01;
const OVERRIDE: u8 = 0b10;

fn config() -> BrakeConfig {
    BrakeConfig {
        spoof_high_signal_range_min: 600,
        spoof_high_signal_range_max: 1900,
        spoof_low_signal_range_min: 300,
        spoof_low_signal_range_max: 950,
        brake_light_spoof_high_threshold: 700,
        brake_light_spoof_low_threshold: 350,
        pedal_override_threshold: 1000,
        grounded_threshold: 5,
        fault_hysteresis: HYSTERESIS,
    }
}

fn enabled_module() -> BrakeModule {
    let mut m = BrakeModule::new(config());
    let e = m.enable_control(800, 400);
    assert_eq!(e.dac_write, Some((800, 400)));
    m
}

#[test]
fn new_module_is_disabled_and_quiet() {
    let mut m = BrakeModule::new(config());
    let r = m.publish_brake_report();
    assert!(!r.enabled && !r.operator_override && r.dtcs == 0);
    assert!(!m.spoof_enable && !m.brake_light_enable);
}

#[test]
fn control_state_starts_clear() {
    let c = BrakeControlState::new();
    assert!(!c.enabled && !c.operator_override && c.dtcs == 0);
}

#[test]
fn enable_primes_output_and_asserts_spoof() {
    let m = enabled_module();
    assert!(m.control_state.enabled);
    assert!(m.spoof_enable);
    assert_eq!((m.brake_pedal_position.dac_output_a, m.brake_pedal_position.dac_output_b), (800, 400));
}

#[test]
fn enable_then_disable_primes_alike() {
    let mut m = BrakeModule::new(config());
    let e1 = m.enable_control(810, 390);
    let e2 = m.disable_control(810, 390);
    assert_eq!(e1.dac_write, Some((810, 390)));
    assert_eq!(e2.dac_write, e1.dac_write);
    assert!(!m.control_state.enabled && !m.spoof_enable && !m.brake_light_enable);
}

#[test]
fn enable_twice_writes_once() {
    let mut m = enabled_module();
    assert_eq!(m.enable_control(1, 1).dac_write, None);
}

#[test]
fn disable_when_disabled_is_a_no_op() {
    let mut m = BrakeModule::new(config());
    let e = m.disable_control(10, 10);
    assert_eq!(e.dac_write, None);
    assert_eq!(e.fault_report, None);
}

#[test]
fn init_devices_drives_outputs_low() {
    let mut m = enabled_module();
    m.init_devices();
    assert!(!m.spoof_enable && !m.brake_light_enable);
}

#[test]
fn update_brake_while_disabled_writes_nothing() {
    let mut m = BrakeModule::new(config());
    for (h, l) in [(0u16, 0u16), (1000, 500), (u16::MAX, u16::MAX)] {
        let e = m.update_brake(h, l);
        assert_eq!(e.dac_write, None);
        assert!(!m.brake_light_enable);
    }
}

#[test]
fn update_brake_clamps_out_of_range_commands() {
    let mut m = enabled_module();
    assert_eq!(m.update_brake(0, 0).dac_write, Some((600, 300)));
    assert!(!m.brake_light_enable);
    assert_eq!(m.update_brake(4000, 4000).dac_write, Some((1900, 950)));
    assert!(m.brake_light_enable);
}

#[test]
fn update_brake_passes_in_range_commands() {
    let mut m = enabled_module();
    assert_eq!(m.update_brake(1200, 600).dac_write, Some((1200, 600)));
    assert!(m.brake_light_enable);
}

#[test]
fn brake_light_follows_either_channel() {
    let mut m = enabled_module();
    m.update_brake(650, 351);
    assert!(m.brake_light_enable);
    m.update_brake(701, 300);
    assert!(m.brake_light_enable);
    m.update_brake(700, 350);
    assert!(!m.brake_light_enable);
}

#[test]
fn clamp_limits_to_range() {
    assert_eq!(clamp(5, 10, 20), 10);
    assert_eq!(clamp(25, 10, 20), 20);
    assert_eq!(clamp(15, 10, 20), 15);
}

#[test]
fn frame_kind_needs_marker() {
    assert_eq!(frame_kind(OSCC_BRAKE_ENABLE_CAN_ID, &MARKED), Some(FrameKind::Enable));
    assert_eq!(frame_kind(OSCC_BRAKE_DISABLE_CAN_ID, &MARKED), Some(FrameKind::Disable));
    assert_eq!(frame_kind(OSCC_BRAKE_COMMAND_CAN_ID, &MARKED), Some(FrameKind::BrakeCommand));
    assert_eq!(frame_kind(OSCC_FAULT_REPORT_CAN_ID, &MARKED), Some(FrameKind::FaultReport));
    assert_eq!(frame_kind(OSCC_BRAKE_REPORT_CAN_ID, &MARKED), None);
    assert_eq!(frame_kind(OSCC_BRAKE_ENABLE_CAN_ID, &[0x05, 0xCD]), None);
    assert_eq!(frame_kind(OSCC_BRAKE_ENABLE_CAN_ID, &[0x05]), None);
}

#[test]
fn enable_frame_shows_in_next_report() {
    let mut m = BrakeModule::new(config());
    let r = m.process_rx_frame(OSCC_BRAKE_ENABLE_CAN_ID, &MARKED, 800, 400);
    assert!(matches!(r, RxOutcome::Handled(e) if e.dac_write == Some((800, 400))));
    assert!(m.publish_brake_report().enabled);
}

#[test]
fn unmarked_frame_is_ignored() {
    let mut m = BrakeModule::new(config());
    let r = m.process_rx_frame(OSCC_BRAKE_ENABLE_CAN_ID, &[0, 0, 0, 0], 800, 400);
    assert_eq!(r, RxOutcome::Ignored);
    assert!(!m.publish_brake_report().enabled);
}

#[test]
fn brake_command_frame_then_mid_range_command() {
    let mut m = enabled_module();
    let r = m.process_rx_frame(OSCC_BRAKE_COMMAND_CAN_ID, &MARKED, 800, 400);
    assert_eq!(r, RxOutcome::BrakeCommand);
    let (h, l) = m.update_brake(1250, 625).dac_write.unwrap();
    assert!((600..=1900).contains(&h));
    assert!((300..=950).contains(&l));
}

#[test]
fn disable_frame_disables() {
    let mut m = enabled_module();
    let r = m.process_rx_frame(OSCC_BRAKE_DISABLE_CAN_ID, &MARKED, 820, 410);
    assert!(matches!(r, RxOutcome::Handled(e) if e.dac_write == Some((820, 410))));
    assert!(!m.control_state.enabled);
}

#[test]
fn fault_frame_disables_without_new_code() {
    let mut m = enabled_module();
    let r = m.process_rx_frame(OSCC_FAULT_REPORT_CAN_ID, &MARKED, 800, 400);
    assert!(matches!(r, RxOutcome::Handled(e) if e.fault_report.is_none()));
    let report = m.publish_brake_report();
    assert!(!report.enabled);
    assert_eq!(report.dtcs, 0);
}

#[test]
fn process_fault_report_disables() {
    let mut m = enabled_module();
    let e = m.process_fault_report(800, 400);
    assert_eq!(e.dac_write, Some((800, 400)));
    assert!(!m.control_state.enabled);
}

#[test]
fn check_skipped_while_disabled_and_clear() {
    let mut m = BrakeModule::new(config());
    for t in 0..10u32 {
        let e = m.check_for_faults(0, 0, t * 100);
        assert_eq!(e.dac_write, None);
        assert_eq!(e.fault_report, None);
    }
    assert_eq!(m.brake_pedal_position.high, 0);
    assert!(m.grounded_fault_state.start_time.is_none());
}

#[test]
fn grounded_sensor_confirms_after_hysteresis() {
    let mut m = enabled_module();
    assert_eq!(m.check_for_faults(0, 3, 1000).fault_report, None);
    assert_eq!(m.check_for_faults(0, 3, 1000 + HYSTERESIS - 1).fault_report, None);
    assert!(m.control_state.enabled);
    let e = m.check_for_faults(2, 0, 1000 + HYSTERESIS);
    assert_eq!(e.dac_write, Some((2, 0)));
    assert_eq!(e.fault_report, Some(FaultReport { fault_origin_id: FAULT_ORIGIN_BRAKE, dtcs: INVALID_SENSOR }));
    assert!(!m.control_state.enabled && !m.spoof_enable);
    assert_eq!(m.publish_fault_report().dtcs, INVALID_SENSOR);
}

#[test]
fn one_grounded_channel_is_no_fault() {
    let mut m = enabled_module();
    for t in 0..5u32 {
        assert_eq!(m.check_for_faults(0, 400, t * HYSTERESIS).fault_report, None);
    }
    assert!(m.control_state.enabled);
}

#[test]
fn grounded_sensor_reports_every_cycle_it_stays_confirmed() {
    let mut m = enabled_module();
    m.check_for_faults(0, 0, 0);
    let first = m.check_for_faults(0, 0, HYSTERESIS);
    assert!(first.fault_report.is_some());
    let again = m.check_for_faults(0, 0, HYSTERESIS + 10);
    assert!(again.fault_report.is_some());
    assert_eq!(again.dac_write, None);
}

#[test]
fn grounded_sensor_reports_over_stale_override_code() {
    let mut m = BrakeModule::new(config());
    // disabled, with an override code latched and the grounded run under way
    m.control_state = BrakeControlState { enabled: false, operator_override: true, dtcs: OVERRIDE };
    m.grounded_fault_state = FaultCondition { confirmed: false, start_time: Some(0) };
    let e = m.check_for_faults(0, 0, HYSTERESIS);
    assert_eq!(e.dac_write, None);
    assert_eq!(
        e.fault_report,
        Some(FaultReport { fault_origin_id: FAULT_ORIGIN_BRAKE, dtcs: OVERRIDE | INVALID_SENSOR })
    );
    assert!(!m.control_state.enabled);
}

#[test]
fn operator_override_reported_once_per_episode() {
    let mut m = enabled_module();
    assert_eq!(m.check_for_faults(1500, 1300, 0).fault_report, None);
    let e = m.check_for_faults(1500, 1300, HYSTERESIS);
    assert_eq!(e.dac_write, Some((1500, 1300)));
    assert_eq!(e.fault_report.unwrap().dtcs, OVERRIDE);
    assert!(m.control_state.operator_override && !m.control_state.enabled);
    for t in 1..20u32 {
        let e = m.check_for_faults(1500, 1300, HYSTERESIS + t * 50);
        assert_eq!(e.dac_write, None);
        assert_eq!(e.fault_report, None);
        assert!(m.control_state.operator_override);
    }
    // enabling is refused while the override is flagged
    assert_eq!(m.enable_control(800, 400).dac_write, None);
    // release clears the codes and the flag
    m.check_for_faults(800, 400, 5000);
    let r = m.publish_brake_report();
    assert!(!r.operator_override && r.dtcs == 0);
    assert!(m.enable_control(800, 400).dac_write.is_some());
}

#[test]
fn diagnostic_codes_clear_when_no_fault_confirmed() {
    let mut m = enabled_module();
    m.check_for_faults(0, 0, 0);
    m.check_for_faults(0, 0, HYSTERESIS);
    assert_eq!(m.control_state.dtcs, INVALID_SENSOR);
    m.check_for_faults(800, 400, HYSTERESIS + 1);
    assert_eq!(m.control_state.dtcs, 0);
    assert_eq!(m.check_for_faults(0, 0, HYSTERESIS + 2).fault_report, None);
}

#[test]
fn output_failure_disables_and_reports() {
    let mut m = enabled_module();
    let e = m.report_output_failure(800, 400);
    assert_eq!(e.dac_write, Some((800, 400)));
    assert_eq!(e.fault_report, Some(FaultReport { fault_origin_id: FAULT_ORIGIN_BRAKE, dtcs: INVALID_SENSOR }));
    assert!(!m.control_state.enabled);
}

#[test]
fn dual_signal_average_and_priming() {
    let mut s = DualSignal::new(0, 0, AdcSignal::BrakePedalPositionSensorHigh, AdcSignal::BrakePedalPositionSensorLow);
    s.update(801, 400);
    assert_eq!(s.average(), 600);
    s.prevent_signal_discontinuity(900, 450);
    assert_eq!((s.high, s.low), (801, 400));
    assert_eq!(s.dac_output_a().val(), 900);
    assert_eq!(s.dac_output_b().val(), 450);
}

#[test]
fn latch_flapping_never_confirms() {
    let mut f = FaultCondition::new();
    for t in 0..1000u32 {
        assert!(!f.condition_exceeded_duration(t % 2 == 0, 10, t * 100));
    }
}

#[test]
fn latch_confirms_at_boundary_not_before() {
    let mut f = FaultCondition::new();
    assert!(!f.condition_exceeded_duration(true, 100, 1000));
    assert!(!f.condition_exceeded_duration(true, 100, 1099));
    assert!(f.condition_exceeded_duration(true, 100, 1100));
    assert!(!f.condition_exceeded_duration(false, 100, 1101));
    assert!(f.start_time.is_none() && !f.confirmed);
}

#[test]
fn latch_measures_across_clock_wrap() {
    let mut f = FaultCondition::new();
    assert!(!f.condition_exceeded_duration(true, 100, u32::MAX - 49));
    assert!(!f.condition_exceeded_duration(true, 100, 49));
    assert!(f.condition_exceeded_duration(true, 100, 50));
}

#[test]
fn grounded_check_needs_both_samples_low() {
    let s = DualSignal::new(3, 200, AdcSignal::BrakePedalPositionSensorHigh, AdcSignal::BrakePedalPositionSensorLow);
    let mut f = FaultCondition::new();
    f.check_voltage_grounded(&s, 5, 0, 0);
    assert!(!f.check_voltage_grounded(&s, 5, 0, 10));
    let g = DualSignal::new(3, 5, AdcSignal::BrakePedalPositionSensorHigh, AdcSignal::BrakePedalPositionSensorLow);
    f.check_voltage_grounded(&g, 5, 0, 20);
    assert!(f.check_voltage_grounded(&g, 5, 0, 20));
}
