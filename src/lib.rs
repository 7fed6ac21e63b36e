//! Control core of a brake-by-wire override module: the output converter's
//! command encoding, the redundant pedal-position sensor channel, the
//! hysteresis fault latch and the brake control state machine.

pub mod dac_mcp4922;
pub mod dual_signal;
pub mod fault_condition;
pub mod brake_module;
