//! Portable, verified core of the rotary inverted pendulum runtime.
pub mod actuator_model;
pub mod actuator_safety;
pub mod arm_encoder;
pub mod assembly_forest_d1_reference;
pub mod assembly_rp2350_uno_balance;
pub mod board_forest_s1_d1;
pub mod board_uno_rp2350;
pub mod control;
pub mod control_domain;
pub mod control_runtime;
pub mod dynamics_model;
pub mod estimator_input;
pub mod flags;
pub mod hardware_contract;
pub mod hybrid_control;
pub mod measurement_model;
pub mod motor_authority;
pub mod oled;
pub mod pendulum_adc;
pub mod plant;
pub mod plant_observation;
pub mod robot_domain;
pub mod runtime_observation;
pub mod runtime_state;
pub mod software_spi;
pub mod state_estimator;
pub mod state_feedback;
pub mod status;
pub mod supervisor;
pub mod tb6612;
pub mod telemetry;
pub mod timebase;
pub mod timing_evidence;
pub mod uart_transport;
