use rip::actuator_model::BoundedActuatorCommand;
use rip::hybrid_control::ControlRegime;
use rip::robot_domain::StateValidity;
use rip::runtime_state::{
    AuthorityContext, AuthorizedActuation, RuntimeAuthority, RuntimeState, SensorTimingHealth,
    WatchdogHealth,
};
use rip::tb6612::{
    DutyOutput, LogicOutput, Tb6612BridgeMode, Tb6612Mapper, Tb6612Output, Tb6612OutputError,
};

#[derive(Default)]
struct MockPwm {
    duty: f32,
    writes: u32,
}

impl DutyOutput for MockPwm {
    type Duty = f32;
    type Error = ();

    fn set_duty_fraction(&mut self, duty_fraction: f32) -> Result<(), Self::Error> {
        self.duty = duty_fraction;
        self.writes += 1;
        Ok(())
    }
}

#[derive(Default)]
struct MockPin {
    high: bool,
}

impl LogicOutput for MockPin {
    type Error = ();

    fn set_level(&mut self, high: bool) -> Result<(), Self::Error> {
        self.high = high;
        Ok(())
    }
}

fn command(value: f32) -> BoundedActuatorCommand<f32, f32> {
    BoundedActuatorCommand { command: value, saturated: false, predicted_arm_torque: 0.1 * value }
}

fn authorized(value: f32) -> AuthorizedActuation<f32, f32> {
    let mut authority = RuntimeAuthority::new();
    authority.enter_closed_loop().unwrap();
    authority
        .evaluate(
            AuthorityContext {
                runtime_state: RuntimeState::Active(ControlRegime::Balance),
                timing: SensorTimingHealth::Healthy,
                watchdog: WatchdogHealth::Healthy,
                estimate_validity: StateValidity::Valid,
                runtime_qualified: true,
            },
            command(value),
        )
        .authorized()
        .unwrap()
}

fn valid_duty(duty: f32) -> bool {
    duty.is_finite() && (0.0..=1.0).contains(&duty)
}

/// Apply an authorized command as the firmware does: the sign picks the
/// drive direction and the magnitude is the duty.
fn apply_authorized(
    output: &mut Tb6612Output<MockPwm, MockPin, MockPin>,
    actuation: AuthorizedActuation<f32, f32>,
) -> Result<(), Tb6612OutputError<(), (), ()>> {
    let value = actuation.command().command;
    if value == 0.0 {
        return output.apply_frame(Tb6612BridgeMode::Coast, 0.0, 0.0, true);
    }
    let mode = output.mapper().drive_mode(value > 0.0);
    output.apply_frame(mode, value.abs(), 0.0, valid_duty(value.abs()))
}

#[test]
fn electrical_mapping_requires_closed_loop_authorization() {
    let actuation = authorized(0.5);
    let mode = Tb6612Mapper::new(true).drive_mode(actuation.command().command > 0.0);
    assert_eq!(mode, Tb6612BridgeMode::DrivePositive);
    assert_eq!(actuation.command().command, 0.5);
}

#[test]
fn hardware_sink_applies_guarded_drive_and_safe_off() {
    let mut output = Tb6612Output::new(
        Tb6612Mapper::new(true),
        MockPwm::default(),
        MockPin::default(),
        MockPin::default(),
    );

    apply_authorized(&mut output, authorized(-0.4)).unwrap();
    let (pwm, in1, in2) = output.into_parts();
    assert_eq!(pwm.duty, 0.4);
    assert!(!in1.high);
    assert!(in2.high);
    assert_eq!(pwm.writes, 2);

    let mut output = Tb6612Output::new(Tb6612Mapper::new(true), pwm, in1, in2);
    output.apply_frame(Tb6612BridgeMode::Coast, 0.0, 0.0, true).unwrap();
    let (pwm, in1, in2) = output.into_parts();
    assert_eq!(pwm.duty, 0.0);
    assert!(!in1.high);
    assert!(!in2.high);
}

#[test]
fn invalid_frame_is_rejected_before_gpio_changes() {
    let mut output = Tb6612Output::new(
        Tb6612Mapper::new(true),
        MockPwm::default(),
        MockPin::default(),
        MockPin::default(),
    );
    let error = output
        .apply_frame(Tb6612BridgeMode::DrivePositive, 1.2, 0.0, valid_duty(1.2))
        .unwrap_err();
    assert_eq!(error, Tb6612OutputError::InvalidFrame);
    assert_eq!(output.into_parts().0.writes, 0);
}

#[derive(Debug, PartialEq)]
enum Write {
    Duty(u8),
    In1(bool),
    In2(bool),
}

struct TracePwm {
    trace: std::rc::Rc<std::cell::RefCell<Vec<Write>>>,
    fail_on_write: Option<usize>,
}

impl DutyOutput for TracePwm {
    type Duty = u8;
    type Error = &'static str;

    fn set_duty_fraction(&mut self, duty_fraction: u8) -> Result<(), Self::Error> {
        self.trace.borrow_mut().push(Write::Duty(duty_fraction));
        if self.fail_on_write == Some(self.trace.borrow().len()) {
            return Err("pwm");
        }
        Ok(())
    }
}

struct TracePin {
    first: bool,
    fail: bool,
    trace: std::rc::Rc<std::cell::RefCell<Vec<Write>>>,
}

impl LogicOutput for TracePin {
    type Error = &'static str;

    fn set_level(&mut self, high: bool) -> Result<(), Self::Error> {
        let write = if self.first { Write::In1(high) } else { Write::In2(high) };
        self.trace.borrow_mut().push(write);
        if self.fail {
            return Err("pin");
        }
        Ok(())
    }
}

#[test]
fn bridge_inputs_change_only_with_the_duty_removed() {
    let trace = std::rc::Rc::new(std::cell::RefCell::new(Vec::new()));
    let pwm = TracePwm { trace: trace.clone(), fail_on_write: None };
    let in1 = TracePin { first: true, fail: false, trace: trace.clone() };
    let in2 = TracePin { first: false, fail: false, trace: trace.clone() };
    let mut output = Tb6612Output::new(Tb6612Mapper::new(true), pwm, in1, in2);
    output.apply_frame(Tb6612BridgeMode::DrivePositive, 200, 0, true).unwrap();
    output.apply_frame(Tb6612BridgeMode::Brake, 200, 0, true).unwrap();
    assert_eq!(
        *trace.borrow(),
        vec![
            Write::Duty(0),
            Write::In1(true),
            Write::In2(false),
            Write::Duty(200),
            Write::Duty(0),
            Write::In1(true),
            Write::In2(true),
            Write::Duty(0),
        ]
    );
}

#[test]
fn a_failed_duty_removal_stops_before_the_bridge_inputs() {
    let trace = std::rc::Rc::new(std::cell::RefCell::new(Vec::new()));
    let pwm = TracePwm { trace: trace.clone(), fail_on_write: Some(1) };
    let in1 = TracePin { first: true, fail: false, trace: trace.clone() };
    let in2 = TracePin { first: false, fail: false, trace: trace.clone() };
    let mut output = Tb6612Output::new(Tb6612Mapper::new(true), pwm, in1, in2);
    let result = output.apply_frame(Tb6612BridgeMode::DriveNegative, 90, 0, true);
    assert_eq!(result, Err(Tb6612OutputError::Pwm("pwm")));
    assert_eq!(*trace.borrow(), vec![Write::Duty(0)]);
}

#[test]
fn a_failed_bridge_input_stops_before_the_duty() {
    let trace = std::rc::Rc::new(std::cell::RefCell::new(Vec::new()));
    let pwm = TracePwm { trace: trace.clone(), fail_on_write: None };
    let in1 = TracePin { first: true, fail: true, trace: trace.clone() };
    let in2 = TracePin { first: false, fail: false, trace: trace.clone() };
    let mut output = Tb6612Output::new(Tb6612Mapper::new(true), pwm, in1, in2);
    let result = output.apply_frame(Tb6612BridgeMode::DrivePositive, 90, 0, true);
    assert_eq!(result, Err(Tb6612OutputError::In1("pin")));
    assert_eq!(*trace.borrow(), vec![Write::Duty(0), Write::In1(true)]);
}

#[test]
fn a_failed_final_duty_write_is_reported_after_all_four_writes() {
    let trace = std::rc::Rc::new(std::cell::RefCell::new(Vec::new()));
    let pwm = TracePwm { trace: trace.clone(), fail_on_write: Some(4) };
    let in1 = TracePin { first: true, fail: false, trace: trace.clone() };
    let in2 = TracePin { first: false, fail: false, trace: trace.clone() };
    let mut output = Tb6612Output::new(Tb6612Mapper::new(false), pwm, in1, in2);
    let result = output.apply_frame(Tb6612BridgeMode::DriveNegative, 90, 0, true);
    assert_eq!(result, Err(Tb6612OutputError::Pwm("pwm")));
    assert_eq!(
        *trace.borrow(),
        vec![Write::Duty(0), Write::In1(false), Write::In2(true), Write::Duty(90)]
    );
}
