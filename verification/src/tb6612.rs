//! TB6612 H-bridge electrical semantics for one motor channel.
//!
//! The duty fraction is a floating-point quantity; the bridge-mode choice and
//! the input-pin levels of each mode are decided here.
use vstd::prelude::*;

verus! {

#[derive(Clone, Copy, Debug, PartialEq, Eq, Structural)]
pub enum Tb6612BridgeMode {
    Coast,
    DrivePositive,
    DriveNegative,
    Brake,
}

/// (IN1, IN2, duty applied) for a bridge mode: coast releases both inputs,
/// brake shorts the motor with both inputs high, and only the two drive modes
/// apply the requested duty.
pub open spec fn spec_bridge_levels(mode: Tb6612BridgeMode) -> (bool, bool, bool) {
    match mode {
        Tb6612BridgeMode::Coast => (false, false, false),
        Tb6612BridgeMode::DrivePositive => (true, false, true),
        Tb6612BridgeMode::DriveNegative => (false, true, true),
        Tb6612BridgeMode::Brake => (true, true, false),
    }
}

impl Tb6612BridgeMode {
    pub fn levels(self) -> (l: (bool, bool, bool))
        ensures
            l == spec_bridge_levels(self),
    {
        match self {
            Tb6612BridgeMode::Coast => (false, false, false),
            Tb6612BridgeMode::DrivePositive => (true, false, true),
            Tb6612BridgeMode::DriveNegative => (false, true, true),
            Tb6612BridgeMode::Brake => (true, true, false),
        }
    }
}

/// Electrical-semantic mapper for one TB6612 motor channel.
#[derive(Clone, Copy, Debug, PartialEq, Eq, Structural)]
pub struct Tb6612Mapper {
    positive_command_is_positive_drive: bool,
}

impl Tb6612Mapper {
    pub closed spec fn spec_polarity(self) -> bool {
        self.positive_command_is_positive_drive
    }

    pub fn new(positive_command_is_positive_drive: bool) -> (m: Self)
        ensures
            m.spec_polarity() == positive_command_is_positive_drive,
    {
        Tb6612Mapper { positive_command_is_positive_drive }
    }

    /// Drive direction of a non-zero command of the given sign.
    pub fn drive_mode(self, command_positive: bool) -> (mode: Tb6612BridgeMode)
        ensures
            mode == if command_positive == self.spec_polarity() {
                Tb6612BridgeMode::DrivePositive
            } else {
                Tb6612BridgeMode::DriveNegative
            },
    {
        if command_positive == self.positive_command_is_positive_drive {
            Tb6612BridgeMode::DrivePositive
        } else {
            Tb6612BridgeMode::DriveNegative
        }
    }
}

/// Minimal Firmware boundary required from one digital direction output.
pub trait LogicOutput {
    type Error;

    fn set_level(&mut self, high: bool) -> Result<(), Self::Error>;
}

#[derive(Debug, PartialEq)]
pub enum Tb6612OutputError<PwmError, In1Error, In2Error> {
    InvalidFrame,
    Pwm(PwmError),
    In1(In1Error),
    In2(In2Error),
}

/// Minimal Firmware boundary required from a PWM realization; `Duty` is the
/// fraction type that the realization takes.
pub trait DutyOutput {
    type Duty: Copy;

    type Error;

    fn set_duty_fraction(&mut self, duty_fraction: Self::Duty) -> Result<(), Self::Error>;
}

/// One output write of the bridge driver.
pub enum BridgeEvent<D> {
    Duty(D),
    In1(bool),
    In2(bool),
}

/// The break-before-make sequence for one frame: PWM to `off`, both bridge
/// inputs to the mode's levels, then the requested duty (or `off` where the
/// mode applies none).
pub open spec fn bridge_sequence<D>(mode: Tb6612BridgeMode, duty: D, off: D) -> Seq<BridgeEvent<D>> {
    let (in1, in2, applied) = spec_bridge_levels(mode);
    seq![
        BridgeEvent::Duty(off),
        BridgeEvent::In1(in1),
        BridgeEvent::In2(in2),
        BridgeEvent::Duty(if applied { duty } else { off }),
    ]
}

/// The answer of one write, with its error tagged by the output that gave it.
pub type WriteAnswer<P, A, B> = Result<(), Tb6612OutputError<P, A, B>>;

pub open spec fn pwm_answer<P, A, B>(r: Result<(), P>) -> WriteAnswer<P, A, B> {
    match r {
        Ok(()) => Ok(()),
        Err(e) => Err(Tb6612OutputError::Pwm(e)),
    }
}

pub open spec fn in1_answer<P, A, B>(r: Result<(), A>) -> WriteAnswer<P, A, B> {
    match r {
        Ok(()) => Ok(()),
        Err(e) => Err(Tb6612OutputError::In1(e)),
    }
}

pub open spec fn in2_answer<P, A, B>(r: Result<(), B>) -> WriteAnswer<P, A, B> {
    match r {
        Ok(()) => Ok(()),
        Err(e) => Err(Tb6612OutputError::In2(e)),
    }
}

/// The writes of one frame stop at the first failing answer, which is the
/// result; `answers` holds the answers of the writes that were made.
pub open spec fn stops_at_first_failure<P, A, B>(
    answers: Seq<WriteAnswer<P, A, B>>,
    r: WriteAnswer<P, A, B>,
) -> bool {
    let n = answers.len() as int;
    &&& 1 <= n <= 4
    &&& forall|k: int| 0 <= k < n - 1 ==> #[trigger] answers[k] is Ok
    &&& n < 4 ==> answers[n - 1] is Err
    &&& r == answers[n - 1]
}

/// Hardware-facing TB6612 sink with an explicit break-before-make sequence:
/// direction pins are never changed while a requested duty is applied.
pub struct Tb6612Output<Pwm: DutyOutput, In1: LogicOutput, In2: LogicOutput> {
    mapper: Tb6612Mapper,
    pwm: Pwm,
    in1: In1,
    in2: In2,
    /// Every output write this driver has made, oldest first.
    events: Ghost<Seq<BridgeEvent<Pwm::Duty>>>,
    /// The answer of each write in `events`.
    answers: Ghost<Seq<WriteAnswer<Pwm::Error, In1::Error, In2::Error>>>,
}

impl<Pwm: DutyOutput, In1: LogicOutput, In2: LogicOutput> Tb6612Output<Pwm, In1, In2> {
    pub closed spec fn spec_mapper(&self) -> Tb6612Mapper {
        self.mapper
    }

    pub closed spec fn spec_parts(&self) -> (Pwm, In1, In2) {
        (self.pwm, self.in1, self.in2)
    }

    /// Every output write made, oldest first.
    pub closed spec fn spec_events(&self) -> Seq<BridgeEvent<Pwm::Duty>> {
        self.events@
    }

    /// The answer of each write in `spec_events`, its error tagged by output.
    pub closed spec fn spec_answers(&self) -> Seq<WriteAnswer<Pwm::Error, In1::Error, In2::Error>> {
        self.answers@
    }

    pub fn new(mapper: Tb6612Mapper, pwm: Pwm, in1: In1, in2: In2) -> (o: Self)
        ensures
            o.spec_mapper() == mapper,
            o.spec_parts() == (pwm, in1, in2),
            o.spec_events() == Seq::<BridgeEvent<Pwm::Duty>>::empty(),
            o.spec_answers() == Seq::<WriteAnswer<Pwm::Error, In1::Error, In2::Error>>::empty(),
    {
        Tb6612Output {
            mapper,
            pwm,
            in1,
            in2,
            events: Ghost(Seq::empty()),
            answers: Ghost(Seq::empty()),
        }
    }

    pub fn mapper(&self) -> (m: Tb6612Mapper)
        ensures
            m == self.spec_mapper(),
    {
        self.mapper
    }

    /// Apply one electrical frame: `mode` with `duty`, where `off` is the
    /// zero duty and `frame_valid` says whether the frame's duty is a finite
    /// fraction in `[0, 1]`. An invalid frame is refused before any write;
    /// otherwise the writes follow `bridge_sequence` and stop at the first
    /// write that fails, whose error is returned.
    pub fn apply_frame(
        &mut self,
        mode: Tb6612BridgeMode,
        duty: Pwm::Duty,
        off: Pwm::Duty,
        frame_valid: bool,
    ) -> (r: Result<(), Tb6612OutputError<Pwm::Error, In1::Error, In2::Error>>)
        ensures
            final(self).spec_mapper() == old(self).spec_mapper(),
            !frame_valid ==> (r matches Err(Tb6612OutputError::InvalidFrame)) && final(self).spec_events()
                == old(self).spec_events() && final(self).spec_answers() == old(self).spec_answers()
                && final(self).spec_parts() == old(self).spec_parts(),
            frame_valid ==> {
                let n = final(self).spec_events().len() - old(self).spec_events().len();
                let answers = final(self).spec_answers().subrange(
                    old(self).spec_answers().len() as int,
                    final(self).spec_answers().len() as int,
                );
                &&& final(self).spec_events() == old(self).spec_events() + bridge_sequence(
                    mode,
                    duty,
                    off,
                ).take(n)
                &&& final(self).spec_answers() == old(self).spec_answers() + answers
                &&& answers.len() == n
                &&& stops_at_first_failure(answers, r)
                &&& answers[0] is Ok || (answers[0] matches Err(Tb6612OutputError::Pwm(_)))
                &&& n > 1 ==> answers[1] is Ok || (answers[1] matches Err(Tb6612OutputError::In1(_)))
                &&& n > 2 ==> answers[2] is Ok || (answers[2] matches Err(Tb6612OutputError::In2(_)))
                &&& n > 3 ==> answers[3] is Ok || (answers[3] matches Err(Tb6612OutputError::Pwm(_)))
            },
    {
        if !frame_valid {
            return Err(Tb6612OutputError::InvalidFrame);
        }
        let ghost full = bridge_sequence(mode, duty, off);
        let ghost start = self.events@;
        let ghost answers0 = self.answers@;
        let first = self.pwm.set_duty_fraction(off);
        self.events = Ghost(self.events@.push(BridgeEvent::Duty(off)));
        self.answers = Ghost(self.answers@.push(pwm_answer(first)));
        assert(self.events@ =~= start + full.take(1));
        assert(self.answers@.subrange(answers0.len() as int, self.answers@.len() as int) =~= seq![
            pwm_answer(first),
        ]);
        if let Err(e) = first {
            return Err(Tb6612OutputError::Pwm(e));
        }
        let (in1, in2, applied) = mode.levels();
        let set_in1 = self.in1.set_level(in1);
        self.events = Ghost(self.events@.push(BridgeEvent::In1(in1)));
        self.answers = Ghost(self.answers@.push(in1_answer(set_in1)));
        assert(self.events@ =~= start + full.take(2));
        assert(self.answers@.subrange(answers0.len() as int, self.answers@.len() as int) =~= seq![
            pwm_answer(first),
            in1_answer(set_in1),
        ]);
        if let Err(e) = set_in1 {
            return Err(Tb6612OutputError::In1(e));
        }
        let set_in2 = self.in2.set_level(in2);
        self.events = Ghost(self.events@.push(BridgeEvent::In2(in2)));
        self.answers = Ghost(self.answers@.push(in2_answer(set_in2)));
        assert(self.events@ =~= start + full.take(3));
        assert(self.answers@.subrange(answers0.len() as int, self.answers@.len() as int) =~= seq![
            pwm_answer(first),
            in1_answer(set_in1),
            in2_answer(set_in2),
        ]);
        if let Err(e) = set_in2 {
            return Err(Tb6612OutputError::In2(e));
        }
        let requested = if applied {
            duty
        } else {
            off
        };
        let last = self.pwm.set_duty_fraction(requested);
        self.events = Ghost(self.events@.push(BridgeEvent::Duty(requested)));
        self.answers = Ghost(self.answers@.push(pwm_answer(last)));
        assert(self.events@ =~= start + full.take(4));
        assert(self.answers@.subrange(answers0.len() as int, self.answers@.len() as int) =~= seq![
            pwm_answer(first),
            in1_answer(set_in1),
            in2_answer(set_in2),
            pwm_answer(last),
        ]);
        match last {
            Ok(()) => Ok(()),
            Err(e) => Err(Tb6612OutputError::Pwm(e)),
        }
    }

    pub fn into_parts(self) -> (parts: (Pwm, In1, In2))
        ensures
            parts == self.spec_parts(),
    {
        (self.pwm, self.in1, self.in2)
    }
}

/// Break before make: in every frame, the bridge inputs are written only
/// after the duty has been set to `off`, and the requested duty is written
/// only after both inputs, and only in a drive mode.
pub proof fn lemma_break_before_make<D>(mode: Tb6612BridgeMode, duty: D, off: D)
    ensures
        bridge_sequence(mode, duty, off)[0] == BridgeEvent::Duty(off),
        bridge_sequence(mode, duty, off)[1] is In1,
        bridge_sequence(mode, duty, off)[2] is In2,
        bridge_sequence(mode, duty, off)[3] == BridgeEvent::Duty(
            if spec_bridge_levels(mode).2 {
                duty
            } else {
                off
            },
        ),
{
}

/// Commands of opposite sign drive the bridge in opposite directions.
pub proof fn lemma_opposite_commands_drive_opposite_ways(polarity: bool, positive: bool)
    ensures
        (if positive == polarity {
            Tb6612BridgeMode::DrivePositive
        } else {
            Tb6612BridgeMode::DriveNegative
        }) != (if !positive == polarity {
            Tb6612BridgeMode::DrivePositive
        } else {
            Tb6612BridgeMode::DriveNegative
        }),
{
}

/// No bridge mode drives both inputs while applying duty: a drive mode sets
/// exactly one input high.
pub proof fn lemma_drive_modes_set_exactly_one_input(mode: Tb6612BridgeMode)
    ensures
        spec_bridge_levels(mode).2 ==> spec_bridge_levels(mode).0 != spec_bridge_levels(mode).1,
{
}

} // verus!
