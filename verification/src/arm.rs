//! The arm controller: a two-state machine (idle / moving) that turns each
//! dequeued polar target into the exact ordered list of actions the
//! executor must perform — status notifications and at most one hardware
//! move — and tracks the arm's current absolute step position.

use vstd::prelude::*;

use crate::kinematics::TargetAngles;
use crate::kinematics::get_target_step_position;
use crate::kinematics::home_step_position;
use crate::kinematics::reachable_position;
use crate::kinematics::spec_target_step_position;
use crate::kinematics::valid_target;
use crate::messages::Message;
use crate::step_position::StepPosition;
use crate::step_position::spec_delta;
use crate::step_position::spec_total_steps;

verus! {

/// One step of the work a processed command demands, in execution order.
/// `Emit` sends a notification to the transmission channel; `Drive` runs
/// one coordinated hardware move for the given signed step delta.
#[derive(Clone, Copy, PartialEq, Eq, Structural, Debug)]
pub enum ArmAction {
    Emit(Message),
    Drive(StepPosition),
}

/// The ordered actions for one command: a target whose delta against the
/// current position is zero needs no motion and reports `IDLE` at once; any
/// other target is bracketed as `MOVING`, the single move, then `IDLE`.
pub open spec fn spec_move_actions(current: StepPosition, target: StepPosition) -> Seq<ArmAction> {
    if spec_total_steps(spec_delta(target, current)) == 0 {
        seq![ArmAction::Emit(Message::StatusIdle)]
    } else {
        seq![
            ArmAction::Emit(Message::StatusMoving),
            ArmAction::Drive(spec_delta(target, current)),
            ArmAction::Emit(Message::StatusIdle),
        ]
    }
}

/// The notifications among a list of actions, in emission order.
pub open spec fn emitted_messages(actions: Seq<ArmAction>) -> Seq<Message>
    decreases actions.len(),
{
    if actions.len() == 0 {
        Seq::empty()
    } else {
        let rest = emitted_messages(actions.drop_first());
        match actions.first() {
            ArmAction::Emit(m) => seq![m] + rest,
            ArmAction::Drive(_) => rest,
        }
    }
}

/// The arm: owns the current absolute joint-step position.  It is the sole
/// consumer of the motion queue; it processes one command to completion —
/// both notifications and the physical move — before the next.
pub struct Arm {
    step_position: StepPosition,
    history: Ghost<Seq<Message>>,
}

impl Arm {
    /// The current absolute step position.
    pub closed spec fn position(self) -> StepPosition {
        self.step_position
    }

    /// Every notification this controller has ever emitted, in order.
    /// Because the controller is the transmission channel's sole producer
    /// and processes one command to completion before the next, this is
    /// exactly what the channel carries: per-command blocks, never
    /// interleaved.
    pub closed spec fn emissions(self) -> Seq<Message> {
        self.history@
    }

    /// The controller only ever holds positions the converter can produce.
    pub open spec fn wf(self) -> bool {
        reachable_position(self.position())
    }

    /// A new arm sits at the step position of the home pose
    /// (`theta = 0`, `rho = 0`); no notification is emitted at startup.
    pub fn new() -> (a: Arm)
        ensures
            a.wf(),
            a.position() == home_step_position(),
            a.emissions() == Seq::<Message>::empty(),
    {
        Arm {
            step_position: get_target_step_position(
                &TargetAngles { theta_microdegrees: 0, elbow_microdegrees: 0 },
            ),
            history: Ghost(Seq::empty()),
        }
    }

    /// The current absolute step position, for observation.
    pub fn current_position(&self) -> (r: StepPosition)
        ensures
            r == self.position(),
    {
        self.step_position
    }

    /// Processes one dequeued target: converts it, takes the delta against
    /// the current position, and returns the exact ordered actions the
    /// executor must perform.  The position advances to the target exactly
    /// when the actions contain the move.
    pub fn move_to(&mut self, position: &TargetAngles) -> (actions: Vec<ArmAction>)
        requires
            old(self).wf(),
            valid_target(*position),
        ensures
            final(self).wf(),
            final(self).position() == spec_target_step_position(*position),
            actions@ == spec_move_actions(
                old(self).position(),
                spec_target_step_position(*position),
            ),
            spec_total_steps(
                spec_delta(spec_target_step_position(*position), old(self).position()),
            ) <= i64::MAX,
            final(self).emissions() == old(self).emissions() + emitted_messages(actions@),
    {
        let target_step_position = get_target_step_position(position);
        let delta_step_position = target_step_position.delta(&self.step_position);

        let mut actions: Vec<ArmAction> = Vec::new();
        if delta_step_position.get_total_steps() == 0 {
            // already at the target position
            proof {
                crate::step_position::lemma_zero_delta_means_equal(
                    target_step_position,
                    self.step_position,
                );
            }
            actions.push(ArmAction::Emit(Message::StatusIdle));
            self.history = Ghost(self.history@ + seq![Message::StatusIdle]);
            proof {
                lemma_noop_short_circuit(old(self).position(), target_step_position);
                assert(actions@ =~= spec_move_actions(
                    old(self).position(),
                    spec_target_step_position(*position),
                ));
            }
            return actions;
        }

        // notify that movement is starting, then move, then report idle
        actions.push(ArmAction::Emit(Message::StatusMoving));
        actions.push(ArmAction::Drive(delta_step_position));
        actions.push(ArmAction::Emit(Message::StatusIdle));
        self.step_position = target_step_position;
        self.history = Ghost(self.history@ + seq![Message::StatusMoving, Message::StatusIdle]);
        proof {
            lemma_move_bracketing(old(self).position(), target_step_position);
            assert(actions@ =~= spec_move_actions(
                old(self).position(),
                spec_target_step_position(*position),
            ));
        }
        actions
    }
}

/// Law: a no-op command (zero computed delta) yields exactly one `IDLE`
/// notification and no hardware drive at all, so zero pulses are issued.
pub proof fn lemma_noop_short_circuit(current: StepPosition, target: StepPosition)
    requires
        spec_total_steps(spec_delta(target, current)) == 0,
    ensures
        spec_move_actions(current, target) == seq![ArmAction::Emit(Message::StatusIdle)],
        emitted_messages(spec_move_actions(current, target)) == seq![Message::StatusIdle],
        forall|i: int|
            0 <= i < spec_move_actions(current, target).len() ==> !(spec_move_actions(
                current,
                target,
            )[i] is Drive),
{
    reveal_with_fuel(emitted_messages, 3);
    assert(emitted_messages(spec_move_actions(current, target)) =~= seq![Message::StatusIdle]);
}

/// Law: once a command has completed, repeating the same target is a no-op:
/// the arm already stands at that target's step position, so the delta is
/// zero and the repeat emits a single `IDLE` with no hardware pulses.
pub proof fn lemma_repeated_target_is_noop(t: TargetAngles)
    ensures
        spec_move_actions(spec_target_step_position(t), spec_target_step_position(t)) == seq![
            ArmAction::Emit(Message::StatusIdle),
        ],
{
}

/// Law: for any nonzero delta, the notification sequence for the command is
/// exactly `[MOVING, IDLE]`, in that order, with the single hardware move
/// bracketed between the two notifications.
pub proof fn lemma_move_bracketing(current: StepPosition, target: StepPosition)
    requires
        spec_total_steps(spec_delta(target, current)) != 0,
    ensures
        emitted_messages(spec_move_actions(current, target)) == seq![
            Message::StatusMoving,
            Message::StatusIdle,
        ],
        spec_move_actions(current, target).len() == 3,
        spec_move_actions(current, target)[0] == ArmAction::Emit(Message::StatusMoving),
        spec_move_actions(current, target)[1] == ArmAction::Drive(spec_delta(target, current)),
        spec_move_actions(current, target)[2] == ArmAction::Emit(Message::StatusIdle),
{
    reveal_with_fuel(emitted_messages, 5);
    assert(emitted_messages(spec_move_actions(current, target)) =~= seq![
        Message::StatusMoving,
        Message::StatusIdle,
    ]);
}

} // verus!
