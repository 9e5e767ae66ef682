// Tests run on the host machine, not on an embedded target.

use polar_arm::arm::{Arm, ArmAction};
use polar_arm::command::{Command, CommandError, COMMAND_BUFFER_SIZE};
use polar_arm::kinematics::{get_target_step_position, TargetAngles, HALF_TURN_MICRODEGREES};
use polar_arm::messages::Message;
use polar_arm::parse::{parse_move_line, ParsedLine};
use polar_arm::queue::{motion_queue, transmission_channel, BoundedQueue, OverflowPolicy};
use polar_arm::step_position::StepPosition;
use polar_arm::stepper_pair::{axis_ratio, run_move, StepperPair};

fn degrees(radians: f64) -> f64 {
    radians * (180.0 / std::f64::consts::PI)
}

/// Reduces a floating-point polar target to the integer joint angles the
/// library converts, the way the application front end does.
fn target_angles(theta: f64, rho: f64) -> TargetAngles {
    let theta_microdegrees = (degrees(theta) * 1_000_000.0).round() as i64;
    let elbow_microdegrees = (degrees(libm::acos((0.5 - libm::pow(rho, 2.0)) * 2.0))
        * 1_000_000.0)
        .round() as i64;
    TargetAngles { theta_microdegrees, elbow_microdegrees }
}

#[test]
fn test_step_position_total_steps() {
    let pos = StepPosition {
        primary_steps: 100,
        secondary_steps: -50,
    };
    assert_eq!(pos.get_total_steps(), 150);

    let pos_negative = StepPosition {
        primary_steps: -100,
        secondary_steps: -50,
    };
    assert_eq!(pos_negative.get_total_steps(), 150);
}

#[test]
fn test_step_position_delta() {
    let pos1 = StepPosition {
        primary_steps: 100,
        secondary_steps: 200,
    };
    let pos2 = StepPosition {
        primary_steps: 50,
        secondary_steps: 150,
    };

    let delta = pos1.delta(&pos2);
    assert_eq!(delta.primary_steps, 50);
    assert_eq!(delta.secondary_steps, 50);
}

#[test]
fn test_command_buffer_size() {
    let buf = [0u8; COMMAND_BUFFER_SIZE];
    assert_eq!(buf.len(), 32);
}

#[test]
fn test_buffer_parsing() {
    // Simulate parsing "MOVE 1.5 0.7\n"
    let command = b"MOVE 1.5 0.7 ";
    let command_str = std::str::from_utf8(command).unwrap();
    let mut parts = command_str.split(' ');

    assert_eq!(parts.next(), Some("MOVE"));
    assert_eq!(parts.next(), Some("1.5"));
    assert_eq!(parts.next(), Some("0.7"));
    assert_eq!(parts.next(), Some(""));
}

#[test]
fn test_float_parsing() {
    assert_eq!("1.5".parse::<f64>(), Ok(1.5));
    assert_eq!("0.7".parse::<f64>(), Ok(0.7));
    assert_eq!("-3.14".parse::<f64>(), Ok(-3.14));
    assert!("abc".parse::<f64>().is_err());
    assert!("".parse::<f64>().is_err());
}

#[test]
fn test_step_ratios() {
    let s0_steps = 100_u64;
    let s1_steps = 50_u64;

    let s0_ratio = axis_ratio(s0_steps, s1_steps);
    let s1_ratio = axis_ratio(s1_steps, s0_steps);

    // s0 has more steps, so its ratio caps at 1.0
    assert_eq!(s0_ratio.numerator as f64 / s0_ratio.denominator as f64, 1.0);
    // s1 has half the steps
    assert_eq!(s1_ratio.numerator as f64 / s1_ratio.denominator as f64, 0.5);
}

#[test]
fn test_equal_steps() {
    let s0_steps = 100_u64;
    let s1_steps = 100_u64;

    let s0_ratio = axis_ratio(s0_steps, s1_steps);
    let s1_ratio = axis_ratio(s1_steps, s0_steps);

    assert_eq!(s0_ratio.numerator as f64 / s0_ratio.denominator as f64, 1.0);
    assert_eq!(s1_ratio.numerator as f64 / s1_ratio.denominator as f64, 1.0);
}

#[test]
fn test_zero_axis_ratio() {
    // an axis with no steps never pulses; the formerly-zero other axis is
    // dominant through the max(., 1) guard against division by zero
    let zero_ratio = axis_ratio(0, 5);
    assert_eq!(zero_ratio.numerator, 0);
    assert_eq!(zero_ratio.denominator, 5);
    let dominant_ratio = axis_ratio(5, 0);
    assert_eq!(dominant_ratio.numerator, dominant_ratio.denominator);
}

#[test]
fn test_converter_home_pose() {
    // theta = 0, rho = 0: the folded arm is half a secondary turn from zero
    let home = TargetAngles { theta_microdegrees: 0, elbow_microdegrees: 0 };
    let steps = get_target_step_position(&home);
    assert_eq!(steps.primary_steps, -4500);
    assert_eq!(steps.secondary_steps, 4500);
}

#[test]
fn test_converter_full_extension() {
    // theta = 0, rho = 1 (elbow at 180 degrees) coincides with the zero
    // step position under this geometry; accepted hardware behavior
    let extended = TargetAngles {
        theta_microdegrees: 0,
        elbow_microdegrees: HALF_TURN_MICRODEGREES,
    };
    let steps = get_target_step_position(&extended);
    assert_eq!(steps.primary_steps, 0);
    assert_eq!(steps.secondary_steps, 0);
}

#[test]
fn test_converter_quarter_turn() {
    // theta = 90 degrees, folded elbow: the angle term contributes -4500
    // steps on top of the home offset, and the differential coupling
    // cancels the secondary axis exactly
    let target = TargetAngles { theta_microdegrees: 90_000_000, elbow_microdegrees: 0 };
    let steps = get_target_step_position(&target);
    assert_eq!(steps.primary_steps, -9000);
    assert_eq!(steps.secondary_steps, 0);
}

#[test]
fn test_max_radius_coordinate() {
    // Test at maximum radius (rho = 1.0)
    // Real world: this is a boundary case that maps to origin
    let max_radius = target_angles(0.0, 1.0);
    let steps = get_target_step_position(&max_radius);

    // Hardware limitation: rho=1.0 maps to origin due to kinematics
    assert_eq!(steps.primary_steps, 0);
    assert_eq!(steps.secondary_steps, 0);
}

#[test]
fn test_coordinate_transformation_consistency() {
    // Test that the coordinate transformation is deterministic
    let test_coord = target_angles(1.0, 0.3);
    let steps1 = get_target_step_position(&test_coord);
    let steps2 = get_target_step_position(&test_coord);

    // Same input should always produce same output
    assert_eq!(steps1.primary_steps, steps2.primary_steps);
    assert_eq!(steps1.secondary_steps, steps2.secondary_steps);
}

#[test]
fn test_coordinate_boundary_cases() {
    // Test known boundary cases that work on the real hardware
    let coords = [
        // Origin - always works
        target_angles(0.0, 0.0),
        // Max radius that causes boundary behavior
        target_angles(0.0, 1.0),
    ];

    for coord in coords.iter() {
        let steps = get_target_step_position(coord);
        // These should not panic and should return valid i64 values
        let _total = steps.get_total_steps();
    }
}

#[test]
fn test_run_move_counts() {
    let delta = StepPosition {
        primary_steps: 100,
        secondary_steps: -50,
    };
    let (primary_pulses, secondary_pulses, ticks) = run_move(&delta);
    assert_eq!(primary_pulses, 100);
    assert_eq!(secondary_pulses, 50);
    assert_eq!(ticks, 100);
}

#[test]
fn test_run_move_noop() {
    let delta = StepPosition {
        primary_steps: 0,
        secondary_steps: 0,
    };
    let pair = StepperPair::new(&delta);
    assert!(pair.is_done());
    let (primary_pulses, secondary_pulses, ticks) = run_move(&delta);
    assert_eq!((primary_pulses, secondary_pulses, ticks), (0, 0, 0));
}

#[test]
fn test_tick_schedule() {
    // a 3:1 move: the dominant axis pulses every tick, the subordinate
    // accumulates 1/3 per tick and pulses only on the last crossing
    let delta = StepPosition {
        primary_steps: 3,
        secondary_steps: -1,
    };
    let mut pair = StepperPair::new(&delta);
    assert!(pair.primary_forward);
    assert!(!pair.secondary_forward);
    let mut pulses = Vec::new();
    while !pair.is_done() {
        pulses.push(pair.tick());
    }
    assert_eq!(pulses, vec![(true, false), (true, false), (true, true)]);
}

#[test]
fn test_arm_starts_at_home() {
    let arm = Arm::new();
    let home = arm.current_position();
    assert_eq!(home.primary_steps, -4500);
    assert_eq!(home.secondary_steps, 4500);
}

#[test]
fn test_move_bracketing() {
    // any nonzero delta is exactly [MOVING, move, IDLE], in that order
    let mut arm = Arm::new();
    let target = target_angles(1.0, 0.3);
    let actions = arm.move_to(&target);
    assert_eq!(actions.len(), 3);
    assert_eq!(actions[0], ArmAction::Emit(Message::StatusMoving));
    assert!(matches!(actions[1], ArmAction::Drive(_)));
    assert_eq!(actions[2], ArmAction::Emit(Message::StatusIdle));
    let expected = get_target_step_position(&target);
    assert_eq!(arm.current_position(), expected);
}

#[test]
fn test_noop_short_circuit() {
    // a target whose step position equals the current one emits exactly
    // one IDLE and drives nothing
    let mut arm = Arm::new();
    let home = TargetAngles { theta_microdegrees: 0, elbow_microdegrees: 0 };
    let actions = arm.move_to(&home);
    assert_eq!(actions, vec![ArmAction::Emit(Message::StatusIdle)]);
}

#[test]
fn test_repeated_command_is_noop() {
    // enqueueing the same target twice: only the first move produces a
    // MOVING notification and pulses
    let mut arm = Arm::new();
    let target = target_angles(1.0, 0.3);
    let first = arm.move_to(&target);
    assert_eq!(first.len(), 3);
    let delta = match first[1] {
        ArmAction::Drive(d) => d,
        _ => panic!("second action of a real move must be the drive"),
    };
    assert!(delta.get_total_steps() > 0);
    let second = arm.move_to(&target);
    assert_eq!(second, vec![ArmAction::Emit(Message::StatusIdle)]);
}

#[test]
fn test_queue_fifo_order() {
    // targets are applied in arrival order, T1, T2, T3
    let mut queue = motion_queue();
    assert_eq!(queue.capacity(), 512);
    let t1 = target_angles(0.1, 0.1);
    let t2 = target_angles(0.2, 0.2);
    let t3 = target_angles(0.3, 0.3);
    assert!(queue.try_enqueue(t1).is_ok());
    assert!(queue.try_enqueue(t2).is_ok());
    assert!(queue.try_enqueue(t3).is_ok());
    assert_eq!(queue.try_dequeue(), Some(t1));
    assert_eq!(queue.try_dequeue(), Some(t2));
    assert_eq!(queue.try_dequeue(), Some(t3));
    assert_eq!(queue.try_dequeue(), None);
}

#[test]
fn test_queue_backpressure() {
    // a full queue hands the rejected item back instead of dropping it
    let mut queue: BoundedQueue<u32> = BoundedQueue::new(2, OverflowPolicy::BlockUntilSpace);
    assert_eq!(queue.policy(), OverflowPolicy::BlockUntilSpace);
    assert!(queue.try_enqueue(1).is_ok());
    assert!(queue.try_enqueue(2).is_ok());
    assert_eq!(queue.try_enqueue(3), Err(3));
    assert_eq!(queue.try_dequeue(), Some(1));
    assert!(queue.try_enqueue(3).is_ok());
    assert_eq!(queue.try_dequeue(), Some(2));
    assert_eq!(queue.try_dequeue(), Some(3));
}

#[test]
fn test_transmission_channel_capacity() {
    let queue = transmission_channel();
    assert_eq!(queue.capacity(), 8);
    assert_eq!(queue.len(), 0);
}

#[test]
fn test_command_accumulates_line() {
    let mut command = Command::new();
    for byte in b"MOVE 1.5 0.7" {
        assert!(command.add_char_buf(&[*byte]).is_ok());
        assert!(!command.is_complete());
    }
    assert!(command.add_char_buf(&[b'\n']).is_ok());
    assert!(command.is_complete());
    assert_eq!(command.to_str(), Ok("MOVE 1.5 0.7"));
    assert_eq!(
        command.add_char_buf(&[b'x']),
        Err(CommandError::EOLReached)
    );
}

#[test]
fn test_command_overflow() {
    let mut command = Command::new();
    for _ in 0..32 {
        assert!(command.add_char_buf(&[b'a']).is_ok());
    }
    // the buffer is full: another byte is rejected, and so is the
    // newline, which needs room for its terminating separator
    assert_eq!(
        command.add_char_buf(&[b'b']),
        Err(CommandError::BufferOverflow)
    );
    assert_eq!(
        command.add_char_buf(&[b'\n']),
        Err(CommandError::BufferOverflow)
    );
    assert!(!command.is_complete());
}

#[test]
fn test_command_invalid_utf8() {
    let mut command = Command::new();
    assert!(command.add_char_buf(&[0xff]).is_ok());
    assert!(command.to_str().is_err());
}

#[test]
fn test_command_error_messages() {
    assert_eq!(
        CommandError::EOLReached.message(),
        "cannot append to buffer after command is complete"
    );
    assert_eq!(
        CommandError::BufferOverflow.message(),
        "command too long for buffer"
    );
}

#[test]
fn test_parse_move_line() {
    let line = b"MOVE 1.5 0.7".to_vec();
    match parse_move_line(&line) {
        ParsedLine::Move { theta_text, rho_text } => {
            assert_eq!(theta_text, b"1.5".to_vec());
            assert_eq!(rho_text, b"0.7".to_vec());
        }
        other => panic!("expected a move command, got {:?}", other),
    }
}

#[test]
fn test_parse_missing_args() {
    assert_eq!(parse_move_line(&b"MOVE".to_vec()), ParsedLine::MissingArgs);
    assert_eq!(parse_move_line(&b"MOVE 1.5".to_vec()), ParsedLine::MissingArgs);
    assert_eq!(parse_move_line(&b"MOVE ".to_vec()), ParsedLine::MissingArgs);
}

#[test]
fn test_parse_other_commands_ignored() {
    assert_eq!(parse_move_line(&b"STOP 1 2".to_vec()), ParsedLine::NotMove);
    assert_eq!(parse_move_line(&b"".to_vec()), ParsedLine::NotMove);
    assert_eq!(parse_move_line(&b"MOVER 1 2".to_vec()), ParsedLine::NotMove);
}

#[test]
fn test_parse_empty_pieces_travel_on() {
    // consecutive separators produce empty argument texts; numeric
    // parsing rejects them later, as the grammar demands
    match parse_move_line(&b"MOVE  0.7".to_vec()) {
        ParsedLine::Move { theta_text, rho_text } => {
            assert_eq!(theta_text, b"".to_vec());
            assert_eq!(rho_text, b"0.7".to_vec());
        }
        other => panic!("expected a move command, got {:?}", other),
    }
}

#[test]
fn test_message_tokens() {
    assert_eq!(Message::StatusIdle.token(), "STATUS IDLE");
    assert_eq!(Message::StatusMoving.token(), "STATUS MOVING");
    assert_eq!(Message::ErrorInvalidUtf8.token(), "ERROR INVALID_UTF8");
    assert_eq!(Message::ErrorMissingArgs.token(), "ERROR MISSING_ARGS");
    assert_eq!(Message::ErrorInvalidNumbers.token(), "ERROR INVALID_NUMBERS");
}

#[test]
fn test_transmission_line_framing() {
    assert_eq!(Message::StatusIdle.transmission_line(), "STATUS IDLE\n");
    assert_eq!(Message::StatusMoving.transmission_line(), "STATUS MOVING\n");
}
