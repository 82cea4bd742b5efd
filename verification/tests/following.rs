use ferrumc::entity_data::Change;
use ferrumc::following::{Followed, Steps, ROUNDS_BEFORE_A_TELEPORT};

/// Where the wire puts a position: in steps of a sixteenth of a two hundred and fifty-sixth of a
/// block, rounded.
fn to_wire(value: f64) -> i64 {
    (value * 4096.0).round() as i64
}

fn at(x: f64, y: f64, z: f64) -> Steps {
    (to_wire(x), to_wire(y), to_wire(z))
}

/// Whether a move from `from` to `to` is far enough to be worth a packet.
fn far_enough(from: (f64, f64, f64), to: (f64, f64, f64)) -> bool {
    let (dx, dy, dz) = (to.0 - from.0, to.1 - from.1, to.2 - from.2);
    dx * dx + dy * dy + dz * dz >= 7.629_394_5e-6
}

fn still() -> Followed {
    Followed::starting_at(at(0.0, 0.0, 0.0), 0, 0, true)
}

#[test]
fn something_that_has_not_moved_says_nothing() {
    let mut followed = still();
    assert_eq!(followed.change(at(0.0, 0.0, 0.0), false, 0, 0, true), Change::Nothing);
}

#[test]
fn a_step_is_carried_as_the_steps_the_wire_takes() {
    let mut followed = still();
    assert_eq!(
        followed.change(at(1.0, 0.0, 0.0), far_enough((0.0, 0.0, 0.0), (1.0, 0.0, 0.0)), 0, 0, true),
        Change::Moved { x: 4096, y: 0, z: 0 }
    );
}

#[test]
fn a_turn_on_its_own_leaves_the_position_where_it_was() {
    let mut followed = still();
    // Far enough to be worth a packet on its own, but the entity has not moved: ninety degrees is
    // sixty-four in the wire's angle byte.
    let turn = followed.change(at(0.0, 0.0, 0.0), false, 64, 0, true);
    assert!(matches!(turn, Change::Turned { .. }));
    assert_eq!(followed.believed_position(), at(0.0, 0.0, 0.0));
}

#[test]
fn a_thousand_small_steps_leave_the_client_exactly_where_the_entity_is() {
    let mut followed = still();
    let step = 0.013_57_f64;
    let mut x = 0.0_f64;
    let mut base = 0.0_f64;
    let mut client = 0i64;

    for _ in 0..1000 {
        x += step;
        let moved = far_enough((base, 0.0, 0.0), (x, 0.0, 0.0));
        match followed.change(at(x, 0.0, 0.0), moved, 0, 0, true) {
            Change::Moved { x: dx, .. } | Change::MovedAndTurned { x: dx, .. } => {
                client += i64::from(dx);
                base = x;
            }
            Change::Teleported => {
                client = to_wire(x);
                base = x;
            }
            Change::Nothing | Change::Turned { .. } => {}
        }
    }

    assert_eq!(client, to_wire(x), "the client should be holding the entity exactly where it is");
}

#[test]
fn a_jump_too_large_to_carry_is_sent_outright() {
    let mut followed = still();
    assert_eq!(followed.change(at(9.0, 0.0, 0.0), true, 0, 0, true), Change::Teleported);
    assert_eq!(followed.believed_position(), at(9.0, 0.0, 0.0));
}

#[test]
fn eight_blocks_still_fits() {
    let mut followed = still();
    assert!(matches!(followed.change(at(7.99, 0.0, 0.0), true, 0, 0, true), Change::Moved { .. }));
}

#[test]
fn landing_is_worth_saying_outright() {
    let mut followed = Followed::starting_at(at(0.0, 0.0, 0.0), 0, 0, false);
    assert_eq!(
        followed.change(at(0.0, 0.0, 0.0), false, 0, 0, true),
        Change::Teleported,
        "whether it is standing on something is not carried by a change"
    );
}

#[test]
fn something_standing_still_is_still_placed_now_and_then() {
    let mut followed = still();
    let mut told = 0;
    for _ in 0..ROUNDS_BEFORE_A_TELEPORT + 2 {
        if followed.change(at(0.0, 0.0, 0.0), false, 0, 0, true) == Change::Teleported {
            told += 1;
        }
    }
    assert_eq!(told, 1, "a client that missed a packet has no other way back");
}

#[test]
fn a_move_and_a_turn_go_out_together() {
    let mut followed = still();
    assert_eq!(
        followed.change(at(0.5, 0.0, 0.0), true, 10, 20, true),
        Change::MovedAndTurned { x: 2048, y: 0, z: 0, yaw: 10, pitch: 20 }
    );
}
