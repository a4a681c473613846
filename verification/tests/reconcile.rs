use thrust_core::player::{
    ControllablePlayer, ExternalForce, FromClient, PlayerInputs, PlayerMovementQuery, Transform,
    Velocity,
};
use thrust_core::reconcile::keep_latest_per_client;
use thrust_core::stages::{Thrust, ThrustReaction};
use thrust_core::thrust::{authoritative_player_movement, find_player};
use thrust_core::vector::Vector3;

const STEP: u32 = 15_625;

fn player(id: u64, forward_speed: i64) -> PlayerMovementQuery {
    PlayerMovementQuery {
        player: ControllablePlayer::new(id),
        external_force: ExternalForce { force: Vector3::zero(), torque: Vector3::zero() },
        transform: Transform {
            forward: Vector3::new(0, 0, -1000),
            up: Vector3::new(0, 1000, 0),
            right: Vector3::new(1000, 0, 0),
        },
        velocity: Velocity {
            linear: Vector3::new(0, 0, -forward_speed),
            angular: Vector3::zero(),
        },
    }
}

fn forward(client_id: u64, request: i8) -> FromClient<PlayerInputs> {
    let mut inputs = PlayerInputs::none();
    inputs.forward = request;
    FromClient { client_id, event: inputs }
}

fn braking(client_id: u64) -> FromClient<PlayerInputs> {
    let mut inputs = PlayerInputs::none();
    inputs.brake = true;
    FromClient { client_id, event: inputs }
}

#[test]
fn an_empty_batch_keeps_nothing() {
    assert_eq!(keep_latest_per_client(&vec![]), vec![]);
}

#[test]
fn of_one_client_only_the_last_input_counts() {
    let batch = vec![forward(7, 1), forward(7, -1), forward(7, 0), forward(7, 5)];
    assert_eq!(keep_latest_per_client(&batch), vec![forward(7, 5)]);
    assert_eq!(keep_latest_per_client(&vec![forward(7, 3)]), vec![forward(7, 3)]);
}

#[test]
fn the_latest_inputs_keep_their_order() {
    let batch = vec![
        forward(1, 1),
        forward(2, 2),
        forward(1, 3),
        forward(3, 4),
        forward(2, 5),
        forward(4, 6),
        forward(1, 7),
    ];
    assert_eq!(
        keep_latest_per_client(&batch),
        vec![forward(3, 4), forward(2, 5), forward(4, 6), forward(1, 7)]
    );
}

#[test]
fn distinct_clients_all_count() {
    let batch = vec![forward(u64::MAX, 1), forward(0, 2), forward(5, 3)];
    assert_eq!(keep_latest_per_client(&batch), batch);
}

#[test]
fn two_inputs_in_one_tick_only_the_brake_is_honoured() {
    let mut players = vec![player(7, 5_000)];
    let batch = vec![forward(7, 1), braking(7)];
    let unmatched = authoritative_player_movement(&mut players, &batch, STEP);
    assert!(unmatched.is_empty());
    let after = players[0];
    assert_eq!(
        after.player.thrust_responses.forward,
        ThrustReaction::Brake { residual: 5_000_000 }
    );
    assert!(after.player.relative_strength.forward < 0);
    assert_eq!(after.player.relative_strength.forward, -100);
    assert_eq!(after.external_force.force, Vector3::new(0, 0, 3_125_000_000_000));

    let mut faster = vec![player(7, 10_000)];
    authoritative_player_movement(&mut faster, &batch, STEP);
    assert_eq!(faster[0].player.relative_strength.forward, -200);
    assert_eq!(faster[0].external_force.force, Vector3::new(0, 0, 6_250_000_000_000));
}

#[test]
fn a_client_without_player_is_reported_and_moves_nothing() {
    let mut players = vec![player(1, 0), player(2, 0)];
    let before = players.clone();
    let batch = vec![forward(99, 1)];
    let unmatched = authoritative_player_movement(&mut players, &batch, STEP);
    assert_eq!(unmatched, vec![99]);
    assert_eq!(players, before);
}

#[test]
fn a_client_without_player_does_not_disturb_the_others() {
    let mut players = vec![player(1, 0), player(2, 0), player(3, 0)];
    let batch = vec![forward(2, 1), forward(99, 1), forward(1, -1), forward(99, -1)];
    let unmatched = authoritative_player_movement(&mut players, &batch, STEP);
    assert_eq!(unmatched, vec![99]);

    let mut alone = vec![player(1, 0), player(2, 0), player(3, 0)];
    let same = authoritative_player_movement(
        &mut alone,
        &vec![forward(2, 1), forward(1, -1)],
        STEP,
    );
    assert!(same.is_empty());
    assert_eq!(players, alone);

    assert_eq!(players[0].player.relative_strength.forward, -1000);
    assert_eq!(players[1].player.relative_strength.forward, 1000);
    assert_eq!(players[0].external_force.force, Vector3::new(0, 0, 31_250_000_000_000));
    assert_eq!(players[1].external_force.force, Vector3::new(0, 0, -31_250_000_000_000));
    assert_eq!(players[2], player(3, 0));
}

#[test]
fn unmatched_clients_are_reported_in_the_order_of_their_latest_input() {
    let mut players = vec![player(1, 0)];
    let batch = vec![forward(50, 1), forward(60, 1), forward(50, 1), forward(1, 1)];
    assert_eq!(authoritative_player_movement(&mut players, &batch, STEP), vec![60, 50]);
}

#[test]
fn a_tick_without_input_changes_nothing() {
    let mut players = vec![player(1, 7_000), player(2, 0)];
    let before = players.clone();
    assert!(authoritative_player_movement(&mut players, &vec![], STEP).is_empty());
    assert_eq!(players, before);
    let mut nobody: Vec<PlayerMovementQuery> = vec![];
    assert_eq!(authoritative_player_movement(&mut nobody, &vec![forward(4, 1)], STEP), vec![4]);
    assert!(nobody.is_empty());
}

#[test]
fn of_two_players_with_one_identifier_the_first_is_steered() {
    let mut players = vec![player(5, 0), player(8, 0), player(8, 0)];
    authoritative_player_movement(&mut players, &vec![forward(8, 1)], STEP);
    assert_eq!(players[0], player(5, 0));
    assert_eq!(players[1].player.relative_strength.forward, 1000);
    assert_eq!(players[2], player(8, 0));
    assert_eq!(find_player(&players, 8), Some(1));
    assert_eq!(find_player(&players, 5), Some(0));
    assert_eq!(find_player(&players, 9), None);
}

#[test]
fn a_player_whose_client_sent_nothing_keeps_its_state() {
    let mut players = vec![player(1, 0), player(2, 20_000)];
    players[1].player.relative_strength = Thrust::uniform(123);
    let idle = players[1];
    authoritative_player_movement(&mut players, &vec![forward(1, 1)], STEP);
    assert_eq!(players[1], idle);
    assert_eq!(players[0].player.relative_strength.forward, 1000);
}
