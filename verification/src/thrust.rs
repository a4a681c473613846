//! One tick of the authority: the batch of inputs is reduced to the latest
//! input of each client, and each of these moves the player of its client.

use crate::info_enactors::{accumulated, applied, apply_thrust, save_thrust_stages};
use crate::info_gathering::{
    axis_normal, calculate_relative_velocity_magnitudes, get_base_normal_vectors, max_projection,
};
use crate::info_processors::{
    at_rest, classify, flag_normal_vectors, flagged_direction, force_factor, get_relative_strengths,
    lemma_accelerate_share_bounds, lemma_brake_share_bounds, max_velocity,
    max_velocity_magnitudes, process_inputs, residual_speed, resolved_strength,
};
use crate::player::{FromClient, PlayerInputs, PlayerMovementQuery, MAX_SPEED};
use crate::reconcile::{
    has_event, keep_latest_per_client, latest_index, latest_index_upto, lemma_latest_index_upto,
    lemma_one_client_one_survivor, lemma_survivor_of_client, lemma_survivors_distinct,
    survivors, Batch,
};
use crate::stages::{Axis, ThrustReaction};
use crate::vector::{lemma_dot_within, MathVector, UNIT};
use vstd::prelude::*;

verus! {

/// The player's velocity along `axis`.
pub open spec fn projection_on(query: PlayerMovementQuery, axis: Axis) -> int {
    axis_normal(query.transform, axis).dot(query.velocity.along(axis))
}

/// The reaction that `inputs` brings about on `axis` of the player.
pub open spec fn reaction_on(query: PlayerMovementQuery, inputs: PlayerInputs, axis: Axis)
    -> ThrustReaction {
    classify(
        inputs.request(axis),
        inputs.brake,
        query.player.artificial_friction_flags.get(axis),
        projection_on(query, axis) as i64,
    )
}

/// The share of the available force that `inputs` brings about on `axis`.
pub open spec fn strength_on(query: PlayerMovementQuery, inputs: PlayerInputs, axis: Axis)
    -> int {
    resolved_strength(
        reaction_on(query, inputs, axis),
        flagged_direction(reaction_on(query, inputs, axis), axis_normal(query.transform, axis)),
        max_velocity(axis),
        query.velocity.along(axis),
    )
}

/// What `axis` applies to the player under `inputs`.
pub open spec fn applied_on(query: PlayerMovementQuery, inputs: PlayerInputs, axis: Axis)
    -> MathVector {
    applied(
        axis_normal(query.transform, axis),
        strength_on(query, inputs, axis),
        force_factor(axis),
    )
}

/// The force that `inputs` brings about.
pub open spec fn force_on(query: PlayerMovementQuery, inputs: PlayerInputs) -> MathVector {
    applied_on(query, inputs, Axis::Forward).plus(applied_on(query, inputs, Axis::Up)).plus(
        applied_on(query, inputs, Axis::Right),
    )
}

/// The torque that `inputs` brings about.
pub open spec fn torque_on(query: PlayerMovementQuery, inputs: PlayerInputs) -> MathVector {
    applied_on(query, inputs, Axis::TurnRight).plus(applied_on(query, inputs, Axis::TiltUp)).plus(
        applied_on(query, inputs, Axis::RollRight),
    )
}

/// `after` is what a tick of `dt_micros` microseconds under `inputs` makes of
/// `before`: the shares and reactions resolved are recorded, the force and
/// torque are added to what the physics engine is to apply, and nothing else
/// changes.
pub open spec fn is_moved(
    before: PlayerMovementQuery,
    after: PlayerMovementQuery,
    inputs: PlayerInputs,
    dt_micros: int,
) -> bool {
    &&& after.transform == before.transform
    &&& after.velocity == before.velocity
    &&& after.player.network_id == before.player.network_id
    &&& after.player.artificial_friction_flags == before.player.artificial_friction_flags
    &&& forall|axis: Axis| #[trigger]
        after.player.relative_strength.get(axis) == strength_on(before, inputs, axis)
    &&& forall|axis: Axis| #[trigger]
        after.player.thrust_responses.get(axis) == reaction_on(before, inputs, axis)
    &&& after.external_force.force@ == accumulated(
        before.external_force.force@,
        force_on(before, inputs),
        dt_micros,
    )
    &&& after.external_force.torque@ == accumulated(
        before.external_force.torque@,
        torque_on(before, inputs),
        dt_micros,
    )
}

/// Runs the stages of the pipeline for one player and one input.
pub fn move_player(query: &mut PlayerMovementQuery, move_request: &PlayerInputs, dt_micros: u32)
    requires
        old(query).wf(),
    ensures
        is_moved(*old(query), *final(query), *move_request, dt_micros as int),
        final(query).wf(),
{
    let base_normals = get_base_normal_vectors(&query.transform);

    let relative_velocity_magnitudes = calculate_relative_velocity_magnitudes(
        &base_normals,
        &query.velocity,
    );

    let (thrust_reactions, force_factors) = process_inputs(
        move_request,
        &query.player.artificial_friction_flags,
        relative_velocity_magnitudes,
    );

    let flagged = flag_normal_vectors(&thrust_reactions, &base_normals);
    let relative_strength = get_relative_strengths(
        &flagged,
        &max_velocity_magnitudes(),
        &query.velocity,
    );

    let final_thrust = save_thrust_stages(
        relative_strength,
        base_normals,
        force_factors,
        thrust_reactions,
        &mut query.player,
    );

    apply_thrust(final_thrust, &mut query.external_force, dt_micros);

    proof {
        let before = *old(query);
        assert forall|axis: Axis| #[trigger]
            thrust_reactions.get(axis) == reaction_on(before, *move_request, axis) by {
            assert(relative_velocity_magnitudes.get(axis) == projection_on(before, axis));
        }
        assert forall|axis: Axis| #[trigger]
            relative_strength.get(axis) == strength_on(before, *move_request, axis) by {
            assert(flagged.get(axis).reaction == thrust_reactions.get(axis));
        }
        assert forall|axis: Axis|
            (#[trigger] final_thrust.get(axis))@ == applied_on(before, *move_request, axis) by {
            assert(base_normals.get(axis)@ == axis_normal(before.transform, axis));
            assert(force_factors.get(axis) == force_factor(axis));
        }
        assert(final_thrust.forward == final_thrust.get(Axis::Forward));
        assert(final_thrust.up == final_thrust.get(Axis::Up));
        assert(final_thrust.right == final_thrust.get(Axis::Right));
        assert(final_thrust.turn_right == final_thrust.get(Axis::TurnRight));
        assert(final_thrust.tilt_up == final_thrust.get(Axis::TiltUp));
        assert(final_thrust.roll_right == final_thrust.get(Axis::RollRight));
    }
}

/// The velocity of a player along an axis is within the bound on projections.
pub proof fn lemma_projection_within(query: PlayerMovementQuery, axis: Axis)
    requires
        query.wf(),
    ensures
        -max_projection() <= projection_on(query, axis) <= max_projection(),
        projection_on(query, axis) as i64 == projection_on(query, axis),
{
    let normal = axis_normal(query.transform, axis);
    assert(normal.within(UNIT as int));
    lemma_dot_within(normal, query.velocity.along(axis), UNIT as int, MAX_SPEED as int);
}

/// An axis on which nothing is asked for, whose friction flag is down and
/// for which the brake is not held, idles: its share is exactly nothing,
/// and it applies nothing.
pub proof fn lemma_idle_axis_applies_nothing(
    query: PlayerMovementQuery,
    inputs: PlayerInputs,
    axis: Axis,
)
    requires
        inputs.request(axis) == 0,
        !inputs.brake,
        !query.player.artificial_friction_flags.get(axis),
    ensures
        reaction_on(query, inputs, axis) == ThrustReaction::Idle,
        strength_on(query, inputs, axis) == 0,
        applied_on(query, inputs, axis) == MathVector::zero(),
{
    let normal = axis_normal(query.transform, axis);
    assert(normal.x * 0 == 0 && normal.y * 0 == 0 && normal.z * 0 == 0);
    assert(0 * force_factor(axis) == 0) by (nonlinear_arith);
}

/// On a braking axis the share pushes against the motion: it is negative
/// where the player moves towards the positive side, positive where it
/// moves towards the negative side, and nothing where the axis is at rest.
/// It never has the sign of the motion.
pub proof fn lemma_brake_opposes_motion(
    query: PlayerMovementQuery,
    inputs: PlayerInputs,
    axis: Axis,
)
    requires
        query.wf(),
        reaction_on(query, inputs, axis) is Brake,
    ensures
        projection_on(query, axis) >= max_velocity(axis) ==> strength_on(query, inputs, axis) < 0,
        projection_on(query, axis) <= -max_velocity(axis) ==> strength_on(query, inputs, axis)
            > 0,
        at_rest(projection_on(query, axis), max_velocity(axis)) ==> strength_on(
            query,
            inputs,
            axis,
        ) == 0,
        projection_on(query, axis) > 0 ==> strength_on(query, inputs, axis) <= 0,
        projection_on(query, axis) < 0 ==> strength_on(query, inputs, axis) >= 0,
{
    lemma_projection_within(query, axis);
    let residual = projection_on(query, axis) as i64;
    assert(reaction_on(query, inputs, axis) == ThrustReaction::Brake { residual });
    lemma_brake_share_bounds(residual_speed(residual), max_velocity(axis));
}

/// The velocity of the player towards the side that an accelerating axis
/// pushes to.
pub open spec fn speed_towards_request(
    query: PlayerMovementQuery,
    inputs: PlayerInputs,
    axis: Axis,
) -> int {
    match reaction_on(query, inputs, axis) {
        ThrustReaction::Accelerate { positive } => if positive {
            projection_on(query, axis)
        } else {
            -projection_on(query, axis)
        },
        _ => 0,
    }
}

/// On an accelerating axis the share has the sign of the request and is the
/// full share up to the greatest speed of the axis. Where the player is
/// already faster than that towards the side asked for, the share is
/// strictly less than the full share that was asked for.
pub proof fn lemma_accelerate_fades_beyond_max(
    query: PlayerMovementQuery,
    inputs: PlayerInputs,
    axis: Axis,
)
    requires
        query.wf(),
        reaction_on(query, inputs, axis) is Accelerate,
    ensures
        speed_towards_request(query, inputs, axis) <= max_velocity(axis) * UNIT ==> strength_on(
            query,
            inputs,
            axis,
        ) == UNIT * reaction_on(query, inputs, axis).sign(),
        speed_towards_request(query, inputs, axis) > max_velocity(axis) * UNIT ==> -UNIT
            < strength_on(query, inputs, axis) < UNIT,
        reaction_on(query, inputs, axis).sign() == 1 ==> strength_on(query, inputs, axis) >= 0,
        reaction_on(query, inputs, axis).sign() == -1 ==> strength_on(query, inputs, axis) <= 0,
{
    let reaction = reaction_on(query, inputs, axis);
    let normal = axis_normal(query.transform, axis);
    let velocity = query.velocity.along(axis);
    let direction = flagged_direction(reaction, normal);
    assert(direction.dot(velocity) == speed_towards_request(query, inputs, axis)) by {
        let sign = reaction.sign();
        assert(sign == 1 || sign == -1);
        assert((normal.x * sign) * velocity.x == sign * (normal.x * velocity.x))
            by (nonlinear_arith);
        assert((normal.y * sign) * velocity.y == sign * (normal.y * velocity.y))
            by (nonlinear_arith);
        assert((normal.z * sign) * velocity.z == sign * (normal.z * velocity.z))
            by (nonlinear_arith);
    }
    lemma_accelerate_share_bounds(direction.dot(velocity), max_velocity(axis));
}

/// Whatever the input, the share resolved for an axis lies between minus
/// one and one.
pub proof fn lemma_strength_is_a_share(
    query: PlayerMovementQuery,
    inputs: PlayerInputs,
    axis: Axis,
)
    requires
        query.wf(),
    ensures
        -UNIT <= strength_on(query, inputs, axis) <= UNIT,
{
    let reaction = reaction_on(query, inputs, axis);
    let normal = axis_normal(query.transform, axis);
    let direction = flagged_direction(reaction, normal);
    match reaction {
        ThrustReaction::Idle => {},
        ThrustReaction::Accelerate { positive } => {
            lemma_accelerate_share_bounds(
                direction.dot(query.velocity.along(axis)),
                max_velocity(axis),
            );
        },
        ThrustReaction::Brake { residual } => {
            lemma_brake_share_bounds(residual_speed(residual), max_velocity(axis));
        },
    }
}

/// What an axis does depends on that axis alone: on the request for it,
/// the brake, its friction flag, and on the orientation and velocity of the
/// player. Neither the requests nor the flags of other axes enter it.
pub proof fn lemma_axes_are_independent(
    query: PlayerMovementQuery,
    other: PlayerMovementQuery,
    inputs: PlayerInputs,
    other_inputs: PlayerInputs,
    axis: Axis,
)
    requires
        query.transform == other.transform,
        query.velocity == other.velocity,
        query.player.artificial_friction_flags.get(axis)
            == other.player.artificial_friction_flags.get(axis),
        inputs.request(axis) == other_inputs.request(axis),
        inputs.brake == other_inputs.brake,
    ensures
        reaction_on(query, inputs, axis) == reaction_on(other, other_inputs, axis),
        strength_on(query, inputs, axis) == strength_on(other, other_inputs, axis),
        applied_on(query, inputs, axis) == applied_on(other, other_inputs, axis),
{
}

/// A tick under given inputs has one outcome: two states that
/// [`is_moved`] accepts for the same state before are equal.
pub proof fn lemma_moved_is_determined(
    before: PlayerMovementQuery,
    after: PlayerMovementQuery,
    other: PlayerMovementQuery,
    inputs: PlayerInputs,
    dt_micros: int,
)
    requires
        is_moved(before, after, inputs, dt_micros),
        is_moved(before, other, inputs, dt_micros),
    ensures
        after == other,
{
    assert forall|axis: Axis|
        after.player.relative_strength.get(axis) == other.player.relative_strength.get(
            axis,
        ) by {
        assert(after.player.relative_strength.get(axis) == strength_on(before, inputs, axis));
        assert(other.player.relative_strength.get(axis) == strength_on(before, inputs, axis));
    }
    after.player.relative_strength.lemma_equal_by_axes(other.player.relative_strength);
    assert forall|axis: Axis|
        after.player.thrust_responses.get(axis) == other.player.thrust_responses.get(axis) by {
        assert(after.player.thrust_responses.get(axis) == reaction_on(before, inputs, axis));
        assert(other.player.thrust_responses.get(axis) == reaction_on(before, inputs, axis));
    }
    after.player.thrust_responses.lemma_equal_by_axes(other.player.thrust_responses);
    assert(after.external_force.force@ == other.external_force.force@);
    assert(after.external_force.torque@ == other.external_force.torque@);
    assert(after.external_force.force == other.external_force.force);
    assert(after.external_force.torque == other.external_force.torque);
}

/// The players of a tick, in the order in which the world hands them out.
pub type Players = Seq<PlayerMovementQuery>;

/// The place, from `lo` on, of the first player that `client` steers, or `-1`.
pub open spec fn first_player_from(players: Players, client: u64, lo: int) -> int
    decreases players.len() - lo,
{
    if lo < 0 || lo >= players.len() {
        -1
    } else if players[lo].player.network_id == client {
        lo
    } else {
        first_player_from(players, client, lo + 1)
    }
}

/// The place of the player that `client` steers: the first that carries its
/// identifier, or `-1` where none does.
pub open spec fn player_of(players: Players, client: u64) -> int {
    first_player_from(players, client, 0)
}

/// The clients, among the first `hi` inputs of `kept`, whom no player
/// belongs to, in the order of `kept`.
pub open spec fn unmatched_upto(players: Players, kept: Batch, hi: int) -> Seq<u64>
    decreases hi,
{
    if hi <= 0 {
        Seq::empty()
    } else if player_of(players, kept[hi - 1].client_id) < 0 {
        unmatched_upto(players, kept, hi - 1).push(kept[hi - 1].client_id)
    } else {
        unmatched_upto(players, kept, hi - 1)
    }
}

/// The clients whose input counts and whom no player belongs to.
pub open spec fn unmatched_clients(players: Players, events: Batch) -> Seq<u64> {
    unmatched_upto(players, survivors(events), survivors(events).len() as int)
}

/// What a tick makes of the player at place `k`: the latest input of its
/// client moves it, if the client sent any and this is the player that the
/// client steers; otherwise it stays as it is.
pub open spec fn player_outcome(
    before: Players,
    after: PlayerMovementQuery,
    events: Batch,
    k: int,
    dt_micros: int,
) -> bool {
    let client = before[k].player.network_id;
    if player_of(before, client) == k && has_event(events, client) {
        is_moved(before[k], after, events[latest_index(events, client)].event, dt_micros)
    } else {
        after == before[k]
    }
}

/// Where every input of a batch comes from one client, exactly one input
/// is acted on, the one that arrived last: it moves the player that the
/// client steers, and every other player stays as it is.
pub proof fn lemma_one_client_one_dispatch(
    before: Players,
    after: PlayerMovementQuery,
    events: Batch,
    k: int,
    dt_micros: int,
)
    requires
        events.len() >= 1,
        forall|i: int| 0 <= i < events.len() ==> (#[trigger] events[i]).client_id
            == events[0].client_id,
        0 <= k < before.len(),
        player_outcome(before, after, events, k, dt_micros),
    ensures
        survivors(events) == seq![events.last()],
        k == player_of(before, events[0].client_id) ==> is_moved(
            before[k],
            after,
            events.last().event,
            dt_micros,
        ),
        k != player_of(before, events[0].client_id) ==> after == before[k],
{
    let client = events[0].client_id;
    let own = before[k].player.network_id;
    lemma_one_client_one_survivor(events);
    lemma_first_player_from(before, client, 0);
    lemma_first_player_from(before, own, 0);
    lemma_latest_index_upto(events, client, events.len() as int);
    assert(events.last().client_id == client);
    if own != client {
        assert(!has_event(events, own)) by {
            if has_event(events, own) {
                let i = choose|i: int|
                    0 <= i < events.len() && (#[trigger] events[i]).client_id == own;
                assert(events[i].client_id == client);
            }
        }
    } else {
        assert(has_event(events, client));
    }
}

/// What [`first_player_from`] finds.
pub proof fn lemma_first_player_from(players: Players, client: u64, lo: int)
    requires
        0 <= lo <= players.len(),
    ensures
        ({
            let found = first_player_from(players, client, lo);
            &&& found == -1 || lo <= found < players.len()
            &&& found >= 0 ==> players[found].player.network_id == client
            &&& forall|j: int|
                lo <= j < (if found >= 0 {
                    found
                } else {
                    players.len() as int
                }) ==> (#[trigger] players[j]).player.network_id != client
        }),
    decreases players.len() - lo,
{
    if lo < players.len() && players[lo].player.network_id != client {
        lemma_first_player_from(players, client, lo + 1);
    }
}

/// Which player a client steers depends on the identifiers alone.
pub proof fn lemma_player_of_same_ids(a: Players, b: Players, client: u64, lo: int)
    requires
        0 <= lo <= a.len(),
        a.len() == b.len(),
        forall|k: int|
            0 <= k < a.len() ==> (#[trigger] a[k]).player.network_id == (
            #[trigger] b[k]).player.network_id,
    ensures
        first_player_from(a, client, lo) == first_player_from(b, client, lo),
    decreases a.len() - lo,
{
    if lo < a.len() {
        assert(a[lo].player.network_id == b[lo].player.network_id);
        if a[lo].player.network_id != client {
            lemma_player_of_same_ids(a, b, client, lo + 1);
        }
    }
}

/// Finds the player that `client` steers.
pub fn find_player(players: &Vec<PlayerMovementQuery>, client: u64) -> (found: Option<usize>)
    ensures
        match found {
            Some(k) => k == player_of(players@, client) && k < players@.len(),
            None => player_of(players@, client) == -1,
        },
{
    let mut k: usize = 0;
    while k < players.len()
        invariant
            k <= players@.len(),
            forall|j: int| 0 <= j < k ==> (#[trigger] players@[j]).player.network_id != client,
        decreases players@.len() - k,
    {
        if players[k].player.network_id == client {
            proof {
                lemma_first_player_from(players@, client, 0);
            }
            return Some(k);
        }
        k += 1;
    }
    proof {
        lemma_first_player_from(players@, client, 0);
    }
    None
}

/// One tick of the authority.
///
/// Of the inputs that arrived, only the latest of each client counts. Each
/// of these moves the player that its client steers, by
/// [`move_player`]; the clients are served in the order in which their
/// latest inputs arrived. A client whom no player belongs to moves nothing:
/// its identifier is handed back, for the caller to report, and the other
/// clients are served as if it had sent nothing.
pub fn authoritative_player_movement(
    player_bundle: &mut Vec<PlayerMovementQuery>,
    player_inputs: &Vec<FromClient<PlayerInputs>>,
    dt_micros: u32,
) -> (unmatched: Vec<u64>)
    requires
        forall|k: int| 0 <= k < old(player_bundle)@.len() ==> (#[trigger] old(
            player_bundle,
        )@[k]).wf(),
    ensures
        final(player_bundle)@.len() == old(player_bundle)@.len(),
        forall|k: int|
            0 <= k < old(player_bundle)@.len() ==> player_outcome(
                old(player_bundle)@,
                #[trigger] final(player_bundle)@[k],
                player_inputs@,
                k,
                dt_micros as int,
            ),
        forall|k: int|
            0 <= k < final(player_bundle)@.len() ==> (#[trigger] final(player_bundle)@[k]).wf(),
        unmatched@ == unmatched_clients(old(player_bundle)@, player_inputs@),
{
    let kept = keep_latest_per_client(player_inputs);
    let ghost before = old(player_bundle)@;
    let mut unmatched: Vec<u64> = Vec::new();
    let m = kept.len();
    let mut s: usize = 0;
    proof {
        lemma_survivors_distinct(player_inputs@);
    }
    while s < m
        invariant
            s <= m,
            m == kept@.len(),
            kept@ == survivors(player_inputs@),
            before == old(player_bundle)@,
            player_bundle@.len() == before.len(),
            forall|a: int, b: int|
                0 <= a < b < kept@.len() ==> (#[trigger] kept@[a]).client_id != (
                #[trigger] kept@[b]).client_id,
            forall|k: int| 0 <= k < before.len() ==> (#[trigger] player_bundle@[k]).wf(),
            forall|k: int|
                0 <= k < before.len() ==> (#[trigger] player_bundle@[k]).player.network_id
                    == before[k].player.network_id,
            forall|k: int|
                0 <= k < before.len() ==> {
                    let client = before[k].player.network_id;
                    let t = latest_index_upto(kept@, client, s as int);
                    if player_of(before, client) == k && t >= 0 {
                        is_moved(
                            before[k],
                            #[trigger] player_bundle@[k],
                            kept@[t].event,
                            dt_micros as int,
                        )
                    } else {
                        player_bundle@[k] == before[k]
                    }
                },
            unmatched@ == unmatched_upto(before, kept@, s as int),
        decreases m - s,
    {
        let event = kept[s];
        let ghost current = player_bundle@;
        proof {
            lemma_player_of_same_ids(current, before, event.client_id, 0);
        }
        match find_player(player_bundle, event.client_id) {
            Some(k) => {
                proof {
                    lemma_latest_index_upto(kept@, event.client_id, s as int);
                    let t = latest_index_upto(kept@, event.client_id, s as int);
                    if t >= 0 {
                        assert(kept@[t].client_id != kept@[s as int].client_id);
                    }
                    lemma_first_player_from(before, event.client_id, 0);
                    assert(before[k as int].player.network_id == event.client_id);
                    assert(current[k as int] == before[k as int]);
                }
                move_player(&mut player_bundle[k], &event.event, dt_micros);
            },
            None => {
                unmatched.push(event.client_id);
            },
        }
        s += 1;
        proof {
            assert forall|j: int| 0 <= j < before.len() implies {
                let client = before[j].player.network_id;
                let t = latest_index_upto(kept@, client, s as int);
                if player_of(before, client) == j && t >= 0 {
                    is_moved(
                        before[j],
                        #[trigger] player_bundle@[j],
                        kept@[t].event,
                        dt_micros as int,
                    )
                } else {
                    player_bundle@[j] == before[j]
                }
            } by {
                let client = before[j].player.network_id;
                assert(current[j].player.network_id == client);
                if client == event.client_id {
                    if player_of(before, client) != j {
                        assert(player_bundle@[j] == current[j]);
                    }
                } else {
                    lemma_first_player_from(before, event.client_id, 0);
                    assert(player_bundle@[j] == current[j]);
                }
            }
        }
    }
    proof {
        assert forall|k: int| 0 <= k < before.len() implies player_outcome(
            before,
            #[trigger] player_bundle@[k],
            player_inputs@,
            k,
            dt_micros as int,
        ) by {
            lemma_survivor_of_client(player_inputs@, before[k].player.network_id);
        }
    }
    unmatched
}

} // verus!
