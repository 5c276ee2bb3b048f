//! Scenario tests for the game-state filter.

use control_core::ball_filter::BallPosition;
use control_core::game::{from_player_number, to_player_number, FilteredGameState, Team};
use control_core::game::{
    FieldDimensions, GameControllerState, GamePhase, GameState, GameStateFilterParameters,
    GlobalFieldSide, Penalty, PlayerNumber, Players,
};
use control_core::game_state_filter::{
    next_filtered_state, penalty_diff, GameControllerStateFilter, State,
};
use control_core::geometry::{Point2, Vector2};
use control_core::odometry::Transform2;

fn no_penalties() -> Players<Option<Penalty>> {
    Players {
        one: None,
        two: None,
        three: None,
        four: None,
        five: None,
        six: None,
        seven: None,
    }
}

fn config() -> GameStateFilterParameters {
    GameStateFilterParameters {
        playing_message_delay_ms: 1000,
        ready_message_delay_ms: 1000,
        game_controller_controller_delay_ms: 500,
        kick_off_grace_period_ms: 10_000,
        tentative_finish_duration_ms: 30_000,
        duration_to_keep_observed_ball_ms: 10_000,
        duration_to_keep_new_penalties_ms: 10_000,
        distance_to_consider_ball_moved_in_kick_off: 500,
        whistle_acceptance_goal_distance_x: 500,
        whistle_acceptance_goal_distance_y: 500,
    }
}

fn controller_state(game_state: GameState) -> GameControllerState {
    GameControllerState {
        game_state,
        game_phase: GamePhase::Normal,
        kicking_team: None,
        penalties: no_penalties(),
        opponent_penalties: no_penalties(),
        sub_state: None,
        remaining_time_in_half_ms: 600_000,
        remaining_amount_of_messages: 1200,
        global_field_side: GlobalFieldSide::Home,
    }
}

#[test]
fn kick_off_awaits_whistle() {
    let config = config();
    let gc = controller_state(GameState::InSet);
    let mut state = State::InSet;

    // five seconds in the set state without a whistle: nothing moves
    let mut t: u64 = 0;
    while t < 5000 {
        state = next_filtered_state(state, &gc, false, t, &config, false, false, false);
        assert_eq!(state, State::InSet);
        t += 250;
    }

    // the whistle arrives at five seconds
    state = next_filtered_state(state, &gc, true, 5000, &config, false, false, false);
    assert_eq!(state, State::WhistleInSet { whistle_ms: 5000 });

    // it keeps waiting for the full message delay
    state = next_filtered_state(state, &gc, false, 6499, &config, false, false, false);
    assert_eq!(state, State::WhistleInSet { whistle_ms: 5000 });

    // and turns playing once the delay has fully passed
    state = next_filtered_state(state, &gc, false, 6500, &config, false, false, false);
    assert_eq!(state, State::Playing);
}

#[test]
fn false_whistle_suppressed_when_ball_near_goal_line() {
    // in open play a whistle only counts when no ball is seen far
    // from both goals: a ball at (3.8, 0.0) on a nine-metre field
    // with a half-metre acceptance band is such a sighting
    let config = config();
    let gc = controller_state(GameState::Playing);
    let field = FieldDimensions {
        length: 9000,
        goal_inner_width: 1500,
    };
    let mut filter = GameControllerStateFilter::new();
    filter.state = State::Playing;
    filter.opponent_state = State::Playing;
    let ball = BallPosition {
        position: Point2 { x: 3800, y: 0 },
        velocity: Vector2 { x: 0, y: 0 },
        last_seen_ms: 0,
    };
    let identity = Transform2::identity();

    filter.filter_game_states(
        Some(&identity),
        Some(&ball),
        &field,
        &config,
        &gc,
        true,
        1000,
        false,
        PlayerNumber::One,
        false,
        None,
    );
    assert_eq!(filter.state, State::Playing);
}

#[test]
fn whistle_in_play_heard_when_ball_is_near_a_goal() {
    // the same whistle counts when the observed ball sits inside the
    // goal acceptance region
    let config = config();
    let gc = controller_state(GameState::Playing);
    let field = FieldDimensions {
        length: 9000,
        goal_inner_width: 1500,
    };
    let mut filter = GameControllerStateFilter::new();
    filter.state = State::Playing;
    filter.opponent_state = State::Playing;
    let ball = BallPosition {
        position: Point2 { x: 4300, y: 0 },
        velocity: Vector2 { x: 0, y: 0 },
        last_seen_ms: 0,
    };
    let identity = Transform2::identity();

    filter.filter_game_states(
        Some(&identity),
        Some(&ball),
        &field,
        &config,
        &gc,
        true,
        1000,
        false,
        PlayerNumber::One,
        false,
        None,
    );
    assert_eq!(filter.state, State::WhistleInPlaying { whistle_ms: 1000 });
}

#[test]
fn motion_in_set_penalty_reverts_the_whistle() {
    let config = config();
    let gc = controller_state(GameState::InSet);
    let state = State::WhistleInSet { whistle_ms: 5000 };
    let next = next_filtered_state(state, &gc, false, 5100, &config, false, false, true);
    assert_eq!(next, State::InSet);
}

#[test]
fn penalty_diff_lists_only_fresh_penalties() {
    let mut last = no_penalties();
    last.two = Some(Penalty::PlayerPushing { remaining_ms: 30_000 });
    let mut current = no_penalties();
    current.two = Some(Penalty::PlayerPushing { remaining_ms: 25_000 });
    current.five = Some(Penalty::IllegalMotionInSet { remaining_ms: 15_000 });

    let diff = penalty_diff(&last, &current);
    assert_eq!(diff.two, None);
    assert_eq!(
        diff.five,
        Some(Penalty::IllegalMotionInSet { remaining_ms: 15_000 })
    );
    assert_eq!(diff.one, None);
}

#[test]
fn player_numbers_convert_both_ways() {
    assert_eq!(to_player_number(3), Ok(PlayerNumber::Three));
    assert!(to_player_number(0).is_err());
    assert!(to_player_number(8).is_err());
    assert_eq!(from_player_number(PlayerNumber::Seven), 7);
}

#[test]
fn whistle_in_set_remembers_the_first_ball_sighting() {
    // the first field-frame sighting during the whistle grace becomes
    // the kick-off reference; a ball near it keeps the ball bound, a
    // ball far from it frees the ball for the defending team
    let config = config();
    let gc = controller_state(GameState::InSet);
    let field = FieldDimensions {
        length: 9000,
        goal_inner_width: 1500,
    };
    let mut filter = GameControllerStateFilter::new();
    filter.state = State::InSet;
    filter.opponent_state = State::InSet;
    let identity = Transform2::identity();
    let kick_off_ball = BallPosition {
        position: Point2 { x: 100, y: 50 },
        velocity: Vector2 { x: 0, y: 0 },
        last_seen_ms: 0,
    };

    // the whistle arrives with the ball in sight
    let states = filter.filter_game_states(
        Some(&identity),
        Some(&kick_off_ball),
        &field,
        &config,
        &gc,
        true,
        1000,
        false,
        PlayerNumber::One,
        false,
        Some(Team::Opponent),
    );
    assert_eq!(
        filter.whistle_in_set_ball_position,
        Some(Point2 { x: 100, y: 50 })
    );
    // during the opponent's kick-off grace the ball is not yet free
    assert_eq!(
        states.own,
        FilteredGameState::Playing {
            ball_is_free: false,
            kick_off: true,
        }
    );

    // once the ball has rolled far from the remembered reference, the
    // kick-off is over and the ball is free
    let moved_ball = BallPosition {
        position: Point2 { x: 800, y: 50 },
        velocity: Vector2 { x: 0, y: 0 },
        last_seen_ms: 0,
    };
    let states = filter.filter_game_states(
        Some(&identity),
        Some(&moved_ball),
        &field,
        &config,
        &gc,
        false,
        1200,
        false,
        PlayerNumber::One,
        false,
        Some(Team::Opponent),
    );
    assert_eq!(
        filter.whistle_in_set_ball_position,
        Some(Point2 { x: 100, y: 50 })
    );
    assert_eq!(
        states.own,
        FilteredGameState::Playing {
            ball_is_free: true,
            kick_off: true,
        }
    );
}
