//! The game-state filter: reconciles the referee box's feed with local
//! whistle detection, ball observations and penalties to derive the
//! robot's effective playing state.

use vstd::prelude::*;
use crate::ball_filter::BallPosition;
use crate::fixed::abs_i64;
use crate::game::{
    FieldDimensions, FilteredGameControllerState, FilteredGameState, GameControllerState,
    GamePhase, GameState, GameStateFilterParameters, LastBallState, Penalty, PlayerNumber,
    Players, SubState, Team,
};
use crate::geometry::Point2;
use crate::odometry::{apply_x_spec, apply_y_spec, transform_wf, Transform2};

verus! {

/// The filter's internal state; the whistle and finish variants carry
/// the wall-clock stamp (milliseconds) of the event that started them.
#[derive(Clone, Copy, Debug, PartialEq, Eq, Structural)]
pub enum State {
    Initial,
    Ready,
    InSet,
    WhistleInSet { whistle_ms: u64 },
    Playing,
    WhistleInPlaying { whistle_ms: u64 },
    TentativeFinished { clicked_ms: u64 },
    Finished,
    Standby,
}

/// The configured delays stay within a thousand years, so that any two
/// of them can be added without overflow.
pub open spec fn config_wf(c: GameStateFilterParameters) -> bool {
    &&& c.playing_message_delay_ms <= 0x1_0000_0000_0000
    &&& c.ready_message_delay_ms <= 0x1_0000_0000_0000
    &&& c.game_controller_controller_delay_ms <= 0x1_0000_0000_0000
    &&& c.kick_off_grace_period_ms <= 0x1_0000_0000_0000
    &&& c.tentative_finish_duration_ms <= 0x1_0000_0000_0000
    &&& c.duration_to_keep_observed_ball_ms <= 0x1_0000_0000_0000
    &&& c.duration_to_keep_new_penalties_ms <= 0x1_0000_0000_0000
}

/// Milliseconds elapsed since `earlier`, clamped at zero if the clock
/// ran backwards.
pub open spec fn elapsed_spec(now_ms: u64, earlier_ms: u64) -> int {
    if now_ms >= earlier_ms {
        now_ms - earlier_ms
    } else {
        0
    }
}

/// The internal state that mirrors a raw referee state directly.
pub open spec fn from_game_state_spec(game_state: GameState) -> State {
    match game_state {
        GameState::Initial => State::Initial,
        GameState::Ready => State::Ready,
        GameState::InSet => State::InSet,
        GameState::Playing => State::Playing,
        GameState::Finished => State::Finished,
        GameState::Standby => State::Standby,
    }
}

fn from_game_state(game_state: GameState) -> (r: State)
    ensures
        r == from_game_state_spec(game_state),
{
    match game_state {
        GameState::Initial => State::Initial,
        GameState::Ready => State::Ready,
        GameState::InSet => State::InSet,
        GameState::Playing => State::Playing,
        GameState::Finished => State::Finished,
        GameState::Standby => State::Standby,
    }
}

/// The filter's transition table, read top to bottom; the first
/// matching rule decides the successor state.
pub open spec fn next_filtered_state_spec(
    current: State,
    gc: GameControllerState,
    whistle: bool,
    now_ms: u64,
    config: GameStateFilterParameters,
    ball_far_from_any_goal: bool,
    proceed_to_ready: bool,
    motion_in_set: bool,
) -> State {
    if current == State::Finished {
        if gc.game_state == GameState::Initial {
            State::Initial
        } else if gc.game_phase is PenaltyShootout {
            State::InSet
        } else {
            State::Finished
        }
    } else if current is TentativeFinished {
        let clicked_ms = current->TentativeFinished_clicked_ms;
        if gc.game_state == GameState::Finished {
            if elapsed_spec(now_ms, clicked_ms) >= config.tentative_finish_duration_ms {
                State::Finished
            } else {
                State::TentativeFinished { clicked_ms }
            }
        } else {
            from_game_state_spec(gc.game_state)
        }
    } else if gc.game_state == GameState::Finished {
        State::TentativeFinished { clicked_ms: now_ms }
    } else if current == State::Standby && gc.game_state == GameState::Standby {
        if proceed_to_ready {
            State::Ready
        } else {
            State::Standby
        }
    } else if current == State::Ready && gc.game_state == GameState::Standby {
        State::Ready
    } else if current == State::Initial || current == State::Ready || current == State::Standby {
        from_game_state_spec(gc.game_state)
    } else if current == State::InSet && gc.game_state != GameState::InSet {
        from_game_state_spec(gc.game_state)
    } else if current is WhistleInSet && gc.game_state != GameState::InSet {
        from_game_state_spec(gc.game_state)
    } else if current == State::Playing && gc.game_state != GameState::Playing {
        from_game_state_spec(gc.game_state)
    } else if current is WhistleInPlaying && gc.game_state != GameState::Playing {
        from_game_state_spec(gc.game_state)
    } else if current == State::InSet && gc.game_state == GameState::InSet {
        if whistle {
            State::WhistleInSet { whistle_ms: now_ms }
        } else {
            State::InSet
        }
    } else if current is WhistleInSet && gc.game_state == GameState::InSet {
        let whistle_ms = current->WhistleInSet_whistle_ms;
        if motion_in_set {
            State::InSet
        } else if elapsed_spec(now_ms, whistle_ms) < config.playing_message_delay_ms
            + config.game_controller_controller_delay_ms {
            State::WhistleInSet { whistle_ms }
        } else {
            State::Playing
        }
    } else if current == State::Playing && gc.game_state == GameState::Playing {
        if whistle && !ball_far_from_any_goal {
            State::WhistleInPlaying { whistle_ms: now_ms }
        } else {
            State::Playing
        }
    } else if current is WhistleInPlaying && gc.game_state == GameState::Playing {
        let whistle_ms = current->WhistleInPlaying_whistle_ms;
        if elapsed_spec(now_ms, whistle_ms) < config.ready_message_delay_ms
            + config.game_controller_controller_delay_ms {
            State::WhistleInPlaying { whistle_ms }
        } else {
            State::Playing
        }
    } else {
        current
    }
}

/// Advances the filter's state machine by one cycle.
pub fn next_filtered_state(
    current_state: State,
    game_controller_state: &GameControllerState,
    is_whistle_detected: bool,
    cycle_start_time_ms: u64,
    config: &GameStateFilterParameters,
    ball_detected_far_from_any_goal: bool,
    visual_referee_proceed_to_ready: bool,
    did_receive_motion_in_set_penalty: bool,
) -> (r: State)
    requires
        config_wf(*config),
    ensures
        r == next_filtered_state_spec(
            current_state,
            *game_controller_state,
            is_whistle_detected,
            cycle_start_time_ms,
            *config,
            ball_detected_far_from_any_goal,
            visual_referee_proceed_to_ready,
            did_receive_motion_in_set_penalty,
        ),
{
    let gc = game_controller_state;
    let now_ms = cycle_start_time_ms;
    match current_state {
        State::Finished => {
            if gc.game_state == GameState::Initial {
                State::Initial
            } else if matches!(gc.game_phase, GamePhase::PenaltyShootout { .. }) {
                State::InSet
            } else {
                State::Finished
            }
        },
        State::TentativeFinished { clicked_ms } => {
            if gc.game_state == GameState::Finished {
                if crate::fixed::saturating_elapsed(now_ms, clicked_ms)
                    >= config.tentative_finish_duration_ms {
                    State::Finished
                } else {
                    State::TentativeFinished { clicked_ms }
                }
            } else {
                from_game_state(gc.game_state)
            }
        },
        current => {
            if gc.game_state == GameState::Finished {
                State::TentativeFinished { clicked_ms: now_ms }
            } else if current == State::Standby && gc.game_state == GameState::Standby {
                if visual_referee_proceed_to_ready {
                    State::Ready
                } else {
                    State::Standby
                }
            } else if current == State::Ready && gc.game_state == GameState::Standby {
                State::Ready
            } else if current == State::Initial || current == State::Ready || current
                == State::Standby {
                from_game_state(gc.game_state)
            } else if current == State::InSet && gc.game_state != GameState::InSet {
                from_game_state(gc.game_state)
            } else if matches!(current, State::WhistleInSet { .. }) && gc.game_state
                != GameState::InSet {
                from_game_state(gc.game_state)
            } else if current == State::Playing && gc.game_state != GameState::Playing {
                from_game_state(gc.game_state)
            } else if matches!(current, State::WhistleInPlaying { .. }) && gc.game_state
                != GameState::Playing {
                from_game_state(gc.game_state)
            } else if current == State::InSet && gc.game_state == GameState::InSet {
                if is_whistle_detected {
                    State::WhistleInSet { whistle_ms: now_ms }
                } else {
                    State::InSet
                }
            } else if let State::WhistleInSet { whistle_ms } = current {
                if did_receive_motion_in_set_penalty {
                    State::InSet
                } else if crate::fixed::saturating_elapsed(now_ms, whistle_ms)
                    < config.playing_message_delay_ms + config.game_controller_controller_delay_ms {
                    State::WhistleInSet { whistle_ms }
                } else {
                    State::Playing
                }
            } else if current == State::Playing && gc.game_state == GameState::Playing {
                if is_whistle_detected && !ball_detected_far_from_any_goal {
                    State::WhistleInPlaying { whistle_ms: now_ms }
                } else {
                    State::Playing
                }
            } else if let State::WhistleInPlaying { whistle_ms } = current {
                if crate::fixed::saturating_elapsed(now_ms, whistle_ms)
                    < config.ready_message_delay_ms + config.game_controller_controller_delay_ms {
                    State::WhistleInPlaying { whistle_ms }
                } else {
                    State::Playing
                }
            } else {
                current
            }
        },
    }
}

/// The filter's internal state becomes `Playing` only when the referee
/// box itself says the game is running, or when a whistle heard in the
/// set phase has stood for the full message delay without a
/// motion-in-set penalty revoking it.
pub proof fn lemma_playing_only_after_whistle_delay_or_referee(
    current: State,
    gc: GameControllerState,
    whistle: bool,
    now_ms: u64,
    config: GameStateFilterParameters,
    ball_far: bool,
    proceed: bool,
    motion_in_set: bool,
)
    ensures
        next_filtered_state_spec(current, gc, whistle, now_ms, config, ball_far, proceed,
        motion_in_set) == State::Playing ==> (gc.game_state == GameState::Playing || (
        current is WhistleInSet && gc.game_state == GameState::InSet && !motion_in_set
            && elapsed_spec(now_ms, current->WhistleInSet_whistle_ms)
            >= config.playing_message_delay_ms + config.game_controller_controller_delay_ms)),
{
}

/// Whether the cycle at `cycle_start_time_ms` still falls into a grace
/// period that started at `start_time_ms`.
pub fn is_in_grace_period(cycle_start_time_ms: u64, start_time_ms: u64, grace_period_ms: u64) -> (r:
    bool)
    ensures
        r == (elapsed_spec(cycle_start_time_ms, start_time_ms) < grace_period_ms),
{
    crate::fixed::saturating_elapsed(cycle_start_time_ms, start_time_ms) < grace_period_ms
}

/// Whether a ball sighting, carried into the field frame, lies far from
/// both goals: nearer to the halfway line than the goal acceptance
/// band, or outside the goal mouth sideways.
pub open spec fn ball_far_from_any_goal_spec(
    ground_to_field: Transform2,
    ball: Point2,
    field_dimensions: FieldDimensions,
    acceptance_x: i64,
    acceptance_y: i64,
) -> bool {
    let fx = apply_x_spec(ground_to_field, ball.x as int, ball.y as int);
    let fy = apply_y_spec(ground_to_field, ball.x as int, ball.y as int);
    crate::fixed::abs_spec(fx) < field_dimensions.length / 2 - acceptance_x || crate::fixed::abs_spec(
        fy,
    ) > field_dimensions.goal_inner_width / 2 + acceptance_y
}

/// Decides `ball_far_from_any_goal_spec` for an optional sighting; no
/// sighting counts as near a goal.
pub fn ball_detected_far_from_any_goal(
    ground_to_field: &Transform2,
    ball: Option<&BallPosition>,
    field_dimensions: &FieldDimensions,
    whistle_acceptance_goal_distance_x: i64,
    whistle_acceptance_goal_distance_y: i64,
) -> (r: bool)
    requires
        transform_wf(*ground_to_field),
        field_dimensions.length >= 0,
        field_dimensions.goal_inner_width >= 0,
        -1_000_000_000 <= whistle_acceptance_goal_distance_x <= 1_000_000_000,
        -1_000_000_000 <= whistle_acceptance_goal_distance_y <= 1_000_000_000,
        field_dimensions.length <= 1_000_000_000,
        field_dimensions.goal_inner_width <= 1_000_000_000,
        ball is Some ==> ball->0.position.wf(),
    ensures
        r == (ball is Some && ball_far_from_any_goal_spec(
            *ground_to_field,
            ball->0.position,
            *field_dimensions,
            whistle_acceptance_goal_distance_x,
            whistle_acceptance_goal_distance_y,
        )),
{
    match ball {
        Some(ball) => {
            let on_field: Point2 = ground_to_field.apply(ball.position);
            let ax: u64 = abs_i64(on_field.x);
            let ay: u64 = abs_i64(on_field.y);
            let near_band: i64 = field_dimensions.length / 2 - whistle_acceptance_goal_distance_x;
            let wide_band: i64 = field_dimensions.goal_inner_width / 2
                + whistle_acceptance_goal_distance_y;
            ((ax as i128) < near_band as i128) || ((ay as i128) > wide_band as i128)
        },
        None => false,
    }
}

/// The published game state a given internal state maps to, for one of
/// the two tracked teams.
pub open spec fn construct_filtered_spec(
    state: State,
    gc: GameControllerState,
    team: Team,
    now_ms: u64,
    ball_far_from_kick_off: bool,
    config: GameStateFilterParameters,
    proceed_to_ready: bool,
    kicking_team: Option<Team>,
) -> FilteredGameState {
    let in_sub_state = gc.sub_state is Some;
    let opponent_kicks = kicking_team != Some(team);
    match state {
        State::Initial => FilteredGameState::Initial,
        State::Standby => if proceed_to_ready {
            FilteredGameState::Ready
        } else {
            FilteredGameState::Standby
        },
        State::Ready => FilteredGameState::Ready,
        State::InSet => FilteredGameState::InSet,
        State::WhistleInSet { whistle_ms } => {
            let grace = elapsed_spec(now_ms, whistle_ms) < config.kick_off_grace_period_ms
                + config.game_controller_controller_delay_ms;
            let opponent_kick_off = opponent_kicks && grace && !ball_far_from_kick_off;
            let opponent_sub_state = opponent_kicks && in_sub_state;
            FilteredGameState::Playing {
                ball_is_free: !opponent_kick_off && !opponent_sub_state,
                kick_off: !in_sub_state,
            }
        },
        State::Playing => FilteredGameState::Playing {
            ball_is_free: !(in_sub_state && opponent_kicks),
            kick_off: false,
        },
        State::WhistleInPlaying { .. } => FilteredGameState::Ready,
        State::Finished => if gc.game_phase is PenaltyShootout {
            FilteredGameState::InSet
        } else {
            FilteredGameState::Finished
        },
        State::TentativeFinished { .. } => FilteredGameState::InSet,
    }
}

impl State {
    /// Publishes this internal state for one team's view.
    pub fn construct_filtered_game_state_for_team(
        &self,
        game_controller_state: &GameControllerState,
        team: Team,
        cycle_start_time_ms: u64,
        ball_detected_far_from_kick_off_point: bool,
        config: &GameStateFilterParameters,
        visual_referee_proceed_to_ready: bool,
        filtered_kicking_team: Option<Team>,
    ) -> (r: FilteredGameState)
        requires
            config_wf(*config),
        ensures
            r == construct_filtered_spec(
                *self,
                *game_controller_state,
                team,
                cycle_start_time_ms,
                ball_detected_far_from_kick_off_point,
                *config,
                visual_referee_proceed_to_ready,
                filtered_kicking_team,
            ),
    {
        let is_in_sub_state = game_controller_state.sub_state.is_some();
        let opponent_is_kicking_team = filtered_kicking_team != Some(team);
        match self {
            State::Initial => FilteredGameState::Initial,
            State::Standby => {
                if visual_referee_proceed_to_ready {
                    FilteredGameState::Ready
                } else {
                    FilteredGameState::Standby
                }
            },
            State::Ready => FilteredGameState::Ready,
            State::InSet => FilteredGameState::InSet,
            State::WhistleInSet { whistle_ms } => {
                let kick_off_grace_period = is_in_grace_period(
                    cycle_start_time_ms,
                    *whistle_ms,
                    config.kick_off_grace_period_ms + config.game_controller_controller_delay_ms,
                );
                let opponent_kick_off = opponent_is_kicking_team && kick_off_grace_period
                    && !ball_detected_far_from_kick_off_point;
                let opponent_sub_state = opponent_is_kicking_team && is_in_sub_state;
                FilteredGameState::Playing {
                    ball_is_free: !opponent_kick_off && !opponent_sub_state,
                    kick_off: !is_in_sub_state,
                }
            },
            State::Playing => FilteredGameState::Playing {
                ball_is_free: !(is_in_sub_state && opponent_is_kicking_team),
                kick_off: false,
            },
            State::WhistleInPlaying { .. } => FilteredGameState::Ready,
            State::Finished => {
                if matches!(game_controller_state.game_phase, GamePhase::PenaltyShootout { .. }) {
                    FilteredGameState::InSet
                } else {
                    FilteredGameState::Finished
                }
            },
            State::TentativeFinished { .. } => FilteredGameState::InSet,
        }
    }
}

/// The penalties that appeared since the last snapshot: a player is
/// listed exactly when they are penalized now and were not before.
pub open spec fn penalty_diff_spec(
    last: Players<Option<Penalty>>,
    current: Players<Option<Penalty>>,
    player: PlayerNumber,
) -> Option<Penalty> {
    if last.spec_get(player) is None && current.spec_get(player) is Some {
        current.spec_get(player)
    } else {
        None
    }
}

/// Computes the per-player penalty difference between two snapshots.
pub fn penalty_diff(last: &Players<Option<Penalty>>, current: &Players<Option<Penalty>>) -> (r:
    Players<Option<Penalty>>)
    ensures
        forall|p: PlayerNumber| r.spec_get(p) == penalty_diff_spec(*last, *current, p),
        r == penalty_diff_table_spec(*last, *current),
{
    Players {
        one: if last.one.is_none() {
            current.one
        } else {
            None
        },
        two: if last.two.is_none() {
            current.two
        } else {
            None
        },
        three: if last.three.is_none() {
            current.three
        } else {
            None
        },
        four: if last.four.is_none() {
            current.four
        } else {
            None
        },
        five: if last.five.is_none() {
            current.five
        } else {
            None
        },
        six: if last.six.is_none() {
            current.six
        } else {
            None
        },
        seven: if last.seven.is_none() {
            current.seven
        } else {
            None
        },
    }
}

/// Whether any player of the table has a penalty listed.
pub open spec fn any_penalty_spec(p: Players<Option<Penalty>>) -> bool {
    p.one is Some || p.two is Some || p.three is Some || p.four is Some || p.five is Some
        || p.six is Some || p.seven is Some
}

fn any_penalty(p: &Players<Option<Penalty>>) -> (r: bool)
    ensures
        r == any_penalty_spec(*p),
{
    p.one.is_some() || p.two.is_some() || p.three.is_some() || p.four.is_some() || p.five.is_some()
        || p.six.is_some() || p.seven.is_some()
}

/// Whether any newly pronounced penalty is a motion-in-set penalty.
pub open spec fn any_motion_in_set_spec(p: Players<Option<Penalty>>) -> bool {
    p.one matches Some(Penalty::IllegalMotionInSet { .. }) || p.two matches Some(
        Penalty::IllegalMotionInSet { .. },
    ) || p.three matches Some(Penalty::IllegalMotionInSet { .. }) || p.four matches Some(
        Penalty::IllegalMotionInSet { .. },
    ) || p.five matches Some(Penalty::IllegalMotionInSet { .. }) || p.six matches Some(
        Penalty::IllegalMotionInSet { .. },
    ) || p.seven matches Some(Penalty::IllegalMotionInSet { .. })
}

fn any_motion_in_set(p: &Players<Option<Penalty>>) -> (r: bool)
    ensures
        r == any_motion_in_set_spec(*p),
{
    matches!(p.one, Some(Penalty::IllegalMotionInSet { .. })) || matches!(
        p.two,
        Some(Penalty::IllegalMotionInSet { .. }),
    ) || matches!(p.three, Some(Penalty::IllegalMotionInSet { .. })) || matches!(
        p.four,
        Some(Penalty::IllegalMotionInSet { .. }),
    ) || matches!(p.five, Some(Penalty::IllegalMotionInSet { .. })) || matches!(
        p.six,
        Some(Penalty::IllegalMotionInSet { .. }),
    ) || matches!(p.seven, Some(Penalty::IllegalMotionInSet { .. }))
}


/// The filter's persistent memory across cycles.
#[derive(Clone, Copy, Debug, PartialEq, Eq, Structural)]
pub struct GameControllerStateFilter {
    pub state: State,
    pub opponent_state: State,
    pub last_game_controller_state: Option<GameControllerState>,
    pub whistle_in_set_ball_position: Option<Point2>,
    pub last_observed_ball: Option<LastBallState>,
    pub last_time_hulk_was_penalized_ms: Option<u64>,
    pub last_time_opponent_was_penalized_ms: Option<u64>,
}

/// The remembered ball sighting after one cycle: a fresh sighting
/// replaces the stored one, and a stored sighting is forgotten once it
/// is older than the configured keep time, unless a penalty kick is
/// running.
pub open spec fn observed_ball_after_spec(
    stored: Option<LastBallState>,
    fresh: Option<LastBallState>,
    gc: GameControllerState,
    now_ms: u64,
    config: GameStateFilterParameters,
) -> Option<LastBallState> {
    let merged = if fresh is Some {
        fresh
    } else {
        stored
    };
    match merged {
        Some(last) => {
            if gc.sub_state != Some(SubState::PenaltyKick) && elapsed_spec(now_ms, last.time_ms)
                > config.duration_to_keep_observed_ball_ms {
                None
            } else {
                merged
            }
        },
        None => None,
    }
}

/// Which half the remembered ball lies in: the opponent half is where
/// the field x coordinate is nonnegative.  `None` when no sighting is
/// remembered.
pub open spec fn ball_in_opponent_half_spec(
    stored: Option<LastBallState>,
    fresh: Option<LastBallState>,
) -> Option<bool> {
    let merged = if fresh is Some {
        fresh
    } else {
        stored
    };
    match merged {
        Some(last) => Some(last.ball.ball_in_field.x >= 0),
        None => None,
    }
}

/// The remembered penalty stamp after one cycle: a new penalty renews
/// it, and it is forgotten once older than the configured keep time.
pub open spec fn penalty_stamp_after_spec(
    stored: Option<u64>,
    any_new: bool,
    now_ms: u64,
    config: GameStateFilterParameters,
) -> Option<u64> {
    let renewed = if any_new {
        Some(now_ms)
    } else {
        stored
    };
    match renewed {
        Some(stamp_ms) => {
            if elapsed_spec(now_ms, stamp_ms) > config.duration_to_keep_new_penalties_ms {
                None
            } else {
                renewed
            }
        },
        None => None,
    }
}

/// Who takes the current kick, inferred from the sub-state, the ball's
/// half, the recent penalties and the visual referee: corner and
/// penalty kicks are awarded against the half the ball lies in, goal
/// kicks for it, a pushing free kick goes against the recently
/// penalized team, a kick-in follows the visual referee's hint, and
/// open play attributes a whistle by the ball's half.
pub open spec fn kicking_team_spec(
    gc: GameControllerState,
    ball_in_opponent_half: Option<bool>,
    hulk_penalized: Option<u64>,
    opponent_penalized: Option<u64>,
    detected: Option<Team>,
    whistle: bool,
) -> Option<Team> {
    if gc.kicking_team is Some {
        gc.kicking_team
    } else if gc.sub_state == Some(SubState::CornerKick) {
        match ball_in_opponent_half {
            Some(true) => Some(Team::Hulks),
            Some(false) => Some(Team::Opponent),
            None => None,
        }
    } else if gc.sub_state == Some(SubState::GoalKick) {
        match ball_in_opponent_half {
            Some(true) => Some(Team::Opponent),
            Some(false) => Some(Team::Hulks),
            None => None,
        }
    } else if gc.sub_state == Some(SubState::PenaltyKick) {
        match ball_in_opponent_half {
            Some(true) => Some(Team::Hulks),
            Some(false) => Some(Team::Opponent),
            None => None,
        }
    } else if gc.sub_state == Some(SubState::PushingFreeKick) && hulk_penalized is Some {
        Some(Team::Opponent)
    } else if gc.sub_state == Some(SubState::PushingFreeKick) && opponent_penalized is Some {
        Some(Team::Hulks)
    } else if gc.sub_state == Some(SubState::KickIn) && detected is Some {
        detected
    } else if gc.game_state == GameState::Playing && gc.sub_state is None {
        match ball_in_opponent_half {
            None => None,
            Some(half) => if whistle && !half {
                Some(Team::Opponent)
            } else if whistle && half {
                Some(Team::Hulks)
            } else {
                None
            },
        }
    } else {
        None
    }
}

impl GameControllerStateFilter {
    /// A fresh filter: both trackers in the initial state, nothing
    /// remembered.
    pub fn new() -> (r: Self)
        ensures
            r.state == State::Initial,
            r.opponent_state == State::Initial,
            r.last_game_controller_state is None,
            r.whistle_in_set_ball_position is None,
            r.last_observed_ball is None,
            r.last_time_hulk_was_penalized_ms is None,
            r.last_time_opponent_was_penalized_ms is None,
    {
        GameControllerStateFilter {
            state: State::Initial,
            opponent_state: State::Initial,
            last_game_controller_state: None,
            whistle_in_set_ball_position: None,
            last_observed_ball: None,
            last_time_hulk_was_penalized_ms: None,
            last_time_opponent_was_penalized_ms: None,
        }
    }

    /// Infers the kicking team and refreshes the remembered ball
    /// sighting and penalty stamps.  When the referee box names the
    /// kicking team outright, nothing is remembered or forgotten.
    pub fn find_kicking_team(
        &mut self,
        game_controller_state: &GameControllerState,
        cycle_start_time_ms: u64,
        config: &GameStateFilterParameters,
        whistle_is_detected: bool,
        last_ball_state: Option<LastBallState>,
        new_own_penalties_last_cycle: &Players<Option<Penalty>>,
        new_opponent_penalties_last_cycle: &Players<Option<Penalty>>,
        detected_free_kick_kicking_team: Option<Team>,
    ) -> (r: Option<Team>)
        requires
            config_wf(*config),
        ensures
            game_controller_state.kicking_team is Some ==> (r == game_controller_state.kicking_team
                && *final(self) == *old(self)),
            game_controller_state.kicking_team is None ==> ({
                let gc = *game_controller_state;
                let observed = observed_ball_after_spec(
                    old(self).last_observed_ball,
                    last_ball_state,
                    gc,
                    cycle_start_time_ms,
                    *config,
                );
                let half = ball_in_opponent_half_spec(
                    old(self).last_observed_ball,
                    last_ball_state,
                );
                let hulk = penalty_stamp_after_spec(
                    old(self).last_time_hulk_was_penalized_ms,
                    any_penalty_spec(*new_own_penalties_last_cycle),
                    cycle_start_time_ms,
                    *config,
                );
                let opponent = penalty_stamp_after_spec(
                    old(self).last_time_opponent_was_penalized_ms,
                    any_penalty_spec(*new_opponent_penalties_last_cycle),
                    cycle_start_time_ms,
                    *config,
                );
                &&& final(self).last_observed_ball == observed
                &&& final(self).last_time_hulk_was_penalized_ms == hulk
                &&& final(self).last_time_opponent_was_penalized_ms == opponent
                &&& final(self).state == old(self).state
                &&& final(self).opponent_state == old(self).opponent_state
                &&& final(self).last_game_controller_state == old(
                    self,
                ).last_game_controller_state
                &&& final(self).whistle_in_set_ball_position == old(
                    self,
                ).whistle_in_set_ball_position
                &&& r == kicking_team_spec(
                    gc,
                    half,
                    hulk,
                    opponent,
                    detected_free_kick_kicking_team,
                    whistle_is_detected,
                )
            }),
    {
        if let Some(kicking_team) = game_controller_state.kicking_team {
            return Some(kicking_team);
        }
        if last_ball_state.is_some() {
            self.last_observed_ball = last_ball_state;
        }
        let ball_is_in_opponent_half: Option<bool> = match self.last_observed_ball {
            Some(last) => {
                let is_not_in_penalty_kick = game_controller_state.sub_state != Some(
                    SubState::PenaltyKick,
                );
                if is_not_in_penalty_kick && crate::fixed::saturating_elapsed(
                    cycle_start_time_ms,
                    last.time_ms,
                ) > config.duration_to_keep_observed_ball_ms {
                    self.last_observed_ball = None;
                }
                Some(last.ball.ball_in_field.x >= 0)
            },
            None => None,
        };
        if any_penalty(new_own_penalties_last_cycle) {
            self.last_time_hulk_was_penalized_ms = Some(cycle_start_time_ms);
        }
        if let Some(stamp_ms) = self.last_time_hulk_was_penalized_ms {
            if crate::fixed::saturating_elapsed(cycle_start_time_ms, stamp_ms)
                > config.duration_to_keep_new_penalties_ms {
                self.last_time_hulk_was_penalized_ms = None;
            }
        }
        if any_penalty(new_opponent_penalties_last_cycle) {
            self.last_time_opponent_was_penalized_ms = Some(cycle_start_time_ms);
        }
        if let Some(stamp_ms) = self.last_time_opponent_was_penalized_ms {
            if crate::fixed::saturating_elapsed(cycle_start_time_ms, stamp_ms)
                > config.duration_to_keep_new_penalties_ms {
                self.last_time_opponent_was_penalized_ms = None;
            }
        }
        if game_controller_state.sub_state == Some(SubState::CornerKick) {
            match ball_is_in_opponent_half {
                Some(true) => Some(Team::Hulks),
                Some(false) => Some(Team::Opponent),
                None => None,
            }
        } else if game_controller_state.sub_state == Some(SubState::GoalKick) {
            match ball_is_in_opponent_half {
                Some(true) => Some(Team::Opponent),
                Some(false) => Some(Team::Hulks),
                None => None,
            }
        } else if game_controller_state.sub_state == Some(SubState::PenaltyKick) {
            match ball_is_in_opponent_half {
                Some(true) => Some(Team::Hulks),
                Some(false) => Some(Team::Opponent),
                None => None,
            }
        } else if game_controller_state.sub_state == Some(SubState::PushingFreeKick)
            && self.last_time_hulk_was_penalized_ms.is_some() {
            Some(Team::Opponent)
        } else if game_controller_state.sub_state == Some(SubState::PushingFreeKick)
            && self.last_time_opponent_was_penalized_ms.is_some() {
            Some(Team::Hulks)
        } else if game_controller_state.sub_state == Some(SubState::KickIn)
            && detected_free_kick_kicking_team.is_some() {
            detected_free_kick_kicking_team
        } else if game_controller_state.game_state == GameState::Playing
            && game_controller_state.sub_state.is_none() {
            match ball_is_in_opponent_half {
                None => None,
                Some(half) => {
                    if whistle_is_detected && !half {
                        Some(Team::Opponent)
                    } else if whistle_is_detected && half {
                        Some(Team::Hulks)
                    } else {
                        None
                    }
                },
            }
        } else {
            None
        }
    }
}


/// Whether the ball, carried into the field frame, has moved farther
/// from the kick-off reference point than the configured distance; the
/// comparison is made on squared distances and is exact.
pub open spec fn ball_moved_from_kick_off_spec(
    ground_to_field: Option<Transform2>,
    ball: Option<BallPosition>,
    reference: Option<Point2>,
    threshold: i64,
) -> bool {
    match (ground_to_field, ball) {
        (Some(g2f), Some(b)) => {
            let fx = apply_x_spec(g2f, b.position.x as int, b.position.y as int);
            let fy = apply_y_spec(g2f, b.position.x as int, b.position.y as int);
            let rx = match reference {
                Some(p) => p.x as int,
                None => 0int,
            };
            let ry = match reference {
                Some(p) => p.y as int,
                None => 0int,
            };
            (fx - rx) * (fx - rx) + (fy - ry) * (fy - ry) > threshold * threshold
        },
        _ => false,
    }
}


/// The whistle-in-set ball reference after one cycle: the first ball
/// sighting carried into the field frame is remembered while the own
/// tracker waits in the whistle-in-set state, and the reference is
/// forgotten once play starts or a motion-in-set penalty arrives.
pub open spec fn whistle_reference_after_spec(
    stored: Option<Point2>,
    own: State,
    ground_to_field: Option<Transform2>,
    ball: Option<BallPosition>,
    motion_in_set: bool,
) -> Option<Point2> {
    let remembered = if own is WhistleInSet && stored is None && ground_to_field is Some
        && ball is Some {
        Some(
            Point2 {
                x: apply_x_spec(
                    ground_to_field->0,
                    ball->0.position.x as int,
                    ball->0.position.y as int,
                ) as i64,
                y: apply_y_spec(
                    ground_to_field->0,
                    ball->0.position.x as int,
                    ball->0.position.y as int,
                ) as i64,
            },
        )
    } else {
        stored
    };
    if own == State::Playing || motion_in_set {
        None
    } else {
        remembered
    }
}

/// The pair of filtered states the filter publishes each cycle.
#[derive(Clone, Copy, Debug, PartialEq, Eq, Structural)]
pub struct FilteredGameStates {
    pub own: FilteredGameState,
    pub opponent: FilteredGameState,
}

impl GameControllerStateFilter {
    /// Advances both team trackers, maintains the whistle-in-set ball
    /// reference, and publishes the filtered state for each team.
    pub fn filter_game_states(
        &mut self,
        ground_to_field: Option<&Transform2>,
        ball_position: Option<&BallPosition>,
        field_dimensions: &FieldDimensions,
        config: &GameStateFilterParameters,
        game_controller_state: &GameControllerState,
        whistle_is_detected: bool,
        cycle_start_time_ms: u64,
        visual_referee_proceed_to_ready: bool,
        player_number: PlayerNumber,
        did_receive_motion_in_set_penalty: bool,
        filtered_kicking_team: Option<Team>,
    ) -> (r: FilteredGameStates)
        requires
            config_wf(*config),
            ground_to_field matches Some(t) ==> transform_wf(*t),
            ball_position matches Some(b) ==> b.position.wf(),
            old(self).whistle_in_set_ball_position matches Some(p) ==> (-3_000_000_000 <= p.x
                <= 3_000_000_000 && -3_000_000_000 <= p.y <= 3_000_000_000),
            0 <= field_dimensions.length <= 1_000_000_000,
            0 <= field_dimensions.goal_inner_width <= 1_000_000_000,
            -1_000_000_000 <= config.whistle_acceptance_goal_distance_x <= 1_000_000_000,
            -1_000_000_000 <= config.whistle_acceptance_goal_distance_y <= 1_000_000_000,
            0 <= config.distance_to_consider_ball_moved_in_kick_off <= 1_000_000_000,
        ensures
            ({
                let gc = *game_controller_state;
                let ball_far = ground_to_field matches Some(t) && ball_position is Some
                    && ball_far_from_any_goal_spec(
                    *t,
                    ball_position->0.position,
                    *field_dimensions,
                    config.whistle_acceptance_goal_distance_x,
                    config.whistle_acceptance_goal_distance_y,
                );
                let own = next_filtered_state_spec(
                    old(self).state,
                    gc,
                    whistle_is_detected,
                    cycle_start_time_ms,
                    *config,
                    ball_far,
                    visual_referee_proceed_to_ready,
                    did_receive_motion_in_set_penalty,
                );
                let opponent = next_filtered_state_spec(
                    old(self).opponent_state,
                    gc,
                    whistle_is_detected,
                    cycle_start_time_ms,
                    *config,
                    ball_far,
                    visual_referee_proceed_to_ready,
                    did_receive_motion_in_set_penalty,
                );
                let motion_in_set = gc.penalties.spec_get(player_number) matches Some(
                    Penalty::IllegalMotionInSet { .. },
                );
                let reference = whistle_reference_after_spec(
                    old(self).whistle_in_set_ball_position,
                    own,
                    match ground_to_field {
                        Some(t) => Some(*t),
                        None => None,
                    },
                    match ball_position {
                        Some(b) => Some(*b),
                        None => None,
                    },
                    motion_in_set,
                );
                let ball_moved = ball_moved_from_kick_off_spec(
                    match ground_to_field {
                        Some(t) => Some(*t),
                        None => None,
                    },
                    match ball_position {
                        Some(b) => Some(*b),
                        None => None,
                    },
                    reference,
                    config.distance_to_consider_ball_moved_in_kick_off,
                );
                &&& final(self).state == own
                &&& final(self).opponent_state == opponent
                &&& final(self).whistle_in_set_ball_position == reference
                &&& final(self).last_observed_ball == old(self).last_observed_ball
                &&& final(self).last_time_hulk_was_penalized_ms == old(
                    self,
                ).last_time_hulk_was_penalized_ms
                &&& final(self).last_time_opponent_was_penalized_ms == old(
                    self,
                ).last_time_opponent_was_penalized_ms
                &&& final(self).last_game_controller_state == old(
                    self,
                ).last_game_controller_state
                &&& r.own == construct_filtered_spec(
                    own,
                    gc,
                    Team::Hulks,
                    cycle_start_time_ms,
                    ball_moved,
                    *config,
                    visual_referee_proceed_to_ready,
                    filtered_kicking_team,
                )
                &&& r.opponent == construct_filtered_spec(
                    opponent,
                    gc,
                    Team::Opponent,
                    cycle_start_time_ms,
                    ball_moved,
                    *config,
                    visual_referee_proceed_to_ready,
                    filtered_kicking_team,
                )
            }),
    {
        let ball_detected_far_from_any_goal: bool = match ground_to_field {
            Some(t) => ball_detected_far_from_any_goal(
                t,
                ball_position,
                field_dimensions,
                config.whistle_acceptance_goal_distance_x,
                config.whistle_acceptance_goal_distance_y,
            ),
            None => false,
        };
        self.state = next_filtered_state(
            self.state,
            game_controller_state,
            whistle_is_detected,
            cycle_start_time_ms,
            config,
            ball_detected_far_from_any_goal,
            visual_referee_proceed_to_ready,
            did_receive_motion_in_set_penalty,
        );
        self.opponent_state = next_filtered_state(
            self.opponent_state,
            game_controller_state,
            whistle_is_detected,
            cycle_start_time_ms,
            config,
            ball_detected_far_from_any_goal,
            visual_referee_proceed_to_ready,
            did_receive_motion_in_set_penalty,
        );
        if matches!(self.state, State::WhistleInSet { .. })
            && self.whistle_in_set_ball_position.is_none() {
            if let (Some(transform), Some(ball)) = (ground_to_field, ball_position) {
                proof {
                    crate::odometry::lemma_apply_in_range(
                        *transform,
                        ball.position.x as int,
                        ball.position.y as int,
                    );
                }
                self.whistle_in_set_ball_position = Some(transform.apply(ball.position));
            }
        }
        let motion_in_set = matches!(
            game_controller_state.penalties.index(player_number),
            Some(Penalty::IllegalMotionInSet { .. })
        );
        if matches!(self.state, State::Playing) || motion_in_set {
            self.whistle_in_set_ball_position = None;
        }
        let ball_detected_far_from_kick_off_point: bool = match (ground_to_field, ball_position) {
            (Some(t), Some(ball)) => {
                let absolute: Point2 = t.apply(ball.position);
                let reference: Point2 = match self.whistle_in_set_ball_position {
                    Some(p) => p,
                    None => Point2 { x: 0, y: 0 },
                };
                proof {
                    crate::odometry::lemma_apply_in_range(
                        *t,
                        ball.position.x as int,
                        ball.position.y as int,
                    );
                }
                let dx: i64 = absolute.x - reference.x;
                let dy: i64 = absolute.y - reference.y;
                proof {
                    assert((dx as int) * (dx as int) + (dy as int) * (dy as int)
                        < 0x8000_0000_0000_0000_0000_0000 && (dx as int) * (dx as int) >= 0 && (
                    dy as int) * (dy as int) >= 0) by (nonlinear_arith)
                        requires
                            -6_000_000_001 <= dx <= 6_000_000_001,
                            -6_000_000_001 <= dy <= 6_000_000_001,
                    ;
                }
                let sq: i128 = (dx as i128) * (dx as i128) + (dy as i128) * (dy as i128);
                let threshold: i64 = config.distance_to_consider_ball_moved_in_kick_off;
                proof {
                    assert(0 <= (threshold as int) * (threshold as int)
                        < 0x8000_0000_0000_0000_0000_0000) by (nonlinear_arith)
                        requires
                            0 <= threshold <= 1_000_000_000,
                    ;
                }
                let tsq: i128 = (threshold as i128) * (threshold as i128);
                sq > tsq
            },
            _ => false,
        };
        let filtered_game_state = self.state.construct_filtered_game_state_for_team(
            game_controller_state,
            Team::Hulks,
            cycle_start_time_ms,
            ball_detected_far_from_kick_off_point,
            config,
            visual_referee_proceed_to_ready,
            filtered_kicking_team,
        );
        let filtered_opponent_game_state = self.opponent_state.construct_filtered_game_state_for_team(
            game_controller_state,
            Team::Opponent,
            cycle_start_time_ms,
            ball_detected_far_from_kick_off_point,
            config,
            visual_referee_proceed_to_ready,
            filtered_kicking_team,
        );
        FilteredGameStates { own: filtered_game_state, opponent: filtered_opponent_game_state }
    }
}


/// The per-player table of penalties that are new in `current`
/// compared with `last`.
pub open spec fn penalty_diff_table_spec(
    last: Players<Option<Penalty>>,
    current: Players<Option<Penalty>>,
) -> Players<Option<Penalty>> {
    Players {
        one: penalty_diff_spec(last, current, PlayerNumber::One),
        two: penalty_diff_spec(last, current, PlayerNumber::Two),
        three: penalty_diff_spec(last, current, PlayerNumber::Three),
        four: penalty_diff_spec(last, current, PlayerNumber::Four),
        five: penalty_diff_spec(last, current, PlayerNumber::Five),
        six: penalty_diff_spec(last, current, PlayerNumber::Six),
        seven: penalty_diff_spec(last, current, PlayerNumber::Seven),
    }
}

/// The table with no penalty listed for any player.
pub open spec fn no_penalties_spec() -> Players<Option<Penalty>> {
    Players { one: None, two: None, three: None, four: None, five: None, six: None, seven: None }
}

impl GameControllerStateFilter {
    /// One full filter cycle: diffs the penalties against the last
    /// referee snapshot, infers the kicking team, advances both state
    /// trackers and assembles the published snapshot.
    #[verifier::rlimit(50)]
    pub fn cycle(
        &mut self,
        game_controller_state: &GameControllerState,
        cycle_start_time_ms: u64,
        config: &GameStateFilterParameters,
        field_dimensions: &FieldDimensions,
        player_number: PlayerNumber,
        whistle_is_detected: bool,
        ball_position: Option<&BallPosition>,
        ground_to_field: Option<&Transform2>,
        last_ball_state: Option<LastBallState>,
        visual_referee_proceed_to_ready: bool,
        detected_free_kick_kicking_team: Option<Team>,
    ) -> (r: FilteredGameControllerState)
        requires
            config_wf(*config),
            ground_to_field matches Some(t) ==> transform_wf(*t),
            ball_position matches Some(b) ==> b.position.wf(),
            old(self).whistle_in_set_ball_position matches Some(p) ==> (-3_000_000_000 <= p.x
                <= 3_000_000_000 && -3_000_000_000 <= p.y <= 3_000_000_000),
            0 <= field_dimensions.length <= 1_000_000_000,
            0 <= field_dimensions.goal_inner_width <= 1_000_000_000,
            -1_000_000_000 <= config.whistle_acceptance_goal_distance_x <= 1_000_000_000,
            -1_000_000_000 <= config.whistle_acceptance_goal_distance_y <= 1_000_000_000,
            0 <= config.distance_to_consider_ball_moved_in_kick_off <= 1_000_000_000,
        ensures
            ({
                let gc = *game_controller_state;
                let new_own = match old(self).last_game_controller_state {
                    Some(last) => penalty_diff_table_spec(last.penalties, gc.penalties),
                    None => no_penalties_spec(),
                };
                let new_opponent = match old(self).last_game_controller_state {
                    Some(last) => penalty_diff_table_spec(
                        last.opponent_penalties,
                        gc.opponent_penalties,
                    ),
                    None => no_penalties_spec(),
                };
                let motion_in_set_received = any_motion_in_set_spec(new_own)
                    || any_motion_in_set_spec(new_opponent);
                let kicking_team = if gc.kicking_team is Some {
                    gc.kicking_team
                } else {
                    kicking_team_spec(
                        gc,
                        ball_in_opponent_half_spec(old(self).last_observed_ball, last_ball_state),
                        penalty_stamp_after_spec(
                            old(self).last_time_hulk_was_penalized_ms,
                            any_penalty_spec(new_own),
                            cycle_start_time_ms,
                            *config,
                        ),
                        penalty_stamp_after_spec(
                            old(self).last_time_opponent_was_penalized_ms,
                            any_penalty_spec(new_opponent),
                            cycle_start_time_ms,
                            *config,
                        ),
                        detected_free_kick_kicking_team,
                        whistle_is_detected,
                    )
                };
                let ball_far = ground_to_field matches Some(t) && ball_position is Some
                    && ball_far_from_any_goal_spec(
                    *t,
                    ball_position->0.position,
                    *field_dimensions,
                    config.whistle_acceptance_goal_distance_x,
                    config.whistle_acceptance_goal_distance_y,
                );
                let own = next_filtered_state_spec(
                    old(self).state,
                    gc,
                    whistle_is_detected,
                    cycle_start_time_ms,
                    *config,
                    ball_far,
                    visual_referee_proceed_to_ready,
                    motion_in_set_received,
                );
                let opponent = next_filtered_state_spec(
                    old(self).opponent_state,
                    gc,
                    whistle_is_detected,
                    cycle_start_time_ms,
                    *config,
                    ball_far,
                    visual_referee_proceed_to_ready,
                    motion_in_set_received,
                );
                &&& final(self).state == own
                &&& final(self).opponent_state == opponent
                &&& final(self).last_game_controller_state == Some(gc)
                &&& r.game_phase == gc.game_phase
                &&& r.kicking_team == kicking_team
                &&& r.penalties == gc.penalties
                &&& r.remaining_time_in_half_ms == gc.remaining_time_in_half_ms
                &&& r.remaining_number_of_messages == gc.remaining_amount_of_messages
                &&& r.sub_state == gc.sub_state
                &&& r.global_field_side == gc.global_field_side
                &&& r.new_own_penalties_last_cycle == new_own
                &&& r.new_opponent_penalties_last_cycle == new_opponent
                &&& r.game_state == construct_filtered_spec(
                    own,
                    gc,
                    Team::Hulks,
                    cycle_start_time_ms,
                    ball_moved_from_kick_off_spec(
                        match ground_to_field {
                            Some(t) => Some(*t),
                            None => None,
                        },
                        match ball_position {
                            Some(b) => Some(*b),
                            None => None,
                        },
                        final(self).whistle_in_set_ball_position,
                        config.distance_to_consider_ball_moved_in_kick_off,
                    ),
                    *config,
                    visual_referee_proceed_to_ready,
                    kicking_team,
                )
                &&& r.opponent_game_state == construct_filtered_spec(
                    opponent,
                    gc,
                    Team::Opponent,
                    cycle_start_time_ms,
                    ball_moved_from_kick_off_spec(
                        match ground_to_field {
                            Some(t) => Some(*t),
                            None => None,
                        },
                        match ball_position {
                            Some(b) => Some(*b),
                            None => None,
                        },
                        final(self).whistle_in_set_ball_position,
                        config.distance_to_consider_ball_moved_in_kick_off,
                    ),
                    *config,
                    visual_referee_proceed_to_ready,
                    kicking_team,
                )
            }),
    {
        let empty = Players::<Option<Penalty>> {
            one: None,
            two: None,
            three: None,
            four: None,
            five: None,
            six: None,
            seven: None,
        };
        let (new_own_penalties_last_cycle, new_opponent_penalties_last_cycle) = match &self
            .last_game_controller_state {
            Some(last) => (
                penalty_diff(&last.penalties, &game_controller_state.penalties),
                penalty_diff(
                    &last.opponent_penalties,
                    &game_controller_state.opponent_penalties,
                ),
            ),
            None => (empty, empty),
        };
        let did_receive_motion_in_set_penalty = any_motion_in_set(&new_own_penalties_last_cycle)
            || any_motion_in_set(&new_opponent_penalties_last_cycle);
        let kicking_team = self.find_kicking_team(
            game_controller_state,
            cycle_start_time_ms,
            config,
            whistle_is_detected,
            last_ball_state,
            &new_own_penalties_last_cycle,
            &new_opponent_penalties_last_cycle,
            detected_free_kick_kicking_team,
        );
        let game_states = self.filter_game_states(
            ground_to_field,
            ball_position,
            field_dimensions,
            config,
            game_controller_state,
            whistle_is_detected,
            cycle_start_time_ms,
            visual_referee_proceed_to_ready,
            player_number,
            did_receive_motion_in_set_penalty,
            kicking_team,
        );
        let filtered_game_controller_state = FilteredGameControllerState {
            game_state: game_states.own,
            opponent_game_state: game_states.opponent,
            remaining_time_in_half_ms: game_controller_state.remaining_time_in_half_ms,
            game_phase: game_controller_state.game_phase,
            kicking_team,
            penalties: game_controller_state.penalties,
            remaining_number_of_messages: game_controller_state.remaining_amount_of_messages,
            sub_state: game_controller_state.sub_state,
            global_field_side: game_controller_state.global_field_side,
            new_own_penalties_last_cycle,
            new_opponent_penalties_last_cycle,
        };
        self.last_game_controller_state = Some(*game_controller_state);
        filtered_game_controller_state
    }
}

} // verus!
