//! Records shared between the referee feed and the game-state filter.

use vstd::prelude::*;
use crate::geometry::Point2;

verus! {

/// A player's jersey number.
#[derive(Clone, Copy, Debug, PartialEq, Eq, Structural, Hash)]
pub enum PlayerNumber {
    One,
    Two,
    Three,
    Four,
    Five,
    Six,
    Seven,
}

impl Default for PlayerNumber {
    fn default() -> (r: Self)
        ensures
            r == PlayerNumber::Seven,
    {
        PlayerNumber::Seven
    }
}

/// Converts a number from the wire into a jersey number; numbers
/// outside one to seven are rejected with a message.
pub fn to_player_number(value: usize) -> (r: Result<PlayerNumber, String>)
    ensures
        1 <= value <= 7 <==> r is Ok,
        value == 1 ==> r == Ok::<PlayerNumber, String>(PlayerNumber::One),
        value == 2 ==> r == Ok::<PlayerNumber, String>(PlayerNumber::Two),
        value == 3 ==> r == Ok::<PlayerNumber, String>(PlayerNumber::Three),
        value == 4 ==> r == Ok::<PlayerNumber, String>(PlayerNumber::Four),
        value == 5 ==> r == Ok::<PlayerNumber, String>(PlayerNumber::Five),
        value == 6 ==> r == Ok::<PlayerNumber, String>(PlayerNumber::Six),
        value == 7 ==> r == Ok::<PlayerNumber, String>(PlayerNumber::Seven),
{
    match value {
        1 => Ok(PlayerNumber::One),
        2 => Ok(PlayerNumber::Two),
        3 => Ok(PlayerNumber::Three),
        4 => Ok(PlayerNumber::Four),
        5 => Ok(PlayerNumber::Five),
        6 => Ok(PlayerNumber::Six),
        7 => Ok(PlayerNumber::Seven),
        _ => Err(invalid_player_number_message()),
    }
}

/// The complaint `to_player_number` returns for an out-of-range number.
fn invalid_player_number_message() -> (r: String) {
    "invalid player number".to_owned()
}

/// Converts a jersey number back into a plain number.
pub fn from_player_number(val: PlayerNumber) -> (r: usize)
    ensures
        r == (match val {
            PlayerNumber::One => 1int,
            PlayerNumber::Two => 2int,
            PlayerNumber::Three => 3int,
            PlayerNumber::Four => 4int,
            PlayerNumber::Five => 5int,
            PlayerNumber::Six => 6int,
            PlayerNumber::Seven => 7int,
        }),
{
    match val {
        PlayerNumber::One => 1,
        PlayerNumber::Two => 2,
        PlayerNumber::Three => 3,
        PlayerNumber::Four => 4,
        PlayerNumber::Five => 5,
        PlayerNumber::Six => 6,
        PlayerNumber::Seven => 7,
    }
}

/// One value per player of a team.
#[derive(Clone, Copy, Debug, PartialEq, Eq, Structural)]
pub struct Players<T> {
    pub one: T,
    pub two: T,
    pub three: T,
    pub four: T,
    pub five: T,
    pub six: T,
    pub seven: T,
}

impl<T> Players<T> {
    /// The slot of one player, as a specification-level lookup.
    pub open spec fn spec_get(self, player: PlayerNumber) -> T {
        match player {
            PlayerNumber::One => self.one,
            PlayerNumber::Two => self.two,
            PlayerNumber::Three => self.three,
            PlayerNumber::Four => self.four,
            PlayerNumber::Five => self.five,
            PlayerNumber::Six => self.six,
            PlayerNumber::Seven => self.seven,
        }
    }

    /// Reads the slot of one player.
    pub fn index(&self, player: PlayerNumber) -> (r: &T)
        ensures
            *r == self.spec_get(player),
    {
        match player {
            PlayerNumber::One => &self.one,
            PlayerNumber::Two => &self.two,
            PlayerNumber::Three => &self.three,
            PlayerNumber::Four => &self.four,
            PlayerNumber::Five => &self.five,
            PlayerNumber::Six => &self.six,
            PlayerNumber::Seven => &self.seven,
        }
    }
}

/// The two parties of a match, from the robot's own point of view.
#[derive(Clone, Copy, Debug, PartialEq, Eq, Structural)]
pub enum Team {
    Hulks,
    Opponent,
}

/// The raw game state broadcast by the referee box.
#[derive(Clone, Copy, Debug, PartialEq, Eq, Structural)]
pub enum GameState {
    Initial,
    Ready,
    InSet,
    Playing,
    Finished,
    Standby,
}

/// The coarse phase of the match.
#[derive(Clone, Copy, Debug, PartialEq, Eq, Structural)]
pub enum GamePhase {
    Normal,
    PenaltyShootout { kicking_team: Team },
    Overtime,
    Timeout,
}

/// The set-piece currently being played, if any.
#[derive(Clone, Copy, Debug, PartialEq, Eq, Structural)]
pub enum SubState {
    GoalKick,
    PushingFreeKick,
    CornerKick,
    KickIn,
    PenaltyKick,
}

/// A penalty pronounced against a player, with the milliseconds it has
/// left to run.
#[derive(Clone, Copy, Debug, PartialEq, Eq, Structural)]
pub enum Penalty {
    IllegalBallContact { remaining_ms: u64 },
    PlayerPushing { remaining_ms: u64 },
    IllegalMotionInSet { remaining_ms: u64 },
    InactivePlayer { remaining_ms: u64 },
    IllegalPosition { remaining_ms: u64 },
    LeavingTheField { remaining_ms: u64 },
    RequestForPickup { remaining_ms: u64 },
    LocalGameStuck { remaining_ms: u64 },
    IllegalPositionInSet { remaining_ms: u64 },
    PlayerStance { remaining_ms: u64 },
    Substitute { remaining_ms: u64 },
    Manual { remaining_ms: u64 },
}

/// Which half of the field the team defends.
#[derive(Clone, Copy, Debug, PartialEq, Eq, Structural)]
pub enum GlobalFieldSide {
    Home,
    Away,
}

/// The last decoded snapshot of the referee box's feed.
#[derive(Clone, Copy, Debug, PartialEq, Eq, Structural)]
pub struct GameControllerState {
    pub game_state: GameState,
    pub game_phase: GamePhase,
    pub kicking_team: Option<Team>,
    pub penalties: Players<Option<Penalty>>,
    pub opponent_penalties: Players<Option<Penalty>>,
    pub sub_state: Option<SubState>,
    pub remaining_time_in_half_ms: u64,
    pub remaining_amount_of_messages: u16,
    pub global_field_side: GlobalFieldSide,
}

/// The playing state after filtering, as the behavior layer consumes
/// it.
#[derive(Clone, Copy, Debug, PartialEq, Eq, Structural)]
pub enum FilteredGameState {
    Initial,
    Ready,
    InSet,
    Playing { ball_is_free: bool, kick_off: bool },
    Finished,
    Standby,
}

/// The filter's full per-cycle output snapshot.
#[derive(Clone, Copy, Debug, PartialEq, Eq, Structural)]
pub struct FilteredGameControllerState {
    pub game_state: FilteredGameState,
    pub opponent_game_state: FilteredGameState,
    pub remaining_time_in_half_ms: u64,
    pub game_phase: GamePhase,
    pub kicking_team: Option<Team>,
    pub penalties: Players<Option<Penalty>>,
    pub remaining_number_of_messages: u16,
    pub sub_state: Option<SubState>,
    pub global_field_side: GlobalFieldSide,
    pub new_own_penalties_last_cycle: Players<Option<Penalty>>,
    pub new_opponent_penalties_last_cycle: Players<Option<Penalty>>,
}

/// The tunable delays and distances of the game-state filter, in
/// milliseconds and millimetres.
#[derive(Clone, Copy, Debug, PartialEq, Eq, Structural)]
pub struct GameStateFilterParameters {
    pub playing_message_delay_ms: u64,
    pub ready_message_delay_ms: u64,
    pub game_controller_controller_delay_ms: u64,
    pub kick_off_grace_period_ms: u64,
    pub tentative_finish_duration_ms: u64,
    pub duration_to_keep_observed_ball_ms: u64,
    pub duration_to_keep_new_penalties_ms: u64,
    pub distance_to_consider_ball_moved_in_kick_off: i64,
    pub whistle_acceptance_goal_distance_x: i64,
    pub whistle_acceptance_goal_distance_y: i64,
}

/// The field measurements the filter reads, in millimetres.
#[derive(Clone, Copy, Debug, PartialEq, Eq, Structural)]
pub struct FieldDimensions {
    pub length: i64,
    pub goal_inner_width: i64,
}

/// A ball estimate as the world model carries it.
#[derive(Clone, Copy, Debug, PartialEq, Eq, Structural)]
pub struct BallState {
    pub ball_in_ground: Point2,
    pub ball_in_field: Point2,
}

/// The ball estimate of an earlier cycle, with its time stamp.
#[derive(Clone, Copy, Debug, PartialEq, Eq, Structural)]
pub struct LastBallState {
    pub time_ms: u64,
    pub ball: BallState,
}

} // verus!
