//! Level progression: what happens when a level is spawned, won or lost,
//! and how the current level index moves on.
use vstd::prelude::*;

verus! {

/// Seconds between winning or losing a level and leaving it.
pub const END_LEVEL_DELAY_SECS: u64 = 3;

/// Program states that the progression rules enter.
#[derive(Debug, Clone, Copy, PartialEq, Eq, Structural)]
pub enum ProgramState {
    InGame,
    Error,
    Completed,
}

/// Level states that the progression rules enter.
#[derive(Debug, Clone, Copy, PartialEq, Eq, Structural)]
pub enum LevelState {
    Initializing,
    LevelLoaded,
    Configuring,
    Advance,
}

/// Gameplay states that the progression rules enter.
#[derive(Debug, Clone, Copy, PartialEq, Eq, Structural)]
pub enum GameplayState {
    Setup,
    Playing,
    Done,
}

/// Overlay states that the progression rules enter.
#[derive(Debug, Clone, Copy, PartialEq, Eq, Structural)]
pub enum OverlayState {
    Loading,
    Hidden,
    GameOverScreen,
}

/// One state change requested by a progression rule, in the order in
/// which the rule issues it.
#[derive(Debug, Clone, Copy, PartialEq, Eq, Structural)]
pub enum FlowCommand {
    Program(ProgramState),
    Level(LevelState),
    Gameplay(GameplayState),
    Overlay(OverlayState),
    /// Pause (or unpause) input because a menu-like screen is up.
    MenuPaused(bool),
}

/// Which level is being played, and which one is queued to be next.
#[derive(Debug, Clone, Copy, PartialEq, Eq, Structural)]
pub struct LevelProgress {
    pub level_index: usize,
    pub next_level_index: Option<usize>,
}

/// What the score display does on a tick.
#[derive(Debug, Clone, Copy, PartialEq, Eq, Structural)]
pub enum ScoreDisplay {
    /// Nothing to change.
    Unchanged,
    /// Empty the score text.
    Clear,
    /// Empty the score text and show it in the neutral colour.
    ClearNeutral,
}

/// Entering level setup: show the loading overlay and block input.
pub fn level_spawn_started() -> (cmds: Vec<FlowCommand>)
    ensures
        cmds@ == seq![
            FlowCommand::Level(LevelState::Initializing),
            FlowCommand::Overlay(OverlayState::Loading),
            FlowCommand::MenuPaused(true),
        ],
{
    vec![
        FlowCommand::Level(LevelState::Initializing),
        FlowCommand::Overlay(OverlayState::Loading),
        FlowCommand::MenuPaused(true),
    ]
}

/// Leaving level setup: hide the overlay, mark the level loaded and give
/// input back.
pub fn level_spawn_finished() -> (cmds: Vec<FlowCommand>)
    ensures
        cmds@ == seq![
            FlowCommand::Overlay(OverlayState::Hidden),
            FlowCommand::Level(LevelState::LevelLoaded),
            FlowCommand::MenuPaused(false),
        ],
{
    vec![
        FlowCommand::Overlay(OverlayState::Hidden),
        FlowCommand::Level(LevelState::LevelLoaded),
        FlowCommand::MenuPaused(false),
    ]
}

/// A loaded level moves on to being configured.
pub fn level_loaded() -> (cmds: Vec<FlowCommand>)
    ensures
        cmds@ == seq![FlowCommand::Level(LevelState::Configuring)],
{
    vec![FlowCommand::Level(LevelState::Configuring)]
}

/// Advancing shows the loading overlay and starts setting up the level.
pub fn advance_level() -> (cmds: Vec<FlowCommand>)
    ensures
        cmds@ == seq![
            FlowCommand::Overlay(OverlayState::Loading),
            FlowCommand::Gameplay(GameplayState::Setup),
        ],
{
    vec![FlowCommand::Overlay(OverlayState::Loading), FlowCommand::Gameplay(GameplayState::Setup)]
}

/// The text shown when a level is passed.
pub fn won_level_message() -> (s: &'static str)
    ensures
        s@ == seq!['P', 'a', 's', 's', 'e', 'd', '!'],
{
    proof {
        reveal_strlit("Passed!");
    }
    "Passed!"
}

/// The text shown when a level is failed.
pub fn lost_level_message() -> (s: &'static str)
    ensures
        s@ == seq!['F', 'a', 'i', 'l', 'e', 'd', '.', '.', '.', '\n', 'T', 'r', 'y', ' ', 'a', 'g', 'a', 'i', 'n', '!'],
{
    proof {
        reveal_strlit("Failed...\nTry again!");
    }
    "Failed...\nTry again!"
}

/// What the score display does, given whether a score is being kept and
/// whether the level is being played.  No score rule decides a win or a
/// loss here, so the text is emptied and shown neutral while playing.
pub fn update_current_score(has_score: bool, playing: bool) -> (d: ScoreDisplay)
    ensures
        !has_score ==> d == ScoreDisplay::Clear,
        has_score && playing ==> d == ScoreDisplay::ClearNeutral,
        has_score && !playing ==> d == ScoreDisplay::Unchanged,
{
    if has_score {
        if playing {
            ScoreDisplay::ClearNeutral
        } else {
            ScoreDisplay::Unchanged
        }
    } else {
        ScoreDisplay::Clear
    }
}

/// Lost-level countdown: once it has run out the same level restarts.
pub fn check_lost_level(timer_finished: bool) -> (cmds: Vec<FlowCommand>)
    ensures
        timer_finished ==> cmds@ == seq![FlowCommand::Level(LevelState::Advance)],
        !timer_finished ==> cmds@ == Seq::<FlowCommand>::empty(),
{
    if timer_finished {
        vec![FlowCommand::Level(LevelState::Advance)]
    } else {
        Vec::new()
    }
}

/// The state changes that end the game after the last level.
pub open spec fn completion_commands() -> Seq<FlowCommand> {
    seq![
        FlowCommand::Program(ProgramState::Completed),
        FlowCommand::Level(LevelState::Initializing),
        FlowCommand::Gameplay(GameplayState::Done),
        FlowCommand::Overlay(OverlayState::GameOverScreen),
    ]
}

/// The progress after the queued next level, if any, has been applied.
pub open spec fn after_next_level(p: LevelProgress) -> LevelProgress {
    match p.next_level_index {
        Some(n) => LevelProgress { level_index: n, next_level_index: None },
        None => p,
    }
}

/// The state changes that applying a queued next level requests.
pub open spec fn next_level_commands(p: LevelProgress) -> Seq<FlowCommand> {
    match p.next_level_index {
        Some(n) => seq![FlowCommand::Program(ProgramState::InGame)],
        None => Seq::empty(),
    }
}

/// The current level is the last of `level_count` levels (or beyond).
pub open spec fn is_last_level(p: LevelProgress, level_count: nat) -> bool {
    p.level_index + 1 >= level_count
}

/// The progress after a tick of the won-level countdown.
pub open spec fn after_won_level(p: LevelProgress, timer_finished: bool, level_count: nat) -> LevelProgress {
    if !timer_finished {
        p
    } else if is_last_level(p, level_count) {
        LevelProgress { level_index: 0, ..p }
    } else {
        LevelProgress { next_level_index: Some((p.level_index + 1) as usize), ..p }
    }
}

/// The state changes that a tick of the won-level countdown requests.
pub open spec fn won_level_commands(p: LevelProgress, timer_finished: bool, level_count: nat) -> Seq<FlowCommand> {
    if !timer_finished {
        Seq::empty()
    } else if is_last_level(p, level_count) {
        completion_commands()
    } else {
        seq![FlowCommand::Level(LevelState::Advance)]
    }
}

impl LevelProgress {
    /// Starts at the first level with nothing queued.
    pub fn new() -> (p: Self)
        ensures
            p.level_index == 0,
            p.next_level_index is None,
    {
        LevelProgress { level_index: 0, next_level_index: None }
    }

    /// Applies a queued next level, if any: it becomes the current level,
    /// the queue is emptied and play resumes.
    pub fn check_next_level(&mut self) -> (cmds: Vec<FlowCommand>)
        ensures
            *final(self) == after_next_level(*old(self)),
            cmds@ == next_level_commands(*old(self)),
    {
        match self.next_level_index {
            Some(n) => {
                self.next_level_index = None;
                self.level_index = n;
                vec![FlowCommand::Program(ProgramState::InGame)]
            },
            None => Vec::new(),
        }
    }

    /// Won-level countdown.  Once it has run out, the next level is queued
    /// and entered; after the last of `level_count` levels the game is
    /// completed and play will restart from the first level.
    pub fn check_won_level(&mut self, timer_finished: bool, level_count: usize) -> (cmds: Vec<FlowCommand>)
        ensures
            *final(self) == after_won_level(*old(self), timer_finished, level_count as nat),
            cmds@ == won_level_commands(*old(self), timer_finished, level_count as nat),
    {
        if !timer_finished {
            return Vec::new();
        }
        if self.level_index >= level_count || level_count - self.level_index <= 1 {
            self.level_index = 0;
            vec![
                FlowCommand::Program(ProgramState::Completed),
                FlowCommand::Level(LevelState::Initializing),
                FlowCommand::Gameplay(GameplayState::Done),
                FlowCommand::Overlay(OverlayState::GameOverScreen),
            ]
        } else {
            self.next_level_index = Some(self.level_index + 1);
            vec![FlowCommand::Level(LevelState::Advance)]
        }
    }
}

/// Winning a level and then taking the queued level, as the game does
/// once the won-level countdown has run out.
pub open spec fn win_and_continue(p: LevelProgress, level_count: nat) -> LevelProgress {
    after_next_level(after_won_level(p, true, level_count))
}

/// `wins` levels won in a row, starting from `p`.
pub open spec fn win_streak(p: LevelProgress, wins: nat, level_count: nat) -> LevelProgress
    decreases wins,
{
    if wins == 0 {
        p
    } else {
        win_and_continue(win_streak(p, (wins - 1) as nat, level_count), level_count)
    }
}

/// Winning a level that is not the last one makes the following level the
/// current one.
pub proof fn law_win_moves_to_following_level(p: LevelProgress, level_count: nat)
    requires
        p.level_index + 1 < level_count,
        level_count <= usize::MAX,
    ensures
        win_and_continue(p, level_count).level_index == p.level_index + 1,
        win_and_continue(p, level_count).next_level_index is None,
        won_level_commands(p, true, level_count) == seq![FlowCommand::Level(LevelState::Advance)],
{
}

/// Winning the last level completes the game and sends the next session
/// back to the first level.
pub proof fn law_win_last_level_completes(p: LevelProgress, level_count: nat)
    requires
        p.level_index + 1 >= level_count,
        p.next_level_index is None,
    ensures
        win_and_continue(p, level_count).level_index == 0,
        won_level_commands(p, true, level_count) == completion_commands(),
{
}

/// Nothing happens before the countdown has run out.
pub proof fn law_countdown_running_changes_nothing(p: LevelProgress, level_count: nat)
    ensures
        after_won_level(p, false, level_count) == p,
        won_level_commands(p, false, level_count) == Seq::<FlowCommand>::empty(),
{
}

/// Starting from the first level and winning every level in turn plays
/// the levels in order, each once, and then starts over at the first.
pub proof fn law_winning_streak_visits_levels_in_order(p: LevelProgress, wins: nat, level_count: nat)
    requires
        p.level_index == 0,
        p.next_level_index is None,
        wins <= level_count,
        level_count <= usize::MAX,
    ensures
        wins < level_count ==> win_streak(p, wins, level_count).level_index == wins,
        wins == level_count ==> win_streak(p, wins, level_count).level_index == 0,
        win_streak(p, wins, level_count).next_level_index is None,
    decreases wins,
{
    if wins > 0 {
        law_winning_streak_visits_levels_in_order(p, (wins - 1) as nat, level_count);
    }
}

} // verus!
