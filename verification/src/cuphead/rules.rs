//! When the timer starts, stops, splits and resets.
//!
//! Every rule in here is a function of what was read of the game on this
//! tick and on the one before, of the settings, and of what was noted on
//! earlier ticks. Reading the game and driving the timer is left to whoever
//! runs the tick.

use vstd::prelude::*;
use vstd::string::StringExecFns;
use crate::cuphead::enums::{names, Grade, Levels};
use crate::cuphead::settings::Settings;
use crate::timer::{TimerAction, TimerState};

verus! {

/// The cutscene that a new game opens with.
pub const SCENE_CUTSCENE_INTRO: &'static str = "scene_cutscene_intro";

/// The cutscene in which King Dice presents the contract.
pub const SCENE_CUTSCENE_KING_DICE_CONTRACT: &'static str = "scene_cutscene_kingdice";

/// The cutscene in which the Devil offers his deal.
pub const SCENE_CUTSCENE_DEVIL: &'static str = "scene_cutscene_devil";

/// The title screen.
pub const SCENE_TITLE_SCREEN: &'static str = "scene_title";

/// The scorecard that follows a level.
pub const SCENE_SCOREBOARD: &'static str = "scene_win";

/// A ticker that is done counting within this many nanoseconds skipped all
/// it had to count.
pub const STAR_SKIP_TIME_FIRST: u64 = 100_000_000;

/// A ticker that is done counting within this many nanoseconds skipped all
/// but one star.
pub const STAR_SKIP_TIME_SECOND: u64 = 600_000_000;

/// A ticker that is done counting within this many nanoseconds skipped all
/// but two stars.
pub const STAR_SKIP_TIME_THIRD: u64 = 1_100_000_000;

/// The difficulty that a level is played on.
#[derive(Clone, Copy, Debug, PartialEq, Eq, Structural)]
pub enum Mode {
    /// Simple: there is one star to count.
    Easy,
    /// Regular: there are two stars to count.
    Normal,
    /// Expert: there are three stars to count.
    Hard,
    /// None of the three: what any other value is read as.
    Unknown,
}

impl Default for Mode {
    fn default() -> (mode: Self)
        ensures
            mode == Mode::Unknown,
    {
        Mode::Unknown
    }
}

/// Which of the five rules decides whether a tick splits.
#[derive(Clone, Copy, Debug, PartialEq, Eq, Structural)]
pub enum SplitRule {
    /// The contract cutscene was entered.
    KingDiceContract,
    /// The Devil's deal was taken.
    DevilDeal,
    /// The level was left for one of the scenes that follow its completion.
    SceneTransition,
    /// The level was won.
    Knockout,
    /// The scorecard of the level was left.
    AfterScorecard,
}

/// What a tick has read of the game, as far as splitting looks at it.
///
/// Only the part that belongs to the rule in force is looked at, so the rest
/// need not be read at all, and may hold anything.
pub struct SplitEvidence {
    /// The scene on the tick before; empty where there was none.
    pub previous_scene: String,
    /// Whether the scene differs from the one on the tick before.
    pub scene_changed: bool,
    /// Whether the bad ending's transition changed between active and not.
    pub devil_deal_changed: bool,
    /// Whether the bad ending's transition is active.
    pub devil_deal_active: bool,
    /// Whether the level counts as won.
    pub level_won: bool,
    /// Whether the level counted as won on the tick before, if that was read.
    pub level_won_before: Option<bool>,
    /// The grade on the scorecard of the level.
    pub level_grade: Grade,
    /// The difficulty that the level was played on.
    pub level_difficulty: Mode,
    /// Whether the scorecard of this level was seen and left.
    pub was_on_scorecard: bool,
    /// Whether the loading flag differs from the one on the tick before.
    pub done_loading_changed: bool,
    /// Whether the game is loading.
    pub is_loading: bool,
}

/// What is noted from tick to tick.
#[derive(Clone, Copy, Debug, PartialEq, Eq, Structural)]
pub struct MeasuredState {
    /// Whether the time of the level is the one on its scorecard, which is
    /// final, and no longer the one that still runs.
    pub level_updated_lsd: bool,
    /// Whether the scorecard was seen and left, and no loading followed yet.
    pub was_on_scorecard: bool,
    /// When the difficulty ticker was first seen counting, in nanoseconds.
    pub difficulty_ticker_start_time: Option<u64>,
    /// When the difficulty ticker was first seen done, in nanoseconds.
    pub difficulty_ticker_end_time: Option<u64>,
    /// The stars that were skipped in this run.
    pub star_skip_counter: i32,
    /// The scorecards that were skipped in this run, in sixths: a scorecard
    /// skipped in full counts six, whatever the difficulty.
    pub star_skip_counter_decimal: i32,
}

/// The stars that a ticker skipped which took `elapsed` nanoseconds to count
/// on difficulty `mode`, and the sixths of a scorecard that they are.
pub open spec fn star_skip_award(mode: Mode, elapsed: u64) -> (i32, i32) {
    match mode {
        Mode::Easy => if elapsed < STAR_SKIP_TIME_FIRST {
            (1, 6)
        } else {
            (0, 0)
        },
        Mode::Normal => if elapsed < STAR_SKIP_TIME_FIRST {
            (2, 6)
        } else if elapsed < STAR_SKIP_TIME_SECOND {
            (1, 3)
        } else {
            (0, 0)
        },
        Mode::Hard => if elapsed < STAR_SKIP_TIME_FIRST {
            (3, 6)
        } else if elapsed < STAR_SKIP_TIME_SECOND {
            (2, 4)
        } else if elapsed < STAR_SKIP_TIME_THIRD {
            (1, 2)
        } else {
            (0, 0)
        },
        Mode::Unknown => (0, 0),
    }
}

/// The time from `start` to `end`, and none where `end` is the earlier one.
pub open spec fn elapsed_between(start: u64, end: u64) -> u64 {
    if end >= start {
        (end - start) as u64
    } else {
        0
    }
}

impl MeasuredState {
    /// Nothing noted yet.
    pub open spec fn initial() -> Self {
        MeasuredState {
            level_updated_lsd: false,
            was_on_scorecard: false,
            difficulty_ticker_start_time: None,
            difficulty_ticker_end_time: None,
            star_skip_counter: 0,
            star_skip_counter_decimal: 0,
        }
    }

    /// Whether the ticker, seen as `started` and `finished` at `now`, is seen
    /// done for the first time.
    pub open spec fn ticker_just_finished(self, started: bool, finished: bool) -> bool {
        started && finished && self.difficulty_ticker_end_time is None
    }

    /// The state after the ticker was seen as `started` and `finished` at
    /// `now`, on difficulty `mode`.
    ///
    /// A ticker that is not counting leaves no times behind. One that counts
    /// has its start noted when it is first seen. One that is done has its end
    /// noted when that is first seen, and is awarded then, once.
    pub open spec fn after_star_skip(self, started: bool, finished: bool, mode: Mode, now: u64)
        -> Self {
        if !started {
            MeasuredState {
                difficulty_ticker_start_time: None,
                difficulty_ticker_end_time: None,
                ..self
            }
        } else {
            let start = match self.difficulty_ticker_start_time {
                Some(time) => time,
                None => now,
            };
            if !self.ticker_just_finished(started, finished) {
                MeasuredState { difficulty_ticker_start_time: Some(start), ..self }
            } else {
                let award = star_skip_award(mode, elapsed_between(start, now));
                MeasuredState {
                    difficulty_ticker_start_time: Some(start),
                    difficulty_ticker_end_time: Some(now),
                    star_skip_counter: (self.star_skip_counter + award.0) as i32,
                    star_skip_counter_decimal: (self.star_skip_counter_decimal + award.1) as i32,
                    ..self
                }
            }
        }
    }

    /// Whether there is room for one more award in both counters.
    pub open spec fn has_room(self) -> bool {
        self.star_skip_counter <= i32::MAX - 3 && self.star_skip_counter_decimal <= i32::MAX - 6
    }

    /// Whether there is room for one more award in both counters: whether
    /// `monitor_star_skip` may be called.
    pub fn room_for_award(&self) -> (room: bool)
        ensures
            room == self.has_room(),
    {
        self.star_skip_counter <= i32::MAX - 3 && self.star_skip_counter_decimal <= i32::MAX - 6
    }

    /// Whether the ticker, seen as `started` and `finished`, is seen done for
    /// the first time: whether `monitor_star_skip` makes an award, for which
    /// there has to be room.
    pub fn awards_now(&self, started: bool, finished: bool) -> (awards: bool)
        ensures
            awards == self.ticker_just_finished(started, finished),
    {
        started && finished && self.difficulty_ticker_end_time.is_none()
    }

    /// Notes the state of the timer: while no run is under way nothing was
    /// skipped in it.
    pub fn note_timer(&mut self, timer: TimerState)
        ensures
            *final(self) == if timer == TimerState::NotRunning {
                MeasuredState { star_skip_counter: 0, star_skip_counter_decimal: 0, ..*old(self) }
            } else {
                *old(self)
            },
    {
        if timer == TimerState::NotRunning {
            self.clear_star_skips();
        }
    }

    /// Follows the difficulty ticker of the scorecard, which counts the stars
    /// of the level one by one unless the runner skips it. `now` is the time
    /// in nanoseconds on a clock that does not go back.
    pub fn monitor_star_skip(&mut self, started: bool, finished: bool, mode: Mode, now: u64)
        requires
            old(self).ticker_just_finished(started, finished) ==> old(self).has_room(),
        ensures
            *final(self) == old(self).after_star_skip(started, finished, mode, now),
    {
        if !started {
            self.difficulty_ticker_start_time = None;
            self.difficulty_ticker_end_time = None;
            return ;
        }
        let start = match self.difficulty_ticker_start_time {
            Some(time) => time,
            None => now,
        };
        self.difficulty_ticker_start_time = Some(start);
        if !finished || self.difficulty_ticker_end_time.is_some() {
            return ;
        }
        self.difficulty_ticker_end_time = Some(now);
        let elapsed = if now >= start {
            now - start
        } else {
            0
        };
        match mode {
            Mode::Easy => {
                if elapsed < STAR_SKIP_TIME_FIRST {
                    self.star_skip_counter = self.star_skip_counter + 1;
                    self.star_skip_counter_decimal = self.star_skip_counter_decimal + 6;
                }
            },
            Mode::Normal => {
                if elapsed < STAR_SKIP_TIME_FIRST {
                    self.star_skip_counter = self.star_skip_counter + 2;
                    self.star_skip_counter_decimal = self.star_skip_counter_decimal + 6;
                } else if elapsed < STAR_SKIP_TIME_SECOND {
                    self.star_skip_counter = self.star_skip_counter + 1;
                    self.star_skip_counter_decimal = self.star_skip_counter_decimal + 3;
                }
            },
            Mode::Hard => {
                if elapsed < STAR_SKIP_TIME_FIRST {
                    self.star_skip_counter = self.star_skip_counter + 3;
                    self.star_skip_counter_decimal = self.star_skip_counter_decimal + 6;
                } else if elapsed < STAR_SKIP_TIME_SECOND {
                    self.star_skip_counter = self.star_skip_counter + 2;
                    self.star_skip_counter_decimal = self.star_skip_counter_decimal + 4;
                } else if elapsed < STAR_SKIP_TIME_THIRD {
                    self.star_skip_counter = self.star_skip_counter + 1;
                    self.star_skip_counter_decimal = self.star_skip_counter_decimal + 2;
                }
            },
            _ => {},
        }
    }

    /// While no run is under way nothing was skipped in it.
    pub fn clear_star_skips(&mut self)
        ensures
            *final(self) == (MeasuredState {
                star_skip_counter: 0,
                star_skip_counter_decimal: 0,
                ..*old(self)
            }),
    {
        self.star_skip_counter = 0;
        self.star_skip_counter_decimal = 0;
    }

    /// Notes a new time on the scorecard. The time counts when it changed
    /// and is not zero: from then on it is the time of the level. Returns
    /// whether it counts, that is whether it is to be kept.
    pub fn note_scoring_time(&mut self, changed: bool, nonzero: bool) -> (counts: bool)
        ensures
            counts == (changed && nonzero),
            *final(self) == (MeasuredState {
                level_updated_lsd: old(self).level_updated_lsd || counts,
                ..*old(self)
            }),
    {
        if changed && nonzero {
            self.level_updated_lsd = true;
            true
        } else {
            false
        }
    }

    /// Notes that the level is starting over, or is another level than on
    /// the tick before: either way the time on the scorecard is no longer
    /// that of the level.
    pub fn note_level(&mut self, level_is_resetting: bool, level_changed: bool)
        ensures
            *final(self) == (MeasuredState {
                level_updated_lsd: old(self).level_updated_lsd && !level_is_resetting
                    && !level_changed,
                ..*old(self)
            }),
    {
        if level_is_resetting {
            self.level_updated_lsd = false;
        }
        if level_changed {
            self.level_updated_lsd = false;
        }
    }

    /// Notes whether the scorecard was just left: the scene before was the
    /// scorecard and this one is not. Once noted, it stays until loading
    /// starts.
    pub fn note_scene(&mut self, previous_scene: &String, scene: &String)
        ensures
            *final(self) == (MeasuredState {
                was_on_scorecard: old(self).was_on_scorecard || (previous_scene@
                    == SCENE_SCOREBOARD@ && scene@ != SCENE_SCOREBOARD@),
                ..*old(self)
            }),
    {
        if !self.was_on_scorecard {
            self.was_on_scorecard = is_scene(previous_scene, SCENE_SCOREBOARD) && !is_scene(
                scene,
                SCENE_SCOREBOARD,
            );
        }
    }

    /// Notes that loading started, which ends the time after a scorecard.
    pub fn note_loading(&mut self, done_loading_changed: bool, is_loading: bool)
        ensures
            *final(self) == (MeasuredState {
                was_on_scorecard: old(self).was_on_scorecard && !(done_loading_changed
                    && is_loading),
                ..*old(self)
            }),
    {
        if self.was_on_scorecard && done_loading_changed && is_loading {
            self.was_on_scorecard = false;
        }
    }

    /// Whether the time of the level is still the one that runs, to which
    /// the time on the scorecard is added, and not the latter alone.
    pub fn level_time_counts(&self) -> (counts: bool)
        ensures
            counts == !self.level_updated_lsd,
    {
        !self.level_updated_lsd
    }
}

impl Default for MeasuredState {
    fn default() -> (state: Self)
        ensures
            state == MeasuredState::initial(),
    {
        MeasuredState {
            level_updated_lsd: false,
            was_on_scorecard: false,
            difficulty_ticker_start_time: None,
            difficulty_ticker_end_time: None,
            star_skip_counter: 0,
            star_skip_counter_decimal: 0,
        }
    }
}

/// Whether `scene` is the scene of that name.
pub fn is_scene(scene: &String, name: &str) -> (same: bool)
    ensures
        same == (scene@ == name@),
{
    let wanted = String::from_str(name);
    *scene == wanted
}

/// Whether the level is starting over.
///
/// In the dice palace that is: the player stands on the first space, the
/// game is loading, and on the tick before it was seen loading already. In
/// any other level the clock of the level, which was running on the tick
/// before, is back at zero.
pub fn level_is_resetting(
    level_is_dice: bool,
    spaces_moved: i32,
    is_loading: bool,
    done_loading_before: Option<bool>,
    level_time_was_running: bool,
    level_time_is_zero: bool,
) -> (resetting: bool)
    ensures
        resetting == if level_is_dice {
            spaces_moved == 0 && is_loading && done_loading_before == Some(false)
        } else {
            level_time_was_running && level_time_is_zero
        },
{
    if level_is_dice {
        spaces_moved == 0 && is_loading && match done_loading_before {
            Some(done) => !done,
            None => false,
        }
    } else {
        level_time_was_running && level_time_is_zero
    }
}

/// Whether a new game was just begun: the intro is on, a save is in play,
/// and loading has started on this very tick.
pub open spec fn new_game_begins(
    scene: Seq<char>,
    in_game: bool,
    done_loading: bool,
    done_loading_before: Option<bool>,
) -> bool {
    scene == SCENE_CUTSCENE_INTRO@ && in_game && !done_loading && done_loading_before == Some(
        true,
    )
}

/// Whether an attempt at a level was just begun: the clock of the level,
/// at zero on the tick before, runs; in the dice palace only while nothing
/// is on the scorecard yet.
pub open spec fn level_attempt_begins(
    level_time_was_zero: bool,
    level_time_is_running: bool,
    level_is_dice: bool,
    scoring_time_is_zero: bool,
) -> bool {
    level_time_was_zero && level_time_is_running && (!level_is_dice || scoring_time_is_zero)
}

/// Whether a run starts on this tick, given that none is under way.
///
/// A run starts with a new game. In individual level mode it starts with
/// each attempt at a level as well.
pub fn should_start(
    settings: &Settings,
    scene: &String,
    in_game: bool,
    done_loading: bool,
    done_loading_before: Option<bool>,
    level_time_was_zero: bool,
    level_time_is_running: bool,
    level_is_dice: bool,
    scoring_time_is_zero: bool,
) -> (start: bool)
    ensures
        start == (new_game_begins(scene@, in_game, done_loading, done_loading_before) || (
        settings.individual_level_mode && level_attempt_begins(
            level_time_was_zero,
            level_time_is_running,
            level_is_dice,
            scoring_time_is_zero,
        ))),
{
    let loading_began = !done_loading && match done_loading_before {
        Some(done) => done,
        None => false,
    };
    (is_scene(scene, SCENE_CUTSCENE_INTRO) && in_game && loading_began) || (
    settings.individual_level_mode && level_time_was_zero && level_time_is_running && (
    !level_is_dice || scoring_time_is_zero))
}

/// What is done to the timer when a run starts: game time is stopped first,
/// so that it does not run before the game says so.
pub fn start_actions() -> (actions: Vec<TimerAction>)
    ensures
        actions@ == seq![TimerAction::PauseGameTime, TimerAction::Start],
{
    let mut actions: Vec<TimerAction> = Vec::new();
    actions.push(TimerAction::PauseGameTime);
    actions.push(TimerAction::Start);
    actions
}

/// What becomes of game time on a tick of a run that is under way.
///
/// In individual level mode game time is what the game says the level took:
/// it is stopped and set. Otherwise it stands still while the game loads,
/// and runs while it does not.
pub fn game_time_actions(settings: &Settings, is_loading: bool) -> (actions: Vec<TimerAction>)
    ensures
        actions@ == game_time_plan(*settings, is_loading),
{
    let mut actions: Vec<TimerAction> = Vec::new();
    if settings.individual_level_mode {
        actions.push(TimerAction::PauseGameTime);
        actions.push(TimerAction::SetGameTime);
    } else if is_loading {
        actions.push(TimerAction::PauseGameTime);
    } else {
        actions.push(TimerAction::ResumeGameTime);
    }
    actions
}

/// The rule that decides in `scene`, for `level`, under `settings`.
///
/// The two cutscenes come first: in them the level is still the one that
/// was played before, and says nothing. Then come the levels that are
/// completed by leaving them. Every other level splits on knockout or after
/// its scorecard, as the settings have it; in individual level mode always
/// on knockout.
pub open spec fn rule_for(scene: Seq<char>, level: Levels, settings: Settings) -> SplitRule {
    if scene == SCENE_CUTSCENE_KING_DICE_CONTRACT@ {
        SplitRule::KingDiceContract
    } else if scene == SCENE_CUTSCENE_DEVIL@ {
        SplitRule::DevilDeal
    } else if level.scene_transition() is Some {
        SplitRule::SceneTransition
    } else if settings.split_level_complete.splits_on_knockout(level)
        || settings.individual_level_mode {
        SplitRule::Knockout
    } else {
        SplitRule::AfterScorecard
    }
}

/// Whether only the highest grade splits, and the grade is not the highest
/// that a level of this kind gives on this difficulty.
pub open spec fn grade_forbids(level: Levels, settings: Settings, evidence: SplitEvidence) -> bool {
    settings.split_highest_grade && !level.level_type().is_highest(
        evidence.level_grade,
        evidence.level_difficulty,
    )
}

/// Whether `rule` splits on what was read.
pub open spec fn rule_splits(
    rule: SplitRule,
    scene: Seq<char>,
    level: Levels,
    settings: Settings,
    evidence: SplitEvidence,
) -> bool {
    match rule {
        SplitRule::KingDiceContract => settings.split_kd_contract_cutscene
            && evidence.previous_scene@ != SCENE_CUTSCENE_KING_DICE_CONTRACT@,
        SplitRule::DevilDeal => settings.split_devil_deal && evidence.devil_deal_changed
            && evidence.devil_deal_active,
        SplitRule::SceneTransition => level.scene_transition() matches Some(transition)
            && level.split_enabled(settings) && evidence.scene_changed
            && evidence.previous_scene@ == transition.from && transition.to.contains(scene),
        SplitRule::Knockout => level.split_enabled(settings) && evidence.level_won
            && evidence.level_won_before == Some(false) && !grade_forbids(
            level,
            settings,
            evidence,
        ),
        SplitRule::AfterScorecard => level.split_enabled(settings) && evidence.was_on_scorecard
            && evidence.done_loading_changed && evidence.is_loading && !grade_forbids(
            level,
            settings,
            evidence,
        ),
    }
}

/// The rule that decides in `scene`, for `level`, under `settings`: it says
/// which part of the evidence a tick has to read.
pub fn split_rule(scene: &String, level: Levels, settings: &Settings) -> (rule: SplitRule)
    ensures
        rule == rule_for(scene@, level, *settings),
{
    if is_scene(scene, SCENE_CUTSCENE_KING_DICE_CONTRACT) {
        SplitRule::KingDiceContract
    } else if is_scene(scene, SCENE_CUTSCENE_DEVIL) {
        SplitRule::DevilDeal
    } else if level.split_on_scene_transition_to().is_some() {
        SplitRule::SceneTransition
    } else if settings.split_level_complete.should_split_on_knockout(level)
        || settings.individual_level_mode {
        SplitRule::Knockout
    } else {
        SplitRule::AfterScorecard
    }
}

fn contains_scene(scenes: &Vec<&'static str>, scene: &String) -> (found: bool)
    ensures
        found == names(scenes@).to_set().contains(scene@),
{
    let mut i: usize = 0;
    while i < scenes.len()
        invariant
            i <= scenes@.len(),
            forall|k: int| 0 <= k < i ==> (#[trigger] scenes@[k])@ != scene@,
        decreases scenes@.len() - i,
    {
        if is_scene(scene, scenes[i]) {
            proof {
                assert(names(scenes@)[i as int] == scene@);
            }
            return true;
        }
        i = i + 1;
    }
    false
}

/// Whether this tick of a run that is under way splits.
pub fn should_split(scene: &String, level: Levels, settings: &Settings, evidence: &SplitEvidence)
    -> (split: bool)
    ensures
        split == rule_splits(
            rule_for(scene@, level, *settings),
            scene@,
            level,
            *settings,
            *evidence,
        ),
{
    let grade_allows = !settings.split_highest_grade || level.get_type().is_highest_grade(
        evidence.level_grade,
        evidence.level_difficulty,
    );
    match split_rule(scene, level, settings) {
        SplitRule::KingDiceContract => settings.split_kd_contract_cutscene && !is_scene(
            &evidence.previous_scene,
            SCENE_CUTSCENE_KING_DICE_CONTRACT,
        ),
        SplitRule::DevilDeal => settings.split_devil_deal && evidence.devil_deal_changed
            && evidence.devil_deal_active,
        SplitRule::SceneTransition => match level.split_on_scene_transition_to() {
            Some((from, to)) => level.is_split_enabled(settings) && evidence.scene_changed
                && is_scene(&evidence.previous_scene, from) && contains_scene(&to, scene),
            None => false,
        },
        SplitRule::Knockout => level.is_split_enabled(settings) && evidence.level_won
            && match evidence.level_won_before {
            Some(won) => !won,
            None => false,
        } && grade_allows,
        SplitRule::AfterScorecard => level.is_split_enabled(settings) && evidence.was_on_scorecard
            && evidence.done_loading_changed && evidence.is_loading && grade_allows,
    }
}

/// Whether this tick of a run that is under way resets the timer: on the
/// title screen where the runner asked for it, and in individual level mode
/// whenever the level starts over.
pub fn should_reset(scene: &String, settings: &Settings, level_is_resetting: bool) -> (reset: bool)
    ensures
        reset == resets(scene@, *settings, level_is_resetting),
{
    (is_scene(scene, SCENE_TITLE_SCREEN) && settings.auto_reset) || (
    settings.individual_level_mode && level_is_resetting)
}

/// What is done to game time on a tick of a run that is under way.
pub open spec fn game_time_plan(settings: Settings, is_loading: bool) -> Seq<TimerAction> {
    if settings.individual_level_mode {
        seq![TimerAction::PauseGameTime, TimerAction::SetGameTime]
    } else if is_loading {
        seq![TimerAction::PauseGameTime]
    } else {
        seq![TimerAction::ResumeGameTime]
    }
}

/// Whether the timer resets on a tick of a run that is under way.
pub open spec fn resets(scene: Seq<char>, settings: Settings, level_is_resetting: bool) -> bool {
    (scene == SCENE_TITLE_SCREEN@ && settings.auto_reset) || (settings.individual_level_mode
        && level_is_resetting)
}

/// What a tick of a run that is under way ends with: the split, where there
/// is one, and then the reset, where there is one.
pub open spec fn closing_plan(
    scene: Seq<char>,
    level: Levels,
    settings: Settings,
    evidence: SplitEvidence,
    level_is_resetting: bool,
) -> Seq<TimerAction> {
    (if rule_splits(rule_for(scene, level, settings), scene, level, settings, evidence) {
        seq![TimerAction::Split]
    } else {
        Seq::empty()
    }) + (if resets(scene, settings, level_is_resetting) {
        seq![TimerAction::Reset]
    } else {
        Seq::empty()
    })
}

/// All that is done to the timer on a tick of a run that is under way, in
/// order: game time is seen to first, then comes the split, then the reset.
pub open spec fn running_plan(
    scene: Seq<char>,
    level: Levels,
    settings: Settings,
    evidence: SplitEvidence,
    is_loading: bool,
    level_is_resetting: bool,
) -> Seq<TimerAction> {
    game_time_plan(settings, is_loading) + closing_plan(
        scene,
        level,
        settings,
        evidence,
        level_is_resetting,
    )
}

/// What a tick has read of the game, as far as starting a run looks at it.
#[derive(Clone, Copy, Debug, PartialEq, Eq, Structural)]
pub struct StartEvidence {
    /// Whether a save is in play.
    pub in_game: bool,
    /// Whether the game is done loading.
    pub done_loading: bool,
    /// Whether the game was done loading on the tick before, if that was
    /// read.
    pub done_loading_before: Option<bool>,
    /// Whether the clock of the level stood at zero on the tick before.
    pub level_time_was_zero: bool,
    /// Whether the clock of the level runs.
    pub level_time_is_running: bool,
    /// Whether the level belongs to the dice palace.
    pub level_is_dice: bool,
    /// Whether the time on the scorecard is zero.
    pub scoring_time_is_zero: bool,
}

impl Default for StartEvidence {
    /// Nothing read: no run starts on it.
    fn default() -> (evidence: Self)
        ensures
            evidence == (StartEvidence {
                in_game: false,
                done_loading: false,
                done_loading_before: None,
                level_time_was_zero: false,
                level_time_is_running: false,
                level_is_dice: false,
                scoring_time_is_zero: false,
            }),
            forall|settings: Settings, scene: Seq<char>|
                !#[trigger] starts(settings, scene, evidence),
    {
        StartEvidence {
            in_game: false,
            done_loading: false,
            done_loading_before: None,
            level_time_was_zero: false,
            level_time_is_running: false,
            level_is_dice: false,
            scoring_time_is_zero: false,
        }
    }
}

/// Whether a run starts on what was read.
pub open spec fn starts(settings: Settings, scene: Seq<char>, evidence: StartEvidence) -> bool {
    new_game_begins(scene, evidence.in_game, evidence.done_loading, evidence.done_loading_before)
        || (settings.individual_level_mode && level_attempt_begins(
        evidence.level_time_was_zero,
        evidence.level_time_is_running,
        evidence.level_is_dice,
        evidence.scoring_time_is_zero,
    ))
}

/// What a tick does to the timer while no run is under way: nothing, unless
/// a run starts. In any other state of the timer this part of the tick does
/// nothing.
pub open spec fn idle_plan(
    timer: TimerState,
    settings: Settings,
    scene: Seq<char>,
    evidence: StartEvidence,
) -> Seq<TimerAction> {
    if timer == TimerState::NotRunning && starts(settings, scene, evidence) {
        seq![TimerAction::PauseGameTime, TimerAction::Start]
    } else {
        Seq::empty()
    }
}

/// The part of a tick that may start a run. It acts while no run is under
/// way, and only then.
pub fn idle_actions(
    timer: TimerState,
    settings: &Settings,
    scene: &String,
    evidence: &StartEvidence,
) -> (actions: Vec<TimerAction>)
    ensures
        actions@ == idle_plan(timer, *settings, scene@, *evidence),
{
    if timer == TimerState::NotRunning && should_start(
        settings,
        scene,
        evidence.in_game,
        evidence.done_loading,
        evidence.done_loading_before,
        evidence.level_time_was_zero,
        evidence.level_time_is_running,
        evidence.level_is_dice,
        evidence.scoring_time_is_zero,
    ) {
        start_actions()
    } else {
        Vec::new()
    }
}

/// The part of a tick that sees to game time. It acts while a run is under
/// way, and only then.
pub fn opening_actions(timer: TimerState, settings: &Settings, is_loading: bool) -> (actions: Vec<
    TimerAction,
>)
    ensures
        actions@ == if timer == TimerState::Running {
            game_time_plan(*settings, is_loading)
        } else {
            Seq::<TimerAction>::empty()
        },
{
    if timer == TimerState::Running {
        game_time_actions(settings, is_loading)
    } else {
        Vec::new()
    }
}

/// The part of a tick that splits and resets. It acts while a run is under
/// way, and only then.
pub fn closing_actions(
    timer: TimerState,
    scene: &String,
    level: Levels,
    settings: &Settings,
    evidence: &SplitEvidence,
    level_is_resetting: bool,
) -> (actions: Vec<TimerAction>)
    ensures
        actions@ == if timer == TimerState::Running {
            closing_plan(scene@, level, *settings, *evidence, level_is_resetting)
        } else {
            Seq::<TimerAction>::empty()
        },
{
    let mut actions: Vec<TimerAction> = Vec::new();
    if timer == TimerState::Running {
        if should_split(scene, level, settings, evidence) {
            actions.push(TimerAction::Split);
        }
        if should_reset(scene, settings, level_is_resetting) {
            actions.push(TimerAction::Reset);
        }
    }
    actions
}

/// All that a tick does to the timer once a run is under way, in the order
/// in which it is to be done: what `opening_actions` says, and then what
/// `closing_actions` says.
pub fn running_actions(
    timer: TimerState,
    scene: &String,
    level: Levels,
    settings: &Settings,
    evidence: &SplitEvidence,
    is_loading: bool,
    level_is_resetting: bool,
) -> (actions: Vec<TimerAction>)
    ensures
        actions@ == if timer == TimerState::Running {
            running_plan(scene@, level, *settings, *evidence, is_loading, level_is_resetting)
        } else {
            Seq::<TimerAction>::empty()
        },
{
    let mut actions = opening_actions(timer, settings, is_loading);
    if timer == TimerState::Running {
        if should_split(scene, level, settings, evidence) {
            actions.push(TimerAction::Split);
        }
        if should_reset(scene, settings, level_is_resetting) {
            actions.push(TimerAction::Reset);
        }
    }
    actions
}

/// Whether the difficulty ticker is followed on this tick: during a run,
/// on the scorecard.
pub fn watches_star_skip(timer: TimerState, scene: &String) -> (watches: bool)
    ensures
        watches == (timer == TimerState::Running && scene@ == SCENE_SCOREBOARD@),
{
    timer == TimerState::Running && is_scene(scene, SCENE_SCOREBOARD)
}

/// Only the evidence of the rule in force decides: two ticks that agree on
/// it split alike, whatever else they read.
pub proof fn lemma_knockout_looks_at_the_win_only(
    scene: Seq<char>,
    level: Levels,
    settings: Settings,
    one: SplitEvidence,
    other: SplitEvidence,
)
    requires
        rule_for(scene, level, settings) == SplitRule::Knockout,
        one.level_won == other.level_won,
        one.level_won_before == other.level_won_before,
        one.level_grade == other.level_grade,
        one.level_difficulty == other.level_difficulty,
    ensures
        rule_splits(SplitRule::Knockout, scene, level, settings, one) == rule_splits(
            SplitRule::Knockout,
            scene,
            level,
            settings,
            other,
        ),
{
}

/// A ticker is awarded once: after it was seen done, seeing it done again
/// changes nothing.
pub proof fn lemma_ticker_is_awarded_once(
    state: MeasuredState,
    mode: Mode,
    first: u64,
    second: u64,
)
    requires
        state.difficulty_ticker_end_time is None,
    ensures
        state.after_star_skip(true, true, mode, first).after_star_skip(true, true, mode, second)
            == state.after_star_skip(true, true, mode, first),
{
}

/// A tick of a run that is under way never starts a run. With game time
/// following the game, it opens with game time running where the game is not
/// loading, and standing still where it is.
pub proof fn lemma_running_tick_follows_loading(
    scene: Seq<char>,
    level: Levels,
    settings: Settings,
    evidence: SplitEvidence,
    is_loading: bool,
    level_is_resetting: bool,
)
    ensures
        !running_plan(scene, level, settings, evidence, is_loading, level_is_resetting).contains(
            TimerAction::Start,
        ),
        !settings.individual_level_mode ==> running_plan(
            scene,
            level,
            settings,
            evidence,
            is_loading,
            level_is_resetting,
        )[0] == if is_loading {
            TimerAction::PauseGameTime
        } else {
            TimerAction::ResumeGameTime
        },
{
    let plan = running_plan(scene, level, settings, evidence, is_loading, level_is_resetting);
    assert forall|at: int| 0 <= at < plan.len() implies plan[at] != TimerAction::Start by {}
}

/// A run is started by a tick on which none is under way, and by no other:
/// whatever was read, the part of a tick that may start a run does nothing
/// in any other state of the timer.
pub proof fn lemma_only_an_idle_tick_starts(
    timer: TimerState,
    settings: Settings,
    scene: Seq<char>,
    evidence: StartEvidence,
)
    requires
        idle_plan(timer, settings, scene, evidence).contains(TimerAction::Start),
    ensures
        timer == TimerState::NotRunning,
        starts(settings, scene, evidence),
{
}

/// A new game begins in the intro only, and only on the tick on which
/// loading starts: a loading flag that clears begins nothing, in any scene.
pub proof fn lemma_new_game_needs_the_intro(
    scene: Seq<char>,
    in_game: bool,
    done_loading: bool,
    done_loading_before: Option<bool>,
)
    requires
        new_game_begins(scene, in_game, done_loading, done_loading_before),
    ensures
        scene == SCENE_CUTSCENE_INTRO@,
        in_game,
        !done_loading,
        done_loading_before == Some(true),
{
}

} // verus!
