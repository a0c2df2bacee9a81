//! What the runner chooses: when to split, and how time is kept.

use vstd::prelude::*;
use crate::cuphead::enums::{LevelType, Levels};

verus! {

/// When the completion of a level splits.
#[derive(Clone, Copy, Debug, PartialEq, Eq, Structural)]
pub enum LevelCompleteSetting {
    /// Split on knockout.
    ///
    /// Usually when the "KNOCKOUT!" text appears on screen, as soon as the
    /// boss is dead.
    OnKnockout,
    /// Split after the scorecard screen (except Devil/Saltbaker).
    ///
    /// It can be useful to split after the scorecard since it varies
    /// depending on what you do in the fight (parries, health, star skip).
    AfterScorecard,
    /// Split after the scorecard screen (except Devil only).
    ///
    /// Like after scorecard, but *also* splits after scorecard for Saltbaker.
    /// Useful for runs that continue after saltbaker.
    AfterScorecardIncludingSaltbaker,
}

impl Default for LevelCompleteSetting {
    fn default() -> (setting: Self)
        ensures
            setting == LevelCompleteSetting::AfterScorecard,
    {
        LevelCompleteSetting::AfterScorecard
    }
}

impl LevelCompleteSetting {
    /// Whether `level` has no scorecard to wait for: the run ends with it, or
    /// the game shows none after it.
    pub open spec fn ends_without_scorecard(level: Levels) -> bool {
        ||| level == Levels::Devil
        ||| level == Levels::Graveyard
        ||| level == Levels::Mausoleum
        ||| level.level_type() == LevelType::ChessPiece
    }

    /// Whether `level` splits on knockout under this setting.
    pub open spec fn splits_on_knockout(self, level: Levels) -> bool {
        match self {
            LevelCompleteSetting::OnKnockout => true,
            LevelCompleteSetting::AfterScorecard => level == Levels::Saltbaker
                || Self::ends_without_scorecard(level),
            LevelCompleteSetting::AfterScorecardIncludingSaltbaker => Self::ends_without_scorecard(
                level,
            ),
        }
    }

    /// Whether `level` splits on knockout under this setting, whatever the
    /// setting says of scorecards.
    pub fn should_split_on_knockout(&self, level: Levels) -> (on_knockout: bool)
        ensures
            on_knockout == self.splits_on_knockout(level),
    {
        match self {
            LevelCompleteSetting::OnKnockout => true,
            // for these, which levels override the setting and split on knockout anyways?
            // devil: runs end on devil
            // mausoleum: no scorecard
            // saltbaker: only if the run stops at saltbaker
            // chess pieces: no scorecard
            // angel/devil: no scorecard
            LevelCompleteSetting::AfterScorecard => {
                level == Levels::Devil || level == Levels::Saltbaker || level == Levels::Graveyard
                    || level == Levels::Mausoleum || level.get_type() == LevelType::ChessPiece
            },
            LevelCompleteSetting::AfterScorecardIncludingSaltbaker => {
                level == Levels::Devil || level == Levels::Graveyard || level == Levels::Mausoleum
                    || level.get_type() == LevelType::ChessPiece
            },
        }
    }
}

/// When the pieces of the chess gauntlet split.
#[derive(Clone, Copy, Debug, PartialEq, Eq, Structural)]
pub enum ChessPieceSetting {
    /// On completion of each piece
    EachPiece,
    /// On gauntlet completion (i.e. Queen only)
    GauntletOnly,
    /// Never
    Never,
}

impl Default for ChessPieceSetting {
    fn default() -> (setting: Self)
        ensures
            setting == ChessPieceSetting::EachPiece,
    {
        ChessPieceSetting::EachPiece
    }
}

/// All that the runner chooses.
#[derive(Clone, Copy, Debug)]
pub struct Settings {
    /// Individual Level Mode
    ///
    /// Use in-game-time, start time on each level attempt, reset when a level
    /// is reset or is left.
    pub individual_level_mode: bool,
    /// Choose how to split on level complete (ignored when individual level
    /// mode is on)
    ///
    /// This only matters for levels which have a scorecard.
    pub split_level_complete: LevelCompleteSetting,
    /// Automatically reset the timer on the Title Screen
    ///
    /// This won't occur after every split has been completed.
    pub auto_reset: bool,
    /// Display Star Skip Counter in decimal notation (half = 0.5, full = 1.0)
    ///
    /// For expert mode, 1 star = 0.33, 2 stars = 0.66, 3 stars = 1.0.
    /// If unchecked, each Partial Star Skipped will add 1 to the counter for
    /// each star that was skipped.
    pub display_star_skip_counter_as_decimal: bool,
    /// Split on boss + run'n'gun completions
    pub split_boss_completion: bool,
    /// Split on taking the Devil's deal (for Bad Ending)
    ///
    /// You can generally leave this on, since it won't have any affect if you
    /// don't take the deal.
    pub split_devil_deal: bool,
    /// Split on King Dice contract cutscene (for Simple runs)
    ///
    /// For Simple runs, this is time end. Note you should make sure this is
    /// OFF for Regular runs. It will split on the cutscene before KD (they
    /// are the same scene).
    pub split_kd_contract_cutscene: bool,
    /// Split on mausoleums
    pub split_mausoleum_completion: bool,
    /// Split on tutorial completes
    ///
    /// This includes the normal tutorial and Chalice's tutorial, but not the
    /// plane one. Nobody cares about the plane one.
    pub split_tutorial: bool,
    /// Split on Highest Grade ONLY
    ///
    /// This is useful for categories such as All S+P Grades
    pub split_highest_grade: bool,
    /// Split on the gauntlet
    pub split_chess: ChessPieceSetting,
}

impl Default for Settings {
    /// What is chosen until the runner chooses otherwise.
    fn default() -> (settings: Self)
        ensures
            settings == (Settings {
                individual_level_mode: false,
                split_level_complete: LevelCompleteSetting::AfterScorecard,
                auto_reset: false,
                display_star_skip_counter_as_decimal: true,
                split_boss_completion: true,
                split_devil_deal: true,
                split_kd_contract_cutscene: false,
                split_mausoleum_completion: true,
                split_tutorial: false,
                split_highest_grade: false,
                split_chess: ChessPieceSetting::EachPiece,
            }),
    {
        Settings {
            individual_level_mode: false,
            split_level_complete: LevelCompleteSetting::AfterScorecard,
            auto_reset: false,
            display_star_skip_counter_as_decimal: true,
            split_boss_completion: true,
            split_devil_deal: true,
            split_kd_contract_cutscene: false,
            split_mausoleum_completion: true,
            split_tutorial: false,
            split_highest_grade: false,
            split_chess: ChessPieceSetting::EachPiece,
        }
    }
}

} // verus!
