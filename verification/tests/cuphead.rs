use autosplitters::cuphead::classes::SceneLoader;
use autosplitters::cuphead::enums::{Grade, LevelType, Levels};
use autosplitters::cuphead::memory::Offsets;
use autosplitters::cuphead::rules::{
    closing_actions, game_time_actions, idle_actions, is_scene, level_is_resetting,
    opening_actions, running_actions, should_reset, should_split, should_start, split_rule,
    start_actions, watches_star_skip, MeasuredState, Mode, SplitEvidence, SplitRule,
    StartEvidence,
    SCENE_CUTSCENE_DEVIL, SCENE_CUTSCENE_INTRO, SCENE_CUTSCENE_KING_DICE_CONTRACT,
    SCENE_SCOREBOARD, SCENE_TITLE_SCREEN, STAR_SKIP_TIME_FIRST, STAR_SKIP_TIME_SECOND,
    STAR_SKIP_TIME_THIRD,
};
use autosplitters::cuphead::settings::{ChessPieceSetting, LevelCompleteSetting, Settings};
use autosplitters::timer::{TimerAction, TimerState};
use autosplitters::watchers::pointer_path::PointerSize;

fn evidence() -> SplitEvidence {
    SplitEvidence {
        previous_scene: String::new(),
        scene_changed: false,
        devil_deal_changed: false,
        devil_deal_active: false,
        level_won: false,
        level_won_before: None,
        level_grade: Grade::DMinus,
        level_difficulty: Mode::Unknown,
        was_on_scorecard: false,
        done_loading_changed: false,
        is_loading: false,
    }
}

#[allow(clippy::too_many_arguments)]
fn start(
    in_game: bool,
    done_loading: bool,
    done_loading_before: Option<bool>,
    level_time_was_zero: bool,
    level_time_is_running: bool,
    level_is_dice: bool,
    scoring_time_is_zero: bool,
) -> StartEvidence {
    StartEvidence {
        in_game,
        done_loading,
        done_loading_before,
        level_time_was_zero,
        level_time_is_running,
        level_is_dice,
        scoring_time_is_zero,
    }
}

fn scene(name: &str) -> String {
    name.to_string()
}

#[test]
fn levels_have_the_numbers_of_the_game() {
    assert_eq!(Levels::Tutorial.to_bits(), 0);
    assert_eq!(Levels::Test.to_bits(), 1);
    assert_eq!(Levels::Unknown.to_bits(), 69);
    assert_eq!(Levels::Veggies.to_bits(), 6);
    assert_eq!(Levels::Devil.to_bits(), 1466688317);
    assert_eq!(Levels::Saltbaker.to_bits(), 1573044456);
    assert_eq!(Levels::Platforming_Level_2_1.to_bits(), 1499704951);
    assert_eq!(Levels::ChessCastle.to_bits(), 1624358789);
}

#[test]
fn from_bits_knows_every_level_and_nothing_else() {
    assert_eq!(Levels::from_bits(0), Some(Levels::Tutorial));
    assert_eq!(Levels::from_bits(2), Some(Levels::Pirate));
    assert_eq!(Levels::from_bits(69), Some(Levels::Unknown));
    assert_eq!(Levels::from_bits(1616405510), Some(Levels::Graveyard));
    assert_eq!(Levels::from_bits(4), None);
    assert_eq!(Levels::from_bits(9), None);
    assert_eq!(Levels::from_bits(u32::MAX), None);
    let mut known = 0;
    for bits in 0..100u32 {
        if let Some(level) = Levels::from_bits(bits) {
            assert_eq!(level.to_bits(), bits);
            known += 1;
        }
    }
    assert_eq!(known, 9);
}

#[test]
fn defaults_are_the_unknowns() {
    assert_eq!(Levels::default(), Levels::Unknown);
    assert_eq!(LevelType::default(), LevelType::Unknown);
    assert_eq!(Mode::default(), Mode::Unknown);
    assert_eq!(LevelCompleteSetting::default(), LevelCompleteSetting::AfterScorecard);
    assert_eq!(ChessPieceSetting::default(), ChessPieceSetting::EachPiece);
}

#[test]
fn levels_fall_into_their_kinds() {
    assert_eq!(Levels::Tutorial.get_type(), LevelType::Tutorial);
    assert_eq!(Levels::ChaliceTutorial.get_type(), LevelType::Tutorial);
    assert_eq!(Levels::ShmupTutorial.get_type(), LevelType::Unknown);
    assert_eq!(Levels::Mausoleum.get_type(), LevelType::Mausoleum);
    assert_eq!(Levels::Veggies.get_type(), LevelType::Boss);
    assert_eq!(Levels::DicePalaceMain.get_type(), LevelType::Boss);
    assert_eq!(Levels::DicePalaceBooze.get_type(), LevelType::Unknown);
    assert_eq!(Levels::Graveyard.get_type(), LevelType::Boss);
    assert_eq!(Levels::Platforming_Level_3_2.get_type(), LevelType::Platformer);
    assert_eq!(Levels::ChessQueen.get_type(), LevelType::ChessPiece);
    assert_eq!(Levels::ChessKing.get_type(), LevelType::Unknown);
    assert_eq!(Levels::ChessCastle.get_type(), LevelType::Unknown);
    assert_eq!(Levels::Unknown.get_type(), LevelType::Unknown);
}

#[test]
fn tutorials_are_completed_by_leaving_them() {
    let (from, to) = Levels::Tutorial.split_on_scene_transition_to().unwrap();
    assert_eq!(from, "scene_level_tutorial");
    assert_eq!(to.len(), 2);
    assert!(to.contains(&"scene_level_house_elder_kettle"));
    assert!(to.contains(&"scene_map_world_1"));
    let (from, to) = Levels::ChaliceTutorial.split_on_scene_transition_to().unwrap();
    assert_eq!(from, "scene_level_chalice_tutorial");
    assert_eq!(to, vec!["scene_map_world_DLC"]);
    assert!(Levels::Veggies.split_on_scene_transition_to().is_none());
    assert!(Levels::ShmupTutorial.split_on_scene_transition_to().is_none());
}

#[test]
fn split_is_enabled_by_the_setting_of_the_kind() {
    let mut settings = Settings::default();
    assert!(Levels::Veggies.is_split_enabled(&settings));
    assert!(Levels::Platforming_Level_1_1.is_split_enabled(&settings));
    assert!(Levels::Mausoleum.is_split_enabled(&settings));
    assert!(!Levels::Tutorial.is_split_enabled(&settings));
    assert!(Levels::ChessPawn.is_split_enabled(&settings));
    assert!(!Levels::Unknown.is_split_enabled(&settings));
    settings.split_boss_completion = false;
    settings.split_tutorial = true;
    settings.split_mausoleum_completion = false;
    assert!(!Levels::Veggies.is_split_enabled(&settings));
    assert!(!Levels::Platforming_Level_1_1.is_split_enabled(&settings));
    assert!(!Levels::Mausoleum.is_split_enabled(&settings));
    assert!(Levels::Tutorial.is_split_enabled(&settings));
    settings.split_chess = ChessPieceSetting::GauntletOnly;
    assert!(!Levels::ChessPawn.is_split_enabled(&settings));
    assert!(Levels::ChessQueen.is_split_enabled(&settings));
    settings.split_chess = ChessPieceSetting::Never;
    assert!(!Levels::ChessQueen.is_split_enabled(&settings));
}

#[test]
fn knockout_overrides_the_scorecard_where_there_is_none() {
    let on_knockout = LevelCompleteSetting::OnKnockout;
    let after = LevelCompleteSetting::AfterScorecard;
    let including = LevelCompleteSetting::AfterScorecardIncludingSaltbaker;
    assert!(on_knockout.should_split_on_knockout(Levels::Veggies));
    assert!(!after.should_split_on_knockout(Levels::Veggies));
    assert!(!including.should_split_on_knockout(Levels::Veggies));
    for level in [Levels::Devil, Levels::Graveyard, Levels::Mausoleum, Levels::ChessRook] {
        assert!(after.should_split_on_knockout(level));
        assert!(including.should_split_on_knockout(level));
    }
    assert!(after.should_split_on_knockout(Levels::Saltbaker));
    assert!(!including.should_split_on_knockout(Levels::Saltbaker));
    assert!(!after.should_split_on_knockout(Levels::ChessKing));
}

#[test]
fn default_settings_are_the_documented_ones() {
    let settings = Settings::default();
    assert!(!settings.individual_level_mode);
    assert_eq!(settings.split_level_complete, LevelCompleteSetting::AfterScorecard);
    assert!(!settings.auto_reset);
    assert!(settings.display_star_skip_counter_as_decimal);
    assert!(settings.split_boss_completion);
    assert!(settings.split_devil_deal);
    assert!(!settings.split_kd_contract_cutscene);
    assert!(settings.split_mausoleum_completion);
    assert!(!settings.split_tutorial);
    assert!(!settings.split_highest_grade);
    assert_eq!(settings.split_chess, ChessPieceSetting::EachPiece);
}

#[test]
fn string_contents_depend_on_the_pointer_size() {
    assert_eq!(Offsets::new(PointerSize::Bit64).string_contents, "0x14");
    assert_eq!(Offsets::new(PointerSize::Bit32).string_contents, "0xC");
    assert_eq!(Offsets::new(PointerSize::Bit16).string_contents, "0x0");
}

#[test]
fn scene_loader_holds_the_flag() {
    let loader = SceneLoader { is_loading: true };
    assert!(loader.is_loading);
}

#[test]
fn scenes_are_told_by_name() {
    assert!(is_scene(&scene("scene_win"), SCENE_SCOREBOARD));
    assert!(!is_scene(&scene("scene_win2"), SCENE_SCOREBOARD));
    assert!(!is_scene(&scene(""), SCENE_TITLE_SCREEN));
    assert_eq!(SCENE_CUTSCENE_INTRO, "scene_cutscene_intro");
    assert_eq!(SCENE_CUTSCENE_KING_DICE_CONTRACT, "scene_cutscene_kingdice");
    assert_eq!(SCENE_CUTSCENE_DEVIL, "scene_cutscene_devil");
    assert_eq!(SCENE_TITLE_SCREEN, "scene_title");
}

#[test]
fn dice_palace_resets_on_the_first_space_while_loading() {
    assert!(level_is_resetting(true, 0, true, Some(false), false, false));
    assert!(!level_is_resetting(true, 1, true, Some(false), true, true));
    assert!(!level_is_resetting(true, 0, false, Some(false), true, true));
    assert!(!level_is_resetting(true, 0, true, Some(true), true, true));
    assert!(!level_is_resetting(true, 0, true, None, true, true));
}

#[test]
fn other_levels_reset_when_the_clock_is_back_at_zero() {
    assert!(level_is_resetting(false, 5, false, None, true, true));
    assert!(!level_is_resetting(false, 0, true, Some(false), false, true));
    assert!(!level_is_resetting(false, 0, true, Some(false), true, false));
}

#[test]
fn run_starts_when_the_intro_starts_loading() {
    let settings = Settings::default();
    let intro = scene(SCENE_CUTSCENE_INTRO);
    assert!(should_start(&settings, &intro, true, false, Some(true), false, false, false, false));
    // not in a game, loading done, loading not new, or another scene
    assert!(!should_start(&settings, &intro, false, false, Some(true), false, false, false, false));
    assert!(!should_start(&settings, &intro, true, true, Some(true), false, false, false, false));
    assert!(!should_start(&settings, &intro, true, false, Some(false), false, false, false, false));
    assert!(!should_start(&settings, &intro, true, false, None, false, false, false, false));
    let map = scene("scene_map_world_1");
    assert!(!should_start(&settings, &map, true, false, Some(true), true, true, false, true));
}

#[test]
fn loading_that_ends_elsewhere_starts_nothing() {
    // the loading flag went from loading to done outside of the intro
    let settings = Settings::default();
    let map = scene("scene_map_world_1");
    assert!(!should_start(&settings, &map, true, true, Some(false), false, false, false, false));
    assert_eq!(game_time_actions(&settings, false), vec![TimerAction::ResumeGameTime]);
}

#[test]
fn individual_levels_start_with_the_clock_of_the_level() {
    let mut settings = Settings::default();
    settings.individual_level_mode = true;
    let level = scene("scene_level_veggies");
    assert!(should_start(&settings, &level, true, true, Some(true), true, true, false, false));
    assert!(!should_start(&settings, &level, true, true, Some(true), false, true, false, false));
    assert!(!should_start(&settings, &level, true, true, Some(true), true, false, false, false));
    // in the dice palace only while nothing is on the scorecard
    assert!(should_start(&settings, &level, true, true, Some(true), true, true, true, true));
    assert!(!should_start(&settings, &level, true, true, Some(true), true, true, true, false));
}

#[test]
fn start_stops_game_time_first() {
    assert_eq!(start_actions(), vec![TimerAction::PauseGameTime, TimerAction::Start]);
}

#[test]
fn game_time_follows_loading() {
    let mut settings = Settings::default();
    assert_eq!(game_time_actions(&settings, true), vec![TimerAction::PauseGameTime]);
    assert_eq!(game_time_actions(&settings, false), vec![TimerAction::ResumeGameTime]);
    settings.individual_level_mode = true;
    let set = vec![TimerAction::PauseGameTime, TimerAction::SetGameTime];
    assert_eq!(game_time_actions(&settings, true), set);
    assert_eq!(game_time_actions(&settings, false), set);
}

#[test]
fn rule_is_chosen_by_scene_then_level_then_setting() {
    let mut settings = Settings::default();
    let contract = scene(SCENE_CUTSCENE_KING_DICE_CONTRACT);
    let devil = scene(SCENE_CUTSCENE_DEVIL);
    let other = scene("scene_level_veggies");
    assert_eq!(split_rule(&contract, Levels::Tutorial, &settings), SplitRule::KingDiceContract);
    assert_eq!(split_rule(&devil, Levels::Tutorial, &settings), SplitRule::DevilDeal);
    assert_eq!(split_rule(&other, Levels::Tutorial, &settings), SplitRule::SceneTransition);
    assert_eq!(split_rule(&other, Levels::ChaliceTutorial, &settings), SplitRule::SceneTransition);
    assert_eq!(split_rule(&other, Levels::Veggies, &settings), SplitRule::AfterScorecard);
    assert_eq!(split_rule(&other, Levels::Devil, &settings), SplitRule::Knockout);
    settings.split_level_complete = LevelCompleteSetting::OnKnockout;
    assert_eq!(split_rule(&other, Levels::Veggies, &settings), SplitRule::Knockout);
    settings.split_level_complete = LevelCompleteSetting::AfterScorecard;
    settings.individual_level_mode = true;
    assert_eq!(split_rule(&other, Levels::Veggies, &settings), SplitRule::Knockout);
}

#[test]
fn contract_cutscene_splits_once_on_entry() {
    let mut settings = Settings::default();
    let contract = scene(SCENE_CUTSCENE_KING_DICE_CONTRACT);
    let mut seen = evidence();
    seen.previous_scene = scene("scene_level_train");
    assert!(!should_split(&contract, Levels::Train, &settings, &seen));
    settings.split_kd_contract_cutscene = true;
    assert!(should_split(&contract, Levels::Train, &settings, &seen));
    seen.previous_scene = contract.clone();
    assert!(!should_split(&contract, Levels::Train, &settings, &seen));
}

#[test]
fn devil_deal_splits_when_the_ending_turns_active() {
    let mut settings = Settings::default();
    let devil = scene(SCENE_CUTSCENE_DEVIL);
    let mut seen = evidence();
    seen.devil_deal_changed = true;
    seen.devil_deal_active = true;
    assert!(should_split(&devil, Levels::Devil, &settings, &seen));
    seen.devil_deal_changed = false;
    assert!(!should_split(&devil, Levels::Devil, &settings, &seen));
    seen.devil_deal_changed = true;
    seen.devil_deal_active = false;
    assert!(!should_split(&devil, Levels::Devil, &settings, &seen));
    seen.devil_deal_active = true;
    settings.split_devil_deal = false;
    assert!(!should_split(&devil, Levels::Devil, &settings, &seen));
}

#[test]
fn tutorial_splits_when_it_is_left_for_the_right_scene() {
    let mut settings = Settings::default();
    settings.split_tutorial = true;
    let mut seen = evidence();
    seen.scene_changed = true;
    seen.previous_scene = scene("scene_level_tutorial");
    assert!(should_split(&scene("scene_map_world_1"), Levels::Tutorial, &settings, &seen));
    assert!(should_split(&scene("scene_level_house_elder_kettle"), Levels::Tutorial, &settings, &seen));
    assert!(!should_split(&scene("scene_title"), Levels::Tutorial, &settings, &seen));
    assert!(!should_split(&scene("scene_map_world_DLC"), Levels::Tutorial, &settings, &seen));
    seen.previous_scene = scene("scene_level_chalice_tutorial");
    assert!(should_split(&scene("scene_map_world_DLC"), Levels::ChaliceTutorial, &settings, &seen));
    assert!(!should_split(&scene("scene_map_world_1"), Levels::Tutorial, &settings, &seen));
    seen.previous_scene = scene("scene_level_tutorial");
    seen.scene_changed = false;
    assert!(!should_split(&scene("scene_map_world_1"), Levels::Tutorial, &settings, &seen));
    seen.scene_changed = true;
    settings.split_tutorial = false;
    assert!(!should_split(&scene("scene_map_world_1"), Levels::Tutorial, &settings, &seen));
}

#[test]
fn knockout_splits_when_the_level_turns_won() {
    let mut settings = Settings::default();
    settings.split_level_complete = LevelCompleteSetting::OnKnockout;
    let level = scene("scene_level_veggies");
    let mut seen = evidence();
    seen.level_won = true;
    seen.level_won_before = Some(false);
    assert!(should_split(&level, Levels::Veggies, &settings, &seen));
    seen.level_won_before = Some(true);
    assert!(!should_split(&level, Levels::Veggies, &settings, &seen));
    seen.level_won_before = None;
    assert!(!should_split(&level, Levels::Veggies, &settings, &seen));
    seen.level_won_before = Some(false);
    seen.level_won = false;
    assert!(!should_split(&level, Levels::Veggies, &settings, &seen));
    seen.level_won = true;
    settings.split_boss_completion = false;
    assert!(!should_split(&level, Levels::Veggies, &settings, &seen));
    settings.split_boss_completion = true;
    settings.split_highest_grade = true;
    assert!(!should_split(&level, Levels::Veggies, &settings, &seen));
    seen.level_grade = Grade::APlus;
    seen.level_difficulty = Mode::Normal;
    assert!(should_split(&level, Levels::Veggies, &settings, &seen));
}

#[test]
fn scorecard_splits_when_loading_starts_after_it() {
    let mut settings = Settings::default();
    let map = scene("scene_map_world_1");
    let mut seen = evidence();
    seen.was_on_scorecard = true;
    seen.done_loading_changed = true;
    seen.is_loading = true;
    assert!(should_split(&map, Levels::Veggies, &settings, &seen));
    // a win alone does not split under this rule
    let mut won = evidence();
    won.level_won = true;
    won.level_won_before = Some(false);
    assert!(!should_split(&map, Levels::Veggies, &settings, &won));
    seen.was_on_scorecard = false;
    assert!(!should_split(&map, Levels::Veggies, &settings, &seen));
    seen.was_on_scorecard = true;
    seen.is_loading = false;
    assert!(!should_split(&map, Levels::Veggies, &settings, &seen));
    seen.is_loading = true;
    seen.done_loading_changed = false;
    assert!(!should_split(&map, Levels::Veggies, &settings, &seen));
    seen.done_loading_changed = true;
    settings.split_highest_grade = true;
    assert!(!should_split(&map, Levels::Veggies, &settings, &seen));
    seen.level_grade = Grade::APlus;
    seen.level_difficulty = Mode::Normal;
    assert!(should_split(&map, Levels::Veggies, &settings, &seen));
    assert!(!should_split(&map, Levels::Unknown, &settings, &seen));
}

#[test]
fn timer_resets_on_the_title_screen_or_with_the_level() {
    let mut settings = Settings::default();
    let title = scene(SCENE_TITLE_SCREEN);
    let level = scene("scene_level_veggies");
    assert!(!should_reset(&title, &settings, false));
    assert!(!should_reset(&level, &settings, true));
    settings.auto_reset = true;
    assert!(should_reset(&title, &settings, false));
    assert!(!should_reset(&level, &settings, false));
    settings.auto_reset = false;
    settings.individual_level_mode = true;
    assert!(should_reset(&level, &settings, true));
    assert!(!should_reset(&level, &settings, false));
}

#[test]
fn scorecard_is_noted_when_it_is_left_and_until_loading_starts() {
    let mut state = MeasuredState::default();
    state.note_scene(&scene("scene_level_veggies"), &scene("scene_win"));
    assert!(!state.was_on_scorecard);
    state.note_scene(&scene("scene_win"), &scene("scene_win"));
    assert!(!state.was_on_scorecard);
    state.note_scene(&scene("scene_win"), &scene("scene_map_world_1"));
    assert!(state.was_on_scorecard);
    state.note_scene(&scene("scene_map_world_1"), &scene("scene_map_world_1"));
    assert!(state.was_on_scorecard);
    state.note_loading(true, false);
    assert!(state.was_on_scorecard);
    state.note_loading(false, true);
    assert!(state.was_on_scorecard);
    state.note_loading(true, true);
    assert!(!state.was_on_scorecard);
    state.note_loading(true, true);
    assert!(!state.was_on_scorecard);
}

#[test]
fn scoring_time_counts_until_the_level_changes_or_resets() {
    let mut state = MeasuredState::default();
    assert!(state.level_time_counts());
    assert!(!state.note_scoring_time(true, false));
    assert!(!state.note_scoring_time(false, true));
    assert!(state.level_time_counts());
    assert!(state.note_scoring_time(true, true));
    assert!(!state.level_time_counts());
    assert!(!state.note_scoring_time(false, false));
    assert!(!state.level_time_counts());
    state.note_level(false, false);
    assert!(!state.level_time_counts());
    state.note_level(true, false);
    assert!(state.level_time_counts());
    assert!(state.note_scoring_time(true, true));
    state.note_level(false, true);
    assert!(state.level_time_counts());
}

#[test]
fn star_skip_is_watched_on_the_scorecard_of_a_run() {
    assert!(watches_star_skip(TimerState::Running, &scene("scene_win")));
    assert!(!watches_star_skip(TimerState::NotRunning, &scene("scene_win")));
    assert!(!watches_star_skip(TimerState::Paused, &scene("scene_win")));
    assert!(!watches_star_skip(TimerState::Running, &scene("scene_map_world_1")));
}

fn skipped(mode: Mode, elapsed: u64) -> (i32, i32) {
    let mut state = MeasuredState::default();
    state.monitor_star_skip(true, false, mode, 1_000);
    state.monitor_star_skip(true, true, mode, 1_000 + elapsed);
    assert_eq!(state.difficulty_ticker_start_time, Some(1_000));
    assert_eq!(state.difficulty_ticker_end_time, Some(1_000 + elapsed));
    (state.star_skip_counter, state.star_skip_counter_decimal)
}

#[test]
fn star_skip_awards_by_difficulty_and_time() {
    assert_eq!(STAR_SKIP_TIME_FIRST, 100_000_000);
    assert_eq!(STAR_SKIP_TIME_SECOND, 600_000_000);
    assert_eq!(STAR_SKIP_TIME_THIRD, 1_100_000_000);
    assert_eq!(skipped(Mode::Easy, 0), (1, 6));
    assert_eq!(skipped(Mode::Easy, 99_999_999), (1, 6));
    assert_eq!(skipped(Mode::Easy, 100_000_000), (0, 0));
    assert_eq!(skipped(Mode::Normal, 99_999_999), (2, 6));
    assert_eq!(skipped(Mode::Normal, 100_000_000), (1, 3));
    assert_eq!(skipped(Mode::Normal, 599_999_999), (1, 3));
    assert_eq!(skipped(Mode::Normal, 600_000_000), (0, 0));
    assert_eq!(skipped(Mode::Hard, 99_999_999), (3, 6));
    assert_eq!(skipped(Mode::Hard, 100_000_000), (2, 4));
    assert_eq!(skipped(Mode::Hard, 599_999_999), (2, 4));
    assert_eq!(skipped(Mode::Hard, 600_000_000), (1, 2));
    assert_eq!(skipped(Mode::Hard, 1_099_999_999), (1, 2));
    assert_eq!(skipped(Mode::Hard, 1_100_000_000), (0, 0));
    assert_eq!(skipped(Mode::Unknown, 0), (0, 0));
}

#[test]
fn ticker_is_awarded_once_and_forgotten_when_it_stops() {
    let mut state = MeasuredState::default();
    // seen done on the very tick on which it is first seen counting
    state.monitor_star_skip(true, true, Mode::Hard, 500);
    assert_eq!((state.star_skip_counter, state.star_skip_counter_decimal), (3, 6));
    state.monitor_star_skip(true, true, Mode::Hard, 600);
    assert_eq!((state.star_skip_counter, state.star_skip_counter_decimal), (3, 6));
    assert_eq!(state.difficulty_ticker_end_time, Some(500));
    state.monitor_star_skip(false, false, Mode::Hard, 700);
    assert_eq!(state.difficulty_ticker_start_time, None);
    assert_eq!(state.difficulty_ticker_end_time, None);
    assert_eq!((state.star_skip_counter, state.star_skip_counter_decimal), (3, 6));
    // the next scorecard counts again
    state.monitor_star_skip(true, false, Mode::Normal, 1_000);
    state.monitor_star_skip(true, true, Mode::Normal, 200_001_000);
    assert_eq!((state.star_skip_counter, state.star_skip_counter_decimal), (4, 9));
    state.clear_star_skips();
    assert_eq!((state.star_skip_counter, state.star_skip_counter_decimal), (0, 0));
    assert_eq!(state.difficulty_ticker_end_time, Some(200_001_000));
}

#[test]
fn clock_that_went_back_counts_as_no_time() {
    let mut state = MeasuredState::default();
    state.monitor_star_skip(true, false, Mode::Easy, 5_000_000_000);
    state.monitor_star_skip(true, true, Mode::Easy, 4_000_000_000);
    assert_eq!((state.star_skip_counter, state.star_skip_counter_decimal), (1, 6));
}

#[test]
fn counters_have_room_until_they_are_nearly_full() {
    let mut state = MeasuredState::default();
    assert!(state.room_for_award());
    state.star_skip_counter = i32::MAX - 3;
    state.star_skip_counter_decimal = i32::MAX - 6;
    assert!(state.room_for_award());
    state.monitor_star_skip(true, true, Mode::Hard, 0);
    assert_eq!(state.star_skip_counter, i32::MAX);
    assert_eq!(state.star_skip_counter_decimal, i32::MAX);
    assert!(!state.room_for_award());
    state.star_skip_counter = 0;
    assert!(!state.room_for_award());
    state.star_skip_counter_decimal = i32::MAX - 6;
    state.star_skip_counter = i32::MAX - 2;
    assert!(!state.room_for_award());
}

/// A source that always fails.
struct Never;

impl<T> autosplitters::ValueGetter<T> for Never {
    fn get(&mut self) -> Result<T, autosplitters::WatchError> {
        Err(autosplitters::WatchError::Unreadable)
    }
}

/// A source that always gives the same value.
struct Always<T>(T);

impl<T: Copy> autosplitters::ValueGetter<T> for Always<T> {
    fn get(&mut self) -> Result<T, autosplitters::WatchError> {
        Ok(self.0)
    }
}

fn unreadable() -> autosplitters::cuphead::memory::Sources<'static, u32, u64, u64, u8> {
    autosplitters::cuphead::memory::Sources {
        done_loading: Box::new(Never),
        insta: Box::new(Never),
        scene: Box::new(Never),
        in_game: Box::new(Never),
        level: Box::new(Never),
        level_won: Box::new(Never),
        level_ending: Box::new(Never),
        level_time: Box::new(Never),
        level_grade: Box::new(Never),
        level_difficulty: Box::new(Never),
        lsd_time: Box::new(Never),
        kd_spaces_moved: Box::new(Never),
        level_is_dice: Box::new(Never),
        level_is_dice_main: Box::new(Never),
        devil_bad_ending_active: Box::new(Never),
        difficulty_ticker_started_counting: Box::new(Never),
        difficulty_ticker_finished_counting: Box::new(Never),
    }
}

#[test]
fn memory_that_cannot_be_read_reads_as_its_fallbacks() {
    let mut memory = autosplitters::cuphead::memory::Memory::new(unreadable()).unwrap();
    assert_eq!(memory.done_loading.current().unwrap(), true);
    assert_eq!(memory.is_loading().unwrap(), false);
    assert_eq!(memory.insta.current().unwrap(), 0);
    assert_eq!(memory.scene.current().unwrap(), 0);
    assert_eq!(memory.in_game.current().unwrap(), false);
    assert_eq!(memory.level.current().unwrap(), Levels::Unknown);
    assert_eq!(memory.level_won.current().unwrap(), false);
    assert_eq!(memory.level_ending.current().unwrap(), false);
    assert_eq!(memory.level_time.current().unwrap(), 0);
    assert_eq!(memory.level_grade.current().unwrap(), 0);
    assert_eq!(memory.level_difficulty.current().unwrap(), Mode::Unknown);
    assert_eq!(memory.lsd_time.current().unwrap(), 0);
    assert_eq!(memory.kd_spaces_moved.current().unwrap(), 0);
    assert_eq!(memory.level_is_dice.current().unwrap(), false);
    assert_eq!(memory.level_is_dice_main.current().unwrap(), false);
    assert_eq!(memory.devil_bad_ending_active.current().unwrap(), false);
    assert_eq!(memory.difficulty_ticker_started_counting.current().unwrap(), false);
    assert_eq!(memory.difficulty_ticker_finished_counting.current().unwrap(), false);
}

#[test]
fn memory_asks_each_source_for_its_own_value() {
    let mut sources = unreadable();
    sources.done_loading = Box::new(Always(false));
    sources.level = Box::new(Always(Levels::Veggies));
    sources.level_won = Box::new(Always(true));
    sources.level_time = Box::new(Always(7u32));
    sources.lsd_time = Box::new(Always(9u32));
    sources.kd_spaces_moved = Box::new(Always(-3i32));
    sources.level_difficulty = Box::new(Always(Mode::Hard));
    sources.difficulty_ticker_finished_counting = Box::new(Always(true));
    let mut memory = autosplitters::cuphead::memory::Memory::new(sources).unwrap();
    assert_eq!(memory.is_loading().unwrap(), true);
    assert_eq!(memory.done_loading.current().unwrap(), false);
    assert_eq!(memory.level.current().unwrap(), Levels::Veggies);
    assert_eq!(memory.level_won.current().unwrap(), true);
    assert_eq!(memory.level_ending.current().unwrap(), false);
    assert_eq!(memory.level_time.current().unwrap(), 7);
    assert_eq!(memory.lsd_time.current().unwrap(), 9);
    assert_eq!(memory.kd_spaces_moved.current().unwrap(), -3);
    assert_eq!(memory.level_difficulty.current().unwrap(), Mode::Hard);
    assert_eq!(memory.difficulty_ticker_started_counting.current().unwrap(), false);
    assert_eq!(memory.difficulty_ticker_finished_counting.current().unwrap(), true);
}

#[test]
fn memory_invalidates_every_watcher() {
    let mut sources = unreadable();
    sources.level = Box::new(Always(Levels::Veggies));
    let mut memory = autosplitters::cuphead::memory::Memory::new(sources).unwrap();
    assert_eq!(memory.is_loading().unwrap(), false);
    assert_eq!(memory.level.current().unwrap(), Levels::Veggies);
    assert_eq!(memory.lsd_time.current().unwrap(), 0);
    assert_eq!(memory.difficulty_ticker_finished_counting.current().unwrap(), false);
    memory.invalidate();
    assert_eq!(memory.done_loading.previous(), Some(true));
    assert_eq!(memory.level.previous(), Some(Levels::Veggies));
    assert_eq!(memory.lsd_time.previous(), Some(0));
    assert_eq!(memory.difficulty_ticker_finished_counting.previous(), Some(false));
    // what was not read in the tick has no previous value
    assert_eq!(memory.level_won.previous(), None);
    assert_eq!(memory.level_time.previous(), None);
    assert_eq!(memory.level.changed().unwrap(), false);
}

#[test]
fn running_tick_sees_to_game_time_then_splits_then_resets() {
    let mut settings = Settings::default();
    settings.split_level_complete = LevelCompleteSetting::OnKnockout;
    let level = scene("scene_level_veggies");
    let mut seen = evidence();
    assert_eq!(
        running_actions(TimerState::Running, &level, Levels::Veggies, &settings, &seen, false, false),
        vec![TimerAction::ResumeGameTime]
    );
    assert_eq!(
        running_actions(TimerState::Running, &level, Levels::Veggies, &settings, &seen, true, true),
        vec![TimerAction::PauseGameTime]
    );
    seen.level_won = true;
    seen.level_won_before = Some(false);
    assert_eq!(
        running_actions(TimerState::Running, &level, Levels::Veggies, &settings, &seen, false, false),
        vec![TimerAction::ResumeGameTime, TimerAction::Split]
    );
    settings.individual_level_mode = true;
    assert_eq!(
        running_actions(TimerState::Running, &level, Levels::Veggies, &settings, &seen, false, true),
        vec![
            TimerAction::PauseGameTime,
            TimerAction::SetGameTime,
            TimerAction::Split,
            TimerAction::Reset
        ]
    );
    settings.individual_level_mode = false;
    settings.auto_reset = true;
    assert_eq!(
        running_actions(TimerState::Running, &scene(SCENE_TITLE_SCREEN), Levels::Veggies, &settings, &evidence(), true, false),
        vec![TimerAction::PauseGameTime, TimerAction::Reset]
    );
}

#[test]
fn idle_tick_does_nothing_unless_a_run_starts() {
    let settings = Settings::default();
    let intro = scene(SCENE_CUTSCENE_INTRO);
    assert_eq!(
        idle_actions(TimerState::NotRunning, &settings, &intro, &start(true, false, Some(true), false, false, false, false)),
        vec![TimerAction::PauseGameTime, TimerAction::Start]
    );
    assert_eq!(
        idle_actions(TimerState::NotRunning, &settings, &intro, &start(true, true, Some(false), false, false, false, false)),
        Vec::<TimerAction>::new()
    );
    let map = scene("scene_map_world_1");
    assert_eq!(
        idle_actions(TimerState::NotRunning, &settings, &map, &start(true, false, Some(true), true, true, false, true)),
        Vec::<TimerAction>::new()
    );
}

#[test]
fn loading_flag_resumes_time_and_starts_only_in_the_intro() {
    // a flag that says "loading": true on the first tick, false on the second
    let mut sources = unreadable();
    sources.done_loading = Box::new(Script(vec![false, true], 0));
    let mut memory = autosplitters::cuphead::memory::Memory::new(sources).unwrap();
    let settings = Settings::default();
    let map = scene("scene_map_world_1");

    assert_eq!(memory.done_loading.previous(), None);
    assert_eq!(memory.is_loading().unwrap(), true);
    assert_eq!(
        running_actions(TimerState::Running, &map, Levels::Veggies, &settings, &evidence(), true, false),
        vec![TimerAction::PauseGameTime]
    );

    memory.invalidate();
    assert_eq!(memory.done_loading.previous(), Some(false));
    assert_eq!(memory.is_loading().unwrap(), false);
    assert_eq!(memory.done_loading.changed().unwrap(), true);

    // during a run, time resumes and nothing starts
    let actions = running_actions(TimerState::Running, &map, Levels::Veggies, &settings, &evidence(), false, false);
    assert_eq!(actions, vec![TimerAction::ResumeGameTime]);
    assert!(!actions.contains(&TimerAction::Start));
    // without a run, the flag that cleared starts none, not even in the intro
    let done = memory.done_loading.current().unwrap();
    let before = memory.done_loading.previous();
    assert!(idle_actions(TimerState::NotRunning, &settings, &map, &start(true, done, before, false, false, false, false)).is_empty());
    let intro = scene(SCENE_CUTSCENE_INTRO);
    assert!(idle_actions(TimerState::NotRunning, &settings, &intro, &start(true, done, before, false, false, false, false)).is_empty());
    // a run starts where the scene watcher reports the intro as loading begins
    assert_eq!(
        idle_actions(TimerState::NotRunning, &settings, &intro, &start(true, false, Some(true), false, false, false, false)),
        vec![TimerAction::PauseGameTime, TimerAction::Start]
    );
    assert!(idle_actions(TimerState::NotRunning, &settings, &map, &start(true, false, Some(true), false, false, false, false)).is_empty());
}

/// A source that answers from a list, and fails past its end.
struct Script<T>(Vec<T>, usize);

impl<T: Copy> autosplitters::ValueGetter<T> for Script<T> {
    fn get(&mut self) -> Result<T, autosplitters::WatchError> {
        let answer = self.0.get(self.1).copied().ok_or(autosplitters::WatchError::Unreadable);
        self.1 += 1;
        answer
    }
}

#[test]
fn ticker_that_is_not_counting_needs_no_room() {
    let mut state = MeasuredState::default();
    state.star_skip_counter = i32::MAX;
    state.star_skip_counter_decimal = i32::MAX;
    state.difficulty_ticker_start_time = Some(5);
    state.difficulty_ticker_end_time = Some(9);
    assert!(!state.room_for_award());
    assert!(!state.awards_now(false, false));
    assert!(!state.awards_now(false, true));
    state.monitor_star_skip(false, true, Mode::Hard, 10);
    assert_eq!(state.difficulty_ticker_start_time, None);
    assert_eq!(state.difficulty_ticker_end_time, None);
    assert_eq!(state.star_skip_counter, i32::MAX);
    assert_eq!(state.star_skip_counter_decimal, i32::MAX);
    // counting, and not done: the start is noted and nothing is added
    assert!(!state.awards_now(true, false));
    state.monitor_star_skip(true, false, Mode::Hard, 20);
    assert_eq!(state.difficulty_ticker_start_time, Some(20));
    assert_eq!(state.star_skip_counter, i32::MAX);
    assert!(state.awards_now(true, true));
    // done, and seen done before: nothing is added either
    state.difficulty_ticker_end_time = Some(30);
    assert!(!state.awards_now(true, true));
    state.monitor_star_skip(true, true, Mode::Hard, 40);
    assert_eq!(state.difficulty_ticker_end_time, Some(30));
    assert_eq!(state.star_skip_counter, i32::MAX);
    assert_eq!(state.star_skip_counter_decimal, i32::MAX);
}

#[test]
fn star_skips_are_cleared_while_no_run_is_under_way() {
    let mut state = MeasuredState::default();
    state.monitor_star_skip(true, true, Mode::Hard, 0);
    state.note_timer(TimerState::Running);
    assert_eq!((state.star_skip_counter, state.star_skip_counter_decimal), (3, 6));
    state.note_timer(TimerState::Paused);
    state.note_timer(TimerState::Ended);
    assert_eq!((state.star_skip_counter, state.star_skip_counter_decimal), (3, 6));
    state.note_timer(TimerState::NotRunning);
    assert_eq!((state.star_skip_counter, state.star_skip_counter_decimal), (0, 0));
    assert_eq!(state.difficulty_ticker_end_time, Some(0));
}

#[test]
fn highest_grade_depends_on_kind_and_difficulty() {
    assert_eq!(Grade::default(), Grade::DMinus);
    assert!(LevelType::Boss.is_highest_grade(Grade::BPlus, Mode::Easy));
    assert!(!LevelType::Boss.is_highest_grade(Grade::APlus, Mode::Easy));
    assert!(LevelType::Boss.is_highest_grade(Grade::APlus, Mode::Normal));
    assert!(!LevelType::Boss.is_highest_grade(Grade::A, Mode::Normal));
    assert!(!LevelType::Boss.is_highest_grade(Grade::S, Mode::Normal));
    assert!(LevelType::Boss.is_highest_grade(Grade::S, Mode::Hard));
    assert!(!LevelType::Boss.is_highest_grade(Grade::P, Mode::Hard));
    assert!(!LevelType::Boss.is_highest_grade(Grade::S, Mode::Unknown));
    assert!(LevelType::Platformer.is_highest_grade(Grade::P, Mode::Easy));
    assert!(LevelType::Platformer.is_highest_grade(Grade::P, Mode::Unknown));
    assert!(!LevelType::Platformer.is_highest_grade(Grade::S, Mode::Hard));
    for kind in [LevelType::Tutorial, LevelType::Mausoleum, LevelType::ChessPiece, LevelType::Unknown] {
        assert!(kind.is_highest_grade(Grade::DMinus, Mode::Unknown));
        assert!(kind.is_highest_grade(Grade::C, Mode::Hard));
    }
}

#[test]
fn only_the_highest_grade_splits_where_that_is_asked_for() {
    let mut settings = Settings::default();
    settings.split_level_complete = LevelCompleteSetting::OnKnockout;
    settings.split_highest_grade = true;
    let level = scene("scene_level_veggies");
    let mut seen = evidence();
    seen.level_won = true;
    seen.level_won_before = Some(false);
    seen.level_difficulty = Mode::Hard;
    seen.level_grade = Grade::APlus;
    assert!(!should_split(&level, Levels::Veggies, &settings, &seen));
    seen.level_grade = Grade::S;
    assert!(should_split(&level, Levels::Veggies, &settings, &seen));
    seen.level_difficulty = Mode::Easy;
    assert!(!should_split(&level, Levels::Veggies, &settings, &seen));
    // a mausoleum is not graded
    assert!(should_split(&level, Levels::Mausoleum, &settings, &seen));
    // a run and gun level asks for the P
    assert!(!should_split(&level, Levels::Platforming_Level_1_1, &settings, &seen));
    seen.level_grade = Grade::P;
    assert!(should_split(&level, Levels::Platforming_Level_1_1, &settings, &seen));
}

#[test]
fn parts_of_a_tick_act_in_their_state_of_the_timer_only() {
    let mut settings = Settings::default();
    settings.split_level_complete = LevelCompleteSetting::OnKnockout;
    settings.auto_reset = true;
    let title = scene(SCENE_TITLE_SCREEN);
    let intro = scene(SCENE_CUTSCENE_INTRO);
    let mut seen = evidence();
    seen.level_won = true;
    seen.level_won_before = Some(false);
    let begun = start(true, false, Some(true), false, false, false, false);
    for timer in [TimerState::NotRunning, TimerState::Paused, TimerState::Ended] {
        assert!(opening_actions(timer, &settings, true).is_empty());
        assert!(closing_actions(timer, &title, Levels::Veggies, &settings, &seen, true).is_empty());
        assert!(running_actions(timer, &title, Levels::Veggies, &settings, &seen, true, true).is_empty());
    }
    for timer in [TimerState::Running, TimerState::Paused, TimerState::Ended] {
        assert!(idle_actions(timer, &settings, &intro, &begun).is_empty());
    }
    assert_eq!(
        idle_actions(TimerState::NotRunning, &settings, &intro, &begun),
        vec![TimerAction::PauseGameTime, TimerAction::Start]
    );
    assert_eq!(opening_actions(TimerState::Running, &settings, true), vec![TimerAction::PauseGameTime]);
    assert_eq!(opening_actions(TimerState::Running, &settings, false), vec![TimerAction::ResumeGameTime]);
    assert_eq!(
        closing_actions(TimerState::Running, &title, Levels::Veggies, &settings, &seen, false),
        vec![TimerAction::Split, TimerAction::Reset]
    );
    assert_eq!(
        closing_actions(TimerState::Running, &intro, Levels::Veggies, &settings, &seen, false),
        vec![TimerAction::Split]
    );
    assert!(closing_actions(TimerState::Running, &intro, Levels::Veggies, &settings, &evidence(), false).is_empty());
    assert_eq!(
        running_actions(TimerState::Running, &title, Levels::Veggies, &settings, &seen, true, false),
        vec![TimerAction::PauseGameTime, TimerAction::Split, TimerAction::Reset]
    );
}
