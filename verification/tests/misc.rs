use autosplitters::bread_and_fred;
use autosplitters::doom_the_dark_ages::physics::IdVec3;
use autosplitters::doom_the_dark_ages::player::IdPlayer;
use autosplitters::hex::{push_digits, push_literal};
use autosplitters::timer::{TimerAction, TimerState};
use autosplitters::try_load::{
    wait_try_load, wait_try_load_millis, LoadStep, DEFAULT_COOLDOWN_MILLIS,
};
use autosplitters::watchers::gba::{narrow, narrow_path};
use autosplitters::watchers::pointer_path::{PointerPath, PointerPathReadable, PointerSize};
use autosplitters::watchers::{ValueGetter, Watcher};
use autosplitters::WatchError;
use std::cell::Cell;

fn hex(value: u64) -> String {
    let mut text = String::from("<");
    push_literal(&mut text, value);
    text
}

#[test]
fn literals_are_lower_case_without_leading_zeros() {
    assert_eq!(hex(0), "<0x0");
    assert_eq!(hex(9), "<0x9");
    assert_eq!(hex(10), "<0xa");
    assert_eq!(hex(15), "<0xf");
    assert_eq!(hex(16), "<0x10");
    assert_eq!(hex(0x1234_5678_9abc_def0), "<0x123456789abcdef0");
    assert_eq!(hex(u64::MAX), "<0xffffffffffffffff");
    for value in [0u64, 1, 7, 31, 255, 256, 4095, 65536, 0xdead_beef, u64::MAX - 1] {
        assert_eq!(hex(value), format!("<{:#x}", value));
    }
}

#[test]
fn digits_are_appended() {
    let mut text = String::from("at ");
    push_digits(&mut text, 0x2a);
    push_digits(&mut text, 0);
    assert_eq!(text, "at 2a0");
}

#[test]
fn narrowing_keeps_the_low_half() {
    assert_eq!(narrow(0), 0);
    assert_eq!(narrow(0x0300_0000), 0x0300_0000);
    assert_eq!(narrow(0xffff_ffff), 0xffff_ffff);
    assert_eq!(narrow(0x1_0000_0000), 0);
    assert_eq!(narrow(0x1234_5678_9abc_def0), 0x9abc_def0);
    assert_eq!(narrow(u64::MAX), u32::MAX);
}

#[test]
fn narrowing_a_path_keeps_order_and_length() {
    assert_eq!(narrow_path(&[]), Vec::<u32>::new());
    assert_eq!(
        narrow_path(&[0x10, 0x1_0000_0004, u64::MAX, 0]),
        vec![0x10, 0x4, u32::MAX, 0]
    );
}

#[test]
fn loading_is_tried_again_after_every_failure() {
    match wait_try_load_millis::<u8>(Err(WatchError::SceneUnavailable), 500) {
        LoadStep::Retry { failure, cooldown_millis } => {
            assert!(matches!(failure, WatchError::SceneUnavailable));
            assert_eq!(cooldown_millis, 500);
        }
        LoadStep::Loaded(_) => panic!("nothing was loaded"),
    }
    match wait_try_load_millis(Ok(3u8), 500) {
        LoadStep::Loaded(loaded) => assert_eq!(loaded, 3),
        LoadStep::Retry { .. } => panic!("the attempt succeeded"),
    }
}

#[test]
fn default_cooldown_is_a_tenth_of_a_second() {
    assert_eq!(DEFAULT_COOLDOWN_MILLIS, 100);
    match wait_try_load::<u8>(Err(WatchError::Unreadable)) {
        LoadStep::Retry { cooldown_millis, .. } => assert_eq!(cooldown_millis, 100),
        LoadStep::Loaded(_) => panic!("nothing was loaded"),
    }
    assert!(matches!(wait_try_load(Ok(1u8)), LoadStep::Loaded(1)));
}

#[test]
fn bread_and_fred_starts_with_the_timer_of_the_game() {
    assert!(bread_and_fred::should_start(TimerState::NotRunning, true, true));
    assert!(!bread_and_fred::should_start(TimerState::NotRunning, false, true));
    assert!(!bread_and_fred::should_start(TimerState::NotRunning, true, false));
    assert!(!bread_and_fred::should_start(TimerState::Running, true, true));
    assert!(!bread_and_fred::should_start(TimerState::Ended, true, true));
}

#[test]
fn bread_and_fred_game_time_follows_the_timer_of_the_game() {
    assert_eq!(bread_and_fred::game_time_actions(true, false), vec![TimerAction::ResumeGameTime]);
    assert_eq!(bread_and_fred::game_time_actions(false, false), vec![TimerAction::PauseGameTime]);
    assert_eq!(
        bread_and_fred::game_time_actions(true, true),
        vec![TimerAction::ResumeGameTime, TimerAction::PauseGameTime, TimerAction::SetGameTime]
    );
    assert_eq!(
        bread_and_fred::game_time_actions(false, true),
        vec![TimerAction::PauseGameTime, TimerAction::PauseGameTime, TimerAction::SetGameTime]
    );
}

#[test]
fn ticks_are_a_hundred_nanoseconds() {
    assert_eq!(bread_and_fred::NANOSECONDS_PER_TICK, 100);
    assert_eq!(bread_and_fred::elapsed_nanoseconds(0), 0);
    assert_eq!(bread_and_fred::elapsed_nanoseconds(1), 100);
    assert_eq!(bread_and_fred::elapsed_nanoseconds(10_000_000), 1_000_000_000);
    assert_eq!(bread_and_fred::elapsed_nanoseconds(92_233_720_368_547_758), 9_223_372_036_854_775_800);
    // a count with the top bit set is a negative one
    assert_eq!(bread_and_fred::elapsed_nanoseconds(u64::MAX), -100);
    assert_eq!(bread_and_fred::elapsed_nanoseconds(u64::MAX - 9), -1000);
}

#[test]
fn error_messages_name_the_condition() {
    assert_eq!(WatchError::Unreadable.message(), "unable to read value from pointer path");
    assert_eq!(WatchError::Source { message: "unable to read unity pointer".to_string() }.message(), "unable to read unity pointer");
    assert_eq!(WatchError::SceneUnavailable.message(), "failed to get current scene");
    assert_eq!(WatchError::ObjectNotFound.message(), "couldnt find transform");
    assert_eq!(WatchError::ComponentNotFound.message(), "couldnt find component in game object");
    assert_eq!(WatchError::ActiveFlagUnreadable.message(), "couldnt get is active");
    assert_eq!(WatchError::ResolvedDereference.message(), "couldnt dereference with already resolved offset");
    assert_eq!(WatchError::ClassNotFound.message(), "couldnt get class from object");
    assert_eq!(WatchError::FieldNotFound.message(), "couldnt get field from class");
    assert_eq!(WatchError::RetrievedDereference.message(), "couldnt dereference with retrieved offset");
    assert_eq!(
        WatchError::FinalRead { path: "(0x10, 0x4)".to_string() }.message(),
        "couldnt read final bit (0x10, 0x4)"
    );
    let nested = WatchError::PointerPath {
        path: "(a: 0x1, 0x2)".to_string(),
        cause: Box::new(WatchError::PointerPath {
            path: "(0x3, )".to_string(),
            cause: Box::new(WatchError::Unreadable),
        }),
    };
    assert_eq!(
        nested.message(),
        "failed to read pointer path (a: 0x1, 0x2): failed to read pointer path (0x3, ): unable to read value from pointer path"
    );
}

/// A store in which every value is the address it is read at.
struct Echo {
    reads: Cell<usize>,
}

impl PointerPathReadable<u64> for Echo {
    fn read_pointer_path(
        &self,
        address: u64,
        _pointer_size: PointerSize,
        path: &[u64],
    ) -> Result<u64, WatchError> {
        self.reads.set(self.reads.get() + 1);
        Ok(path.iter().fold(address, |at, offset| at.wrapping_add(*offset)))
    }
}

struct Fixed(u32);

impl ValueGetter<u32> for Fixed {
    fn get(&mut self) -> Result<u32, WatchError> {
        self.0 += 1;
        Ok(self.0)
    }
}

#[test]
fn velocity_lies_behind_the_physics_info() {
    let echo = Echo { reads: Cell::new(0) };
    let player = PointerPath::new(&echo, 0x1000, PointerSize::Bit64, vec![0x8, 0x100]);
    let velocity = IdPlayer::<u32>::velocity_path(&player, 0x40, 0x20, 0xc);
    assert_eq!(velocity.describe(), "(0x1000, 0x8, 0x140, 0x2c)");
    assert_eq!(velocity.read::<u64>().unwrap(), 0x1000 + 0x8 + 0x140 + 0x2c);
    assert_eq!(player.describe(), "(0x1000, 0x8, 0x100)");
}

#[test]
fn player_invalidates_all_it_watches() {
    let vector = IdVec3::new(
        Watcher::new(Box::new(Fixed(0))),
        Watcher::new(Box::new(Fixed(10))),
        Watcher::new(Box::new(Fixed(20))),
    );
    let mut player = IdPlayer::init(vector);
    assert_eq!(player.velocity.x.current().unwrap(), 1);
    assert_eq!(player.velocity.y.current().unwrap(), 11);
    assert_eq!(player.velocity.z.current().unwrap(), 21);
    assert_eq!(player.velocity.x.previous(), None);
    player.invalidate();
    assert_eq!(player.velocity.x.previous(), Some(1));
    assert_eq!(player.velocity.y.previous(), Some(11));
    assert_eq!(player.velocity.z.previous(), Some(21));
    assert_eq!(player.velocity.x.current().unwrap(), 2);
    assert_eq!(player.velocity.x.changed().unwrap(), true);
    player.velocity.invalidate();
    assert_eq!(player.velocity.x.previous(), Some(2));
    assert_eq!(player.velocity.y.previous(), None);
}

#[test]
fn nanoseconds_fit_unless_the_count_is_huge() {
    assert!(bread_and_fred::has_nanoseconds(0));
    assert!(bread_and_fred::has_nanoseconds(92_233_720_368_547_758));
    assert!(!bread_and_fred::has_nanoseconds(92_233_720_368_547_759));
    assert!(!bread_and_fred::has_nanoseconds(i64::MAX as u64));
    assert!(!bread_and_fred::has_nanoseconds(1 << 63));
    assert!(bread_and_fred::has_nanoseconds(u64::MAX));
    // -92233720368547758 is the least count that fits
    assert!(bread_and_fred::has_nanoseconds(u64::MAX - 92_233_720_368_547_757));
    assert_eq!(
        bread_and_fred::elapsed_nanoseconds(u64::MAX - 92_233_720_368_547_757),
        -9_223_372_036_854_775_800
    );
    assert!(!bread_and_fred::has_nanoseconds(u64::MAX - 92_233_720_368_547_758));
}

struct Never;

impl<T> ValueGetter<T> for Never {
    fn get(&mut self) -> Result<T, WatchError> {
        Err(WatchError::Unreadable)
    }
}

/// Counts up from where it starts.
struct Counting(u64);

impl ValueGetter<u64> for Counting {
    fn get(&mut self) -> Result<u64, WatchError> {
        self.0 += 1;
        Ok(self.0)
    }
}

#[test]
fn bread_and_fred_memory_falls_back_on_zero_and_standing_still() {
    let mut memory = bread_and_fred::Memory::new(
        Box::new(Never),
        Box::new(Counting(40)),
        Box::new(Never),
    )
    .unwrap();
    assert_eq!(memory.time.previous(), None);
    assert_eq!(memory.time.current().unwrap(), 0);
    assert_eq!(memory.started_timestamp.current().unwrap(), 41);
    assert_eq!(memory.running.current().unwrap(), false);
    memory.invalidate();
    assert_eq!(memory.time.previous(), Some(0));
    assert_eq!(memory.started_timestamp.previous(), Some(41));
    assert_eq!(memory.running.previous(), Some(false));
    assert_eq!(memory.started_timestamp.current().unwrap(), 42);
    assert_eq!(memory.running.changed().unwrap(), false);
}

#[test]
fn i_am_your_beast_memory_has_no_fallback() {
    let mut memory = autosplitters::i_am_your_beast::Memory::<u32>::new(Box::new(Never));
    assert!(matches!(memory.combat_time.current(), Err(WatchError::Unreadable)));
    memory.invalidate();
    assert_eq!(memory.combat_time.previous(), None);
    let mut memory = autosplitters::i_am_your_beast::Memory::new(Box::new(Fixed(6)));
    assert_eq!(memory.combat_time.current().unwrap(), 7);
    memory.invalidate();
    assert_eq!(memory.combat_time.previous(), Some(7));
}
