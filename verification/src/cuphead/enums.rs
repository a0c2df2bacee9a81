//! The levels of the game, as the game numbers them, and the kinds they
//! fall into.

use vstd::prelude::*;
use crate::cuphead::rules::Mode;
use crate::cuphead::settings::{ChessPieceSetting, Settings};

verus! {

/// A level of the game, under the name that the game's own code gives it.
///
/// The game stores a level as a number of 32 bits. `bits` gives the number of
/// a level, `from_bits` the level of a number.
#[derive(Clone, Copy, Debug, PartialEq, Eq, Structural)]
#[allow(non_camel_case_types)]
pub enum Levels {
    /// No level of the game: what a value that is none of the others is read as.
    Unknown,
    Test,
    FlyingTest,
    Tutorial,
    Pirate,
    Bat,
    Train,
    Veggies,
    Frogs,
    Bee,
    Mouse,
    Dragon,
    Flower,
    Slime,
    Baroness,
    AirshipJelly,
    AirshipStork,
    AirshipCrab,
    FlyingBird,
    FlyingMermaid,
    FlyingBlimp,
    Robot,
    Clown,
    SallyStagePlay,
    DicePalaceDomino,
    DicePalaceCard,
    DicePalaceChips,
    DicePalaceCigar,
    DicePalaceTest,
    DicePalaceBooze,
    DicePalaceRoulette,
    DicePalacePachinko,
    DicePalaceRabbit,
    AirshipClam,
    FlyingGenie,
    DicePalaceLight,
    DicePalaceFlyingHorse,
    DicePalaceFlyingMemory,
    DicePalaceMain,
    DicePalaceEightBall,
    Devil,
    RetroArcade,
    Mausoleum,
    House,
    DiceGate,
    ShmupTutorial,
    Airplane,
    RumRunners,
    OldMan,
    ChessBishop,
    SnowCult,
    FlyingCowboy,
    TowerOfPower,
    ChessBOldA,
    ChessKnight,
    ChessRook,
    ChessQueen,
    ChessPawn,
    ChessKing,
    Kitchen,
    ChessBOldB,
    Saltbaker,
    ChaliceTutorial,
    /// angel / devil
    Graveyard,
    ChessCastle,
    Platforming_Level_1_1,
    Platforming_Level_1_2,
    Platforming_Level_3_1,
    Platforming_Level_3_2,
    Platforming_Level_2_2,
    Platforming_Level_2_1,
}

/// What kind of level a level is: this decides which setting governs its
/// split.
#[derive(Clone, Copy, Debug, PartialEq, Eq, Structural)]
pub enum LevelType {
    /// None of the kinds below.
    Unknown,
    /// One of the two tutorials on foot.
    Tutorial,
    /// A boss fight.
    Boss,
    /// A run and gun level.
    Platformer,
    /// A mausoleum.
    Mausoleum,
    /// One of the five pieces of the chess gauntlet.
    ChessPiece,
}

/// The grade on the scorecard of a level, from the worst to the best.
#[derive(Clone, Copy, Debug, PartialEq, Eq, Structural)]
pub enum Grade {
    DMinus,
    D,
    DPlus,
    CMinus,
    C,
    CPlus,
    BMinus,
    B,
    BPlus,
    AMinus,
    A,
    APlus,
    S,
    /// The grade of a run and gun level in which nothing was shot.
    P,
}

impl Default for Grade {
    fn default() -> (grade: Self)
        ensures
            grade == Grade::DMinus,
    {
        Grade::DMinus
    }
}

impl LevelType {
    /// The best grade that a level of this kind gives on that difficulty,
    /// where levels of this kind are graded at all.
    pub open spec fn highest_grade(self, mode: Mode) -> Option<Grade> {
        match self {
            LevelType::Platformer => Some(Grade::P),
            LevelType::Boss => match mode {
                Mode::Easy => Some(Grade::BPlus),
                Mode::Normal => Some(Grade::APlus),
                Mode::Hard => Some(Grade::S),
                Mode::Unknown => None,
            },
            _ => None,
        }
    }

    /// Whether `grade` is the best that a level of this kind gives on that
    /// difficulty. Where levels of this kind are not graded, every grade is.
    /// On a boss whose difficulty is none of the three, no grade is.
    pub open spec fn is_highest(self, grade: Grade, mode: Mode) -> bool {
        match self.highest_grade(mode) {
            Some(best) => grade == best,
            None => !(self is Boss),
        }
    }

    /// Whether `grade` is the best that a level of this kind gives on that
    /// difficulty.
    pub fn is_highest_grade(&self, grade: Grade, mode: Mode) -> (highest: bool)
        ensures
            highest == self.is_highest(grade, mode),
    {
        match self {
            LevelType::Platformer => grade == Grade::P,
            LevelType::Boss => match mode {
                Mode::Easy => grade == Grade::BPlus,
                Mode::Normal => grade == Grade::APlus,
                Mode::Hard => grade == Grade::S,
                Mode::Unknown => false,
            },
            _ => true,
        }
    }
}

impl Default for Levels {
    fn default() -> (level: Self)
        ensures
            level == Levels::Unknown,
    {
        Levels::Unknown
    }
}

impl Default for LevelType {
    fn default() -> (kind: Self)
        ensures
            kind == LevelType::Unknown,
    {
        LevelType::Unknown
    }
}

/// The scene that a level of this kind is left from, and the scenes that it
/// is left to, where leaving it is what completes it.
pub struct SceneTransition {
    /// The scene of the level.
    pub from: Seq<char>,
    /// The scenes that follow the level once it is completed.
    pub to: Set<Seq<char>>,
}

impl Levels {
    /// The number that the game stores for this level.
    pub open spec fn bits(self) -> u32 {
        match self {
            Levels::Unknown => 69,
            Levels::Test => 1,
            Levels::FlyingTest => 1429603775,
            Levels::Tutorial => 0,
            Levels::Pirate => 2,
            Levels::Bat => 3,
            Levels::Train => 5,
            Levels::Veggies => 6,
            Levels::Frogs => 7,
            Levels::Bee => 1429976377,
            Levels::Mouse => 1430652919,
            Levels::Dragon => 1432722919,
            Levels::Flower => 1450266910,
            Levels::Slime => 1450863107,
            Levels::Baroness => 1451300935,
            Levels::AirshipJelly => 8,
            Levels::AirshipStork => 1459338579,
            Levels::AirshipCrab => 1459489001,
            Levels::FlyingBird => 1428495827,
            Levels::FlyingMermaid => 1446558823,
            Levels::FlyingBlimp => 1449745424,
            Levels::Robot => 1452935394,
            Levels::Clown => 1456125457,
            Levels::SallyStagePlay => 1456740288,
            Levels::DicePalaceDomino => 1458062114,
            Levels::DicePalaceCard => 1458289179,
            Levels::DicePalaceChips => 1458336090,
            Levels::DicePalaceCigar => 1458551456,
            Levels::DicePalaceTest => 1458559869,
            Levels::DicePalaceBooze => 1458719430,
            Levels::DicePalaceRoulette => 1459105708,
            Levels::DicePalacePachinko => 1459444983,
            Levels::DicePalaceRabbit => 1459928905,
            Levels::AirshipClam => 1459950766,
            Levels::FlyingGenie => 1460200177,
            Levels::DicePalaceLight => 1463124738,
            Levels::DicePalaceFlyingHorse => 1463479514,
            Levels::DicePalaceFlyingMemory => 1464322003,
            Levels::DicePalaceMain => 1465296077,
            Levels::DicePalaceEightBall => 1468483834,
            Levels::Devil => 1466688317,
            Levels::RetroArcade => 1469187579,
            Levels::Mausoleum => 1481199742,
            Levels::House => 1484633053,
            Levels::DiceGate => 1495090481,
            Levels::ShmupTutorial => 1504847973,
            Levels::Airplane => 1511943573,
            Levels::RumRunners => 1518081307,
            Levels::OldMan => 1523429320,
            Levels::ChessBishop => 1526556188,
            Levels::SnowCult => 1527591209,
            Levels::FlyingCowboy => 1530096313,
            Levels::TowerOfPower => 1553597811,
            Levels::ChessBOldA => 1557479427,
            Levels::ChessKnight => 1560339521,
            Levels::ChessRook => 1560855325,
            Levels::ChessQueen => 1561124831,
            Levels::ChessPawn => 1562078899,
            Levels::ChessKing => 1562579243,
            Levels::Kitchen => 1566994171,
            Levels::ChessBOldB => 1571650861,
            Levels::Saltbaker => 1573044456,
            Levels::ChaliceTutorial => 1580294079,
            Levels::Graveyard => 1616405510,
            Levels::ChessCastle => 1624358789,
            Levels::Platforming_Level_1_1 => 1464969490,
            Levels::Platforming_Level_1_2 => 1464969491,
            Levels::Platforming_Level_3_1 => 1464969492,
            Levels::Platforming_Level_3_2 => 1464969493,
            Levels::Platforming_Level_2_2 => 1496818712,
            Levels::Platforming_Level_2_1 => 1499704951,
        }
    }

    /// Whether the level is one of the boss fights.
    pub open spec fn is_boss(self) -> bool {
        ||| self == Levels::Veggies
        ||| self == Levels::Frogs
        ||| self == Levels::Slime
        ||| self == Levels::FlyingBlimp
        ||| self == Levels::Flower
        ||| self == Levels::Baroness
        ||| self == Levels::FlyingBird
        ||| self == Levels::FlyingGenie
        ||| self == Levels::Clown
        ||| self == Levels::Dragon
        ||| self == Levels::Bee
        ||| self == Levels::Robot
        ||| self == Levels::SallyStagePlay
        ||| self == Levels::Mouse
        ||| self == Levels::Pirate
        ||| self == Levels::FlyingMermaid
        ||| self == Levels::Train
        ||| self == Levels::DicePalaceMain
        ||| self == Levels::Devil
        ||| self == Levels::OldMan
        ||| self == Levels::SnowCult
        ||| self == Levels::Airplane
        ||| self == Levels::RumRunners
        ||| self == Levels::FlyingCowboy
        ||| self == Levels::Graveyard
        ||| self == Levels::Saltbaker
    }

    /// Whether the level is one of the run and gun levels.
    pub open spec fn is_platformer(self) -> bool {
        ||| self == Levels::Platforming_Level_1_1
        ||| self == Levels::Platforming_Level_1_2
        ||| self == Levels::Platforming_Level_2_1
        ||| self == Levels::Platforming_Level_2_2
        ||| self == Levels::Platforming_Level_3_1
        ||| self == Levels::Platforming_Level_3_2
    }

    /// Whether the level is one of the pieces of the chess gauntlet.
    pub open spec fn is_chess_piece(self) -> bool {
        ||| self == Levels::ChessPawn
        ||| self == Levels::ChessKnight
        ||| self == Levels::ChessBishop
        ||| self == Levels::ChessRook
        ||| self == Levels::ChessQueen
    }

    /// The kind of the level.
    pub open spec fn level_type(self) -> LevelType {
        if self == Levels::Tutorial || self == Levels::ChaliceTutorial {
            LevelType::Tutorial
        } else if self == Levels::Mausoleum {
            LevelType::Mausoleum
        } else if self.is_boss() {
            LevelType::Boss
        } else if self.is_platformer() {
            LevelType::Platformer
        } else if self.is_chess_piece() {
            LevelType::ChessPiece
        } else {
            LevelType::Unknown
        }
    }

    /// The change of scene that completes the level, for the levels that are
    /// completed by leaving them.
    pub open spec fn scene_transition(self) -> Option<SceneTransition> {
        match self {
            Levels::Tutorial => Some(
                SceneTransition {
                    from: "scene_level_tutorial"@,
                    to: set!["scene_level_house_elder_kettle"@, "scene_map_world_1"@],
                },
            ),
            Levels::ChaliceTutorial => Some(
                SceneTransition {
                    from: "scene_level_chalice_tutorial"@,
                    to: set!["scene_map_world_DLC"@],
                },
            ),
            _ => None,
        }
    }

    /// Whether completing the level splits under `settings`.
    pub open spec fn split_enabled(self, settings: Settings) -> bool {
        match self.level_type() {
            LevelType::Tutorial => settings.split_tutorial,
            LevelType::Mausoleum => settings.split_mausoleum_completion,
            LevelType::Platformer | LevelType::Boss => settings.split_boss_completion,
            LevelType::ChessPiece => match settings.split_chess {
                ChessPieceSetting::EachPiece => true,
                ChessPieceSetting::Never => false,
                ChessPieceSetting::GauntletOnly => self == Levels::ChessQueen,
            },
            LevelType::Unknown => false,
        }
    }

    /// The number that the game stores for this level.
    pub fn to_bits(self) -> (bits: u32)
        ensures
            bits == self.bits(),
    {
        match self {
            Levels::Unknown => 69,
            Levels::Test => 1,
            Levels::FlyingTest => 1429603775,
            Levels::Tutorial => 0,
            Levels::Pirate => 2,
            Levels::Bat => 3,
            Levels::Train => 5,
            Levels::Veggies => 6,
            Levels::Frogs => 7,
            Levels::Bee => 1429976377,
            Levels::Mouse => 1430652919,
            Levels::Dragon => 1432722919,
            Levels::Flower => 1450266910,
            Levels::Slime => 1450863107,
            Levels::Baroness => 1451300935,
            Levels::AirshipJelly => 8,
            Levels::AirshipStork => 1459338579,
            Levels::AirshipCrab => 1459489001,
            Levels::FlyingBird => 1428495827,
            Levels::FlyingMermaid => 1446558823,
            Levels::FlyingBlimp => 1449745424,
            Levels::Robot => 1452935394,
            Levels::Clown => 1456125457,
            Levels::SallyStagePlay => 1456740288,
            Levels::DicePalaceDomino => 1458062114,
            Levels::DicePalaceCard => 1458289179,
            Levels::DicePalaceChips => 1458336090,
            Levels::DicePalaceCigar => 1458551456,
            Levels::DicePalaceTest => 1458559869,
            Levels::DicePalaceBooze => 1458719430,
            Levels::DicePalaceRoulette => 1459105708,
            Levels::DicePalacePachinko => 1459444983,
            Levels::DicePalaceRabbit => 1459928905,
            Levels::AirshipClam => 1459950766,
            Levels::FlyingGenie => 1460200177,
            Levels::DicePalaceLight => 1463124738,
            Levels::DicePalaceFlyingHorse => 1463479514,
            Levels::DicePalaceFlyingMemory => 1464322003,
            Levels::DicePalaceMain => 1465296077,
            Levels::DicePalaceEightBall => 1468483834,
            Levels::Devil => 1466688317,
            Levels::RetroArcade => 1469187579,
            Levels::Mausoleum => 1481199742,
            Levels::House => 1484633053,
            Levels::DiceGate => 1495090481,
            Levels::ShmupTutorial => 1504847973,
            Levels::Airplane => 1511943573,
            Levels::RumRunners => 1518081307,
            Levels::OldMan => 1523429320,
            Levels::ChessBishop => 1526556188,
            Levels::SnowCult => 1527591209,
            Levels::FlyingCowboy => 1530096313,
            Levels::TowerOfPower => 1553597811,
            Levels::ChessBOldA => 1557479427,
            Levels::ChessKnight => 1560339521,
            Levels::ChessRook => 1560855325,
            Levels::ChessQueen => 1561124831,
            Levels::ChessPawn => 1562078899,
            Levels::ChessKing => 1562579243,
            Levels::Kitchen => 1566994171,
            Levels::ChessBOldB => 1571650861,
            Levels::Saltbaker => 1573044456,
            Levels::ChaliceTutorial => 1580294079,
            Levels::Graveyard => 1616405510,
            Levels::ChessCastle => 1624358789,
            Levels::Platforming_Level_1_1 => 1464969490,
            Levels::Platforming_Level_1_2 => 1464969491,
            Levels::Platforming_Level_3_1 => 1464969492,
            Levels::Platforming_Level_3_2 => 1464969493,
            Levels::Platforming_Level_2_2 => 1496818712,
            Levels::Platforming_Level_2_1 => 1499704951,
        }
    }

    /// The level that the game stores as `bits`, if there is one.
    pub fn from_bits(bits: u32) -> (level: Option<Self>)
        ensures
            match level {
                Some(level) => level.bits() == bits,
                None => forall|other: Levels| other.bits() != bits,
            },
            forall|other: Levels| #[trigger] other.bits() == bits ==> level == Some(other),
    {
        match bits {
            69 => Some(Levels::Unknown),
            1 => Some(Levels::Test),
            1429603775 => Some(Levels::FlyingTest),
            0 => Some(Levels::Tutorial),
            2 => Some(Levels::Pirate),
            3 => Some(Levels::Bat),
            5 => Some(Levels::Train),
            6 => Some(Levels::Veggies),
            7 => Some(Levels::Frogs),
            1429976377 => Some(Levels::Bee),
            1430652919 => Some(Levels::Mouse),
            1432722919 => Some(Levels::Dragon),
            1450266910 => Some(Levels::Flower),
            1450863107 => Some(Levels::Slime),
            1451300935 => Some(Levels::Baroness),
            8 => Some(Levels::AirshipJelly),
            1459338579 => Some(Levels::AirshipStork),
            1459489001 => Some(Levels::AirshipCrab),
            1428495827 => Some(Levels::FlyingBird),
            1446558823 => Some(Levels::FlyingMermaid),
            1449745424 => Some(Levels::FlyingBlimp),
            1452935394 => Some(Levels::Robot),
            1456125457 => Some(Levels::Clown),
            1456740288 => Some(Levels::SallyStagePlay),
            1458062114 => Some(Levels::DicePalaceDomino),
            1458289179 => Some(Levels::DicePalaceCard),
            1458336090 => Some(Levels::DicePalaceChips),
            1458551456 => Some(Levels::DicePalaceCigar),
            1458559869 => Some(Levels::DicePalaceTest),
            1458719430 => Some(Levels::DicePalaceBooze),
            1459105708 => Some(Levels::DicePalaceRoulette),
            1459444983 => Some(Levels::DicePalacePachinko),
            1459928905 => Some(Levels::DicePalaceRabbit),
            1459950766 => Some(Levels::AirshipClam),
            1460200177 => Some(Levels::FlyingGenie),
            1463124738 => Some(Levels::DicePalaceLight),
            1463479514 => Some(Levels::DicePalaceFlyingHorse),
            1464322003 => Some(Levels::DicePalaceFlyingMemory),
            1465296077 => Some(Levels::DicePalaceMain),
            1468483834 => Some(Levels::DicePalaceEightBall),
            1466688317 => Some(Levels::Devil),
            1469187579 => Some(Levels::RetroArcade),
            1481199742 => Some(Levels::Mausoleum),
            1484633053 => Some(Levels::House),
            1495090481 => Some(Levels::DiceGate),
            1504847973 => Some(Levels::ShmupTutorial),
            1511943573 => Some(Levels::Airplane),
            1518081307 => Some(Levels::RumRunners),
            1523429320 => Some(Levels::OldMan),
            1526556188 => Some(Levels::ChessBishop),
            1527591209 => Some(Levels::SnowCult),
            1530096313 => Some(Levels::FlyingCowboy),
            1553597811 => Some(Levels::TowerOfPower),
            1557479427 => Some(Levels::ChessBOldA),
            1560339521 => Some(Levels::ChessKnight),
            1560855325 => Some(Levels::ChessRook),
            1561124831 => Some(Levels::ChessQueen),
            1562078899 => Some(Levels::ChessPawn),
            1562579243 => Some(Levels::ChessKing),
            1566994171 => Some(Levels::Kitchen),
            1571650861 => Some(Levels::ChessBOldB),
            1573044456 => Some(Levels::Saltbaker),
            1580294079 => Some(Levels::ChaliceTutorial),
            1616405510 => Some(Levels::Graveyard),
            1624358789 => Some(Levels::ChessCastle),
            1464969490 => Some(Levels::Platforming_Level_1_1),
            1464969491 => Some(Levels::Platforming_Level_1_2),
            1464969492 => Some(Levels::Platforming_Level_3_1),
            1464969493 => Some(Levels::Platforming_Level_3_2),
            1496818712 => Some(Levels::Platforming_Level_2_2),
            1499704951 => Some(Levels::Platforming_Level_2_1),
            _ => None,
        }
    }

    /// For a level that is completed by leaving it: the scene of the level,
    /// and the scenes that it is left to when it was completed. The second
    /// holds no scene twice.
    pub fn split_on_scene_transition_to(&self) -> (transition: Option<
        (&'static str, Vec<&'static str>),
    >)
        ensures
            match transition {
                Some((from, to)) => self.scene_transition() matches Some(expected) && from@
                    == expected.from && names(to@).to_set() == expected.to && names(
                    to@,
                ).no_duplicates(),
                None => self.scene_transition() is None,
            },
    {
        match self {
            Levels::Tutorial => {
                let to = vec!["scene_level_house_elder_kettle", "scene_map_world_1"];
                proof {
                    reveal_strlit("scene_level_house_elder_kettle");
                    reveal_strlit("scene_map_world_1");
                    let found = names(to@);
                    assert(found[0].len() != found[1].len());
                    assert(found.contains(found[0]) && found.contains(found[1]));
                    assert(found.to_set() =~= set![
                        "scene_level_house_elder_kettle"@,
                        "scene_map_world_1"@,
                    ]);
                }
                Some(("scene_level_tutorial", to))
            },
            Levels::ChaliceTutorial => {
                let to = vec!["scene_map_world_DLC"];
                proof {
                    let found = names(to@);
                    assert(found.contains(found[0]));
                    assert(found.to_set() =~= set!["scene_map_world_DLC"@]);
                }
                Some(("scene_level_chalice_tutorial", to))
            },
            _ => None,
        }
    }

    /// The kind of the level.
    pub fn get_type(&self) -> (kind: LevelType)
        ensures
            kind == self.level_type(),
    {
        match self {
            Levels::Tutorial | Levels::ChaliceTutorial => LevelType::Tutorial,
            Levels::Mausoleum => LevelType::Mausoleum,
            // isle 1
            Levels::Veggies
            | Levels::Frogs
            | Levels::Slime
            | Levels::FlyingBlimp
            | Levels::Flower
            // isle 2
            | Levels::Baroness
            | Levels::FlyingBird
            | Levels::FlyingGenie
            | Levels::Clown
            | Levels::Dragon
            // isle 3
            | Levels::Bee
            | Levels::Robot
            | Levels::SallyStagePlay
            | Levels::Mouse
            | Levels::Pirate
            | Levels::FlyingMermaid
            | Levels::Train
            // isle hell
            | Levels::DicePalaceMain
            | Levels::Devil
            // isle dlc
            | Levels::OldMan
            | Levels::SnowCult
            | Levels::Airplane
            | Levels::RumRunners
            | Levels::FlyingCowboy
            | Levels::Graveyard
            | Levels::Saltbaker => LevelType::Boss,
            Levels::Platforming_Level_1_1
            | Levels::Platforming_Level_1_2
            | Levels::Platforming_Level_2_1
            | Levels::Platforming_Level_2_2
            | Levels::Platforming_Level_3_1
            | Levels::Platforming_Level_3_2 => LevelType::Platformer,
            Levels::ChessPawn
            | Levels::ChessKnight
            | Levels::ChessBishop
            | Levels::ChessRook
            | Levels::ChessQueen => LevelType::ChessPiece,
            _ => LevelType::Unknown,
        }
    }

    /// Whether completing the level splits under `settings`.
    pub fn is_split_enabled(&self, settings: &Settings) -> (enabled: bool)
        ensures
            enabled == self.split_enabled(*settings),
    {
        match self.get_type() {
            LevelType::Tutorial => settings.split_tutorial,
            LevelType::Mausoleum => settings.split_mausoleum_completion,
            LevelType::Platformer | LevelType::Boss => settings.split_boss_completion,
            LevelType::ChessPiece => match settings.split_chess {
                ChessPieceSetting::EachPiece => true,
                ChessPieceSetting::Never => false,
                ChessPieceSetting::GauntletOnly => *self == Levels::ChessQueen,
            },
            _ => false,
        }
    }
}

/// The names in `scenes`, each as the text it holds.
pub open spec fn names(scenes: Seq<&'static str>) -> Seq<Seq<char>> {
    Seq::new(scenes.len(), |i: int| scenes[i]@)
}

/// Every level has a number of its own: the level of the number of a level
/// is that level, and two levels with one number are one level.
pub proof fn lemma_bits_tell_levels_apart(one: Levels, other: Levels)
    requires
        one.bits() == other.bits(),
    ensures
        one == other,
{
}

} // verus!
