//! What is chosen once, before a game starts.

use vstd::prelude::*;
use vstd::string::*;

verus! {

/// Who plays `O`: the computer, or a second person.
#[derive(Clone, Copy, PartialEq, Eq, Structural, Debug)]
pub enum GameMode {
    SinglePlayer,
    MultiPlayer,
}

/// How well the computer plays.
#[derive(Clone, Copy, PartialEq, Eq, Structural, Debug)]
pub enum Difficulty {
    /// Every move is a random empty square.
    Easy,
    /// Wins and blocks when it sees the chance, and overlooks it more often than not.
    Medium,
    /// Always wins or blocks where it can, and otherwise plays by position.
    Hard,
}

/// The settings of one game.
#[derive(Clone, Copy, PartialEq, Eq, Structural, Debug)]
pub struct GameConfig {
    pub game_mode: GameMode,
    pub difficulty: Difficulty,
}

impl GameMode {
    /// The name under which the mode stands in a menu.
    pub open spec fn label_text(self) -> Seq<char> {
        match self {
            GameMode::SinglePlayer => "Single Player"@,
            GameMode::MultiPlayer => "Multi Player"@,
        }
    }

    /// The name under which the mode stands in a menu.
    pub fn label(&self) -> (text: String)
        ensures
            text@ == self.label_text(),
    {
        match self {
            GameMode::SinglePlayer => String::from_str("Single Player"),
            GameMode::MultiPlayer => String::from_str("Multi Player"),
        }
    }

    /// The mode that stands in a menu under the name `label`, if there is one.
    pub fn from_label(label: &String) -> (mode: Option<GameMode>)
        ensures
            forall|named: GameMode| label@ == #[trigger] named.label_text() ==> mode == Some(named),
            mode matches Some(found) ==> label@ == found.label_text(),
    {
        proof {
            reveal_strlit("Single Player");
            reveal_strlit("Multi Player");
            assert("Single Player"@[0] != "Multi Player"@[0]);
        }
        if *label == GameMode::SinglePlayer.label() {
            Some(GameMode::SinglePlayer)
        } else if *label == GameMode::MultiPlayer.label() {
            Some(GameMode::MultiPlayer)
        } else {
            None
        }
    }
}

impl Difficulty {
    /// The name under which the difficulty stands in a menu.
    pub open spec fn label_text(self) -> Seq<char> {
        match self {
            Difficulty::Easy => "Easy"@,
            Difficulty::Medium => "Medium"@,
            Difficulty::Hard => "Hard"@,
        }
    }

    /// The name under which the difficulty stands in a menu.
    pub fn label(&self) -> (text: String)
        ensures
            text@ == self.label_text(),
    {
        match self {
            Difficulty::Easy => String::from_str("Easy"),
            Difficulty::Medium => String::from_str("Medium"),
            Difficulty::Hard => String::from_str("Hard"),
        }
    }

    /// The difficulty that stands in a menu under the name `label`, if there is one.
    pub fn from_label(label: &String) -> (difficulty: Option<Difficulty>)
        ensures
            forall|named: Difficulty|
                label@ == #[trigger] named.label_text() ==> difficulty == Some(named),
            difficulty matches Some(found) ==> label@ == found.label_text(),
    {
        proof {
            reveal_strlit("Easy");
            reveal_strlit("Medium");
            reveal_strlit("Hard");
            assert("Easy"@[0] != "Hard"@[0]);
            assert("Easy"@[0] != "Medium"@[0]);
            assert("Medium"@[0] != "Hard"@[0]);
        }
        if *label == Difficulty::Easy.label() {
            Some(Difficulty::Easy)
        } else if *label == Difficulty::Medium.label() {
            Some(Difficulty::Medium)
        } else if *label == Difficulty::Hard.label() {
            Some(Difficulty::Hard)
        } else {
            None
        }
    }
}

impl GameConfig {
    pub fn new(game_mode: GameMode, difficulty: Difficulty) -> (config: GameConfig)
        ensures
            config.game_mode == game_mode,
            config.difficulty == difficulty,
    {
        GameConfig { game_mode, difficulty }
    }

    pub fn set_game_mode(&mut self, game_mode: GameMode)
        ensures
            final(self).game_mode == game_mode,
            final(self).difficulty == old(self).difficulty,
    {
        self.game_mode = game_mode;
    }

    pub fn set_difficulty(&mut self, difficulty: Difficulty)
        ensures
            final(self).difficulty == difficulty,
            final(self).game_mode == old(self).game_mode,
    {
        self.difficulty = difficulty;
    }
}

} // verus!
