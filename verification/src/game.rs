use vstd::prelude::*;

verus! {

/// Difficulty rating.
#[derive(Debug, Clone, Copy, PartialEq, Eq, Structural)]
pub enum Difficulty {
    Easy,
    Normal,
    Hard,
}

/// The name under which a difficulty is shown.
pub open spec fn difficulty_label(d: Difficulty) -> Seq<char> {
    match d {
        Difficulty::Easy => seq!['E', 'a', 's', 'y'],
        Difficulty::Normal => seq!['N', 'o', 'r', 'm', 'a', 'l'],
        Difficulty::Hard => seq!['H', 'a', 'r', 'd'],
    }
}

impl Default for Difficulty {
    /// `Normal` is the default difficulty.
    fn default() -> (d: Self)
        ensures
            d == Difficulty::Normal,
    {
        Difficulty::Normal
    }
}

impl Difficulty {
    /// Every difficulty, in declaration order.
    pub fn variants() -> (v: Vec<Difficulty>)
        ensures
            v@ == seq![Difficulty::Easy, Difficulty::Normal, Difficulty::Hard],
    {
        vec![Difficulty::Easy, Difficulty::Normal, Difficulty::Hard]
    }

    /// The variant's name, as it is displayed.
    pub fn label(&self) -> (s: &'static str)
        ensures
            s@ == difficulty_label(*self),
    {
        proof {
            reveal_strlit("Easy");
            reveal_strlit("Normal");
            reveal_strlit("Hard");
        }
        match self {
            Difficulty::Easy => "Easy",
            Difficulty::Normal => "Normal",
            Difficulty::Hard => "Hard",
        }
    }
}

/// Current difficulty.
#[derive(Debug, Clone, Copy, PartialEq, Eq, Structural)]
pub struct LevelDifficulty(pub Difficulty);

impl Default for LevelDifficulty {
    fn default() -> (d: Self)
        ensures
            d.0 == Difficulty::Normal,
    {
        LevelDifficulty(Difficulty::Normal)
    }
}

/// The current score.
#[derive(Debug, Clone, Copy, PartialEq, Eq, Structural)]
pub struct CurrentScore {
    pub score: i32,
}

impl Default for CurrentScore {
    fn default() -> (s: Self)
        ensures
            s.score == 0,
    {
        CurrentScore { score: 0 }
    }
}

} // verus!
