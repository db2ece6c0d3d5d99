//! Musical notes of the chromatic scale, with their pitch classes and
//! MIDI-style note numbers, and the names of the game's sounds and
//! themes.

use vstd::prelude::*;

verus! {

/// A note of the chromatic scale, in solfège or letter naming.
#[derive(Clone, Copy, Debug, PartialEq, Eq, Structural)]
pub enum Note {
    Do,
    Re,
    Mi,
    Fa,
    Sol,
    La,
    Si,
    C,
    Cs,
    D,
    Ds,
    E,
    F,
    Fs,
    G,
    Gs,
    A,
    As,
    B,
}

/// The pitch class of a note: its index within one octave, where both
/// namings map onto the same twelve classes.
pub open spec fn pitch_class_of(n: Note) -> u8 {
    match n {
        Note::Do | Note::C => 0,
        Note::Cs => 1,
        Note::Re | Note::D => 2,
        Note::Ds => 3,
        Note::Mi | Note::E => 4,
        Note::Fa | Note::F => 5,
        Note::Fs => 6,
        Note::Sol | Note::G => 7,
        Note::Gs => 8,
        Note::La | Note::A => 9,
        Note::As => 10,
        Note::Si | Note::B => 11,
    }
}

impl Note {
    /// The note's pitch class, within 0..=11.
    pub fn pitch_class(&self) -> (r: u8)
        ensures
            r == pitch_class_of(*self),
            r <= 11,
    {
        match self {
            Note::Do | Note::C => 0,
            Note::Cs => 1,
            Note::Re | Note::D => 2,
            Note::Ds => 3,
            Note::Mi | Note::E => 4,
            Note::Fa | Note::F => 5,
            Note::Fs => 6,
            Note::Sol | Note::G => 7,
            Note::Gs => 8,
            Note::La | Note::A => 9,
            Note::As => 10,
            Note::Si | Note::B => 11,
        }
    }

    /// The note's number: twelve notes to the octave, counted from the
    /// pitch class within octave zero.
    pub fn note_nr(&self, octave: u8) -> (r: u8)
        requires
            octave <= 20,
        ensures
            r == pitch_class_of(*self) + 12 * octave,
    {
        self.pitch_class() + 12 * octave
    }
}

/// The short sound effects the game can play.
#[derive(Clone, Copy, Debug, PartialEq, Eq, Structural)]
pub enum Sound {
    ArmorEquipped,
    DrinkPotion,
    EnemyApproaching,
    EnemyAttack,
    EnemyScream,
    Error,
    Input,
    ItemCollected,
    LeaveMaze,
    PlayerAttack,
    PlayerDead,
    Rush,
    Sonar,
    Sleep,
    Steps,
    WakeUp,
}

/// The background themes the game can play.
#[derive(Clone, Copy, Debug, PartialEq, Eq, Structural)]
pub enum Theme {
    Fight,
    GameOver,
    Maze,
    Menu,
    Victory,
    Silence,
}

} // verus!
