use vstd::prelude::*;
use crate::pitch::{Note, PitchClass};

verus! {

/// The oscillator shape shared by all voices.
#[derive(Clone, Copy, Debug, PartialEq, Eq, Structural)]
pub enum Waveform {
    /// `sin(2π·phase)`.
    Sine,
    /// `2·phase − 1`.
    Saw,
    /// `+1` while the phase is below the duty cycle, `−1` after; the duty
    /// cycle is given in percent of the period.
    Rect(u8),
}

/// A control event for the synthesis engine.
#[derive(Clone, Copy, Debug, PartialEq, Eq, Structural)]
pub enum Command {
    /// Start a note on the next voice in turn.
    PlayNote(Note),
    /// Replace the shared waveform.
    SetWaveform(Waveform),
    /// Raise the decay coefficient to this power, given in hundredths
    /// (80 lengthens the release, 125 shortens it).
    ChangeDecay(u16),
    /// Leave the program.
    Quit,
    /// No effect.
    Nothing,
}

/// A key press as the terminal reports it.
#[derive(Clone, Copy, Debug, PartialEq, Eq, Structural)]
pub enum KeyPress {
    Char(char),
    Alt(char),
    Ctrl(char),
    Up,
    Down,
    Other,
}

/// Exponent, in hundredths, that makes notes ring longer.
pub const DECAY_LONGER: u16 = 80;

/// Exponent, in hundredths, that makes notes die away sooner.
pub const DECAY_SHORTER: u16 = 125;

/// Whether `c` is an uppercase letter, as `char::is_uppercase` reports it.
pub uninterp spec fn upper_char(c: char) -> bool;

/// The first character of the lowercase mapping of `c`, as `char::to_lowercase` gives it.
pub uninterp spec fn lower_first(c: char) -> char;

/// Relies on `char::is_uppercase`: the answer depends on the character alone.
#[verifier::external_body]
fn is_upper(c: char) -> (r: bool)
    ensures
        r == upper_char(c),
{
    c.is_uppercase()
}

/// Relies on `char::to_lowercase`, which yields at least one character and
/// depends on the character alone.
#[verifier::external_body]
fn to_lower(c: char) -> (r: char)
    ensures
        r == lower_first(c),
{
    c.to_lowercase().next().unwrap()
}

/// The two piano rows of the keyboard: `a`..`#` play C2 up to G3.
pub open spec fn row_note(c: char) -> Option<Note> {
    if c == 'a' {
        Some(Note { octave: 2, class: PitchClass::C })
    } else if c == 'w' {
        Some(Note { octave: 2, class: PitchClass::Db })
    } else if c == 's' {
        Some(Note { octave: 2, class: PitchClass::D })
    } else if c == 'e' {
        Some(Note { octave: 2, class: PitchClass::Eb })
    } else if c == 'd' {
        Some(Note { octave: 2, class: PitchClass::E })
    } else if c == 'f' {
        Some(Note { octave: 2, class: PitchClass::F })
    } else if c == 't' {
        Some(Note { octave: 2, class: PitchClass::Gb })
    } else if c == 'g' {
        Some(Note { octave: 2, class: PitchClass::G })
    } else if c == 'z' {
        Some(Note { octave: 2, class: PitchClass::Ab })
    } else if c == 'h' {
        Some(Note { octave: 2, class: PitchClass::A })
    } else if c == 'u' {
        Some(Note { octave: 2, class: PitchClass::Bb })
    } else if c == 'j' {
        Some(Note { octave: 2, class: PitchClass::B })
    } else if c == 'k' {
        Some(Note { octave: 3, class: PitchClass::C })
    } else if c == 'o' {
        Some(Note { octave: 3, class: PitchClass::Db })
    } else if c == 'l' {
        Some(Note { octave: 3, class: PitchClass::D })
    } else if c == 'p' {
        Some(Note { octave: 3, class: PitchClass::Eb })
    } else if c == 'ö' {
        Some(Note { octave: 3, class: PitchClass::E })
    } else if c == 'ä' {
        Some(Note { octave: 3, class: PitchClass::F })
    } else if c == '+' {
        Some(Note { octave: 3, class: PitchClass::Gb })
    } else if c == '#' {
        Some(Note { octave: 3, class: PitchClass::G })
    } else {
        None
    }
}

/// The two shifted keys beyond the rows: `*` plays G♭4 and `'` plays G4.
pub open spec fn extra_note(c: char) -> Option<Note> {
    if c == '*' {
        Some(Note { octave: 4, class: PitchClass::Gb })
    } else if c == '\'' {
        Some(Note { octave: 4, class: PitchClass::G })
    } else {
        None
    }
}

/// `n` moved up by `k` octaves.
pub open spec fn octave_up(n: Note, k: int) -> Note {
    Note { octave: (n.octave + k) as u8, class: n.class }
}

/// The command of a plain character key. An uppercase letter plays the note
/// of its lowercase key one octave higher.
pub open spec fn char_command(c: char) -> Command {
    if row_note(c) is Some {
        Command::PlayNote(row_note(c).unwrap())
    } else if upper_char(c) {
        let l = lower_first(c);
        if row_note(l) is Some {
            Command::PlayNote(octave_up(row_note(l).unwrap(), 1))
        } else if extra_note(l) is Some {
            Command::PlayNote(octave_up(extra_note(l).unwrap(), 1))
        } else {
            Command::Nothing
        }
    } else if extra_note(c) is Some {
        Command::PlayNote(extra_note(c).unwrap())
    } else if c == '1' {
        Command::SetWaveform(Waveform::Sine)
    } else if c == '2' {
        Command::SetWaveform(Waveform::Rect(50))
    } else if c == '3' {
        Command::SetWaveform(Waveform::Saw)
    } else if c == '4' {
        Command::SetWaveform(Waveform::Rect(25))
    } else if c == '5' {
        Command::SetWaveform(Waveform::Rect(10))
    } else if c == 'q' {
        Command::Quit
    } else {
        Command::Nothing
    }
}

/// The command of a key press. Alt with a note key plays that note two
/// octaves higher.
pub open spec fn key_command(k: KeyPress) -> Command {
    match k {
        KeyPress::Char(c) => char_command(c),
        KeyPress::Alt(c) => match char_command(c) {
            Command::PlayNote(n) => Command::PlayNote(octave_up(n, 2)),
            _ => Command::Nothing,
        },
        KeyPress::Ctrl(c) => if c == 'c' {
            Command::Quit
        } else {
            Command::Nothing
        },
        KeyPress::Up => Command::ChangeDecay(DECAY_LONGER),
        KeyPress::Down => Command::ChangeDecay(DECAY_SHORTER),
        KeyPress::Other => Command::Nothing,
    }
}

fn row_key(c: char) -> (r: Option<Note>)
    ensures
        r == row_note(c),
        r is Some ==> 2 <= r.unwrap().octave <= 3,
{
    let (octave, class) = match c {
        'a' => (2u8, PitchClass::C),
        'w' => (2u8, PitchClass::Db),
        's' => (2u8, PitchClass::D),
        'e' => (2u8, PitchClass::Eb),
        'd' => (2u8, PitchClass::E),
        'f' => (2u8, PitchClass::F),
        't' => (2u8, PitchClass::Gb),
        'g' => (2u8, PitchClass::G),
        'z' => (2u8, PitchClass::Ab),
        'h' => (2u8, PitchClass::A),
        'u' => (2u8, PitchClass::Bb),
        'j' => (2u8, PitchClass::B),
        'k' => (3u8, PitchClass::C),
        'o' => (3u8, PitchClass::Db),
        'l' => (3u8, PitchClass::D),
        'p' => (3u8, PitchClass::Eb),
        'ö' => (3u8, PitchClass::E),
        'ä' => (3u8, PitchClass::F),
        '+' => (3u8, PitchClass::Gb),
        '#' => (3u8, PitchClass::G),
        _ => {
            return None;
        },
    };
    Some(Note { octave, class })
}

fn extra_key(c: char) -> (r: Option<Note>)
    ensures
        r == extra_note(c),
        r is Some ==> r.unwrap().octave == 4,
{
    if c == '*' {
        Some(Note { octave: 4, class: PitchClass::Gb })
    } else if c == '\'' {
        Some(Note { octave: 4, class: PitchClass::G })
    } else {
        None
    }
}

fn char_to_command(c: char) -> (r: Command)
    ensures
        r == char_command(c),
        r matches Command::PlayNote(n) ==> 2 <= n.octave <= 5,
{
    if let Some(n) = row_key(c) {
        return Command::PlayNote(n);
    }
    if is_upper(c) {
        // A lowercase mapping is never itself uppercase, so the key it names
        // is looked up among the note keys directly.
        let l = to_lower(c);
        if let Some(n) = row_key(l) {
            return Command::PlayNote(Note { octave: n.octave + 1, class: n.class });
        }
        if let Some(n) = extra_key(l) {
            return Command::PlayNote(Note { octave: n.octave + 1, class: n.class });
        }
        return Command::Nothing;
    }
    if let Some(n) = extra_key(c) {
        return Command::PlayNote(n);
    }
    match c {
        '1' => Command::SetWaveform(Waveform::Sine),
        '2' => Command::SetWaveform(Waveform::Rect(50)),
        '3' => Command::SetWaveform(Waveform::Saw),
        '4' => Command::SetWaveform(Waveform::Rect(25)),
        '5' => Command::SetWaveform(Waveform::Rect(10)),
        'q' => Command::Quit,
        _ => Command::Nothing,
    }
}

/// Maps a key press to the command it stands for.
pub fn key_to_command(key: KeyPress) -> (r: Command)
    ensures
        r == key_command(key),
{
    match key {
        KeyPress::Char(c) => char_to_command(c),
        KeyPress::Alt(c) => match char_to_command(c) {
            Command::PlayNote(n) => Command::PlayNote(Note { octave: n.octave + 2, class: n.class }),
            _ => Command::Nothing,
        },
        KeyPress::Ctrl(c) => if c == 'c' {
            Command::Quit
        } else {
            Command::Nothing
        },
        KeyPress::Up => Command::ChangeDecay(DECAY_LONGER),
        KeyPress::Down => Command::ChangeDecay(DECAY_SHORTER),
        KeyPress::Other => Command::Nothing,
    }
}

} // verus!
