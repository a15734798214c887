use vstd::prelude::*;

verus! {

/// One of the twelve equal-tempered semitone names within an octave.
#[derive(Clone, Copy, Debug, PartialEq, Eq, Structural, PartialOrd, Ord, Hash)]
pub enum PitchClass {
    C,
    Db,
    D,
    Eb,
    E,
    F,
    Gb,
    G,
    Ab,
    A,
    Bb,
    B,
}

/// Position of a pitch class within the octave, C being 0.
pub open spec fn class_index(c: PitchClass) -> nat {
    match c {
        PitchClass::C => 0,
        PitchClass::Db => 1,
        PitchClass::D => 2,
        PitchClass::Eb => 3,
        PitchClass::E => 4,
        PitchClass::F => 5,
        PitchClass::Gb => 6,
        PitchClass::G => 7,
        PitchClass::Ab => 8,
        PitchClass::A => 9,
        PitchClass::Bb => 10,
        PitchClass::B => 11,
    }
}

impl PitchClass {
    /// Position of this class within the octave, C being 0.
    pub fn index(self) -> (r: u8)
        ensures
            r as nat == class_index(self),
    {
        match self {
            PitchClass::C => 0,
            PitchClass::Db => 1,
            PitchClass::D => 2,
            PitchClass::Eb => 3,
            PitchClass::E => 4,
            PitchClass::F => 5,
            PitchClass::Gb => 6,
            PitchClass::G => 7,
            PitchClass::Ab => 8,
            PitchClass::A => 9,
            PitchClass::Bb => 10,
            PitchClass::B => 11,
        }
    }
}


/// The pitch class at position `i` within the octave (taken modulo 12).
pub open spec fn class_at(i: nat) -> PitchClass {
    let k = i % 12;
    if k == 0 {
        PitchClass::C
    } else if k == 1 {
        PitchClass::Db
    } else if k == 2 {
        PitchClass::D
    } else if k == 3 {
        PitchClass::Eb
    } else if k == 4 {
        PitchClass::E
    } else if k == 5 {
        PitchClass::F
    } else if k == 6 {
        PitchClass::Gb
    } else if k == 7 {
        PitchClass::G
    } else if k == 8 {
        PitchClass::Ab
    } else if k == 9 {
        PitchClass::A
    } else if k == 10 {
        PitchClass::Bb
    } else {
        PitchClass::B
    }
}

impl From<u8> for PitchClass {
    /// The class `u` semitones above C, wrapping around the octave.
    fn from(u: u8) -> (r: PitchClass) {
        match u % 12 {
            0 => PitchClass::C,
            1 => PitchClass::Db,
            2 => PitchClass::D,
            3 => PitchClass::Eb,
            4 => PitchClass::E,
            5 => PitchClass::F,
            6 => PitchClass::Gb,
            7 => PitchClass::G,
            8 => PitchClass::Ab,
            9 => PitchClass::A,
            10 => PitchClass::Bb,
            _ => PitchClass::B,
        }
    }
}

impl vstd::std_specs::convert::FromSpecImpl<u8> for PitchClass {
    open spec fn obeys_from_spec() -> bool {
        true
    }

    open spec fn from_spec(v: u8) -> PitchClass {
        class_at(v as nat)
    }
}

/// The index of the class at `i` is `i` reduced modulo 12.
pub proof fn lemma_index_class_at(i: nat)
    ensures
        class_index(class_at(i)) == i % 12,
{
}


/// One past the highest pitch number a note can have.
pub const PITCH_LIMIT: i64 = 3072;

/// A pitch class in a given octave.
///
/// Notes are ordered by pitch, which is the order of their equal-tempered
/// frequencies: A in octave 4 is 440 Hz and every semitone up multiplies the
/// frequency by the twelfth root of two.
#[derive(Clone, Copy, Debug, PartialEq, Eq, Structural, Ord, Hash)]
pub struct Note {
    pub octave: u8,
    pub class: PitchClass,
}

/// Semitones above C in octave 0; the frequency of a note grows strictly with it.
pub open spec fn pitch_of(n: Note) -> int {
    12 * n.octave + class_index(n.class)
}

/// The note with pitch number `p`.
pub open spec fn note_at(p: nat) -> Note {
    Note { octave: (p / 12) as u8, class: class_at(p) }
}

/// The note `s` semitones away from `n`, or `None` when its octave would fall
/// below 0 or above 255.
pub open spec fn shifted(n: Note, s: int) -> Option<Note> {
    let p = pitch_of(n) + s;
    if 0 <= p < PITCH_LIMIT {
        Some(note_at(p as nat))
    } else {
        None
    }
}

/// Builds the note of class `class` in octave `octave`.
pub fn note(class: PitchClass, octave: u8) -> (r: Note)
    ensures
        r == (Note { octave, class }),
{
    Note { octave, class }
}

/// Pitch numbers lie in `0 .. PITCH_LIMIT`.
pub proof fn lemma_pitch_range(n: Note)
    ensures
        0 <= pitch_of(n) < PITCH_LIMIT,
{
}

/// A note is determined by its pitch number.
pub proof fn lemma_note_at_pitch(n: Note)
    ensures
        note_at(pitch_of(n) as nat) == n,
{
    let p = pitch_of(n) as nat;
    assert(p / 12 == n.octave as nat);
    assert(p % 12 == class_index(n.class));
}

/// The pitch number of the note at `p` is `p`.
pub proof fn lemma_pitch_note_at(p: nat)
    requires
        p < PITCH_LIMIT,
    ensures
        pitch_of(note_at(p)) == p,
{
    lemma_index_class_at(p);
}

/// Two notes are equal exactly when their pitch numbers are.
pub proof fn lemma_pitch_injective(a: Note, b: Note)
    ensures
        (pitch_of(a) == pitch_of(b)) <==> (a == b),
{
    lemma_note_at_pitch(a);
    lemma_note_at_pitch(b);
}

/// Shifting a note by `s` semitones and then by `-s` gives the note back,
/// whenever the first shift stays within the octave range.
pub proof fn lemma_shift_round_trip(n: Note, s: int)
    requires
        shifted(n, s) is Some,
    ensures
        shifted(shifted(n, s).unwrap(), -s) == Some(n),
{
    let p = (pitch_of(n) + s) as nat;
    lemma_pitch_note_at(p);
    lemma_note_at_pitch(n);
}

impl Note {
    /// Semitones above C in octave 0.
    pub fn pitch_number(self) -> (r: u16)
        ensures
            r as int == pitch_of(self),
    {
        12 * (self.octave as u16) + (self.class.index() as u16)
    }

    /// The note `semitones` away from this one: the class moves modulo 12 and
    /// the octave carries. `None` when the octave would leave 0 ..= 255.
    pub fn shift(self, semitones: i32) -> (r: Option<Note>)
        ensures
            r == shifted(self, semitones as int),
    {
        let p: i64 = self.pitch_number() as i64 + semitones as i64;
        if 0 <= p && p < PITCH_LIMIT {
            let octave: u8 = (p / 12) as u8;
            let class = PitchClass::from((p % 12) as u8);
            proof {
                lemma_index_class_at((p % 12) as nat);
                lemma_index_class_at(p as nat);
                assert(class_at((p % 12) as nat) == class_at(p as nat)) by {
                    assert(((p % 12) as nat) % 12 == (p as nat) % 12);
                }
            }
            Some(Note { octave, class })
        } else {
            None
        }
    }

    /// The note `rhs` semitones higher, or `None` above octave 255.
    pub fn add_semitones(self, rhs: u8) -> (r: Option<Note>)
        ensures
            r == shifted(self, rhs as int),
    {
        self.shift(rhs as i32)
    }

    /// The note `rhs` semitones lower, or `None` below octave 0.
    pub fn sub_semitones(self, rhs: u8) -> (r: Option<Note>)
        ensures
            r == shifted(self, -(rhs as int)),
    {
        self.shift(-(rhs as i32))
    }

    /// Raises this note by `rhs` semitones in place. When that would leave the
    /// octave range the note is kept and `false` comes back.
    pub fn add_assign_semitones(&mut self, rhs: u8) -> (ok: bool)
        ensures
            ok == (shifted(*old(self), rhs as int) is Some),
            ok ==> Some(*final(self)) == shifted(*old(self), rhs as int),
            !ok ==> *final(self) == *old(self),
    {
        match self.add_semitones(rhs) {
            Some(n) => {
                *self = n;
                true
            },
            None => false,
        }
    }

    /// Signed number of semitones from `other` up to this note.
    pub fn distance(self, other: Note) -> (r: i16)
        ensures
            r as int == pitch_of(self) - pitch_of(other),
    {
        self.pitch_number() as i16 - other.pitch_number() as i16
    }

    /// Compares two notes by pitch (equivalently, by frequency).
    pub fn compare(&self, other: &Note) -> (r: core::cmp::Ordering)
        ensures
            r == pitch_order(*self, *other),
    {
        let a = self.pitch_number();
        let b = other.pitch_number();
        if a < b {
            core::cmp::Ordering::Less
        } else if a == b {
            core::cmp::Ordering::Equal
        } else {
            core::cmp::Ordering::Greater
        }
    }

    /// Number of semitones from `start` up to `end`, or `None` unless `end` is
    /// strictly higher.
    pub fn steps_between(start: &Note, end: &Note) -> (r: Option<usize>)
        ensures
            pitch_of(*end) > pitch_of(*start) ==> r == Some(
                (pitch_of(*end) - pitch_of(*start)) as usize,
            ),
            pitch_of(*end) <= pitch_of(*start) ==> r is None,
    {
        if end.pitch_number() > start.pitch_number() {
            Some(end.distance(*start) as usize)
        } else {
            None
        }
    }

    /// The note `count` semitones above `start`, or `None` past octave 255.
    pub fn forward_checked(start: Note, count: usize) -> (r: Option<Note>)
        ensures
            r == shifted(start, count as int),
    {
        if count < PITCH_LIMIT as usize {
            start.shift(count as i32)
        } else {
            proof {
                lemma_pitch_range(start);
            }
            None
        }
    }

    /// The note `count` semitones below `start`, or `None` below octave 0.
    pub fn backward_checked(start: Note, count: usize) -> (r: Option<Note>)
        ensures
            r == shifted(start, -(count as int)),
    {
        if count < PITCH_LIMIT as usize {
            start.shift(-(count as i32))
        } else {
            proof {
                lemma_pitch_range(start);
            }
            None
        }
    }
}

/// The order of two notes by pitch.
pub open spec fn pitch_order(a: Note, b: Note) -> core::cmp::Ordering {
    if pitch_of(a) < pitch_of(b) {
        core::cmp::Ordering::Less
    } else if pitch_of(a) == pitch_of(b) {
        core::cmp::Ordering::Equal
    } else {
        core::cmp::Ordering::Greater
    }
}

impl PartialOrd for Note {
    fn partial_cmp(&self, other: &Note) -> (r: Option<core::cmp::Ordering>) {
        Some(self.compare(other))
    }
}

impl vstd::std_specs::cmp::PartialOrdSpecImpl for Note {
    open spec fn obeys_partial_cmp_spec() -> bool {
        true
    }

    open spec fn partial_cmp_spec(&self, other: &Note) -> Option<core::cmp::Ordering> {
        Some(pitch_order(*self, *other))
    }
}

/// Notes compare equal by pitch exactly when they are the same note, so the
/// pitch order is a total order on notes.
pub proof fn lemma_order_equal_iff_same(a: Note, b: Note)
    ensures
        (pitch_order(a, b) == core::cmp::Ordering::Equal) <==> (a == b),
        pitch_order(a, b) == core::cmp::Ordering::Less <==> pitch_order(b, a)
            == core::cmp::Ordering::Greater,
{
    lemma_pitch_injective(a, b);
}

} // verus!
