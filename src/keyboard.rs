use vstd::prelude::*;
use crate::pitch::{note_at, Note, PitchClass};
use crate::text::{append, bg_sequence, bg_string, fg_sequence, fg_string};

verus! {

/// Pitch number of the lowest key, C2.
pub const LOWEST_PITCH: u16 = 24;

/// Number of keys drawn: C2 up to, not including, A♭6.
pub const KEY_COUNT: usize = 56;

/// Brightness a key takes when its note is played.
pub const FULL_HIGHLIGHT: u8 = 255;

/// Brightness a key loses at each display refresh.
pub const FADE_STEP: u8 = 12;

/// One key of the on-screen keyboard and how brightly it is lit.
#[derive(Clone, Copy, Debug, PartialEq, Eq, Structural)]
pub struct Key {
    pub note: Note,
    pub highlight: u8,
}

/// The on-screen keyboard: one key per semitone from C2 up to G6, each with
/// a brightness that jumps up when its note is played and fades afterwards.
pub struct Keyboard {
    keys: Vec<Key>,
}

impl Keyboard {
    /// The keys, lowest first.
    pub closed spec fn view(&self) -> Seq<Key> {
        self.keys@
    }

    /// Key `i` plays the note `i` semitones above C2.
    pub open spec fn wf(&self) -> bool {
        &&& self@.len() == KEY_COUNT
        &&& forall|i: int| 0 <= i < KEY_COUNT ==> #[trigger] self@[i].note == note_at(
            (LOWEST_PITCH + i) as nat,
        )
    }

    /// All keys of the range, unlit.
    pub fn new() -> (r: Keyboard)
        ensures
            r.wf(),
            forall|i: int| 0 <= i < KEY_COUNT ==> #[trigger] r@[i].highlight == 0,
    {
        let start = Note { octave: 2, class: PitchClass::C };
        let mut keys: Vec<Key> = Vec::new();
        let mut i: usize = 0;
        while i < KEY_COUNT
            invariant
                i <= KEY_COUNT,
                start == (Note { octave: 2, class: PitchClass::C }),
                keys@.len() == i,
                forall|j: int|
                    0 <= j < i ==> #[trigger] keys@[j] == (Key {
                        note: note_at((LOWEST_PITCH + j) as nat),
                        highlight: 0,
                    }),
            decreases KEY_COUNT - i,
        {
            proof {
                assert(crate::pitch::pitch_of(start) == LOWEST_PITCH);
            }
            let n = match start.shift(i as i32) {
                Some(n) => n,
                None => {
                    proof {
                        assert(false);
                    }
                    start
                },
            };
            keys.push(Key { note: n, highlight: 0 });
            i = i + 1;
        }
        Keyboard { keys }
    }

    /// Number of keys.
    pub fn len(&self) -> (r: usize)
        ensures
            r == self@.len(),
    {
        self.keys.len()
    }

    /// Key `i`, counted from the lowest.
    pub fn key(&self, i: usize) -> (r: Key)
        requires
            i < self@.len(),
        ensures
            r == self@[i as int],
    {
        self.keys[i]
    }

    /// Lights the key of `n` fully; a note outside the range changes nothing.
    pub fn highlight(&mut self, n: Note)
        requires
            old(self).wf(),
        ensures
            final(self).wf(),
            forall|i: int|
                0 <= i < KEY_COUNT ==> #[trigger] final(self)@[i] == (Key {
                    note: old(self)@[i].note,
                    highlight: if old(self)@[i].note == n {
                        FULL_HIGHLIGHT
                    } else {
                        old(self)@[i].highlight
                    },
                }),
    {
        let mut i: usize = 0;
        while i < self.keys.len()
            invariant
                self.wf(),
                old(self).wf(),
                i <= KEY_COUNT,
                forall|j: int| 0 <= j < i ==> #[trigger] self@[j].note != n,
                forall|j: int| 0 <= j < KEY_COUNT ==> #[trigger] self@[j] == old(self)@[j],
            decreases KEY_COUNT - i,
        {
            if self.keys[i].note == n {
                let k = Key { note: n, highlight: FULL_HIGHLIGHT };
                self.keys.set(i, k);
                proof {
                    assert forall|j: int| 0 <= j < KEY_COUNT && j != i implies old(
                        self,
                    )@[j].note != n by {
                        assert(old(self)@[j].note == note_at((LOWEST_PITCH + j) as nat));
                        assert(old(self)@[i as int].note == note_at((LOWEST_PITCH + i) as nat));
                        crate::pitch::lemma_pitch_note_at((LOWEST_PITCH + j) as nat);
                        crate::pitch::lemma_pitch_note_at((LOWEST_PITCH + i) as nat);
                    }
                }
                return;
            }
            i = i + 1;
        }
    }

    /// Fades every key by one step, stopping at unlit.
    pub fn update(&mut self)
        requires
            old(self).wf(),
        ensures
            final(self).wf(),
            forall|i: int|
                0 <= i < KEY_COUNT ==> #[trigger] final(self)@[i] == (Key {
                    note: old(self)@[i].note,
                    highlight: if old(self)@[i].highlight >= FADE_STEP {
                        (old(self)@[i].highlight - FADE_STEP) as u8
                    } else {
                        0
                    },
                }),
    {
        let mut i: usize = 0;
        while i < self.keys.len()
            invariant
                i <= KEY_COUNT,
                self@.len() == KEY_COUNT,
                forall|j: int|
                    0 <= j < i ==> #[trigger] self@[j] == (Key {
                        note: old(self)@[j].note,
                        highlight: if old(self)@[j].highlight >= FADE_STEP {
                            (old(self)@[j].highlight - FADE_STEP) as u8
                        } else {
                            0
                        },
                    }),
                forall|j: int| i <= j < KEY_COUNT ==> #[trigger] self@[j] == old(self)@[j],
                old(self).wf(),
            decreases KEY_COUNT - i,
        {
            let k = self.keys[i];
            let faded = Key { note: k.note, highlight: k.highlight.saturating_sub(FADE_STEP) };
            self.keys.set(i, faded);
            i = i + 1;
        }
        proof {
            assert forall|i: int| 0 <= i < KEY_COUNT implies #[trigger] self@[i].note == note_at(
                (LOWEST_PITCH + i) as nat,
            ) by {
                assert(old(self)@[i].note == note_at((LOWEST_PITCH + i) as nat));
            }
        }
    }
}


/// How the key `k0` is drawn, next to the key `k1` above it: the foreground
/// fades from white to blue as `k0` lights up, and the background under the
/// black key between them turns blue as `k1` lights up.
pub open spec fn painted_cell(k0: Key, k1: Key) -> Seq<char> {
    let hl0 = (255 - k0.highlight) as u8;
    let hl1 = k1.highlight;
    let fg = fg_sequence(hl0, hl0, 255);
    let bg = bg_sequence(0, 0, hl1);
    let bg2 = bg_sequence((255 - hl1) as u8, (255 - hl1) as u8, 255);
    match k0.note.class {
        PitchClass::C | PitchClass::D => fg + bg + seq!['▙'],
        PitchClass::E => fg + bg2 + seq!['▌'],
        PitchClass::F => bg,
        PitchClass::G | PitchClass::A | PitchClass::B => fg + seq!['▟'] + bg,
        _ => Seq::empty(),
    }
}

/// The cells of the first `n` keys, each drawn next to its upper neighbour.
pub open spec fn painted_prefix(keys: Seq<Key>, n: nat) -> Seq<char>
    decreases n,
{
    if n == 0 {
        Seq::empty()
    } else {
        painted_prefix(keys, (n - 1) as nat) + painted_cell(keys[n - 1], keys[n as int])
    }
}

/// The coloured keyboard: every key but the last drawn next to its upper
/// neighbour, then the right half of the last key.
pub open spec fn painted(keys: Seq<Key>) -> Seq<char> {
    let last = keys.last();
    let hl = (255 - last.highlight) as u8;
    painted_prefix(keys, (keys.len() - 1) as nat) + fg_sequence(hl, hl, 255) + seq!['▟']
}

/// The glyph of one key in the plain outline.
pub open spec fn outline_glyph(k: Key) -> Seq<char> {
    match k.note.class {
        PitchClass::C | PitchClass::D => seq!['▙'],
        PitchClass::F => seq!['█'],
        PitchClass::G | PitchClass::A | PitchClass::B => seq!['▟'],
        _ => Seq::empty(),
    }
}

/// The plain outline of the first `n` keys.
pub open spec fn outlined(keys: Seq<Key>, n: nat) -> Seq<char>
    decreases n,
{
    if n == 0 {
        Seq::empty()
    } else {
        outlined(keys, (n - 1) as nat) + outline_glyph(keys[n - 1])
    }
}

fn paint_cell(res: &mut String, k0: Key, k1: Key)
    ensures
        final(res)@ == old(res)@ + painted_cell(k0, k1),
{
    let hl0 = 255 - k0.highlight;
    let hl1 = k1.highlight;
    let fg = fg_string(hl0, hl0, 255);
    let bg = bg_string(0, 0, hl1);
    let bg2 = bg_string(255 - hl1, 255 - hl1, 255);
    proof {
        reveal_strlit("▙");
        reveal_strlit("▌");
        reveal_strlit("▟");
    }
    match k0.note.class {
        PitchClass::C | PitchClass::D => {
            append(res, fg.as_str());
            append(res, bg.as_str());
            append(res, "▙");
            assert(final(res)@ =~= old(res)@ + painted_cell(k0, k1));
        },
        PitchClass::E => {
            append(res, fg.as_str());
            append(res, bg2.as_str());
            append(res, "▌");
            assert(final(res)@ =~= old(res)@ + painted_cell(k0, k1));
        },
        PitchClass::F => {
            append(res, bg.as_str());
        },
        PitchClass::G | PitchClass::A | PitchClass::B => {
            append(res, fg.as_str());
            append(res, "▟");
            append(res, bg.as_str());
            assert(final(res)@ =~= old(res)@ + painted_cell(k0, k1));
        },
        _ => {
            assert(final(res)@ =~= old(res)@ + painted_cell(k0, k1));
        },
    }
}

impl Keyboard {
    /// The keyboard in colour, as terminal text: each key shows how brightly
    /// it is lit.
    pub fn paint(&self) -> (r: String)
        requires
            self.wf(),
        ensures
            r@ == painted(self@),
    {
        let mut res = String::new();
        let mut i: usize = 0;
        while i + 1 < self.keys.len()
            invariant
                self.wf(),
                i + 1 <= KEY_COUNT,
                res@ == painted_prefix(self@, i as nat),
            decreases KEY_COUNT - i,
        {
            paint_cell(&mut res, self.keys[i], self.keys[i + 1]);
            i = i + 1;
        }
        let hl = 255 - self.keys[KEY_COUNT - 1].highlight;
        let fg = fg_string(hl, hl, 255);
        append(&mut res, fg.as_str());
        proof {
            reveal_strlit("▟");
        }
        append(&mut res, "▟");
        assert(res@ =~= painted(self@));
        res
    }

    /// The keyboard's plain outline, one glyph per white-key part.
    pub fn outline(&self) -> (r: String)
        ensures
            r@ == outlined(self@, self@.len()),
    {
        let mut res = String::new();
        let mut i: usize = 0;
        while i < self.keys.len()
            invariant
                i <= self@.len(),
                res@ == outlined(self@, i as nat),
            decreases self@.len() - i,
        {
            let ghost before = res@;
            proof {
                reveal_strlit("▙");
                reveal_strlit("█");
                reveal_strlit("▟");
            }
            match self.keys[i].note.class {
                PitchClass::C | PitchClass::D => append(&mut res, "▙"),
                PitchClass::F => append(&mut res, "█"),
                PitchClass::G | PitchClass::A | PitchClass::B => append(&mut res, "▟"),
                _ => {},
            }
            assert(res@ =~= before + outline_glyph(self@[i as int]));
            i = i + 1;
        }
        res
    }
}

} // verus!
