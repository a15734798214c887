use vstd::prelude::*;
use crate::command::{Command, Waveform};
use crate::pitch::Note;
use crate::{DECIMATION, HISTORY_LENGTH};

verus! {

/// Round-robin choice of the voice that the next note takes over, whether or
/// not that voice is still sounding.
pub struct RoundRobin {
    size: usize,
    cursor: usize,
    issued: Ghost<nat>,
}

impl RoundRobin {
    /// Number of voices in the pool.
    pub closed spec fn pool_size(&self) -> nat {
        self.size as nat
    }

    /// Number of voices handed out since creation.
    pub closed spec fn issued(&self) -> nat {
        self.issued@
    }

    pub closed spec fn wf(&self) -> bool {
        &&& self.size > 0
        &&& self.cursor == self.issued@ % (self.size as nat)
    }

    /// A pool of `size` voices, none handed out yet; `None` for an empty pool.
    pub fn new(size: usize) -> (r: Option<RoundRobin>)
        ensures
            r is None <==> size == 0,
            r matches Some(p) ==> p.wf() && p.pool_size() == size && p.issued() == 0,
    {
        if size == 0 {
            None
        } else {
            proof {
                vstd::arithmetic::div_mod::lemma_small_mod(0, size as nat);
            }
            Some(RoundRobin { size, cursor: 0, issued: Ghost(0) })
        }
    }

    /// Number of voices in the pool.
    pub fn size(&self) -> (r: usize)
        ensures
            r == self.pool_size(),
    {
        self.size
    }

    /// The voice that the next note will take.
    pub fn next_voice(&self) -> (r: usize)
        requires
            self.wf(),
        ensures
            r == self.issued() % self.pool_size(),
    {
        self.cursor
    }

    /// Hands out the next voice: the note counted `issued` since creation
    /// lands on voice `issued mod size`.
    pub fn allocate(&mut self) -> (r: usize)
        requires
            old(self).wf(),
        ensures
            final(self).wf(),
            r == old(self).issued() % old(self).pool_size(),
            r < old(self).pool_size(),
            final(self).issued() == old(self).issued() + 1,
            final(self).pool_size() == old(self).pool_size(),
    {
        let r = self.cursor;
        proof {
            lemma_round_robin_order(self.issued@, self.size as nat);
        }
        self.cursor = if self.cursor + 1 == self.size {
            0
        } else {
            self.cursor + 1
        };
        self.issued = Ghost(self.issued@ + 1);
        r
    }
}

/// Successive allocations walk the voices in order and wrap from the last
/// one back to the first.
pub proof fn lemma_round_robin_order(issued: nat, size: nat)
    requires
        size > 0,
    ensures
        (issued + 1) % size == if issued % size + 1 == size {
            0
        } else {
            issued % size + 1
        },
        issued < size ==> issued % size == issued,
{
    let q = issued as int / size as int;
    let r = issued as int % size as int;
    vstd::arithmetic::div_mod::lemma_fundamental_div_mod(issued as int, size as int);
    if r + 1 < size {
        vstd::arithmetic::div_mod::lemma_fundamental_div_mod_converse(
            issued + 1 as int,
            size as int,
            q,
            r + 1,
        );
    } else {
        assert(issued + 1 == (q + 1) * size) by (nonlinear_arith)
            requires
                issued == q * size + r,
                r + 1 == size,
        ;
        vstd::arithmetic::div_mod::lemma_fundamental_div_mod_converse(
            issued + 1 as int,
            size as int,
            q + 1,
            0,
        );
    }
    if issued < size {
        vstd::arithmetic::div_mod::lemma_small_mod(issued, size);
    }
}

/// What the sample loop must do with the voices after a command was applied.
#[derive(Clone, Copy, Debug, PartialEq, Eq, Structural)]
pub enum Action {
    /// Restart voice `voice` at the frequency of `note`, phase 0 and full share
    /// of the amplitude.
    Start { voice: usize, note: Note },
    /// Raise the decay coefficient to this power (in hundredths), then clamp
    /// it from below.
    Decay(u16),
    /// Nothing to do to the voices.
    Idle,
}

/// The control state of the synthesis engine: voice allocation and the
/// waveform selection. Sound itself is computed by the caller.
pub struct Control {
    voices: RoundRobin,
    waveform: Waveform,
}

impl Control {
    pub closed spec fn wf(&self) -> bool {
        self.voices.wf()
    }

    /// The waveform currently selected.
    pub closed spec fn shape(&self) -> Waveform {
        self.waveform
    }

    /// Number of voices in the pool.
    pub closed spec fn pool_size(&self) -> nat {
        self.voices.pool_size()
    }

    /// Number of notes played since creation.
    pub closed spec fn notes_played(&self) -> nat {
        self.voices.issued()
    }

    /// Control for `voices` voices, playing sines; `None` for an empty pool.
    pub fn new(voices: usize) -> (r: Option<Control>)
        ensures
            r is None <==> voices == 0,
            r matches Some(c) ==> c.wf() && c.pool_size() == voices && c.notes_played() == 0
                && c.shape() == Waveform::Sine,
    {
        match RoundRobin::new(voices) {
            Some(v) => Some(Control { voices: v, waveform: Waveform::Sine }),
            None => None,
        }
    }

    /// The waveform currently selected.
    pub fn waveform(&self) -> (r: Waveform)
        ensures
            r == self.shape(),
    {
        self.waveform
    }

    /// Number of voices in the pool.
    pub fn voice_count(&self) -> (r: usize)
        ensures
            r == self.pool_size(),
    {
        self.voices.size()
    }

    /// Applies the command received for this sample, if any. At most one
    /// command is taken per sample; a backlog drains one per sample in order.
    pub fn apply(&mut self, cmd: Option<Command>) -> (r: Action)
        requires
            old(self).wf(),
        ensures
            final(self).wf(),
            final(self).pool_size() == old(self).pool_size(),
            match cmd {
                Some(Command::PlayNote(n)) => {
                    &&& r == (Action::Start {
                        voice: (old(self).notes_played() % old(self).pool_size()) as usize,
                        note: n,
                    })
                    &&& final(self).notes_played() == old(self).notes_played() + 1
                    &&& final(self).shape() == old(self).shape()
                },
                Some(Command::SetWaveform(w)) => {
                    &&& r == Action::Idle
                    &&& final(self).notes_played() == old(self).notes_played()
                    &&& final(self).shape() == w
                },
                Some(Command::ChangeDecay(e)) => {
                    &&& r == Action::Decay(e)
                    &&& final(self).notes_played() == old(self).notes_played()
                    &&& final(self).shape() == old(self).shape()
                },
                _ => {
                    &&& r == Action::Idle
                    &&& final(self).notes_played() == old(self).notes_played()
                    &&& final(self).shape() == old(self).shape()
                },
            },
    {
        match cmd {
            Some(Command::PlayNote(n)) => {
                let voice = self.voices.allocate();
                Action::Start { voice, note: n }
            },
            Some(Command::SetWaveform(w)) => {
                self.waveform = w;
                Action::Idle
            },
            Some(Command::ChangeDecay(e)) => Action::Decay(e),
            _ => Action::Idle,
        }
    }
}

/// The decimation state of the history: the count of samples in the current
/// window, and the window means staged since the last publication.
pub struct HistoryStage<T> {
    window: usize,
    entries: Vec<T>,
}

impl<T: Copy> HistoryStage<T> {
    /// Samples counted in the current window.
    pub closed spec fn window_fill(&self) -> nat {
        self.window as nat
    }

    /// Window means staged and not yet published.
    pub closed spec fn staged(&self) -> Seq<T> {
        self.entries@
    }

    pub closed spec fn wf(&self) -> bool {
        &&& self.window < DECIMATION
        &&& self.entries@.len() < HISTORY_LENGTH
    }

    /// An empty stage.
    pub fn new() -> (r: HistoryStage<T>)
        ensures
            r.wf(),
            r.window_fill() == 0,
            r.staged() == Seq::<T>::empty(),
    {
        HistoryStage { window: 0, entries: Vec::new() }
    }

    /// Counts one more sample; `true` when this completes a window of
    /// `DECIMATION` samples, whose mean the caller then stages. The count
    /// starts over after each window.
    pub fn end_sample(&mut self) -> (r: bool)
        requires
            old(self).wf(),
        ensures
            final(self).wf(),
            r == (old(self).window_fill() + 1 == DECIMATION),
            final(self).window_fill() == if r {
                0
            } else {
                old(self).window_fill() + 1
            },
            final(self).staged() == old(self).staged(),
    {
        if self.window + 1 == DECIMATION {
            self.window = 0;
            true
        } else {
            self.window = self.window + 1;
            false
        }
    }

    /// Number of window means staged and not yet published.
    pub fn staged_count(&self) -> (r: usize)
        ensures
            r == self.staged().len(),
    {
        self.entries.len()
    }

    /// The `i`-th staged window mean, oldest first.
    pub fn staged_entry(&self, i: usize) -> (r: T)
        requires
            i < self.staged().len(),
        ensures
            r == self.staged()[i as int],
    {
        self.entries[i]
    }

    /// Stages the mean of a completed window. When that fills the history,
    /// the whole history comes back to be published and the stage empties.
    pub fn stage(&mut self, entry: T) -> (r: Option<Vec<T>>)
        requires
            old(self).wf(),
        ensures
            final(self).wf(),
            final(self).window_fill() == old(self).window_fill(),
            old(self).staged().len() + 1 == HISTORY_LENGTH ==> {
                &&& r matches Some(h)
                &&& h@ == old(self).staged().push(entry)
                &&& final(self).staged() == Seq::<T>::empty()
            },
            old(self).staged().len() + 1 < HISTORY_LENGTH ==> {
                &&& r is None
                &&& final(self).staged() == old(self).staged().push(entry)
            },
    {
        self.entries.push(entry);
        if self.entries.len() == HISTORY_LENGTH {
            let mut full: Vec<T> = Vec::new();
            core::mem::swap(&mut full, &mut self.entries);
            Some(full)
        } else {
            None
        }
    }
}

} // verus!
