use keysynth::command::{Command, Waveform};
use keysynth::engine::{Action, Control, HistoryStage, RoundRobin};
use keysynth::pitch::{note, PitchClass};
use keysynth::{DECIMATION, HISTORY_LENGTH, NUM_VOICES};

#[test]
fn empty_pool_is_refused() {
    assert!(RoundRobin::new(0).is_none());
    assert!(Control::new(0).is_none());
}

#[test]
fn round_robin_assigns_in_order() {
    let mut pool = RoundRobin::new(NUM_VOICES).unwrap();
    let got: Vec<usize> = (0..10).map(|_| pool.allocate()).collect();
    assert_eq!(got, vec![0, 1, 2, 3, 0, 1, 2, 3, 0, 1]);
    assert_eq!(pool.next_voice(), 2);
    assert_eq!(pool.size(), 4);
}

#[test]
fn round_robin_single_voice() {
    let mut pool = RoundRobin::new(1).unwrap();
    assert_eq!(pool.allocate(), 0);
    assert_eq!(pool.allocate(), 0);
}

#[test]
fn notes_land_on_successive_voices() {
    let mut c = Control::new(3).unwrap();
    let a4 = note(PitchClass::A, 4);
    let mut voices = Vec::new();
    for _ in 0..7 {
        match c.apply(Some(Command::PlayNote(a4))) {
            Action::Start { voice, note } => {
                assert_eq!(note, a4);
                voices.push(voice);
            }
            other => panic!("unexpected {:?}", other),
        }
    }
    assert_eq!(voices, vec![0, 1, 2, 0, 1, 2, 0]);
}

#[test]
fn one_command_per_sample_in_order() {
    let mut queue = std::collections::VecDeque::new();
    queue.push_back(Command::PlayNote(note(PitchClass::C, 3)));
    queue.push_back(Command::SetWaveform(Waveform::Saw));
    queue.push_back(Command::ChangeDecay(80));
    queue.push_back(Command::PlayNote(note(PitchClass::E, 3)));
    queue.push_back(Command::SetWaveform(Waveform::Rect(25)));
    let mut c = Control::new(NUM_VOICES).unwrap();
    assert_eq!(c.waveform(), Waveform::Sine);
    let mut actions = Vec::new();
    for _ in 0..5 {
        actions.push(c.apply(queue.pop_front()));
        if actions.len() == 2 {
            assert_eq!(c.waveform(), Waveform::Saw);
        }
    }
    assert_eq!(
        actions,
        vec![
            Action::Start { voice: 0, note: note(PitchClass::C, 3) },
            Action::Idle,
            Action::Decay(80),
            Action::Start { voice: 1, note: note(PitchClass::E, 3) },
            Action::Idle,
        ]
    );
    assert_eq!(c.waveform(), Waveform::Rect(25));
    assert_eq!(c.apply(queue.pop_front()), Action::Idle);
    assert_eq!(c.voice_count(), NUM_VOICES);
}

#[test]
fn quit_and_nothing_leave_state() {
    let mut c = Control::new(2).unwrap();
    assert_eq!(c.apply(Some(Command::Quit)), Action::Idle);
    assert_eq!(c.apply(Some(Command::Nothing)), Action::Idle);
    assert_eq!(c.apply(None), Action::Idle);
    assert_eq!(c.waveform(), Waveform::Sine);
    assert_eq!(c.apply(Some(Command::PlayNote(note(PitchClass::C, 2)))), Action::Start { voice: 0, note: note(PitchClass::C, 2) });
}

#[test]
fn window_completes_every_ten_samples() {
    let mut h: HistoryStage<i32> = HistoryStage::new();
    let ends: Vec<bool> = (0..25).map(|_| h.end_sample()).collect();
    for (i, e) in ends.iter().enumerate() {
        assert_eq!(*e, (i + 1) % DECIMATION == 0);
    }
}

#[test]
fn ten_equal_samples_stage_their_value() {
    let mut h: HistoryStage<i32> = HistoryStage::new();
    let v = 7;
    let mut sum = 0;
    let mut published = None;
    for _ in 0..DECIMATION {
        sum += v;
        if h.end_sample() {
            published = h.stage(sum / DECIMATION as i32);
        }
    }
    assert!(published.is_none());
    assert_eq!(h.staged_count(), 1);
    assert_eq!(h.staged_entry(0), v);
    let mut rest = None;
    for _ in 1..HISTORY_LENGTH {
        rest = h.stage(0);
    }
    let buf = rest.unwrap();
    assert_eq!(buf[0], 7);
}

#[test]
fn full_history_is_published_whole() {
    let mut h: HistoryStage<i64> = HistoryStage::new();
    let v: i64 = -3;
    let mut sum: i64 = 0;
    let mut published = Vec::new();
    for _ in 0..DECIMATION * HISTORY_LENGTH {
        sum += v;
        if h.end_sample() {
            if let Some(buf) = h.stage(sum / DECIMATION as i64) {
                published.push(buf);
            }
            sum = 0;
        }
    }
    assert_eq!(published.len(), 1);
    assert_eq!(published[0].len(), HISTORY_LENGTH);
    assert!(published[0].iter().all(|x| *x == v));
}

#[test]
fn stage_keeps_order_and_restarts() {
    let mut h: HistoryStage<usize> = HistoryStage::new();
    let mut first = None;
    for i in 0..HISTORY_LENGTH {
        let r = h.stage(i);
        if i + 1 < HISTORY_LENGTH {
            assert!(r.is_none());
        } else {
            first = r;
        }
    }
    assert_eq!(first.unwrap(), (0..HISTORY_LENGTH).collect::<Vec<usize>>());
    let mut second = None;
    for i in 0..HISTORY_LENGTH {
        second = h.stage(1000 + i);
    }
    assert_eq!(second.unwrap()[0], 1000);
}
