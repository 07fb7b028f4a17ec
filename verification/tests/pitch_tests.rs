use piano_roll::Note;
use piano_roll::Pitch;

fn chromatic_scale() -> Vec<Note> {
    vec![
        Note::C,
        Note::CSharp,
        Note::D,
        Note::DSharp,
        Note::E,
        Note::F,
        Note::FSharp,
        Note::G,
        Note::GSharp,
        Note::A,
        Note::ASharp,
        Note::B,
    ]
}

#[test]
fn five_keys_of_the_octave_are_black() {
    let black: Vec<bool> = chromatic_scale().iter().map(|note| note.is_black_key()).collect();
    assert_eq!(
        black,
        vec![false, true, false, true, false, false, true, false, true, false, true, false]
    );
}

#[test]
fn chromatic_index_counts_up_from_c() {
    let scale: Vec<Note> = chromatic_scale();
    let mut place: usize = 0;
    while place < 12 {
        assert_eq!(scale[place].chromatic_index() as usize, place);
        place += 1;
    }
    assert_eq!(Note::C.chromatic_index(), 0);
    assert_eq!(Note::B.chromatic_index(), 11);
}

#[test]
fn from_chromatic_index_undoes_chromatic_index() {
    let scale: Vec<Note> = chromatic_scale();
    let mut place: u8 = 0;
    while place < 12 {
        assert_eq!(Note::from_chromatic_index(place), Some(scale[place as usize]));
        place += 1;
    }
}

#[test]
fn from_chromatic_index_knows_twelve_positions() {
    assert_eq!(Note::from_chromatic_index(12), None);
    assert_eq!(Note::from_chromatic_index(13), None);
    assert_eq!(Note::from_chromatic_index(255), None);
}

#[test]
fn the_derived_order_of_notes_is_chromatic() {
    let scale: Vec<Note> = chromatic_scale();
    let mut place: usize = 0;
    while place + 1 < 12 {
        assert!(scale[place] < scale[place + 1]);
        place += 1;
    }
}

#[test]
fn add_semitones_steps_up_the_scale() {
    assert_eq!(Note::C.add_semitones(1), Note::CSharp);
    assert_eq!(Note::C.add_semitones(2), Note::D);
    assert_eq!(Note::E.add_semitones(1), Note::F);
    assert_eq!(Note::A.add_semitones(5), Note::D);
    assert_eq!(Note::G.add_semitones(4), Note::B);
}

#[test]
fn add_semitones_wraps_past_b() {
    assert_eq!(Note::B.add_semitones(1), Note::C);
    assert_eq!(Note::ASharp.add_semitones(3), Note::CSharp);
    assert_eq!(Note::C.add_semitones(25), Note::CSharp);
}

#[test]
fn add_semitones_steps_down_when_negative() {
    assert_eq!(Note::C.add_semitones(-1), Note::B);
    assert_eq!(Note::D.add_semitones(-2), Note::C);
    assert_eq!(Note::C.add_semitones(-25), Note::B);
    assert_eq!(Note::F.add_semitones(-12), Note::F);
    assert_eq!(Note::F.add_semitones(-13), Note::E);
}

#[test]
fn add_semitones_takes_every_step_size() {
    // i32::MAX is 7 modulo 12, i32::MIN is 4 modulo 12.
    assert_eq!(Note::C.add_semitones(i32::MAX), Note::G);
    assert_eq!(Note::C.add_semitones(i32::MIN), Note::E);
    assert_eq!(Note::B.add_semitones(i32::MAX), Note::FSharp);
    assert_eq!(Note::B.add_semitones(i32::MIN), Note::DSharp);
}

#[test]
fn no_step_and_an_octave_change_nothing() {
    for note in chromatic_scale() {
        assert_eq!(note.add_semitones(0), note);
        assert_eq!(note.add_semitones(12), note);
        assert_eq!(note.add_semitones(-12), note);
        assert_eq!(note.add_semitones(1200), note);
    }
}

#[test]
fn two_steps_are_one_step_by_their_sum() {
    for note in chromatic_scale() {
        let mut a: i32 = -30;
        while a <= 30 {
            let mut b: i32 = -30;
            while b <= 30 {
                assert_eq!(note.add_semitones(a).add_semitones(b), note.add_semitones(a + b));
                b += 1;
            }
            a += 1;
        }
    }
}

#[test]
fn add_semitones_agrees_with_the_chromatic_index() {
    for note in chromatic_scale() {
        let mut step: i32 = -40;
        while step <= 40 {
            let expected: i32 = (note.chromatic_index() as i32 + step).rem_euclid(12);
            assert_eq!(note.add_semitones(step).chromatic_index() as i32, expected);
            step += 1;
        }
    }
}

#[test]
fn a_new_pitch_holds_what_it_was_given() {
    let pitch: Pitch = Pitch::new(2, Note::C, 0);
    assert_eq!(pitch.octave(), 2);
    assert_eq!(pitch.note(), Note::C);
    assert_eq!(pitch.fine_tune(), 0);
    let other: Pitch = Pitch::new(-1, Note::GSharp, -37);
    assert_eq!(other, Pitch { octave: -1, note: Note::GSharp, fine_tune: -37 });
}

#[test]
fn pitches_compare_by_octave_then_note_then_fine_tune() {
    assert!(Pitch::new(1, Note::B, 99) < Pitch::new(2, Note::C, -99));
    assert!(Pitch::new(2, Note::C, 50) < Pitch::new(2, Note::CSharp, -50));
    assert!(Pitch::new(2, Note::D, 0) < Pitch::new(2, Note::D, 1));
    assert!(Pitch::new(2, Note::D, 1) > Pitch::new(2, Note::D, 0));
    assert!(Pitch::new(2, Note::D, 1) >= Pitch::new(2, Note::D, 1));
    assert!(Pitch::new(2, Note::D, 1) <= Pitch::new(2, Note::D, 1));
    assert!(!(Pitch::new(2, Note::D, 1) < Pitch::new(2, Note::D, 1)));
    assert!(Pitch::new(-3, Note::B, 0) < Pitch::new(-2, Note::C, 0));
    assert_eq!(
        Pitch::new(3, Note::A, 0).partial_cmp(&Pitch::new(3, Note::A, 0)),
        Some(std::cmp::Ordering::Equal)
    );
    assert_eq!(
        Pitch::new(3, Note::A, 0).partial_cmp(&Pitch::new(3, Note::G, 7)),
        Some(std::cmp::Ordering::Greater)
    );
}

#[test]
fn the_hand_written_and_the_derived_order_of_pitches_agree() {
    let octaves: Vec<i32> = vec![-1, 0, 1];
    let tunes: Vec<i32> = vec![-5, 0, 5];
    let mut all: Vec<Pitch> = Vec::new();
    for octave in &octaves {
        for note in chromatic_scale() {
            for tune in &tunes {
                all.push(Pitch::new(*octave, note, *tune));
            }
        }
    }
    for a in &all {
        for b in &all {
            assert_eq!(a.partial_cmp(b), Some(a.cmp(b)));
        }
    }
}

#[test]
fn semitone_up_moves_to_the_next_key() {
    assert_eq!(Pitch::new(2, Note::C, 3).semitone_up(), Pitch::new(2, Note::CSharp, 3));
    assert_eq!(Pitch::new(2, Note::E, 0).semitone_up(), Pitch::new(2, Note::F, 0));
    assert_eq!(Pitch::new(2, Note::B, -4).semitone_up(), Pitch::new(3, Note::C, -4));
    assert_eq!(Pitch::new(-1, Note::B, 0).semitone_up(), Pitch::new(0, Note::C, 0));
}

#[test]
fn semitone_down_moves_to_the_previous_key() {
    assert_eq!(Pitch::new(2, Note::CSharp, 3).semitone_down(), Pitch::new(2, Note::C, 3));
    assert_eq!(Pitch::new(2, Note::F, 0).semitone_down(), Pitch::new(2, Note::E, 0));
    assert_eq!(Pitch::new(2, Note::C, -4).semitone_down(), Pitch::new(1, Note::B, -4));
    assert_eq!(Pitch::new(0, Note::C, 0).semitone_down(), Pitch::new(-1, Note::B, 0));
}

#[test]
fn the_octave_wraps_at_the_end_of_its_range() {
    assert_eq!(Pitch::new(i32::MAX, Note::B, 0).semitone_up(), Pitch::new(i32::MIN, Note::C, 0));
    assert_eq!(Pitch::new(i32::MIN, Note::C, 0).semitone_down(), Pitch::new(i32::MAX, Note::B, 0));
    assert_eq!(
        Pitch::new(i32::MAX, Note::B, 0).semitone_up().semitone_down(),
        Pitch::new(i32::MAX, Note::B, 0)
    );
    assert_eq!(
        Pitch::new(i32::MIN, Note::C, 0).semitone_down().semitone_up(),
        Pitch::new(i32::MIN, Note::C, 0)
    );
}

#[test]
fn semitone_up_and_down_undo_each_other() {
    let octaves: Vec<i32> = vec![i32::MIN, -1, 0, 2, i32::MAX];
    for octave in octaves {
        for note in chromatic_scale() {
            let pitch: Pitch = Pitch::new(octave, note, 12);
            assert_eq!(pitch.semitone_up().semitone_down(), pitch);
            assert_eq!(pitch.semitone_down().semitone_up(), pitch);
        }
    }
}

#[test]
fn twelve_semitones_up_is_the_next_octave() {
    for note in chromatic_scale() {
        let mut pitch: Pitch = Pitch::new(4, note, 0);
        let mut step: u8 = 0;
        while step < 12 {
            pitch = pitch.semitone_up();
            step += 1;
        }
        assert_eq!(pitch, Pitch::new(5, note, 0));
    }
}
