use pilock::notes::{Melody, MelodyExt, MusicalNote};

fn note(name: &str) -> MusicalNote {
    MusicalNote::from_name(name).expect("a note name")
}

fn freq_hz(note: MusicalNote) -> f64 {
    440.0 * 2_f64.powf(note.semitones_from_a4() as f64 / 12.0)
}

#[test]
fn test_notes() {
    let note = note("C#4");

    assert_eq!(note, MusicalNote::CSharp4);
    assert!(freq_hz(note) - 277.18 < 0.01);
    assert!(277.18 - freq_hz(note) < 0.01);
}

#[test]
fn test_melody_macro() {
    let melody: Melody = vec![
        (Some(note("C4")), 500),
        (Some(note("D4")), 500),
        (None, 250),
        (Some(note("E4")), 500),
    ];

    assert_eq!(melody.len(), 4);
    assert_eq!(melody[0], (Some(note("C4")), 500));
    assert_eq!(melody[1], (Some(note("D4")), 500));
    assert_eq!(melody[2], (None, 250));
    assert_eq!(melody[3], (Some(note("E4")), 500));

    assert_eq!(melody.duration(), 1750);

    assert_eq!(melody.get_note_at(-5), None);
    assert_eq!(melody.get_note_at(0), Some(note("C4")));
    assert_eq!(melody.get_note_at(250), Some(note("C4")));
    assert_eq!(melody.get_note_at(500), Some(note("D4")));
    assert_eq!(melody.get_note_at(750), Some(note("D4")));
    assert_eq!(melody.get_note_at(1000), None);
    assert_eq!(melody.get_note_at(1250), Some(note("E4")));
    assert_eq!(melody.get_note_at(1750), None);
}

#[test]
fn note_names_round_trip() {
    for index in 0u8..108 {
        let note = MusicalNote::from_index(index).expect("a note");
        assert_eq!(note.to_index(), index);
        assert_eq!(MusicalNote::from_name(&note.name()), Some(note));
        assert_eq!(note.octave(), index / 12);
        assert_eq!(note.semitone(), index % 12);
    }
    assert_eq!(MusicalNote::from_index(108), None);
    assert_eq!(MusicalNote::A4.name(), "A4");
    assert_eq!(MusicalNote::ASharp3.name(), "A#3");
    assert_eq!(MusicalNote::A4.semitones_from_a4(), 0);
    assert_eq!(MusicalNote::C0.semitones_from_a4(), -57);
    assert_eq!(MusicalNote::B8.semitones_from_a4(), 50);
}

#[test]
fn texts_that_name_no_note() {
    for text in ["", "C", "C9", "H4", "E#4", "B#2", "c4", "C#", "C##4", "C4 ", "Cb4", "#4"] {
        assert_eq!(MusicalNote::from_name(text), None, "{text}");
    }
}

#[test]
fn melody_edges() {
    let empty: Melody = Vec::new();
    assert_eq!(empty.duration(), 0);
    assert_eq!(empty.get_note_at(0), None);
    let one: Melody = vec![(Some(MusicalNote::A4), 100)];
    assert_eq!(one.get_note_at(99), Some(MusicalNote::A4));
    assert_eq!(one.get_note_at(100), None);
    assert_eq!(one.get_note_at(101), None);
    let long: Melody = vec![(None, i64::MAX), (Some(MusicalNote::A4), i64::MAX)];
    assert_eq!(long.duration(), 2 * (i64::MAX as i128));
    assert_eq!(long.get_note_at(i64::MAX), Some(MusicalNote::A4));
}
