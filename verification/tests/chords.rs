use chord_companion::Chord;
use chord_companion::ChordBuilder;
use chord_companion::ChordBuilderError;
use chord_companion::ChordType;
use chord_companion::Coloring;
use chord_companion::NoteError;
use chord_companion::Notes;
use chord_companion::generate_notes_from_chord;

#[test]
fn lib_check_builder() {
    let chord: Chord = ChordBuilder::default().root(0).build().unwrap();

    assert_eq!(chord.root, 0);
}

#[test]
fn test_check_builder() {
    let chord: Chord = ChordBuilder::default().root(0).build().unwrap();

    assert_eq!(chord.root, 0);
}

#[test]
fn test_check_major() {
    let chord: Chord = ChordBuilder::default().root(0).build().unwrap();

    let res = generate_notes_from_chord(chord).unwrap();
    // C(-1) major chord
    let mut correct = Notes::new();
    correct.extend_from_slice(&[0, 4, 7]).unwrap();
    assert_eq!(res, correct);
}

#[test]
fn test_check_minor() {
    let chord: Chord = ChordBuilder::default().root(0).chord_type(ChordType::Minor).build().unwrap();

    let res = generate_notes_from_chord(chord).unwrap();
    // C(-1) minor chord
    let mut correct = Notes::new();
    correct.extend_from_slice(&[0, 3, 7]).unwrap();
    assert_eq!(res, correct);
}

#[test]
fn test_check_sixth() {
    let chord: Chord = ChordBuilder::default().root(0).coloring(Coloring::Sixth).build().unwrap();

    let res = generate_notes_from_chord(chord).unwrap();
    // C(-1) major chord
    let mut correct = Notes::new();
    correct.extend_from_slice(&[0, 4, 7, 9]).unwrap();
    assert_eq!(res, correct);
}

#[test]
fn test_check_minor_sixth() {
    let chord: Chord = ChordBuilder::default()
        .root(0)
        .chord_type(ChordType::Minor)
        .coloring(Coloring::Sixth)
        .build()
        .unwrap();

    let res = generate_notes_from_chord(chord).unwrap();
    // C(-1) minor sixth chord
    let mut correct = Notes::new();
    correct.extend_from_slice(&[0, 3, 7, 9]).unwrap();
    assert_eq!(res, correct);
}

#[test]
fn test_check_dominant_seven() {
    let chord: Chord = ChordBuilder::default()
        .root(0)
        .chord_type(ChordType::Dominant)
        .coloring(Coloring::Seventh)
        .build()
        .unwrap();

    let res = generate_notes_from_chord(chord).unwrap();
    // A major chord
    let mut correct = Notes::new();
    correct.extend_from_slice(&[0, 4, 7, 10]).unwrap();
    assert_eq!(res, correct);
}

#[test]
fn check_minor_seventh() {
    let chord: Chord = ChordBuilder::default()
        .root(0)
        .chord_type(ChordType::Minor)
        .coloring(Coloring::Seventh)
        .build()
        .unwrap();

    let res = generate_notes_from_chord(chord).unwrap();
    // A major chord
    let mut correct = Notes::new();
    correct.extend_from_slice(&[0, 3, 7, 10]).unwrap();
    assert_eq!(res, correct);
}

#[test]
fn test_check_maj_seven() {
    let chord: Chord = ChordBuilder::default().root(0).coloring(Coloring::Seventh).build().unwrap();

    let res = generate_notes_from_chord(chord).unwrap();
    // A major chord
    let mut correct = Notes::new();
    correct.extend_from_slice(&[0, 4, 7, 11]).unwrap();
    assert_eq!(res, correct);
}

#[test]
fn check_ninth() {
    let chord: Chord = ChordBuilder::default().root(0).coloring(Coloring::Ninth).build().unwrap();

    let res = generate_notes_from_chord(chord).unwrap();
    // A major chord
    let mut correct = Notes::new();
    correct.extend_from_slice(&[0, 4, 7, 11, 14]).unwrap();
    assert_eq!(res, correct);
}

#[test]
fn check_eleventh() {
    let chord: Chord = ChordBuilder::default().root(0).coloring(Coloring::Eleventh).build().unwrap();

    let res = generate_notes_from_chord(chord).unwrap();
    // A major chord
    let mut correct = Notes::new();
    correct.extend_from_slice(&[0, 4, 7, 11, 14, 17]).unwrap();
    assert_eq!(res, correct);
}

#[test]
fn check_builder_defaults() {
    let chord: Chord = ChordBuilder::default().root(42).build().unwrap();

    assert_eq!(
        chord,
        Chord { root: 42, inversion: 0, chord_type: ChordType::Major, coloring: Coloring::Plain }
    );
}

#[test]
fn check_builder_missing_root() {
    let res = ChordBuilder::default().inversion(1).coloring(Coloring::Ninth).build();

    assert_eq!(res, Err(ChordBuilderError::UninitializedRoot));
}

#[test]
fn check_first_inversion() {
    let chord = Chord {
        root: 0,
        inversion: 1,
        chord_type: ChordType::Major,
        coloring: Coloring::Plain,
    };

    let res = generate_notes_from_chord(chord).unwrap();
    let mut correct = Notes::new();
    correct.extend_from_slice(&[4, 7, 12]).unwrap();
    assert_eq!(res, correct);
}

#[test]
fn check_second_inversion() {
    let chord = Chord {
        root: 0,
        inversion: 2,
        chord_type: ChordType::Major,
        coloring: Coloring::Plain,
    };

    let res = generate_notes_from_chord(chord).unwrap();
    let mut correct = Notes::new();
    correct.extend_from_slice(&[7, 12, 16]).unwrap();
    assert_eq!(res, correct);
}

#[test]
fn check_full_cycle_inversion() {
    // Three steps rotate a triad back to its pitch classes, one octave up
    let chord = Chord {
        root: 60,
        inversion: 3,
        chord_type: ChordType::Minor,
        coloring: Coloring::Plain,
    };

    let res = generate_notes_from_chord(chord).unwrap();
    let mut correct = Notes::new();
    correct.extend_from_slice(&[72, 75, 79]).unwrap();
    assert_eq!(res, correct);
}

#[test]
fn check_generate_deterministic() {
    let chord = Chord {
        root: 69,
        inversion: 2,
        chord_type: ChordType::Dominant,
        coloring: Coloring::Eleventh,
    };

    let first = generate_notes_from_chord(chord).unwrap();
    let second = generate_notes_from_chord(chord).unwrap();
    assert_eq!(first, second);
}

#[test]
fn check_generate_base_overflow() {
    // The eleventh tone would sit at 250 + 17, past the pitch range
    let chord = Chord {
        root: 250,
        inversion: 0,
        chord_type: ChordType::Major,
        coloring: Coloring::Eleventh,
    };

    let res = generate_notes_from_chord(chord);
    assert_eq!(res, Err(NoteError::Overflow));
}

#[test]
fn check_generate_inversion_overflow() {
    // The second inversion step would raise 244 past the pitch range
    let chord = Chord {
        root: 240,
        inversion: 2,
        chord_type: ChordType::Major,
        coloring: Coloring::Plain,
    };

    let res = generate_notes_from_chord(chord);
    assert_eq!(res, Err(NoteError::Overflow));
}

#[test]
fn check_generate_near_overflow() {
    // One inversion step of the same voicing still fits
    let chord = Chord {
        root: 240,
        inversion: 1,
        chord_type: ChordType::Major,
        coloring: Coloring::Plain,
    };

    let res = generate_notes_from_chord(chord).unwrap();
    let mut correct = Notes::new();
    correct.extend_from_slice(&[244, 247, 252]).unwrap();
    assert_eq!(res, correct);
}
