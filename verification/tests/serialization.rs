use chord_companion::Chord;
use chord_companion::ChordBuilder;
use chord_companion::ChordType;
use chord_companion::Coloring;
use chord_companion::DecodeError;
use chord_companion::SerializedData;
use chord_companion::decode_chord;

#[test]
fn check_serialization() {
    let chord: Chord = ChordBuilder::default().root(0).build().unwrap();

    let res = chord.into_serialized_data();
    assert_eq!(res, &[0, 0, 0, 0]);
}

#[test]
fn check_deserialization() {
    let mut buf = SerializedData::new();
    let _ = buf.extend_from_slice(&[0, 0, 0, 0]);

    let res = Chord::from_serialized_data(buf).unwrap();
    assert_eq!(res, ChordBuilder::default().root(0).build().unwrap())
}

#[test]
fn check_serialization_deserialization() {
    let chord: Chord = ChordBuilder::default().root(0).build().unwrap();

    let res: SerializedData = chord.into_serialized_data();
    assert_eq!(chord, Chord::from_serialized_data(res).unwrap());
}

#[test]
fn check_serialized_bytes() {
    let chord = Chord {
        root: 69,
        inversion: 1,
        chord_type: ChordType::Minor,
        coloring: Coloring::Ninth,
    };

    let res = chord.into_serialized_data();
    assert_eq!(res, &[69, 1, 2, 3]);
}

#[test]
fn check_round_trip_all_fields() {
    let chord = Chord {
        root: 127,
        inversion: 5,
        chord_type: ChordType::Dominant,
        coloring: Coloring::Eleventh,
    };

    let res = Chord::from_serialized_data(chord.into_serialized_data()).unwrap();
    assert_eq!(res, chord);
}

#[test]
fn check_decode_known_bytes() {
    let chord = decode_chord(&[60, 2, 1, 4]).unwrap();
    assert_eq!(
        chord,
        Chord { root: 60, inversion: 2, chord_type: ChordType::Dominant, coloring: Coloring::Eleventh }
    );
}

#[test]
fn check_decode_short_buffer() {
    let res = decode_chord(&[0, 0, 0]);
    assert_eq!(res, Err(DecodeError::WrongLength));
}

#[test]
fn check_decode_long_buffer() {
    let res = decode_chord(&[0, 0, 0, 0, 0]);
    assert_eq!(res, Err(DecodeError::WrongLength));
}

#[test]
fn check_decode_bad_chord_type() {
    let res = decode_chord(&[0, 0, 5, 0]);
    assert_eq!(res, Err(DecodeError::UnknownChordType));
}

#[test]
fn check_decode_bad_coloring() {
    let res = decode_chord(&[0, 0, 2, 9]);
    assert_eq!(res, Err(DecodeError::UnknownColoring));
}
