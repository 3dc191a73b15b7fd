//! The chord description: its data model and its fixed four-byte binary
//! codec. The byte layout is a wire/storage contract: one byte per field,
//! in declaration order, with the enumerations encoded as their zero-based
//! discriminants.

use vstd::prelude::*;

use crate::storage::sdata_as_slice;
use crate::storage::sdata_new;
use crate::storage::sdata_of;
use crate::storage::sdata_push;

verus! {

/// The type of the data produced by serializing a Chord object:
/// a fixed-capacity four-byte vector.
pub type SerializedData = heapless::Vec<u8, 4>;

/// Indicates the type of chord, affecting the third and seventh
#[derive(Debug, PartialEq, Eq, Structural, Clone, Copy)]
pub enum ChordType {
    Major,
    Dominant,
    Minor,
}

/// Indicates the coloring of the chord, appending notes as necessary
#[derive(Debug, PartialEq, Eq, Structural, Clone, Copy)]
pub enum Coloring {
    /// A bare triad with no extension tone
    Plain,
    Sixth,
    Seventh,
    Ninth,
    Eleventh,
}

/// A struct that defines a chord by its root note, its inversion,
/// type and coloring. This struct can be serialized and deserialized
/// for storage and transmission between devices.
#[derive(Debug, PartialEq, Eq, Structural, Clone, Copy)]
pub struct Chord {
    /// Root note of the chord, described by the MIDI numbering system
    pub root: u8,
    /// Inversion of the chord going from the lowest note up.
    /// Inversion 0 is the base chord with the root as the lowest note.
    pub inversion: u8,
    /// The type of chord according to the `ChordType` enum
    pub chord_type: ChordType,
    /// The coloring of the chord according to the `Coloring` enum
    pub coloring: Coloring,
}

/// The error returned when a chord is built without its required field.
#[derive(Debug, PartialEq, Eq, Structural, Clone, Copy)]
pub enum ChordBuilderError {
    /// No root note was given before building
    UninitializedRoot,
}

/// Builds a `Chord` field by field. Only the root is required; an unset
/// optional field falls back to its documented default: inversion 0,
/// chord type Major, coloring Plain.
#[derive(Debug, Clone, Copy)]
pub struct ChordBuilder {
    pub root: Option<u8>,
    pub inversion: Option<u8>,
    pub chord_type: Option<ChordType>,
    pub coloring: Option<Coloring>,
}

impl Default for ChordBuilder {
    /// An empty builder with no field set.
    fn default() -> (r: Self)
        ensures
            r.root is None,
            r.inversion is None,
            r.chord_type is None,
            r.coloring is None,
    {
        ChordBuilder { root: None, inversion: None, chord_type: None, coloring: None }
    }
}

impl ChordBuilder {
    /// Sets the root note of the chord to build.
    pub fn root(self, value: u8) -> (r: Self)
        ensures
            r == (ChordBuilder { root: Some(value), ..self }),
    {
        ChordBuilder { root: Some(value), ..self }
    }

    /// Sets the inversion of the chord to build.
    pub fn inversion(self, value: u8) -> (r: Self)
        ensures
            r == (ChordBuilder { inversion: Some(value), ..self }),
    {
        ChordBuilder { inversion: Some(value), ..self }
    }

    /// Sets the type of the chord to build.
    pub fn chord_type(self, value: ChordType) -> (r: Self)
        ensures
            r == (ChordBuilder { chord_type: Some(value), ..self }),
    {
        ChordBuilder { chord_type: Some(value), ..self }
    }

    /// Sets the coloring of the chord to build.
    pub fn coloring(self, value: Coloring) -> (r: Self)
        ensures
            r == (ChordBuilder { coloring: Some(value), ..self }),
    {
        ChordBuilder { coloring: Some(value), ..self }
    }

    /// The chord a builder state describes once the defaults are filled in.
    pub open spec fn spec_build(self) -> Chord
        recommends
            self.root is Some,
    {
        Chord {
            root: self.root->Some_0,
            inversion: if self.inversion is Some {
                self.inversion->Some_0
            } else {
                0
            },
            chord_type: if self.chord_type is Some {
                self.chord_type->Some_0
            } else {
                ChordType::Major
            },
            coloring: if self.coloring is Some {
                self.coloring->Some_0
            } else {
                Coloring::Plain
            },
        }
    }

    /// Builds the described chord, filling unset optional fields with
    /// their defaults; fails exactly when the required root is unset.
    pub fn build(&self) -> (r: Result<Chord, ChordBuilderError>)
        ensures
            r is Ok <==> self.root is Some,
            r matches Ok(c) ==> c == self.spec_build(),
            r matches Err(e) ==> e == ChordBuilderError::UninitializedRoot,
    {
        match self.root {
            Some(root) => {
                let inversion: u8 = match self.inversion {
                    Some(value) => value,
                    None => 0,
                };
                let chord_type: ChordType = match self.chord_type {
                    Some(value) => value,
                    None => ChordType::Major,
                };
                let coloring: Coloring = match self.coloring {
                    Some(value) => value,
                    None => Coloring::Plain,
                };
                Ok(Chord { root, inversion, chord_type, coloring })
            },
            None => Err(ChordBuilderError::UninitializedRoot),
        }
    }
}

/// The error returned when a byte buffer does not describe a chord.
#[derive(Debug, PartialEq, Eq, Structural, Clone, Copy)]
pub enum DecodeError {
    /// The buffer does not hold exactly four bytes
    WrongLength,
    /// The chord-type byte is outside the known discriminants
    UnknownChordType,
    /// The coloring byte is outside the known discriminants
    UnknownColoring,
}

/// The wire discriminant of a chord type.
pub open spec fn chord_type_byte(t: ChordType) -> u8 {
    match t {
        ChordType::Major => 0,
        ChordType::Dominant => 1,
        ChordType::Minor => 2,
    }
}

/// The wire discriminant of a coloring.
pub open spec fn coloring_byte(c: Coloring) -> u8 {
    match c {
        Coloring::Plain => 0,
        Coloring::Sixth => 1,
        Coloring::Seventh => 2,
        Coloring::Ninth => 3,
        Coloring::Eleventh => 4,
    }
}

/// The four-byte encoding of a chord: root, inversion, chord type,
/// coloring, one byte each.
pub open spec fn spec_encode(c: Chord) -> Seq<u8> {
    seq![c.root, c.inversion, chord_type_byte(c.chord_type), coloring_byte(c.coloring)]
}

/// Whether a byte sequence is the encoding of some chord: exactly four
/// bytes, with both enumeration bytes inside their discriminant sets.
pub open spec fn encoding_valid(bytes: Seq<u8>) -> bool {
    &&& bytes.len() == 4
    &&& bytes[2] < 3
    &&& bytes[3] < 5
}

/// The error that decoding an invalid byte sequence reports.
pub open spec fn spec_decode_error(bytes: Seq<u8>) -> DecodeError
    recommends
        !encoding_valid(bytes),
{
    if bytes.len() != 4 {
        DecodeError::WrongLength
    } else if bytes[2] >= 3 {
        DecodeError::UnknownChordType
    } else {
        DecodeError::UnknownColoring
    }
}

/// Reconstructs a chord from its four-byte encoding. Accepts exactly the
/// buffers that `spec_encode` produces and inverts it; any other buffer is
/// rejected with the matching `DecodeError`.
pub fn decode_chord(bytes: &[u8]) -> (r: Result<Chord, DecodeError>)
    ensures
        r is Ok <==> encoding_valid(bytes@),
        r matches Ok(c) ==> spec_encode(c) == bytes@,
        r matches Err(e) ==> e == spec_decode_error(bytes@),
{
    if bytes.len() != 4 {
        return Err(DecodeError::WrongLength);
    }
    let chord_type = match bytes[2] {
        0 => ChordType::Major,
        1 => ChordType::Dominant,
        2 => ChordType::Minor,
        _ => {
            return Err(DecodeError::UnknownChordType);
        },
    };
    let coloring = match bytes[3] {
        0 => Coloring::Plain,
        1 => Coloring::Sixth,
        2 => Coloring::Seventh,
        3 => Coloring::Ninth,
        4 => Coloring::Eleventh,
        _ => {
            return Err(DecodeError::UnknownColoring);
        },
    };
    let c = Chord { root: bytes[0], inversion: bytes[1], chord_type, coloring };
    proof {
        assert(spec_encode(c) =~= bytes@);
    }
    Ok(c)
}

impl Chord {
    /// Serializes this chord into its four-byte wire form.
    pub fn into_serialized_data(&self) -> (r: SerializedData)
        ensures
            sdata_of(r) == spec_encode(*self),
    {
        let mut data = sdata_new();
        sdata_push(&mut data, self.root);
        sdata_push(&mut data, self.inversion);
        let type_byte: u8 = match self.chord_type {
            ChordType::Major => 0,
            ChordType::Dominant => 1,
            ChordType::Minor => 2,
        };
        sdata_push(&mut data, type_byte);
        let color_byte: u8 = match self.coloring {
            Coloring::Plain => 0,
            Coloring::Sixth => 1,
            Coloring::Seventh => 2,
            Coloring::Ninth => 3,
            Coloring::Eleventh => 4,
        };
        sdata_push(&mut data, color_byte);
        proof {
            assert(sdata_of(data) =~= spec_encode(*self));
        }
        data
    }

    /// Reconstructs a chord from its serialized four-byte form; a buffer
    /// that is short or holds an unknown discriminant is rejected.
    pub fn from_serialized_data(serialized_data: SerializedData) -> (r: Result<Chord, DecodeError>)
        ensures
            r is Ok <==> encoding_valid(sdata_of(serialized_data)),
            r matches Ok(c) ==> spec_encode(c) == sdata_of(serialized_data),
            r matches Err(e) ==> e == spec_decode_error(sdata_of(serialized_data)),
    {
        decode_chord(sdata_as_slice(&serialized_data))
    }
}

/// Law: every chord's encoding is itself a valid encoding, so encoding
/// never produces a buffer that decoding would reject.
pub proof fn lemma_encode_valid(c: Chord)
    ensures
        encoding_valid(spec_encode(c)),
{
}

/// Law: the encoding pins the chord down — two chords with the same
/// four-byte encoding are the same chord.
pub proof fn lemma_encode_injective(c1: Chord, c2: Chord)
    requires
        spec_encode(c1) == spec_encode(c2),
    ensures
        c1 == c2,
{
    assert(spec_encode(c1)[0] == spec_encode(c2)[0]);
    assert(spec_encode(c1)[1] == spec_encode(c2)[1]);
    assert(spec_encode(c1)[2] == spec_encode(c2)[2]);
    assert(spec_encode(c1)[3] == spec_encode(c2)[3]);
}

/// Law (round trip): for every chord `c`, a decode outcome that meets the
/// decoding contract on the bytes of `spec_encode(c)` is exactly `Ok(c)`.
pub proof fn lemma_round_trip(c: Chord, r: Result<Chord, DecodeError>)
    requires
        r is Ok <==> encoding_valid(spec_encode(c)),
        r matches Ok(d) ==> spec_encode(d) == spec_encode(c),
    ensures
        r == Ok::<Chord, DecodeError>(c),
{
    lemma_encode_valid(c);
    match r {
        Ok(d) => {
            lemma_encode_injective(d, c);
        },
        Err(_) => {
            assert(false);
        },
    }
}

} // verus!
