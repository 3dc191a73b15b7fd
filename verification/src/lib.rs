//! A small chord library for embedded use: it turns an abstract chord
//! description (root pitch, chord type, coloring, inversion) into an
//! ordered, bounded sequence of MIDI-style note numbers, and gives the
//! description a fixed four-byte binary form for storage or transmission.

pub mod chord;
pub mod note;
pub mod storage;

pub use chord::Chord;
pub use chord::ChordBuilder;
pub use chord::ChordBuilderError;
pub use chord::ChordType;
pub use chord::Coloring;
pub use chord::DecodeError;
pub use chord::decode_chord;
pub use chord::SerializedData;
pub use note::NoteError;
pub use note::Notes;
pub use note::generate_notes_from_chord;
