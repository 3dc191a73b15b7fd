//! The note generator: it stacks the intervals a chord description calls
//! for above the root, then rotates the voicing upward once per requested
//! inversion step. Pitch arithmetic that would leave the eight-bit range
//! is reported as an error instead of wrapping.

use vstd::prelude::*;

use crate::chord::Chord;
use crate::chord::ChordType;
use crate::chord::Coloring;
use crate::storage::notes_new;
use crate::storage::notes_of;
use crate::storage::notes_push;
use crate::storage::notes_remove_front;

verus! {

/// An ordered, bounded sequence of MIDI-style note numbers, capacity 8.
pub type Notes = heapless::Vec<u8, 8>;

/// The error returned when a chord cannot be voiced inside the pitch range.
#[derive(Debug, PartialEq, Eq, Structural, Clone, Copy)]
pub enum NoteError {
    /// Some note of the requested voicing exceeds the representable range
    Overflow,
}

/// The semitone interval of the chord's third above the root: a minor
/// third for Minor, a major third for Major and Dominant.
pub open spec fn third_interval(t: ChordType) -> int {
    if t is Minor {
        3
    } else {
        4
    }
}

/// The semitone interval of the chord's seventh tone above the root: a
/// major seventh for Major, a minor seventh for Dominant and Minor alike.
pub open spec fn seventh_interval(t: ChordType) -> int {
    if t is Major {
        11
    } else {
        10
    }
}

/// The stacked intervals of a chord before inversion: root, third and
/// fifth, then the coloring tones. The Seventh, Ninth and Eleventh
/// colorings are cumulative; Sixth adds a single tone instead.
pub open spec fn chord_intervals(t: ChordType, c: Coloring) -> Seq<int> {
    let triad = seq![0, third_interval(t), 7];
    match c {
        Coloring::Plain => triad,
        Coloring::Sixth => triad.push(9),
        Coloring::Seventh => triad.push(seventh_interval(t)),
        Coloring::Ninth => triad.push(seventh_interval(t)).push(14),
        Coloring::Eleventh => triad.push(seventh_interval(t)).push(14).push(17),
    }
}

/// The notes of a chord in root position, as unbounded integers.
pub open spec fn base_notes(c: Chord) -> Seq<int> {
    chord_intervals(c.chord_type, c.coloring).map_values(|iv: int| c.root + iv)
}

/// One inversion step: the lowest-position note moves to the end of the
/// voicing, one octave higher.
pub open spec fn invert_once(s: Seq<int>) -> Seq<int>
    recommends
        s.len() > 0,
{
    s.drop_first().push(s[0] + 12)
}

/// `k` inversion steps applied in order.
pub open spec fn invert(s: Seq<int>, k: nat) -> Seq<int>
    decreases k,
{
    if k == 0 {
        s
    } else {
        invert_once(invert(s, (k - 1) as nat))
    }
}

/// The notes a chord describes: the stacked tones rotated by the
/// requested number of inversion steps.
pub open spec fn chord_notes(c: Chord) -> Seq<int> {
    invert(base_notes(c), c.inversion as nat)
}

/// Whether some note of a voicing lies above the eight-bit pitch range.
pub open spec fn has_oversize(s: Seq<int>) -> bool {
    exists|i: int| 0 <= i < s.len() && s[i] > 255
}

/// Whether every note of the described voicing fits the pitch range.
pub open spec fn notes_fit(c: Chord) -> bool {
    !has_oversize(chord_notes(c))
}

/// A byte sequence read as unbounded integers.
pub open spec fn seq_int(s: Seq<u8>) -> Seq<int> {
    s.map_values(|x: u8| x as int)
}

/// A chord's pre-inversion voicing holds between three and six notes.
pub proof fn lemma_base_len(c: Chord)
    ensures
        3 <= base_notes(c).len() <= 6,
{
}

/// Inversion never changes how many notes a voicing holds.
pub proof fn lemma_invert_len(s: Seq<int>, k: nat)
    requires
        s.len() > 0,
    ensures
        invert(s, k).len() == s.len(),
    decreases k,
{
    if k > 0 {
        lemma_invert_len(s, (k - 1) as nat);
    }
}

/// Applying inversion steps in two batches is the same as applying them
/// all at once.
pub proof fn lemma_invert_add(s: Seq<int>, j: nat, m: nat)
    ensures
        invert(invert(s, j), m) == invert(s, j + m),
    decreases m,
{
    if m > 0 {
        lemma_invert_add(s, j, (m - 1) as nat);
    }
}

/// A note above the pitch range stays above it across one inversion step:
/// the step keeps every note or raises the moved one by an octave.
proof fn lemma_oversize_invert_once(s: Seq<int>)
    requires
        s.len() > 0,
        has_oversize(s),
    ensures
        has_oversize(invert_once(s)),
{
    let j = choose|j: int| 0 <= j < s.len() && s[j] > 255;
    if j == 0 {
        assert(invert_once(s)[s.len() - 1] == s[0] + 12);
    } else {
        assert(invert_once(s)[j - 1] == s[j]);
    }
}

/// A note above the pitch range stays above it across any number of
/// inversion steps.
proof fn lemma_oversize_invert(s: Seq<int>, k: nat)
    requires
        s.len() > 0,
        has_oversize(s),
    ensures
        has_oversize(invert(s, k)),
    decreases k,
{
    if k > 0 {
        lemma_oversize_invert(s, (k - 1) as nat);
        lemma_invert_len(s, (k - 1) as nat);
        lemma_oversize_invert_once(invert(s, (k - 1) as nat));
    }
}

/// A chord with a pre-inversion note above the pitch range cannot be
/// voiced, whatever its inversion.
proof fn lemma_base_oversize(c: Chord, j: int)
    requires
        0 <= j < base_notes(c).len(),
        base_notes(c)[j] > 255,
    ensures
        !notes_fit(c),
{
    lemma_base_len(c);
    lemma_oversize_invert(base_notes(c), c.inversion as nat);
}

/// Appends `root + interval` to the voicing if the note fits the pitch
/// range, and reports the overflow otherwise.
fn push_tone(notes: &mut Notes, root: u8, interval: u8) -> (r: Result<(), NoteError>)
    requires
        notes_of(*old(notes)).len() < 8,
    ensures
        root + interval <= 255 ==> r is Ok && notes_of(*final(notes)) == notes_of(*old(notes)).push(
            (root + interval) as u8,
        ),
        root + interval > 255 ==> r is Err && notes_of(*final(notes)) == notes_of(*old(notes)),
{
    let value: u16 = root as u16 + interval as u16;
    if value > 255 {
        Err(NoteError::Overflow)
    } else {
        notes_push(notes, value as u8);
        Ok(())
    }
}

/// Create a `Notes` object from a `Chord` object, containing each
/// MIDI-note in the chord described by the `Chord` object. Succeeds
/// exactly when every note of the described voicing fits the eight-bit
/// pitch range, and then returns the notes in stacking order, rotated by
/// the requested inversion.
pub fn generate_notes_from_chord(chord: Chord) -> (r: Result<Notes, NoteError>)
    ensures
        r is Ok <==> notes_fit(chord),
        r matches Ok(notes) ==> seq_int(notes_of(notes)) == chord_notes(chord),
        r matches Err(e) ==> e == NoteError::Overflow,
{
    let ghost base: Seq<int> = base_notes(chord);
    proof {
        lemma_base_len(chord);
    }
    let mut notes = notes_new();

    // Add root note
    notes_push(&mut notes, chord.root);
    assert(seq_int(notes_of(notes)) =~= base.subrange(0, 1));

    // Apply third
    let third: u8 = if chord.chord_type == ChordType::Minor {
        3
    } else {
        4
    };
    if let Err(e) = push_tone(&mut notes, chord.root, third) {
        proof {
            lemma_base_oversize(chord, 1);
        }
        return Err(e);
    }
    assert(seq_int(notes_of(notes)) =~= base.subrange(0, 2));

    // Apply fifth
    if let Err(e) = push_tone(&mut notes, chord.root, 7) {
        proof {
            lemma_base_oversize(chord, 2);
        }
        return Err(e);
    }
    assert(seq_int(notes_of(notes)) =~= base.subrange(0, 3));

    // Add further coloring
    if chord.coloring == Coloring::Sixth {
        if let Err(e) = push_tone(&mut notes, chord.root, 9) {
            proof {
                lemma_base_oversize(chord, 3);
            }
            return Err(e);
        }
    } else if chord.coloring == Coloring::Seventh || chord.coloring == Coloring::Ninth
        || chord.coloring == Coloring::Eleventh {
        let seventh: u8 = if chord.chord_type == ChordType::Major {
            11
        } else {
            10
        };
        if let Err(e) = push_tone(&mut notes, chord.root, seventh) {
            proof {
                lemma_base_oversize(chord, 3);
            }
            return Err(e);
        }
    }

    if chord.coloring == Coloring::Ninth || chord.coloring == Coloring::Eleventh {
        if let Err(e) = push_tone(&mut notes, chord.root, 14) {
            proof {
                lemma_base_oversize(chord, 4);
            }
            return Err(e);
        }
    }

    if chord.coloring == Coloring::Eleventh {
        if let Err(e) = push_tone(&mut notes, chord.root, 17) {
            proof {
                lemma_base_oversize(chord, 5);
            }
            return Err(e);
        }
    }

    assert(seq_int(notes_of(notes)) =~= base);

    // Invert the chord structure
    let inversion = chord.inversion;
    let mut i: u8 = 0;
    while i < inversion
        invariant
            i <= inversion,
            inversion == chord.inversion,
            base == base_notes(chord),
            3 <= base.len() <= 6,
            notes_of(notes).len() == base.len(),
            seq_int(notes_of(notes)) == invert(base, i as nat),
        decreases inversion - i,
    {
        let ghost current: Seq<int> = seq_int(notes_of(notes));
        let front = notes_remove_front(&mut notes);
        proof {
            assert(current[0] == front as int);
        }
        if front > 243 {
            proof {
                let next = invert(base, (i + 1) as nat);
                assert(next == invert_once(current));
                assert(next[next.len() - 1] == current[0] + 12);
                assert(has_oversize(next));
                lemma_invert_len(base, (i + 1) as nat);
                lemma_invert_add(base, (i + 1) as nat, (inversion - i - 1) as nat);
                lemma_oversize_invert(next, (inversion - i - 1) as nat);
            }
            return Err(NoteError::Overflow);
        }
        notes_push(&mut notes, front + 12);
        proof {
            assert(seq_int(notes_of(notes)) =~= invert_once(current));
        }
        i = i + 1;
    }

    proof {
        assert(seq_int(notes_of(notes)) == chord_notes(chord));
        assert forall|j: int| 0 <= j < chord_notes(chord).len() implies chord_notes(chord)[j]
            <= 255 by {
            assert(chord_notes(chord)[j] == notes_of(notes)[j] as int);
        }
    }
    Ok(notes)
}

/// Law (determinism): the generation contract pins the outcome down. Any
/// two results that meet it for the same chord description succeed or
/// fail together, hold exactly the same notes in the same order on
/// success, and report the same error on failure.
pub proof fn lemma_generate_deterministic(
    chord: Chord,
    r1: Result<Notes, NoteError>,
    r2: Result<Notes, NoteError>,
)
    requires
        r1 is Ok <==> notes_fit(chord),
        r2 is Ok <==> notes_fit(chord),
        r1 matches Ok(n1) ==> seq_int(notes_of(n1)) == chord_notes(chord),
        r2 matches Ok(n2) ==> seq_int(notes_of(n2)) == chord_notes(chord),
        r1 matches Err(e1) ==> e1 == NoteError::Overflow,
        r2 matches Err(e2) ==> e2 == NoteError::Overflow,
    ensures
        r1 is Ok <==> r2 is Ok,
        r1 is Ok && r2 is Ok ==> notes_of(r1->Ok_0) == notes_of(r2->Ok_0),
        r1 is Err ==> r1 == r2,
{
    if r1 is Ok && r2 is Ok {
        let n1 = r1->Ok_0;
        let n2 = r2->Ok_0;
        assert(notes_of(n1) =~= notes_of(n2)) by {
            assert(seq_int(notes_of(n1)).len() == seq_int(notes_of(n2)).len());
            assert forall|j: int| 0 <= j < notes_of(n1).len() implies notes_of(n1)[j] == notes_of(
                n2,
            )[j] by {
                assert(seq_int(notes_of(n1))[j] == seq_int(notes_of(n2))[j]);
            }
        }
    }
}

} // verus!
