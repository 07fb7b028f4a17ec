//! A note of the sequence: a pitch held over a span of time.

use vstd::prelude::*;

use crate::error::Error;
use crate::pitch::Pitch;
use crate::time::MusicalTime;

verus! {

/// A note: a pitch and the span of time over which it sounds. The span never
/// ends before it starts; it may be empty.
#[derive(Clone, Copy, Debug, PartialEq, Eq, Structural, Hash)]
pub struct NoteData {
    pitch: Pitch,
    start: MusicalTime,
    end: MusicalTime,
}

impl NoteData {
    /// The pitch of the note.
    pub closed spec fn pitch(self) -> Pitch {
        self.pitch
    }

    /// The time at which the note starts.
    pub closed spec fn start(self) -> MusicalTime {
        self.start
    }

    /// The time at which the note ends.
    pub closed spec fn end(self) -> MusicalTime {
        self.end
    }

    /// What holds of every note: the span is not reversed.
    #[verifier::type_invariant]
    pub open spec fn wf(self) -> bool {
        self.start()@ <= self.end()@
    }

    /// The note of the given pitch from `start` to `end`. A span that ends
    /// before it starts is refused.
    pub fn new(pitch: Pitch, start: MusicalTime, end: MusicalTime) -> (note: Result<
        NoteData,
        Error,
    >)
        ensures
            start@ <= end@ ==> note is Ok && note.unwrap().pitch() == pitch
                && note.unwrap().start() == start && note.unwrap().end() == end
                && note.unwrap().wf(),
            end@ < start@ ==> note == Err::<NoteData, Error>(Error::InvalidTimeSpan),
    {
        if end.ticks < start.ticks {
            Err(Error::InvalidTimeSpan)
        } else {
            Ok(NoteData { pitch, start, end })
        }
    }

    /// The pitch of the note.
    pub fn get_pitch(&self) -> (pitch: Pitch)
        ensures
            pitch == self.pitch(),
    {
        self.pitch
    }

    /// The time at which the note starts.
    pub fn get_start(&self) -> (start: MusicalTime)
        ensures
            start == self.start(),
    {
        self.start
    }

    /// The time at which the note ends.
    pub fn get_end(&self) -> (end: MusicalTime)
        ensures
            end == self.end(),
    {
        self.end
    }

    /// The note one semitone higher, over the same span.
    pub closed spec fn spec_increment(self) -> NoteData {
        NoteData { pitch: self.pitch.spec_semitone_up(), start: self.start, end: self.end }
    }

    /// The note one semitone lower, over the same span.
    pub closed spec fn spec_decrement(self) -> NoteData {
        NoteData { pitch: self.pitch.spec_semitone_down(), start: self.start, end: self.end }
    }

    /// Raises the note by one semitone: `B` becomes `C` of the next octave.
    /// The time span and the fine-tune are kept.
    pub fn increment(&mut self)
        ensures
            *final(self) == old(self).spec_increment(),
            final(self).pitch() == old(self).pitch().spec_semitone_up(),
            final(self).start() == old(self).start(),
            final(self).end() == old(self).end(),
            final(self).wf(),
    {
        proof {
            use_type_invariant(&*self);
        }
        self.pitch = self.pitch.semitone_up();
    }

    /// Lowers the note by one semitone: `C` becomes `B` of the previous
    /// octave. The time span and the fine-tune are kept.
    pub fn decrement(&mut self)
        ensures
            *final(self) == old(self).spec_decrement(),
            final(self).pitch() == old(self).pitch().spec_semitone_down(),
            final(self).start() == old(self).start(),
            final(self).end() == old(self).end(),
            final(self).wf(),
    {
        proof {
            use_type_invariant(&*self);
        }
        self.pitch = self.pitch.semitone_down();
    }

    /// A note is determined by its pitch and its span.
    pub proof fn lemma_fields_determine_note(self, other: NoteData)
        ensures
            self == other <==> self.pitch() == other.pitch() && self.start() == other.start()
                && self.end() == other.end(),
    {
    }

    /// Raising and lowering change the pitch by one semitone and nothing
    /// else.
    pub proof fn lemma_increment_decrement_fields(self)
        ensures
            self.spec_increment().pitch() == self.pitch().spec_semitone_up(),
            self.spec_increment().start() == self.start(),
            self.spec_increment().end() == self.end(),
            self.spec_decrement().pitch() == self.pitch().spec_semitone_down(),
            self.spec_decrement().start() == self.start(),
            self.spec_decrement().end() == self.end(),
    {
    }

    /// Raising a note and then lowering it gives the note back, and so does
    /// lowering and then raising it, at every pitch and octave.
    pub proof fn lemma_increment_decrement_round_trip(self)
        ensures
            self.spec_increment().spec_decrement() == self,
            self.spec_decrement().spec_increment() == self,
    {
        self.pitch.lemma_semitone_round_trip();
    }
}

} // verus!
