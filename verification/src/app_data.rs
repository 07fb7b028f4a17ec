//! The editor's state: the notes and the zoom, and the requests that change
//! them.

use vstd::prelude::*;

use crate::error::Error;
use crate::note_data::NoteData;
use crate::units::Scale;

verus! {

/// A request to change the notes. The number addresses a note by its place
/// in the sequence.
#[derive(Clone, Copy, Debug, PartialEq, Eq, Structural, Hash)]
pub enum AppEvent {
    /// Lower the note by one semitone.
    MoveNoteDown(usize),
    /// Raise the note by one semitone.
    MoveNoteUp(usize),
}

impl AppEvent {
    /// The place of the note that the request addresses.
    pub open spec fn spec_index(self) -> usize {
        match self {
            AppEvent::MoveNoteDown(index) => index,
            AppEvent::MoveNoteUp(index) => index,
        }
    }

    /// The note that the request makes of `note`.
    pub open spec fn moved(self, note: NoteData) -> NoteData {
        match self {
            AppEvent::MoveNoteDown(_) => note.spec_decrement(),
            AppEvent::MoveNoteUp(_) => note.spec_increment(),
        }
    }

    /// The place of the note that the request addresses.
    #[verifier::when_used_as_spec(spec_index)]
    pub fn index(self) -> (index: usize)
        ensures
            index == self.spec_index(),
    {
        match self {
            AppEvent::MoveNoteDown(index) => index,
            AppEvent::MoveNoteUp(index) => index,
        }
    }
}

/// The state that the editor shows: the notes in their order, and the
/// horizontal zoom.
#[derive(Clone, Debug, PartialEq, Eq)]
pub struct AppData {
    pub notes: Vec<NoteData>,
    pub scale: Scale,
}

impl AppData {
    /// Carries out a request on the note that it addresses, and on no other.
    /// A request for a place that the sequence does not have is refused, and
    /// leaves the state as it was.
    pub fn event(&mut self, event: AppEvent) -> (outcome: Result<(), Error>)
        ensures
            event.spec_index() < old(self).notes@.len() ==> outcome is Ok && final(self).notes@
                == old(self).notes@.update(
                event.spec_index() as int,
                event.moved(old(self).notes@[event.spec_index() as int]),
            ),
            event.spec_index() >= old(self).notes@.len() ==> outcome == Err::<(), Error>(
                Error::IndexOutOfRange {
                    index: event.spec_index(),
                    len: old(self).notes@.len() as usize,
                },
            ) && final(self).notes@ == old(self).notes@,
            final(self).scale == old(self).scale,
    {
        let index: usize = event.index();
        let len: usize = self.notes.len();
        if index >= len {
            return Err(Error::IndexOutOfRange { index, len });
        }
        let mut note: NoteData = self.notes[index];
        match event {
            AppEvent::MoveNoteDown(_) => note.decrement(),
            AppEvent::MoveNoteUp(_) => note.increment(),
        }
        self.notes.set(index, note);
        Ok(())
    }

    /// A request changes at most the note that it addresses: the number of
    /// notes and every other note stay.
    pub proof fn lemma_event_touches_one_note(
        before: Seq<NoteData>,
        after: Seq<NoteData>,
        event: AppEvent,
        other: int,
    )
        requires
            event.spec_index() < before.len(),
            after == before.update(
                event.spec_index() as int,
                event.moved(before[event.spec_index() as int]),
            ),
            0 <= other < before.len(),
            other != event.spec_index(),
        ensures
            after.len() == before.len(),
            after[other] == before[other],
            after[event.spec_index() as int].start() == before[event.spec_index() as int].start(),
            after[event.spec_index() as int].end() == before[event.spec_index() as int].end(),
    {
        before[event.spec_index() as int].lemma_increment_decrement_fields();
    }

    /// Raising a note and then lowering it, or the reverse, leaves the whole
    /// sequence as it was.
    pub proof fn lemma_move_up_then_down(notes: Seq<NoteData>, index: usize)
        requires
            index < notes.len(),
        ensures
            ({
                let up = AppEvent::MoveNoteUp(index);
                let down = AppEvent::MoveNoteDown(index);
                let raised = notes.update(index as int, up.moved(notes[index as int]));
                let lowered = notes.update(index as int, down.moved(notes[index as int]));
                &&& raised.update(index as int, down.moved(raised[index as int])) == notes
                &&& lowered.update(index as int, up.moved(lowered[index as int])) == notes
            }),
    {
        notes[index as int].lemma_increment_decrement_round_trip();
        let up = AppEvent::MoveNoteUp(index);
        let down = AppEvent::MoveNoteDown(index);
        let raised = notes.update(index as int, up.moved(notes[index as int]));
        let lowered = notes.update(index as int, down.moved(notes[index as int]));
        assert(raised.update(index as int, down.moved(raised[index as int])) =~= notes);
        assert(lowered.update(index as int, up.moved(lowered[index as int])) =~= notes);
    }
}

} // verus!
