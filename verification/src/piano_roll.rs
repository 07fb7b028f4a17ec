//! The piano roll: which notes show in the visible window, and where.

use vstd::prelude::*;

use crate::app_data::AppEvent;
use crate::error::Error;
use crate::layout::is_culled;
use crate::layout::key_height_pixels;
use crate::layout::key_offset_pixels;
use crate::layout::lemma_culled_iff_disjoint;
use crate::layout::pitch_to_pos;
use crate::layout::scaled_length;
use crate::layout::span_contains;
use crate::layout::time_to_pos;
use crate::note_data::NoteData;
use crate::time::MusicalTime;
use crate::units::Px;
use crate::units::Scale;
use crate::units::UNITS_PER_PIXEL;

verus! {

/// Width in pixels of the keyboard drawn at the left edge of the roll. Notes
/// are placed to the right of it.
pub const KEYBOARD_WIDTH: i32 = 60;

/// What the user did to a note of the roll. The number is the note's place in
/// the sequence.
#[derive(Clone, Copy, Debug, PartialEq, Eq, Structural, Hash)]
pub enum PianoRollEvent {
    SelectNote(usize),
    MoveDown(usize),
    MoveUp(usize),
    StartDrag(usize),
    EndDrag(usize),
}

/// The stretch of time that is on screen, and the zoom at which it is shown.
/// The stretch never ends before it starts.
#[derive(Clone, Copy, Debug, PartialEq, Eq, Structural, Hash)]
pub struct Viewport {
    visible_start: MusicalTime,
    visible_end: MusicalTime,
    scale: Scale,
}

impl Viewport {
    /// The first visible point in time.
    pub closed spec fn start(self) -> MusicalTime {
        self.visible_start
    }

    /// The last visible point in time.
    pub closed spec fn end(self) -> MusicalTime {
        self.visible_end
    }

    /// The zoom factor.
    pub closed spec fn zoom(self) -> Scale {
        self.scale
    }

    /// What holds of every viewport: the window is not reversed.
    #[verifier::type_invariant]
    pub open spec fn wf(self) -> bool {
        self.start()@ <= self.end()@
    }

    /// The viewport that shows the time from `visible_start` to
    /// `visible_end` at the zoom `scale`. A window that ends before it starts
    /// is refused.
    pub fn new(visible_start: MusicalTime, visible_end: MusicalTime, scale: Scale) -> (viewport:
        Result<Viewport, Error>)
        ensures
            visible_start@ <= visible_end@ ==> viewport is Ok && viewport.unwrap().start()
                == visible_start && viewport.unwrap().end() == visible_end
                && viewport.unwrap().zoom() == scale && viewport.unwrap().wf(),
            visible_end@ < visible_start@ ==> viewport == Err::<Viewport, Error>(
                Error::InvalidTimeSpan,
            ),
    {
        if visible_end.ticks < visible_start.ticks {
            Err(Error::InvalidTimeSpan)
        } else {
            Ok(Viewport { visible_start, visible_end, scale })
        }
    }

    /// The first visible point in time.
    pub fn visible_start(&self) -> (start: MusicalTime)
        ensures
            start == self.start(),
    {
        self.visible_start
    }

    /// The last visible point in time.
    pub fn visible_end(&self) -> (end: MusicalTime)
        ensures
            end == self.end(),
    {
        self.visible_end
    }

    /// The zoom factor.
    pub fn scale(&self) -> (scale: Scale)
        ensures
            scale == self.zoom(),
    {
        self.scale
    }

    /// A viewport is determined by its window and its zoom.
    pub proof fn lemma_fields_determine_viewport(self, other: Viewport)
        ensures
            self == other <==> self.start() == other.start() && self.end() == other.end()
                && self.zoom() == other.zoom(),
    {
    }
}

/// Where one note is drawn: the note's place in the sequence, and its
/// rectangle within the roll.
#[derive(Clone, Copy, Debug, PartialEq, Eq, Structural, Hash)]
pub struct NoteView {
    pub index: usize,
    pub left: Px,
    pub top: Px,
    pub width: Px,
    pub height: Px,
}

/// Whether any part of a note falls into the viewport's window.
pub open spec fn is_visible(note: NoteData, viewport: Viewport) -> bool {
    !is_culled(note.start(), note.end(), viewport.start(), viewport.end())
}

/// Where the note at place `index` is drawn in a viewport: to the right of
/// the keyboard by its distance in time from the window's start, as wide as
/// it is long, and at the height of its key within the octave.
pub open spec fn note_view(index: int, note: NoteData, viewport: Viewport) -> NoteView {
    NoteView {
        index: index as usize,
        left: Px {
            units: (KEYBOARD_WIDTH * UNITS_PER_PIXEL + scaled_length(
                viewport.start(),
                note.start(),
                viewport.zoom(),
            )) as i128,
        },
        top: Px {
            units: (key_offset_pixels(note.pitch().note.spec_chromatic_index() as int)
                * UNITS_PER_PIXEL) as i128,
        },
        width: Px { units: scaled_length(note.start(), note.end(), viewport.zoom()) as i128 },
        height: Px { units: (key_height_pixels(note.pitch().note) * UNITS_PER_PIXEL) as i128 },
    }
}

/// The views of the visible notes of a sequence, in the order of the
/// sequence.
pub open spec fn visible_views(notes: Seq<NoteData>, viewport: Viewport) -> Seq<NoteView>
    decreases notes.len(),
{
    if notes.len() == 0 {
        Seq::empty()
    } else {
        let before = visible_views(notes.drop_last(), viewport);
        if is_visible(notes.last(), viewport) {
            before.push(note_view(notes.len() - 1, notes.last(), viewport))
        } else {
            before
        }
    }
}

/// A note is visible in a viewport exactly when its span and the viewport's
/// window share a point in time.
pub proof fn lemma_visible_iff_shares_a_point(note: NoteData, viewport: Viewport)
    requires
        note.wf(),
        viewport.wf(),
    ensures
        is_visible(note, viewport) <==> exists|ticks: int|
            #[trigger] span_contains(note.start(), note.end(), ticks) && span_contains(
                viewport.start(),
                viewport.end(),
                ticks,
            ),
{
    lemma_culled_iff_disjoint(note.start(), note.end(), viewport.start(), viewport.end());
}

/// The views of a sequence are those of its visible notes and of no others,
/// each once and in the order of the sequence: every view carries the place
/// of a visible note and is that note's view, the places grow strictly along
/// the views, and every visible note has its view.
pub proof fn lemma_visible_views_are_the_visible_notes(
    notes: Seq<NoteData>,
    viewport: Viewport,
)
    requires
        notes.len() <= usize::MAX,
    ensures
        visible_views(notes, viewport).len() <= notes.len(),
        forall|k: int|
            0 <= k < visible_views(notes, viewport).len() ==> {
                let view = #[trigger] visible_views(notes, viewport)[k];
                &&& view.index < notes.len()
                &&& is_visible(notes[view.index as int], viewport)
                &&& view == note_view(view.index as int, notes[view.index as int], viewport)
            },
        forall|j: int, k: int|
            0 <= j < k < visible_views(notes, viewport).len() ==> (#[trigger] visible_views(
                notes,
                viewport,
            )[j]).index < (#[trigger] visible_views(notes, viewport)[k]).index,
        forall|i: int|
            0 <= i < notes.len() && is_visible(#[trigger] notes[i], viewport) ==> exists|k: int|
                0 <= k < visible_views(notes, viewport).len() && (#[trigger] visible_views(
                    notes,
                    viewport,
                )[k]).index == i,
    decreases notes.len(),
{
    if notes.len() > 0 {
        let shorter = notes.drop_last();
        let before = visible_views(shorter, viewport);
        let views = visible_views(notes, viewport);
        let last = notes.len() - 1;
        lemma_visible_views_are_the_visible_notes(shorter, viewport);
        assert forall|i: int|
            0 <= i < notes.len() && is_visible(#[trigger] notes[i], viewport) implies exists|
            k: int,
        |
            0 <= k < views.len() && (#[trigger] views[k]).index == i by {
            if i < last {
                assert(is_visible(shorter[i], viewport));
                let k = choose|k: int| 0 <= k < before.len() && (#[trigger] before[k]).index == i;
                assert(views[k] == before[k]);
            } else {
                assert(views[views.len() - 1].index == i);
            }
        }
        assert forall|k: int| 0 <= k < views.len() implies {
            let view = #[trigger] views[k];
            &&& view.index < notes.len()
            &&& is_visible(notes[view.index as int], viewport)
            &&& view == note_view(view.index as int, notes[view.index as int], viewport)
        } by {
            if k < before.len() {
                assert(views[k] == before[k]);
                assert(shorter[before[k].index as int] == notes[before[k].index as int]);
            }
        }
        assert forall|j: int, k: int| 0 <= j < k < views.len() implies (#[trigger] views[j]).index
            < (#[trigger] views[k]).index by {
            assert(views[j] == before[j]);
            if k < before.len() {
                assert(views[k] == before[k]);
            }
        }
    }
}

/// Where the note at place `index` is drawn, or `None` for a note that lies
/// wholly outside the viewport's window.
pub fn layout_note(index: usize, note: &NoteData, viewport: &Viewport) -> (view: Option<NoteView>)
    ensures
        is_visible(*note, *viewport) ==> view == Some(note_view(index as int, *note, *viewport)),
        !is_visible(*note, *viewport) ==> view is None,
{
    let scale: Scale = viewport.scale();
    let start: MusicalTime = note.get_start();
    let grid_start: MusicalTime = viewport.visible_start();
    match time_to_pos(start, note.get_end(), grid_start, viewport.visible_end(), scale) {
        None => None,
        Some((offset, width)) => {
            let (top, height) = pitch_to_pos(note.get_pitch());
            let keyboard: Px = Px::from_pixels(KEYBOARD_WIDTH);
            proof {
                use_type_invariant(scale);
            }
            assert(-0x1_0000_0000_0000_0000_0000_0000 <= (start@ - grid_start@) * scale@
                <= 0x1_0000_0000_0000_0000_0000_0000) by (nonlinear_arith)
                requires
                    -0x1_0000_0000_0000_0000 <= start@ - grid_start@ <= 0x1_0000_0000_0000_0000,
                    0 <= scale@ <= 0x1_0000_0000,
            ;
            Some(NoteView { index, left: Px { units: keyboard.units + offset.units }, top, width, height })
        },
    }
}

/// The notes as the roll shows them: one view for each visible note, in the
/// order of the sequence.
#[derive(Clone, Debug, PartialEq, Eq)]
pub struct PianoRoll {
    pub views: Vec<NoteView>,
}

impl PianoRoll {
    /// Lays out a sequence of notes in a viewport. The notes that lie wholly
    /// outside the window get no view; the others get theirs in order, each
    /// with its place in the sequence.
    pub fn new(notes: &Vec<NoteData>, viewport: &Viewport) -> (roll: PianoRoll)
        ensures
            roll.views@ == visible_views(notes@, *viewport),
    {
        let mut views: Vec<NoteView> = Vec::new();
        let mut index: usize = 0;
        while index < notes.len()
            invariant
                index <= notes.len(),
                views@ == visible_views(notes@.take(index as int), *viewport),
            decreases notes.len() - index,
        {
            proof {
                assert(notes@.take(index + 1).drop_last() =~= notes@.take(index as int));
            }
            match layout_note(index, &notes[index], viewport) {
                Some(view) => views.push(view),
                None => {},
            }
            index = index + 1;
        }
        proof {
            assert(notes@.take(index as int) =~= notes@);
        }
        PianoRoll { views }
    }

    /// What the editor is asked to do when the user acts on a note of the
    /// roll: to lower or to raise that note when the user moves it down or
    /// up, and nothing otherwise.
    pub fn event(&self, event: PianoRollEvent) -> (request: Option<AppEvent>)
        ensures
            request == match event {
                PianoRollEvent::MoveDown(index) => Some(AppEvent::MoveNoteDown(index)),
                PianoRollEvent::MoveUp(index) => Some(AppEvent::MoveNoteUp(index)),
                _ => None,
            },
    {
        match event {
            PianoRollEvent::MoveDown(index) => Some(AppEvent::MoveNoteDown(index)),
            PianoRollEvent::MoveUp(index) => Some(AppEvent::MoveNoteUp(index)),
            _ => None,
        }
    }
}

} // verus!
