//! Where a note goes on the grid: its horizontal extent from its time span,
//! the visible window and the zoom, and its vertical extent from its pitch.

use vstd::prelude::*;

use crate::pitch::Note;
use crate::pitch::Pitch;
use crate::time::MusicalTime;
use crate::time::TICKS_PER_BEAT;
use crate::units::Px;
use crate::units::Scale;
use crate::units::PIXELS_PER_BEAT;
use crate::units::SCALE_UNIT;
use crate::units::UNITS_PER_PIXEL;

verus! {

/// Height of a black key in pixels.
pub const BLACK_KEY_HEIGHT: i32 = 14;

/// Height in pixels of a white key that does not follow a gap between black
/// keys.
pub const WHITE_KEY_HEIGHT: i32 = 23;

/// Height in pixels of the white keys `D`, `F` and `B`, one pixel more than
/// the others.
pub const TALL_WHITE_KEY_HEIGHT: i32 = 24;

/// Height of the key of a pitch class, in whole pixels.
pub open spec fn key_height_pixels(note: Note) -> int {
    if note.spec_is_black_key() {
        BLACK_KEY_HEIGHT as int
    } else if note == Note::D || note == Note::F || note == Note::B {
        TALL_WHITE_KEY_HEIGHT as int
    } else {
        WHITE_KEY_HEIGHT as int
    }
}

/// Sum of the heights, in whole pixels, of the keys at the chromatic
/// positions below `index`: where the key at `index` starts within its
/// octave.
pub open spec fn key_offset_pixels(index: int) -> int
    decreases index,
{
    if index <= 0 {
        0
    } else {
        key_offset_pixels(index - 1) + key_height_pixels(Note::at_index(index - 1))
    }
}

/// Whether a span from `start` to `end` lies wholly outside the window from
/// `grid_start` to `grid_end`. Both are taken with their end points, so a
/// span that touches the window's edge is not outside.
pub open spec fn is_culled(
    start: MusicalTime,
    end: MusicalTime,
    grid_start: MusicalTime,
    grid_end: MusicalTime,
) -> bool {
    start@ > grid_end@ || end@ < grid_start@
}

/// Whether the point in time `ticks` lies between `start` and `end`, end
/// points included.
pub open spec fn span_contains(start: MusicalTime, end: MusicalTime, ticks: int) -> bool {
    start@ <= ticks <= end@
}

/// Length on screen, in length units, of the stretch of time from `from` to
/// `to` at a zoom factor; negative where `to` is the earlier.
pub open spec fn scaled_length(from: MusicalTime, to: MusicalTime, scale: Scale) -> int {
    (to@ - from@) * scale@
}

/// Height of the key of a pitch class: 14 pixels for a black key, 23 for a
/// white key, 24 for the white keys `D`, `F` and `B`.
pub fn note_to_key_height(note: Note) -> (height: Px)
    ensures
        height@ == key_height_pixels(note) * UNITS_PER_PIXEL,
{
    if note.is_black_key() {
        Px::from_pixels(BLACK_KEY_HEIGHT)
    } else {
        match note {
            Note::D | Note::F | Note::B => Px::from_pixels(TALL_WHITE_KEY_HEIGHT),
            _ => Px::from_pixels(WHITE_KEY_HEIGHT),
        }
    }
}

/// Where the key of a pitch class starts within its octave: the heights of
/// all keys at lower chromatic positions, stacked from `C`.
pub fn note_to_key_height_offset(note: Note) -> (offset: Px)
    ensures
        offset@ == key_offset_pixels(note.spec_chromatic_index() as int) * UNITS_PER_PIXEL,
{
    let target: u8 = note.chromatic_index();
    let mut units: i128 = 0;
    let mut index: u8 = 0;
    while index < target
        invariant
            index <= target < 12,
            units == key_offset_pixels(index as int) * UNITS_PER_PIXEL,
            0 <= key_offset_pixels(index as int) <= index * TALL_WHITE_KEY_HEIGHT,
        decreases target - index,
    {
        let below: Px = match Note::from_chromatic_index(index) {
            Some(key) => note_to_key_height(key),
            None => Px::from_pixels(0),
        };
        units = units + below.units;
        index = index + 1;
    }
    Px { units }
}

/// Vertical position and height of a pitch's key within its octave. The
/// octave and the fine-tune do not enter: stacking the octaves is left to the
/// caller.
pub fn pitch_to_pos(pitch: Pitch) -> (pos: (Px, Px))
    ensures
        pos.0@ == key_offset_pixels(pitch.note.spec_chromatic_index() as int) * UNITS_PER_PIXEL,
        pos.1@ == key_height_pixels(pitch.note) * UNITS_PER_PIXEL,
{
    let note: Note = pitch.note();
    let offset: Px = note_to_key_height_offset(note);
    let height: Px = note_to_key_height(note);
    (offset, height)
}

/// Length on screen of the stretch of time from `from` to `to`.
fn span_to_length(from: MusicalTime, to: MusicalTime, scale: Scale) -> (length: Px)
    ensures
        length@ == scaled_length(from, to, scale),
{
    let ticks: i128 = to.ticks as i128 - from.ticks as i128;
    let factor: i128 = scale.thousandths() as i128;
    assert(-0x1_0000_0000_0000_0000_0000_0000 <= ticks * factor
        <= 0x1_0000_0000_0000_0000_0000_0000) by (nonlinear_arith)
        requires
            -0x1_0000_0000_0000_0000 <= ticks <= 0x1_0000_0000_0000_0000,
            0 <= factor <= 0x1_0000_0000,
    ;
    Px { units: ticks * factor }
}

/// Horizontal position and width of a note in the visible window, or `None`
/// for a note that lies wholly outside it.
///
/// The position is measured from the window's start and the width is that of
/// the whole note. Neither is clipped to the window: a note that starts
/// before the window has a negative position. A span given in reverse, its
/// end before its start, is laid out as it stands, with a negative width.
pub fn time_to_pos(
    start: MusicalTime,
    end: MusicalTime,
    grid_start: MusicalTime,
    grid_end: MusicalTime,
    scale: Scale,
) -> (pos: Option<(Px, Px)>)
    ensures
        is_culled(start, end, grid_start, grid_end) ==> pos is None,
        !is_culled(start, end, grid_start, grid_end) ==> pos is Some
            && pos.unwrap().0@ == scaled_length(grid_start, start, scale)
            && pos.unwrap().1@ == scaled_length(start, end, scale),
{
    if start > grid_end || end < grid_start {
        return None;
    }
    let offset: Px = span_to_length(grid_start, start, scale);
    let width: Px = span_to_length(start, end, scale);
    Some((offset, width))
}

/// A span that is not reversed is culled exactly when it shares no point in
/// time with the window.
///
/// One kind of input is left out: a reversed window, `grid_end` before
/// `grid_start`, that lies inside the span. Such a window holds no point, yet
/// the span is not culled.
pub proof fn lemma_culled_iff_disjoint(
    start: MusicalTime,
    end: MusicalTime,
    grid_start: MusicalTime,
    grid_end: MusicalTime,
)
    requires
        start@ <= end@,
        !(grid_end@ < grid_start@ && start@ <= grid_end@ && grid_start@ <= end@),
    ensures
        is_culled(start, end, grid_start, grid_end) <==> forall|ticks: int|
            !(#[trigger] span_contains(start, end, ticks) && span_contains(
                grid_start,
                grid_end,
                ticks,
            )),
{
    if !is_culled(start, end, grid_start, grid_end) {
        let shared: int = if start@ >= grid_start@ {
            start@
        } else {
            grid_start@
        };
        assert(span_contains(start, end, shared) && span_contains(grid_start, grid_end, shared));
    }
}

/// A note that starts where the window starts is placed at position zero, at
/// every zoom factor.
pub proof fn lemma_offset_zero_at_window_start(start: MusicalTime, scale: Scale)
    ensures
        scaled_length(start, start, scale) == 0,
{
}

/// The width of a note is its duration in beats times `PIXELS_PER_BEAT`
/// times the zoom factor.
///
/// With the width in pixels `w / UNITS_PER_PIXEL`, the duration in beats
/// `d / TICKS_PER_BEAT` and the zoom factor `z / SCALE_UNIT`, the first
/// clause is that equation cleared of its divisions. The second is the same
/// for a duration of `beats` whole beats, the third for a zoom factor that is
/// a whole number as well.
pub proof fn lemma_width_is_duration_times_zoom(
    start: MusicalTime,
    end: MusicalTime,
    scale: Scale,
    beats: int,
    factor: int,
)
    ensures
        scaled_length(start, end, scale) * (TICKS_PER_BEAT * SCALE_UNIT) == ((end@ - start@)
            * PIXELS_PER_BEAT * scale@) * UNITS_PER_PIXEL,
        end@ - start@ == beats * TICKS_PER_BEAT ==> scaled_length(start, end, scale) * SCALE_UNIT
            == (beats * PIXELS_PER_BEAT * scale@) * UNITS_PER_PIXEL,
        end@ - start@ == beats * TICKS_PER_BEAT && scale@ == factor * SCALE_UNIT ==> scaled_length(
            start,
            end,
            scale,
        ) == (beats * PIXELS_PER_BEAT * factor) * UNITS_PER_PIXEL,
{
    let d = end@ - start@;
    let z = scale@;
    assert((d * z) * (960 * 1000) == ((d * 100) * z) * 9600) by (nonlinear_arith);
    if d == beats * TICKS_PER_BEAT {
        assert(((beats * 960) * z) * 1000 == ((beats * 100) * z) * 9600) by (nonlinear_arith);
        if z == factor * SCALE_UNIT {
            assert((beats * 960) * (factor * 1000) == ((beats * 100) * factor) * 9600)
                by (nonlinear_arith);
        }
    }
}

/// Width is additive in the duration and in the zoom: two stretches of time
/// laid end to end are as wide as the whole, and a note at the sum of two
/// zoom factors is as wide as at the one and at the other together.
pub proof fn lemma_width_is_linear(
    start: MusicalTime,
    middle: MusicalTime,
    end: MusicalTime,
    scale: Scale,
    first: Scale,
    second: Scale,
)
    ensures
        scaled_length(start, end, scale) == scaled_length(start, middle, scale) + scaled_length(
            middle,
            end,
            scale,
        ),
        scale@ == first@ + second@ ==> scaled_length(start, end, scale) == scaled_length(
            start,
            end,
            first,
        ) + scaled_length(start, end, second),
{
    let z = scale@;
    let a = middle@ - start@;
    let b = end@ - middle@;
    assert((a + b) * z == a * z + b * z) by (nonlinear_arith);
    let d = end@ - start@;
    let x = first@;
    let y = second@;
    assert(d * (x + y) == d * x + d * y) by (nonlinear_arith);
}

/// Each key starts where the key below it ends: its offset is the offset of
/// the key one position lower plus that key's height.
pub proof fn lemma_key_offset_step(note: Note)
    requires
        note != Note::B,
    ensures
        key_offset_pixels(note.spec_add_semitones(1).spec_chromatic_index() as int)
            == key_offset_pixels(note.spec_chromatic_index() as int) + key_height_pixels(note),
        key_offset_pixels(Note::C.spec_chromatic_index() as int) == 0,
{
}

/// Within the octave the key offset grows strictly with the chromatic
/// position.
pub proof fn lemma_key_offset_strictly_increasing(lower: Note, upper: Note)
    requires
        lower.spec_chromatic_index() < upper.spec_chromatic_index(),
    ensures
        key_offset_pixels(lower.spec_chromatic_index() as int) < key_offset_pixels(
            upper.spec_chromatic_index() as int,
        ),
{
    lemma_key_offset_increasing(
        lower.spec_chromatic_index() as int,
        upper.spec_chromatic_index() as int,
    );
}

/// The sum of key heights grows strictly with the number of keys summed.
proof fn lemma_key_offset_increasing(low: int, high: int)
    requires
        0 <= low < high,
    ensures
        key_offset_pixels(low) < key_offset_pixels(high),
    decreases high - low,
{
    if low + 1 < high {
        lemma_key_offset_increasing(low, high - 1);
    }
}

} // verus!
