//! Layout engine of a piano-roll editor: musical time and pitch, and the
//! geometry that places each note on the time/pitch grid.

pub mod app_data;
pub mod error;
pub mod layout;
pub mod note_data;
pub mod piano_roll;
pub mod pitch;
pub mod time;
pub mod units;

pub use app_data::AppData;
pub use app_data::AppEvent;
pub use error::Error;
pub use layout::note_to_key_height;
pub use layout::note_to_key_height_offset;
pub use layout::pitch_to_pos;
pub use layout::time_to_pos;
pub use note_data::NoteData;
pub use piano_roll::layout_note;
pub use piano_roll::NoteView;
pub use piano_roll::PianoRoll;
pub use piano_roll::PianoRollEvent;
pub use piano_roll::Viewport;
pub use piano_roll::KEYBOARD_WIDTH;
pub use pitch::Note;
pub use pitch::Pitch;
pub use time::MusicalTime;
pub use time::TICKS_PER_BEAT;
pub use time::TICKS_PER_QUARTER_BEAT;
pub use units::Px;
pub use units::Scale;
pub use units::PIXELS_PER_BEAT;
pub use units::SCALE_UNIT;
pub use units::UNITS_PER_PIXEL;
