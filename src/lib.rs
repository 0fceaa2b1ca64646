//! A lyric synchronisation engine: resolves a playback time to the lyric line
//! that should be showing, and emits a line only when the shown line changes.

pub mod format;
pub mod lyrics;
pub mod search;
pub mod writer;
