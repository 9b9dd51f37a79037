//! Renaming an audio track after its tag: a template formatter that
//! substitutes `%name%` placeholders with the track's metadata, and the
//! record of a file whose path changes only once a move has succeeded.
pub mod metadata;
pub mod template;
pub mod track;
