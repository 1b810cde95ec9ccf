//! Conversion of watch telemetry, given as an XML stream of samples, into a GPX track.
//!
//! The modules follow the data flow. The stream is read into tokens (`reader`). Element
//! names are routed to the field they feed (`fields`), character data accumulates in one
//! long-lived record (`sample_rec`), and a small state machine decides at every periodic
//! sample boundary whether the record is emitted (`policy`); `stream` is the loop that
//! drives the three, `gating` and `carry_over` say what it does over whole streams.
//!
//! An emitted record becomes a track point or fails by one of its fields
//! (`track_point`). Reading texts as fractional numbers and converting their units is
//! left to a numeric stage outside this crate, whose outcome comes in as plain values;
//! times are read and written through `calendar`. The document is built as a sequence of
//! events (`gpx`) and rendered to bytes (`emitter`). `converter` puts the two halves of a
//! conversion together, before and after the numeric stage.

pub mod calendar;
pub mod carry_over;
pub mod converter;
pub mod digits;
pub mod emitter;
pub mod fields;
pub mod gating;
pub mod gpx;
pub mod policy;
pub mod reader;
pub mod sample_rec;
pub mod stream;
pub mod track_point;
