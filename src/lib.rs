//! Note lifecycle and envelope scheduling for a small tone synthesiser.
//!
//! The library holds no handle on an audio device. It decides what a host audio
//! subsystem must be told (control points, source start and halt, graph
//! disconnection), keeps a model of what each note has been told, and maps the
//! host's answers to errors.
pub mod envelope;
pub mod note;
pub mod engine;
