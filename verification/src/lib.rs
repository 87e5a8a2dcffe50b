//! Bridge between a physical control surface (knobs and buttons exchanging
//! fixed three-byte messages) and a host audio-mixing subsystem.
//!
//! A [`target::Target`] describes *how* to find a live audio entity (a fixed
//! device, a property match over running application streams, or an ordered
//! fallback list).  A [`binding::Binding`] attaches one interaction mode
//! (volume knob, mute toggle, default-device select) to a target.  The
//! [`deck::Deck`] owns the control-index-to-binding table, decodes inbound
//! surface messages into audio mutations, and computes the outbound display
//! messages that keep the surface in step with the audio session set.
//!
//! All decisions are made over an [`audio::AudioState`] snapshot of the audio
//! subsystem and yield [`audio::AudioAction`] values; the process edge that
//! fetches snapshots from the subsystem and performs the actions lives
//! outside this crate.
pub mod audio;
pub mod binding;
pub mod deck;
pub mod outcome;
pub mod target;
