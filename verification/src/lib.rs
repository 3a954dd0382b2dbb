//! Sorting CSV files into folders by the columns their header row names.
//!
//! The library decides; its caller touches the disk. An
//! [`organizer::Organizer`] asks for one file-system operation at a time and is
//! told how it went. What it asks for next is fixed by the transition function of
//! [`model`], and [`laws`], [`walk`] and [`sweep`] prove what follows from it for
//! a run as a whole.

pub mod classify;
pub mod header;
pub mod laws;
pub mod location;
pub mod model;
pub mod organizer;
pub mod protocol;
pub mod relocate;
pub mod sweep;
pub mod walk;
