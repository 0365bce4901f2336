//! Core logic of an e-reader for the Archive of Our Own: a verified gesture
//! recognizer (contact and button registries, hold scheduling decisions,
//! stroke classification, compound combination), together with the settings
//! data model, text helpers, and the widget layer built on them.


pub mod assoc;
pub mod classify;
pub mod color;
pub mod combine;
pub mod font;
pub mod geom;
pub mod gesture;
pub mod helpers;
pub mod html;
pub mod http;
pub mod laws;
pub mod metadata;
pub mod parser;
pub mod settings;
pub mod unit;
pub mod view;

pub use helpers::ceil;
