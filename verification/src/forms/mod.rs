//! Form building helpers.

pub mod form_builder;

pub use form_builder::FormBuilder;
