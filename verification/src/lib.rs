//! Typed parsing of element attributes.
//!
//! An element's attributes arrive as raw strings in a property bag.  This
//! crate turns them into typed values: each attribute type says which strings
//! it accepts, and the resolution functions of [`property_bag`] combine a
//! lookup in the bag with a parse and with a policy for attributes that are
//! absent.  A value that is present but invalid is always an error that names
//! the attribute.

pub mod coord_units;
pub mod error;
pub mod paint_server;
pub mod parsers;
pub mod property_bag;
pub mod text;
