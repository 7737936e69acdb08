//! A cyclic cursor over the entries of a directory.
//!
//! The crate holds the part of an image carousel that has invariants: how the
//! outcome of one directory scan becomes an ordered collection of items
//! ([`dir`]), how a cursor moves over that collection in response to
//! commands ([`carousel`]), and which key press stands for which command
//! ([`keys`]). Windows, widgets and the file system belong to the host.

pub mod carousel;
pub mod dir;
pub mod keys;
