//! Resolver for the transitive dependency graph of a workshop item hosted on
//! a content-distribution web platform.
//!
//! Starting from a single page URL the library discovers the root item's
//! identifier, the scenario identifiers advertised on its companion page, and
//! the identifiers of the items it transitively depends on, by fetching and
//! parsing linked pages breadth-first up to a caller-chosen depth.

use vstd::prelude::*;

pub mod chars;
pub mod config;
pub mod dedup;
pub mod extract;
pub mod forms;
pub mod ids;
pub mod models;
pub mod page;
pub mod paths;
pub mod resolve;
pub mod scenarios;
pub mod services;
pub mod urls;
pub mod views;

verus! {

/// The identifier format used throughout: exactly 16 uppercase hexadecimal
/// characters.
pub open spec fn is_upper_hex(c: char) -> bool {
    ('0' <= c && c <= '9') || ('A' <= c && c <= 'F')
}

/// Checks a single character for the uppercase-hexadecimal class.
pub fn upper_hex(c: char) -> (r: bool)
    ensures
        r == is_upper_hex(c),
{
    ('0' <= c && c <= '9') || ('A' <= c && c <= 'F')
}

} // verus!
