//! The native runtime's objects, as the bridge sees them: handles that are
//! passed through and never looked into.

#![allow(non_camel_case_types)]

use vstd::prelude::*;

verus! {

/// An app of the native runtime. It has no content on this side.
#[derive(Debug, Copy, Clone)]
pub struct ten_app_t {
    _unused: [u8; 0],
}

/// A schema of the native runtime. It has no content on this side.
#[derive(Debug, Copy, Clone)]
pub struct ten_schema_t {
    _unused: [u8; 0],
}

} // verus!
