//! Tools for a collection of ROM hacks: finding them in the catalogue of a
//! web site, telling archives and patch files apart in a directory tree, and
//! applying binary patches to copies of a base ROM.
//!
//! The heart of the crate is the patch engine. A patch is a run of hunks,
//! each a payload to be written at a byte offset, and an optional
//! truncation. [`model`] says what patching means on sequences of bytes,
//! [`patch`] does it on a buffer, [`format`] reads patch files, and
//! [`theorems`] states what holds of every patch and every file.
//!
//! Around it, [`entry`], [`batch`], [`target`] and [`scan`] hold the
//! decisions of a batch run over a directory tree, and [`site`] and
//! [`metadata`] those of reading the catalogue. Reading and writing files,
//! fetching pages and unpacking archives are left to the caller.

pub mod batch;
pub mod entry;
pub mod error;
pub mod format;
pub mod html;
pub mod metadata;
pub mod model;
pub mod patch;
pub mod paths;
pub mod pattern;
pub mod scan;
pub mod site;
pub mod target;
pub mod text;
pub mod theorems;
