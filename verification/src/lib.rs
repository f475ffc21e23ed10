//! A cross-language call boundary: exported native functions and methods,
//! including long-running asynchronous operations, are made callable from
//! foreign code through a stable binary interface.
//!
//! The pieces, leaf first: per-type value conversion between native values
//! and their boundary-safe shapes (`abi`), a registry of reference-counted
//! object handles (`registry`), a classifier that turns an exported
//! declaration into a signature record (`signature`), a generator that
//! derives the boundary entry points each signature needs (`entries`), the
//! state machine that lets a foreign caller drive a native asynchronous
//! computation by polling (`bridge`), and the mapper that turns a native
//! result into a boundary-safe outcome and status (`status`). On top of
//! those stand the exports themselves (`exports`), their declaration
//! records (`declarations`), their concrete boundary entries (`boundary`),
//! the timer their suspensions wait on (`timer`), and the code-type record
//! a per-language emitter consumes (`codegen`).

pub mod abi;
pub mod boundary;
pub mod bridge;
pub mod codegen;
pub mod declarations;
pub mod entries;
pub mod exports;
pub mod registry;
pub mod signature;
pub mod status;
pub mod timer;

use vstd::prelude::*;

verus! {

/// The boundary-safe shape classes a converted value can take: every
/// native type maps to exactly one of them.
#[derive(Clone, Copy, PartialEq, Eq, Structural, Debug)]
pub enum AbiShape {
    Scalar,
    Buffer,
    Handle,
}

} // verus!
