//! Plain value types shared by the whole crate: the opaque collaborator
//! values (policy conditions, transaction templates, the compilation
//! context) and the error type that a failed compilation surfaces.

use vstd::prelude::*;

verus! {

/// An unlocking policy condition produced by a guard.  The compiler does not
/// interpret its internal structure; it only collects conditions and, for
/// cached guards, memoizes them per contract instance.  The `id` stands for
/// the underlying policy object.
#[derive(Clone, Copy, Debug, PartialEq, Eq, Structural)]
pub struct Clause {
    /// Identifies the underlying policy object.
    pub id: u64,
}

/// A transaction template yielded by a branch's production function.  The
/// compiler treats it as an opaque payload; `payload` stands for the
/// underlying template data.
#[derive(Clone, Copy, Debug, PartialEq, Eq, Structural)]
pub struct TxTmpl {
    /// Identifies the underlying template data.
    pub payload: u64,
}

/// The compilation-time environment threaded through every evaluation.  It
/// is owned by the caller of the compiler, borrowed by all operations, and
/// immutable during a single compilation pass.
#[derive(Clone, Copy, Debug, PartialEq, Eq, Structural)]
pub struct Context {
    /// Network parameters the compilation runs against.
    pub network: u64,
    /// Funds available to the contract instance, in satoshis.
    pub amount_sats: u64,
}

/// Classifies a [`CompilationError`].
#[derive(Clone, Copy, Debug, PartialEq, Eq, Structural)]
pub enum ErrorKind {
    /// A branch's argument-coercion function rejected the supplied stateful
    /// arguments.
    ArgumentCoercionFailure,
    /// A branch's production function signaled failure while generating
    /// templates.
    ProductionFailure,
    /// The conditional-compile algebra produced `Fail`, including the
    /// synthesized `Required`/`Never` conflict.
    InclusionConflict,
    /// A `Required` branch produced neither templates nor an explicit error.
    EmptyRequiredBranch,
}

/// A terminal error for a branch or, if surfaced, for the whole compilation
/// of one contract instance.  `reasons` is an ordered list of human-readable
/// messages.
#[derive(Clone, Debug, PartialEq, Eq)]
pub struct CompilationError {
    /// What failed.
    pub kind: ErrorKind,
    /// Human-readable reasons, in the order they arose.
    pub reasons: Vec<String>,
}

/// The ordered reason list of an error, as a sequence of character
/// sequences.
pub open spec fn reasons_view(v: Seq<String>) -> Seq<Seq<char>> {
    v.map_values(|s: String| s@)
}

/// What a branch's production function yields: either a finite sequence of
/// fallible transaction templates, consumed in order and abandoned at the
/// first failure, or an immediate error.
pub type TxTmplIt = Result<Vec<Result<TxTmpl, CompilationError>>, CompilationError>;

/// One entry of a successful compilation: a transaction template tagged with
/// the ordered guard conditions (implicitly conjoined) that must be met to
/// unlock it.
#[derive(Clone, Debug, PartialEq, Eq)]
pub struct CompiledTemplate {
    /// The branch's guard conditions, in declared order.
    pub guards: Vec<Clause>,
    /// The template itself.
    pub tmpl: TxTmpl,
}

} // verus!
