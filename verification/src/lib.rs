//! Branch-declaration and branch-resolution machinery for compiling a
//! declarative contract description into candidate transaction templates.
//!
//! A contract type declares an ordered list of branches.  Each branch is
//! gated by an ordered list of guards (functions producing an unlocking
//! policy condition, optionally cached per contract instance) and an ordered
//! list of conditional-compile rules whose verdicts are folded through the
//! [`actions::ConditionalCompileType::merge`] algebra.  Resolving a branch
//! for a concrete contract instance evaluates the rules, evaluates the
//! guards, invokes the branch's production function and classifies the
//! outcome: included, silently pruned, or a fatal compilation error.

pub mod actions;
pub mod base;
pub mod compile;
pub mod laws;
pub mod schema;
pub mod session;
