//! Entry-point synthesis for annotated asynchronous functions.
//!
//! Given the parsed shape of an `async` function declaration and the raw
//! arguments of the attribute that annotates it, this library decides whether
//! the declaration is acceptable, resolves a threading configuration, and
//! produces a plan for the replacement function: either a direct drive of the
//! body on the calling thread, or a pool of executor-polling worker threads
//! with a coordinated shutdown. On any failure it produces a single located
//! diagnostic instead. Turning source text into the descriptor model and the
//! plan back into source text is left to an unverified adapter around this
//! library.

pub mod descriptor;
pub mod diagnostics;
pub mod laws;
pub mod pipeline;
pub mod protocol;
pub mod resolve;
pub mod synthesize;
pub mod validate;
