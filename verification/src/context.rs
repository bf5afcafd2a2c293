//! The graphics context handle.
//!
//! The engine's resources are plain owned values, so the context carries no
//! hidden state; it remains the capability every constructor asks for, as a
//! graphics API binding would.

use vstd::prelude::*;

use crate::error::CoreError;
use crate::shader::Program;
use crate::shader::ProgramModel;
use crate::shader::spec_compile;

verus! {

/// A handle to the graphics context.
#[derive(Clone, Copy, Debug)]
pub struct Context {
    _private: (),
}

impl Context {
    /// Opens a context.
    pub fn new() -> Context {
        Context { _private: () }
    }

    /// Compiles a program from the given vertex and fragment sources.
    pub fn program(&self, vertex_source: String, fragment_source: String) -> (r: Result<
        Program,
        CoreError,
    >)
        ensures
            match r {
                Ok(p) => spec_compile(vertex_source@, fragment_source@) == Ok::<
                    ProgramModel,
                    CoreError,
                >(p@),
                Err(e) => spec_compile(vertex_source@, fragment_source@) == Err::<
                    ProgramModel,
                    CoreError,
                >(e),
            },
    {
        Program::compile(vertex_source, fragment_source)
    }
}

} // verus!
