//! What can go wrong between a compiled shader and its bindings.

use crate::semantics::{UniformBinding, UniformBindingView, UniformType};
use vstd::prelude::*;

verus! {

/// Error type for shader compilation.
#[derive(Debug, Clone, PartialEq, Eq)]
pub enum ShaderCompileError {
    /// The front end rejected the source; the diagnostics are kept verbatim.
    CompileError(String),
}

/// Error type for shader reflection.
#[derive(Debug, Clone, PartialEq, Eq)]
pub enum ShaderReflectError {
    /// A uniform that no semantic and no parameter accounts for.
    UnknownUniform(String),
    /// A binding declared with another type than its semantic has.
    InvalidType {
        /// The binding that was declared.
        binding: UniformBinding,
        /// The type that the semantic of the binding has.
        expected: UniformType,
        /// The type that the shader declares.
        found: UniformType,
    },
    /// A sampler bound at or beyond the highest binding point.
    TooManyBindings {
        /// The binding point that the shader asks for.
        binding: u32,
    },
    /// A push constant block larger than the limit.
    PushBufferTooLarge {
        /// The size of the block in bytes.
        size: u32,
    },
    /// The two stages bind the uniform buffer at different points.
    MismatchedUboBinding {
        /// The binding point in the vertex stage.
        vertex: u32,
        /// The binding point in the fragment stage.
        fragment: u32,
    },
}

impl ShaderReflectError {
    /// Whether this is the refusal of the uniform `name` as unknown.
    pub open spec fn is_unknown_uniform(&self, name: Seq<char>) -> bool {
        match self {
            ShaderReflectError::UnknownUniform(unknown) => unknown@ == name,
            _ => false,
        }
    }

    /// Whether this is the refusal of `binding`, declared as `found` where
    /// `expected` was due.
    pub open spec fn is_invalid_type(
        &self,
        binding: UniformBindingView,
        expected: UniformType,
        found: UniformType,
    ) -> bool {
        match self {
            ShaderReflectError::InvalidType { binding: made, expected: due, found: declared } => {
                made@ == binding && *due == expected && *declared == found
            },
            _ => false,
        }
    }

    /// Whether this is the refusal of the binding point `binding`.
    pub open spec fn is_too_many_bindings(&self, binding: u32) -> bool {
        match self {
            ShaderReflectError::TooManyBindings { binding: refused } => *refused == binding,
            _ => false,
        }
    }

    /// Whether this is the refusal of a push constant block of `size` bytes.
    pub open spec fn is_push_buffer_too_large(&self, size: u32) -> bool {
        match self {
            ShaderReflectError::PushBufferTooLarge { size: refused } => *refused == size,
            _ => false,
        }
    }

    /// Whether this is the refusal of a uniform buffer bound at `vertex` in
    /// the vertex stage and at `fragment` in the fragment stage.
    pub open spec fn is_mismatched_ubo_binding(&self, vertex: u32, fragment: u32) -> bool {
        match self {
            ShaderReflectError::MismatchedUboBinding { vertex: v, fragment: f } => *v == vertex
                && *f == fragment,
            _ => false,
        }
    }
}

} // verus!
