//! What preprocessing a shader source file yields.

use crate::common::{Binary32, ImageFormat};
use vstd::prelude::*;

verus! {

/// A user tweakable parameter that a shader declares with `#pragma parameter`.
#[derive(Debug, Clone, PartialEq, Eq)]
pub struct ShaderParameter {
    /// The name of the parameter.
    pub id: String,
    /// The description of the parameter.
    pub description: String,
    /// The initial value the parameter is set to.
    pub initial: Binary32,
    /// The minimum value that the parameter can be set to.
    pub minimum: Binary32,
    /// The maximum value that the parameter can be set to.
    pub maximum: Binary32,
    /// The step by which this parameter can be incremented or decremented.
    pub step: Binary32,
}

/// A preprocessed shader source: both stages, and what its pragmas declare.
#[derive(Debug, Clone, PartialEq, Eq)]
pub struct ShaderSource {
    /// The source contents for the vertex shader.
    pub vertex: String,
    /// The source contents for the fragment shader.
    pub fragment: String,
    /// The alias of the shader if available.
    pub name: Option<String>,
    /// The parameters that the source declares, each id once.
    pub parameters: Vec<ShaderParameter>,
    /// The image format the shader expects.
    pub format: ImageFormat,
}

impl ShaderSource {
    /// The ids of the declared parameters, in the order of their declaration.
    pub open spec fn parameter_ids(&self) -> Seq<Seq<char>> {
        self.parameters@.map_values(|parameter: ShaderParameter| parameter.id@)
    }

    /// Parameters are keyed by their id: no id is declared twice.
    pub open spec fn well_formed(&self) -> bool {
        self.parameter_ids().no_duplicates()
    }
}

} // verus!
