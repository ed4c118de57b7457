//! Shader code generation back ends.

use crate::error::{ShaderCompileError, ShaderReflectError};
use crate::preprocess::ShaderSource;
use crate::presets::ShaderPassConfig;
use vstd::prelude::*;

verus! {

/// The output of the shader compiler.
#[derive(Debug)]
pub struct ShaderCompilerOutput<T, Context = ()> {
    /// The output for the vertex shader.
    pub vertex: T,
    /// The output for the fragment shader.
    pub fragment: T,
    /// Additional context provided by the shader compiler.
    pub context: Context,
}

/// A compiler backend that holds what a target needs to reflect and to emit.
#[derive(Debug)]
pub struct CompilerBackend<T> {
    /// The state of the back end.
    pub backend: T,
}

/// Artifacts of a reflected and compiled shader pass.
pub type ShaderPassArtifact<T> = (ShaderPassConfig, ShaderSource, CompilerBackend<T>);

/// A shader compiled to SPIR-V, one module for each stage.
#[derive(Debug, Clone)]
pub struct GlslangCompilation {
    /// The words of the vertex module.
    pub vertex: Vec<u32>,
    /// The words of the fragment module.
    pub fragment: Vec<u32>,
}

/// The back end that emits SPIR-V as it was compiled: it relies on a
/// reflector for the bindings and hands the two modules through.
#[derive(Debug)]
pub struct WriteSpirV<R> {
    /// The reflector made for the two modules.
    pub reflect: R,
    /// The words of the vertex module.
    pub vertex: Vec<u32>,
    /// The words of the fragment module.
    pub fragment: Vec<u32>,
}

/// The SPIR-V output target.
#[derive(Debug, Copy, Clone)]
pub struct SPIRV;

impl SPIRV {
    /// Makes the SPIR-V back end for a compiled shader, given what building a
    /// reflector for it gave. Where that failed, the failure is handed on and
    /// no back end is made.
    pub fn from_compilation<R>(
        reflect: Result<R, ShaderReflectError>,
        compile: GlslangCompilation,
    ) -> (made: Result<CompilerBackend<WriteSpirV<R>>, ShaderReflectError>)
        ensures
            reflect is Ok ==> made is Ok && made->Ok_0.backend.reflect == reflect->Ok_0
                && made->Ok_0.backend.vertex == compile.vertex && made->Ok_0.backend.fragment
                == compile.fragment,
            reflect is Err ==> made is Err && made->Err_0 == reflect->Err_0,
    {
        let reflect = match reflect {
            Ok(reflect) => reflect,
            Err(error) => {
                return Err(error);
            },
        };
        let vertex = compile.vertex;
        let fragment = compile.fragment;
        Ok(CompilerBackend { backend: WriteSpirV { reflect, vertex, fragment } })
    }
}

impl<R> WriteSpirV<R> {
    /// Emits the two modules unchanged. This never fails.
    pub fn compile(self, _options: Option<()>) -> (output: Result<
        ShaderCompilerOutput<Vec<u32>, ()>,
        ShaderCompileError,
    >)
        ensures
            output is Ok,
            output->Ok_0.vertex == self.vertex,
            output->Ok_0.fragment == self.fragment,
    {
        Ok(ShaderCompilerOutput { vertex: self.vertex, fragment: self.fragment, context: () })
    }
}

} // verus!
