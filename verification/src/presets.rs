//! The parts of a shader preset: passes, lookup textures and parameter
//! overrides.

use crate::common::{Binary32, FilterMode, WrapMode};
use crate::preprocess::{ShaderParameter, ShaderSource};
use crate::text::is_blank;
use vstd::prelude::*;

verus! {

/// What a scale factor is relative to.
#[derive(Debug, Copy, Clone, PartialEq, Eq, Structural, Hash)]
pub enum ScaleType {
    /// Scale by the size of the input to the pass.
    Source,
    /// Scale to an absolute size in texels.
    Absolute,
    /// Scale by the size of the viewport.
    Viewport,
}

/// The factor by which an axis is scaled.
#[derive(Debug, Copy, Clone, PartialEq, Eq, Structural, Hash)]
pub enum ScaleFactor {
    /// A multiplier, for scaling by the source or the viewport.
    Float(Binary32),
    /// A size in texels, for absolute scaling.
    Absolute(i32),
}

/// How one axis of a pass's output is sized.
#[derive(Debug, Copy, Clone, PartialEq, Eq, Structural, Hash)]
pub struct Scaling {
    /// What the factor is relative to.
    pub scale_type: ScaleType,
    /// The factor.
    pub factor: ScaleFactor,
}

/// How the output of a pass is sized, axis by axis.
#[derive(Debug, Copy, Clone, PartialEq, Eq, Structural, Hash)]
pub struct Scale2D {
    /// The scaling of the horizontal axis.
    pub x: Scaling,
    /// The scaling of the vertical axis.
    pub y: Scaling,
}

/// Configuration options for a shader pass.
#[derive(Debug, Clone)]
pub struct ShaderPassConfig {
    /// The index of the shader pass relative to its parent preset.
    pub id: i32,
    /// The path to the shader pass source file.
    pub name: String,
    /// The alias of the shader pass if available.
    pub alias: Option<String>,
    /// The filtering mode that this shader pass should expect.
    pub filter: FilterMode,
    /// The texture addressing (wrap) mode that this shader pass expects.
    pub wrap_mode: WrapMode,
    /// The number to which to wrap the frame count before passing it to the uniforms.
    pub frame_count_mod: u32,
    /// Whether or not this shader pass expects an SRGB framebuffer output.
    pub srgb_framebuffer: bool,
    /// Whether or not this shader pass expects an float framebuffer output.
    pub float_framebuffer: bool,
    /// Whether or not to generate mipmaps for the input texture before passing to the shader.
    pub mipmap_input: bool,
    /// Specifies the scaling of the output framebuffer for this shader pass.
    pub scaling: Scale2D,
}

impl ShaderPassConfig {
    /// The alias under which the output of the pass is known, as characters.
    /// An alias of white space alone, or of no character, counts as absent.
    pub open spec fn effective_alias(&self) -> Option<Seq<char>> {
        match self.alias {
            Some(alias) => if is_blank(alias@) {
                None
            } else {
                Some(alias@)
            },
            None => None,
        }
    }

    /// The index under which the pass is known to the semantic tables.
    pub open spec fn spec_index(&self) -> usize {
        self.id as usize
    }

    /// The frame count that the pass sees when the caller counts `count`:
    /// the count wrapped to the modulus of the pass where it has one, and
    /// else the count itself, as far as 32 bits hold it.
    pub open spec fn spec_frame_count(&self, count: usize) -> int {
        if self.frame_count_mod > 0 {
            count as int % self.frame_count_mod as int
        } else {
            count as int % 0x1_0000_0000
        }
    }

    /// The value of the `FrameCount` uniform for this pass in the frame that
    /// the caller counts as `count`.
    pub fn get_frame_count(&self, count: usize) -> (seen: u32)
        ensures
            seen == self.spec_frame_count(count),
            self.frame_count_mod > 0 ==> seen == count % self.frame_count_mod as usize,
            self.frame_count_mod == 0 && count <= u32::MAX ==> seen == count,
    {
        if self.frame_count_mod > 0 {
            let wrapped = count % (self.frame_count_mod as usize);
            wrapped as u32
        } else {
            let wide = count as u64;
            let low = wide % 0x1_0000_0000;
            low as u32
        }
    }
}

/// Configuration options for a lookup texture used in the shader.
#[derive(Debug, Clone)]
pub struct TextureConfig {
    /// The name of the texture.
    pub name: String,
    /// The fully qualified path to the texture.
    pub path: String,
    /// The wrap (addressing) mode to use when sampling the texture.
    pub wrap_mode: WrapMode,
    /// The filter mode to use when sampling the texture.
    pub filter: FilterMode,
    /// Whether or not to generate mipmaps for this texture.
    pub mipmap: bool,
}

/// Configuration options for a shader parameter.
#[derive(Debug, Clone)]
pub struct ParameterConfig {
    /// The name of the parameter.
    pub name: String,
    /// The value it is set to in the preset.
    pub value: Binary32,
}

/// A shader preset including all specified parameters, textures, and paths to specified shaders.
#[derive(Debug, Clone)]
pub struct ShaderPreset {
    /// The number of shaders enabled in the filter chain.
    pub shader_count: i32,
    /// Preset information for each shader.
    pub shaders: Vec<ShaderPassConfig>,
    /// Preset information for each texture.
    pub textures: Vec<TextureConfig>,
    /// Preset information for each user parameter.
    pub parameters: Vec<ParameterConfig>,
}

impl ShaderPreset {
    /// Passes stand in ascending order and each is numbered by its place;
    /// no alias is given to two passes.
    pub open spec fn well_formed(&self) -> bool {
        &&& forall|i: int| 0 <= i < self.shaders@.len() ==> (#[trigger] self.shaders@[i]).id == i
        &&& forall|i: int, j: int|
            0 <= i < j < self.shaders@.len() && (#[trigger] self.shaders@[i]).effective_alias()
                is Some ==> self.shaders@[i].effective_alias() != (
            #[trigger] self.shaders@[j]).effective_alias()
    }
}

/// The parameters that the loaded sources declare, source after source;
/// a source that failed to load contributes none.
pub open spec fn declared_parameters<E>(loaded: Seq<Result<ShaderSource, E>>) -> Seq<
    ShaderParameter,
>
    decreases loaded.len(),
{
    if loaded.len() == 0 {
        Seq::empty()
    } else {
        declared_parameters(loaded.drop_last()) + match loaded.last() {
            Ok(source) => source.parameters@,
            Err(_) => Seq::empty(),
        }
    }
}

/// Whether `k` is the place of the first source that failed to load.
pub open spec fn first_failure<E>(loaded: Seq<Result<ShaderSource, E>>, k: int) -> bool {
    &&& 0 <= k < loaded.len()
    &&& loaded[k] is Err
    &&& forall|i: int| 0 <= i < k ==> (#[trigger] loaded[i]) is Ok
}

/// Get full parameter metadata from the shaders of a preset, given what
/// loading each of them in turn gave.
///
/// Where every source loaded, the result holds the parameters of all of them,
/// in the order of the passes. Otherwise it is the failure of the first
/// source that did not load.
pub fn get_parameter_meta<E>(loaded: Vec<Result<ShaderSource, E>>) -> (meta: Result<
    Vec<ShaderParameter>,
    E,
>)
    ensures
        meta is Ok <==> forall|i: int| 0 <= i < loaded@.len() ==> (#[trigger] loaded@[i]) is Ok,
        meta is Ok ==> meta->Ok_0@ == declared_parameters(loaded@),
        meta is Err ==> exists|k: int|
            first_failure(loaded@, k) && #[trigger] loaded@[k] == Err::<ShaderSource, E>(
                meta->Err_0,
            ),
{
    let mut all: Vec<ShaderParameter> = Vec::new();
    let ghost items = loaded@;
    for item in it: loaded
        invariant
            it.seq() == items,
            forall|i: int| 0 <= i < it.index() ==> (#[trigger] items[i]) is Ok,
            all@ == declared_parameters(items.take(it.index())),
    {
        let ghost k = it.index();
        assert(items.take(k + 1).drop_last() =~= items.take(k));
        match item {
            Ok(source) => {
                let mut parameters = source.parameters;
                all.append(&mut parameters);
            },
            Err(error) => {
                return Err(error);
            },
        }
    }
    assert(items.take(items.len() as int) =~= items);
    Ok(all)
}

} // verus!
