//! Holding what a compiled shader declares against the semantics of the
//! chain: what each uniform member and sampler is bound as, whether its type
//! fits, and how large the uniform blocks are.

use crate::error::ShaderReflectError;
use crate::semantics::{
    sampler_texture_semantic, uniform_texture_semantic, uniform_unique_semantic, PushReflection,
    Semantic, ShaderSemantics, TextureBinding, TextureSemanticMap, TextureSemantics,
    UboReflection, UniformBinding, UniformBindingView, UniformSemantic, UniformType,
    UniqueSemanticMap, UniqueSemantics, MAX_BINDINGS_COUNT, MAX_PUSH_BUFFER_SIZE,
};
use crate::stage::BindingStage;
use vstd::prelude::*;

verus! {

/// What the uniform member `name` is bound as under the given uniform names.
///
/// A name with a unique semantic is a user parameter where that semantic is
/// `FloatParameter`, and else the builtin variable. A name without one is
/// the size of a texture where it has a texture semantic. Any other name is
/// bound as nothing.
pub open spec fn uniform_binding(
    entries: Map<Seq<char>, UniformSemantic>,
    name: Seq<char>,
) -> Option<UniformBindingView> {
    match uniform_unique_semantic(entries, name) {
        Some(unit) => if unit.semantics == UniqueSemantics::FloatParameter {
            Some(UniformBindingView::Parameter(name))
        } else {
            Some(UniformBindingView::SemanticVariable(unit.semantics))
        },
        None => match uniform_texture_semantic(entries, name) {
            Some(texture) => Some(UniformBindingView::TextureSize(texture)),
            None => None,
        },
    }
}

/// The type that a shader must declare a binding with.
pub open spec fn expected_type(binding: UniformBindingView) -> UniformType {
    match binding {
        UniformBindingView::Parameter(_) => UniformType::Float,
        UniformBindingView::SemanticVariable(semantics) => semantics.spec_binding_type(),
        UniformBindingView::TextureSize(_) => UniformType::Vec4,
    }
}

/// Decides what a uniform member that a shader declares as `name`, with the
/// type `found`, is bound as.
///
/// The member is refused as unknown where no semantic accounts for its name,
/// and as of invalid type where `found` is not the type of its binding.
pub fn classify_uniform(semantics: &ShaderSemantics, name: &str, found: UniformType) -> (bound:
    Result<UniformBinding, ShaderReflectError>)
    ensures
        match uniform_binding(semantics.uniforms(), name@) {
            None => bound is Err && bound->Err_0.is_unknown_uniform(name@),
            Some(binding) => if expected_type(binding) == found {
                bound is Ok && bound->Ok_0@ == binding
            } else {
                bound is Err && bound->Err_0.is_invalid_type(
                    binding,
                    expected_type(binding),
                    found,
                )
            },
        },
{
    let (binding, expected) = match semantics.uniform_semantics.get_unique_semantic(name) {
        Some(unit) => match unit.semantics {
            UniqueSemantics::FloatParameter => (
                UniformBinding::Parameter(name.to_owned()),
                UniformType::Float,
            ),
            builtin => (UniformBinding::SemanticVariable(builtin), builtin.binding_type()),
        },
        None => match semantics.uniform_semantics.get_texture_semantic(name) {
            Some(texture) => (UniformBinding::TextureSize(texture), UniformType::Vec4),
            None => {
                return Err(ShaderReflectError::UnknownUniform(name.to_owned()));
            },
        },
    };
    if expected == found {
        Ok(binding)
    } else {
        Err(ShaderReflectError::InvalidType { binding, expected, found })
    }
}

/// Decides what a sampler that a shader declares as `name` at the binding
/// point `binding` reads.
///
/// A binding point at or beyond `MAX_BINDINGS_COUNT` is refused before the
/// name is looked at; a name that no semantic accounts for is unknown.
pub fn classify_sampler(semantics: &ShaderSemantics, name: &str, binding: u32) -> (bound: Result<
    (Semantic<TextureSemantics>, TextureBinding),
    ShaderReflectError,
>)
    ensures
        binding >= MAX_BINDINGS_COUNT ==> bound is Err && bound->Err_0.is_too_many_bindings(
            binding,
        ),
        binding < MAX_BINDINGS_COUNT ==> match sampler_texture_semantic(
            semantics.textures(),
            name@,
        ) {
            None => bound is Err && bound->Err_0.is_unknown_uniform(name@),
            Some(texture) => bound is Ok && bound->Ok_0.0 == texture && bound->Ok_0.1.binding
                == binding,
        },
{
    if binding >= MAX_BINDINGS_COUNT {
        return Err(ShaderReflectError::TooManyBindings { binding });
    }
    match semantics.texture_semantics.get_texture_semantic(name) {
        Some(texture) => Ok((texture, TextureBinding { binding })),
        None => Err(ShaderReflectError::UnknownUniform(name.to_owned())),
    }
}

/// The least multiple of 16 that is not below `size`.
pub open spec fn aligned16(size: int) -> int {
    ((size + 15) / 16) * 16
}

/// The least multiple of 16 that is not below `size`.
pub fn align16(size: u32) -> (aligned: u32)
    requires
        size <= u32::MAX - 15,
    ensures
        aligned == aligned16(size as int),
        aligned % 16 == 0,
        size <= aligned < size + 16,
{
    (size + 15) / 16 * 16
}

/// The raw flags of the mask of the stages that declare a block.
pub open spec fn stages_of(vertex: bool, fragment: bool) -> u8 {
    if vertex && fragment {
        3
    } else if vertex {
        1
    } else if fragment {
        2
    } else {
        0
    }
}

/// The size of a block that the two stages declare with the given sizes: the
/// larger one, and none where no stage declares the block.
pub open spec fn merged_size(vertex: Option<u32>, fragment: Option<u32>) -> Option<u32> {
    match (vertex, fragment) {
        (None, None) => None,
        (Some(v), None) => Some(v),
        (None, Some(f)) => Some(f),
        (Some(v), Some(f)) => Some(if v >= f {
            v
        } else {
            f
        }),
    }
}

/// The uniform buffer that the two stages declare: bound where the vertex
/// stage binds it, or else where the fragment stage does, with the larger of
/// the sizes; none where no stage declares the block.
pub open spec fn merged_block(vertex: Option<UboBlock>, fragment: Option<UboBlock>) -> Option<
    UboBlock,
> {
    match (vertex, fragment) {
        (None, None) => None,
        (Some(v), None) => Some(v),
        (None, Some(f)) => Some(f),
        (Some(v), Some(f)) => Some(
            UboBlock {
                binding: v.binding,
                size: if v.size >= f.size {
                    v.size
                } else {
                    f.size
                },
            },
        ),
    }
}

/// A uniform buffer block as one stage declares it.
#[derive(Debug, Copy, Clone, PartialEq, Eq, Structural)]
pub struct UboBlock {
    /// The binding point of the block.
    pub binding: u32,
    /// The size of the block in bytes, as declared.
    pub size: u32,
}

/// The uniform buffer of a shader, from what each stage declares.
///
/// A shader of which no stage declares the block has none. Where both do,
/// they must agree on the binding point, and the larger size counts. The
/// size is aligned to 16 bytes and the mask holds the stages that declare
/// the block.
pub fn reflect_ubo(vertex: Option<UboBlock>, fragment: Option<UboBlock>) -> (ubo: Result<
    Option<UboReflection>,
    ShaderReflectError,
>)
    requires
        vertex is Some ==> vertex->0.size <= u32::MAX - 15,
        fragment is Some ==> fragment->0.size <= u32::MAX - 15,
    ensures
        match merged_block(vertex, fragment) {
            None => ubo is Ok && ubo->Ok_0 is None,
            Some(merged) => if vertex is Some && fragment is Some && vertex->0.binding
                != fragment->0.binding {
                ubo is Err && ubo->Err_0.is_mismatched_ubo_binding(
                    vertex->0.binding,
                    fragment->0.binding,
                )
            } else {
                ubo is Ok && ubo->Ok_0 is Some && ubo->Ok_0->0.binding == merged.binding
                    && ubo->Ok_0->0.size == aligned16(merged.size as int)
                    && ubo->Ok_0->0.stage_mask.spec_bits() == stages_of(
                    vertex is Some,
                    fragment is Some,
                )
            },
        },
{
    match (vertex, fragment) {
        (None, None) => Ok(None),
        (Some(v), None) => Ok(
            Some(
                UboReflection {
                    binding: v.binding,
                    size: align16(v.size),
                    stage_mask: BindingStage::vertex(),
                },
            ),
        ),
        (None, Some(f)) => Ok(
            Some(
                UboReflection {
                    binding: f.binding,
                    size: align16(f.size),
                    stage_mask: BindingStage::fragment(),
                },
            ),
        ),
        (Some(v), Some(f)) => {
            if v.binding != f.binding {
                return Err(
                    ShaderReflectError::MismatchedUboBinding {
                        vertex: v.binding,
                        fragment: f.binding,
                    },
                );
            }
            let size = if v.size >= f.size {
                v.size
            } else {
                f.size
            };
            Ok(
                Some(
                    UboReflection {
                        binding: v.binding,
                        size: align16(size),
                        stage_mask: BindingStage::all(),
                    },
                ),
            )
        },
    }
}

/// The push constant range of a shader, from the size of the block that
/// each stage declares.
///
/// A shader of which no stage declares the block has none. A block of more
/// than `MAX_PUSH_BUFFER_SIZE` bytes in either stage is refused, the vertex
/// stage being looked at first. Else the larger size counts, aligned to 16
/// bytes, and the mask holds the stages that declare the block.
pub fn reflect_push_constant(vertex: Option<u32>, fragment: Option<u32>) -> (push: Result<
    Option<PushReflection>,
    ShaderReflectError,
>)
    ensures
        match merged_size(vertex, fragment) {
            None => push is Ok && push->Ok_0 is None,
            Some(size) => if vertex is Some && vertex->0 > MAX_PUSH_BUFFER_SIZE {
                push is Err && push->Err_0.is_push_buffer_too_large(vertex->0)
            } else if fragment is Some && fragment->0 > MAX_PUSH_BUFFER_SIZE {
                push is Err && push->Err_0.is_push_buffer_too_large(fragment->0)
            } else {
                push is Ok && push->Ok_0 is Some && push->Ok_0->0.size == aligned16(size as int)
                    && push->Ok_0->0.stage_mask.spec_bits() == stages_of(
                    vertex is Some,
                    fragment is Some,
                )
            },
        },
{
    if let Some(v) = vertex {
        if v > MAX_PUSH_BUFFER_SIZE {
            return Err(ShaderReflectError::PushBufferTooLarge { size: v });
        }
    }
    if let Some(f) = fragment {
        if f > MAX_PUSH_BUFFER_SIZE {
            return Err(ShaderReflectError::PushBufferTooLarge { size: f });
        }
    }
    match (vertex, fragment) {
        (None, None) => Ok(None),
        (Some(v), None) => Ok(
            Some(PushReflection { size: align16(v), stage_mask: BindingStage::vertex() }),
        ),
        (None, Some(f)) => Ok(
            Some(PushReflection { size: align16(f), stage_mask: BindingStage::fragment() }),
        ),
        (Some(v), Some(f)) => {
            let size = if v >= f {
                v
            } else {
                f
            };
            Ok(Some(PushReflection { size: align16(size), stage_mask: BindingStage::all() }))
        },
    }
}

} // verus!
