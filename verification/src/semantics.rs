//! The semantic vocabulary: what a uniform or a sampler can stand for.

use crate::names::{builtin_semantic, resolve_builtin, NameKind};
use crate::stage::BindingStage;
use crate::text::{chars_of, spells};
use crate::tables::{get_texture, get_uniform, texture_entries, uniform_entries};
use rustc_hash::FxHashMap;
use vstd::prelude::*;

verus! {

/// The maximum number of bindings allowed in a shader.
pub const MAX_BINDINGS_COUNT: u32 = 16;

/// The maximum size of the push constant range.
pub const MAX_PUSH_BUFFER_SIZE: u32 = 128;

/// The type of a uniform.
#[derive(Debug, Ord, PartialOrd, Eq, PartialEq, Structural, Copy, Clone, Hash)]
pub enum UniformType {
    /// A matrix of 4x4 floats (`mat4`).
    Mat4,
    /// A vector of 4 floats (`vec4`).
    Vec4,
    /// An unsigned integer (`uint`).
    Unsigned,
    /// A signed integer (`int`).
    Signed,
    /// A floating point number (`float`).
    Float,
}

/// Unique semantics are builtin uniforms passed by the shader runtime
/// that are always available.
#[derive(Debug, Ord, PartialOrd, Eq, PartialEq, Structural, Copy, Clone, Hash)]
pub enum UniqueSemantics {
    /// The Model View Projection matrix for the frame (`mat4`).
    MVP,
    /// The viewport size of the current pass (`vec4`).
    Output,
    /// The viewport size of the final pass (`vec4`).
    FinalViewport,
    /// The frame count, possibly with shader-defined modulo (`uint`).
    FrameCount,
    /// The frame direction (`int`).
    FrameDirection,
    /// A user defined float parameter (`float`).
    FloatParameter,
}

/// Texture semantics relate to input or output textures.
///
/// Texture semantics are used to relate both texture samplers and `*Size` uniforms.
#[derive(Debug, Ord, PartialOrd, Eq, PartialEq, Structural, Copy, Clone, Hash)]
pub enum TextureSemantics {
    /// The original input of the filter chain.
    Original,
    /// The input from the previous shader pass, or the input on the first shader pass.
    Source,
    /// The input frames from previous frames.
    OriginalHistory,
    /// The output from previous shader passes in the same frame.
    PassOutput,
    /// The output from previous shader passes in the previous frame.
    PassFeedback,
    /// A user provided lookup texture.
    User,
}

/// A unit of unique or indexed semantic.
#[derive(Debug, Copy, Clone, PartialEq, Eq, Structural, Hash)]
pub struct Semantic<T, I = usize> {
    /// The semantics of this unit.
    pub semantics: T,
    /// The index of the semantic if not unique.
    pub index: I,
}

impl UniqueSemantics {
    /// The uniform type each builtin is bound as.
    pub open spec fn spec_binding_type(&self) -> UniformType {
        match self {
            UniqueSemantics::MVP => UniformType::Mat4,
            UniqueSemantics::Output => UniformType::Vec4,
            UniqueSemantics::FinalViewport => UniformType::Vec4,
            UniqueSemantics::FrameCount => UniformType::Unsigned,
            UniqueSemantics::FrameDirection => UniformType::Signed,
            UniqueSemantics::FloatParameter => UniformType::Float,
        }
    }

    /// Produce a `Semantic` for this `UniqueSemantics`.
    pub fn semantics(self) -> (unit: Semantic<UniqueSemantics, ()>)
        ensures
            unit == (Semantic::<UniqueSemantics, ()> { semantics: self, index: () }),
    {
        Semantic { semantics: self, index: () }
    }

    /// Get the type of the uniform when bound.
    #[verifier::when_used_as_spec(spec_binding_type)]
    pub fn binding_type(&self) -> (ty: UniformType)
        ensures
            ty == self.spec_binding_type(),
    {
        match self {
            UniqueSemantics::MVP => UniformType::Mat4,
            UniqueSemantics::Output => UniformType::Vec4,
            UniqueSemantics::FinalViewport => UniformType::Vec4,
            UniqueSemantics::FrameCount => UniformType::Unsigned,
            UniqueSemantics::FrameDirection => UniformType::Signed,
            UniqueSemantics::FloatParameter => UniformType::Float,
        }
    }
}

impl TextureSemantics {
    /// The order in which builtin names are tried against an identifier.
    ///
    /// `OriginalHistory` stands before `Original`: the shorter name begins the
    /// longer one, and would otherwise claim every history sampler.
    pub open spec fn probe_order() -> Seq<TextureSemantics> {
        seq![
            TextureSemantics::Source,
            TextureSemantics::OriginalHistory,
            TextureSemantics::Original,
            TextureSemantics::PassOutput,
            TextureSemantics::PassFeedback,
            TextureSemantics::User,
        ]
    }

    /// The characters of the size uniform's name.
    pub open spec fn spec_size_uniform_name(&self) -> Seq<char> {
        match self {
            TextureSemantics::Original => "OriginalSize"@,
            TextureSemantics::Source => "SourceSize"@,
            TextureSemantics::OriginalHistory => "OriginalHistorySize"@,
            TextureSemantics::PassOutput => "PassOutputSize"@,
            TextureSemantics::PassFeedback => "PassFeedbackSize"@,
            TextureSemantics::User => "UserSize"@,
        }
    }

    /// The characters of the sampler's name.
    pub open spec fn spec_texture_name(&self) -> Seq<char> {
        match self {
            TextureSemantics::Original => "Original"@,
            TextureSemantics::Source => "Source"@,
            TextureSemantics::OriginalHistory => "OriginalHistory"@,
            TextureSemantics::PassOutput => "PassOutput"@,
            TextureSemantics::PassFeedback => "PassFeedback"@,
            TextureSemantics::User => "User"@,
        }
    }

    /// Only `Original` and `Source` are unique; every other texture is indexed.
    pub open spec fn spec_is_indexed(&self) -> bool {
        !(*self == TextureSemantics::Original || *self == TextureSemantics::Source)
    }

    /// The semantics in the order in which names are tried.
    pub const TEXTURE_SEMANTICS: [TextureSemantics; 6] = [
        TextureSemantics::Source,
        TextureSemantics::OriginalHistory,
        TextureSemantics::Original,
        TextureSemantics::PassOutput,
        TextureSemantics::PassFeedback,
        TextureSemantics::User,
    ];

    /// Get the name of the size uniform for this semantics when bound.
    pub fn size_uniform_name(&self) -> (name: &'static str)
        ensures
            name@ == self.spec_size_uniform_name(),
    {
        match self {
            TextureSemantics::Original => "OriginalSize",
            TextureSemantics::Source => "SourceSize",
            TextureSemantics::OriginalHistory => "OriginalHistorySize",
            TextureSemantics::PassOutput => "PassOutputSize",
            TextureSemantics::PassFeedback => "PassFeedbackSize",
            TextureSemantics::User => "UserSize",
        }
    }

    /// Get the name of the texture sampler for this semantics when bound.
    pub fn texture_name(&self) -> (name: &'static str)
        ensures
            name@ == self.spec_texture_name(),
    {
        match self {
            TextureSemantics::Original => "Original",
            TextureSemantics::Source => "Source",
            TextureSemantics::OriginalHistory => "OriginalHistory",
            TextureSemantics::PassOutput => "PassOutput",
            TextureSemantics::PassFeedback => "PassFeedback",
            TextureSemantics::User => "User",
        }
    }

    /// Returns whether or not textures of this semantics are indexed or unique.
    ///
    /// Only Original and Source are unique, all other textures can be indexed.
    #[verifier::when_used_as_spec(spec_is_indexed)]
    pub fn is_indexed(&self) -> (indexed: bool)
        ensures
            indexed == self.spec_is_indexed(),
    {
        !matches!(self, TextureSemantics::Original | TextureSemantics::Source)
    }

    /// Produce a `Semantic` for this `TextureSemantics` of the given index.
    pub fn semantics(self, index: usize) -> (unit: Semantic<TextureSemantics>)
        ensures
            unit == (Semantic::<TextureSemantics> { semantics: self, index }),
    {
        Semantic { semantics: self, index }
    }
}

/// The block where a uniform member is located.
#[derive(Debug, Clone, Copy, PartialEq, Eq, Structural)]
pub enum UniformMemberBlock {
    /// The offset is for a UBO.
    Ubo,
    /// The offset is for a push constant block.
    PushConstant,
}

impl UniformMemberBlock {
    /// A list of valid member block types.
    pub const TYPES: [UniformMemberBlock; 2] =
        [UniformMemberBlock::Ubo, UniformMemberBlock::PushConstant];
}

/// The offset of a uniform member.
///
/// A uniform can be bound to both the UBO, or as a Push Constant.
#[derive(Debug, Copy, Clone, PartialEq, Eq, Structural)]
pub struct MemberOffset {
    /// The offset of the uniform member within the UBO.
    pub ubo: Option<usize>,
    /// The offset of the uniform member within the Push Constant range.
    pub push: Option<usize>,
}

impl MemberOffset {
    /// The offset recorded for the given block, if any.
    pub open spec fn spec_offset(&self, ty: UniformMemberBlock) -> Option<usize> {
        match ty {
            UniformMemberBlock::Ubo => self.ubo,
            UniformMemberBlock::PushConstant => self.push,
        }
    }

    /// These offsets with the one for block `ty` replaced by `off`.
    pub open spec fn with_offset(
        &self,
        ty: UniformMemberBlock,
        off: Option<usize>,
    ) -> MemberOffset {
        match ty {
            UniformMemberBlock::Ubo => MemberOffset { ubo: off, push: self.push },
            UniformMemberBlock::PushConstant => MemberOffset { ubo: self.ubo, push: off },
        }
    }

    /// A member is located when at least one block holds it.
    pub open spec fn is_located(&self) -> bool {
        self.ubo is Some || self.push is Some
    }

    /// The offsets of a member found at `off` in block `ty` and nowhere else.
    pub fn new(off: usize, ty: UniformMemberBlock) -> (offset: MemberOffset)
        ensures
            ty == UniformMemberBlock::Ubo ==> offset.ubo == Some(off) && offset.push is None,
            ty == UniformMemberBlock::PushConstant ==> offset.push == Some(off) && offset.ubo
                is None,
            offset.is_located(),
    {
        match ty {
            UniformMemberBlock::Ubo => MemberOffset { ubo: Some(off), push: None },
            UniformMemberBlock::PushConstant => MemberOffset { ubo: None, push: Some(off) },
        }
    }

    /// The offset of the member within the given block, if it is there.
    #[verifier::when_used_as_spec(spec_offset)]
    pub fn offset(&self, ty: UniformMemberBlock) -> (off: Option<usize>)
        ensures
            off == self.spec_offset(ty),
    {
        match ty {
            UniformMemberBlock::Ubo => self.ubo,
            UniformMemberBlock::PushConstant => self.push,
        }
    }

    /// The place where the offset for block `ty` is kept, for writing.
    pub fn offset_mut(&mut self, ty: UniformMemberBlock) -> (off: &mut Option<usize>)
        ensures
            *off == old(self).spec_offset(ty),
            *final(self) == old(self).with_offset(ty, *final(off)),
    {
        match ty {
            UniformMemberBlock::Ubo => &mut self.ubo,
            UniformMemberBlock::PushConstant => &mut self.push,
        }
    }
}


/// Reflection information for the Uniform Buffer
#[derive(Debug)]
pub struct UboReflection {
    /// The binding point for this UBO.
    pub binding: u32,
    /// The size of the UBO buffer, always aligned to a 16 byte boundary.
    pub size: u32,
    /// The mask indicating for which stages the UBO should be bound.
    pub stage_mask: BindingStage,
}

/// Reflection information for the Push Constant Block
#[derive(Debug)]
pub struct PushReflection {
    /// The size of the Push Constant range, always aligned to a 16 byte boundary.
    pub size: u32,
    /// The mask indicating for which stages the Push Constant range should be bound.
    pub stage_mask: BindingStage,
}

/// Reflection information about a non-texture related uniform variable.
#[derive(Debug)]
pub struct VariableMeta {
    /// The offset of this variable uniform.
    pub offset: MemberOffset,
    /// The size of the uniform.
    pub size: u32,
    /// The name of the uniform.
    pub id: String,
}

/// Reflection information about a texture size uniform variable.
#[derive(Debug)]
pub struct TextureSizeMeta {
    /// The offset of this size uniform.
    pub offset: MemberOffset,
    /// The mask indicating for which stages the texture size uniform should be bound.
    pub stage_mask: BindingStage,
    /// The name of the uniform.
    pub id: String,
}

/// Reflection information about texture samplers.
#[derive(Debug)]
pub struct TextureBinding {
    /// The binding index of the texture.
    pub binding: u32,
}

/// Metadata about a uniform variable.
pub trait UniformMeta {
    /// The offset that `offset` returns.
    spec fn spec_offset(&self) -> MemberOffset;

    /// The characters of the name that `id` returns.
    spec fn spec_id(&self) -> Seq<char>;

    /// The offset of this uniform.
    fn offset(&self) -> (offset: MemberOffset)
        ensures
            offset == self.spec_offset(),
    ;

    /// The name of this uniform in the shader.
    fn id(&self) -> (id: &str)
        ensures
            id@ == self.spec_id(),
    ;
}

impl UniformMeta for VariableMeta {
    open spec fn spec_offset(&self) -> MemberOffset {
        self.offset
    }

    open spec fn spec_id(&self) -> Seq<char> {
        self.id@
    }

    fn offset(&self) -> (offset: MemberOffset) {
        self.offset
    }

    fn id(&self) -> (id: &str) {
        self.id.as_str()
    }
}

impl UniformMeta for TextureSizeMeta {
    open spec fn spec_offset(&self) -> MemberOffset {
        self.offset
    }

    open spec fn spec_id(&self) -> Seq<char> {
        self.id@
    }

    fn offset(&self) -> (offset: MemberOffset) {
        self.offset
    }

    fn id(&self) -> (id: &str) {
        self.id.as_str()
    }
}

/// Semantic assignment of a shader uniform to filter chain semantics.
#[derive(Debug, Clone)]
pub enum UniformSemantic {
    /// A unique semantic.
    Unique(Semantic<UniqueSemantics, ()>),
    /// A texture related semantic.
    Texture(Semantic<TextureSemantics>),
}

/// The builtin uniform that bears the name `name`, if any.
pub open spec fn builtin_unique(name: Seq<char>) -> Option<UniqueSemantics> {
    if name == "MVP"@ {
        Some(UniqueSemantics::MVP)
    } else if name == "OutputSize"@ {
        Some(UniqueSemantics::Output)
    } else if name == "FinalViewportSize"@ {
        Some(UniqueSemantics::FinalViewport)
    } else if name == "FrameCount"@ {
        Some(UniqueSemantics::FrameCount)
    } else if name == "FrameDirection"@ {
        Some(UniqueSemantics::FrameDirection)
    } else {
        None
    }
}

/// The texture semantic that a table of uniform names gives to `name`.
///
/// A name in the table has what the table says: its texture semantic, or
/// none where the table holds it as a unique uniform. Only a name that the
/// table lacks is held against the builtin size uniform names.
pub open spec fn uniform_texture_semantic(
    entries: Map<Seq<char>, UniformSemantic>,
    name: Seq<char>,
) -> Option<Semantic<TextureSemantics>> {
    if entries.contains_key(name) {
        match entries[name] {
            UniformSemantic::Unique(_) => None,
            UniformSemantic::Texture(texture) => Some(texture),
        }
    } else {
        builtin_semantic(name, NameKind::SizeUniform)
    }
}

/// The texture semantic that a table of sampler names gives to `name`: what
/// the table holds for it, and for a name that it lacks, what the builtin
/// sampler names give.
pub open spec fn sampler_texture_semantic(
    entries: Map<Seq<char>, Semantic<TextureSemantics>>,
    name: Seq<char>,
) -> Option<Semantic<TextureSemantics>> {
    if entries.contains_key(name) {
        Some(entries[name])
    } else {
        builtin_semantic(name, NameKind::Sampler)
    }
}

/// The unique semantic that a table of uniform names gives to `name`.
///
/// A name in the table has what the table says: its unique semantic, or none
/// where the table holds it as a texture size. Only a name that the table
/// lacks is held against the builtin uniform names.
pub open spec fn uniform_unique_semantic(
    entries: Map<Seq<char>, UniformSemantic>,
    name: Seq<char>,
) -> Option<Semantic<UniqueSemantics, ()>> {
    if entries.contains_key(name) {
        match entries[name] {
            UniformSemantic::Unique(variable) => Some(variable),
            UniformSemantic::Texture(_) => None,
        }
    } else {
        match builtin_unique(name) {
            Some(semantics) => Some(Semantic { semantics, index: () }),
            None => None,
        }
    }
}

/// A trait for maps that can return texture semantic units.
pub trait TextureSemanticMap {
    /// The texture semantic that the map gives to the characters `name`.
    spec fn spec_texture_semantic(&self, name: Seq<char>) -> Option<Semantic<TextureSemantics>>;

    /// Get the texture semantic for the given variable name.
    fn get_texture_semantic(&self, name: &str) -> (found: Option<Semantic<TextureSemantics>>)
        ensures
            found == self.spec_texture_semantic(name@),
    ;
}

impl TextureSemanticMap for FxHashMap<String, UniformSemantic> {
    open spec fn spec_texture_semantic(&self, name: Seq<char>) -> Option<
        Semantic<TextureSemantics>,
    > {
        uniform_texture_semantic(uniform_entries(*self), name)
    }

    fn get_texture_semantic(&self, name: &str) -> (found: Option<Semantic<TextureSemantics>>) {
        match get_uniform(self, name) {
            None => resolve_builtin(name, NameKind::SizeUniform),
            Some(UniformSemantic::Unique(_)) => None,
            Some(UniformSemantic::Texture(texture)) => Some(*texture),
        }
    }
}

impl TextureSemanticMap for FxHashMap<String, Semantic<TextureSemantics>> {
    open spec fn spec_texture_semantic(&self, name: Seq<char>) -> Option<
        Semantic<TextureSemantics>,
    > {
        sampler_texture_semantic(texture_entries(*self), name)
    }

    fn get_texture_semantic(&self, name: &str) -> (found: Option<Semantic<TextureSemantics>>) {
        match get_texture(self, name) {
            None => resolve_builtin(name, NameKind::Sampler),
            Some(texture) => Some(*texture),
        }
    }
}

/// A trait for maps that can return unique semantic units.
pub trait UniqueSemanticMap {
    /// The unique semantic that the map gives to the characters `name`.
    spec fn spec_unique_semantic(&self, name: Seq<char>) -> Option<Semantic<UniqueSemantics, ()>>;

    /// Get the unique semantic for the given variable name.
    fn get_unique_semantic(&self, name: &str) -> (found: Option<Semantic<UniqueSemantics, ()>>)
        ensures
            found == self.spec_unique_semantic(name@),
    ;
}

/// The builtin uniform that bears the name `name`, if any.
pub fn resolve_builtin_unique(name: &str) -> (found: Option<UniqueSemantics>)
    ensures
        found == builtin_unique(name@),
{
    let text = chars_of(name);
    if spells(&text, "MVP") {
        Some(UniqueSemantics::MVP)
    } else if spells(&text, "OutputSize") {
        Some(UniqueSemantics::Output)
    } else if spells(&text, "FinalViewportSize") {
        Some(UniqueSemantics::FinalViewport)
    } else if spells(&text, "FrameCount") {
        Some(UniqueSemantics::FrameCount)
    } else if spells(&text, "FrameDirection") {
        Some(UniqueSemantics::FrameDirection)
    } else {
        None
    }
}

impl UniqueSemanticMap for FxHashMap<String, UniformSemantic> {
    open spec fn spec_unique_semantic(&self, name: Seq<char>) -> Option<
        Semantic<UniqueSemantics, ()>,
    > {
        uniform_unique_semantic(uniform_entries(*self), name)
    }

    fn get_unique_semantic(&self, name: &str) -> (found: Option<Semantic<UniqueSemantics, ()>>) {
        match get_uniform(self, name) {
            // existing uniforms in the semantic map have priority
            None => match resolve_builtin_unique(name) {
                Some(semantics) => Some(Semantic { semantics, index: () }),
                None => None,
            },
            Some(UniformSemantic::Unique(variable)) => Some(*variable),
            Some(UniformSemantic::Texture(_)) => None,
        }
    }
}

/// The runtime provided maps of uniform and texture variables to filter chain semantics.
#[derive(Debug, Clone)]
pub struct ShaderSemantics {
    /// A map of uniform names to filter chain semantics.
    pub uniform_semantics: FxHashMap<String, UniformSemantic>,
    /// A map of texture names to filter chain semantics.
    pub texture_semantics: FxHashMap<String, Semantic<TextureSemantics>>,
}

impl ShaderSemantics {
    /// The uniform names of the chain with their semantics.
    pub open spec fn uniforms(&self) -> Map<Seq<char>, UniformSemantic> {
        uniform_entries(self.uniform_semantics)
    }

    /// The sampler names of the chain with their semantics.
    pub open spec fn textures(&self) -> Map<Seq<char>, Semantic<TextureSemantics>> {
        texture_entries(self.texture_semantics)
    }
}

/// The binding of a uniform after the shader has been linked.
///
/// Used in combination with [`MemberOffset`] to keep track
/// of semantics at each frame pass.
#[derive(Debug, Clone, Eq, Hash, PartialEq)]
pub enum UniformBinding {
    /// A user parameter (`float`) binding.
    Parameter(String),
    /// A known semantic binding.
    SemanticVariable(UniqueSemantics),
    /// A texture size (`float4`) binding.
    TextureSize(Semantic<TextureSemantics>),
}

impl From<UniqueSemantics> for UniformBinding {
    fn from(value: UniqueSemantics) -> (binding: Self) {
        UniformBinding::SemanticVariable(value)
    }
}

impl vstd::std_specs::convert::FromSpecImpl<UniqueSemantics> for UniformBinding {
    open spec fn obeys_from_spec() -> bool {
        true
    }

    open spec fn from_spec(value: UniqueSemantics) -> Self {
        UniformBinding::SemanticVariable(value)
    }
}

impl From<Semantic<TextureSemantics>> for UniformBinding {
    fn from(value: Semantic<TextureSemantics>) -> (binding: Self) {
        UniformBinding::TextureSize(value)
    }
}

impl vstd::std_specs::convert::FromSpecImpl<Semantic<TextureSemantics>> for UniformBinding {
    open spec fn obeys_from_spec() -> bool {
        true
    }

    open spec fn from_spec(value: Semantic<TextureSemantics>) -> Self {
        UniformBinding::TextureSize(value)
    }
}

/// A uniform binding with its parameter name as characters.
pub enum UniformBindingView {
    /// A user parameter of the given name.
    Parameter(Seq<char>),
    /// A known semantic binding.
    SemanticVariable(UniqueSemantics),
    /// A texture size binding.
    TextureSize(Semantic<TextureSemantics>),
}

impl View for UniformBinding {
    type V = UniformBindingView;

    open spec fn view(&self) -> UniformBindingView {
        match self {
            UniformBinding::Parameter(name) => UniformBindingView::Parameter(name@),
            UniformBinding::SemanticVariable(semantics) => UniformBindingView::SemanticVariable(
                *semantics,
            ),
            UniformBinding::TextureSize(texture) => UniformBindingView::TextureSize(*texture),
        }
    }
}

/// Reflection metadata about the various bindings for this shader.
#[derive(Debug)]
pub struct BindingMeta {
    /// A map of parameter names to uniform binding metadata.
    pub parameter_meta: FxHashMap<String, VariableMeta>,
    /// A map of unique semantics to uniform binding metadata.
    pub unique_meta: FxHashMap<UniqueSemantics, VariableMeta>,
    /// A map of texture semantics to texture binding points.
    pub texture_meta: FxHashMap<Semantic<TextureSemantics>, TextureBinding>,
    /// A map of texture semantics to texture size uniform binding metadata.
    pub texture_size_meta: FxHashMap<Semantic<TextureSemantics>, TextureSizeMeta>,
}

impl Default for BindingMeta {
    fn default() -> (meta: Self)
        ensures
            meta.parameter_meta@.dom().is_empty(),
            meta.unique_meta@.dom().is_empty(),
            meta.texture_meta@.dom().is_empty(),
            meta.texture_size_meta@.dom().is_empty(),
    {
        BindingMeta {
            parameter_meta: FxHashMap::default(),
            unique_meta: FxHashMap::default(),
            texture_meta: FxHashMap::default(),
            texture_size_meta: FxHashMap::default(),
        }
    }
}

/// Reflection information about a shader.
#[derive(Debug)]
pub struct ShaderReflection {
    /// Reflection information about the UBO for this shader.
    pub ubo: Option<UboReflection>,
    /// Reflection information about the Push Constant range for this shader.
    pub push_constant: Option<PushReflection>,
    /// Metadata about the bindings required for this shader.
    pub meta: BindingMeta,
}

} // verus!
