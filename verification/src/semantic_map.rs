//! Building the chain's name tables from the passes and lookup textures of a
//! preset.

use crate::back::ShaderPassArtifact;
use crate::names::{builtin_semantic, resolve_builtin, NameKind};
use crate::preprocess::ShaderSource;
use crate::presets::{ShaderPassConfig, TextureConfig};
use crate::semantics::{
    Semantic, ShaderSemantics, TextureSemantics, UniformSemantic, UniqueSemantics,
};
use crate::tables::{
    insert_texture, insert_uniform, new_texture_table, new_uniform_table, texture_entries,
    uniform_entries,
};
use crate::text::blank;
use rustc_hash::FxHashMap;
use vstd::prelude::*;
use vstd::string::StringExecFns;

verus! {

/// The table of uniform names: characters to semantic.
pub type UniformNames = Map<Seq<char>, UniformSemantic>;

/// The table of sampler names: characters to semantic.
pub type TextureNames = Map<Seq<char>, Semantic<TextureSemantics>>;

/// The semantic of every user parameter.
pub open spec fn float_parameter() -> UniformSemantic {
    UniformSemantic::Unique(Semantic { semantics: UniqueSemantics::FloatParameter, index: () })
}

/// The semantic of the output of pass `index`.
pub open spec fn pass_output(index: usize) -> Semantic<TextureSemantics> {
    Semantic { semantics: TextureSemantics::PassOutput, index }
}

/// The semantic of the previous frame's output of pass `index`.
pub open spec fn pass_feedback(index: usize) -> Semantic<TextureSemantics> {
    Semantic { semantics: TextureSemantics::PassFeedback, index }
}

/// The semantic of lookup texture `index`.
pub open spec fn user_texture(index: usize) -> Semantic<TextureSemantics> {
    Semantic { semantics: TextureSemantics::User, index }
}

/// The name of the size uniform that goes with the texture `name`.
pub open spec fn size_name(name: Seq<char>) -> Seq<char> {
    name + "Size"@
}

/// The name under which the previous frame's output of the pass with the
/// given alias is sampled.
pub open spec fn feedback_name(alias: Seq<char>) -> Seq<char> {
    alias + "Feedback"@
}

/// The name of the size uniform of that feedback texture.
pub open spec fn feedback_size_name(alias: Seq<char>) -> Seq<char> {
    alias + "FeedbackSize"@
}

/// The uniform names once the parameters that a shader declares are entered.
pub open spec fn uniforms_with_parameters(
    uniforms: UniformNames,
    ids: Seq<Seq<char>>,
) -> UniformNames
    decreases ids.len(),
{
    if ids.len() == 0 {
        uniforms
    } else {
        uniforms_with_parameters(uniforms, ids.drop_last()).insert(ids.last(), float_parameter())
    }
}

/// The uniform names once the parameters of each source are entered.
pub open spec fn uniforms_with_sources(
    uniforms: UniformNames,
    sources: Seq<ShaderSource>,
) -> UniformNames
    decreases sources.len(),
{
    if sources.len() == 0 {
        uniforms
    } else {
        uniforms_with_parameters(
            uniforms_with_sources(uniforms, sources.drop_last()),
            sources.last().parameter_ids(),
        )
    }
}

/// The uniform names once a pass is entered: a pass with an alias adds the
/// size uniforms of its output and of its feedback; one without adds nothing.
pub open spec fn uniforms_with_pass(
    uniforms: UniformNames,
    config: ShaderPassConfig,
) -> UniformNames {
    match config.effective_alias() {
        None => uniforms,
        Some(alias) => uniforms.insert(
            size_name(alias),
            UniformSemantic::Texture(pass_output(config.spec_index())),
        ).insert(
            feedback_size_name(alias),
            UniformSemantic::Texture(pass_feedback(config.spec_index())),
        ),
    }
}

/// The sampler names once a pass is entered: a pass with an alias adds its
/// output under the alias and its feedback under the alias followed by
/// `Feedback`; one without adds nothing.
pub open spec fn textures_with_pass(
    textures: TextureNames,
    config: ShaderPassConfig,
) -> TextureNames {
    match config.effective_alias() {
        None => textures,
        Some(alias) => textures.insert(alias, pass_output(config.spec_index())).insert(
            feedback_name(alias),
            pass_feedback(config.spec_index()),
        ),
    }
}

/// The uniform names once the passes are entered, first to last.
pub open spec fn uniforms_with_passes(
    uniforms: UniformNames,
    configs: Seq<ShaderPassConfig>,
) -> UniformNames
    decreases configs.len(),
{
    if configs.len() == 0 {
        uniforms
    } else {
        uniforms_with_pass(uniforms_with_passes(uniforms, configs.drop_last()), configs.last())
    }
}

/// The sampler names once the passes are entered, first to last.
pub open spec fn textures_with_passes(
    textures: TextureNames,
    configs: Seq<ShaderPassConfig>,
) -> TextureNames
    decreases configs.len(),
{
    if configs.len() == 0 {
        textures
    } else {
        textures_with_pass(textures_with_passes(textures, configs.drop_last()), configs.last())
    }
}

/// The uniform names once the lookup textures are entered, first to last,
/// each under its place in the list.
pub open spec fn uniforms_with_luts(
    uniforms: UniformNames,
    luts: Seq<TextureConfig>,
) -> UniformNames
    decreases luts.len(),
{
    if luts.len() == 0 {
        uniforms
    } else {
        uniforms_with_luts(uniforms, luts.drop_last()).insert(
            size_name(luts.last().name@),
            UniformSemantic::Texture(user_texture((luts.len() - 1) as usize)),
        )
    }
}

/// The sampler names once the lookup textures are entered, first to last,
/// each under its place in the list.
pub open spec fn textures_with_luts(
    textures: TextureNames,
    luts: Seq<TextureConfig>,
) -> TextureNames
    decreases luts.len(),
{
    if luts.len() == 0 {
        textures
    } else {
        textures_with_luts(textures, luts.drop_last()).insert(
            luts.last().name@,
            user_texture((luts.len() - 1) as usize),
        )
    }
}

/// The builtin texture that the alias of a pass takes the name of, if any.
pub open spec fn spec_shadowed_builtin(config: ShaderPassConfig) -> Option<
    Semantic<TextureSemantics>,
> {
    match config.effective_alias() {
        Some(alias) => builtin_semantic(alias, NameKind::Sampler),
        None => None,
    }
}

/// Tells whether the alias of a pass is also the name of a builtin texture,
/// and of which one.
///
/// Such an alias is entered like any other, and from then on the name
/// stands for the pass and no longer for the builtin texture. The caller may
/// want to tell the user.
pub fn shadowed_builtin(config: &ShaderPassConfig) -> (shadowed: Option<Semantic<TextureSemantics>>)
    ensures
        shadowed == spec_shadowed_builtin(*config),
{
    match &config.alias {
        Some(alias) => if blank(alias.as_str()) {
            None
        } else {
            resolve_builtin(alias.as_str(), NameKind::Sampler)
        },
        None => None,
    }
}

/// Insert the available semantics for the input pass config into the provided semantic maps.
pub fn insert_pass_semantics(
    uniform_semantics: &mut FxHashMap<String, UniformSemantic>,
    texture_semantics: &mut FxHashMap<String, Semantic<TextureSemantics>>,
    config: &ShaderPassConfig,
)
    ensures
        uniform_entries(*final(uniform_semantics)) == uniforms_with_pass(
            uniform_entries(*old(uniform_semantics)),
            *config,
        ),
        texture_entries(*final(texture_semantics)) == textures_with_pass(
            texture_entries(*old(texture_semantics)),
            *config,
        ),
{
    let alias = match &config.alias {
        Some(alias) => alias,
        None => {
            return;
        },
    };

    // Ignore empty aliases
    if blank(alias.as_str()) {
        return;
    }
    #[verifier::truncate]
    let index = config.id as usize;

    // PassOutput
    insert_texture(
        texture_semantics,
        alias.clone(),
        Semantic { semantics: TextureSemantics::PassOutput, index },
    );
    insert_uniform(
        uniform_semantics,
        alias.clone().concat("Size"),
        UniformSemantic::Texture(Semantic { semantics: TextureSemantics::PassOutput, index }),
    );

    // PassFeedback
    insert_texture(
        texture_semantics,
        alias.clone().concat("Feedback"),
        Semantic { semantics: TextureSemantics::PassFeedback, index },
    );
    insert_uniform(
        uniform_semantics,
        alias.clone().concat("FeedbackSize"),
        UniformSemantic::Texture(Semantic { semantics: TextureSemantics::PassFeedback, index }),
    );
}

/// Insert the available semantics for the input texture config into the provided semantic maps.
pub fn insert_lut_semantics(
    textures: &[TextureConfig],
    uniform_semantics: &mut FxHashMap<String, UniformSemantic>,
    texture_semantics: &mut FxHashMap<String, Semantic<TextureSemantics>>,
)
    ensures
        uniform_entries(*final(uniform_semantics)) == uniforms_with_luts(
            uniform_entries(*old(uniform_semantics)),
            textures@,
        ),
        texture_entries(*final(texture_semantics)) == textures_with_luts(
            texture_entries(*old(texture_semantics)),
            textures@,
        ),
{
    let mut index: usize = 0;
    while index < textures.len()
        invariant
            index <= textures@.len(),
            uniform_entries(*uniform_semantics) == uniforms_with_luts(
                uniform_entries(*old(uniform_semantics)),
                textures@.take(index as int),
            ),
            texture_entries(*texture_semantics) == textures_with_luts(
                texture_entries(*old(texture_semantics)),
                textures@.take(index as int),
            ),
        decreases textures@.len() - index,
    {
        let texture = &textures[index];
        assert(textures@.take(index + 1).drop_last() =~= textures@.take(index as int));
        insert_texture(
            texture_semantics,
            texture.name.clone(),
            Semantic { semantics: TextureSemantics::User, index },
        );
        insert_uniform(
            uniform_semantics,
            texture.name.clone().concat("Size"),
            UniformSemantic::Texture(Semantic { semantics: TextureSemantics::User, index }),
        );
        index += 1;
    }
    assert(textures@.take(index as int) =~= textures@);
}

/// The pass configurations of the artifacts, in order.
pub open spec fn configs_of<T>(passes: Seq<ShaderPassArtifact<T>>) -> Seq<ShaderPassConfig> {
    passes.map_values(|pass: ShaderPassArtifact<T>| pass.0)
}

/// The shader sources of the artifacts, in order.
pub open spec fn sources_of<T>(passes: Seq<ShaderPassArtifact<T>>) -> Seq<ShaderSource> {
    passes.map_values(|pass: ShaderPassArtifact<T>| pass.1)
}

/// The uniform names of a chain: the parameters that the sources declare,
/// then the size uniforms of the aliased passes, then those of the lookup
/// textures. Where two of them bear one name, the later entry stands.
pub open spec fn chain_uniforms(
    sources: Seq<ShaderSource>,
    configs: Seq<ShaderPassConfig>,
    luts: Seq<TextureConfig>,
) -> UniformNames {
    uniforms_with_luts(
        uniforms_with_passes(uniforms_with_sources(Map::empty(), sources), configs),
        luts,
    )
}

/// The sampler names of a chain: the aliased passes, then the lookup
/// textures. Where two of them bear one name, the later entry stands.
pub open spec fn chain_textures(
    configs: Seq<ShaderPassConfig>,
    luts: Seq<TextureConfig>,
) -> TextureNames {
    textures_with_luts(textures_with_passes(Map::empty(), configs), luts)
}

/// Enters the parameters that `source` declares into the uniform names.
pub fn insert_parameter_semantics(
    uniform_semantics: &mut FxHashMap<String, UniformSemantic>,
    source: &ShaderSource,
)
    ensures
        uniform_entries(*final(uniform_semantics)) == uniforms_with_parameters(
            uniform_entries(*old(uniform_semantics)),
            source.parameter_ids(),
        ),
{
    let ghost ids = source.parameter_ids();
    let mut i: usize = 0;
    while i < source.parameters.len()
        invariant
            i <= source.parameters@.len(),
            ids == source.parameter_ids(),
            uniform_entries(*uniform_semantics) == uniforms_with_parameters(
                uniform_entries(*old(uniform_semantics)),
                ids.take(i as int),
            ),
        decreases source.parameters@.len() - i,
    {
        let parameter = &source.parameters[i];
        assert(ids.take(i + 1).drop_last() =~= ids.take(i as int));
        insert_uniform(
            uniform_semantics,
            parameter.id.clone(),
            UniformSemantic::Unique(
                Semantic { semantics: UniqueSemantics::FloatParameter, index: () },
            ),
        );
        i += 1;
    }
    assert(ids.take(i as int) =~= ids);
}

/// Builds the semantic tables of a chain from its passes, each already
/// loaded and compiled, and from the lookup textures of the preset. The
/// passes are handed back as they came.
pub fn compile_preset_passes<T>(
    passes: Vec<ShaderPassArtifact<T>>,
    textures: &[TextureConfig],
) -> (compiled:
    (Vec<ShaderPassArtifact<T>>, ShaderSemantics))
    ensures
        compiled.0 == passes,
        compiled.1.uniforms() == chain_uniforms(
            sources_of(passes@),
            configs_of(passes@),
            textures@,
        ),
        compiled.1.textures() == chain_textures(configs_of(passes@), textures@),
{
    let mut uniform_semantics = new_uniform_table();
    let mut texture_semantics = new_texture_table();
    let ghost sources = sources_of(passes@);
    let ghost configs = configs_of(passes@);

    let mut i: usize = 0;
    while i < passes.len()
        invariant
            i <= passes@.len(),
            sources == sources_of(passes@),
            uniform_entries(uniform_semantics) == uniforms_with_sources(
                Map::empty(),
                sources.take(i as int),
            ),
        decreases passes@.len() - i,
    {
        assert(sources.take(i + 1).drop_last() =~= sources.take(i as int));
        insert_parameter_semantics(&mut uniform_semantics, &passes[i].1);
        i += 1;
    }
    assert(sources.take(i as int) =~= sources);

    let ghost seeded = uniform_entries(uniform_semantics);
    let mut i: usize = 0;
    while i < passes.len()
        invariant
            i <= passes@.len(),
            configs == configs_of(passes@),
            uniform_entries(uniform_semantics) == uniforms_with_passes(
                seeded,
                configs.take(i as int),
            ),
            texture_entries(texture_semantics) == textures_with_passes(
                Map::empty(),
                configs.take(i as int),
            ),
        decreases passes@.len() - i,
    {
        assert(configs.take(i + 1).drop_last() =~= configs.take(i as int));
        insert_pass_semantics(&mut uniform_semantics, &mut texture_semantics, &passes[i].0);
        i += 1;
    }
    assert(configs.take(i as int) =~= configs);
    insert_lut_semantics(textures, &mut uniform_semantics, &mut texture_semantics);

    let semantics = ShaderSemantics { uniform_semantics, texture_semantics };
    (passes, semantics)
}

/// Whether entering the pass writes the sampler name `name`.
pub open spec fn pass_claims_texture(config: ShaderPassConfig, name: Seq<char>) -> bool {
    match config.effective_alias() {
        Some(alias) => name == alias || name == feedback_name(alias),
        None => false,
    }
}

/// Whether entering the pass writes the uniform name `name`.
pub open spec fn pass_claims_uniform(config: ShaderPassConfig, name: Seq<char>) -> bool {
    match config.effective_alias() {
        Some(alias) => name == size_name(alias) || name == feedback_size_name(alias),
        None => false,
    }
}

/// Whether entering the pass gives one of the two sampler names of the pass
/// `index` aliased `alias` to anything else than that pass does. A pass of
/// the same alias and index enters the same bindings again.
pub open spec fn pass_rewrites(config: ShaderPassConfig, alias: Seq<char>, index: usize) -> bool {
    (pass_claims_texture(config, alias) || pass_claims_texture(config, feedback_name(alias)))
        && !(config.effective_alias() == Some(alias) && config.spec_index() == index)
}

/// Whether a sampler name of pass `i`, aliased `alias`, is given to something
/// else by a pass after it or by a lookup texture.
pub open spec fn alias_shadowed(
    configs: Seq<ShaderPassConfig>,
    luts: Seq<TextureConfig>,
    i: int,
    alias: Seq<char>,
) -> bool {
    ||| exists|j: int|
        i < j < configs.len() && pass_rewrites(
            #[trigger] configs[j],
            alias,
            configs[i].spec_index(),
        )
    ||| exists|k: int|
        0 <= k < luts.len() && ((#[trigger] luts[k]).name@ == alias || luts[k].name@
            == feedback_name(alias))
}

/// Whether the tables hold the four bindings of the pass `index` aliased
/// `alias`.
pub open spec fn holds_alias(
    uniforms: UniformNames,
    textures: TextureNames,
    alias: Seq<char>,
    index: usize,
) -> bool {
    &&& textures.contains_key(alias)
    &&& textures[alias] == pass_output(index)
    &&& textures.contains_key(feedback_name(alias))
    &&& textures[feedback_name(alias)] == pass_feedback(index)
    &&& uniforms.contains_key(size_name(alias))
    &&& uniforms[size_name(alias)] == UniformSemantic::Texture(pass_output(index))
    &&& uniforms.contains_key(feedback_size_name(alias))
    &&& uniforms[feedback_size_name(alias)] == UniformSemantic::Texture(pass_feedback(index))
}

/// Two names with one size uniform are one name.
proof fn lemma_size_name_injective(a: Seq<char>, b: Seq<char>)
    requires
        size_name(a) == size_name(b),
    ensures
        a == b,
{
    let tail = "Size"@;
    assert(a.len() == b.len()) by {
        assert(size_name(a).len() == a.len() + tail.len());
        assert(size_name(b).len() == b.len() + tail.len());
    }
    assert forall|i: int| 0 <= i < a.len() implies a[i] == b[i] by {
        assert(size_name(a)[i] == a[i]);
        assert(size_name(b)[i] == b[i]);
    }
    assert(a =~= b);
}

/// The size uniform of a feedback texture is named after the feedback name.
proof fn lemma_feedback_size_name(alias: Seq<char>)
    ensures
        feedback_size_name(alias) == size_name(feedback_name(alias)),
        feedback_name(alias) != alias,
{
    reveal_strlit("Size");
    reveal_strlit("Feedback");
    reveal_strlit("FeedbackSize");
    assert("FeedbackSize"@ =~= "Feedback"@ + "Size"@);
    assert(alias + ("Feedback"@ + "Size"@) =~= (alias + "Feedback"@) + "Size"@);
}

/// A pass writes the size uniform of a name exactly when it writes the name.
proof fn lemma_claims_agree(config: ShaderPassConfig, name: Seq<char>)
    ensures
        pass_claims_uniform(config, size_name(name)) == pass_claims_texture(config, name),
{
    match config.effective_alias() {
        Some(alias) => {
            lemma_feedback_size_name(alias);
            if size_name(name) == size_name(alias) {
                lemma_size_name_injective(name, alias);
            }
            if size_name(name) == size_name(feedback_name(alias)) {
                lemma_size_name_injective(name, feedback_name(alias));
            }
        },
        None => {},
    }
}

/// Entering a pass gives its four names their bindings and touches no other
/// name: the alias and its size uniform stand for the output of the pass,
/// the alias followed by `Feedback` and the size uniform of that for its
/// feedback.
pub proof fn lemma_pass_enters_four_bindings(
    uniforms: UniformNames,
    textures: TextureNames,
    config: ShaderPassConfig,
    alias: Seq<char>,
)
    requires
        config.effective_alias() == Some(alias),
    ensures
        textures_with_pass(textures, config).dom() == textures.dom().insert(alias).insert(
            feedback_name(alias),
        ),
        textures_with_pass(textures, config)[alias] == pass_output(config.spec_index()),
        textures_with_pass(textures, config)[feedback_name(alias)] == pass_feedback(
            config.spec_index(),
        ),
        forall|name: Seq<char>|
            name != alias && name != feedback_name(alias) ==> textures_with_pass(
                textures,
                config,
            )[name] == textures[name],
        uniforms_with_pass(uniforms, config).dom() == uniforms.dom().insert(
            size_name(alias),
        ).insert(feedback_size_name(alias)),
        uniforms_with_pass(uniforms, config)[size_name(alias)] == UniformSemantic::Texture(
            pass_output(config.spec_index()),
        ),
        uniforms_with_pass(uniforms, config)[feedback_size_name(alias)]
            == UniformSemantic::Texture(pass_feedback(config.spec_index())),
        forall|name: Seq<char>|
            name != size_name(alias) && name != feedback_size_name(alias) ==> uniforms_with_pass(
                uniforms,
                config,
            )[name] == uniforms[name],
{
    lemma_feedback_size_name(alias);
    if size_name(alias) == size_name(feedback_name(alias)) {
        lemma_size_name_injective(alias, feedback_name(alias));
    }
}

/// Passes that give the names of an alias to nothing else leave its four
/// bindings in place.
proof fn lemma_passes_keep_alias(
    uniforms: UniformNames,
    textures: TextureNames,
    configs: Seq<ShaderPassConfig>,
    alias: Seq<char>,
    index: usize,
)
    requires
        holds_alias(uniforms, textures, alias, index),
        forall|j: int|
            0 <= j < configs.len() ==> !pass_rewrites(#[trigger] configs[j], alias, index),
    ensures
        holds_alias(
            uniforms_with_passes(uniforms, configs),
            textures_with_passes(textures, configs),
            alias,
            index,
        ),
    decreases configs.len(),
{
    if configs.len() > 0 {
        let last = configs.last();
        let uniforms_before = uniforms_with_passes(uniforms, configs.drop_last());
        let textures_before = textures_with_passes(textures, configs.drop_last());
        lemma_passes_keep_alias(uniforms, textures, configs.drop_last(), alias, index);
        lemma_feedback_size_name(alias);
        lemma_claims_agree(last, alias);
        lemma_claims_agree(last, feedback_name(alias));
        match last.effective_alias() {
            Some(entered) => {
                lemma_pass_enters_four_bindings(uniforms_before, textures_before, last, entered);
            },
            None => {},
        }
    }
}

/// Lookup textures of other names leave a sampler name as it was.
proof fn lemma_luts_keep_texture(textures: TextureNames, luts: Seq<TextureConfig>, name: Seq<char>)
    requires
        forall|k: int| 0 <= k < luts.len() ==> (#[trigger] luts[k]).name@ != name,
    ensures
        textures_with_luts(textures, luts).contains_key(name) == textures.contains_key(name),
        textures_with_luts(textures, luts)[name] == textures[name],
    decreases luts.len(),
{
    if luts.len() > 0 {
        lemma_luts_keep_texture(textures, luts.drop_last(), name);
    }
}

/// Lookup textures of other names leave the size uniform of a name as it was.
proof fn lemma_luts_keep_uniform(uniforms: UniformNames, luts: Seq<TextureConfig>, name: Seq<char>)
    requires
        forall|k: int| 0 <= k < luts.len() ==> (#[trigger] luts[k]).name@ != name,
    ensures
        uniforms_with_luts(uniforms, luts).contains_key(size_name(name)) == uniforms.contains_key(
            size_name(name),
        ),
        uniforms_with_luts(uniforms, luts)[size_name(name)] == uniforms[size_name(name)],
    decreases luts.len(),
{
    if luts.len() > 0 {
        lemma_luts_keep_uniform(uniforms, luts.drop_last(), name);
        if size_name(luts.last().name@) == size_name(name) {
            lemma_size_name_injective(luts.last().name@, name);
        }
    }
}

/// The tables after the passes up to and including pass `i` are entered.
proof fn lemma_passes_split(
    uniforms: UniformNames,
    textures: TextureNames,
    configs: Seq<ShaderPassConfig>,
    i: int,
)
    requires
        0 <= i <= configs.len(),
    ensures
        uniforms_with_passes(uniforms, configs) == uniforms_with_passes(
            uniforms_with_passes(uniforms, configs.take(i)),
            configs.skip(i),
        ),
        textures_with_passes(textures, configs) == textures_with_passes(
            textures_with_passes(textures, configs.take(i)),
            configs.skip(i),
        ),
    decreases configs.len(),
{
    if i == configs.len() {
        assert(configs.take(i) =~= configs);
    } else {
        lemma_passes_split(uniforms, textures, configs.drop_last(), i);
        assert(configs.drop_last().take(i) =~= configs.take(i));
        assert(configs.drop_last().skip(i) =~= configs.skip(i).drop_last());
    }
}

/// Every aliased pass that nothing shadows is known to the chain by its four
/// names.
///
/// Let pass `i` bear the alias `alias`, and let no later pass and no lookup
/// texture give the sampler name `alias`, or the name `alias` followed by
/// `Feedback`, to something else. Then the chain's sampler names hold the
/// alias for the output of the pass and the feedback name for its feedback,
/// and the chain's uniform names hold the size uniform of each for the same
/// semantic.
pub proof fn lemma_alias_bound_in_chain(
    sources: Seq<ShaderSource>,
    configs: Seq<ShaderPassConfig>,
    luts: Seq<TextureConfig>,
    i: int,
    alias: Seq<char>,
)
    requires
        0 <= i < configs.len(),
        configs[i].effective_alias() == Some(alias),
        !alias_shadowed(configs, luts, i, alias),
    ensures
        holds_alias(
            chain_uniforms(sources, configs, luts),
            chain_textures(configs, luts),
            alias,
            configs[i].spec_index(),
        ),
{
    let feedback = feedback_name(alias);
    let index = configs[i].spec_index();
    let seeded = uniforms_with_sources(Map::empty(), sources);
    let empty = Map::<Seq<char>, Semantic<TextureSemantics>>::empty();
    let head = configs.take(i + 1);
    let rest = configs.skip(i + 1);
    lemma_passes_split(seeded, empty, configs, i + 1);
    let uniforms_before = uniforms_with_passes(seeded, configs.take(i));
    let textures_before = textures_with_passes(empty, configs.take(i));
    lemma_pass_enters_four_bindings(uniforms_before, textures_before, configs[i], alias);
    lemma_feedback_size_name(alias);
    assert forall|j: int| 0 <= j < rest.len() implies !pass_rewrites(
        #[trigger] rest[j],
        alias,
        index,
    ) by {
        assert(rest[j] == configs[i + 1 + j]);
    }
    let uniforms_at = uniforms_with_passes(seeded, head);
    let textures_at = textures_with_passes(empty, head);
    lemma_passes_keep_alias(uniforms_at, textures_at, rest, alias, index);
    let uniforms_after = uniforms_with_passes(seeded, configs);
    let textures_after = textures_with_passes(empty, configs);
    lemma_luts_keep_texture(textures_after, luts, alias);
    lemma_luts_keep_texture(textures_after, luts, feedback);
    lemma_luts_keep_uniform(uniforms_after, luts, alias);
    lemma_luts_keep_uniform(uniforms_after, luts, feedback);
}

} // verus!
