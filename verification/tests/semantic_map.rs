use librashader::back::{CompilerBackend, ShaderPassArtifact};
use librashader::common::{Binary32, FilterMode, ImageFormat, WrapMode};
use librashader::preprocess::{ShaderParameter, ShaderSource};
use librashader::presets::{
    Scale2D, ScaleFactor, ScaleType, Scaling, ShaderPassConfig, TextureConfig,
};
use librashader::semantic_map::{
    compile_preset_passes, insert_lut_semantics, insert_parameter_semantics,
    insert_pass_semantics, shadowed_builtin,
};
use librashader::semantics::{
    Semantic, TextureSemanticMap, TextureSemantics, UniformSemantic, UniqueSemanticMap,
    UniqueSemantics,
};
use rustc_hash::FxHashMap;

fn pass_with_alias(id: i32, alias: Option<&str>) -> ShaderPassConfig {
    let unit = Scaling {
        scale_type: ScaleType::Source,
        factor: ScaleFactor::Float(Binary32 { bits: 1.0f32.to_bits() }),
    };
    ShaderPassConfig {
        id,
        name: format!("shaders/pass{id}.slang"),
        alias: alias.map(|a| a.to_string()),
        filter: FilterMode::Nearest,
        wrap_mode: WrapMode::ClampToBorder,
        frame_count_mod: 0,
        srgb_framebuffer: false,
        float_framebuffer: false,
        mipmap_input: false,
        scaling: Scale2D { x: unit, y: unit },
    }
}

fn source_with_parameters(ids: &[&str]) -> ShaderSource {
    let zero = Binary32 { bits: 0 };
    ShaderSource {
        vertex: String::new(),
        fragment: String::new(),
        name: None,
        parameters: ids
            .iter()
            .map(|id| ShaderParameter {
                id: id.to_string(),
                description: String::new(),
                initial: zero,
                minimum: zero,
                maximum: zero,
                step: zero,
            })
            .collect(),
        format: ImageFormat::R8G8B8A8Unorm,
    }
}

fn lut(name: &str) -> TextureConfig {
    TextureConfig {
        name: name.to_string(),
        path: format!("textures/{name}.png"),
        wrap_mode: WrapMode::ClampToBorder,
        filter: FilterMode::Linear,
        mipmap: false,
    }
}

fn artifact(config: ShaderPassConfig, source: ShaderSource) -> ShaderPassArtifact<u8> {
    (config, source, CompilerBackend { backend: 0u8 })
}

fn output(index: usize) -> Semantic<TextureSemantics> {
    Semantic { semantics: TextureSemantics::PassOutput, index }
}

fn feedback(index: usize) -> Semantic<TextureSemantics> {
    Semantic { semantics: TextureSemantics::PassFeedback, index }
}

fn texture_of(entry: Option<&UniformSemantic>) -> Option<Semantic<TextureSemantics>> {
    match entry {
        Some(UniformSemantic::Texture(texture)) => Some(*texture),
        _ => None,
    }
}

#[test]
fn alias_enters_exactly_four_bindings() {
    let mut uniforms: FxHashMap<String, UniformSemantic> = FxHashMap::default();
    let mut textures: FxHashMap<String, Semantic<TextureSemantics>> = FxHashMap::default();
    insert_pass_semantics(&mut uniforms, &mut textures, &pass_with_alias(3, Some("A")));

    assert_eq!(textures.len(), 2);
    assert_eq!(textures.get("A"), Some(&output(3)));
    assert_eq!(textures.get("AFeedback"), Some(&feedback(3)));
    assert_eq!(uniforms.len(), 2);
    assert_eq!(texture_of(uniforms.get("ASize")), Some(output(3)));
    assert_eq!(texture_of(uniforms.get("AFeedbackSize")), Some(feedback(3)));
}

#[test]
fn pass_without_alias_enters_nothing() {
    let mut uniforms: FxHashMap<String, UniformSemantic> = FxHashMap::default();
    let mut textures: FxHashMap<String, Semantic<TextureSemantics>> = FxHashMap::default();
    insert_pass_semantics(&mut uniforms, &mut textures, &pass_with_alias(0, None));
    assert!(uniforms.is_empty());
    assert!(textures.is_empty());
}

#[test]
fn blank_alias_counts_as_absent() {
    for blank in ["", " ", "\t \n", "\u{3000}\u{a0}"] {
        let mut uniforms: FxHashMap<String, UniformSemantic> = FxHashMap::default();
        let mut textures: FxHashMap<String, Semantic<TextureSemantics>> = FxHashMap::default();
        insert_pass_semantics(&mut uniforms, &mut textures, &pass_with_alias(1, Some(blank)));
        assert!(uniforms.is_empty(), "alias {blank:?}");
        assert!(textures.is_empty(), "alias {blank:?}");
    }
}

#[test]
fn alias_is_entered_untrimmed() {
    let mut uniforms: FxHashMap<String, UniformSemantic> = FxHashMap::default();
    let mut textures: FxHashMap<String, Semantic<TextureSemantics>> = FxHashMap::default();
    insert_pass_semantics(&mut uniforms, &mut textures, &pass_with_alias(2, Some(" B ")));
    assert_eq!(textures.get(" B "), Some(&output(2)));
    assert_eq!(textures.get(" B Feedback"), Some(&feedback(2)));
    assert_eq!(textures.get("B"), None);
    assert_eq!(texture_of(uniforms.get(" B Size")), Some(output(2)));
}

#[test]
fn pass_semantics_keep_other_entries() {
    let mut uniforms: FxHashMap<String, UniformSemantic> = FxHashMap::default();
    let mut textures: FxHashMap<String, Semantic<TextureSemantics>> = FxHashMap::default();
    textures.insert("Other".to_string(), output(9));
    textures.insert("A".to_string(), output(9));
    insert_pass_semantics(&mut uniforms, &mut textures, &pass_with_alias(4, Some("A")));
    assert_eq!(textures.get("Other"), Some(&output(9)));
    assert_eq!(textures.get("A"), Some(&output(4)));
    assert_eq!(textures.len(), 3);
}

#[test]
fn lookup_textures_are_numbered_by_their_place() {
    let mut uniforms: FxHashMap<String, UniformSemantic> = FxHashMap::default();
    let mut textures: FxHashMap<String, Semantic<TextureSemantics>> = FxHashMap::default();
    insert_lut_semantics(&[lut("Noise"), lut("Mask")], &mut uniforms, &mut textures);
    let user = |index| Semantic { semantics: TextureSemantics::User, index };
    assert_eq!(textures.len(), 2);
    assert_eq!(textures.get("Noise"), Some(&user(0)));
    assert_eq!(textures.get("Mask"), Some(&user(1)));
    assert_eq!(uniforms.len(), 2);
    assert_eq!(texture_of(uniforms.get("NoiseSize")), Some(user(0)));
    assert_eq!(texture_of(uniforms.get("MaskSize")), Some(user(1)));
}

#[test]
fn later_lookup_texture_of_the_same_name_stands() {
    let mut uniforms: FxHashMap<String, UniformSemantic> = FxHashMap::default();
    let mut textures: FxHashMap<String, Semantic<TextureSemantics>> = FxHashMap::default();
    insert_lut_semantics(&[lut("Noise"), lut("Noise")], &mut uniforms, &mut textures);
    assert_eq!(textures.len(), 1);
    assert_eq!(
        textures.get("Noise"),
        Some(&Semantic { semantics: TextureSemantics::User, index: 1 })
    );
}

#[test]
fn alias_resolution() {
    let passes = vec![
        artifact(pass_with_alias(0, Some("BLUR")), source_with_parameters(&[])),
        artifact(pass_with_alias(1, None), source_with_parameters(&[])),
    ];
    let (passes, semantics) = compile_preset_passes(passes, &[]);
    assert_eq!(passes.len(), 2);
    assert_eq!(passes[0].0.id, 0);
    assert_eq!(passes[1].0.id, 1);
    assert_eq!(semantics.texture_semantics.get("BLUR"), Some(&output(0)));
    assert_eq!(texture_of(semantics.uniform_semantics.get("BLURSize")), Some(output(0)));
    assert_eq!(semantics.texture_semantics.get_texture_semantic("BLUR"), Some(output(0)));
    assert_eq!(semantics.uniform_semantics.get_texture_semantic("BLURSize"), Some(output(0)));
    assert_eq!(semantics.texture_semantics.get("BLURFeedback"), Some(&feedback(0)));
    assert_eq!(
        texture_of(semantics.uniform_semantics.get("BLURFeedbackSize")),
        Some(feedback(0))
    );
    assert_eq!(semantics.texture_semantics.len(), 2);
    assert_eq!(semantics.uniform_semantics.len(), 2);
}

#[test]
fn chain_semantics_hold_parameters_passes_and_lookup_textures() {
    let passes = vec![
        artifact(pass_with_alias(0, Some("First")), source_with_parameters(&["gamma", "bloom"])),
        artifact(pass_with_alias(1, Some("Second")), source_with_parameters(&["gamma"])),
    ];
    let (_, semantics) = compile_preset_passes(passes, &[lut("Noise")]);

    let parameter = |name: &str| match semantics.uniform_semantics.get(name) {
        Some(UniformSemantic::Unique(unit)) => Some(unit.semantics),
        _ => None,
    };
    assert_eq!(parameter("gamma"), Some(UniqueSemantics::FloatParameter));
    assert_eq!(parameter("bloom"), Some(UniqueSemantics::FloatParameter));
    assert_eq!(
        semantics.uniform_semantics.get_unique_semantic("gamma"),
        Some(Semantic { semantics: UniqueSemantics::FloatParameter, index: () })
    );
    assert_eq!(semantics.uniform_semantics.len(), 2 + 4 + 1);
    assert_eq!(semantics.texture_semantics.len(), 4 + 1);
    assert_eq!(semantics.texture_semantics.get("Second"), Some(&output(1)));
    assert_eq!(
        semantics.texture_semantics.get("Noise"),
        Some(&Semantic { semantics: TextureSemantics::User, index: 0 })
    );
}

#[test]
fn later_entry_shadows_an_alias() {
    let passes = vec![
        artifact(pass_with_alias(0, Some("A")), source_with_parameters(&["ASize"])),
        artifact(pass_with_alias(1, Some("AFeedback")), source_with_parameters(&[])),
    ];
    let (_, semantics) = compile_preset_passes(passes, &[lut("A")]);
    assert_eq!(
        semantics.texture_semantics.get("A"),
        Some(&Semantic { semantics: TextureSemantics::User, index: 0 })
    );
    assert_eq!(semantics.texture_semantics.get("AFeedback"), Some(&output(1)));
    assert_eq!(
        texture_of(semantics.uniform_semantics.get("ASize")),
        Some(Semantic { semantics: TextureSemantics::User, index: 0 })
    );
    assert_eq!(texture_of(semantics.uniform_semantics.get("AFeedbackSize")), Some(output(1)));
}

#[test]
fn explicit_alias_wins_over_builtin_name() {
    let passes = vec![
        artifact(pass_with_alias(0, Some("Source")), source_with_parameters(&[])),
        artifact(pass_with_alias(1, None), source_with_parameters(&[])),
    ];
    let (_, semantics) = compile_preset_passes(passes, &[]);
    assert_eq!(semantics.texture_semantics.get_texture_semantic("Source"), Some(output(0)));
    assert_eq!(semantics.uniform_semantics.get_texture_semantic("SourceSize"), Some(output(0)));
    assert_eq!(
        semantics.texture_semantics.get_texture_semantic("Original"),
        Some(Semantic { semantics: TextureSemantics::Original, index: 0 })
    );
}

#[test]
fn pass_index_is_the_id_of_the_pass() {
    let passes = vec![artifact(pass_with_alias(7, Some("Late")), source_with_parameters(&[]))];
    let (_, semantics) = compile_preset_passes(passes, &[]);
    assert_eq!(semantics.texture_semantics.get("Late"), Some(&output(7)));
}

#[test]
fn alias_that_names_a_builtin_texture_is_told() {
    let source = |index| Semantic { semantics: TextureSemantics::Source, index };
    assert_eq!(shadowed_builtin(&pass_with_alias(0, Some("Source"))), Some(source(0)));
    assert_eq!(
        shadowed_builtin(&pass_with_alias(0, Some("PassOutput3"))),
        Some(Semantic { semantics: TextureSemantics::PassOutput, index: 3 })
    );
    assert_eq!(shadowed_builtin(&pass_with_alias(0, Some("BLUR"))), None);
    assert_eq!(shadowed_builtin(&pass_with_alias(0, Some("SourceSize"))), None);
    assert_eq!(shadowed_builtin(&pass_with_alias(0, Some(" "))), None);
    assert_eq!(shadowed_builtin(&pass_with_alias(0, None)), None);
}

#[test]
fn declared_parameters_become_float_parameters() {
    let mut uniforms: FxHashMap<String, UniformSemantic> = FxHashMap::default();
    uniforms.insert("kept".to_string(), UniformSemantic::Texture(output(1)));
    uniforms.insert("gamma".to_string(), UniformSemantic::Texture(output(2)));
    insert_parameter_semantics(&mut uniforms, &source_with_parameters(&["gamma", "bloom", "gamma"]));
    assert_eq!(uniforms.len(), 3);
    assert_eq!(texture_of(uniforms.get("kept")), Some(output(1)));
    for name in ["gamma", "bloom"] {
        assert_eq!(
            uniforms.get_unique_semantic(name),
            Some(Semantic { semantics: UniqueSemantics::FloatParameter, index: () })
        );
    }
}
