use librashader::names::{name_of, resolve_builtin, NameKind};
use librashader::semantics::{
    resolve_builtin_unique, Semantic, TextureSemanticMap, TextureSemantics, UniformSemantic,
    UniqueSemanticMap, UniqueSemantics,
};
use librashader::text::{blank, chars_of, parse_index_from, spells, starts_with};
use rustc_hash::FxHashMap;
use std::str::FromStr;

fn all_semantics() -> [TextureSemantics; 6] {
    [
        TextureSemantics::Original,
        TextureSemantics::Source,
        TextureSemantics::OriginalHistory,
        TextureSemantics::PassOutput,
        TextureSemantics::PassFeedback,
        TextureSemantics::User,
    ]
}

fn index_of(text: &str) -> Option<usize> {
    parse_index_from(&text.chars().collect(), 0)
}

#[test]
fn texture_names_are_the_builtin_ones() {
    let names: Vec<&str> = all_semantics().iter().map(|s| s.texture_name()).collect();
    assert_eq!(
        names,
        ["Original", "Source", "OriginalHistory", "PassOutput", "PassFeedback", "User"]
    );
    let sizes: Vec<&str> = all_semantics().iter().map(|s| s.size_uniform_name()).collect();
    assert_eq!(
        sizes,
        [
            "OriginalSize",
            "SourceSize",
            "OriginalHistorySize",
            "PassOutputSize",
            "PassFeedbackSize",
            "UserSize"
        ]
    );
    for semantics in all_semantics() {
        assert_eq!(name_of(semantics, NameKind::Sampler), semantics.texture_name());
        assert_eq!(name_of(semantics, NameKind::SizeUniform), semantics.size_uniform_name());
    }
}

#[test]
fn only_original_and_source_are_unique() {
    let indexed: Vec<bool> = all_semantics().iter().map(|s| s.is_indexed()).collect();
    assert_eq!(indexed, [false, false, true, true, true, true]);
}

#[test]
fn probe_order_puts_history_before_original() {
    assert_eq!(
        TextureSemantics::TEXTURE_SEMANTICS,
        [
            TextureSemantics::Source,
            TextureSemantics::OriginalHistory,
            TextureSemantics::Original,
            TextureSemantics::PassOutput,
            TextureSemantics::PassFeedback,
            TextureSemantics::User,
        ]
    );
}

#[test]
fn semantics_units_carry_their_index() {
    assert_eq!(
        TextureSemantics::User.semantics(4),
        Semantic { semantics: TextureSemantics::User, index: 4 }
    );
    assert_eq!(
        UniqueSemantics::FrameCount.semantics(),
        Semantic { semantics: UniqueSemantics::FrameCount, index: () }
    );
}

#[test]
fn unique_names_resolve_only_when_exact() {
    for kind in [NameKind::Sampler, NameKind::SizeUniform] {
        for semantics in [TextureSemantics::Original, TextureSemantics::Source] {
            let name = name_of(semantics, kind);
            assert_eq!(resolve_builtin(name, kind), Some(Semantic { semantics, index: 0 }));
            for rest in ["0", "1", " ", "x", "+0"] {
                assert_eq!(resolve_builtin(&format!("{name}{rest}"), kind), None);
            }
            assert_eq!(resolve_builtin(&name[..name.len() - 1], kind), None);
            assert_eq!(resolve_builtin(&format!(" {name}"), kind), None);
        }
    }
}

#[test]
fn indexed_names_resolve_with_every_index() {
    let indexed = [
        TextureSemantics::OriginalHistory,
        TextureSemantics::PassOutput,
        TextureSemantics::PassFeedback,
        TextureSemantics::User,
    ];
    for kind in [NameKind::Sampler, NameKind::SizeUniform] {
        for semantics in indexed {
            let name = name_of(semantics, kind);
            for index in [0usize, 1, 2, 9, 10, 99, 12345, usize::MAX] {
                assert_eq!(
                    resolve_builtin(&format!("{name}{index}"), kind),
                    Some(Semantic { semantics, index })
                );
            }
            assert_eq!(resolve_builtin(name, kind), None);
            for rest in ["x", "-1", "1x", " 1", "1 ", "1.0", "0x1", "_1", "+", "١"] {
                assert_eq!(resolve_builtin(&format!("{name}{rest}"), kind), None, "{name}{rest}");
            }
        }
    }
}

#[test]
fn index_may_bear_a_plus_sign_and_leading_zeros() {
    assert_eq!(
        resolve_builtin("PassOutput+3", NameKind::Sampler),
        Some(Semantic { semantics: TextureSemantics::PassOutput, index: 3 })
    );
    assert_eq!(
        resolve_builtin("User007", NameKind::Sampler),
        Some(Semantic { semantics: TextureSemantics::User, index: 7 })
    );
    assert_eq!(resolve_builtin("User++3", NameKind::Sampler), None);
}

#[test]
fn index_beyond_the_machine_word_does_not_resolve() {
    let beyond = format!("PassFeedback{}0", usize::MAX);
    assert_eq!(resolve_builtin(&beyond, NameKind::Sampler), None);
    let next = format!("PassFeedback{}", usize::MAX as u128 + 1);
    assert_eq!(resolve_builtin(&next, NameKind::Sampler), None);
}

#[test]
fn size_names_are_not_sampler_names() {
    assert_eq!(resolve_builtin("SourceSize", NameKind::Sampler), None);
    assert_eq!(resolve_builtin("Source", NameKind::SizeUniform), None);
    assert_eq!(resolve_builtin("OriginalHistorySize", NameKind::Sampler), None);
    assert_eq!(
        resolve_builtin("OriginalHistorySize4", NameKind::SizeUniform),
        Some(Semantic { semantics: TextureSemantics::OriginalHistory, index: 4 })
    );
    assert_eq!(
        resolve_builtin("OriginalSize", NameKind::SizeUniform),
        Some(Semantic { semantics: TextureSemantics::Original, index: 0 })
    );
    assert_eq!(resolve_builtin("", NameKind::Sampler), None);
    assert_eq!(resolve_builtin("Unknown", NameKind::Sampler), None);
}

#[test]
fn index_parsing_agrees_with_the_standard_parser() {
    let max = usize::MAX.to_string();
    let over = (usize::MAX as u128 + 1).to_string();
    let long_zero = "0".repeat(40);
    let cases = [
        "", "0", "1", "42", "+", "+0", "+42", "-0", "-1", "++1", "+-1", "007", " 1", "1 ", "1_0",
        "1e3", "0x10", "١", "１", "9", "10", "4294967295", "4294967296", &max, &over,
        &long_zero, "99999999999999999999999999",
    ];
    for text in cases {
        assert_eq!(index_of(text), usize::from_str(text).ok(), "{text:?}");
    }
}

#[test]
fn index_is_read_from_the_given_position() {
    let text: Vec<char> = "abc12".chars().collect();
    assert_eq!(parse_index_from(&text, 3), Some(12));
    assert_eq!(parse_index_from(&text, 4), Some(2));
    assert_eq!(parse_index_from(&text, 5), None);
    assert_eq!(parse_index_from(&text, 2), None);
}

#[test]
fn text_helpers_compare_by_characters() {
    assert_eq!(chars_of("aé☃"), vec!['a', 'é', '☃']);
    assert!(chars_of("").is_empty());
    assert!(spells(&vec!['M', 'V', 'P'], "MVP"));
    assert!(!spells(&vec!['M', 'V', 'P'], "MVp"));
    assert!(!spells(&vec!['M', 'V', 'P'], "MVP "));
    assert!(!spells(&vec!['M', 'V', 'P'], "MV"));
    assert!(spells(&Vec::new(), ""));
    let text: Vec<char> = "Original".chars().collect();
    assert!(starts_with(&text, &"Orig".chars().collect()));
    assert!(starts_with(&text, &text));
    assert!(starts_with(&text, &Vec::new()));
    assert!(!starts_with(&text, &"Originals".chars().collect()));
    assert!(!starts_with(&text, &"original".chars().collect()));
}

#[test]
fn blank_text_is_white_space_only() {
    for text in ["", " ", "\t\r\n", "\u{2003}", "\u{85}"] {
        assert!(blank(text), "{text:?}");
        assert_eq!(blank(text), text.trim().is_empty());
    }
    for text in ["a", " a ", "\u{200b}", "_", "0"] {
        assert!(!blank(text), "{text:?}");
        assert_eq!(blank(text), text.trim().is_empty());
    }
}

#[test]
fn builtin_uniform_names_resolve() {
    assert_eq!(resolve_builtin_unique("MVP"), Some(UniqueSemantics::MVP));
    assert_eq!(resolve_builtin_unique("OutputSize"), Some(UniqueSemantics::Output));
    assert_eq!(resolve_builtin_unique("FinalViewportSize"), Some(UniqueSemantics::FinalViewport));
    assert_eq!(resolve_builtin_unique("FrameCount"), Some(UniqueSemantics::FrameCount));
    assert_eq!(resolve_builtin_unique("FrameDirection"), Some(UniqueSemantics::FrameDirection));
    for name in ["", "mvp", "MVP0", "Output", "FloatParameter", "FrameCount "] {
        assert_eq!(resolve_builtin_unique(name), None, "{name:?}");
    }
}

#[test]
fn uniform_table_answers_by_its_entries_first() {
    let mut table: FxHashMap<String, UniformSemantic> = FxHashMap::default();
    let user = Semantic { semantics: TextureSemantics::User, index: 1 };
    table.insert("SourceSize".to_string(), UniformSemantic::Texture(user));
    table.insert(
        "PassOutputSize2".to_string(),
        UniformSemantic::Unique(Semantic { semantics: UniqueSemantics::FloatParameter, index: () }),
    );
    assert_eq!(table.get_texture_semantic("SourceSize"), Some(user));
    assert_eq!(table.get_unique_semantic("SourceSize"), None);
    assert_eq!(table.get_texture_semantic("PassOutputSize2"), None);
    assert_eq!(
        table.get_unique_semantic("PassOutputSize2"),
        Some(Semantic { semantics: UniqueSemantics::FloatParameter, index: () })
    );
    assert_eq!(
        table.get_texture_semantic("PassOutputSize3"),
        Some(Semantic { semantics: TextureSemantics::PassOutput, index: 3 })
    );
    assert_eq!(table.get_texture_semantic("PassOutput3"), None);
    assert_eq!(
        table.get_unique_semantic("OutputSize"),
        Some(Semantic { semantics: UniqueSemantics::Output, index: () })
    );
    assert_eq!(table.get_unique_semantic("Nothing"), None);
    assert_eq!(table.get_texture_semantic("Nothing"), None);
}

#[test]
fn sampler_table_answers_by_its_entries_first() {
    let mut table: FxHashMap<String, Semantic<TextureSemantics>> = FxHashMap::default();
    let user = Semantic { semantics: TextureSemantics::User, index: 5 };
    table.insert("PassFeedback1".to_string(), user);
    assert_eq!(table.get_texture_semantic("PassFeedback1"), Some(user));
    assert_eq!(
        table.get_texture_semantic("PassFeedback2"),
        Some(Semantic { semantics: TextureSemantics::PassFeedback, index: 2 })
    );
    assert_eq!(table.get_texture_semantic("PassFeedbackSize2"), None);
    assert_eq!(
        table.get_texture_semantic("Source"),
        Some(Semantic { semantics: TextureSemantics::Source, index: 0 })
    );
}
