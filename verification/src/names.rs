//! The builtin names of textures and of their size uniforms, and the rule by
//! which an identifier of a shader is held against them.

use crate::semantics::{Semantic, TextureSemantics};
use crate::text::{chars_of, parse_index, parse_index_from, starts_with};
use vstd::prelude::*;

verus! {

/// Which of the two names of a texture an identifier is held against.
#[derive(Debug, Copy, Clone, PartialEq, Eq, Structural)]
pub enum NameKind {
    /// The name of the sampler, such as `PassOutput`.
    Sampler,
    /// The name of the size uniform, such as `PassOutputSize`.
    SizeUniform,
}

/// The builtin name of `semantics` of the given kind.
pub open spec fn builtin_name(semantics: TextureSemantics, kind: NameKind) -> Seq<char> {
    match kind {
        NameKind::Sampler => semantics.spec_texture_name(),
        NameKind::SizeUniform => semantics.spec_size_uniform_name(),
    }
}

/// The first semantics, from position `from` of the probe order on, whose
/// builtin name begins `name`.
pub open spec fn first_claim(name: Seq<char>, kind: NameKind, from: int) -> Option<
    TextureSemantics,
>
    decreases TextureSemantics::probe_order().len() - from,
{
    let order = TextureSemantics::probe_order();
    if from < 0 || from >= order.len() {
        None
    } else if builtin_name(order[from], kind).is_prefix_of(name) {
        Some(order[from])
    } else {
        first_claim(name, kind, from + 1)
    }
}

/// The semantic that an identifier has by the builtin names alone.
///
/// The first semantics in probe order whose name begins the identifier
/// decides. For an indexed semantics the rest of the identifier must be an
/// index; for a unique one there must be no rest, and the index is zero.
pub open spec fn builtin_semantic(name: Seq<char>, kind: NameKind) -> Option<
    Semantic<TextureSemantics>,
> {
    match first_claim(name, kind, 0) {
        None => None,
        Some(semantics) => {
            let prefix = builtin_name(semantics, kind);
            if semantics.spec_is_indexed() {
                match parse_index(name.skip(prefix.len() as int)) {
                    Some(index) => Some(Semantic { semantics, index }),
                    None => None,
                }
            } else if name == prefix {
                Some(Semantic { semantics, index: 0 })
            } else {
                None
            }
        },
    }
}

/// The builtin name of `semantics` of the given kind.
pub fn name_of(semantics: TextureSemantics, kind: NameKind) -> (name: &'static str)
    ensures
        name@ == builtin_name(semantics, kind),
{
    match kind {
        NameKind::Sampler => semantics.texture_name(),
        NameKind::SizeUniform => semantics.size_uniform_name(),
    }
}

/// Resolves an identifier by the builtin names alone.
pub fn resolve_builtin(name: &str, kind: NameKind) -> (found: Option<Semantic<TextureSemantics>>)
    ensures
        found == builtin_semantic(name@, kind),
{
    let text = chars_of(name);
    let order = TextureSemantics::TEXTURE_SEMANTICS;
    let mut i: usize = 0;
    while i < 6
        invariant
            i <= 6,
            text@ == name@,
            order@ == TextureSemantics::probe_order(),
            first_claim(name@, kind, 0) == first_claim(name@, kind, i as int),
        decreases 6 - i,
    {
        let semantics = order[i];
        let prefix = chars_of(name_of(semantics, kind));
        if starts_with(&text, &prefix) {
            if semantics.is_indexed() {
                return match parse_index_from(&text, prefix.len()) {
                    Some(index) => Some(Semantic { semantics, index }),
                    None => None,
                };
            } else if text.len() == prefix.len() {
                assert(name@ =~= prefix@);
                return Some(Semantic { semantics, index: 0 });
            } else {
                return None;
            }
        }
        i += 1;
    }
    None
}

/// Whether `name` is the builtin name of `semantics` followed by the index
/// `index`: for a unique semantics the bare name, with index zero.
pub open spec fn names_texture(
    name: Seq<char>,
    kind: NameKind,
    semantics: TextureSemantics,
    index: usize,
) -> bool {
    let prefix = builtin_name(semantics, kind);
    if semantics.spec_is_indexed() {
        prefix.is_prefix_of(name) && parse_index(name.skip(prefix.len() as int)) == Some(index)
    } else {
        name == prefix && index == 0
    }
}

/// A name that begins an identifier agrees with it at each of its positions.
proof fn lemma_prefix_at(prefix: Seq<char>, name: Seq<char>, i: int)
    requires
        prefix.is_prefix_of(name),
        0 <= i < prefix.len(),
    ensures
        i < name.len(),
        name[i] == prefix[i],
{
}

/// The lengths of the builtin names, and the characters that tell them apart.
proof fn lemma_builtin_name_marks(kind: NameKind)
    ensures
        builtin_name(TextureSemantics::Source, kind).len() >= 6,
        builtin_name(TextureSemantics::Original, kind).len() >= 8,
        builtin_name(TextureSemantics::OriginalHistory, kind).len() >= 15,
        builtin_name(TextureSemantics::PassOutput, kind).len() >= 10,
        builtin_name(TextureSemantics::PassFeedback, kind).len() >= 12,
        builtin_name(TextureSemantics::User, kind).len() >= 4,
        builtin_name(TextureSemantics::Source, kind)[0] == 'S',
        builtin_name(TextureSemantics::Original, kind)[0] == 'O',
        builtin_name(TextureSemantics::OriginalHistory, kind)[0] == 'O',
        builtin_name(TextureSemantics::PassOutput, kind)[0] == 'P',
        builtin_name(TextureSemantics::PassFeedback, kind)[0] == 'P',
        builtin_name(TextureSemantics::User, kind)[0] == 'U',
        builtin_name(TextureSemantics::PassOutput, kind)[4] == 'O',
        builtin_name(TextureSemantics::PassFeedback, kind)[4] == 'F',
        builtin_name(TextureSemantics::OriginalHistory, kind)[8] == 'H',
        kind == NameKind::Sampler ==> builtin_name(TextureSemantics::Original, kind).len() == 8,
        kind == NameKind::SizeUniform ==> builtin_name(TextureSemantics::Original, kind)[8] == 'S',
{
    reveal_strlit("Original");
    reveal_strlit("Source");
    reveal_strlit("OriginalHistory");
    reveal_strlit("PassOutput");
    reveal_strlit("PassFeedback");
    reveal_strlit("User");
    reveal_strlit("OriginalSize");
    reveal_strlit("SourceSize");
    reveal_strlit("OriginalHistorySize");
    reveal_strlit("PassOutputSize");
    reveal_strlit("PassFeedbackSize");
    reveal_strlit("UserSize");
}

/// Among the builtin names, the one that decides an identifier is the one
/// that begins it; where both `Original` and `OriginalHistory` begin it, the
/// longer one decides.
proof fn lemma_first_claim(name: Seq<char>, kind: NameKind, semantics: TextureSemantics)
    ensures
        first_claim(name, kind, 0) == Some(semantics) <==> builtin_name(
            semantics,
            kind,
        ).is_prefix_of(name) && !(semantics == TextureSemantics::Original && builtin_name(
            TextureSemantics::OriginalHistory,
            kind,
        ).is_prefix_of(name)),
{
    reveal_with_fuel(first_claim, 7);
    lemma_builtin_name_marks(kind);
    let order = TextureSemantics::probe_order();
    assert forall|s: TextureSemantics| #[trigger]
        builtin_name(s, kind).is_prefix_of(name) implies name.len() > 0 && name[0] == builtin_name(
        s,
        kind,
    )[0] && (builtin_name(s, kind).len() > 4 ==> name[4] == builtin_name(s, kind)[4]) && (
    builtin_name(s, kind).len() > 8 ==> name[8] == builtin_name(s, kind)[8]) by {
        lemma_prefix_at(builtin_name(s, kind), name, 0);
        if builtin_name(s, kind).len() > 4 {
            lemma_prefix_at(builtin_name(s, kind), name, 4);
        }
        if builtin_name(s, kind).len() > 8 {
            lemma_prefix_at(builtin_name(s, kind), name, 8);
        }
    }
}

/// Which identifiers the builtin names resolve, and to what.
///
/// An identifier resolves to a unique semantics exactly when it is that
/// semantics' name, and to an indexed semantics with index `index` exactly
/// when it is that semantics' name followed by a way of writing `index`.
/// Nothing else resolves.
pub proof fn lemma_builtin_resolution(
    name: Seq<char>,
    kind: NameKind,
    semantics: TextureSemantics,
    index: usize,
)
    ensures
        builtin_semantic(name, kind) == Some(Semantic { semantics, index }) <==> names_texture(
            name,
            kind,
            semantics,
            index,
        ),
{
    lemma_builtin_name_marks(kind);
    lemma_first_claim(name, kind, semantics);
    let prefix = builtin_name(semantics, kind);
    let history = builtin_name(TextureSemantics::OriginalHistory, kind);
    match first_claim(name, kind, 0) {
        Some(first) => {
            lemma_first_claim(name, kind, first);
        },
        None => {},
    }
    if semantics == TextureSemantics::Original && history.is_prefix_of(name) {
        lemma_prefix_at(history, name, 8);
    }
    if name == prefix {
        assert(prefix.is_prefix_of(name));
    }
}

} // verus!
