//! The framebuffers of a filter chain: which one each sampler of a pass
//! reads, and how they change hands between frames.

use crate::semantics::{Semantic, TextureSemantics};
use vstd::prelude::*;

verus! {

/// The framebuffers that a chain owns, each known by a handle of type `F`.
///
/// Passes refer to them by index, never by a pointer back into the chain.
#[derive(Debug)]
pub struct FramebufferRings<F> {
    /// For each pass the framebuffer that it writes in the current frame.
    pub outputs: Vec<F>,
    /// For each pass the framebuffer that holds what it wrote in the
    /// previous frame.
    pub feedback: Vec<F>,
    /// The framebuffers that hold the inputs of earlier frames, the most
    /// recent one first.
    pub history: Vec<F>,
}

/// The size of the history ring for a chain whose passes refer to the given
/// textures: one more than the highest index of an `OriginalHistory` among
/// them, and none where no pass refers to the history.
pub open spec fn history_demand(referenced: Seq<Semantic<TextureSemantics>>) -> nat
    decreases referenced.len(),
{
    if referenced.len() == 0 {
        0
    } else {
        let before = history_demand(referenced.drop_last());
        let last = referenced.last();
        if last.semantics == TextureSemantics::OriginalHistory && last.index + 1 > before {
            (last.index + 1) as nat
        } else {
            before
        }
    }
}

/// What `history_demand` says in terms of the single references: the demand
/// covers every history index that is referred to, and is no larger than the
/// largest of them asks for.
pub proof fn lemma_history_demand_is_tight(referenced: Seq<Semantic<TextureSemantics>>)
    ensures
        forall|i: int|
            0 <= i < referenced.len() && (#[trigger] referenced[i]).semantics
                == TextureSemantics::OriginalHistory ==> referenced[i].index < history_demand(
                referenced,
            ),
        history_demand(referenced) == 0 || exists|i: int|
            0 <= i < referenced.len() && (#[trigger] referenced[i]).semantics
                == TextureSemantics::OriginalHistory && referenced[i].index + 1 == history_demand(
                referenced,
            ),
    decreases referenced.len(),
{
    if referenced.len() > 0 {
        let init = referenced.drop_last();
        lemma_history_demand_is_tight(init);
        assert forall|i: int|
            0 <= i < referenced.len() && (#[trigger] referenced[i]).semantics
                == TextureSemantics::OriginalHistory implies referenced[i].index < history_demand(
            referenced,
        ) by {
            if i < init.len() {
                assert(init[i] == referenced[i]);
            }
        }
        if history_demand(referenced) != 0 {
            if history_demand(referenced) == history_demand(init) {
                let i = choose|i: int|
                    0 <= i < init.len() && (#[trigger] init[i]).semantics
                        == TextureSemantics::OriginalHistory && init[i].index + 1 == history_demand(
                        init,
                    );
                assert(referenced[i] == init[i]);
            } else {
                assert(referenced[referenced.len() - 1] == referenced.last());
            }
        }
    }
}

/// The size of the history ring for a chain whose passes refer to the given
/// textures, unless it exceeds what the machine can count.
pub fn history_ring_size(referenced: &[Semantic<TextureSemantics>]) -> (size: Option<usize>)
    ensures
        history_demand(referenced@) <= usize::MAX ==> size == Some(
            history_demand(referenced@) as usize,
        ),
        history_demand(referenced@) > usize::MAX ==> size is None,
{
    let mut size: usize = 0;
    let mut i: usize = 0;
    while i < referenced.len()
        invariant
            i <= referenced@.len(),
            size == history_demand(referenced@.take(i as int)),
        decreases referenced@.len() - i,
    {
        let unit = referenced[i];
        assert(referenced@.take(i + 1).drop_last() =~= referenced@.take(i as int));
        if unit.semantics == TextureSemantics::OriginalHistory && unit.index >= size {
            if unit.index == usize::MAX {
                proof {
                    lemma_history_demand_grows(referenced@, i + 1);
                }
                return None;
            }
            size = unit.index + 1;
        }
        i += 1;
    }
    assert(referenced@.take(i as int) =~= referenced@);
    Some(size)
}

/// More references never ask for a smaller ring.
proof fn lemma_history_demand_grows(referenced: Seq<Semantic<TextureSemantics>>, n: int)
    requires
        0 <= n <= referenced.len(),
    ensures
        history_demand(referenced.take(n)) <= history_demand(referenced),
    decreases referenced.len() - n,
{
    if n == referenced.len() {
        assert(referenced.take(n) =~= referenced);
    } else {
        lemma_history_demand_grows(referenced, n + 1);
        assert(referenced.take(n + 1).drop_last() =~= referenced.take(n));
    }
}

/// The history ring after a frame: the oldest framebuffer has moved to the
/// head, and every other one is a frame older.
pub open spec fn rotated<F>(history: Seq<F>) -> Seq<F> {
    if history.len() == 0 {
        history
    } else {
        seq![history.last()] + history.drop_last()
    }
}

/// Turning the history ring neither loses a framebuffer nor makes one up:
/// the ring keeps its size and holds the framebuffers it held, each as
/// often as before.
pub proof fn lemma_rotation_keeps_framebuffers<F>(history: Seq<F>)
    ensures
        rotated(history).len() == history.len(),
        rotated(history).to_multiset() == history.to_multiset(),
        forall|k: int| 0 <= k < history.len() - 1 ==> rotated(history)[k + 1] == history[k],
{
    if history.len() > 0 {
        let head = seq![history.last()];
        let rest = history.drop_last();
        assert(rest + head =~= history);
        vstd::seq_lib::lemma_multiset_commutative(head, rest);
        vstd::seq_lib::lemma_multiset_commutative(rest, head);
        assert(head.to_multiset().add(rest.to_multiset()) =~= rest.to_multiset().add(
            head.to_multiset(),
        ));
    }
}

impl<F: Copy> FramebufferRings<F> {
    /// Every pass has one framebuffer to write and one that keeps its
    /// previous output.
    pub open spec fn well_formed(&self) -> bool {
        self.outputs@.len() == self.feedback@.len()
    }

    /// The number of passes.
    pub open spec fn passes(&self) -> nat {
        self.outputs@.len()
    }

    /// The framebuffer that the sampler with the given semantic reads while
    /// pass `pass` is drawn, where `original` is the input of the frame and
    /// `luts` are the lookup textures.
    ///
    /// `Source` is the output of the pass before, and the input for the
    /// first pass. `Original` is the input. `OriginalHistory` counts frames
    /// back from the input, which is entry zero. `PassOutput` reaches the
    /// passes before this one, `PassFeedback` any pass, itself included.
    /// A semantic that refers to what the chain lacks binds nothing.
    pub open spec fn spec_bind(
        &self,
        pass: usize,
        semantic: Semantic<TextureSemantics>,
        original: F,
        luts: Seq<F>,
    ) -> Option<F> {
        let index = semantic.index as int;
        if pass >= self.passes() {
            None
        } else {
            match semantic.semantics {
                TextureSemantics::Source => if pass == 0 {
                    Some(original)
                } else {
                    Some(self.outputs@[pass - 1])
                },
                TextureSemantics::Original => Some(original),
                TextureSemantics::OriginalHistory => if index == 0 {
                    Some(original)
                } else if index - 1 < self.history@.len() {
                    Some(self.history@[index - 1])
                } else {
                    None
                },
                TextureSemantics::PassOutput => if index < pass {
                    Some(self.outputs@[index])
                } else {
                    None
                },
                TextureSemantics::PassFeedback => if index < self.feedback@.len() {
                    Some(self.feedback@[index])
                } else {
                    None
                },
                TextureSemantics::User => if index < luts.len() {
                    Some(luts[index])
                } else {
                    None
                },
            }
        }
    }

    /// The rings of a chain, given for each pass its two framebuffers and
    /// the framebuffers of the history; `None` where the two lists of pass
    /// framebuffers differ in length.
    pub fn new(outputs: Vec<F>, feedback: Vec<F>, history: Vec<F>) -> (rings: Option<Self>)
        ensures
            rings is Some <==> outputs@.len() == feedback@.len(),
            rings is Some ==> rings->0.outputs == outputs && rings->0.feedback == feedback
                && rings->0.history == history && rings->0.well_formed(),
    {
        if outputs.len() == feedback.len() {
            Some(FramebufferRings { outputs, feedback, history })
        } else {
            None
        }
    }

    /// Resolves the framebuffer that a sampler of pass `pass` reads.
    pub fn bind(
        &self,
        pass: usize,
        semantic: Semantic<TextureSemantics>,
        original: F,
        luts: &[F],
    ) -> (bound: Option<F>)
        ensures
            bound == self.spec_bind(pass, semantic, original, luts@),
    {
        let index = semantic.index;
        if pass >= self.outputs.len() {
            return None;
        }
        match semantic.semantics {
            TextureSemantics::Source => if pass == 0 {
                Some(original)
            } else {
                Some(self.outputs[pass - 1])
            },
            TextureSemantics::Original => Some(original),
            TextureSemantics::OriginalHistory => if index == 0 {
                Some(original)
            } else if index - 1 < self.history.len() {
                Some(self.history[index - 1])
            } else {
                None
            },
            TextureSemantics::PassOutput => if index < pass {
                Some(self.outputs[index])
            } else {
                None
            },
            TextureSemantics::PassFeedback => if index < self.feedback.len() {
                Some(self.feedback[index])
            } else {
                None
            },
            TextureSemantics::User => if index < luts.len() {
                Some(luts[index])
            } else {
                None
            },
        }
    }

    /// Closes a frame. What each pass wrote becomes its feedback, and the
    /// framebuffer that held its feedback is the one it writes next. The
    /// oldest framebuffer of the history moves to the head of the ring and is
    /// returned: the caller copies the input of the closed frame into it.
    /// A chain without history returns `None`.
    pub fn end_frame(&mut self) -> (recycled: Option<F>)
        ensures
            final(self).outputs@ == old(self).feedback@,
            final(self).feedback@ == old(self).outputs@,
            final(self).history@ == rotated(old(self).history@),
            final(self).history@.len() == old(self).history@.len(),
            final(self).history@.to_multiset() == old(self).history@.to_multiset(),
            recycled == (if old(self).history@.len() == 0 {
                None
            } else {
                Some(old(self).history@.last())
            }),
    {
        proof {
            lemma_rotation_keeps_framebuffers(self.history@);
        }
        core::mem::swap(&mut self.outputs, &mut self.feedback);
        match self.history.pop() {
            Some(oldest) => {
                self.history.insert(0, oldest);
                assert(self.history@ =~= rotated(old(self).history@));
                Some(oldest)
            },
            None => None,
        }
    }

    /// In every pass but the first, `Source` is the framebuffer that the pass
    /// before it writes, whatever index the semantic carries.
    pub proof fn lemma_source_is_previous_output(
        &self,
        pass: usize,
        index: usize,
        original: F,
        luts: Seq<F>,
    )
        requires
            0 < pass < self.passes(),
        ensures
            self.spec_bind(
                pass,
                Semantic { semantics: TextureSemantics::Source, index },
                original,
                luts,
            ) == Some(self.outputs@[pass - 1]),
    {
    }

    /// No pass reads what it writes in the same frame: whatever a sampler of
    /// a pass is bound to through `Source` or `PassOutput`, it is the input
    /// of the frame or the output of an earlier pass.
    pub proof fn lemma_pass_reads_earlier_output(
        &self,
        pass: usize,
        semantic: Semantic<TextureSemantics>,
        original: F,
        luts: Seq<F>,
    )
        requires
            semantic.semantics == TextureSemantics::Source || semantic.semantics
                == TextureSemantics::PassOutput,
            self.spec_bind(pass, semantic, original, luts) is Some,
        ensures
            self.spec_bind(pass, semantic, original, luts) == Some(original) || exists|
                earlier: int,
            |
                0 <= earlier < pass && self.spec_bind(pass, semantic, original, luts) == Some(
                    #[trigger] self.outputs@[earlier],
                ),
    {
        if semantic.semantics == TextureSemantics::Source {
            if pass > 0 {
                assert(self.spec_bind(pass, semantic, original, luts) == Some(
                    self.outputs@[pass - 1],
                ));
            }
        } else {
            assert(self.spec_bind(pass, semantic, original, luts) == Some(
                self.outputs@[semantic.index as int],
            ));
        }
    }
}

} // verus!
