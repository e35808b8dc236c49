//! The layer stack that drawing calls record into, and the opacity stack.
//!
//! A layer is a batch of primitives sharing a clip rectangle and a
//! transformation. Deferred effects refer to layers by index, so the stack
//! keeps, for each layer, how many batches of each primitive kind it holds:
//! that is what decides which GPU instance ranges a pass addresses.
use vstd::prelude::*;

verus! {

/// One layer: its clip bounds and how many batches of each kind it holds.
/// Text is grouped: consecutive text items form one group when the layer is
/// flushed.
#[derive(Debug, Clone, Copy)]
pub struct Layer<B> {
    pub bounds: B,
    pub quads: usize,
    pub meshes: usize,
    pub text_groups: usize,
    pub text_pending: bool,
    pub images: usize,
    pub primitives: usize,
}

/// A layer with bounds `bounds` and nothing in it.
pub open spec fn empty_layer<B>(bounds: B) -> Layer<B> {
    Layer {
        bounds,
        quads: 0,
        meshes: 0,
        text_groups: 0,
        text_pending: false,
        images: 0,
        primitives: 0,
    }
}

/// Whether a layer holds nothing to draw.
pub open spec fn is_blank<B>(l: Layer<B>) -> bool {
    l.quads == 0 && l.meshes == 0 && l.text_groups == 0 && !l.text_pending && l.images == 0
        && l.primitives == 0
}

/// The layer once its pending text is closed into a group.
pub open spec fn flushed<B>(l: Layer<B>) -> Layer<B> {
    if l.text_pending {
        Layer { text_groups: (l.text_groups + 1) as usize, text_pending: false, ..l }
    } else {
        l
    }
}

/// The layers that hold something, in order.
pub open spec fn non_blank<B>(s: Seq<Layer<B>>) -> Seq<Layer<B>>
    decreases s.len(),
{
    if s.len() == 0 {
        s
    } else if is_blank(s.last()) {
        non_blank(s.drop_last())
    } else {
        non_blank(s.drop_last()).push(s.last())
    }
}

/// The layers after merging: blank layers are dropped, and a stack with
/// nothing to draw keeps its first layer.
pub open spec fn merged<B>(s: Seq<Layer<B>>) -> Seq<Layer<B>> {
    if non_blank(s).len() == 0 && s.len() > 0 {
        seq![s[0]]
    } else {
        non_blank(s)
    }
}

/// Whether a layer's text counter can take the group that flushing closes.
pub open spec fn room_for_group<B>(l: Layer<B>) -> bool {
    l.text_groups + (if l.text_pending {
        1int
    } else {
        0int
    }) < usize::MAX
}

/// The stack of layers of one frame, with the clip nesting and the
/// transformation stack. Layers are kept in drawing order; `current` is the
/// layer that drawing calls go to, and `previous` the layers that the open
/// clips interrupted.
pub struct LayerStack<B, T> {
    layers: Vec<Layer<B>>,
    transformations: Vec<T>,
    previous: Vec<usize>,
    current: usize,
}

impl<B: Copy, T: Copy> LayerStack<B, T> {
    /// The layers, in drawing order.
    pub closed spec fn layers_spec(&self) -> Seq<Layer<B>> {
        self.layers@
    }

    /// The transformations, innermost last.
    pub closed spec fn transformations_spec(&self) -> Seq<T> {
        self.transformations@
    }

    /// The layers that open clips interrupted, innermost last.
    pub closed spec fn previous_spec(&self) -> Seq<usize> {
        self.previous@
    }

    /// The index of the layer being drawn into.
    pub closed spec fn current_spec(&self) -> int {
        self.current as int
    }

    /// There is always a layer and a transformation; every index held
    /// points at a layer.
    pub open spec fn wf(&self) -> bool {
        &&& self.layers_spec().len() >= 1
        &&& self.transformations_spec().len() >= 1
        &&& 0 <= self.current_spec() < self.layers_spec().len()
        &&& forall|i: int|
            0 <= i < self.previous_spec().len() ==> #[trigger] self.previous_spec()[i]
                < self.layers_spec().len()
        &&& forall|i: int|
            0 <= i < self.layers_spec().len() ==> room_for_group(#[trigger] self.layers_spec()[i])
    }

    /// A stack with one empty layer clipped to `bounds`, under `identity`.
    pub fn new(bounds: B, identity: T) -> (r: LayerStack<B, T>)
        ensures
            r.wf(),
            r.layers_spec() == seq![empty_layer(bounds)],
            r.transformations_spec() == seq![identity],
            r.previous_spec().len() == 0,
            r.current_spec() == 0,
    {
        let mut layers = Vec::new();
        layers.push(
            Layer {
                bounds,
                quads: 0,
                meshes: 0,
                text_groups: 0,
                text_pending: false,
                images: 0,
                primitives: 0,
            },
        );
        let mut transformations = Vec::new();
        transformations.push(identity);
        let r = LayerStack { layers, transformations, previous: Vec::new(), current: 0 };
        assert(r.layers_spec() =~= seq![empty_layer(bounds)]);
        assert(r.transformations_spec() =~= seq![identity]);
        r
    }

    proof fn lemma_previous_kept(&self, before: Self)
        requires
            before.wf(),
            self.previous_spec() == before.previous_spec(),
            self.layers_spec().len() == before.layers_spec().len(),
        ensures
            forall|i: int|
                0 <= i < self.previous_spec().len() ==> #[trigger] self.previous_spec()[i]
                    < self.layers_spec().len(),
    {
        assert forall|i: int| 0 <= i < self.previous_spec().len() implies #[trigger] self.previous_spec()[i]
            < self.layers_spec().len() by {
            assert(before.previous_spec()[i] < before.layers_spec().len());
        }
    }

    /// How many layers the frame has.
    pub fn active_count(&self) -> (r: usize)
        ensures
            r == self.layers_spec().len(),
    {
        self.layers.len()
    }

    /// The layers, in drawing order.
    pub fn as_slice(&self) -> (r: &[Layer<B>])
        ensures
            r@ == self.layers_spec(),
    {
        self.layers.as_slice()
    }

    /// How many clips are open.
    pub fn open_clips(&self) -> (r: usize)
        ensures
            r == self.previous_spec().len(),
    {
        self.previous.len()
    }

    /// How many transformations are pushed, the base one included.
    pub fn transformation_depth(&self) -> (r: usize)
        ensures
            r == self.transformations_spec().len(),
    {
        self.transformations.len()
    }

    /// The index of the layer that drawing goes to.
    pub fn current_index(&self) -> (r: usize)
        ensures
            r == self.current_spec(),
    {
        self.current
    }

    /// The transformation in effect.
    pub fn transformation(&self) -> (r: T)
        requires
            self.wf(),
        ensures
            r == self.transformations_spec().last(),
    {
        self.transformations[self.transformations.len() - 1]
    }

    /// Opens a clip: a new layer with `bounds` (already transformed) goes
    /// on top and receives the drawing until the clip is closed.
    pub fn push_clip(&mut self, bounds: B)
        requires
            old(self).wf(),
            old(self).layers_spec().len() < usize::MAX,
        ensures
            final(self).wf(),
            final(self).layers_spec() == old(self).layers_spec().push(empty_layer(bounds)),
            final(self).previous_spec() == old(self).previous_spec().push(
                old(self).current_spec() as usize,
            ),
            final(self).current_spec() == old(self).layers_spec().len(),
            final(self).transformations_spec() == old(self).transformations_spec(),
    {
        self.previous.push(self.current);
        self.current = self.layers.len();
        self.layers.push(
            Layer {
                bounds,
                quads: 0,
                meshes: 0,
                text_groups: 0,
                text_pending: false,
                images: 0,
                primitives: 0,
            },
        );
        proof {
            assert forall|i: int| 0 <= i < self.layers_spec().len() implies room_for_group(
                #[trigger] self.layers_spec()[i],
            ) by {
                if i < old(self).layers_spec().len() {
                    assert(self.layers_spec()[i] == old(self).layers_spec()[i]);
                }
            }
            assert forall|i: int| 0 <= i < self.previous_spec().len() implies #[trigger] self.previous_spec()[i]
                < self.layers_spec().len() by {
                if i < old(self).previous_spec().len() {
                    assert(self.previous_spec()[i] == old(self).previous_spec()[i]);
                }
            }
        }
    }

    /// Closes the innermost clip: its layer is flushed and drawing returns
    /// to the layer it interrupted. A clip must be open.
    pub fn pop_clip(&mut self)
        requires
            old(self).wf(),
            old(self).previous_spec().len() > 0,
        ensures
            final(self).wf(),
            final(self).layers_spec() == old(self).layers_spec().update(
                old(self).current_spec(),
                flushed(old(self).layers_spec()[old(self).current_spec()]),
            ),
            final(self).previous_spec() == old(self).previous_spec().drop_last(),
            final(self).current_spec() == old(self).previous_spec().last(),
            final(self).transformations_spec() == old(self).transformations_spec(),
    {
        self.flush();
        let p = self.previous.pop().unwrap();
        self.current = p;
        proof {
            assert forall|i: int| 0 <= i < self.previous_spec().len() implies #[trigger] self.previous_spec()[i]
                < self.layers_spec().len() by {
                assert(self.previous_spec()[i] == old(self).previous_spec()[i]);
            }
        }
    }

    /// Applies `transformation` (already combined with the one in effect)
    /// until it is popped.
    pub fn push_transformation(&mut self, transformation: T)
        requires
            old(self).wf(),
        ensures
            final(self).wf(),
            final(self).transformations_spec() == old(self).transformations_spec().push(
                transformation,
            ),
            final(self).layers_spec() == old(self).layers_spec(),
            final(self).previous_spec() == old(self).previous_spec(),
            final(self).current_spec() == old(self).current_spec(),
    {
        self.transformations.push(transformation);
        proof {
            self.lemma_previous_kept(*old(self));
        }
    }

    /// Restores the transformation in effect before the last push; the base
    /// transformation stays.
    pub fn pop_transformation(&mut self)
        requires
            old(self).wf(),
            old(self).transformations_spec().len() > 1,
        ensures
            final(self).wf(),
            final(self).transformations_spec() == old(self).transformations_spec().drop_last(),
            final(self).layers_spec() == old(self).layers_spec(),
            final(self).previous_spec() == old(self).previous_spec(),
            final(self).current_spec() == old(self).current_spec(),
    {
        let _ = self.transformations.pop();
        proof {
            self.lemma_previous_kept(*old(self));
        }
    }

    /// Closes the current layer's pending text into a group, so that later
    /// drawing cannot join it. Layer indices stay as they are.
    pub fn flush(&mut self)
        requires
            old(self).wf(),
        ensures
            final(self).wf(),
            final(self).layers_spec() == old(self).layers_spec().update(
                old(self).current_spec(),
                flushed(old(self).layers_spec()[old(self).current_spec()]),
            ),
            final(self).previous_spec() == old(self).previous_spec(),
            final(self).current_spec() == old(self).current_spec(),
            final(self).transformations_spec() == old(self).transformations_spec(),
    {
        let c = self.current;
        let l = self.layers[c];
        if l.text_pending {
            let f = Layer { text_groups: l.text_groups + 1, text_pending: false, ..l };
            self.layers.set(c, f);
        }
        proof {
            assert(self.layers_spec() =~= old(self).layers_spec().update(
                c as int,
                flushed(old(self).layers_spec()[c as int]),
            ));
            assert forall|i: int| 0 <= i < self.layers_spec().len() implies room_for_group(
                #[trigger] self.layers_spec()[i],
            ) by {
                assert(room_for_group(old(self).layers_spec()[i]));
            }
            self.lemma_previous_kept(*old(self));
        }
    }

    /// Adds one batch of the kind numbered `kind` (see [`bumped`]) to the
    /// current layer.
    fn bump_current(&mut self, kind: u8)
        requires
            old(self).wf(),
            kind <= 4,
            kind == 0 ==> old(self).layers_spec()[old(self).current_spec()].quads < usize::MAX,
            kind == 1 ==> old(self).layers_spec()[old(self).current_spec()].meshes < usize::MAX,
            kind == 2 ==> old(self).layers_spec()[old(self).current_spec()].text_groups + 1
                < usize::MAX,
            kind == 3 ==> old(self).layers_spec()[old(self).current_spec()].images < usize::MAX,
            kind == 4 ==> old(self).layers_spec()[old(self).current_spec()].primitives
                < usize::MAX,
        ensures
            final(self).wf(),
            final(self).layers_spec() == old(self).layers_spec().update(
                old(self).current_spec(),
                bumped(old(self).layers_spec()[old(self).current_spec()], kind),
            ),
            final(self).previous_spec() == old(self).previous_spec(),
            final(self).current_spec() == old(self).current_spec(),
            final(self).transformations_spec() == old(self).transformations_spec(),
    {
        let c = self.current;
        let l = self.layers[c];
        let n = if kind == 0 {
            Layer { quads: l.quads + 1, ..l }
        } else if kind == 1 {
            Layer { meshes: l.meshes + 1, ..l }
        } else if kind == 2 {
            Layer { text_pending: true, ..l }
        } else if kind == 3 {
            Layer { images: l.images + 1, ..l }
        } else {
            Layer { primitives: l.primitives + 1, ..l }
        };
        self.layers.set(c, n);
        proof {
            assert forall|i: int| 0 <= i < self.layers_spec().len() implies room_for_group(
                #[trigger] self.layers_spec()[i],
            ) by {
                assert(room_for_group(old(self).layers_spec()[i]));
            }
            self.lemma_previous_kept(*old(self));
        }
    }

    /// Records a quad batch in the current layer.
    pub fn add_quad(&mut self)
        requires
            old(self).wf(),
            old(self).layers_spec()[old(self).current_spec()].quads < usize::MAX,
        ensures
            final(self).wf(),
            final(self).layers_spec() == old(self).layers_spec().update(
                old(self).current_spec(),
                bumped(old(self).layers_spec()[old(self).current_spec()], 0),
            ),
            final(self).previous_spec() == old(self).previous_spec(),
            final(self).current_spec() == old(self).current_spec(),
            final(self).transformations_spec() == old(self).transformations_spec(),
    {
        self.bump_current(0);
    }

    /// Records a mesh batch in the current layer.
    pub fn add_mesh(&mut self)
        requires
            old(self).wf(),
            old(self).layers_spec()[old(self).current_spec()].meshes < usize::MAX,
        ensures
            final(self).wf(),
            final(self).layers_spec() == old(self).layers_spec().update(
                old(self).current_spec(),
                bumped(old(self).layers_spec()[old(self).current_spec()], 1),
            ),
            final(self).previous_spec() == old(self).previous_spec(),
            final(self).current_spec() == old(self).current_spec(),
            final(self).transformations_spec() == old(self).transformations_spec(),
    {
        self.bump_current(1);
    }

    /// Records text in the current layer; it joins the pending group.
    pub fn add_text(&mut self)
        requires
            old(self).wf(),
            old(self).layers_spec()[old(self).current_spec()].text_groups + 1 < usize::MAX,
        ensures
            final(self).wf(),
            final(self).layers_spec() == old(self).layers_spec().update(
                old(self).current_spec(),
                bumped(old(self).layers_spec()[old(self).current_spec()], 2),
            ),
            final(self).previous_spec() == old(self).previous_spec(),
            final(self).current_spec() == old(self).current_spec(),
            final(self).transformations_spec() == old(self).transformations_spec(),
    {
        self.bump_current(2);
    }

    /// Records an image batch in the current layer.
    pub fn add_image(&mut self)
        requires
            old(self).wf(),
            old(self).layers_spec()[old(self).current_spec()].images < usize::MAX,
        ensures
            final(self).wf(),
            final(self).layers_spec() == old(self).layers_spec().update(
                old(self).current_spec(),
                bumped(old(self).layers_spec()[old(self).current_spec()], 3),
            ),
            final(self).previous_spec() == old(self).previous_spec(),
            final(self).current_spec() == old(self).current_spec(),
            final(self).transformations_spec() == old(self).transformations_spec(),
    {
        self.bump_current(3);
    }

    /// Records a custom shader primitive in the current layer.
    pub fn add_primitive(&mut self)
        requires
            old(self).wf(),
            old(self).layers_spec()[old(self).current_spec()].primitives < usize::MAX,
        ensures
            final(self).wf(),
            final(self).layers_spec() == old(self).layers_spec().update(
                old(self).current_spec(),
                bumped(old(self).layers_spec()[old(self).current_spec()], 4),
            ),
            final(self).previous_spec() == old(self).previous_spec(),
            final(self).current_spec() == old(self).current_spec(),
            final(self).transformations_spec() == old(self).transformations_spec(),
    {
        self.bump_current(4);
    }

    /// Flushes the current layer, then drops every layer that holds nothing
    /// (keeping the first if all are blank). This renumbers layers, so it
    /// must not run while a deferred region holds layer indices. Drawing
    /// then goes to the last layer, and no clip stays open.
    pub fn merge(&mut self)
        requires
            old(self).wf(),
        ensures
            final(self).wf(),
            final(self).layers_spec() == merged(
                old(self).layers_spec().update(
                    old(self).current_spec(),
                    flushed(old(self).layers_spec()[old(self).current_spec()]),
                ),
            ),
            final(self).previous_spec().len() == 0,
            final(self).current_spec() == final(self).layers_spec().len() - 1,
            final(self).transformations_spec() == old(self).transformations_spec(),
    {
        self.flush();
        let ghost all = self.layers@;
        let mut kept: Vec<Layer<B>> = Vec::new();
        let mut i: usize = 0;
        while i < self.layers.len()
            invariant
                self.wf(),
                self.layers@ == all,
                i <= all.len(),
                kept@ == non_blank(all.subrange(0, i as int)),
                forall|k: int| 0 <= k < kept@.len() ==> room_for_group(#[trigger] kept@[k]),
            decreases all.len() - i,
        {
            let l = self.layers[i];
            proof {
                assert(all.subrange(0, i + 1).drop_last() =~= all.subrange(0, i as int));
                assert(all.subrange(0, i + 1).last() == l);
            }
            if !(l.quads == 0 && l.meshes == 0 && l.text_groups == 0 && !l.text_pending
                && l.images == 0 && l.primitives == 0) {
                kept.push(l);
            }
            i = i + 1;
        }
        proof {
            assert(all.subrange(0, all.len() as int) =~= all);
        }
        if kept.len() == 0 {
            let first = self.layers[0];
            kept.push(first);
            proof {
                assert(kept@ =~= seq![all[0]]);
            }
        }
        self.layers = kept;
        self.previous = Vec::new();
        self.current = self.layers.len() - 1;
    }

    /// Starts a new frame: one empty layer clipped to `bounds`, no open
    /// clip, only the base transformation.
    pub fn reset(&mut self, bounds: B)
        requires
            old(self).wf(),
        ensures
            final(self).wf(),
            final(self).layers_spec() == seq![empty_layer(bounds)],
            final(self).transformations_spec() == seq![old(self).transformations_spec()[0]],
            final(self).previous_spec().len() == 0,
            final(self).current_spec() == 0,
    {
        let base = self.transformations[0];
        *self = LayerStack::new(bounds, base);
    }
}

/// A layer after one more batch of the kind numbered `kind` (quad, mesh,
/// text, image, primitive).
pub open spec fn bumped<B>(l: Layer<B>, kind: u8) -> Layer<B> {
    if kind == 0 {
        Layer { quads: (l.quads + 1) as usize, ..l }
    } else if kind == 1 {
        Layer { meshes: (l.meshes + 1) as usize, ..l }
    } else if kind == 2 {
        Layer { text_pending: true, ..l }
    } else if kind == 3 {
        Layer { images: (l.images + 1) as usize, ..l }
    } else {
        Layer { primitives: (l.primitives + 1) as usize, ..l }
    }
}

proof fn lemma_non_blank_push_blank<B>(s: Seq<Layer<B>>, l: Layer<B>)
    requires
        is_blank(l),
    ensures
        non_blank(s.push(l)) == non_blank(s),
{
    assert(s.push(l).drop_last() =~= s);
}

/// A clip opened and closed at once adds a blank layer that merging drops:
/// the merged layers, and so their count, are those of the stack without
/// the clip.
pub proof fn lemma_push_pop_clip_merges_away<B>(
    s: Seq<Layer<B>>,
    current: int,
    bounds: B,
)
    requires
        0 <= current < s.len(),
    ensures
        ({
            let pushed = s.push(empty_layer(bounds));
            let popped = pushed.update(s.len() as int, flushed(pushed[s.len() as int]));
            merged(popped.update(current, flushed(popped[current]))) == merged(
                s.update(current, flushed(s[current])),
            )
        }),
{
    let pushed = s.push(empty_layer(bounds));
    let popped = pushed.update(s.len() as int, flushed(pushed[s.len() as int]));
    assert(popped =~= pushed);
    let t = s.update(current, flushed(s[current]));
    assert(popped.update(current, flushed(popped[current])) =~= t.push(empty_layer(bounds)));
    lemma_non_blank_push_blank(t, empty_layer(bounds));
    assert(t.push(empty_layer(bounds))[0] == t[0]);
}

/// The opacity stack: the base entry and one entry per open opacity scope,
/// each holding the combined opacity in effect inside it. The base entry is
/// never removed.
pub struct OpacityStack<O> {
    entries: Vec<O>,
}

impl<O: Copy> OpacityStack<O> {
    /// The entries, base first.
    pub closed spec fn entries_spec(&self) -> Seq<O> {
        self.entries@
    }

    /// There is always the base entry.
    pub open spec fn wf(&self) -> bool {
        self.entries_spec().len() >= 1
    }

    /// A stack holding only `base` (full opacity).
    pub fn new(base: O) -> (r: OpacityStack<O>)
        ensures
            r.wf(),
            r.entries_spec() == seq![base],
    {
        let mut entries = Vec::new();
        entries.push(base);
        let r = OpacityStack { entries };
        assert(r.entries_spec() =~= seq![base]);
        r
    }

    /// The opacity in effect: the innermost entry.
    pub fn current_opacity(&self) -> (r: O)
        requires
            self.wf(),
        ensures
            r == self.entries_spec().last(),
    {
        self.entries[self.entries.len() - 1]
    }

    /// Opens a scope whose combined opacity is `combined` (the current
    /// opacity times the scope's factor clamped to `0.0..=1.0`).
    pub fn start_opacity(&mut self, combined: O)
        requires
            old(self).wf(),
        ensures
            final(self).wf(),
            final(self).entries_spec() == old(self).entries_spec().push(combined),
    {
        self.entries.push(combined);
    }

    /// Closes the innermost scope; with only the base entry left, nothing
    /// changes.
    pub fn end_opacity(&mut self)
        requires
            old(self).wf(),
        ensures
            final(self).wf(),
            final(self).entries_spec() == if old(self).entries_spec().len() > 1 {
                old(self).entries_spec().drop_last()
            } else {
                old(self).entries_spec()
            },
    {
        if self.entries.len() > 1 {
            let _ = self.entries.pop();
        }
    }

    /// How many entries the stack holds, the base included.
    pub fn depth(&self) -> (r: usize)
        ensures
            r == self.entries_spec().len(),
    {
        self.entries.len()
    }

    /// Back to the base entry alone, now `base`.
    pub fn reset(&mut self, base: O)
        ensures
            final(self).wf(),
            final(self).entries_spec() == seq![base],
    {
        *self = OpacityStack::new(base);
    }
}

/// Closing every scope opened on a stack brings it back to what it was;
/// closing more never removes the base entry.
pub proof fn lemma_opacity_scopes_balance<O>(s: Seq<O>, a: O, b: O)
    requires
        s.len() >= 1,
    ensures
        s.push(a).push(b).drop_last().drop_last() == s,
        s.push(a).push(b).last() == b,
        s.push(a).last() == a,
        (if s.len() > 1 {
            s.drop_last()
        } else {
            s
        }).len() >= 1,
{
    assert(s.push(a).push(b).drop_last() =~= s.push(a));
    assert(s.push(a).drop_last() =~= s);
}

} // verus!
