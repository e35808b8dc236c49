//! One frame of recording and the plan of its passes.
//!
//! Widgets record into a [`Frame`]: layers, opacity scopes, blur regions,
//! post-blur ranges and fade ranges. Before drawing, the frame either merges
//! its layers or, when a deferred region holds layer indices, only flushes.
//! The pass plans then say which layers each pass draws and at which
//! per-kind instance offsets each layer's batches start.
use vstd::prelude::*;
use crate::blur;
use crate::gradient::Color;
use crate::fade;
use crate::layers::{Layer, LayerStack, OpacityStack, empty_layer, flushed, merged};

verus! {

/// The styling a renderer hands to what it draws.
#[derive(Debug, Clone, Copy, PartialEq, Eq, Structural)]
pub struct Style {
    pub text_color: Color,
}

impl Default for Style {
    /// Opaque black text.
    fn default() -> (r: Style)
        ensures
            r.text_color == (Color { r: 0, g: 0, b: 0, a: 0x3F80_0000 }),
    {
        Style { text_color: Color { r: 0, g: 0, b: 0, a: 0x3F80_0000 } }
    }
}

/// Where a layer's batches start in each kind's instance buffers.
#[derive(Debug, Clone, Copy, PartialEq, Eq, Structural)]
pub struct Offsets {
    pub quad: usize,
    pub text: usize,
    pub image: usize,
}

/// What a pass does with one layer: whether it draws it, and the offsets
/// its batches start at.
#[derive(Debug, Clone, Copy, PartialEq, Eq, Structural)]
pub struct LayerStep {
    pub draw: bool,
    pub offsets: Offsets,
}

/// The totals (quad batches, text groups, image batches) over the visible
/// layers before layer `i`. Layers outside the
/// viewport upload nothing, so they add nothing; every other layer adds its
/// batches whether or not the pass at hand draws it.
pub open spec fn totals_before<B>(layers: Seq<Layer<B>>, visible: Seq<bool>, i: int) -> (int, int, int)
    decreases i,
{
    if i <= 0 {
        (0, 0, 0)
    } else {
        let t = totals_before(layers, visible, i - 1);
        let l = layers[i - 1];
        if visible[i - 1] {
            (
                t.0 + if l.quads > 0 {
                    1int
                } else {
                    0int
                },
                t.1 + l.text_groups,
                t.2 + if l.images > 0 {
                    1int
                } else {
                    0int
                },
            )
        } else {
            t
        }
    }
}

/// Whether `o` holds the totals `t`.
pub open spec fn offsets_match(o: Offsets, t: (int, int, int)) -> bool {
    o.quad == t.0 && o.text == t.1 && o.image == t.2
}

/// Whether a main pass leaves layer `i` out: it is part of a fade or of
/// post-blur content, and is drawn by a later pass.
pub open spec fn deferred<F, B>(
    fades: Seq<fade::GradientFadeRegion<F>>,
    post: Seq<blur::PostBlurContent<B>>,
    open: Option<(B, usize)>,
    i: int,
) -> bool {
    fade::covered_by_any(fades, i) || blur::in_post_blur(post, open, i)
}

/// Whether the post-blur contents (all closed) cover layer `i`.
pub open spec fn in_contents<B>(post: Seq<blur::PostBlurContent<B>>, i: int) -> bool {
    exists|k: int| 0 <= k < post.len() && blur::content_covers(#[trigger] post[k], i)
}

/// The layers a fade replays: `start..end`, both clamped to the layer count.
pub open spec fn in_clamped_range(start: int, end: int, count: int, i: int) -> bool {
    let e = if end < count {
        end
    } else {
        count
    };
    let s = if start < e {
        start
    } else {
        e
    };
    s <= i < e
}

/// The preconditions every pass plan shares: one visibility flag per layer,
/// and text totals that fit a `usize`.
pub open spec fn plannable<B>(layers: Seq<Layer<B>>, visible: Seq<bool>) -> bool {
    &&& visible.len() == layers.len()
    &&& totals_before(layers, visible, layers.len() as int).1 <= usize::MAX
}

proof fn lemma_totals_monotone<B>(layers: Seq<Layer<B>>, visible: Seq<bool>, i: int, j: int)
    requires
        0 <= i <= j,
    ensures
        totals_before(layers, visible, i).1 <= totals_before(layers, visible, j).1,
        0 <= totals_before(layers, visible, i).0 <= i,
        0 <= totals_before(layers, visible, i).2 <= i,
        0 <= totals_before(layers, visible, i).1,
    decreases j,
{
    if j > i {
        lemma_totals_monotone(layers, visible, i, j - 1);
    } else if i > 0 {
        lemma_totals_monotone(layers, visible, i - 1, i - 1);
    }
}

/// Plans a pass over `layers`: layer `i` is drawn when `draw(i)` holds and
/// it is visible; the offsets of every layer are the running totals.
fn plan<B: Copy>(layers: &[Layer<B>], visible: &[bool], draw: &Vec<bool>) -> (r: Vec<LayerStep>)
    requires
        plannable(layers@, visible@),
        draw@.len() == layers@.len(),
    ensures
        r@.len() == layers@.len(),
        forall|i: int|
            0 <= i < layers@.len() ==> (#[trigger] r@[i]).draw == (draw@[i] && visible@[i])
                && offsets_match(r@[i].offsets, totals_before(layers@, visible@, i)),
{
    let mut steps: Vec<LayerStep> = Vec::new();
    let mut quad: usize = 0;
    let mut text: usize = 0;
    let mut image: usize = 0;
    let mut i: usize = 0;
    while i < layers.len()
        invariant
            plannable(layers@, visible@),
            draw@.len() == layers@.len(),
            i <= layers@.len(),
            steps@.len() == i,
            offsets_match(
                Offsets { quad, text, image },
                totals_before(layers@, visible@, i as int),
            ),
            forall|k: int|
                0 <= k < i ==> (#[trigger] steps@[k]).draw == (draw@[k] && visible@[k])
                    && offsets_match(steps@[k].offsets, totals_before(layers@, visible@, k)),
        decreases layers@.len() - i,
    {
        let l = layers[i];
        let seen = visible[i];
        steps.push(LayerStep { draw: draw[i] && seen, offsets: Offsets { quad, text, image } });
        proof {
            lemma_totals_monotone(layers@, visible@, i + 1, layers@.len() as int);
        }
        if seen {
            if l.quads > 0 {
                quad = quad + 1;
            }
            text = text + l.text_groups;
            if l.images > 0 {
                image = image + 1;
            }
        }
        i = i + 1;
    }
    steps
}

/// Plans the main pass: every visible layer is drawn except those of a fade
/// or of post-blur content, which are left for their own passes but still
/// advance the offsets, so that those passes address the right instances.
pub fn plan_main_pass<F: Copy, C: Copy, B: Copy>(
    layers: &[Layer<B>],
    visible: &[bool],
    fades: &fade::State<F>,
    blurs: &blur::State<C, B>,
) -> (r: Vec<LayerStep>)
    requires
        plannable(layers@, visible@),
    ensures
        r@.len() == layers@.len(),
        forall|i: int|
            0 <= i < layers@.len() ==> (#[trigger] r@[i]).draw == (visible@[i] && !deferred(
                fades.completed@,
                blurs.post_blur_content@,
                blurs.current_post_blur,
                i,
            )) && offsets_match(r@[i].offsets, totals_before(layers@, visible@, i)),
{
    let mut draw: Vec<bool> = Vec::new();
    let mut i: usize = 0;
    while i < layers.len()
        invariant
            i <= layers@.len(),
            draw@.len() == i,
            forall|k: int|
                0 <= k < i ==> #[trigger] draw@[k] == !deferred(
                    fades.completed@,
                    blurs.post_blur_content@,
                    blurs.current_post_blur,
                    k,
                ),
        decreases layers@.len() - i,
    {
        let skip = fades.is_layer_in_fade_region(i) || blurs.is_layer_in_post_blur(i);
        draw.push(!skip);
        i = i + 1;
    }
    plan(layers, visible, &draw)
}

/// Plans the replay of post-blur content on top of the blurred frame: the
/// visible layers that `contents` cover, at the same offsets as the main
/// pass.
pub fn plan_post_blur_pass<B: Copy>(
    layers: &[Layer<B>],
    visible: &[bool],
    contents: &[blur::PostBlurContent<B>],
) -> (r: Vec<LayerStep>)
    requires
        plannable(layers@, visible@),
    ensures
        r@.len() == layers@.len(),
        forall|i: int|
            0 <= i < layers@.len() ==> (#[trigger] r@[i]).draw == (visible@[i] && in_contents(
                contents@,
                i,
            )) && offsets_match(r@[i].offsets, totals_before(layers@, visible@, i)),
{
    let mut draw: Vec<bool> = Vec::new();
    let mut i: usize = 0;
    while i < layers.len()
        invariant
            i <= layers@.len(),
            draw@.len() == i,
            forall|k: int| 0 <= k < i ==> #[trigger] draw@[k] == in_contents(contents@, k),
        decreases layers@.len() - i,
    {
        let mut covered = false;
        let mut k: usize = 0;
        while k < contents.len()
            invariant
                k <= contents@.len(),
                covered == exists|m: int|
                    0 <= m < k && blur::content_covers(#[trigger] contents@[m], i as int),
            decreases contents@.len() - k,
        {
            let c = &contents[k];
            let end = match c.end_layer {
                Some(e) => e,
                None => usize::MAX,
            };
            if c.start_layer <= i && i < end {
                covered = true;
            }
            proof {
                if !covered {
                    assert forall|m: int| 0 <= m < k + 1 implies !blur::content_covers(
                        #[trigger] contents@[m],
                        i as int,
                    ) by {}
                }
            }
            k = k + 1;
        }
        draw.push(covered);
        i = i + 1;
    }
    plan(layers, visible, &draw)
}

/// Plans the offscreen replay of a fade over layers `start_layer..end_layer`,
/// both clamped to the layer count, so a range that is empty or out of
/// bounds replays nothing.
pub fn plan_fade_pass<B: Copy>(
    layers: &[Layer<B>],
    visible: &[bool],
    start_layer: usize,
    end_layer: usize,
) -> (r: Vec<LayerStep>)
    requires
        plannable(layers@, visible@),
    ensures
        r@.len() == layers@.len(),
        forall|i: int|
            0 <= i < layers@.len() ==> (#[trigger] r@[i]).draw == (visible@[i] && in_clamped_range(
                start_layer as int,
                end_layer as int,
                layers@.len() as int,
                i,
            )) && offsets_match(r@[i].offsets, totals_before(layers@, visible@, i)),
{
    let end = if end_layer < layers.len() {
        end_layer
    } else {
        layers.len()
    };
    let start = if start_layer < end {
        start_layer
    } else {
        end
    };
    let mut draw: Vec<bool> = Vec::new();
    let mut i: usize = 0;
    while i < layers.len()
        invariant
            i <= layers@.len(),
            draw@.len() == i,
            forall|k: int|
                0 <= k < i ==> #[trigger] draw@[k] == in_clamped_range(
                    start_layer as int,
                    end_layer as int,
                    layers@.len() as int,
                    k,
                ),
            end == if end_layer < layers@.len() {
                end_layer as int
            } else {
                layers@.len() as int
            },
            start == if start_layer < end {
                start_layer as int
            } else {
                end as int
            },
        decreases layers@.len() - i,
    {
        draw.push(start <= i && i < end);
        i = i + 1;
    }
    plan(layers, visible, &draw)
}

/// With no post-blur range left open, the main pass and the post-blur
/// replay never both draw a layer, and they address each layer's batches at
/// the same offsets; a visible layer outside every fade is drawn by exactly
/// one of them.
pub proof fn lemma_main_and_replay_partition<F, B>(
    layers: Seq<Layer<B>>,
    visible: Seq<bool>,
    fades: Seq<fade::GradientFadeRegion<F>>,
    post: Seq<blur::PostBlurContent<B>>,
    main: Seq<LayerStep>,
    replay: Seq<LayerStep>,
)
    requires
        main.len() == layers.len(),
        replay.len() == layers.len(),
        forall|i: int|
            0 <= i < layers.len() ==> (#[trigger] main[i]).draw == (visible[i] && !deferred(
                fades,
                post,
                None,
                i,
            )) && offsets_match(main[i].offsets, totals_before(layers, visible, i)),
        forall|i: int|
            0 <= i < layers.len() ==> (#[trigger] replay[i]).draw == (visible[i] && in_contents(
                post,
                i,
            )) && offsets_match(replay[i].offsets, totals_before(layers, visible, i)),
    ensures
        forall|i: int| 0 <= i < layers.len() ==> !(#[trigger] main[i].draw && replay[i].draw),
        forall|i: int| 0 <= i < layers.len() ==> #[trigger] main[i].offsets == replay[i].offsets,
        forall|i: int|
            0 <= i < layers.len() && visible[i] && !fade::covered_by_any(fades, i) ==> (
            #[trigger] main[i].draw || replay[i].draw),
{
}

/// Everything a frame records: layers, opacity scopes, fades and blurs.
/// `O` is an opacity, `F` a fade configuration, `C` a blur configuration,
/// `B` clip bounds and `T` a transformation.
pub struct Frame<O, F, C, B, T> {
    pub layers: LayerStack<B, T>,
    pub opacity: OpacityStack<O>,
    pub fades: fade::State<F>,
    pub blurs: blur::State<C, B>,
}

/// The layers of `s` once its current layer is flushed.
pub open spec fn current_flushed<B: Copy, T: Copy>(s: LayerStack<B, T>) -> Seq<Layer<B>> {
    s.layers_spec().update(s.current_spec(), flushed(s.layers_spec()[s.current_spec()]))
}

/// Whether `after` has the clip nesting, the current layer and the
/// transformations of `before`.
pub open spec fn nesting_kept<B: Copy, T: Copy>(before: LayerStack<B, T>, after: LayerStack<B, T>) -> bool {
    &&& after.previous_spec() == before.previous_spec()
    &&& after.current_spec() == before.current_spec()
    &&& after.transformations_spec() == before.transformations_spec()
}

impl<O: Copy, F: Copy, C: Copy, B: Copy, T: Copy> Frame<O, F, C, B, T> {
    /// The stacks are well formed.
    pub open spec fn wf(&self) -> bool {
        self.layers.wf() && self.opacity.wf()
    }

    /// Whether a deferred region holds layer indices, which forbids merging.
    pub open spec fn holds_indices(&self) -> bool {
        self.fades.completed@.len() > 0 || self.fades.active.is_some()
            || self.blurs.regions@.len() > 0 || self.blurs.post_blur_content@.len() > 0
            || self.blurs.current_post_blur.is_some()
    }

    /// A fresh frame clipped to `bounds`.
    pub fn new(bounds: B, identity: T, full_opacity: O) -> (r: Frame<O, F, C, B, T>)
        ensures
            r.wf(),
            r.layers.layers_spec() == seq![empty_layer(bounds)],
            r.layers.transformations_spec() == seq![identity],
            r.layers.previous_spec().len() == 0,
            r.layers.current_spec() == 0,
            r.opacity.entries_spec() == seq![full_opacity],
            r.fades.completed@.len() == 0,
            r.fades.active.is_none(),
            r.blurs.regions@.len() == 0,
            r.blurs.post_blur_content@.len() == 0,
            r.blurs.current_post_blur.is_none(),
    {
        Frame {
            layers: LayerStack::new(bounds, identity),
            opacity: OpacityStack::new(full_opacity),
            fades: fade::State::new(),
            blurs: blur::State::new(),
        }
    }

    /// Starts a new frame: one empty layer clipped to `bounds`, only the
    /// base transformation, full opacity, and no fade, blur or post-blur
    /// content recorded or open.
    pub fn reset(&mut self, bounds: B, full_opacity: O)
        requires
            old(self).wf(),
        ensures
            final(self).wf(),
            final(self).layers.layers_spec() == seq![empty_layer(bounds)],
            final(self).layers.transformations_spec() == seq![
                old(self).layers.transformations_spec()[0],
            ],
            final(self).layers.previous_spec().len() == 0,
            final(self).layers.current_spec() == 0,
            final(self).opacity.entries_spec() == seq![full_opacity],
            final(self).fades.completed@.len() == 0,
            final(self).fades.active.is_none(),
            final(self).blurs.regions@.len() == 0,
            final(self).blurs.post_blur_content@.len() == 0,
            final(self).blurs.current_post_blur.is_none(),
    {
        self.layers.reset(bounds);
        self.opacity.reset(full_opacity);
        self.fades.clear();
        self.blurs = blur::State::new();
    }

    /// Opens a fade with configuration `fade`: the current layer is flushed
    /// so that the fade's content starts at the next layer index.
    pub fn start_gradient_fade(&mut self, fade: F)
        requires
            old(self).wf(),
        ensures
            final(self).wf(),
            final(self).layers.layers_spec() == current_flushed(old(self).layers),
            nesting_kept(old(self).layers, final(self).layers),
            final(self).fades.active == Some(
                fade::ActiveFade { fade, start_layer: old(self).layers.layers_spec().len() as usize },
            ),
            final(self).fades.completed@ == old(self).fades.completed@,
            final(self).blurs == old(self).blurs,
            final(self).opacity == old(self).opacity,
    {
        self.layers.flush();
        let count = self.layers.active_count();
        self.fades.start(fade, count);
    }

    /// Closes the open fade at the current layer count (after a flush); with
    /// none open, only the flush happens.
    pub fn end_gradient_fade(&mut self)
        requires
            old(self).wf(),
        ensures
            final(self).wf(),
            final(self).layers.layers_spec() == current_flushed(old(self).layers),
            nesting_kept(old(self).layers, final(self).layers),
            final(self).fades.active.is_none(),
            final(self).fades.completed@ == match old(self).fades.active {
                Some(a) => old(self).fades.completed@.push(
                    fade::GradientFadeRegion {
                        fade: a.fade,
                        start_layer: a.start_layer,
                        end_layer: old(self).layers.layers_spec().len() as usize,
                    },
                ),
                None => old(self).fades.completed@,
            },
            final(self).blurs == old(self).blurs,
            final(self).opacity == old(self).opacity,
    {
        self.layers.flush();
        let count = self.layers.active_count();
        let _ = self.fades.end(count);
    }

    /// Records a backdrop blur: the current layer is flushed and everything
    /// in the layers before the current count is the blur's source.
    pub fn draw_backdrop_blur(&mut self, blur: C)
        requires
            old(self).wf(),
        ensures
            final(self).wf(),
            final(self).layers.layers_spec() == current_flushed(old(self).layers),
            nesting_kept(old(self).layers, final(self).layers),
            final(self).blurs.regions@ == old(self).blurs.regions@.push(
                blur::BlurRegion {
                    blur,
                    layer_index: old(self).layers.layers_spec().len() as usize,
                },
            ),
            final(self).blurs.post_blur_content@ == old(self).blurs.post_blur_content@,
            final(self).blurs.current_post_blur == old(self).blurs.current_post_blur,
            final(self).fades == old(self).fades,
            final(self).opacity == old(self).opacity,
    {
        self.layers.flush();
        let count = self.layers.active_count();
        self.blurs.add_region(blur, count);
    }

    /// Opens post-blur content: a clip layer with `expanded` bounds (the
    /// widget's `bounds` grown by a margin, so shadows are not cut) is
    /// pushed and receives the drawing, and the content starts at that new
    /// layer, recorded with the widget's own `bounds`.
    pub fn start_post_blur_layer(&mut self, bounds: B, expanded: B)
        requires
            old(self).wf(),
            old(self).layers.layers_spec().len() < usize::MAX,
        ensures
            final(self).wf(),
            final(self).layers.layers_spec() == old(self).layers.layers_spec().push(
                empty_layer(expanded),
            ),
            final(self).layers.previous_spec() == old(self).layers.previous_spec().push(
                old(self).layers.current_spec() as usize,
            ),
            final(self).layers.current_spec() == old(self).layers.layers_spec().len(),
            final(self).layers.transformations_spec() == old(
                self,
            ).layers.transformations_spec(),
            final(self).blurs.current_post_blur == Some(
                (bounds, old(self).layers.layers_spec().len() as usize),
            ),
            final(self).blurs.regions@ == old(self).blurs.regions@,
            final(self).blurs.post_blur_content@ == old(self).blurs.post_blur_content@,
            final(self).fades == old(self).fades,
            final(self).opacity == old(self).opacity,
    {
        self.layers.push_clip(expanded);
        let count = self.layers.active_count();
        self.blurs.start_post_blur(bounds, count - 1);
    }

    /// Closes post-blur content: the clip is popped (its layer flushed,
    /// drawing back to the layer it interrupted) and the content ends after
    /// the last layer recorded so far.
    pub fn end_post_blur_layer(&mut self)
        requires
            old(self).wf(),
            old(self).layers.previous_spec().len() > 0,
        ensures
            final(self).wf(),
            final(self).layers.layers_spec() == current_flushed(old(self).layers),
            final(self).layers.previous_spec() == old(self).layers.previous_spec().drop_last(),
            final(self).layers.current_spec() == old(self).layers.previous_spec().last(),
            final(self).layers.transformations_spec() == old(
                self,
            ).layers.transformations_spec(),
            final(self).blurs.current_post_blur.is_none(),
            final(self).blurs.post_blur_content@ == match old(self).blurs.current_post_blur {
                Some((b, s)) => old(self).blurs.post_blur_content@.push(
                    blur::PostBlurContent {
                        bounds: b,
                        start_layer: s,
                        end_layer: Some(old(self).layers.layers_spec().len() as usize),
                    },
                ),
                None => old(self).blurs.post_blur_content@,
            },
            final(self).blurs.regions@ == old(self).blurs.regions@,
            final(self).fades == old(self).fades,
            final(self).opacity == old(self).opacity,
    {
        let count = self.layers.active_count();
        self.layers.pop_clip();
        self.blurs.end_post_blur(count);
    }

    /// Readies the layers for drawing: they are merged unless a deferred
    /// region holds layer indices, in which case they are only flushed and
    /// every index stays valid.
    pub fn prepare(&mut self)
        requires
            old(self).wf(),
        ensures
            final(self).wf(),
            final(self).fades == old(self).fades,
            final(self).blurs == old(self).blurs,
            final(self).opacity == old(self).opacity,
            final(self).layers.transformations_spec() == old(
                self,
            ).layers.transformations_spec(),
            old(self).holds_indices() ==> {
                &&& final(self).layers.layers_spec() == current_flushed(old(self).layers)
                &&& nesting_kept(old(self).layers, final(self).layers)
            },
            !old(self).holds_indices() ==> {
                &&& final(self).layers.layers_spec() == merged(current_flushed(old(self).layers))
                &&& final(self).layers.previous_spec().len() == 0
                &&& final(self).layers.current_spec() == final(self).layers.layers_spec().len()
                    - 1
            },
    {
        let holds = self.fades.completed.len() > 0 || self.fades.active.is_some()
            || self.blurs.has_regions() || self.blurs.has_post_blur_content()
            || self.blurs.current_post_blur.is_some();
        if holds {
            self.layers.flush();
        } else {
            self.layers.merge();
        }
    }
}

/// One step of drawing a frame.
#[derive(Debug, Clone, Copy, PartialEq, Eq, Structural)]
pub enum Stage {
    /// Merge or flush the layers and upload their batches.
    Prepare,
    /// Draw the layers that are not deferred straight into the target.
    RenderMain,
    /// Draw the layers that are not deferred into an offscreen texture,
    /// where the target cannot be copied from.
    RenderOffscreen,
    /// Copy the offscreen texture onto the target.
    BlitOffscreen,
    /// Copy the target, as drawn so far, into the scene copy.
    CopyScene,
    /// Composite the blur region with this index.
    Blur(usize),
    /// Draw the post-blur content on top.
    ReplayPostBlur,
    /// Draw the fade region with this index offscreen and composite it.
    Fade(usize),
    /// Let the batch stores drop what the frame did not use.
    Trim,
}

/// The stages that blur `n` regions, in order.
pub open spec fn blur_stages(n: nat) -> Seq<Stage> {
    Seq::new(n, |i: int| Stage::Blur(i as usize))
}

/// The stages that composite `n` fades, in order.
pub open spec fn fade_stages(n: nat) -> Seq<Stage> {
    Seq::new(n, |i: int| Stage::Fade(i as usize))
}

/// The stages of a frame: prepare; draw the background (offscreen first
/// when blurring on a target that cannot be copied, else straight to the
/// target, copied afterwards when blurring); every blur; the post-blur
/// content; every fade; trim.
pub open spec fn frame_stages(
    target_copyable: bool,
    blur_regions: nat,
    post_blur: bool,
    fade_regions: nat,
) -> Seq<Stage> {
    let background = if blur_regions > 0 && !target_copyable {
        seq![Stage::RenderOffscreen, Stage::BlitOffscreen]
    } else if blur_regions > 0 {
        seq![Stage::RenderMain, Stage::CopyScene]
    } else {
        seq![Stage::RenderMain]
    };
    let replay = if post_blur {
        seq![Stage::ReplayPostBlur]
    } else {
        Seq::<Stage>::empty()
    };
    seq![Stage::Prepare] + background + blur_stages(blur_regions) + replay + fade_stages(
        fade_regions,
    ) + seq![Stage::Trim]
}

/// Plans the stages of a frame with `blur_regions` blurs, post-blur content
/// or not, and `fade_regions` fades; `target_copyable` says whether the
/// platform can copy from the presentation target.
pub fn plan_frame(
    target_copyable: bool,
    blur_regions: usize,
    post_blur: bool,
    fade_regions: usize,
) -> (r: Vec<Stage>)
    requires
        blur_regions + fade_regions + 6 <= usize::MAX,
    ensures
        r@ == frame_stages(target_copyable, blur_regions as nat, post_blur, fade_regions as nat),
{
    let mut stages: Vec<Stage> = Vec::new();
    stages.push(Stage::Prepare);
    if blur_regions > 0 && !target_copyable {
        stages.push(Stage::RenderOffscreen);
        stages.push(Stage::BlitOffscreen);
    } else if blur_regions > 0 {
        stages.push(Stage::RenderMain);
        stages.push(Stage::CopyScene);
    } else {
        stages.push(Stage::RenderMain);
    }
    let ghost head = stages@;
    let mut i: usize = 0;
    while i < blur_regions
        invariant
            i <= blur_regions,
            stages@ == head + blur_stages(i as nat),
        decreases blur_regions - i,
    {
        stages.push(Stage::Blur(i));
        proof {
            assert(blur_stages((i + 1) as nat) =~= blur_stages(i as nat).push(Stage::Blur(i)));
        }
        i = i + 1;
    }
    if post_blur {
        stages.push(Stage::ReplayPostBlur);
    }
    let ghost middle = stages@;
    let mut k: usize = 0;
    while k < fade_regions
        invariant
            k <= fade_regions,
            stages@ == middle + fade_stages(k as nat),
        decreases fade_regions - k,
    {
        stages.push(Stage::Fade(k));
        proof {
            assert(fade_stages((k + 1) as nat) =~= fade_stages(k as nat).push(Stage::Fade(k)));
        }
        k = k + 1;
    }
    stages.push(Stage::Trim);
    proof {
        let background = if blur_regions > 0 && !target_copyable {
            seq![Stage::RenderOffscreen, Stage::BlitOffscreen]
        } else if blur_regions > 0 {
            seq![Stage::RenderMain, Stage::CopyScene]
        } else {
            seq![Stage::RenderMain]
        };
        let replay = if post_blur {
            seq![Stage::ReplayPostBlur]
        } else {
            Seq::<Stage>::empty()
        };
        assert(head =~= seq![Stage::Prepare] + background);
        assert(middle =~= seq![Stage::Prepare] + background + blur_stages(blur_regions as nat)
            + replay);
        assert(stages@ =~= frame_stages(
            target_copyable,
            blur_regions as nat,
            post_blur,
            fade_regions as nat,
        ));
    }
    stages
}

/// A frame starts by preparing and ends by trimming; every blur comes
/// before the post-blur content, and the post-blur content before every
/// fade, so fades see the blurred result and post-blur content stays sharp.
pub proof fn lemma_frame_stage_order(
    target_copyable: bool,
    blur_regions: nat,
    post_blur: bool,
    fade_regions: nat,
    i: int,
    j: int,
)
    requires
        ({
            let s = frame_stages(target_copyable, blur_regions, post_blur, fade_regions);
            &&& 0 <= i < s.len()
            &&& 0 <= j < s.len()
            &&& (s[i] is Blur && (s[j] == Stage::ReplayPostBlur || s[j] is Fade)
                || s[i] == Stage::ReplayPostBlur && s[j] is Fade)
        }),
    ensures
        i < j,
        frame_stages(target_copyable, blur_regions, post_blur, fade_regions)[0] == Stage::Prepare,
        frame_stages(target_copyable, blur_regions, post_blur, fade_regions).last()
            == Stage::Trim,
{
    let s = frame_stages(target_copyable, blur_regions, post_blur, fade_regions);
    let b: int = if blur_regions > 0 {
        2
    } else {
        1
    };
    let r: int = if post_blur {
        1
    } else {
        0
    };
    let background = if blur_regions > 0 && !target_copyable {
        seq![Stage::RenderOffscreen, Stage::BlitOffscreen]
    } else if blur_regions > 0 {
        seq![Stage::RenderMain, Stage::CopyScene]
    } else {
        seq![Stage::RenderMain]
    };
    let replay = if post_blur {
        seq![Stage::ReplayPostBlur]
    } else {
        Seq::<Stage>::empty()
    };
    assert(background.len() == b);
    assert(replay.len() == r);
    let start_blur = 1 + b;
    let start_replay = start_blur + blur_regions;
    let start_fade = start_replay + r;
    let start_trim = start_fade + fade_regions;
    assert forall|k: int| 0 <= k < s.len() implies ((#[trigger] s[k]) is Blur <==> start_blur <= k
        < start_replay) && (s[k] == Stage::ReplayPostBlur <==> start_replay <= k < start_fade) && (
    s[k] is Fade <==> start_fade <= k < start_trim) by {
        if k < 1 {
            assert(s[k] == Stage::Prepare);
        } else if k < start_blur {
            assert(s[k] == background[k - 1]);
        } else if k < start_replay {
            assert(s[k] == blur_stages(blur_regions)[k - start_blur]);
        } else if k < start_fade {
            assert(s[k] == replay[k - start_replay]);
        } else if k < start_trim {
            assert(s[k] == fade_stages(fade_regions)[k - start_fade]);
        } else {
            assert(s[k] == Stage::Trim);
        }
    }
    assert(s[0] == Stage::Prepare);
    assert(s.last() == Stage::Trim);
}

} // verus!
