//! Backdrop-blur bookkeeping: where blurs apply, which layers must be drawn
//! after the blur, and the scratch textures the blur passes reuse.
use vstd::prelude::*;

verus! {

/// A blur and the layer before which content is its source.
#[derive(Debug, Clone, Copy)]
pub struct BlurRegion<C> {
    pub blur: C,
    pub layer_index: usize,
}

/// Content drawn on top once the blur is composited: the layers
/// `start_layer..end_layer` (no end while it is still being recorded).
#[derive(Debug, Clone, Copy)]
pub struct PostBlurContent<B> {
    pub bounds: B,
    pub start_layer: usize,
    pub end_layer: Option<usize>,
}

/// Whether `content` covers `layer`; an open range covers every layer from
/// its start.
pub open spec fn content_covers<B>(content: PostBlurContent<B>, layer: int) -> bool {
    content.start_layer <= layer && match content.end_layer {
        Some(end) => layer < end,
        None => layer < usize::MAX,
    }
}

/// Whether `layer` belongs to post-blur content, recorded or being recorded.
pub open spec fn in_post_blur<B>(
    contents: Seq<PostBlurContent<B>>,
    open: Option<(B, usize)>,
    layer: int,
) -> bool {
    (exists|i: int| 0 <= i < contents.len() && content_covers(#[trigger] contents[i], layer))
        || match open {
        Some((_, start)) => start <= layer,
        None => false,
    }
}

/// The blur regions and post-blur ranges of one frame.
pub struct State<C, B> {
    pub regions: Vec<BlurRegion<C>>,
    pub post_blur_content: Vec<PostBlurContent<B>>,
    pub current_post_blur: Option<(B, usize)>,
}

impl<C: Copy, B: Copy> State<C, B> {
    /// Nothing recorded.
    pub fn new() -> (r: State<C, B>)
        ensures
            r.regions@.len() == 0,
            r.post_blur_content@.len() == 0,
            r.current_post_blur.is_none(),
    {
        State { regions: Vec::new(), post_blur_content: Vec::new(), current_post_blur: None }
    }

    /// Records a blur of the content before layer `layer_index`.
    pub fn add_region(&mut self, blur: C, layer_index: usize)
        ensures
            final(self).regions@ == old(self).regions@.push(BlurRegion { blur, layer_index }),
            final(self).post_blur_content@ == old(self).post_blur_content@,
            final(self).current_post_blur == old(self).current_post_blur,
    {
        self.regions.push(BlurRegion { blur, layer_index });
    }

    /// Hands out the recorded regions and forgets them.
    pub fn take_regions(&mut self) -> (r: Vec<BlurRegion<C>>)
        ensures
            r@ == old(self).regions@,
            final(self).regions@.len() == 0,
            final(self).post_blur_content@ == old(self).post_blur_content@,
            final(self).current_post_blur == old(self).current_post_blur,
    {
        let mut taken = Vec::new();
        std::mem::swap(&mut taken, &mut self.regions);
        taken
    }

    /// Whether a region is recorded.
    pub fn has_regions(&self) -> (r: bool)
        ensures
            r == (self.regions@.len() > 0),
    {
        self.regions.len() > 0
    }

    /// Forgets the recorded regions.
    pub fn clear(&mut self)
        ensures
            final(self).regions@.len() == 0,
            final(self).post_blur_content@ == old(self).post_blur_content@,
            final(self).current_post_blur == old(self).current_post_blur,
    {
        self.regions.clear();
    }

    /// Begins post-blur content at layer `layer_index`; a range still open
    /// is dropped.
    pub fn start_post_blur(&mut self, bounds: B, layer_index: usize)
        ensures
            final(self).current_post_blur == Some((bounds, layer_index)),
            final(self).regions@ == old(self).regions@,
            final(self).post_blur_content@ == old(self).post_blur_content@,
    {
        self.current_post_blur = Some((bounds, layer_index));
    }

    /// Ends the open post-blur range before layer `end_layer` and records it;
    /// with none open, nothing changes.
    pub fn end_post_blur(&mut self, end_layer: usize)
        ensures
            final(self).current_post_blur.is_none(),
            final(self).regions@ == old(self).regions@,
            final(self).post_blur_content@ == match old(self).current_post_blur {
                Some((bounds, start_layer)) => old(self).post_blur_content@.push(
                    PostBlurContent { bounds, start_layer, end_layer: Some(end_layer) },
                ),
                None => old(self).post_blur_content@,
            },
    {
        match self.current_post_blur.take() {
            Some((bounds, start_layer)) => {
                self.post_blur_content.push(
                    PostBlurContent { bounds, start_layer, end_layer: Some(end_layer) },
                );
            },
            None => {},
        }
    }

    /// Whether layer `layer_index` is post-blur content, and so is left out
    /// of the main pass.
    pub fn is_layer_in_post_blur(&self, layer_index: usize) -> (r: bool)
        ensures
            r == in_post_blur(self.post_blur_content@, self.current_post_blur, layer_index as int),
    {
        let mut i: usize = 0;
        while i < self.post_blur_content.len()
            invariant
                i <= self.post_blur_content@.len(),
                forall|k: int|
                    0 <= k < i ==> !content_covers(
                        #[trigger] self.post_blur_content@[k],
                        layer_index as int,
                    ),
            decreases self.post_blur_content@.len() - i,
        {
            let content = &self.post_blur_content[i];
            let end = match content.end_layer {
                Some(end) => end,
                None => usize::MAX,
            };
            if content.start_layer <= layer_index && layer_index < end {
                return true;
            }
            i = i + 1;
        }
        match &self.current_post_blur {
            Some((_, start)) => *start <= layer_index,
            None => false,
        }
    }

    /// Hands out the recorded post-blur content and forgets it.
    pub fn take_post_blur_content(&mut self) -> (r: Vec<PostBlurContent<B>>)
        ensures
            r@ == old(self).post_blur_content@,
            final(self).post_blur_content@.len() == 0,
            final(self).regions@ == old(self).regions@,
            final(self).current_post_blur == old(self).current_post_blur,
    {
        let mut taken = Vec::new();
        std::mem::swap(&mut taken, &mut self.post_blur_content);
        taken
    }

    /// Whether post-blur content is recorded.
    pub fn has_post_blur_content(&self) -> (r: bool)
        ensures
            r == (self.post_blur_content@.len() > 0),
    {
        self.post_blur_content.len() > 0
    }

    /// The recorded post-blur content.
    pub fn post_blur_content(&self) -> (r: &[PostBlurContent<B>])
        ensures
            r@ == self.post_blur_content@,
    {
        self.post_blur_content.as_slice()
    }
}

/// A texture size in physical pixels.
#[derive(Debug, Clone, Copy, PartialEq, Eq, Structural)]
pub struct Extent {
    pub width: u32,
    pub height: u32,
}

/// A cached texture and the size it was made at.
pub struct Cached<T> {
    pub texture: T,
    pub size: Extent,
}

/// Whether a slot must be (re)made for `size`: blur samples one texel per
/// pixel, so only an exact size match is reused.
pub open spec fn needs_new<T>(slot: Option<Cached<T>>, size: Extent) -> bool {
    match slot {
        Some(c) => c.size != size,
        None => true,
    }
}

/// The scratch textures of the blur passes: the intermediate target of the
/// ping-pong passes and the copy of the scene being blurred.
pub struct TextureCache<T> {
    pub intermediate: Option<Cached<T>>,
    pub scene_copy: Option<Cached<T>>,
}

fn slot_needs_new<T>(slot: &Option<Cached<T>>, size: Extent) -> (r: bool)
    ensures
        r == needs_new(*slot, size),
{
    match slot {
        Some(c) => c.size.width != size.width || c.size.height != size.height,
        None => true,
    }
}

impl<T> TextureCache<T> {
    /// An empty cache.
    pub fn new() -> (r: TextureCache<T>)
        ensures
            r.intermediate.is_none(),
            r.scene_copy.is_none(),
    {
        TextureCache { intermediate: None, scene_copy: None }
    }

    /// Whether the intermediate texture must be made anew for `size`.
    pub fn get_intermediate(&self, size: Extent) -> (r: bool)
        ensures
            r == needs_new(self.intermediate, size),
    {
        slot_needs_new(&self.intermediate, size)
    }

    /// Whether the scene-copy texture must be made anew for `size`.
    pub fn get_scene_copy(&self, size: Extent) -> (r: bool)
        ensures
            r == needs_new(self.scene_copy, size),
    {
        slot_needs_new(&self.scene_copy, size)
    }

    /// Stores a freshly made intermediate texture of `size`.
    pub fn set_intermediate(&mut self, texture: T, size: Extent)
        ensures
            final(self).intermediate == Some(Cached { texture, size }),
            final(self).scene_copy == old(self).scene_copy,
    {
        self.intermediate = Some(Cached { texture, size });
    }

    /// Stores a freshly made scene-copy texture of `size`.
    pub fn set_scene_copy(&mut self, texture: T, size: Extent)
        ensures
            final(self).scene_copy == Some(Cached { texture, size }),
            final(self).intermediate == old(self).intermediate,
    {
        self.scene_copy = Some(Cached { texture, size });
    }

    /// The scene-copy texture, if one was made.
    pub fn get_scene_copy_texture(&self) -> (r: Option<&T>)
        ensures
            match self.scene_copy {
                Some(c) => r == Some(&c.texture),
                None => r.is_none(),
            },
    {
        match &self.scene_copy {
            Some(c) => Some(&c.texture),
            None => None,
        }
    }

    /// Which of the two textures, scene copy first, must be made anew for
    /// `size` so that both match it.
    pub fn get_blur_textures(&self, size: Extent) -> (r: (bool, bool))
        ensures
            r.0 == needs_new(self.scene_copy, size),
            r.1 == needs_new(self.intermediate, size),
    {
        (slot_needs_new(&self.scene_copy, size), slot_needs_new(&self.intermediate, size))
    }
}

/// A texture a blur pass reads or writes.
#[derive(Debug, Clone, Copy, PartialEq, Eq, Structural)]
pub enum Surface {
    /// The copy of the scene being blurred.
    Source,
    /// The scratch texture the passes alternate with.
    Intermediate,
    /// The frame being drawn.
    Target,
}

/// The axis a box-blur pass runs along.
#[derive(Debug, Clone, Copy, PartialEq, Eq, Structural)]
pub enum Axis {
    Horizontal,
    Vertical,
}

/// One directional box-blur pass.
#[derive(Debug, Clone, Copy, PartialEq, Eq, Structural)]
pub struct BlurPass {
    pub source: Surface,
    pub destination: Surface,
    pub axis: Axis,
    /// Whether the pass blends and clips rounded corners.
    pub clip_corners: bool,
}

/// Pass `i` of the blur: three box blurs, each a horizontal then a vertical
/// pass, alternating between the scene copy and the scratch texture; the
/// last pass writes the frame and alone clips rounded corners.
pub open spec fn blur_pass_at(i: int, rounded: bool) -> BlurPass {
    BlurPass {
        source: if i % 2 == 0 {
            Surface::Source
        } else {
            Surface::Intermediate
        },
        destination: if i % 2 == 0 {
            Surface::Intermediate
        } else if i == 5 {
            Surface::Target
        } else {
            Surface::Source
        },
        axis: if i % 2 == 0 {
            Axis::Horizontal
        } else {
            Axis::Vertical
        },
        clip_corners: i == 5 && rounded,
    }
}

/// The six passes that approximate a Gaussian blur by three box blurs;
/// `rounded` says whether the region has rounded corners.
pub fn blur_schedule(rounded: bool) -> (r: Vec<BlurPass>)
    ensures
        r@.len() == 6,
        forall|i: int| 0 <= i < 6 ==> #[trigger] r@[i] == blur_pass_at(i, rounded),
{
    let mut passes: Vec<BlurPass> = Vec::new();
    let mut i: usize = 0;
    while i < 6
        invariant
            i <= 6,
            passes@.len() == i,
            forall|k: int| 0 <= k < i ==> #[trigger] passes@[k] == blur_pass_at(k, rounded),
        decreases 6 - i,
    {
        let even = i % 2 == 0;
        let pass = BlurPass {
            source: if even {
                Surface::Source
            } else {
                Surface::Intermediate
            },
            destination: if even {
                Surface::Intermediate
            } else if i == 5 {
                Surface::Target
            } else {
                Surface::Source
            },
            axis: if even {
                Axis::Horizontal
            } else {
                Axis::Vertical
            },
            clip_corners: i == 5 && rounded,
        };
        passes.push(pass);
        i = i + 1;
    }
    passes
}

/// The schedule is a chain: each pass reads what the one before wrote,
/// never reads and writes the same texture, and only the last writes the
/// frame.
pub proof fn lemma_blur_schedule_chains(rounded: bool)
    ensures
        forall|i: int|
            0 < i < 6 ==> (#[trigger] blur_pass_at(i, rounded)).source == blur_pass_at(
                i - 1,
                rounded,
            ).destination,
        forall|i: int|
            0 <= i < 6 ==> (#[trigger] blur_pass_at(i, rounded)).source != blur_pass_at(
                i,
                rounded,
            ).destination,
        forall|i: int|
            0 <= i < 6 ==> ((#[trigger] blur_pass_at(i, rounded)).destination == Surface::Target
                <==> i == 5),
        blur_pass_at(0, rounded).source == Surface::Source,
{
}

} // verus!
