//! Gradient-fade regions: half-open ranges of layer indices whose content is
//! drawn offscreen and composited back through a fade.
use vstd::prelude::*;

verus! {

/// Direction of a gradient fade.
#[derive(Debug, Clone, Copy, PartialEq, Eq, Structural)]
pub enum FadeDirection {
    /// Content fades out towards the bottom.
    TopToBottom,
    /// Content fades out towards the top.
    BottomToTop,
    /// Content fades out towards the right.
    LeftToRight,
    /// Content fades out towards the left.
    RightToLeft,
    /// Content fades out at the top and at the bottom.
    VerticalBoth,
    /// Content fades out at the left and at the right.
    HorizontalBoth,
}

/// The direction that a wire code names; an unknown code means top to bottom.
pub open spec fn direction_of_code(code: u8) -> FadeDirection {
    if code == 1 {
        FadeDirection::BottomToTop
    } else if code == 2 {
        FadeDirection::LeftToRight
    } else if code == 3 {
        FadeDirection::RightToLeft
    } else if code == 4 {
        FadeDirection::VerticalBoth
    } else if code == 5 {
        FadeDirection::HorizontalBoth
    } else {
        FadeDirection::TopToBottom
    }
}

impl FadeDirection {
    /// The default direction: top to bottom.
    pub fn top_to_bottom() -> (r: FadeDirection)
        ensures
            r == FadeDirection::TopToBottom,
    {
        FadeDirection::TopToBottom
    }

    /// The direction for a wire code `0..=5`; any other code falls back to
    /// top to bottom.
    pub fn from_code(code: u8) -> (r: FadeDirection)
        ensures
            r == direction_of_code(code),
    {
        match code {
            1 => FadeDirection::BottomToTop,
            2 => FadeDirection::LeftToRight,
            3 => FadeDirection::RightToLeft,
            4 => FadeDirection::VerticalBoth,
            5 => FadeDirection::HorizontalBoth,
            _ => FadeDirection::TopToBottom,
        }
    }

    /// The wire code of the direction.
    pub fn code(&self) -> (r: u8)
        ensures
            r <= 5,
            direction_of_code(r) == *self,
    {
        match self {
            FadeDirection::TopToBottom => 0,
            FadeDirection::BottomToTop => 1,
            FadeDirection::LeftToRight => 2,
            FadeDirection::RightToLeft => 3,
            FadeDirection::VerticalBoth => 4,
            FadeDirection::HorizontalBoth => 5,
        }
    }
}

/// The edge a fading widget fades out at.
#[derive(Debug, Clone, Copy, PartialEq, Eq, Structural)]
pub enum FadeEdge {
    Top,
    Bottom,
    Left,
    Right,
    Vertical,
    Horizontal,
}

impl FadeEdge {
    /// The default edge: the bottom.
    pub fn bottom() -> (r: FadeEdge)
        ensures
            r == FadeEdge::Bottom,
    {
        FadeEdge::Bottom
    }

    /// The fade direction that fades content out at this edge.
    pub fn direction(&self) -> (r: FadeDirection)
        ensures
            r == match *self {
                FadeEdge::Bottom => FadeDirection::TopToBottom,
                FadeEdge::Top => FadeDirection::BottomToTop,
                FadeEdge::Right => FadeDirection::LeftToRight,
                FadeEdge::Left => FadeDirection::RightToLeft,
                FadeEdge::Vertical => FadeDirection::VerticalBoth,
                FadeEdge::Horizontal => FadeDirection::HorizontalBoth,
            },
    {
        match self {
            FadeEdge::Bottom => FadeDirection::TopToBottom,
            FadeEdge::Top => FadeDirection::BottomToTop,
            FadeEdge::Right => FadeDirection::LeftToRight,
            FadeEdge::Left => FadeDirection::RightToLeft,
            FadeEdge::Vertical => FadeDirection::VerticalBoth,
            FadeEdge::Horizontal => FadeDirection::HorizontalBoth,
        }
    }
}

/// A finished fade: its configuration and the layers `start_layer..end_layer`
/// it covers.
#[derive(Debug, Clone, Copy)]
pub struct GradientFadeRegion<F> {
    pub fade: F,
    pub start_layer: usize,
    pub end_layer: usize,
}

/// A fade that was started and not yet ended.
#[derive(Debug, Clone, Copy)]
pub struct ActiveFade<F> {
    pub fade: F,
    pub start_layer: usize,
}

/// Whether `layer` lies in the half-open range of `region`.
pub open spec fn region_covers<F>(region: GradientFadeRegion<F>, layer: int) -> bool {
    region.start_layer <= layer < region.end_layer
}

/// Whether any of `regions` covers `layer`.
pub open spec fn covered_by_any<F>(regions: Seq<GradientFadeRegion<F>>, layer: int) -> bool {
    exists|i: int| 0 <= i < regions.len() && region_covers(#[trigger] regions[i], layer)
}

/// The fades of one frame: those finished, in the order they ended, and the
/// one open now, if any. Fades do not nest: starting one while another is
/// open replaces the open one.
pub struct State<F> {
    pub completed: Vec<GradientFadeRegion<F>>,
    pub active: Option<ActiveFade<F>>,
}

impl<F: Copy> State<F> {
    /// No fade recorded and none open.
    pub fn new() -> (r: State<F>)
        ensures
            r.completed@.len() == 0,
            r.active.is_none(),
    {
        State { completed: Vec::new(), active: None }
    }

    /// Whether a fade is open.
    pub fn is_active(&self) -> (r: bool)
        ensures
            r == self.active.is_some(),
    {
        self.active.is_some()
    }

    /// Opens a fade whose content starts at layer `current_layer_count`.
    pub fn start(&mut self, fade: F, current_layer_count: usize)
        ensures
            final(self).completed@ == old(self).completed@,
            final(self).active == Some(ActiveFade { fade, start_layer: current_layer_count }),
    {
        self.active = Some(ActiveFade { fade, start_layer: current_layer_count });
    }

    /// The configuration of the open fade, if any.
    pub fn current(&self) -> (r: Option<F>)
        ensures
            r == match self.active {
                Some(a) => Some(a.fade),
                None => None::<F>,
            },
    {
        match &self.active {
            Some(a) => Some(a.fade),
            None => None,
        }
    }

    /// Closes the open fade at layer `current_layer_count`, records its
    /// region and returns it. Without an open fade nothing changes and the
    /// result is `None`.
    pub fn end(&mut self, current_layer_count: usize) -> (r: Option<GradientFadeRegion<F>>)
        ensures
            final(self).active.is_none(),
            match old(self).active {
                Some(a) => {
                    &&& r == Some(
                        GradientFadeRegion {
                            fade: a.fade,
                            start_layer: a.start_layer,
                            end_layer: current_layer_count,
                        },
                    )
                    &&& final(self).completed@ == old(self).completed@.push(r.unwrap())
                },
                None => {
                    &&& r.is_none()
                    &&& final(self).completed@ == old(self).completed@
                },
            },
    {
        match self.active.take() {
            Some(a) => {
                let region = GradientFadeRegion {
                    fade: a.fade,
                    start_layer: a.start_layer,
                    end_layer: current_layer_count,
                };
                self.completed.push(region);
                Some(region)
            },
            None => None,
        }
    }

    /// Hands out the finished regions and forgets them.
    pub fn take_regions(&mut self) -> (r: Vec<GradientFadeRegion<F>>)
        ensures
            r@ == old(self).completed@,
            final(self).completed@.len() == 0,
            final(self).active == old(self).active,
    {
        let mut taken = Vec::new();
        std::mem::swap(&mut taken, &mut self.completed);
        taken
    }

    /// Whether a finished region covers `layer_index`.
    pub fn is_layer_in_fade_region(&self, layer_index: usize) -> (r: bool)
        ensures
            r == covered_by_any(self.completed@, layer_index as int),
    {
        let mut i: usize = 0;
        while i < self.completed.len()
            invariant
                i <= self.completed@.len(),
                forall|k: int|
                    0 <= k < i ==> !region_covers(#[trigger] self.completed@[k], layer_index as int),
            decreases self.completed@.len() - i,
        {
            let region = &self.completed[i];
            if region.start_layer <= layer_index && layer_index < region.end_layer {
                return true;
            }
            i = i + 1;
        }
        false
    }

    /// The first finished region that covers `layer_index`, if any.
    pub fn get_region_for_layer(&self, layer_index: usize) -> (r: Option<GradientFadeRegion<F>>)
        ensures
            match r {
                Some(region) => exists|i: int|
                    0 <= i < self.completed@.len() && self.completed@[i] == region && region_covers(
                        region,
                        layer_index as int,
                    ) && forall|k: int|
                        0 <= k < i ==> !region_covers(
                            #[trigger] self.completed@[k],
                            layer_index as int,
                        ),
                None => !covered_by_any(self.completed@, layer_index as int),
            },
    {
        let mut i: usize = 0;
        while i < self.completed.len()
            invariant
                i <= self.completed@.len(),
                forall|k: int|
                    0 <= k < i ==> !region_covers(#[trigger] self.completed@[k], layer_index as int),
            decreases self.completed@.len() - i,
        {
            let region = self.completed[i];
            if region.start_layer <= layer_index && layer_index < region.end_layer {
                return Some(region);
            }
            i = i + 1;
        }
        None
    }

    /// Forgets every region and the open fade (at the start of a frame).
    pub fn clear(&mut self)
        ensures
            final(self).completed@.len() == 0,
            final(self).active.is_none(),
    {
        self.completed.clear();
        self.active = None;
    }
}

/// Starting a fade at `n` and ending it at `m` yields exactly the region
/// `n..m`, recorded once.
pub proof fn lemma_fade_round_trip<F>(
    s0: State<F>,
    s1: State<F>,
    s2: State<F>,
    fade: F,
    n: usize,
    m: usize,
    r: Option<GradientFadeRegion<F>>,
)
    requires
        s1.completed@ == s0.completed@,
        s1.active == Some(ActiveFade { fade, start_layer: n }),
        s2.active.is_none(),
        match s1.active {
            Some(a) => {
                &&& r == Some(
                    GradientFadeRegion { fade: a.fade, start_layer: a.start_layer, end_layer: m },
                )
                &&& s2.completed@ == s1.completed@.push(r.unwrap())
            },
            None => {
                &&& r.is_none()
                &&& s2.completed@ == s1.completed@
            },
        },
    ensures
        r == Some(GradientFadeRegion { fade, start_layer: n, end_layer: m }),
        s2.completed@ == s0.completed@.push(
            GradientFadeRegion { fade, start_layer: n, end_layer: m },
        ),
{
}

/// Ending when no fade is open yields no region and records nothing.
pub proof fn lemma_end_without_start<F>(
    s1: State<F>,
    s2: State<F>,
    r: Option<GradientFadeRegion<F>>,
)
    requires
        s1.active.is_none(),
        s2.active.is_none(),
        match s1.active {
            Some(a) => {
                &&& r.is_some()
                &&& s2.completed@ == s1.completed@.push(r.unwrap())
            },
            None => {
                &&& r.is_none()
                &&& s2.completed@ == s1.completed@
            },
        },
    ensures
        r.is_none(),
        s2.completed@ == s1.completed@,
{
}

} // verus!
