//! Compositing core of a retained-mode GUI renderer: gradients and their
//! packed shader records, the layer and opacity stacks, the bookkeeping of
//! backdrop-blur and gradient-fade regions that a frame replays, the plan of
//! a frame's passes, window requests and text selection.
pub mod blur;
pub mod fade;
pub mod frame;
pub mod gradient;
pub mod layers;
pub mod selection;
pub mod window;
