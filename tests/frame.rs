use compositor::blur;
use compositor::fade;
use compositor::frame::{
    plan_fade_pass, plan_frame, plan_main_pass, plan_post_blur_pass, Frame, LayerStep, Offsets, Stage, Style,
};
use compositor::layers::{Layer, LayerStack, OpacityStack};

fn layer(quads: usize, text_groups: usize, images: usize) -> Layer<()> {
    Layer { bounds: (), quads, meshes: 0, text_groups, text_pending: false, images, primitives: 0 }
}

fn five_layers() -> Vec<Layer<()>> {
    vec![layer(1, 2, 0), layer(1, 1, 1), layer(2, 3, 1), layer(0, 1, 1), layer(1, 0, 1)]
}

#[test]
fn opacity_scopes_multiply_and_unwind() {
    let mut s = OpacityStack::new(1.0f32);
    let next = s.current_opacity() * 0.5f32.clamp(0.0, 1.0);
    s.start_opacity(next);
    let next = s.current_opacity() * 0.5f32.clamp(0.0, 1.0);
    s.start_opacity(next);
    assert_eq!(s.current_opacity(), 0.25);
    s.end_opacity();
    assert_eq!(s.current_opacity(), 0.5);
    s.end_opacity();
    assert_eq!(s.current_opacity(), 1.0);
    s.end_opacity();
    assert_eq!(s.current_opacity(), 1.0);
    assert_eq!(s.depth(), 1);
    s.start_opacity(0.3);
    s.reset(1.0);
    assert_eq!(s.depth(), 1);
}

#[test]
fn push_then_pop_clip_merges_to_the_same_count() {
    let mut plain: LayerStack<u8, ()> = LayerStack::new(0, ());
    plain.add_quad();
    let mut nested: LayerStack<u8, ()> = LayerStack::new(0, ());
    nested.add_quad();
    nested.push_clip(1);
    assert_eq!(nested.active_count(), 2);
    nested.pop_clip();
    assert_eq!(nested.current_index(), 0);
    plain.merge();
    nested.merge();
    assert_eq!(nested.active_count(), plain.active_count());
    assert_eq!(nested.active_count(), 1);
}

#[test]
fn clip_layers_receive_drawing_until_popped() {
    let mut s: LayerStack<u8, ()> = LayerStack::new(0, ());
    s.push_clip(5);
    s.add_image();
    s.add_text();
    s.add_text();
    s.pop_clip();
    s.add_quad();
    let layers = s.as_slice();
    assert_eq!(layers[1].bounds, 5);
    assert_eq!(layers[1].images, 1);
    assert_eq!(layers[1].text_groups, 1);
    assert!(!layers[1].text_pending);
    assert_eq!(layers[0].quads, 1);
}

#[test]
fn flush_closes_pending_text_into_a_group() {
    let mut s: LayerStack<u8, ()> = LayerStack::new(0, ());
    s.add_text();
    assert!(s.as_slice()[0].text_pending);
    s.flush();
    s.flush();
    assert_eq!(s.as_slice()[0].text_groups, 1);
    s.add_text();
    s.flush();
    assert_eq!(s.as_slice()[0].text_groups, 2);
}

#[test]
fn merge_keeps_one_layer_when_all_are_blank() {
    let mut s: LayerStack<u8, ()> = LayerStack::new(3, ());
    s.push_clip(4);
    s.push_clip(5);
    s.merge();
    assert_eq!(s.active_count(), 1);
    assert_eq!(s.as_slice()[0].bounds, 3);
}

#[test]
fn merge_drops_blank_layers_in_order() {
    let mut s: LayerStack<u8, ()> = LayerStack::new(0, ());
    s.push_clip(1);
    s.add_mesh();
    s.pop_clip();
    s.push_clip(2);
    s.pop_clip();
    s.push_clip(3);
    s.add_primitive();
    s.pop_clip();
    s.merge();
    let bounds: Vec<u8> = s.as_slice().iter().map(|l| l.bounds).collect();
    assert_eq!(bounds, vec![1, 3]);
}

#[test]
fn transformations_nest() {
    let mut s: LayerStack<u8, i32> = LayerStack::new(0, 1);
    s.push_transformation(2);
    s.push_transformation(6);
    assert_eq!(s.transformation(), 6);
    s.pop_transformation();
    assert_eq!(s.transformation(), 2);
    s.add_quad();
    s.reset(9);
    assert_eq!(s.active_count(), 1);
    assert_eq!(s.transformation(), 1);
    assert_eq!(s.as_slice()[0].bounds, 9);
    assert_eq!(s.as_slice()[0].quads, 0);
}

#[test]
fn main_pass_skips_post_blur_layers_but_counts_them() {
    let layers = five_layers();
    let visible = vec![true; 5];
    let fades: fade::State<()> = fade::State::new();
    let mut blurs: blur::State<(), ()> = blur::State::new();
    blurs.start_post_blur((), 2);
    blurs.end_post_blur(4);
    let main = plan_main_pass(&layers, &visible, &fades, &blurs);
    let drawn: Vec<usize> = (0..5).filter(|&i| main[i].draw).collect();
    assert_eq!(drawn, vec![0, 1, 4]);
    let offsets: Vec<(usize, usize, usize)> =
        main.iter().map(|s| (s.offsets.quad, s.offsets.text, s.offsets.image)).collect();
    assert_eq!(offsets, vec![(0, 0, 0), (1, 2, 0), (2, 3, 1), (3, 6, 2), (3, 7, 3)]);
    let replay = plan_post_blur_pass(&layers, &visible, blurs.post_blur_content());
    let replayed: Vec<usize> = (0..5).filter(|&i| replay[i].draw).collect();
    assert_eq!(replayed, vec![2, 3]);
    assert_eq!(replay[2].offsets, main[2].offsets);
    assert_eq!(replay[3].offsets, Offsets { quad: 3, text: 6, image: 2 });
}

#[test]
fn main_pass_skips_fade_layers() {
    let layers = five_layers();
    let visible = vec![true, true, true, false, true];
    let mut fades: fade::State<()> = fade::State::new();
    fades.start((), 1);
    fades.end(2);
    let blurs: blur::State<(), ()> = blur::State::new();
    let main = plan_main_pass(&layers, &visible, &fades, &blurs);
    let drawn: Vec<bool> = main.iter().map(|s| s.draw).collect();
    assert_eq!(drawn, vec![true, false, true, false, true]);
    assert_eq!(main[4].offsets, Offsets { quad: 3, text: 6, image: 2 });
    let replay = plan_fade_pass(&layers, &visible, 1, 2);
    let drawn: Vec<bool> = replay.iter().map(|s| s.draw).collect();
    assert_eq!(drawn, vec![false, true, false, false, false]);
    assert_eq!(replay[1], LayerStep { draw: true, offsets: Offsets { quad: 1, text: 2, image: 0 } });
}

#[test]
fn fade_pass_clamps_its_range() {
    let layers = five_layers();
    let visible = vec![true; 5];
    let replay = plan_fade_pass(&layers, &visible, 3, 99);
    let drawn: Vec<bool> = replay.iter().map(|s| s.draw).collect();
    assert_eq!(drawn, vec![false, false, false, true, true]);
    let none = plan_fade_pass(&layers, &visible, 4, 2);
    assert!(none.iter().all(|s| !s.draw));
    let beyond = plan_fade_pass(&layers, &visible, 7, 9);
    assert!(beyond.iter().all(|s| !s.draw));
}

#[test]
fn frame_records_regions_at_layer_counts() {
    let mut f: Frame<f32, u8, u16, u8, ()> = Frame::new(0, (), 1.0);
    f.layers.add_quad();
    f.draw_backdrop_blur(12);
    assert_eq!(f.blurs.regions[0].layer_index, 1);
    f.start_post_blur_layer(7, 8);
    assert_eq!(f.layers.active_count(), 2);
    assert_eq!(f.layers.as_slice()[1].bounds, 8);
    f.layers.add_quad();
    f.end_post_blur_layer();
    let c = f.blurs.post_blur_content();
    assert_eq!((c[0].bounds, c[0].start_layer, c[0].end_layer), (7, 1, Some(2)));
    f.start_gradient_fade(3);
    f.layers.push_clip(1);
    f.layers.add_text();
    f.layers.pop_clip();
    f.end_gradient_fade();
    let r = &f.fades.completed[0];
    assert_eq!((r.fade, r.start_layer, r.end_layer), (3, 2, 3));
    f.prepare();
    assert_eq!(f.layers.active_count(), 3);
    f.reset(0, 1.0);
    assert_eq!(f.layers.active_count(), 1);
    assert!(f.fades.completed.is_empty());
    assert!(!f.blurs.has_regions());
}

#[test]
fn prepare_merges_when_no_region_holds_indices() {
    let mut f: Frame<f32, u8, u16, u8, ()> = Frame::new(0, (), 1.0);
    f.layers.push_clip(1);
    f.layers.pop_clip();
    f.layers.push_clip(2);
    f.layers.add_quad();
    f.layers.pop_clip();
    assert_eq!(f.layers.active_count(), 3);
    f.prepare();
    assert_eq!(f.layers.active_count(), 1);
    assert_eq!(f.layers.as_slice()[0].bounds, 2);
}

#[test]
fn ending_an_unstarted_fade_only_flushes() {
    let mut f: Frame<f32, u8, u16, u8, ()> = Frame::new(0, (), 1.0);
    f.layers.add_text();
    f.end_gradient_fade();
    assert!(f.fades.completed.is_empty());
    assert_eq!(f.layers.as_slice()[0].text_groups, 1);
}

#[test]
fn default_style_has_opaque_black_text() {
    let s = Style::default();
    assert_eq!(f32::from_bits(s.text_color.a), 1.0);
    assert_eq!(f32::from_bits(s.text_color.r), 0.0);
}

#[test]
fn frame_without_effects_prepares_renders_and_trims() {
    assert_eq!(plan_frame(true, 0, false, 0), vec![Stage::Prepare, Stage::RenderMain, Stage::Trim]);
}

#[test]
fn blurs_copy_the_target_when_they_can() {
    assert_eq!(
        plan_frame(true, 2, true, 1),
        vec![
            Stage::Prepare,
            Stage::RenderMain,
            Stage::CopyScene,
            Stage::Blur(0),
            Stage::Blur(1),
            Stage::ReplayPostBlur,
            Stage::Fade(0),
            Stage::Trim,
        ]
    );
}

#[test]
fn blurs_render_offscreen_first_when_the_target_cannot_be_copied() {
    assert_eq!(
        plan_frame(false, 1, false, 2),
        vec![
            Stage::Prepare,
            Stage::RenderOffscreen,
            Stage::BlitOffscreen,
            Stage::Blur(0),
            Stage::Fade(0),
            Stage::Fade(1),
            Stage::Trim,
        ]
    );
    assert_eq!(plan_frame(false, 0, true, 0), vec![Stage::Prepare, Stage::RenderMain, Stage::ReplayPostBlur, Stage::Trim]);
}

#[test]
fn post_blur_layer_receives_the_drawing_until_closed() {
    let mut f: Frame<f32, u8, u16, u8, ()> = Frame::new(0, (), 1.0);
    f.layers.add_text();
    f.start_post_blur_layer(7, 8);
    assert_eq!(f.layers.current_index(), 1);
    assert_eq!(f.layers.open_clips(), 1);
    assert_eq!(f.blurs.current_post_blur, Some((7, 1)));
    f.layers.add_text();
    f.end_post_blur_layer();
    assert_eq!(f.layers.current_index(), 0);
    assert_eq!(f.layers.open_clips(), 0);
    assert_eq!(f.layers.as_slice()[1].text_groups, 1);
    assert!(!f.layers.as_slice()[1].text_pending);
    assert!(f.layers.as_slice()[0].text_pending);
}

#[test]
fn recording_a_region_flushes_the_current_layer() {
    let mut f: Frame<f32, u8, u16, u8, ()> = Frame::new(0, (), 1.0);
    f.layers.add_text();
    f.draw_backdrop_blur(1);
    assert_eq!(f.layers.as_slice()[0].text_groups, 1);
    f.layers.add_text();
    f.start_gradient_fade(2);
    assert_eq!(f.layers.as_slice()[0].text_groups, 2);
    assert_eq!(f.layers.current_index(), 0);
}

#[test]
fn reset_leaves_one_empty_layer_with_the_new_bounds() {
    let mut f: Frame<f32, u8, u16, u8, ()> = Frame::new(0, (), 1.0);
    f.layers.add_quad();
    f.start_post_blur_layer(1, 2);
    f.opacity.start_opacity(0.5);
    f.reset(6, 1.0);
    assert_eq!(f.layers.active_count(), 1);
    assert_eq!(f.layers.as_slice()[0].bounds, 6);
    assert_eq!(f.layers.as_slice()[0].quads, 0);
    assert_eq!(f.layers.open_clips(), 0);
    assert_eq!(f.opacity.current_opacity(), 1.0);
    assert!(f.blurs.current_post_blur.is_none());
}
