use compositor::blur::{blur_schedule, Axis, Extent, PostBlurContent, Surface, TextureCache};
use compositor::fade::{FadeDirection, FadeEdge, GradientFadeRegion};
use compositor::{blur, fade};

#[test]
fn fade_start_then_end_records_one_region() {
    let mut s: fade::State<u8> = fade::State::new();
    s.start(7, 3);
    assert!(s.is_active());
    assert_eq!(s.current(), Some(7));
    let r = s.end(5).expect("a region");
    assert_eq!((r.fade, r.start_layer, r.end_layer), (7, 3, 5));
    assert!(!s.is_active());
    let all: Vec<GradientFadeRegion<u8>> = s.take_regions();
    assert_eq!(all.len(), 1);
    assert_eq!((all[0].start_layer, all[0].end_layer), (3, 5));
    assert!(s.take_regions().is_empty());
}

#[test]
fn fade_end_without_start_gives_nothing() {
    let mut s: fade::State<u8> = fade::State::new();
    assert!(s.end(4).is_none());
    assert!(s.take_regions().is_empty());
}

#[test]
fn second_start_replaces_the_open_fade() {
    let mut s: fade::State<u8> = fade::State::new();
    s.start(1, 0);
    s.start(2, 4);
    let r = s.end(6).unwrap();
    assert_eq!((r.fade, r.start_layer, r.end_layer), (2, 4, 6));
}

#[test]
fn fade_regions_cover_half_open_ranges() {
    let mut s: fade::State<u8> = fade::State::new();
    s.start(1, 2);
    s.end(4);
    s.start(9, 6);
    s.end(7);
    assert!(!s.is_layer_in_fade_region(1));
    assert!(s.is_layer_in_fade_region(2));
    assert!(s.is_layer_in_fade_region(3));
    assert!(!s.is_layer_in_fade_region(4));
    assert!(s.is_layer_in_fade_region(6));
    assert_eq!(s.get_region_for_layer(6).map(|r| r.fade), Some(9));
    assert!(s.get_region_for_layer(5).is_none());
    s.clear();
    assert!(!s.is_layer_in_fade_region(2));
}

#[test]
fn empty_fade_region_covers_nothing() {
    let mut s: fade::State<u8> = fade::State::new();
    s.start(1, 3);
    s.end(3);
    assert!(!s.is_layer_in_fade_region(3));
}

#[test]
fn direction_codes() {
    assert_eq!(FadeDirection::from_code(0), FadeDirection::TopToBottom);
    assert_eq!(FadeDirection::from_code(1), FadeDirection::BottomToTop);
    assert_eq!(FadeDirection::from_code(2), FadeDirection::LeftToRight);
    assert_eq!(FadeDirection::from_code(3), FadeDirection::RightToLeft);
    assert_eq!(FadeDirection::from_code(4), FadeDirection::VerticalBoth);
    assert_eq!(FadeDirection::from_code(5), FadeDirection::HorizontalBoth);
    assert_eq!(FadeDirection::from_code(6), FadeDirection::TopToBottom);
    assert_eq!(FadeDirection::from_code(255), FadeDirection::TopToBottom);
    for code in 0..=5u8 {
        assert_eq!(FadeDirection::from_code(code).code(), code);
    }
    assert_eq!(FadeDirection::top_to_bottom(), FadeDirection::TopToBottom);
}

#[test]
fn fade_edges_pick_directions() {
    assert_eq!(FadeEdge::bottom(), FadeEdge::Bottom);
    assert_eq!(FadeEdge::Bottom.direction().code(), 0);
    assert_eq!(FadeEdge::Top.direction().code(), 1);
    assert_eq!(FadeEdge::Right.direction().code(), 2);
    assert_eq!(FadeEdge::Left.direction().code(), 3);
    assert_eq!(FadeEdge::Vertical.direction().code(), 4);
    assert_eq!(FadeEdge::Horizontal.direction().code(), 5);
}

#[test]
fn blur_regions_are_taken_once() {
    let mut s: blur::State<u32, ()> = blur::State::new();
    assert!(!s.has_regions());
    s.add_region(5, 2);
    s.add_region(6, 4);
    assert!(s.has_regions());
    let taken = s.take_regions();
    assert_eq!(taken.iter().map(|r| (r.blur, r.layer_index)).collect::<Vec<_>>(), vec![(5, 2), (6, 4)]);
    assert!(!s.has_regions());
    s.add_region(1, 1);
    s.clear();
    assert!(!s.has_regions());
}

#[test]
fn post_blur_range_is_recorded_on_end() {
    let mut s: blur::State<u32, u8> = blur::State::new();
    s.start_post_blur(9, 2);
    assert!(!s.has_post_blur_content());
    assert!(s.is_layer_in_post_blur(2));
    assert!(s.is_layer_in_post_blur(100));
    assert!(!s.is_layer_in_post_blur(1));
    s.end_post_blur(4);
    assert!(s.has_post_blur_content());
    let c: &[PostBlurContent<u8>] = s.post_blur_content();
    assert_eq!((c[0].bounds, c[0].start_layer, c[0].end_layer), (9, 2, Some(4)));
    assert!(s.is_layer_in_post_blur(3));
    assert!(!s.is_layer_in_post_blur(4));
    let taken = s.take_post_blur_content();
    assert_eq!(taken.len(), 1);
    assert!(!s.has_post_blur_content());
}

#[test]
fn post_blur_end_without_start_records_nothing() {
    let mut s: blur::State<u32, u8> = blur::State::new();
    s.end_post_blur(3);
    assert!(!s.has_post_blur_content());
}

#[test]
fn texture_cache_reuses_only_exact_sizes() {
    let mut cache: TextureCache<&str> = TextureCache::new();
    let size = Extent { width: 800, height: 600 };
    assert!(cache.get_intermediate(size));
    assert!(cache.get_scene_copy(size));
    assert!(cache.get_scene_copy_texture().is_none());
    cache.set_intermediate("a", size);
    cache.set_scene_copy("b", size);
    assert!(!cache.get_intermediate(size));
    assert_eq!(cache.get_blur_textures(size), (false, false));
    assert_eq!(cache.get_scene_copy_texture(), Some(&"b"));
    let wider = Extent { width: 801, height: 600 };
    assert!(cache.get_intermediate(wider));
    assert_eq!(cache.get_blur_textures(Extent { width: 800, height: 599 }), (true, true));
    assert_eq!(cache.get_blur_textures(Extent { width: 400, height: 300 }), (true, true));
}

#[test]
fn blur_runs_six_ping_pong_passes() {
    let passes = blur_schedule(false);
    assert_eq!(passes.len(), 6);
    let axes: Vec<Axis> = passes.iter().map(|p| p.axis).collect();
    assert_eq!(
        axes,
        vec![Axis::Horizontal, Axis::Vertical, Axis::Horizontal, Axis::Vertical, Axis::Horizontal, Axis::Vertical]
    );
    for i in 1..6 {
        assert_eq!(passes[i].source, passes[i - 1].destination);
    }
    assert_eq!(passes[0].source, Surface::Source);
    assert_eq!(passes[5].destination, Surface::Target);
    assert!(passes.iter().all(|p| !p.clip_corners));
    let rounded = blur_schedule(true);
    assert!(rounded[5].clip_corners);
    assert!(rounded[..5].iter().all(|p| !p.clip_corners));
}
