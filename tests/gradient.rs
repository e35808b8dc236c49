use compositor::gradient::{
    pack, pack_pair, Color, ColorStop, ColorStops, Conic, Gradient, HalfStop, Linear, Radial,
    MAX_STOPS, SENTINEL_OFFSET_HALF,
};

fn color(r: f32, g: f32, b: f32, a: f32) -> Color {
    Color { r: r.to_bits(), g: g.to_bits(), b: b.to_bits(), a: a.to_bits() }
}

fn red() -> Color {
    color(1.0, 0.0, 0.0, 1.0)
}

fn offsets(stops: &ColorStops) -> Vec<f32> {
    stops.as_slice().iter().map(|s| f32::from_bits(s.offset)).collect()
}

#[test]
fn stops_end_up_sorted_whatever_the_insertion_order() {
    let stops = ColorStops::new()
        .add_stop(1.0f32.to_bits(), red())
        .add_stop(0.0f32.to_bits(), red())
        .add_stop(0.5f32.to_bits(), red())
        .add_stop(0.25f32.to_bits(), red());
    assert_eq!(offsets(&stops), vec![0.0, 0.25, 0.5, 1.0]);
}

#[test]
fn ninth_valid_stop_is_dropped() {
    let mut stops = ColorStops::new();
    for i in 0..8 {
        stops = stops.add_stop((i as f32 / 8.0).to_bits(), red());
    }
    assert_eq!(stops.len(), MAX_STOPS);
    let before = offsets(&stops);
    let after = stops.add_stop(0.3f32.to_bits(), color(0.0, 1.0, 0.0, 1.0));
    assert_eq!(after.len(), 8);
    assert_eq!(offsets(&after), before);
    assert!(after.as_slice().iter().all(|s| s.color == red()));
}

#[test]
fn out_of_range_offsets_are_ignored() {
    let base = ColorStops::new().add_stop(0.5f32.to_bits(), red());
    for bad in [f32::NAN, -0.1, 1.1, f32::INFINITY, f32::NEG_INFINITY] {
        let after = base.clone().add_stop(bad.to_bits(), red());
        assert_eq!(after.len(), 1);
        assert_eq!(offsets(&after), vec![0.5]);
    }
}

#[test]
fn bounds_of_the_range_are_accepted() {
    let stops = ColorStops::new()
        .add_stop(1.0f32.to_bits(), red())
        .add_stop(0.0f32.to_bits(), red());
    assert_eq!(offsets(&stops), vec![0.0, 1.0]);
}

#[test]
fn negative_zero_sorts_as_zero() {
    let stops = ColorStops::new()
        .add_stop(0.5f32.to_bits(), red())
        .add_stop((-0.0f32).to_bits(), red());
    assert_eq!(stops.as_slice()[0].offset, (-0.0f32).to_bits());
    assert_eq!(stops.len(), 2);
}

#[test]
fn equal_offset_goes_before_the_existing_stop() {
    let blue = color(0.0, 0.0, 1.0, 1.0);
    let stops = ColorStops::new()
        .add_stop(0.5f32.to_bits(), red())
        .add_stop(0.5f32.to_bits(), blue);
    assert_eq!(stops.as_slice()[0].color, blue);
    assert_eq!(stops.as_slice()[1].color, red());
}

#[test]
fn add_stops_adds_in_turn() {
    let list = vec![
        ColorStop { offset: 0.75f32.to_bits(), color: red() },
        ColorStop { offset: 2.0f32.to_bits(), color: red() },
        ColorStop { offset: 0.25f32.to_bits(), color: red() },
    ];
    let linear = Linear::new(0.0f32.to_bits()).add_stops(&list);
    assert_eq!(offsets(&linear.stops), vec![0.25, 0.75]);
}

#[test]
fn builders_keep_their_geometry() {
    let r = Radial::new(0.5f32.to_bits(), 0.25f32.to_bits(), 0.4f32.to_bits())
        .add_stop(0.0f32.to_bits(), red());
    assert_eq!(r.radius_x, 0.4f32.to_bits());
    assert_eq!(r.radius_y, 0.4f32.to_bits());
    assert_eq!(r.center_y, 0.25f32.to_bits());
    let e = Radial::elliptical(0, 0, 1.0f32.to_bits(), 0.5f32.to_bits());
    assert_eq!(e.radius_y, 0.5f32.to_bits());
    let c = Conic::new(1, 2, 3.0f32.to_bits()).add_stop(0.5f32.to_bits(), red());
    assert_eq!(c.angle, 3.0f32.to_bits());
    assert_eq!(c.stops.len(), 1);
}

#[test]
fn gradient_tags() {
    assert_eq!(Gradient::Linear(Linear::new(0)).type_tag(), 0);
    assert_eq!(Gradient::Radial(Radial::new(0, 0, 0)).type_tag(), 1);
    assert_eq!(Gradient::Conic(Conic::new(0, 0, 0)).type_tag(), 2);
    let g = Gradient::Conic(Conic::new(0, 0, 0).add_stop(0, red()));
    assert_eq!(g.stops().len(), 1);
}

#[test]
fn pack_pair_puts_first_value_high() {
    assert_eq!(pack_pair(0x1234, 0xABCD), 0x1234_ABCD);
    assert_eq!(pack_pair(0, 0xFFFF), 0x0000_FFFF);
    assert_eq!(pack_pair(0xFFFF, 0), 0xFFFF_0000);
}

fn three_halves() -> Vec<HalfStop> {
    vec![
        HalfStop { offset: 0x0000, r: 0x3C00, g: 0, b: 0, a: 0x3C00 },
        HalfStop { offset: 0x3800, r: 0, g: 0x3C00, b: 0, a: 0x3C00 },
        HalfStop { offset: 0x3C00, r: 0, g: 0, b: 0x3C00, a: 0x3C00 },
    ]
}

#[test]
fn unused_slots_hold_the_sentinel_offset() {
    let p = pack(0, &three_halves(), [0; 4]);
    assert_eq!(p.offsets, [0x0000_3800, 0x3C00_4000, 0x4000_4000, 0x4000_4000]);
    for word in &p.offsets[2..] {
        assert_eq!((word >> 16) as u16, SENTINEL_OFFSET_HALF);
        assert_eq!((word & 0xFFFF) as u16, SENTINEL_OFFSET_HALF);
    }
    assert_ne!(SENTINEL_OFFSET_HALF, 0x3C00);
    for slot in 3..8 {
        assert_eq!(p.colors[slot], [0, 0]);
    }
}

#[test]
fn pack_lays_out_colors_two_channels_a_word() {
    let p = pack(0, &three_halves(), [0; 4]);
    assert_eq!(p.colors[0], [0x3C00_0000, 0x0000_3C00]);
    assert_eq!(p.colors[1], [0x0000_3C00, 0x0000_3C00]);
    assert_eq!(p.colors[2], [0x0000_0000, 0x3C00_3C00]);
    assert_eq!(p.padding, [0; 3]);
}

#[test]
fn packing_twice_gives_identical_records() {
    let dir = [0.0f32.to_bits(), 50.0f32.to_bits(), 100.0f32.to_bits(), 50.0f32.to_bits()];
    let a = pack(1, &three_halves(), dir);
    let b = pack(1, &three_halves(), dir);
    assert_eq!(a.colors, b.colors);
    assert_eq!(a.offsets, b.offsets);
    assert_eq!(a.direction, b.direction);
    assert_eq!(a.gradient_type, b.gradient_type);
    assert_eq!(a.padding, b.padding);
}

#[test]
fn linear_red_green_blue_record_carries_its_direction() {
    let g = Gradient::Linear(
        Linear::new(0.0f32.to_bits())
            .add_stop(0.0f32.to_bits(), red())
            .add_stop(0.5f32.to_bits(), color(0.0, 1.0, 0.0, 1.0))
            .add_stop(1.0f32.to_bits(), color(0.0, 0.0, 1.0, 1.0)),
    );
    assert_eq!(g.stops().len(), 3);
    let dir = [0.0f32.to_bits(), 50.0f32.to_bits(), 100.0f32.to_bits(), 50.0f32.to_bits()];
    let first = pack(g.type_tag(), &three_halves(), dir);
    let second = pack(g.type_tag(), &three_halves(), dir);
    assert_eq!(first.gradient_type, 0);
    assert_eq!(first.direction, dir);
    assert_eq!(first.direction, second.direction);
}

#[test]
fn empty_gradient_packs_all_sentinels() {
    let p = pack(2, &Vec::new(), [1, 2, 3, 0]);
    assert_eq!(p.offsets, [0x4000_4000; 4]);
    assert_eq!(p.gradient_type, 2);
    assert_eq!(p.direction, [1, 2, 3, 0]);
}

#[test]
fn full_gradient_packs_no_sentinel() {
    let halves: Vec<HalfStop> = (0..8u16)
        .map(|i| HalfStop { offset: i * 0x0400, r: i, g: 0, b: 0, a: 0 })
        .collect();
    let p = pack(0, &halves, [0; 4]);
    assert_eq!(p.offsets[3], (0x1800 << 16) | 0x1C00);
    assert_eq!(p.colors[7], [7 << 16, 0]);
}
