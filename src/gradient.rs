//! Gradient model: bounded, sorted color-stop lists and the packed record
//! that shaders read.
//!
//! Floating-point values (offsets, color channels, geometry) are carried as
//! their IEEE-754 single-precision bit patterns. The stop list only needs to
//! decide whether an offset lies in `0.0..=1.0` and to order offsets, and for
//! non-negative finite values the bit patterns order exactly like the values.
use vstd::prelude::*;

verus! {

/// Most stops a gradient holds.
pub const MAX_STOPS: usize = 8;

/// Bits of `1.0`.
pub const OFFSET_ONE_BITS: u32 = 0x3F80_0000;

/// Bits of `-0.0`, which lies within `0.0..=1.0` and compares equal to `0.0`.
pub const NEGATIVE_ZERO_BITS: u32 = 0x8000_0000;

/// Half-precision bits of `2.0`: the offset of every unused slot. It is
/// greater than any valid offset, so a shader loop can stop there.
pub const SENTINEL_OFFSET_HALF: u16 = 0x4000;

/// Half-precision bits of `1.0`, the largest valid offset.
pub const ONE_HALF_BITS: u16 = 0x3C00;

/// Whether `bits` encode a finite value within `0.0..=1.0`.
pub open spec fn offset_in_range(bits: u32) -> bool {
    bits <= OFFSET_ONE_BITS || bits == NEGATIVE_ZERO_BITS
}

/// The key that orders valid offsets as their values: `-0.0` sorts as `0.0`.
pub open spec fn offset_key(bits: u32) -> u32 {
    if bits == NEGATIVE_ZERO_BITS {
        0
    } else {
        bits
    }
}

/// A color as the bit patterns of its four channels.
#[derive(Debug, Clone, Copy, PartialEq, Eq, Structural)]
pub struct Color {
    pub r: u32,
    pub g: u32,
    pub b: u32,
    pub a: u32,
}

/// A color at a position along a gradient; `offset` is the bit pattern of a
/// value in `0.0..=1.0`.
#[derive(Debug, Clone, Copy, PartialEq, Eq, Structural)]
pub struct ColorStop {
    pub offset: u32,
    pub color: Color,
}

/// Whether the keys of `s` never decrease.
pub open spec fn sorted_by_offset(s: Seq<ColorStop>) -> bool {
    forall|i: int, j: int|
        0 <= i < j < s.len() ==> offset_key(#[trigger] s[i].offset) <= offset_key(
            #[trigger] s[j].offset,
        )
}

/// The first index at or after `i` whose key is at least `key` (or the length).
pub open spec fn first_at_least(s: Seq<ColorStop>, key: u32, i: int) -> int
    decreases s.len() - i,
{
    if i < 0 || i >= s.len() {
        s.len() as int
    } else if offset_key(s[i].offset) >= key {
        i
    } else {
        first_at_least(s, key, i + 1)
    }
}

/// Where a stop with `offset` goes: before every stop whose key is not smaller.
pub open spec fn insert_position(s: Seq<ColorStop>, offset: u32) -> int {
    first_at_least(s, offset_key(offset), 0)
}

/// The stop list after adding `(offset, color)`: an offset outside
/// `0.0..=1.0` and a stop beyond the eighth are dropped.
pub open spec fn with_stop(s: Seq<ColorStop>, offset: u32, color: Color) -> Seq<ColorStop> {
    if offset_in_range(offset) && s.len() < MAX_STOPS {
        s.insert(insert_position(s, offset), ColorStop { offset, color })
    } else {
        s
    }
}

/// The stop list after adding each of `stops` in turn.
pub open spec fn with_stops(s: Seq<ColorStop>, stops: Seq<ColorStop>) -> Seq<ColorStop>
    decreases stops.len(),
{
    if stops.len() == 0 {
        s
    } else {
        with_stops(
            with_stop(s, stops[0].offset, stops[0].color),
            stops.drop_first(),
        )
    }
}

/// The ordered, bounded list of stops of a gradient.
#[derive(Debug, Clone)]
pub struct ColorStops {
    stops: Vec<ColorStop>,
}

impl View for ColorStops {
    type V = Seq<ColorStop>;

    closed spec fn view(&self) -> Seq<ColorStop> {
        self.stops@
    }
}

proof fn lemma_first_at_least_bounds(s: Seq<ColorStop>, key: u32, i: int)
    requires
        0 <= i <= s.len(),
    ensures
        i <= first_at_least(s, key, i) <= s.len(),
        forall|j: int|
            i <= j < first_at_least(s, key, i) ==> offset_key(#[trigger] s[j].offset) < key,
        first_at_least(s, key, i) < s.len() ==> offset_key(s[first_at_least(s, key, i)].offset)
            >= key,
    decreases s.len() - i,
{
    if i < s.len() && offset_key(s[i].offset) < key {
        lemma_first_at_least_bounds(s, key, i + 1);
    }
}

/// Adding a stop keeps the list sorted, within range and within capacity.
proof fn lemma_with_stop_wf(s: Seq<ColorStop>, offset: u32, color: Color)
    requires
        sorted_by_offset(s),
        s.len() <= MAX_STOPS,
        forall|i: int| 0 <= i < s.len() ==> offset_in_range(#[trigger] s[i].offset),
    ensures
        sorted_by_offset(with_stop(s, offset, color)),
        with_stop(s, offset, color).len() <= MAX_STOPS,
        forall|i: int|
            0 <= i < with_stop(s, offset, color).len() ==> offset_in_range(
                #[trigger] with_stop(s, offset, color)[i].offset,
            ),
{
    if offset_in_range(offset) && s.len() < MAX_STOPS {
        let p = insert_position(s, offset);
        let k = offset_key(offset);
        lemma_first_at_least_bounds(s, k, 0);
        let t = with_stop(s, offset, color);
        assert(t == s.insert(p, ColorStop { offset, color }));
        assert forall|i: int, j: int| 0 <= i < j < t.len() implies offset_key(
            #[trigger] t[i].offset,
        ) <= offset_key(#[trigger] t[j].offset) by {
            if i < p && j == p {
                assert(t[i] == s[i]);
            } else if i == p && j > p {
                assert(t[j] == s[j - 1]);
                if p < s.len() {
                    assert(offset_key(s[p].offset) >= k);
                    if j - 1 > p {
                        assert(offset_key(s[p].offset) <= offset_key(s[j - 1].offset));
                    }
                }
            } else if i < p && j > p {
                assert(t[i] == s[i]);
                assert(t[j] == s[j - 1]);
            } else if i > p {
                assert(t[i] == s[i - 1]);
                assert(t[j] == s[j - 1]);
            } else {
                assert(t[i] == s[i]);
                assert(t[j] == s[j]);
            }
        }
    }
}

/// The sort key of an offset.
fn offset_key_exec(bits: u32) -> (r: u32)
    ensures
        r == offset_key(bits),
{
    if bits == NEGATIVE_ZERO_BITS {
        0
    } else {
        bits
    }
}

impl ColorStops {
    /// The list holds at most eight stops, each within `0.0..=1.0`, with
    /// offsets ascending.
    pub open spec fn wf(&self) -> bool {
        &&& self@.len() <= MAX_STOPS
        &&& sorted_by_offset(self@)
        &&& forall|i: int| 0 <= i < self@.len() ==> offset_in_range(#[trigger] self@[i].offset)
    }

    /// An empty list.
    pub fn new() -> (r: ColorStops)
        ensures
            r.wf(),
            r@.len() == 0,
    {
        ColorStops { stops: Vec::new() }
    }

    /// Adds a stop in offset order. An offset that is not a finite value in
    /// `0.0..=1.0` is ignored, and so is any stop after the eighth: the
    /// list is never reordered or overwritten, only extended.
    pub fn add_stop(self, offset: u32, color: Color) -> (r: ColorStops)
        requires
            self.wf(),
        ensures
            r.wf(),
            r@ == with_stop(self@, offset, color),
    {
        proof {
            lemma_with_stop_wf(self@, offset, color);
        }
        let mut stops = self.stops;
        let in_range = offset <= OFFSET_ONE_BITS || offset == NEGATIVE_ZERO_BITS;
        if in_range && stops.len() < MAX_STOPS {
            let key = offset_key_exec(offset);
            let mut index: usize = 0;
            while index < stops.len() && offset_key_exec(stops[index].offset) < key
                invariant
                    stops@ == self@,
                    index <= stops@.len(),
                    first_at_least(stops@, key, index as int) == first_at_least(stops@, key, 0),
                decreases stops@.len() - index,
            {
                index = index + 1;
            }
            stops.insert(index, ColorStop { offset, color });
        }
        ColorStops { stops }
    }

    /// Adds each stop of `stops` in turn, as `add_stop` does.
    pub fn add_stops(self, stops: &Vec<ColorStop>) -> (r: ColorStops)
        requires
            self.wf(),
        ensures
            r.wf(),
            r@ == with_stops(self@, stops@),
    {
        let mut acc = self;
        let mut i: usize = 0;
        proof {
            assert(stops@.subrange(0, stops@.len() as int) =~= stops@);
        }
        while i < stops.len()
            invariant
                acc.wf(),
                i <= stops@.len(),
                with_stops(acc@, stops@.subrange(i as int, stops@.len() as int)) == with_stops(
                    self@,
                    stops@,
                ),
            decreases stops@.len() - i,
        {
            let stop = stops[i];
            proof {
                let rest = stops@.subrange(i as int, stops@.len() as int);
                assert(rest[0] == stop);
                assert(rest.drop_first() =~= stops@.subrange(i + 1, stops@.len() as int));
            }
            acc = acc.add_stop(stop.offset, stop.color);
            i = i + 1;
        }
        proof {
            assert(stops@.subrange(i as int, stops@.len() as int).len() == 0);
        }
        acc
    }

    /// The stops, in ascending offset order.
    pub fn as_slice(&self) -> (r: &[ColorStop])
        ensures
            r@ == self@,
    {
        self.stops.as_slice()
    }

    /// How many stops the list holds.
    pub fn len(&self) -> (r: usize)
        ensures
            r == self@.len(),
    {
        self.stops.len()
    }
}

/// A gradient along a direction at an angle; `angle` holds the bits of the
/// angle in radians.
#[derive(Debug, Clone)]
pub struct Linear {
    pub angle: u32,
    pub stops: ColorStops,
}

impl Linear {
    /// A linear gradient at `angle`, without stops.
    pub fn new(angle: u32) -> (r: Linear)
        ensures
            r.angle == angle,
            r.stops.wf(),
            r.stops@.len() == 0,
    {
        Linear { angle, stops: ColorStops::new() }
    }

    /// Adds a stop as [`ColorStops::add_stop`] does.
    pub fn add_stop(self, offset: u32, color: Color) -> (r: Linear)
        requires
            self.stops.wf(),
        ensures
            r.angle == self.angle,
            r.stops.wf(),
            r.stops@ == with_stop(self.stops@, offset, color),
    {
        Linear { angle: self.angle, stops: self.stops.add_stop(offset, color) }
    }

    /// Adds each of `stops` in turn.
    pub fn add_stops(self, stops: &Vec<ColorStop>) -> (r: Linear)
        requires
            self.stops.wf(),
        ensures
            r.angle == self.angle,
            r.stops.wf(),
            r.stops@ == with_stops(self.stops@, stops@),
    {
        Linear { angle: self.angle, stops: self.stops.add_stops(stops) }
    }
}

/// A gradient radiating from a center; center and radii are ratios of the
/// bounds, held as bits.
#[derive(Debug, Clone)]
pub struct Radial {
    pub center_x: u32,
    pub center_y: u32,
    pub radius_x: u32,
    pub radius_y: u32,
    pub stops: ColorStops,
}

impl Radial {
    /// A circular gradient: both radii are `radius`.
    pub fn new(center_x: u32, center_y: u32, radius: u32) -> (r: Radial)
        ensures
            r.center_x == center_x,
            r.center_y == center_y,
            r.radius_x == radius,
            r.radius_y == radius,
            r.stops.wf(),
            r.stops@.len() == 0,
    {
        Radial { center_x, center_y, radius_x: radius, radius_y: radius, stops: ColorStops::new() }
    }

    /// An elliptical gradient with separate radii.
    pub fn elliptical(center_x: u32, center_y: u32, radius_x: u32, radius_y: u32) -> (r: Radial)
        ensures
            r.center_x == center_x,
            r.center_y == center_y,
            r.radius_x == radius_x,
            r.radius_y == radius_y,
            r.stops.wf(),
            r.stops@.len() == 0,
    {
        Radial { center_x, center_y, radius_x, radius_y, stops: ColorStops::new() }
    }

    /// Adds a stop as [`ColorStops::add_stop`] does.
    pub fn add_stop(self, offset: u32, color: Color) -> (r: Radial)
        requires
            self.stops.wf(),
        ensures
            r.center_x == self.center_x && r.center_y == self.center_y,
            r.radius_x == self.radius_x && r.radius_y == self.radius_y,
            r.stops.wf(),
            r.stops@ == with_stop(self.stops@, offset, color),
    {
        Radial {
            center_x: self.center_x,
            center_y: self.center_y,
            radius_x: self.radius_x,
            radius_y: self.radius_y,
            stops: self.stops.add_stop(offset, color),
        }
    }

    /// Adds each of `stops` in turn.
    pub fn add_stops(self, stops: &Vec<ColorStop>) -> (r: Radial)
        requires
            self.stops.wf(),
        ensures
            r.center_x == self.center_x && r.center_y == self.center_y,
            r.radius_x == self.radius_x && r.radius_y == self.radius_y,
            r.stops.wf(),
            r.stops@ == with_stops(self.stops@, stops@),
    {
        Radial {
            center_x: self.center_x,
            center_y: self.center_y,
            radius_x: self.radius_x,
            radius_y: self.radius_y,
            stops: self.stops.add_stops(stops),
        }
    }
}

/// A gradient sweeping around a center from a starting angle (bits of
/// radians); the center is a ratio of the bounds, held as bits.
#[derive(Debug, Clone)]
pub struct Conic {
    pub center_x: u32,
    pub center_y: u32,
    pub angle: u32,
    pub stops: ColorStops,
}

impl Conic {
    /// A conic gradient around the center, without stops.
    pub fn new(center_x: u32, center_y: u32, angle: u32) -> (r: Conic)
        ensures
            r.center_x == center_x,
            r.center_y == center_y,
            r.angle == angle,
            r.stops.wf(),
            r.stops@.len() == 0,
    {
        Conic { center_x, center_y, angle, stops: ColorStops::new() }
    }

    /// Adds a stop as [`ColorStops::add_stop`] does.
    pub fn add_stop(self, offset: u32, color: Color) -> (r: Conic)
        requires
            self.stops.wf(),
        ensures
            r.center_x == self.center_x && r.center_y == self.center_y,
            r.angle == self.angle,
            r.stops.wf(),
            r.stops@ == with_stop(self.stops@, offset, color),
    {
        Conic {
            center_x: self.center_x,
            center_y: self.center_y,
            angle: self.angle,
            stops: self.stops.add_stop(offset, color),
        }
    }

    /// Adds each of `stops` in turn.
    pub fn add_stops(self, stops: &Vec<ColorStop>) -> (r: Conic)
        requires
            self.stops.wf(),
        ensures
            r.center_x == self.center_x && r.center_y == self.center_y,
            r.angle == self.angle,
            r.stops.wf(),
            r.stops@ == with_stops(self.stops@, stops@),
    {
        Conic {
            center_x: self.center_x,
            center_y: self.center_y,
            angle: self.angle,
            stops: self.stops.add_stops(stops),
        }
    }
}

/// A fill whose color changes progressively.
#[derive(Debug, Clone)]
pub enum Gradient {
    Linear(Linear),
    Radial(Radial),
    Conic(Conic),
}

impl Gradient {
    /// The stop list of whichever kind this is.
    pub open spec fn stops_spec(&self) -> ColorStops {
        match self {
            Gradient::Linear(g) => g.stops,
            Gradient::Radial(g) => g.stops,
            Gradient::Conic(g) => g.stops,
        }
    }

    /// The tag a shader reads: 0 linear, 1 radial, 2 conic.
    pub open spec fn tag_spec(&self) -> u32 {
        match self {
            Gradient::Linear(_) => 0,
            Gradient::Radial(_) => 1,
            Gradient::Conic(_) => 2,
        }
    }

    /// The stops of the gradient.
    pub fn stops(&self) -> (r: &ColorStops)
        ensures
            *r == self.stops_spec(),
    {
        match self {
            Gradient::Linear(g) => &g.stops,
            Gradient::Radial(g) => &g.stops,
            Gradient::Conic(g) => &g.stops,
        }
    }

    /// The shader's tag for this kind of gradient.
    pub fn type_tag(&self) -> (r: u32)
        ensures
            r == self.tag_spec(),
    {
        match self {
            Gradient::Linear(_) => 0,
            Gradient::Radial(_) => 1,
            Gradient::Conic(_) => 2,
        }
    }
}

/// One stop in half precision: its offset and its color channels (after
/// conversion to the shader's color space), each as 16-bit float bits.
#[derive(Debug, Clone, Copy, PartialEq, Eq, Structural)]
pub struct HalfStop {
    pub offset: u16,
    pub r: u16,
    pub g: u16,
    pub b: u16,
    pub a: u16,
}

/// The record a shader reads for one gradient. Eight colors, two 16-bit
/// channels to a word; eight offsets, two to a word, the unused ones set to
/// `2.0`; four direction words (bits of single-precision values) whose
/// meaning depends on the kind; the kind's tag; and padding to a multiple of
/// sixteen bytes.
#[derive(Debug, Clone, Copy)]
pub struct Packed {
    pub colors: [[u32; 2]; 8],
    pub offsets: [u32; 4],
    pub direction: [u32; 4],
    pub gradient_type: u32,
    pub padding: [u32; 3],
}

/// Two 16-bit values in one word, the first in the high half.
pub open spec fn pair_word(high: u16, low: u16) -> u32 {
    (high as int * 0x10000 + low as int) as u32
}

/// The high half of a word.
pub open spec fn high_half(word: u32) -> u16 {
    (word as int / 0x10000) as u16
}

/// The low half of a word.
pub open spec fn low_half(word: u32) -> u16 {
    (word as int % 0x10000) as u16
}

/// The stop in slot `i`: the `i`-th stop, or a transparent stop at `2.0`
/// where the gradient has fewer.
pub open spec fn slot(stops: Seq<HalfStop>, i: int) -> HalfStop {
    if 0 <= i < stops.len() {
        stops[i]
    } else {
        HalfStop { offset: SENTINEL_OFFSET_HALF, r: 0, g: 0, b: 0, a: 0 }
    }
}

/// Whether `p` is the record for stops `stops`, kind `tag` and the four
/// resolved direction words.
pub open spec fn packs(p: Packed, tag: u32, stops: Seq<HalfStop>, direction: [u32; 4]) -> bool {
    &&& forall|i: int|
        0 <= i < 8 ==> (#[trigger] p.colors[i])[0] == pair_word(slot(stops, i).r, slot(stops, i).g)
            && p.colors[i][1] == pair_word(slot(stops, i).b, slot(stops, i).a)
    &&& forall|j: int|
        0 <= j < 4 ==> #[trigger] p.offsets[j] == pair_word(
            slot(stops, 2 * j).offset,
            slot(stops, 2 * j + 1).offset,
        )
    &&& p.direction == direction
    &&& p.gradient_type == tag
    &&& p.padding == [0u32, 0u32, 0u32]
}

/// The offset that a shader reads from slot `i` of a record.
pub open spec fn packed_offset(p: Packed, i: int) -> u16 {
    if i % 2 == 0 {
        high_half(p.offsets[i / 2])
    } else {
        low_half(p.offsets[i / 2])
    }
}

/// Packs two 16-bit values into one word, the first in the high half.
pub fn pack_pair(high: u16, low: u16) -> (r: u32)
    ensures
        r == pair_word(high, low),
{
    let h = high as u32;
    let l = low as u32;
    let r = (h << 16u32) | l;
    assert(r == h * 0x10000 + l) by (bit_vector)
        requires
            h < 0x10000,
            l < 0x10000,
            r == (h << 16u32) | l,
    ;
    r
}

/// Builds the shader record from the stops in half precision (at most
/// eight, in slot order), the kind's tag and the direction words.
pub fn pack(gradient_type: u32, stops: &Vec<HalfStop>, direction: [u32; 4]) -> (r: Packed)
    requires
        stops@.len() <= MAX_STOPS,
    ensures
        packs(r, gradient_type, stops@, direction),
{
    let mut halves: [HalfStop; 8] = [HalfStop { offset: SENTINEL_OFFSET_HALF, r: 0, g: 0, b: 0, a: 0 }; 8];
    let mut i: usize = 0;
    while i < stops.len()
        invariant
            i <= stops@.len() <= 8,
            forall|k: int| 0 <= k < i ==> halves[k] == slot(stops@, k),
            forall|k: int| i <= k < 8 ==> halves[k] == slot(stops@, stops@.len() as int),
        decreases stops@.len() - i,
    {
        halves[i] = stops[i];
        i = i + 1;
    }
    assert(forall|k: int| 0 <= k < 8 ==> halves[k] == slot(stops@, k));
    let mut colors: [[u32; 2]; 8] = [[0u32; 2]; 8];
    let mut k: usize = 0;
    while k < 8
        invariant
            k <= 8,
            forall|m: int| 0 <= m < 8 ==> halves[m] == slot(stops@, m),
            forall|m: int|
                0 <= m < k ==> (#[trigger] colors[m])[0] == pair_word(
                    slot(stops@, m).r,
                    slot(stops@, m).g,
                ) && colors[m][1] == pair_word(slot(stops@, m).b, slot(stops@, m).a),
        decreases 8 - k,
    {
        let h = halves[k];
        colors[k] = [pack_pair(h.r, h.g), pack_pair(h.b, h.a)];
        k = k + 1;
    }
    let offsets: [u32; 4] = [
        pack_pair(halves[0].offset, halves[1].offset),
        pack_pair(halves[2].offset, halves[3].offset),
        pack_pair(halves[4].offset, halves[5].offset),
        pack_pair(halves[6].offset, halves[7].offset),
    ];
    let r = Packed { colors, offsets, direction, gradient_type, padding: [0u32; 3] };
    assert(r.padding =~= [0u32, 0u32, 0u32]);
    r
}

/// A list that already holds eight stops is left as it is: the new stop is
/// dropped, and no stop it holds is replaced.
pub proof fn lemma_ninth_stop_dropped(s: Seq<ColorStop>, offset: u32, color: Color)
    requires
        s.len() == MAX_STOPS,
    ensures
        with_stop(s, offset, color) == s,
        with_stop(s, offset, color).len() == MAX_STOPS,
{
}

/// An offset that is not a finite value within `0.0..=1.0` (a NaN, a
/// negative value, a value above one) leaves the list as it is.
pub proof fn lemma_out_of_range_offset_ignored(s: Seq<ColorStop>, offset: u32, color: Color)
    requires
        !offset_in_range(offset),
    ensures
        with_stop(s, offset, color) == s,
{
}

/// A valid offset added to a list with room grows it by one, and the list
/// stays sorted.
pub proof fn lemma_valid_stop_inserted_in_order(s: Seq<ColorStop>, offset: u32, color: Color)
    requires
        sorted_by_offset(s),
        s.len() < MAX_STOPS,
        forall|i: int| 0 <= i < s.len() ==> offset_in_range(#[trigger] s[i].offset),
        offset_in_range(offset),
    ensures
        with_stop(s, offset, color).len() == s.len() + 1,
        sorted_by_offset(with_stop(s, offset, color)),
        with_stop(s, offset, color).contains(ColorStop { offset, color }),
{
    lemma_with_stop_wf(s, offset, color);
    lemma_first_at_least_bounds(s, offset_key(offset), 0);
    let p = insert_position(s, offset);
    assert(with_stop(s, offset, color)[p] == ColorStop { offset, color });
}

/// Packing is a function of its inputs: two records packed from the same
/// stops, kind and direction are identical, bit for bit.
pub proof fn lemma_pack_deterministic(
    p1: Packed,
    p2: Packed,
    tag: u32,
    stops: Seq<HalfStop>,
    direction: [u32; 4],
)
    requires
        packs(p1, tag, stops, direction),
        packs(p2, tag, stops, direction),
    ensures
        p1 == p2,
{
    assert forall|i: int| 0 <= i < 8 implies p1.colors[i] == p2.colors[i] by {
        assert(p1.colors[i] =~= p2.colors[i]);
    }
    assert(p1.colors =~= p2.colors);
    assert(p1.offsets =~= p2.offsets);
    assert(p1.padding =~= p2.padding);
}

/// What a shader reads back from each offset slot is the stop's offset, and
/// every slot past the last stop reads `2.0`, which no valid offset (at most
/// `1.0`) equals.
pub proof fn lemma_unused_slots_read_sentinel(
    p: Packed,
    tag: u32,
    stops: Seq<HalfStop>,
    direction: [u32; 4],
)
    requires
        packs(p, tag, stops, direction),
    ensures
        forall|i: int| 0 <= i < 8 ==> #[trigger] packed_offset(p, i) == slot(stops, i).offset,
        forall|i: int|
            stops.len() <= i < 8 ==> #[trigger] packed_offset(p, i) == SENTINEL_OFFSET_HALF,
        SENTINEL_OFFSET_HALF != ONE_HALF_BITS,
{
    assert forall|i: int| 0 <= i < 8 implies #[trigger] packed_offset(p, i) == slot(
        stops,
        i,
    ).offset by {
        let j = i / 2;
        let hi = slot(stops, 2 * j).offset;
        let lo = slot(stops, 2 * j + 1).offset;
        assert(p.offsets[j] == pair_word(hi, lo));
        lemma_pair_halves(hi, lo);
        if i % 2 == 0 {
            assert(i == 2 * j);
        } else {
            assert(i == 2 * j + 1);
        }
    }
}

/// Splitting a packed word gives back its two halves.
proof fn lemma_pair_halves(high: u16, low: u16)
    ensures
        high_half(pair_word(high, low)) == high,
        low_half(pair_word(high, low)) == low,
{
    let w = high as int * 0x10000 + low as int;
    assert(0 <= w < 0x1_0000_0000) by (nonlinear_arith)
        requires
            w == high as int * 0x10000 + low as int,
            0 <= high < 0x10000,
            0 <= low < 0x10000,
    ;
    assert(w / 0x10000 == high as int && w % 0x10000 == low as int) by (nonlinear_arith)
        requires
            w == high as int * 0x10000 + low as int,
            0 <= low < 0x10000,
            0 <= high,
    ;
}

} // verus!
