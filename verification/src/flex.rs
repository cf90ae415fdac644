//! The flex layout resolver.
//!
//! [`resolve`] lays a line of measured children out along a main axis in two
//! passes, mirroring a reduced CSS flex-box: flex bases and grow / shrink
//! weights first decide every child's final main-axis size, then a justify
//! policy distributes the leftover main-axis space and an alignment policy
//! places each child on the cross axis.
//!
//! Children arrive already measured: a [`FlexChild`] carries the child's
//! length policies and its natural size, and the resolver reports the sizes
//! it grants; re-running a host widget's own layout against those granted
//! sizes is the adapter's business.

use vstd::prelude::*;
use vstd::arithmetic::div_mod::{
    lemma_div_is_ordered, lemma_div_multiples_vanish, lemma_div_of0, lemma_div_pos_is_pos,
    lemma_fundamental_div_mod, lemma_fundamental_div_mod_converse, lemma_mod_bound,
};
use vstd::arithmetic::mul::lemma_mul_inequality;

use crate::geometry::{coord_ok, Padding, Rectangle, Size, MAX_COORD, MAX_DIM};
use crate::length::{Length, Limits};

verus! {

/// Most children one resolver call accepts.
pub const MAX_CHILDREN: usize = 0x1_0000;

/// Largest grow or shrink weight.
pub const MAX_WEIGHT: i64 = 0x1_0000;

/// The main axis of a flex layout.
#[derive(Clone, Copy, Debug, PartialEq, Eq, Structural)]
pub enum Axis {
    /// The horizontal axis.
    Horizontal,
    /// The vertical axis.
    Vertical,
}

impl Axis {
    /// The main-axis component of `size`.
    pub open spec fn spec_main(self, size: Size) -> int {
        match self {
            Axis::Horizontal => size.width as int,
            Axis::Vertical => size.height as int,
        }
    }

    /// The cross-axis component of `size`.
    pub open spec fn spec_cross(self, size: Size) -> int {
        match self {
            Axis::Horizontal => size.height as int,
            Axis::Vertical => size.width as int,
        }
    }

    /// A `(main, cross)` pair packed into `(x, y)` order.
    pub open spec fn spec_pack(self, main: int, cross: int) -> (int, int) {
        match self {
            Axis::Horizontal => (main, cross),
            Axis::Vertical => (cross, main),
        }
    }

    /// Returns the main-axis component of `size`.
    pub fn main(&self, size: Size) -> (m: i64)
        ensures
            m as int == self.spec_main(size),
    {
        match self {
            Axis::Horizontal => size.width,
            Axis::Vertical => size.height,
        }
    }

    /// Returns the cross-axis component of `size`.
    pub fn cross(&self, size: Size) -> (c: i64)
        ensures
            c as int == self.spec_cross(size),
    {
        match self {
            Axis::Horizontal => size.height,
            Axis::Vertical => size.width,
        }
    }

    /// Packs a `(main, cross)` pair into `(x, y)` order.
    pub fn pack(&self, main: i64, cross: i64) -> (p: (i64, i64))
        ensures
            (p.0 as int, p.1 as int) == self.spec_pack(main as int, cross as int),
    {
        match self {
            Axis::Horizontal => (main, cross),
            Axis::Vertical => (cross, main),
        }
    }
}

/// Defines how items are distributed along the primary axis.
#[derive(Clone, Copy, Debug, PartialEq, Eq, Structural)]
pub enum JustifyContent {
    /// Pack items at the start.
    Start,
    /// Pack items at the end.
    End,
    /// Center items.
    Center,
    /// Distribute items with equal space between them.
    SpaceBetween,
    /// Distribute items with equal space around them.
    SpaceAround,
    /// Distribute items with equal space on both sides.
    SpaceEvenly,
}

/// Alignment options for flex layout.
#[derive(Clone, Copy, Debug, PartialEq, Eq, Structural)]
pub enum FlexAlignment {
    /// Pack the item at the start.
    Start,
    /// Pack the item at the end.
    End,
    /// Center the item.
    Center,
    /// Stretch to fill the container.
    Stretch,
}

/// Flex weights and an optional basis for one child.
#[derive(Clone, Copy, Debug, PartialEq, Eq, Structural)]
pub struct FlexProperties {
    /// Overrides the natural main-axis basis when set.
    pub basis: Option<i64>,
    /// Non-negative weight for receiving extra main-axis space.
    pub grow: i64,
    /// Non-negative weight for giving main-axis space up.
    pub shrink: i64,
}

impl FlexProperties {
    /// Weights are non-negative and bounded; a basis, when set, is a
    /// well-formed dimension.
    pub open spec fn wf(self) -> bool {
        &&& 0 <= self.grow <= MAX_WEIGHT
        &&& 0 <= self.shrink <= MAX_WEIGHT
        &&& match self.basis {
            Some(b) => 0 <= b <= MAX_DIM,
            None => true,
        }
    }
}

/// One measured child of a flex container: its length policies, its
/// measured natural size, and its flex properties.
#[derive(Clone, Copy, Debug, PartialEq, Eq, Structural)]
pub struct FlexChild {
    /// The child's horizontal length policy.
    pub width: Length,
    /// The child's vertical length policy.
    pub height: Length,
    /// The measured natural horizontal extent.
    pub natural_width: i64,
    /// The measured natural vertical extent.
    pub natural_height: i64,
    /// The child's flex properties.
    pub properties: FlexProperties,
}

impl FlexChild {
    /// Policies, natural sizes and properties are all well formed.
    pub open spec fn wf(self) -> bool {
        &&& self.width.wf()
        &&& self.height.wf()
        &&& 0 <= self.natural_width <= MAX_DIM
        &&& 0 <= self.natural_height <= MAX_DIM
        &&& self.properties.wf()
    }

    /// Sets the flex basis of the child.
    pub fn basis(self, basis: i64) -> (c: FlexChild)
        ensures
            c == (FlexChild {
                properties: FlexProperties { basis: Some(basis), ..self.properties },
                ..self
            }),
    {
        FlexChild { properties: FlexProperties { basis: Some(basis), ..self.properties }, ..self }
    }

    /// Sets the grow weight of the child.
    pub fn grow(self, grow: i64) -> (c: FlexChild)
        ensures
            c == (FlexChild {
                properties: FlexProperties { grow, ..self.properties },
                ..self
            }),
    {
        FlexChild { properties: FlexProperties { grow, ..self.properties }, ..self }
    }

    /// Sets the shrink weight of the child.
    pub fn shrink(self, shrink: i64) -> (c: FlexChild)
        ensures
            c == (FlexChild {
                properties: FlexProperties { shrink, ..self.properties },
                ..self
            }),
    {
        FlexChild { properties: FlexProperties { shrink, ..self.properties }, ..self }
    }
}

/// Creates a [`FlexChild`] with the given length policies and measured
/// natural size, and neutral flex properties.
pub fn flex(width: Length, height: Length, natural_width: i64, natural_height: i64) -> (c:
    FlexChild)
    ensures
        c == (FlexChild {
            width,
            height,
            natural_width,
            natural_height,
            properties: FlexProperties { basis: None, grow: 0i64, shrink: 0i64 },
        }),
{
    FlexChild {
        width,
        height,
        natural_width,
        natural_height,
        properties: FlexProperties { basis: None, grow: 0, shrink: 0 },
    }
}

/// A resolved flex layout: the container size and one rectangle of granted
/// bounds per child, in order.
#[derive(Clone, Debug)]
pub struct FlexNode {
    /// The resolved size of the container.
    pub size: Size,
    /// The granted bounds of each child, relative to the container origin.
    pub children: Vec<Rectangle>,
}

/// The leading offset and the extra between-item space that a justify
/// policy assigns, given the leftover main-axis space and the item count:
/// `Start` keeps everything packed, `End` and `Center` shift the block,
/// the three `Space*` policies divide the leftover into gaps.
pub open spec fn spec_compute_spacing(justify: JustifyContent, available: int, count: int) -> (
    int,
    int,
) {
    match justify {
        JustifyContent::Start => (0, 0),
        JustifyContent::End => (available, 0),
        JustifyContent::Center => (available / 2, 0),
        JustifyContent::SpaceBetween => if count <= 1 {
            (0, 0)
        } else {
            (0, available / (count - 1))
        },
        JustifyContent::SpaceAround => {
            let space = available / count;
            (space / 2, space)
        },
        JustifyContent::SpaceEvenly => {
            let space = available / (count + 1);
            (space, space)
        },
    }
}

/// Computes the spacing for justify-content distribution: the pair of
/// leading offset and extra between-item space.
///
/// `Start` always yields `(0, 0)`, and `SpaceBetween` with at most one item
/// degrades to `(0, 0)` rather than dividing by zero.
pub fn compute_spacing(justify: JustifyContent, available: i64, count: usize) -> (r: (i64, i64))
    requires
        0 <= available <= 4 * MAX_DIM,
        1 <= count <= MAX_CHILDREN,
    ensures
        (r.0 as int, r.1 as int) == spec_compute_spacing(justify, available as int, count as int),
        0 <= r.0 <= available,
        0 <= r.1 <= available,
{
    match justify {
        JustifyContent::Start => (0, 0),
        JustifyContent::End => (available, 0),
        JustifyContent::Center => (available / 2, 0),
        JustifyContent::SpaceBetween => {
            if count <= 1 {
                (0, 0)
            } else {
                (0, available / ((count - 1) as i64))
            }
        },
        JustifyContent::SpaceAround => {
            let space: i64 = available / (count as i64);
            (space / 2, space)
        },
        JustifyContent::SpaceEvenly => {
            let space: i64 = available / ((count + 1) as i64);
            (space, space)
        },
    }
}

/// The scalar inputs of one [`resolve`] call, bundled so that the
/// specification functions below can speak of a whole layout at once.
#[derive(Clone, Copy, Debug)]
pub struct FlexInput {
    /// The main axis.
    pub axis: Axis,
    /// The limits the container is laid out against.
    pub limits: Limits,
    /// The container's horizontal length policy.
    pub width: Length,
    /// The container's vertical length policy.
    pub height: Length,
    /// The container's padding.
    pub padding: Padding,
    /// The space between adjacent children.
    pub spacing: i64,
    /// The main-axis distribution policy.
    pub justify: JustifyContent,
    /// The cross-axis placement policy.
    pub align: FlexAlignment,
}

impl FlexInput {
    /// All scalar inputs are well formed.
    pub open spec fn wf(self) -> bool {
        &&& self.limits.wf()
        &&& self.width.wf()
        &&& self.height.wf()
        &&& self.padding.wf()
        &&& 0 <= self.spacing <= MAX_DIM
    }
}

/// The child's length policy along the main axis.
pub open spec fn main_policy(axis: Axis, c: FlexChild) -> Length {
    match axis {
        Axis::Horizontal => c.width,
        Axis::Vertical => c.height,
    }
}

/// The child's length policy along the cross axis.
pub open spec fn cross_policy(axis: Axis, c: FlexChild) -> Length {
    match axis {
        Axis::Horizontal => c.height,
        Axis::Vertical => c.width,
    }
}

/// The child's measured natural main-axis extent.
pub open spec fn natural_main(axis: Axis, c: FlexChild) -> int {
    match axis {
        Axis::Horizontal => c.natural_width as int,
        Axis::Vertical => c.natural_height as int,
    }
}

/// The child's measured natural cross-axis extent.
pub open spec fn natural_cross(axis: Axis, c: FlexChild) -> int {
    match axis {
        Axis::Horizontal => c.natural_height as int,
        Axis::Vertical => c.natural_width as int,
    }
}

/// Whether the child's own cross-axis policy resolves to a fill: such a
/// child stretches across the container even without `Stretch` alignment.
pub open spec fn wants_stretch(axis: Axis, c: FlexChild) -> bool {
    cross_policy(axis, c).spec_fluid().spec_is_fill()
}

/// The child's flex basis: the explicit override when set, else the fixed
/// main-axis amount when the child's policy is a fixed pixel value, else 0.
pub open spec fn basis_of(axis: Axis, c: FlexChild) -> int {
    match c.properties.basis {
        Some(b) => b as int,
        None => match main_policy(axis, c) {
            Length::Fixed(px) => px as int,
            _ => 0,
        },
    }
}

/// The sum of all children's flex bases.
pub open spec fn total_basis(axis: Axis, items: Seq<FlexChild>) -> int
    decreases items.len(),
{
    if items.len() == 0 {
        0
    } else {
        total_basis(axis, items.drop_last()) + basis_of(axis, items.last())
    }
}

/// The sum of all children's grow weights.
pub open spec fn total_grow(items: Seq<FlexChild>) -> int
    decreases items.len(),
{
    if items.len() == 0 {
        0
    } else {
        total_grow(items.drop_last()) + items.last().properties.grow
    }
}

/// The sum of all children's shrink weights.
pub open spec fn total_shrink(items: Seq<FlexChild>) -> int
    decreases items.len(),
{
    if items.len() == 0 {
        0
    } else {
        total_shrink(items.drop_last()) + items.last().properties.shrink
    }
}

/// The largest natural cross-axis extent across the children, 0 when there
/// are none.
pub open spec fn max_natural_cross(axis: Axis, items: Seq<FlexChild>) -> int
    decreases items.len(),
{
    if items.len() == 0 {
        0
    } else {
        let rest = max_natural_cross(axis, items.drop_last());
        let last = natural_cross(axis, items.last());
        if last > rest {
            last
        } else {
            rest
        }
    }
}

/// The padding packed as a size: total horizontal by total vertical.
pub open spec fn pad_size(padding: Padding) -> Size {
    Size {
        width: (padding.left + padding.right) as i64,
        height: (padding.top + padding.bottom) as i64,
    }
}

/// The padding on the main-axis leading edge.
pub open spec fn pad_main_lead(axis: Axis, padding: Padding) -> int {
    match axis {
        Axis::Horizontal => padding.left as int,
        Axis::Vertical => padding.top as int,
    }
}

/// The padding on the main-axis trailing edge.
pub open spec fn pad_main_trail(axis: Axis, padding: Padding) -> int {
    match axis {
        Axis::Horizontal => padding.right as int,
        Axis::Vertical => padding.bottom as int,
    }
}

/// The padding on the cross-axis leading edge.
pub open spec fn pad_cross_lead(axis: Axis, padding: Padding) -> int {
    match axis {
        Axis::Horizontal => padding.top as int,
        Axis::Vertical => padding.left as int,
    }
}

/// The total cross-axis padding.
pub open spec fn pad_cross_total(axis: Axis, padding: Padding) -> int {
    match axis {
        Axis::Horizontal => padding.spec_vertical(),
        Axis::Vertical => padding.spec_horizontal(),
    }
}

/// The limits the children are laid out against: the container limits
/// narrowed by its length policies and shrunk by its padding.
pub open spec fn inner_limits(inp: FlexInput) -> Limits {
    inp.limits.spec_width(inp.width).spec_height(inp.height).spec_shrink(pad_size(inp.padding))
}

/// The main-axis space the container offers its contents.
pub open spec fn container_main(inp: FlexInput) -> int {
    inp.axis.spec_main(inner_limits(inp).max)
}

/// The cross-axis size of the container: the full available cross space
/// when the container's cross-axis policy fills, else the largest natural
/// cross extent of the children.
pub open spec fn container_cross(inp: FlexInput, items: Seq<FlexChild>) -> int {
    match inp.axis {
        Axis::Horizontal => match inp.height {
            Length::Fill | Length::FillPortion(_) => inner_limits(inp).max.height as int,
            _ => max_natural_cross(inp.axis, items),
        },
        Axis::Vertical => match inp.width {
            Length::Fill | Length::FillPortion(_) => inner_limits(inp).max.width as int,
            _ => max_natural_cross(inp.axis, items),
        },
    }
}

/// The main-axis space reserved for the gaps between `n` children.
pub open spec fn spacing_total(inp: FlexInput, n: int) -> int {
    inp.spacing * (n - 1)
}

/// The main-axis slack: the container's main extent minus reserved spacing
/// and the sum of the flex bases. Positive slack means the layout grows,
/// otherwise it shrinks.
pub open spec fn available_space(inp: FlexInput, items: Seq<FlexChild>) -> int {
    container_main(inp) - spacing_total(inp, items.len() as int) - total_basis(inp.axis, items)
}

/// The final main-axis size of child `i`: its natural size, plus its
/// weighted share of positive slack when it grows, minus its weighted share
/// of the deficit when it shrinks — clamped so that shrinking never drives
/// the size below zero.
pub open spec fn main_size_at(inp: FlexInput, items: Seq<FlexChild>, i: int) -> int {
    let c = items[i];
    let base = natural_main(inp.axis, c);
    let avail = available_space(inp, items);
    if avail > 0 && c.properties.grow > 0 && total_grow(items) > 0 {
        base + avail * c.properties.grow / total_grow(items)
    } else if !(avail > 0) && c.properties.shrink > 0 && total_shrink(items) > 0 {
        let raw = (-avail) * c.properties.shrink / total_shrink(items);
        base - (if raw < base {
            raw
        } else {
            base
        })
    } else {
        base
    }
}

/// The sum of the final main-axis sizes of children `0 .. k`.
pub open spec fn main_sum(inp: FlexInput, items: Seq<FlexChild>, k: int) -> int
    decreases k,
{
    if k <= 0 {
        0
    } else {
        main_sum(inp, items, k - 1) + main_size_at(inp, items, k - 1)
    }
}

/// Whether child `i` stretches across the container.
pub open spec fn stretch_at(inp: FlexInput, items: Seq<FlexChild>, i: int) -> bool {
    wants_stretch(inp.axis, items[i]) || inp.align == FlexAlignment::Stretch
}

/// The final cross-axis size of child `i`: the container's cross size when
/// it stretches, else its natural cross extent.
pub open spec fn cross_size_at(inp: FlexInput, items: Seq<FlexChild>, i: int) -> int {
    if stretch_at(inp, items, i) {
        container_cross(inp, items)
    } else {
        natural_cross(inp.axis, items[i])
    }
}

/// The main-axis space the children and their gaps occupy.
pub open spec fn used_main(inp: FlexInput, items: Seq<FlexChild>) -> int {
    main_sum(inp, items, items.len() as int) + spacing_total(inp, items.len() as int)
}

/// The leftover main-axis space handed to the justify policy, floored at 0.
pub open spec fn leftover(inp: FlexInput, items: Seq<FlexChild>) -> int {
    let l = container_main(inp) - used_main(inp, items);
    if l > 0 {
        l
    } else {
        0
    }
}

/// The `(initial offset, extra gap)` pair of the justify policy.
pub open spec fn justify_offsets(inp: FlexInput, items: Seq<FlexChild>) -> (int, int) {
    spec_compute_spacing(inp.justify, leftover(inp, items), items.len() as int)
}

/// The main-axis position of child `i`: the leading padding, the justify
/// offset, every earlier child's size, and one gap per earlier child.
pub open spec fn main_pos_at(inp: FlexInput, items: Seq<FlexChild>, i: int) -> int {
    pad_main_lead(inp.axis, inp.padding) + justify_offsets(inp, items).0 + main_sum(
        inp,
        items,
        i,
    ) + i * (inp.spacing + justify_offsets(inp, items).1)
}

/// The cross-axis position of child `i` under the alignment policy.
pub open spec fn cross_pos_at(inp: FlexInput, items: Seq<FlexChild>, i: int) -> int {
    let ccross = container_cross(inp, items);
    let lead = pad_cross_lead(inp.axis, inp.padding);
    match inp.align {
        FlexAlignment::Start => lead,
        FlexAlignment::End => lead + ccross - cross_size_at(inp, items, i),
        FlexAlignment::Center => lead + (ccross - cross_size_at(inp, items, i)) / 2,
        FlexAlignment::Stretch => lead,
    }
}

/// The main-axis coordinate just past the last child.
pub open spec fn content_main_end(inp: FlexInput, items: Seq<FlexChild>) -> int {
    let n = items.len() as int;
    pad_main_lead(inp.axis, inp.padding) + justify_offsets(inp, items).0 + main_sum(
        inp,
        items,
        n,
    ) + (n - 1) * (inp.spacing + justify_offsets(inp, items).1)
}

/// The container's reported main extent: the full container main size when
/// centering (so centering stays visually stable), else the content end
/// plus the trailing padding.
pub open spec fn resolved_main(inp: FlexInput, items: Seq<FlexChild>) -> int {
    if inp.justify == JustifyContent::Center {
        container_main(inp)
    } else {
        content_main_end(inp, items) + pad_main_trail(inp.axis, inp.padding)
    }
}

/// The container's reported cross extent.
pub open spec fn resolved_cross(inp: FlexInput, items: Seq<FlexChild>) -> int {
    container_cross(inp, items) + pad_cross_total(inp.axis, inp.padding)
}

/// The container's resolved `(width, height)`: the packed reported extents
/// resolved against the inner limits and the container's own policies.
pub open spec fn resolved_size(inp: FlexInput, items: Seq<FlexChild>) -> (int, int) {
    let packed = inp.axis.spec_pack(resolved_main(inp, items), resolved_cross(inp, items));
    let lim = inner_limits(inp);
    (lim.spec_resolve_width(inp.width, packed.0), lim.spec_resolve_height(inp.height, packed.1))
}

/// Rectangle `r` is exactly the granted bounds of child `i`.
pub open spec fn child_rect_ok(
    inp: FlexInput,
    items: Seq<FlexChild>,
    i: int,
    r: Rectangle,
) -> bool {
    let pos = inp.axis.spec_pack(main_pos_at(inp, items, i), cross_pos_at(inp, items, i));
    let size = inp.axis.spec_pack(main_size_at(inp, items, i), cross_size_at(inp, items, i));
    &&& r.x as int == pos.0
    &&& r.y as int == pos.1
    &&& r.width as int == size.0
    &&& r.height as int == size.1
}

/// The full contract of [`resolve`]: one granted rectangle per child, each
/// pinned by [`child_rect_ok`], and the container size resolved from the
/// reported extents. With no children the size resolves from zero content
/// against the original limits.
pub open spec fn resolve_post(inp: FlexInput, items: Seq<FlexChild>, node: FlexNode) -> bool {
    &&& node.children.len() == items.len()
    &&& if items.len() == 0 {
        &&& node.size.width as int == inp.limits.spec_resolve_width(inp.width, 0)
        &&& node.size.height as int == inp.limits.spec_resolve_height(inp.height, 0)
    } else {
        &&& forall|i: int|
            0 <= i < items.len() ==> child_rect_ok(inp, items, i, #[trigger] node.children[i])
        &&& node.size.width as int == resolved_size(inp, items).0
        &&& node.size.height as int == resolved_size(inp, items).1
    }
}

/// Every child of the sequence is well formed.
pub open spec fn items_wf(items: Seq<FlexChild>) -> bool {
    forall|i: int| 0 <= i < items.len() ==> (#[trigger] items[i]).wf()
}

proof fn lemma_total_basis_bounds(axis: Axis, items: Seq<FlexChild>)
    requires
        items_wf(items),
    ensures
        0 <= total_basis(axis, items) <= items.len() * MAX_DIM,
    decreases items.len(),
{
    if items.len() > 0 {
        assert(items_wf(items.drop_last()));
        lemma_total_basis_bounds(axis, items.drop_last());
    }
}

proof fn lemma_total_grow_bounds(items: Seq<FlexChild>)
    requires
        items_wf(items),
    ensures
        0 <= total_grow(items) <= items.len() * MAX_WEIGHT,
    decreases items.len(),
{
    if items.len() > 0 {
        assert(items_wf(items.drop_last()));
        lemma_total_grow_bounds(items.drop_last());
    }
}

proof fn lemma_total_shrink_bounds(items: Seq<FlexChild>)
    requires
        items_wf(items),
    ensures
        0 <= total_shrink(items) <= items.len() * MAX_WEIGHT,
    decreases items.len(),
{
    if items.len() > 0 {
        assert(items_wf(items.drop_last()));
        lemma_total_shrink_bounds(items.drop_last());
    }
}

proof fn lemma_max_natural_cross_bounds(axis: Axis, items: Seq<FlexChild>)
    requires
        items_wf(items),
    ensures
        0 <= max_natural_cross(axis, items) <= MAX_DIM,
    decreases items.len(),
{
    if items.len() > 0 {
        assert(items_wf(items.drop_last()));
        lemma_max_natural_cross_bounds(axis, items.drop_last());
    }
}

/// One child's grow weight never exceeds the total.
proof fn lemma_grow_elem_le_total(items: Seq<FlexChild>, i: int)
    requires
        items_wf(items),
        0 <= i < items.len(),
    ensures
        items[i].properties.grow <= total_grow(items),
    decreases items.len(),
{
    assert(items_wf(items.drop_last()));
    lemma_total_grow_bounds(items.drop_last());
    if i < items.len() - 1 {
        lemma_grow_elem_le_total(items.drop_last(), i);
    }
}

/// A grower's share of positive slack is between 0 and the whole slack.
proof fn lemma_grow_share_bounds(items: Seq<FlexChild>, i: int, avail: int)
    requires
        items_wf(items),
        0 <= i < items.len(),
        avail > 0,
        total_grow(items) > 0,
    ensures
        0 <= avail * items[i].properties.grow / total_grow(items) <= avail,
{
    let g = items[i].properties.grow as int;
    let total = total_grow(items);
    lemma_grow_elem_le_total(items, i);
    assert(avail * g >= 0) by (nonlinear_arith)
        requires
            avail > 0,
            g >= 0,
    ;
    lemma_div_pos_is_pos(avail * g, total);
    lemma_mul_inequality(g, total, avail);
    assert(g * avail == avail * g) by (nonlinear_arith);
    assert(total * avail == avail * total) by (nonlinear_arith);
    lemma_div_is_ordered(avail * g, total * avail, total);
    lemma_div_multiples_vanish(avail, total);
}

/// A shrinker's share of the deficit is non-negative.
proof fn lemma_shrink_share_nonneg(items: Seq<FlexChild>, i: int, deficit: int)
    requires
        items_wf(items),
        0 <= i < items.len(),
        deficit >= 0,
        total_shrink(items) > 0,
    ensures
        0 <= deficit * items[i].properties.shrink / total_shrink(items),
{
    let s = items[i].properties.shrink as int;
    assert(deficit * s >= 0) by (nonlinear_arith)
        requires
            deficit >= 0,
            s >= 0,
    ;
    lemma_div_pos_is_pos(deficit * s, total_shrink(items));
}

/// Every final main size lies in `[0, 2 * MAX_DIM]` when the slack is at
/// most `MAX_DIM`.
proof fn lemma_main_size_at_bounds(inp: FlexInput, items: Seq<FlexChild>, i: int)
    requires
        items_wf(items),
        0 <= i < items.len(),
        available_space(inp, items) <= MAX_DIM,
    ensures
        0 <= main_size_at(inp, items, i) <= 2 * MAX_DIM,
{
    let c = items[i];
    let base = natural_main(inp.axis, c);
    let avail = available_space(inp, items);
    if avail > 0 && c.properties.grow > 0 && total_grow(items) > 0 {
        lemma_grow_share_bounds(items, i, avail);
    } else if !(avail > 0) && c.properties.shrink > 0 && total_shrink(items) > 0 {
        lemma_shrink_share_nonneg(items, i, -avail);
    }
}

proof fn lemma_main_sum_bounds(inp: FlexInput, items: Seq<FlexChild>, k: int)
    requires
        items_wf(items),
        0 <= k <= items.len(),
        available_space(inp, items) <= MAX_DIM,
    ensures
        0 <= main_sum(inp, items, k) <= k * 2 * MAX_DIM,
    decreases k,
{
    if k > 0 {
        lemma_main_sum_bounds(inp, items, k - 1);
        lemma_main_size_at_bounds(inp, items, k - 1);
    }
}

fn child_basis(axis: Axis, c: &FlexChild) -> (b: i64)
    requires
        c.wf(),
    ensures
        b as int == basis_of(axis, *c),
        0 <= b <= MAX_DIM,
{
    match c.properties.basis {
        Some(b) => b,
        None => {
            let policy = match axis {
                Axis::Horizontal => c.width,
                Axis::Vertical => c.height,
            };
            match policy {
                Length::Fixed(px) => px,
                _ => 0,
            }
        },
    }
}

fn child_natural_main(axis: Axis, c: &FlexChild) -> (m: i64)
    requires
        c.wf(),
    ensures
        m as int == natural_main(axis, *c),
        0 <= m <= MAX_DIM,
{
    match axis {
        Axis::Horizontal => c.natural_width,
        Axis::Vertical => c.natural_height,
    }
}

fn child_natural_cross(axis: Axis, c: &FlexChild) -> (m: i64)
    requires
        c.wf(),
    ensures
        m as int == natural_cross(axis, *c),
        0 <= m <= MAX_DIM,
{
    match axis {
        Axis::Horizontal => c.natural_height,
        Axis::Vertical => c.natural_width,
    }
}

fn child_wants_stretch(axis: Axis, c: &FlexChild) -> (b: bool)
    ensures
        b == wants_stretch(axis, *c),
{
    let policy = match axis {
        Axis::Horizontal => c.height,
        Axis::Vertical => c.width,
    };
    policy.fluid().is_fill()
}

/// Floor division by two, also for negative values.
fn div2_floor(d: i64) -> (r: i64)
    requires
        -MAX_COORD <= d <= MAX_COORD,
    ensures
        r as int == d as int / 2,
{
    if d >= 0 {
        d / 2
    } else {
        let k: i64 = -d;
        let q: i64 = (k + 1) / 2;
        proof {
            lemma_fundamental_div_mod(k as int + 1, 2);
            let rem = (k as int + 1) % 2;
            if rem == 0 {
                lemma_fundamental_div_mod_converse(d as int, 2, -(q as int), 1);
            } else {
                lemma_fundamental_div_mod_converse(d as int, 2, -(q as int), 0);
            }
        }
        -q
    }
}

/// Resolves a flex layout: given the container's limits, policies, padding,
/// spacing, justify and alignment, and its measured children, computes the
/// granted bounds of every child and the container's own size.
///
/// With no children the container size resolves from zero content. With
/// children, pass one accumulates bases, weights and the natural cross
/// maximum; pass two grants every child its final main size from the slack
/// and the weights; the walk then places children behind the justify
/// offset, one gap apart, aligned on the cross axis.
pub fn resolve(
    axis: Axis,
    limits: &Limits,
    width: Length,
    height: Length,
    padding: Padding,
    spacing: i64,
    justify_content: JustifyContent,
    align_items: FlexAlignment,
    items: &Vec<FlexChild>,
) -> (node: FlexNode)
    requires
        limits.wf(),
        width.wf(),
        height.wf(),
        padding.wf(),
        0 <= spacing <= MAX_DIM,
        items@.len() <= MAX_CHILDREN,
        items_wf(items@),
    ensures
        ({
            let inp = (FlexInput {
                axis,
                limits: *limits,
                width,
                height,
                padding,
                spacing,
                justify: justify_content,
                align: align_items,
            });
            resolve_post(inp, items@, node)
        }),
{
    let ghost inp = (FlexInput {
        axis,
        limits: *limits,
        width,
        height,
        padding,
        spacing,
        justify: justify_content,
        align: align_items,
    });
    let ghost gitems = items@;

    if items.len() == 0 {
        let size = limits.resolve(width, height, Size::zero());
        return FlexNode { size, children: Vec::new() };
    }

    let n: usize = items.len();

    // Narrow the limits by the container policies and its padding.
    let lim2 = limits.width(width).height(height).shrink(
        Size::new(padding.horizontal(), padding.vertical()),
    );
    proof {
        assert(lim2 == inner_limits(inp));
    }

    // Pass one: accumulate bases, weights, and the natural cross maximum.
    let mut total_basis_v: i64 = 0;
    let mut total_grow_v: i64 = 0;
    let mut total_shrink_v: i64 = 0;
    let mut cross_max: i64 = 0;
    let mut idx: usize = 0;
    while idx < n
        invariant
            items@ == gitems,
            n == gitems.len(),
            idx <= n,
            n <= MAX_CHILDREN,
            items_wf(gitems),
            total_basis_v as int == total_basis(inp.axis, gitems.take(idx as int)),
            0 <= total_basis_v <= idx * MAX_DIM,
            total_grow_v as int == total_grow(gitems.take(idx as int)),
            0 <= total_grow_v <= idx * MAX_WEIGHT,
            total_shrink_v as int == total_shrink(gitems.take(idx as int)),
            0 <= total_shrink_v <= idx * MAX_WEIGHT,
            cross_max as int == max_natural_cross(inp.axis, gitems.take(idx as int)),
            0 <= cross_max <= MAX_DIM,
            inp.axis == axis,
        decreases n - idx,
    {
        let c = items[idx];
        proof {
            assert(gitems.take(idx as int + 1).drop_last() =~= gitems.take(idx as int));
            assert(gitems.take(idx as int + 1).last() == gitems[idx as int]);
        }
        let b = child_basis(axis, &c);
        total_basis_v = total_basis_v + b;
        total_grow_v = total_grow_v + c.properties.grow;
        total_shrink_v = total_shrink_v + c.properties.shrink;
        let nc = child_natural_cross(axis, &c);
        if nc > cross_max {
            cross_max = nc;
        }
        idx = idx + 1;
    }
    proof {
        assert(gitems.take(n as int) =~= gitems);
    }

    // The cross size of the container itself.
    let container_cross_v: i64 = match axis {
        Axis::Horizontal => match height {
            Length::Fill | Length::FillPortion(_) => lim2.max().height,
            _ => cross_max,
        },
        Axis::Vertical => match width {
            Length::Fill | Length::FillPortion(_) => lim2.max().width,
            _ => cross_max,
        },
    };
    proof {
        assert(container_cross_v as int == container_cross(inp, gitems));
        assert(0 <= container_cross_v <= MAX_DIM);
    }

    // The main-axis slack that growing distributes or shrinking recovers.
    let container_main_v: i64 = axis.main(lim2.max());
    proof {
        assert(0 <= (spacing as int) * ((n - 1) as int) <= 0x100_0000_0000) by (nonlinear_arith)
            requires
                0 <= spacing <= MAX_DIM,
                0 <= (n - 1) as int <= MAX_CHILDREN as int,
        ;
    }
    let spacing_total_v: i64 = spacing * ((n - 1) as i64);
    let available_v: i64 = container_main_v - spacing_total_v - total_basis_v;
    proof {
        assert(available_v as int == available_space(inp, gitems));
        assert(-0x200_0000_0000 <= available_v <= MAX_DIM);
    }

    // Pass two: grant every child its final main-axis size.
    let mut main_sizes: Vec<i64> = Vec::new();
    let mut main_total: i64 = 0;
    let mut idx: usize = 0;
    while idx < n
        invariant
            items@ == gitems,
            n == gitems.len(),
            idx <= n,
            n <= MAX_CHILDREN,
            items_wf(gitems),
            available_v as int == available_space(inp, gitems),
            -0x200_0000_0000 <= available_v <= MAX_DIM,
            total_grow_v as int == total_grow(gitems),
            total_shrink_v as int == total_shrink(gitems),
            main_sizes@.len() == idx,
            forall|j: int|
                0 <= j < idx ==> #[trigger] main_sizes@[j] as int == main_size_at(
                    inp,
                    gitems,
                    j,
                ),
            forall|j: int| 0 <= j < idx ==> 0 <= #[trigger] main_sizes@[j] <= 2 * MAX_DIM,
            main_total as int == main_sum(inp, gitems, idx as int),
            0 <= main_total <= idx * 2 * MAX_DIM,
            inp.axis == axis,
        decreases n - idx,
    {
        let c = items[idx];
        let base = child_natural_main(axis, &c);
        let mut ms: i64 = base;
        if available_v > 0 && c.properties.grow > 0 && total_grow_v > 0 {
            proof {
                lemma_grow_share_bounds(gitems, idx as int, available_v as int);
                assert(0 <= (available_v as int) * (c.properties.grow as int)
                    <= 0x100_0000_0000) by (nonlinear_arith)
                    requires
                        0 < available_v <= MAX_DIM,
                        0 <= c.properties.grow <= MAX_WEIGHT,
                ;
            }
            let add: i64 = (available_v * c.properties.grow) / total_grow_v;
            ms = base + add;
        } else if !(available_v > 0) && c.properties.shrink > 0 && total_shrink_v > 0 {
            let deficit: i64 = -available_v;
            proof {
                lemma_shrink_share_nonneg(gitems, idx as int, deficit as int);
                assert(0 <= (deficit as int) * (c.properties.shrink as int)
                    <= 0x200_0000_0000_0000) by (nonlinear_arith)
                    requires
                        0 <= deficit <= 0x200_0000_0000,
                        0 <= c.properties.shrink <= MAX_WEIGHT,
                ;
            }
            let raw: i64 = (deficit * c.properties.shrink) / total_shrink_v;
            let amount: i64 = if raw < base {
                raw
            } else {
                base
            };
            ms = base - amount;
        }
        assert(ms as int == main_size_at(inp, gitems, idx as int));
        main_total = main_total + ms;
        main_sizes.push(ms);
        idx = idx + 1;
    }

    // The leftover space handed to the justify policy.
    let used: i64 = main_total + spacing_total_v;
    let leftover_v: i64 = if container_main_v > used {
        container_main_v - used
    } else {
        0
    };
    proof {
        assert(leftover_v as int == leftover(inp, gitems));
    }
    let offsets = compute_spacing(justify_content, leftover_v, n);
    let initial_off: i64 = offsets.0;
    let extra: i64 = offsets.1;

    // The walk: place every child behind the justify offset, one gap apart.
    let main_lead: i64 = match axis {
        Axis::Horizontal => padding.left,
        Axis::Vertical => padding.top,
    };
    let cross_lead: i64 = match axis {
        Axis::Horizontal => padding.top,
        Axis::Vertical => padding.left,
    };
    let mut rects: Vec<Rectangle> = Vec::new();
    let mut cursor: i64 = main_lead + initial_off;
    let mut idx: usize = 0;
    while idx < n
        invariant
            items@ == gitems,
            n == gitems.len(),
            idx <= n,
            n <= MAX_CHILDREN,
            items_wf(gitems),
            main_sizes@.len() == n,
            forall|j: int|
                0 <= j < n ==> #[trigger] main_sizes@[j] as int == main_size_at(inp, gitems, j),
            forall|j: int| 0 <= j < n ==> 0 <= #[trigger] main_sizes@[j] <= 2 * MAX_DIM,
            initial_off as int == justify_offsets(inp, gitems).0,
            0 <= initial_off <= MAX_DIM,
            extra as int == justify_offsets(inp, gitems).1,
            0 <= extra <= MAX_DIM,
            container_cross_v as int == container_cross(inp, gitems),
            0 <= container_cross_v <= MAX_DIM,
            rects@.len() == idx,
            forall|j: int| 0 <= j < idx ==> child_rect_ok(inp, gitems, j, #[trigger] rects@[j]),
            main_lead as int == pad_main_lead(inp.axis, inp.padding),
            cross_lead as int == pad_cross_lead(inp.axis, inp.padding),
            cursor as int == pad_main_lead(inp.axis, inp.padding) + justify_offsets(
                inp,
                gitems,
            ).0 + main_sum(
                inp,
                gitems,
                idx as int,
            ) + (if idx == 0 {
                0
            } else {
                (idx - 1) as int
            }) * (inp.spacing + justify_offsets(inp, gitems).1),
            0 <= cursor <= 2 * MAX_DIM + idx * 4 * MAX_DIM,
            inp.axis == axis,
            inp.align == align_items,
            inp.padding == padding,
            inp.spacing == spacing,
            0 <= spacing <= MAX_DIM,
            padding.wf(),
        decreases n - idx,
    {
        if idx > 0 {
            cursor = cursor + (spacing + extra);
            proof {
                let gap = inp.spacing + justify_offsets(inp, gitems).1;
                assert((idx as int) * gap == (idx as int - 1) * gap + gap) by (nonlinear_arith);
            }
        }
        assert(cursor as int == main_pos_at(inp, gitems, idx as int));
        let c = items[idx];
        let is_stretch = child_wants_stretch(axis, &c) || matches!(align_items, FlexAlignment::Stretch);
        let cross_size_v: i64 = if is_stretch {
            container_cross_v
        } else {
            child_natural_cross(axis, &c)
        };
        assert(cross_size_v as int == cross_size_at(inp, gitems, idx as int));
        let cross_pos_v: i64 = match align_items {
            FlexAlignment::Start | FlexAlignment::Stretch => cross_lead,
            FlexAlignment::End => cross_lead + container_cross_v - cross_size_v,
            FlexAlignment::Center => cross_lead + div2_floor(container_cross_v - cross_size_v),
        };
        assert(cross_pos_v as int == cross_pos_at(inp, gitems, idx as int));
        let ms: i64 = main_sizes[idx];
        let pos = axis.pack(cursor, cross_pos_v);
        let sz = axis.pack(ms, cross_size_v);
        rects.push(Rectangle::new(pos.0, pos.1, sz.0, sz.1));
        cursor = cursor + ms;
        idx = idx + 1;
    }

    // The reported container extents, resolved against the inner limits.
    let final_main_v: i64 = if matches!(justify_content, JustifyContent::Center) {
        container_main_v
    } else {
        cursor + (match axis {
            Axis::Horizontal => padding.right,
            Axis::Vertical => padding.bottom,
        })
    };
    let final_cross_v: i64 = container_cross_v + (match axis {
        Axis::Horizontal => padding.vertical(),
        Axis::Vertical => padding.horizontal(),
    });
    proof {
        assert(final_main_v as int == resolved_main(inp, gitems));
        assert(final_cross_v as int == resolved_cross(inp, gitems));
    }
    let packed = axis.pack(final_main_v, final_cross_v);
    let size = lim2.resolve(width, height, Size::new(packed.0, packed.1));
    FlexNode { size, children: rects }
}


/// The sum of the natural main sizes of children `0 .. k`.
pub open spec fn natural_main_sum(axis: Axis, items: Seq<FlexChild>, k: int) -> int
    decreases k,
{
    if k <= 0 {
        0
    } else {
        natural_main_sum(axis, items, k - 1) + natural_main(axis, items[k - 1])
    }
}

/// The sum of the grow weights of children `0 .. k`.
pub open spec fn grow_prefix(items: Seq<FlexChild>, k: int) -> int
    decreases k,
{
    if k <= 0 {
        0
    } else {
        grow_prefix(items, k - 1) + items[k - 1].properties.grow
    }
}

proof fn lemma_grow_prefix_is_total(items: Seq<FlexChild>, k: int)
    requires
        0 <= k <= items.len(),
    ensures
        grow_prefix(items, k) == total_grow(items.take(k)),
    decreases k,
{
    if k > 0 {
        lemma_grow_prefix_is_total(items, k - 1);
        assert(items.take(k).drop_last() =~= items.take(k - 1));
        assert(items.take(k).last() == items[k - 1]);
    }
}

/// Layout conservation: with every grow and shrink weight zero, each
/// child's final main size is exactly its natural main size, and the sum
/// of the final sizes equals the sum of the natural sizes.
pub proof fn lemma_layout_conservation(inp: FlexInput, items: Seq<FlexChild>, k: int)
    requires
        forall|i: int|
            0 <= i < items.len() ==> (#[trigger] items[i]).properties.grow == 0
                && items[i].properties.shrink == 0,
        0 <= k <= items.len(),
    ensures
        forall|i: int|
            0 <= i < items.len() ==> main_size_at(inp, items, i) == natural_main(
                inp.axis,
                items[i],
            ),
        main_sum(inp, items, k) == natural_main_sum(inp.axis, items, k),
    decreases k,
{
    if k > 0 {
        lemma_layout_conservation(inp, items, k - 1);
    }
}

/// One child's added main size under growing is exactly its weighted
/// share of the slack.
proof fn lemma_added_at_scaled(inp: FlexInput, items: Seq<FlexChild>, i: int)
    requires
        items_wf(items),
        0 <= i < items.len(),
        available_space(inp, items) > 0,
        total_grow(items) > 0,
    ensures
        main_size_at(inp, items, i) - natural_main(inp.axis, items[i]) == available_space(
            inp,
            items,
        ) * items[i].properties.grow / total_grow(items),
{
    let avail = available_space(inp, items);
    let g = items[i].properties.grow as int;
    let total = total_grow(items);
    if g == 0 {
        assert(avail * g == 0) by (nonlinear_arith)
            requires
                g == 0,
        ;
        lemma_div_of0(total);
    }
}

proof fn lemma_grow_sum_scaled(inp: FlexInput, items: Seq<FlexChild>, k: int)
    requires
        items_wf(items),
        available_space(inp, items) > 0,
        total_grow(items) > 0,
        0 <= k <= items.len(),
    ensures
        total_grow(items) * (main_sum(inp, items, k) - natural_main_sum(inp.axis, items, k))
            >= available_space(inp, items) * grow_prefix(items, k) - k * total_grow(items) + k,
        total_grow(items) * (main_sum(inp, items, k) - natural_main_sum(inp.axis, items, k))
            <= available_space(inp, items) * grow_prefix(items, k),
    decreases k,
{
    let avail = available_space(inp, items);
    let total = total_grow(items);
    if k == 0 {
        assert(avail * grow_prefix(items, 0) == 0) by (nonlinear_arith)
            requires
                grow_prefix(items, 0) == 0,
        ;
        assert(total * (main_sum(inp, items, 0) - natural_main_sum(inp.axis, items, 0)) == 0)
            by (nonlinear_arith)
            requires
                main_sum(inp, items, 0) == 0,
                natural_main_sum(inp.axis, items, 0) == 0,
        ;
    }
    if k > 0 {
        lemma_grow_sum_scaled(inp, items, k - 1);
        lemma_added_at_scaled(inp, items, k - 1);
        let g = items[k - 1].properties.grow as int;
        let added = avail * g / total;
        lemma_fundamental_div_mod(avail * g, total);
        lemma_mod_bound(avail * g, total);
        let prev = main_sum(inp, items, k - 1) - natural_main_sum(inp.axis, items, k - 1);
        let cur = main_sum(inp, items, k) - natural_main_sum(inp.axis, items, k);
        assert(cur == prev + added);
        assert(total * cur == total * prev + total * added) by (nonlinear_arith)
            requires
                cur == prev + added,
        ;
        assert(avail * grow_prefix(items, k) == avail * grow_prefix(items, k - 1) + avail * g)
            by (nonlinear_arith)
            requires
                grow_prefix(items, k) == grow_prefix(items, k - 1) + g,
        ;
        assert(k * total == (k - 1) * total + total) by (nonlinear_arith);
    }
}

/// Grow distribution: with positive slack `A` and positive total grow
/// weight `G`, every child's final main size exceeds its natural size by
/// exactly its weighted share `A * g / G`, and the total added size is at
/// most `A` and misses `A` by less than one unit of rounding per child.
pub proof fn lemma_grow_distribution(inp: FlexInput, items: Seq<FlexChild>)
    requires
        items_wf(items),
        available_space(inp, items) > 0,
        total_grow(items) > 0,
    ensures
        forall|i: int|
            0 <= i < items.len() ==> main_size_at(inp, items, i) == natural_main(
                inp.axis,
                items[i],
            ) + available_space(inp, items) * (#[trigger] items[i]).properties.grow / total_grow(
                items,
            ),
        main_sum(inp, items, items.len() as int) - natural_main_sum(
            inp.axis,
            items,
            items.len() as int,
        ) <= available_space(inp, items),
        main_sum(inp, items, items.len() as int) - natural_main_sum(
            inp.axis,
            items,
            items.len() as int,
        ) > available_space(inp, items) - items.len(),
{
    let n = items.len() as int;
    let avail = available_space(inp, items);
    let total = total_grow(items);
    assert forall|i: int| 0 <= i < n implies main_size_at(inp, items, i) == natural_main(
        inp.axis,
        items[i],
    ) + avail * (#[trigger] items[i]).properties.grow / total by {
        lemma_added_at_scaled(inp, items, i);
    }
    lemma_grow_sum_scaled(inp, items, n);
    lemma_grow_prefix_is_total(items, n);
    assert(items.take(n) =~= items);
    if items.len() == 0 {
        assert(total_grow(items) == 0);
    }
    let added = main_sum(inp, items, n) - natural_main_sum(inp.axis, items, n);
    assert(added <= avail) by (nonlinear_arith)
        requires
            total * added <= avail * total,
            total > 0,
    ;
    assert(added > avail - n) by (nonlinear_arith)
        requires
            total * added >= avail * total - n * total + n,
            total > 0,
            n >= 1,
    ;
}

/// Shrink floor: shrinking never drives a child's main size below zero,
/// however large the deficit and the shrink weights are.
pub proof fn lemma_shrink_floor(inp: FlexInput, items: Seq<FlexChild>, i: int)
    requires
        items_wf(items),
        0 <= i < items.len(),
    ensures
        main_size_at(inp, items, i) >= 0,
{
    let avail = available_space(inp, items);
    let c = items[i];
    if avail > 0 && c.properties.grow > 0 && total_grow(items) > 0 {
        lemma_grow_share_bounds(items, i, avail);
    } else if !(avail > 0) && c.properties.shrink > 0 && total_shrink(items) > 0 {
        lemma_shrink_share_nonneg(items, i, -avail);
    }
}

/// Justify idempotence: `Start` assigns no offset and no extra gap, and
/// `SpaceBetween` with at most one item degrades to the same pair instead
/// of dividing by zero.
pub proof fn lemma_justify_idempotence(available: int, count: int)
    ensures
        spec_compute_spacing(JustifyContent::Start, available, count) == (0int, 0int),
        count <= 1 ==> spec_compute_spacing(JustifyContent::SpaceBetween, available, count) == (
            0int,
            0int,
        ),
{
}


} // verus!
