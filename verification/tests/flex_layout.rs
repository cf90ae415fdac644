use sweeten::flex::{compute_spacing, flex, resolve, Axis, FlexAlignment, JustifyContent};
use sweeten::geometry::{Padding, Size};
use sweeten::length::{Length, Limits};

fn limits(width: i64, height: i64) -> Limits {
    Limits::new(Size::zero(), Size::new(width, height))
}

#[test]
fn space_between_three_children() {
    // Three 100-wide children, spacing 10, container width 400, justify
    // SpaceBetween: leftover 80 becomes two 40 gaps, so the x positions
    // are 0, 150 and 300.
    let items = vec![
        flex(Length::Fixed(100), Length::Fixed(50), 100, 50),
        flex(Length::Fixed(100), Length::Fixed(50), 100, 50),
        flex(Length::Fixed(100), Length::Fixed(50), 100, 50),
    ];
    let node = resolve(
        Axis::Horizontal,
        &limits(400, 100),
        Length::Fill,
        Length::Shrink,
        Padding::zero(),
        10,
        JustifyContent::SpaceBetween,
        FlexAlignment::Start,
        &items,
    );
    assert_eq!(node.children.len(), 3);
    let xs: Vec<i64> = node.children.iter().map(|r| r.x).collect();
    assert_eq!(xs, vec![0, 150, 300]);
    for r in &node.children {
        assert_eq!(r.width, 100);
        assert_eq!(r.height, 50);
        assert_eq!(r.y, 0);
    }
    assert_eq!(node.size.width, 400);
}

#[test]
fn empty_container_resolves_from_zero_content() {
    let items = Vec::new();
    let node = resolve(
        Axis::Vertical,
        &limits(200, 200),
        Length::Shrink,
        Length::Shrink,
        Padding::zero(),
        5,
        JustifyContent::Start,
        FlexAlignment::Start,
        &items,
    );
    assert_eq!(node.children.len(), 0);
    assert_eq!(node.size, Size::new(0, 0));
}

#[test]
fn zero_weights_keep_natural_sizes() {
    // No grow and no shrink weights: every final main size equals the
    // natural main size, whatever space is left.
    let items = vec![
        flex(Length::Shrink, Length::Fixed(10), 30, 10),
        flex(Length::Shrink, Length::Fixed(10), 70, 10),
    ];
    let node = resolve(
        Axis::Horizontal,
        &limits(400, 50),
        Length::Fill,
        Length::Shrink,
        Padding::zero(),
        0,
        JustifyContent::Start,
        FlexAlignment::Start,
        &items,
    );
    assert_eq!(node.children[0].width, 30);
    assert_eq!(node.children[1].width, 70);
}

#[test]
fn grow_distributes_slack_by_weight() {
    // Slack 400 with weights 1 and 3: the children gain exactly 100 and
    // 300.
    let items = vec![
        flex(Length::Shrink, Length::Fixed(10), 50, 10).grow(1),
        flex(Length::Shrink, Length::Fixed(10), 50, 10).grow(3),
    ];
    let node = resolve(
        Axis::Horizontal,
        &limits(400, 50),
        Length::Fill,
        Length::Shrink,
        Padding::zero(),
        0,
        JustifyContent::Start,
        FlexAlignment::Start,
        &items,
    );
    assert_eq!(node.children[0].width, 150);
    assert_eq!(node.children[1].width, 350);
}

#[test]
fn shrink_never_goes_below_zero() {
    // The deficit asks for more than the child has: the size floors at 0.
    let items = vec![flex(Length::Fixed(100), Length::Fixed(10), 100, 10).shrink(1)];
    let node = resolve(
        Axis::Horizontal,
        &limits(0, 50),
        Length::Fill,
        Length::Shrink,
        Padding::zero(),
        0,
        JustifyContent::Start,
        FlexAlignment::Start,
        &items,
    );
    assert_eq!(node.children[0].width, 0);
}

#[test]
fn shrink_splits_deficit_by_weight() {
    // Two 100-wide children in a 100-wide container: deficit 100 split
    // evenly leaves 50 and 50.
    let items = vec![
        flex(Length::Fixed(100), Length::Fixed(10), 100, 10).shrink(1),
        flex(Length::Fixed(100), Length::Fixed(10), 100, 10).shrink(1),
    ];
    let node = resolve(
        Axis::Horizontal,
        &limits(100, 50),
        Length::Fill,
        Length::Shrink,
        Padding::zero(),
        0,
        JustifyContent::Start,
        FlexAlignment::Start,
        &items,
    );
    assert_eq!(node.children[0].width, 50);
    assert_eq!(node.children[1].width, 50);
}

#[test]
fn justify_start_has_no_offset() {
    assert_eq!(compute_spacing(JustifyContent::Start, 80, 3), (0, 0));
}

#[test]
fn justify_end_shifts_by_leftover() {
    assert_eq!(compute_spacing(JustifyContent::End, 80, 3), (80, 0));
}

#[test]
fn justify_center_halves_leftover() {
    assert_eq!(compute_spacing(JustifyContent::Center, 80, 3), (40, 0));
}

#[test]
fn justify_space_between_divides_gaps() {
    assert_eq!(compute_spacing(JustifyContent::SpaceBetween, 80, 3), (0, 40));
}

#[test]
fn justify_space_between_single_child_degrades() {
    // One child: no division by zero, no gap.
    assert_eq!(compute_spacing(JustifyContent::SpaceBetween, 80, 1), (0, 0));
}

#[test]
fn justify_space_around_and_evenly() {
    assert_eq!(compute_spacing(JustifyContent::SpaceAround, 80, 4), (10, 20));
    assert_eq!(compute_spacing(JustifyContent::SpaceEvenly, 80, 4), (16, 16));
}

#[test]
fn center_justify_reports_full_container_main() {
    let items = vec![flex(Length::Fixed(100), Length::Fixed(50), 100, 50)];
    let node = resolve(
        Axis::Horizontal,
        &limits(400, 100),
        Length::Shrink,
        Length::Shrink,
        Padding::zero(),
        0,
        JustifyContent::Center,
        FlexAlignment::Start,
        &items,
    );
    // Centering reports the full container main extent so the centering
    // stays stable; the child sits at half the leftover.
    assert_eq!(node.children[0].x, 150);
    assert_eq!(node.size.width, 400);
}

#[test]
fn cross_alignment_end_and_center() {
    let items = vec![
        flex(Length::Fixed(10), Length::Fixed(20), 10, 20),
        flex(Length::Fixed(10), Length::Fixed(60), 10, 60),
    ];
    let end = resolve(
        Axis::Horizontal,
        &limits(100, 100),
        Length::Shrink,
        Length::Shrink,
        Padding::zero(),
        0,
        JustifyContent::Start,
        FlexAlignment::End,
        &items,
    );
    // Container cross = 60 (tallest child); the short child is pushed to
    // the bottom edge.
    assert_eq!(end.children[0].y, 40);
    assert_eq!(end.children[1].y, 0);

    let center = resolve(
        Axis::Horizontal,
        &limits(100, 100),
        Length::Shrink,
        Length::Shrink,
        Padding::zero(),
        0,
        JustifyContent::Start,
        FlexAlignment::Center,
        &items,
    );
    assert_eq!(center.children[0].y, 20);
    assert_eq!(center.children[1].y, 0);
}

#[test]
fn stretch_alignment_fills_cross() {
    let items = vec![
        flex(Length::Fixed(10), Length::Fixed(20), 10, 20),
        flex(Length::Fixed(10), Length::Fixed(60), 10, 60),
    ];
    let node = resolve(
        Axis::Horizontal,
        &limits(100, 100),
        Length::Shrink,
        Length::Shrink,
        Padding::zero(),
        0,
        JustifyContent::Start,
        FlexAlignment::Stretch,
        &items,
    );
    assert_eq!(node.children[0].height, 60);
    assert_eq!(node.children[1].height, 60);
}

#[test]
fn padding_offsets_positions_and_size() {
    let items = vec![flex(Length::Fixed(100), Length::Fixed(50), 100, 50)];
    let node = resolve(
        Axis::Horizontal,
        &limits(400, 200),
        Length::Shrink,
        Length::Shrink,
        Padding::uniform(7),
        0,
        JustifyContent::Start,
        FlexAlignment::Start,
        &items,
    );
    assert_eq!(node.children[0].x, 7);
    assert_eq!(node.children[0].y, 7);
    // Content end 107 plus trailing padding 7, and cross 50 plus 14.
    assert_eq!(node.size, Size::new(114, 64));
}

#[test]
fn basis_override_drives_slack() {
    // An explicit basis of 200 on a 50-wide child eats into the slack.
    let items = vec![
        flex(Length::Shrink, Length::Fixed(10), 50, 10).basis(200).grow(1),
        flex(Length::Shrink, Length::Fixed(10), 50, 10).grow(1),
    ];
    let node = resolve(
        Axis::Horizontal,
        &limits(400, 50),
        Length::Fill,
        Length::Shrink,
        Padding::zero(),
        0,
        JustifyContent::Start,
        FlexAlignment::Start,
        &items,
    );
    // available = 400 - 200 = 200, split evenly: each child gains 100.
    assert_eq!(node.children[0].width, 150);
    assert_eq!(node.children[1].width, 150);
}

#[test]
fn limits_resolve_clamps() {
    let l = Limits::new(Size::new(10, 10), Size::new(100, 100));
    assert_eq!(
        l.resolve(Length::Fixed(150), Length::Fixed(5), Size::zero()),
        Size::new(100, 10)
    );
    assert_eq!(l.resolve(Length::Fill, Length::Shrink, Size::new(40, 40)), Size::new(100, 40));
}

#[test]
fn limits_max_width_narrows() {
    let l = Limits::new(Size::zero(), Size::new(500, 100)).max_width(300);
    assert_eq!(l.max(), Size::new(300, 100));
}

#[test]
fn length_enclose_and_fluid() {
    assert_eq!(Length::Shrink.enclose(Length::Fill), Length::Fill);
    assert_eq!(Length::Fixed(10).enclose(Length::Fill), Length::Fixed(10));
    assert_eq!(Length::Fill.fluid(), Length::Fill);
    assert_eq!(Length::Fixed(10).fluid(), Length::Shrink);
    assert!(!Length::FillPortion(0).is_fill());
    assert!(Length::FillPortion(2).is_fill());
}

#[test]
fn axis_pack_orders_components() {
    assert_eq!(Axis::Horizontal.pack(1, 2), (1, 2));
    assert_eq!(Axis::Vertical.pack(1, 2), (2, 1));
    let s = Size::new(3, 4);
    assert_eq!(Axis::Horizontal.main(s), 3);
    assert_eq!(Axis::Vertical.main(s), 4);
    assert_eq!(Axis::Horizontal.cross(s), 4);
}

#[test]
fn fill_cross_policy_takes_available_space() {
    // A filling cross policy sizes the container's cross axis from the
    // limits, not from the tallest child.
    let items = vec![flex(Length::Fixed(10), Length::Fixed(20), 10, 20)];
    let node = resolve(
        Axis::Horizontal,
        &limits(100, 300),
        Length::Shrink,
        Length::Fill,
        Padding::zero(),
        0,
        JustifyContent::Start,
        FlexAlignment::Stretch,
        &items,
    );
    assert_eq!(node.children[0].height, 300);
    assert_eq!(node.size.height, 300);
}

#[test]
fn fluid_cross_child_stretches_alone() {
    // A child whose own cross policy fills stretches even under Start
    // alignment.
    let items = vec![
        flex(Length::Fixed(10), Length::Fill, 10, 20),
        flex(Length::Fixed(10), Length::Fixed(60), 10, 60),
    ];
    let node = resolve(
        Axis::Horizontal,
        &limits(100, 100),
        Length::Shrink,
        Length::Shrink,
        Padding::zero(),
        0,
        JustifyContent::Start,
        FlexAlignment::Start,
        &items,
    );
    assert_eq!(node.children[0].height, 60);
    assert_eq!(node.children[1].height, 60);
}

#[test]
fn vertical_padding_follows_the_axis() {
    // On the vertical axis the main-axis leading padding is the top side
    // and the cross-axis leading padding is the left side; the reported
    // extents add the bottom (main trailing) and left + right (cross).
    let items = vec![flex(Length::Fixed(100), Length::Fixed(50), 100, 50)];
    let node = resolve(
        Axis::Vertical,
        &limits(400, 400),
        Length::Shrink,
        Length::Shrink,
        Padding { top: 7, right: 2, bottom: 11, left: 3 },
        0,
        JustifyContent::Start,
        FlexAlignment::Start,
        &items,
    );
    assert_eq!(node.children[0].y, 7);
    assert_eq!(node.children[0].x, 3);
    // Main extent: 7 + 50 + 11; cross extent: 100 + 3 + 2.
    assert_eq!(node.size, Size::new(105, 68));
}
