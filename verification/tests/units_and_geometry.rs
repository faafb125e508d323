use vibe_game::geometry::{centered_overlaps_corner, Vector2};
use vibe_game::units::{
    add_saturating, isqrt, pixels, saturate, sub_saturating, travel, MICROS_PER_SECOND,
    UNITS_PER_PIXEL,
};

#[test]
fn unit_constants() {
    assert_eq!(UNITS_PER_PIXEL, 1000);
    assert_eq!(MICROS_PER_SECOND, 1_000_000);
}

#[test]
fn isqrt_of_small_numbers() {
    assert_eq!(isqrt(0), 0);
    assert_eq!(isqrt(1), 1);
    assert_eq!(isqrt(2), 1);
    assert_eq!(isqrt(3), 1);
    assert_eq!(isqrt(4), 2);
    assert_eq!(isqrt(15), 3);
    assert_eq!(isqrt(16), 4);
    assert_eq!(isqrt(17), 4);
}

#[test]
fn isqrt_rounds_down() {
    assert_eq!(isqrt(240_000_000_000), 489_897);
    assert_eq!(isqrt(489_897 * 489_897), 489_897);
    assert_eq!(isqrt(489_898 * 489_898 - 1), 489_897);
}

#[test]
fn isqrt_of_the_largest_number() {
    assert_eq!(isqrt(u128::MAX), u64::MAX);
    assert_eq!(isqrt((u64::MAX as u128) * (u64::MAX as u128)), u64::MAX);
    assert_eq!(isqrt((u64::MAX as u128) * (u64::MAX as u128) - 1), u64::MAX - 1);
}

#[test]
fn isqrt_brackets_every_number_up_to_a_thousand() {
    for n in 0u128..1000 {
        let r = isqrt(n) as u128;
        assert!(r * r <= n);
        assert!(n < (r + 1) * (r + 1));
    }
}

#[test]
fn saturate_stops_at_the_ends() {
    assert_eq!(saturate(0), 0);
    assert_eq!(saturate(-5), -5);
    assert_eq!(saturate(i64::MAX as i128), i64::MAX);
    assert_eq!(saturate(i64::MAX as i128 + 1), i64::MAX);
    assert_eq!(saturate(i64::MIN as i128), i64::MIN);
    assert_eq!(saturate(i64::MIN as i128 - 1), i64::MIN);
    assert_eq!(saturate(i128::MAX), i64::MAX);
    assert_eq!(saturate(i128::MIN), i64::MIN);
}

#[test]
fn saturating_sums_and_differences() {
    assert_eq!(add_saturating(2, 3), 5);
    assert_eq!(add_saturating(i64::MAX, 1), i64::MAX);
    assert_eq!(add_saturating(i64::MIN, -1), i64::MIN);
    assert_eq!(sub_saturating(2, 3), -1);
    assert_eq!(sub_saturating(i64::MIN, 1), i64::MIN);
    assert_eq!(sub_saturating(i64::MAX, -1), i64::MAX);
    assert_eq!(sub_saturating(0, i64::MIN), i64::MAX);
}

#[test]
fn pixels_round_toward_zero() {
    assert_eq!(pixels(0), 0);
    assert_eq!(pixels(999), 0);
    assert_eq!(pixels(1000), 1);
    assert_eq!(pixels(1999), 1);
    assert_eq!(pixels(-999), 0);
    assert_eq!(pixels(-1000), -1);
    assert_eq!(pixels(-1999), -1);
    assert_eq!(pixels(490_000), 490);
    assert_eq!(pixels(i64::MAX), 9_223_372_036_854_775);
    assert_eq!(pixels(i64::MIN), -9_223_372_036_854_775);
}

#[test]
fn travel_is_rate_times_time() {
    assert_eq!(travel(200_000, 2_500_000), 500_000);
    assert_eq!(travel(200_000, 16_667), 3_333);
    assert_eq!(travel(1_200_000, 1_000), 1_200);
    assert_eq!(travel(0, 1_000_000), 0);
    assert_eq!(travel(5, 0), 0);
}

#[test]
fn travel_rounds_toward_zero_both_ways() {
    assert_eq!(travel(489_897, 1_000), 489);
    assert_eq!(travel(-489_897, 1_000), -489);
    assert_eq!(travel(-1, 999_999), 0);
    assert_eq!(travel(1, 999_999), 0);
}

#[test]
fn travel_at_the_extremes() {
    assert_eq!(
        travel(i64::MAX, u32::MAX),
        (i64::MAX as i128) * (u32::MAX as i128) / 1_000_000
    );
    assert_eq!(
        travel(i64::MIN, u32::MAX),
        (i64::MIN as i128) * (u32::MAX as i128) / 1_000_000
    );
}

#[test]
fn vector_holds_its_coordinates() {
    let v = Vector2::new(3, -4);
    assert_eq!(v.x, 3);
    assert_eq!(v.y, -4);
    assert_eq!(v, Vector2 { x: 3, y: -4 });
}

fn overlap(cx: i64, cy: i64, cw: i64, ch: i64, ox: i64, oy: i64, ow: i64, oh: i64) -> bool {
    centered_overlaps_corner(
        Vector2::new(cx, cy),
        Vector2::new(cw, ch),
        Vector2::new(ox, oy),
        Vector2::new(ow, oh),
    )
}

#[test]
fn boxes_that_overlap_collide() {
    assert!(overlap(0, 0, 10, 10, 0, 0, 10, 10));
    assert!(overlap(0, 0, 10, 10, 4, 4, 10, 10));
    assert!(overlap(0, 0, 10, 10, -14, -14, 10, 10));
}

#[test]
fn boxes_that_touch_do_not_collide() {
    // right edge of the centred box on the left edge of the other
    assert!(!overlap(0, 0, 10, 10, 5, 0, 10, 10));
    // left edge on right edge
    assert!(!overlap(0, 0, 10, 10, -15, 0, 10, 10));
    // bottom edge on top edge
    assert!(!overlap(0, 0, 10, 10, 0, 5, 10, 10));
    // top edge on bottom edge
    assert!(!overlap(0, 0, 10, 10, 0, -15, 10, 10));
    // one unit further in, they do
    assert!(overlap(0, 0, 10, 10, 4, 0, 10, 10));
    assert!(overlap(0, 0, 10, 10, -14, 0, 10, 10));
}

#[test]
fn boxes_of_odd_size_keep_exact_edges() {
    // the centred box reaches from -1.5 to 1.5
    assert!(overlap(0, 0, 3, 3, 1, 0, 5, 5));
    assert!(!overlap(0, 0, 3, 3, 2, 0, 5, 5));
    assert!(overlap(0, 0, 3, 3, -6, 0, 5, 5));
    assert!(!overlap(0, 0, 3, 3, -7, 0, 5, 5));
}

#[test]
fn overlap_is_the_same_from_either_side() {
    // two boxes given by corners a and b; each is tested as the centred box
    // against the other, with even sizes so that both forms are exact
    let cases = [
        (0i64, 0i64, 10i64, 10i64, 5i64, 5i64, 10i64, 10i64),
        (0, 0, 10, 10, 10, 0, 10, 10),
        (0, 0, 10, 10, 9, 9, 2, 2),
        (0, 0, 4, 4, 20, 20, 4, 4),
        (-8, -8, 6, 6, -4, -4, 10, 2),
    ];
    for (ax, ay, aw, ah, bx, by, bw, bh) in cases {
        let a_centred = overlap(ax + aw / 2, ay + ah / 2, aw, ah, bx, by, bw, bh);
        let b_centred = overlap(bx + bw / 2, by + bh / 2, bw, bh, ax, ay, aw, ah);
        assert_eq!(a_centred, b_centred);
    }
}

#[test]
fn overlap_at_the_extremes_does_not_wrap() {
    assert!(!overlap(i64::MAX, 0, i64::MAX, 10, i64::MIN, 0, 10, 10));
    assert!(overlap(i64::MAX, 0, i64::MAX, 10, i64::MAX - 5, 0, 10, 10));
    assert!(!overlap(i64::MIN, i64::MIN, 2, 2, i64::MAX, i64::MAX, i64::MAX, i64::MAX));
}
