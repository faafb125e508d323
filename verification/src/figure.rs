//! The player's figure: a humanoid built from rectangles, circles and lines,
//! every part placed relative to one anchor point and scaled by the player's
//! size.

use vstd::prelude::*;
use crate::canvas::{
    circle, draw_circle, draw_line, draw_rectangle, draw_rectangle_lines, line, rectangle,
    rectangle_lines, DrawCommand,
};
use crate::color::Color;
use crate::units::trunc_div;

verus! {

/// The largest magnitude that a length in whole pixels can have.
pub const PIXEL_LIMIT: i64 = 9_223_372_036_854_776;

/// Anchor and size of the figure, in whole pixels.
#[derive(Clone, Copy, Debug, PartialEq, Eq, Structural)]
pub struct Figure {
    pub x: i64,
    pub y: i64,
    pub width: i64,
    pub height: i64,
}

impl Figure {
    /// Every measure is a length in whole pixels.
    pub open spec fn wf(self) -> bool {
        &&& -PIXEL_LIMIT <= self.x <= PIXEL_LIMIT
        &&& -PIXEL_LIMIT <= self.y <= PIXEL_LIMIT
        &&& -PIXEL_LIMIT <= self.width <= PIXEL_LIMIT
        &&& -PIXEL_LIMIT <= self.height <= PIXEL_LIMIT
    }
}

#[verifier::allow_in_spec]
pub fn body_color() -> Color
    returns
        (Color { r: 30, g: 90, b: 150, a: 255 }),
{
    Color { r: 30, g: 90, b: 150, a: 255 }
}

#[verifier::allow_in_spec]
pub fn body_outline() -> Color
    returns
        (Color { r: 20, g: 60, b: 100, a: 255 }),
{
    Color { r: 20, g: 60, b: 100, a: 255 }
}

#[verifier::allow_in_spec]
pub fn skin_color() -> Color
    returns
        (Color { r: 255, g: 213, b: 170, a: 255 }),
{
    Color { r: 255, g: 213, b: 170, a: 255 }
}

#[verifier::allow_in_spec]
pub fn skin_outline() -> Color
    returns
        (Color { r: 200, g: 160, b: 130, a: 255 }),
{
    Color { r: 200, g: 160, b: 130, a: 255 }
}

#[verifier::allow_in_spec]
pub fn pants_color() -> Color
    returns
        (Color { r: 40, g: 40, b: 120, a: 255 }),
{
    Color { r: 40, g: 40, b: 120, a: 255 }
}

#[verifier::allow_in_spec]
pub fn shoes_color() -> Color
    returns
        (Color { r: 160, g: 40, b: 40, a: 255 }),
{
    Color { r: 160, g: 40, b: 40, a: 255 }
}

#[verifier::allow_in_spec]
pub fn hair_color() -> Color
    returns
        (Color { r: 80, g: 50, b: 20, a: 255 }),
{
    Color { r: 80, g: 50, b: 20, a: 255 }
}

#[verifier::allow_in_spec]
pub fn shadow_color() -> Color
    returns
        (Color { r: 0, g: 0, b: 0, a: 50 }),
{
    Color { r: 0, g: 0, b: 0, a: 50 }
}

#[verifier::allow_in_spec]
pub fn lips_color() -> Color
    returns
        (Color { r: 200, g: 100, b: 100, a: 255 }),
{
    Color { r: 200, g: 100, b: 100, a: 255 }
}

#[verifier::allow_in_spec]
pub fn throat_color() -> Color
    returns
        (Color { r: 100, g: 10, b: 10, a: 255 }),
{
    Color { r: 100, g: 10, b: 10, a: 255 }
}

#[verifier::allow_in_spec]
pub fn belt_color() -> Color
    returns
        (Color { r: 200, g: 180, b: 60, a: 255 }),
{
    Color { r: 200, g: 180, b: 60, a: 255 }
}

#[verifier::allow_in_spec]
pub fn button_color() -> Color
    returns
        (Color { r: 220, g: 220, b: 220, a: 255 }),
{
    Color { r: 220, g: 220, b: 220, a: 255 }
}

/// The shadow on the ground under the feet.
pub open spec fn shadow(f: Figure) -> Seq<DrawCommand> {
    seq![circle(f.x as int, f.y + f.height, trunc_div(f.width as int, 2), shadow_color())]
}

/// The two trouser legs, then the two shoes.
pub open spec fn legs(f: Figure) -> Seq<DrawCommand> {
    let third = trunc_div(f.width as int, 3);
    let half = trunc_div(f.height as int, 2);
    seq![
        rectangle(f.x - third - 2, f.y + half, third, half, pants_color()),
        rectangle(f.x + 2, f.y + half, third, half, pants_color()),
        rectangle(f.x - third - 4, f.y + f.height - 12, third + 2, 12, shoes_color()),
        rectangle(f.x + 2, f.y + f.height - 12, third + 2, 12, shoes_color()),
    ]
}

/// The torso and its outline.
pub open spec fn torso(f: Figure) -> Seq<DrawCommand> {
    let left = f.x - trunc_div(f.width as int, 2);
    let top = f.y - trunc_div(f.height as int, 4);
    let tall = trunc_div(f.height * 3, 4);
    seq![
        rectangle(left, top, f.width as int, tall, body_color()),
        rectangle_lines(left, top, f.width as int, tall, body_outline()),
    ]
}

/// The head, its outline and the hair.
pub open spec fn head(f: Figure) -> Seq<DrawCommand> {
    let left = f.x - trunc_div(f.width as int, 2) + 2;
    let quarter = trunc_div(f.height as int, 4);
    let top = f.y - quarter - quarter;
    seq![
        rectangle(left, top, f.width - 4, quarter, skin_color()),
        rectangle_lines(left, top, f.width - 4, quarter, skin_outline()),
        rectangle(left, top, f.width - 4, trunc_div(f.height as int, 8), hair_color()),
    ]
}

/// The whites of the eyes, then the pupils.
pub open spec fn eyes(f: Figure) -> Seq<DrawCommand> {
    let top = f.y - trunc_div(f.height as int, 4) - trunc_div(f.height as int, 6);
    let tenth = trunc_div(f.width as int, 10);
    let left = f.x - trunc_div(f.width as int, 5);
    let right = f.x + tenth;
    let pupil_width = trunc_div(f.width as int, 15);
    let pupil_height = trunc_div(f.height as int, 20);
    seq![
        rectangle(left, top, tenth, trunc_div(f.height as int, 16), Color::white()),
        rectangle(right, top, tenth, trunc_div(f.height as int, 16), Color::white()),
        rectangle(left + 2, top + 2, pupil_width, pupil_height, Color::black()),
        rectangle(right + 2, top + 2, pupil_width, pupil_height, Color::black()),
    ]
}

/// The mouth: round and open while the player jumps or charges, a closed
/// line otherwise.
pub open spec fn mouth(f: Figure, open: bool) -> Seq<DrawCommand> {
    let level = f.y - trunc_div(f.height as int, 4) - trunc_div(f.height as int, 16);
    if open {
        seq![
            circle(f.x as int, level, trunc_div(f.width as int, 10), lips_color()),
            circle(f.x as int, level, trunc_div(f.width as int, 15), throat_color()),
        ]
    } else {
        let reach = trunc_div(f.width as int, 6);
        seq![line(f.x - reach, level, f.x + reach, level, lips_color())]
    }
}

/// The left arm and the right arm, each with its outline, then the hands.
pub open spec fn arms(f: Figure) -> Seq<DrawCommand> {
    let half_width = trunc_div(f.width as int, 2);
    let sixth = trunc_div(f.width as int, 6);
    let half_height = trunc_div(f.height as int, 2);
    seq![
        rectangle(f.x - half_width - sixth, f.y as int, sixth, half_height, body_color()),
        rectangle_lines(f.x - half_width - sixth, f.y as int, sixth, half_height, body_outline()),
        rectangle(f.x + half_width, f.y as int, sixth, half_height, body_color()),
        rectangle_lines(f.x + half_width, f.y as int, sixth, half_height, body_outline()),
        rectangle(
            f.x - half_width - sixth - 4,
            f.y + half_height - 8,
            sixth + 2,
            8,
            skin_color(),
        ),
        rectangle(f.x + half_width + 2, f.y + half_height - 8, sixth + 2, 8, skin_color()),
    ]
}

/// The first `count` buttons, from the top one down.
pub open spec fn buttons(f: Figure, count: int) -> Seq<DrawCommand>
    decreases count,
{
    if count <= 0 {
        seq![]
    } else {
        buttons(f, count - 1).push(
            rectangle(
                f.x - 2,
                f.y - trunc_div(f.height as int, 8) + (count - 1) * trunc_div(f.height as int, 6),
                4,
                4,
                button_color(),
            ),
        )
    }
}

/// The belt and the three buttons above and below it.
pub open spec fn trim(f: Figure) -> Seq<DrawCommand> {
    let half_width = trunc_div(f.width as int, 2);
    let belt = f.y + trunc_div(f.height as int, 4);
    seq![line(f.x - half_width, belt, f.x + half_width, belt, belt_color())] + buttons(f, 3)
}

/// The whole figure, back to front.
pub open spec fn figure(f: Figure, open: bool) -> Seq<DrawCommand> {
    shadow(f) + legs(f) + torso(f) + head(f) + eyes(f) + mouth(f, open) + arms(f) + trim(f)
}

fn draw_shadow(d: &mut Vec<DrawCommand>, f: Figure)
    requires
        f.wf(),
    ensures
        final(d)@ == old(d)@ + shadow(f),
{
    draw_circle(d, f.x, f.y + f.height, f.width / 2, shadow_color());
    assert(d@ =~= old(d)@ + shadow(f));
}

fn draw_legs(d: &mut Vec<DrawCommand>, f: Figure)
    requires
        f.wf(),
    ensures
        final(d)@ == old(d)@ + legs(f),
{
    let third = f.width / 3;
    let half = f.height / 2;
    draw_rectangle(d, f.x - third - 2, f.y + half, third, half, pants_color());
    draw_rectangle(d, f.x + 2, f.y + half, third, half, pants_color());
    draw_rectangle(d, f.x - third - 4, f.y + f.height - 12, third + 2, 12, shoes_color());
    draw_rectangle(d, f.x + 2, f.y + f.height - 12, third + 2, 12, shoes_color());
    assert(d@ =~= old(d)@ + legs(f));
}

fn draw_torso(d: &mut Vec<DrawCommand>, f: Figure)
    requires
        f.wf(),
    ensures
        final(d)@ == old(d)@ + torso(f),
{
    let left = f.x - f.width / 2;
    let top = f.y - f.height / 4;
    let tall = f.height * 3 / 4;
    draw_rectangle(d, left, top, f.width, tall, body_color());
    draw_rectangle_lines(d, left, top, f.width, tall, body_outline());
    assert(d@ =~= old(d)@ + torso(f));
}

fn draw_head(d: &mut Vec<DrawCommand>, f: Figure)
    requires
        f.wf(),
    ensures
        final(d)@ == old(d)@ + head(f),
{
    let left = f.x - f.width / 2 + 2;
    let quarter = f.height / 4;
    let top = f.y - quarter - quarter;
    draw_rectangle(d, left, top, f.width - 4, quarter, skin_color());
    draw_rectangle_lines(d, left, top, f.width - 4, quarter, skin_outline());
    draw_rectangle(d, left, top, f.width - 4, f.height / 8, hair_color());
    assert(d@ =~= old(d)@ + head(f));
}

fn draw_eyes(d: &mut Vec<DrawCommand>, f: Figure)
    requires
        f.wf(),
    ensures
        final(d)@ == old(d)@ + eyes(f),
{
    let top = f.y - f.height / 4 - f.height / 6;
    let tenth = f.width / 10;
    let left = f.x - f.width / 5;
    let right = f.x + tenth;
    let pupil_width = f.width / 15;
    let pupil_height = f.height / 20;
    draw_rectangle(d, left, top, tenth, f.height / 16, Color::white());
    draw_rectangle(d, right, top, tenth, f.height / 16, Color::white());
    draw_rectangle(d, left + 2, top + 2, pupil_width, pupil_height, Color::black());
    draw_rectangle(d, right + 2, top + 2, pupil_width, pupil_height, Color::black());
    assert(d@ =~= old(d)@ + eyes(f));
}

fn draw_mouth(d: &mut Vec<DrawCommand>, f: Figure, open: bool)
    requires
        f.wf(),
    ensures
        final(d)@ == old(d)@ + mouth(f, open),
{
    let level = f.y - f.height / 4 - f.height / 16;
    if open {
        draw_circle(d, f.x, level, f.width / 10, lips_color());
        draw_circle(d, f.x, level, f.width / 15, throat_color());
    } else {
        let reach = f.width / 6;
        draw_line(d, f.x - reach, level, f.x + reach, level, lips_color());
    }
    assert(d@ =~= old(d)@ + mouth(f, open));
}

fn draw_arms(d: &mut Vec<DrawCommand>, f: Figure)
    requires
        f.wf(),
    ensures
        final(d)@ == old(d)@ + arms(f),
{
    let half_width = f.width / 2;
    let sixth = f.width / 6;
    let half_height = f.height / 2;
    draw_rectangle(d, f.x - half_width - sixth, f.y, sixth, half_height, body_color());
    draw_rectangle_lines(d, f.x - half_width - sixth, f.y, sixth, half_height, body_outline());
    draw_rectangle(d, f.x + half_width, f.y, sixth, half_height, body_color());
    draw_rectangle_lines(d, f.x + half_width, f.y, sixth, half_height, body_outline());
    draw_rectangle(
        d,
        f.x - half_width - sixth - 4,
        f.y + half_height - 8,
        sixth + 2,
        8,
        skin_color(),
    );
    draw_rectangle(d, f.x + half_width + 2, f.y + half_height - 8, sixth + 2, 8, skin_color());
    assert(d@ =~= old(d)@ + arms(f));
}

fn draw_trim(d: &mut Vec<DrawCommand>, f: Figure)
    requires
        f.wf(),
    ensures
        final(d)@ == old(d)@ + trim(f),
{
    let half_width = f.width / 2;
    let belt = f.y + f.height / 4;
    let first = f.y - f.height / 8;
    let gap = f.height / 6;
    draw_line(d, f.x - half_width, belt, f.x + half_width, belt, belt_color());
    let ghost belted = d@;
    let mut i: i64 = 0;
    while i < 3
        invariant
            0 <= i <= 3,
            f.wf(),
            first == f.y - trunc_div(f.height as int, 8),
            gap == trunc_div(f.height as int, 6),
            d@ == belted + buttons(f, i as int),
        decreases 3 - i,
    {
        assert(-2 * PIXEL_LIMIT <= i * gap <= 2 * PIXEL_LIMIT) by (nonlinear_arith)
            requires
                0 <= i <= 2,
                -PIXEL_LIMIT <= gap <= PIXEL_LIMIT,
        ;
        draw_rectangle(d, f.x - 2, first + i * gap, 4, 4, button_color());
        i = i + 1;
        assert(d@ =~= belted + buttons(f, i as int));
    }
    assert(d@ =~= old(d)@ + trim(f));
}

/// Appends the whole figure to the frame `d`.
pub fn draw_figure(d: &mut Vec<DrawCommand>, f: Figure, open: bool)
    requires
        f.wf(),
    ensures
        final(d)@ == old(d)@ + figure(f, open),
{
    draw_shadow(d, f);
    draw_legs(d, f);
    draw_torso(d, f);
    draw_head(d, f);
    draw_eyes(d, f);
    draw_mouth(d, f, open);
    draw_arms(d, f);
    draw_trim(d, f);
    assert(d@ =~= old(d)@ + figure(f, open));
}

} // verus!
