//! The drawing commands that a frame is made of.

use vstd::prelude::*;
use crate::color::Color;
use crate::geometry::Vector2;

verus! {

/// A line of text on the screen, named by what it says; the number it shows
/// travels with it.
#[derive(Clone, Copy, Debug, PartialEq, Eq, Structural)]
pub enum Caption {
    /// The measured frame rate.
    Fps(u32),
    /// The distance score.
    Score(i64),
    /// The charge of the jump, in percent.
    JumpPower(u64),
    /// The headline of the game-over screen.
    GameOver,
    /// The invitation to start again.
    Restart,
}

/// One drawing primitive. Triangles are placed in world units; everything
/// else is placed in whole pixels.
#[derive(Clone, Copy, Debug, PartialEq, Eq, Structural)]
pub enum DrawCommand {
    Clear { color: Color },
    Rectangle { x: i64, y: i64, width: i64, height: i64, color: Color },
    RectangleLines { x: i64, y: i64, width: i64, height: i64, color: Color },
    Triangle { a: Vector2, b: Vector2, c: Vector2, color: Color },
    Circle { x: i64, y: i64, radius: i64, color: Color },
    Line { x1: i64, y1: i64, x2: i64, y2: i64, color: Color },
    Text { caption: Caption, x: i64, y: i64, font_size: i64, color: Color },
}

/// A filled rectangle with its top-left corner at (`x`, `y`).
pub open spec fn rectangle(x: int, y: int, width: int, height: int, color: Color) -> DrawCommand {
    DrawCommand::Rectangle {
        x: x as i64,
        y: y as i64,
        width: width as i64,
        height: height as i64,
        color,
    }
}

/// The outline of a rectangle with its top-left corner at (`x`, `y`).
pub open spec fn rectangle_lines(
    x: int,
    y: int,
    width: int,
    height: int,
    color: Color,
) -> DrawCommand {
    DrawCommand::RectangleLines {
        x: x as i64,
        y: y as i64,
        width: width as i64,
        height: height as i64,
        color,
    }
}

/// A filled disc around (`x`, `y`).
pub open spec fn circle(x: int, y: int, radius: int, color: Color) -> DrawCommand {
    DrawCommand::Circle { x: x as i64, y: y as i64, radius: radius as i64, color }
}

/// A line from (`x1`, `y1`) to (`x2`, `y2`).
pub open spec fn line(x1: int, y1: int, x2: int, y2: int, color: Color) -> DrawCommand {
    DrawCommand::Line { x1: x1 as i64, y1: y1 as i64, x2: x2 as i64, y2: y2 as i64, color }
}

/// A caption with its top-left corner at (`x`, `y`).
pub open spec fn text(caption: Caption, x: int, y: int, font_size: int, color: Color) -> DrawCommand {
    DrawCommand::Text { caption, x: x as i64, y: y as i64, font_size: font_size as i64, color }
}

pub fn draw_rectangle(
    d: &mut Vec<DrawCommand>,
    x: i64,
    y: i64,
    width: i64,
    height: i64,
    color: Color,
)
    ensures
        final(d)@ == old(d)@.push(rectangle(x as int, y as int, width as int, height as int, color)),
{
    d.push(DrawCommand::Rectangle { x, y, width, height, color });
}

pub fn draw_rectangle_lines(
    d: &mut Vec<DrawCommand>,
    x: i64,
    y: i64,
    width: i64,
    height: i64,
    color: Color,
)
    ensures
        final(d)@ == old(d)@.push(
            rectangle_lines(x as int, y as int, width as int, height as int, color),
        ),
{
    d.push(DrawCommand::RectangleLines { x, y, width, height, color });
}

pub fn draw_circle(d: &mut Vec<DrawCommand>, x: i64, y: i64, radius: i64, color: Color)
    ensures
        final(d)@ == old(d)@.push(circle(x as int, y as int, radius as int, color)),
{
    d.push(DrawCommand::Circle { x, y, radius, color });
}

pub fn draw_line(d: &mut Vec<DrawCommand>, x1: i64, y1: i64, x2: i64, y2: i64, color: Color)
    ensures
        final(d)@ == old(d)@.push(line(x1 as int, y1 as int, x2 as int, y2 as int, color)),
{
    d.push(DrawCommand::Line { x1, y1, x2, y2, color });
}

pub fn draw_triangle(d: &mut Vec<DrawCommand>, a: Vector2, b: Vector2, c: Vector2, color: Color)
    ensures
        final(d)@ == old(d)@.push(DrawCommand::Triangle { a, b, c, color }),
{
    d.push(DrawCommand::Triangle { a, b, c, color });
}

pub fn draw_text(
    d: &mut Vec<DrawCommand>,
    caption: Caption,
    x: i64,
    y: i64,
    font_size: i64,
    color: Color,
)
    ensures
        final(d)@ == old(d)@.push(text(caption, x as int, y as int, font_size as int, color)),
{
    d.push(DrawCommand::Text { caption, x, y, font_size, color });
}

pub fn clear_background(d: &mut Vec<DrawCommand>, color: Color)
    ensures
        final(d)@ == old(d)@.push(DrawCommand::Clear { color }),
{
    d.push(DrawCommand::Clear { color });
}

} // verus!
