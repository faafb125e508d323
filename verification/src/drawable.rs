//! What every entity that takes part in rendering can do.

use vstd::prelude::*;
use crate::canvas::DrawCommand;

verus! {

pub trait Drawable {
    /// Where the entity is, in its own coordinate space.
    spec fn position(&self) -> (i64, i64);

    /// Width and height of the entity.
    spec fn size(&self) -> (i64, i64);

    /// The depth layer the entity is drawn on.
    spec fn layer(&self) -> i32;

    /// The commands that draw the entity when its anchor is at `screen_x`
    /// on a screen `screen_width` wide.
    spec fn picture(&self, screen_x: i64, screen_width: i64) -> Seq<DrawCommand>;

    /// Appends the entity's picture to the frame `d`.
    fn draw(&self, d: &mut Vec<DrawCommand>, screen_x: i64, screen_width: i64)
        ensures
            final(d)@ == old(d)@ + self.picture(screen_x, screen_width),
    ;

    fn get_position(&self) -> (r: (i64, i64))
        ensures
            r == self.position(),
    ;

    fn get_size(&self) -> (r: (i64, i64))
        ensures
            r == self.size(),
    ;

    fn get_layer(&self) -> (r: i32)
        ensures
            r == self.layer(),
    ;
}

} // verus!
