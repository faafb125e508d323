//! The backdrop: decorative elements on three depth layers, drawn back to
//! front, the far layers scrolling more slowly than the near ones.

use vstd::prelude::*;
use crate::canvas::{draw_rectangle, rectangle, DrawCommand};
use crate::color::Color;
use crate::drawable::Drawable;
use crate::units::{pixels, saturate, saturated, to_pixels, trunc_div};

verus! {

/// The number of depth layers: 0 is the background, 1 the midground, 2 the
/// foreground.
pub const LAYERS: i32 = 3;

/// A coloured rectangle of the world. It never changes once made.
#[derive(Clone, Copy, Debug, PartialEq, Eq, Structural)]
pub struct SceneryElement {
    pub x: i64,
    pub y: i64,
    pub width: i64,
    pub height: i64,
    pub color: Color,
    pub layer: i32,
}

/// Whether something `width` wide with its left edge at `screen_x` meets
/// the screen.
pub open spec fn on_screen(screen_x: i64, width: i64, screen_width: i64) -> bool {
    screen_x + width >= 0 && screen_x <= screen_width
}

/// Tells whether something `width` wide with its left edge at `screen_x`
/// meets the screen.
pub fn is_on_screen(screen_x: i64, width: i64, screen_width: i64) -> (r: bool)
    ensures
        r == on_screen(screen_x, width, screen_width),
{
    screen_x as i128 + width as i128 >= 0 && screen_x <= screen_width
}

impl SceneryElement {
    pub fn new(x: i64, y: i64, width: i64, height: i64, color: Color, layer: i32) -> (element:
        SceneryElement)
        ensures
            element == (SceneryElement { x, y, width, height, color, layer }),
    {
        SceneryElement { x, y, width, height, color, layer }
    }
}

impl Drawable for SceneryElement {
    open spec fn position(&self) -> (i64, i64) {
        (self.x, self.y)
    }

    open spec fn size(&self) -> (i64, i64) {
        (self.width, self.height)
    }

    open spec fn layer(&self) -> i32 {
        self.layer
    }

    open spec fn picture(&self, screen_x: i64, screen_width: i64) -> Seq<DrawCommand> {
        if on_screen(screen_x, self.width, screen_width) {
            seq![
                rectangle(
                    to_pixels(screen_x as int),
                    to_pixels(self.y as int),
                    to_pixels(self.width as int),
                    to_pixels(self.height as int),
                    self.color,
                ),
            ]
        } else {
            seq![]
        }
    }

    fn draw(&self, d: &mut Vec<DrawCommand>, screen_x: i64, screen_width: i64) {
        if is_on_screen(screen_x, self.width, screen_width) {
            draw_rectangle(
                d,
                pixels(screen_x),
                pixels(self.y),
                pixels(self.width),
                pixels(self.height),
                self.color,
            );
        }
        assert(d@ =~= old(d)@ + self.picture(screen_x, screen_width));
    }

    fn get_position(&self) -> (r: (i64, i64)) {
        (self.x, self.y)
    }

    fn get_size(&self) -> (r: (i64, i64)) {
        (self.width, self.height)
    }

    fn get_layer(&self) -> (r: i32) {
        self.layer
    }
}

#[derive(Clone, Copy, Debug, PartialEq, Eq, Structural)]
pub enum SceneryType {
    Tree,
    Cloud,
    Mountain,
    Ground,
    GrassTuft,
}

#[verifier::allow_in_spec]
pub fn trunk_color() -> Color
    returns
        (Color { r: 139, g: 69, b: 19, a: 255 }),
{
    Color { r: 139, g: 69, b: 19, a: 255 }
}

#[verifier::allow_in_spec]
pub fn foliage_color() -> Color
    returns
        (Color { r: 34, g: 139, b: 34, a: 255 }),
{
    Color { r: 34, g: 139, b: 34, a: 255 }
}

#[verifier::allow_in_spec]
pub fn mountain_color() -> Color
    returns
        (Color { r: 128, g: 128, b: 128, a: 255 }),
{
    Color { r: 128, g: 128, b: 128, a: 255 }
}

#[verifier::allow_in_spec]
pub fn ground_color() -> Color
    returns
        (Color { r: 76, g: 153, b: 0, a: 255 }),
{
    Color { r: 76, g: 153, b: 0, a: 255 }
}

#[verifier::allow_in_spec]
pub fn grass_color() -> Color
    returns
        (Color { r: 102, g: 204, b: 0, a: 255 }),
{
    Color { r: 102, g: 204, b: 0, a: 255 }
}

/// The first of a pair of measures, or `fallback` when none is given.
pub open spec fn first_or(params: Option<(i64, i64)>, fallback: i64) -> i64 {
    match params {
        Some(pair) => pair.0,
        None => fallback,
    }
}

/// The elements that make up one piece of scenery at `x`.
///
/// A tree is a trunk standing on the ground line with its foliage on top; a
/// mountain stands on the ground line; a cloud floats at `y`; a ground tile
/// lies on the ground line and a grass tuft just above it. `params` gives
/// the height of a tree or a mountain, or the width and height of a cloud.
pub open spec fn scenery_elements(
    element_type: SceneryType,
    x: i64,
    y: i64,
    params: Option<(i64, i64)>,
    ground_level: i64,
) -> Seq<SceneryElement> {
    match element_type {
        SceneryType::Tree => {
            let height = first_or(params, 100_000);
            seq![
                SceneryElement {
                    x,
                    y: saturated(ground_level - height),
                    width: 20_000,
                    height,
                    color: trunk_color(),
                    layer: 2,
                },
                SceneryElement {
                    x: saturated(x - 30_000),
                    y: saturated(ground_level - height - 60_000),
                    width: 80_000,
                    height: 80_000,
                    color: foliage_color(),
                    layer: 2,
                },
            ]
        },
        SceneryType::Cloud => {
            let (width, height) = match params {
                Some(pair) => pair,
                None => (100_000i64, 40_000i64),
            };
            seq![SceneryElement { x, y, width, height, color: Color::white(), layer: 1 }]
        },
        SceneryType::Mountain => {
            let height = first_or(params, 200_000);
            seq![
                SceneryElement {
                    x,
                    y: saturated(ground_level - height),
                    width: 300_000,
                    height,
                    color: mountain_color(),
                    layer: 0,
                },
            ]
        },
        SceneryType::Ground => seq![
            SceneryElement {
                x,
                y: ground_level,
                width: 200_000,
                height: 50_000,
                color: ground_color(),
                layer: 2,
            },
        ],
        SceneryType::GrassTuft => seq![
            SceneryElement {
                x,
                y: saturated(ground_level - 10_000),
                width: 15_000,
                height: 10_000,
                color: grass_color(),
                layer: 2,
            },
        ],
    }
}

/// Makes the elements of one piece of scenery at `x`.
pub fn create_scenery_element(
    element_type: SceneryType,
    x: i64,
    y: i64,
    params: Option<(i64, i64)>,
    ground_level: i64,
) -> (elements: Vec<SceneryElement>)
    ensures
        elements@ == scenery_elements(element_type, x, y, params, ground_level),
{
    let mut elements: Vec<SceneryElement> = Vec::new();
    match element_type {
        SceneryType::Tree => {
            let height = match params {
                Some(pair) => pair.0,
                None => 100_000,
            };
            elements.push(
                SceneryElement::new(
                    x,
                    saturate(ground_level as i128 - height as i128),
                    20_000,
                    height,
                    trunk_color(),
                    2,
                ),
            );
            elements.push(
                SceneryElement::new(
                    saturate(x as i128 - 30_000),
                    saturate(ground_level as i128 - height as i128 - 60_000),
                    80_000,
                    80_000,
                    foliage_color(),
                    2,
                ),
            );
        },
        SceneryType::Cloud => {
            let (width, height) = match params {
                Some(pair) => pair,
                None => (100_000i64, 40_000i64),
            };
            elements.push(SceneryElement::new(x, y, width, height, Color::white(), 1));
        },
        SceneryType::Mountain => {
            let height = match params {
                Some(pair) => pair.0,
                None => 200_000,
            };
            elements.push(
                SceneryElement::new(
                    x,
                    saturate(ground_level as i128 - height as i128),
                    300_000,
                    height,
                    mountain_color(),
                    0,
                ),
            );
        },
        SceneryType::Ground => {
            elements.push(SceneryElement::new(x, ground_level, 200_000, 50_000, ground_color(), 2));
        },
        SceneryType::GrassTuft => {
            elements.push(
                SceneryElement::new(
                    x,
                    saturate(ground_level as i128 - 10_000),
                    15_000,
                    10_000,
                    grass_color(),
                    2,
                ),
            );
        },
    }
    assert(elements@ =~= scenery_elements(element_type, x, y, params, ground_level));
    elements
}

/// How far a layer has scrolled when the camera is at `camera_offset`: half
/// of the offset for the background, four fifths for the midground, all of
/// it for the foreground.
pub open spec fn parallax_shift(camera_offset: i64, layer: i32) -> int {
    if layer == 0 {
        trunc_div(camera_offset * 5, 10)
    } else if layer == 1 {
        trunc_div(camera_offset * 8, 10)
    } else {
        camera_offset as int
    }
}

/// Computes how far a layer has scrolled.
pub fn parallax(camera_offset: i64, layer: i32) -> (shift: i64)
    ensures
        shift == parallax_shift(camera_offset, layer),
{
    if layer == 0 {
        (camera_offset as i128 * 5 / 10) as i64
    } else if layer == 1 {
        (camera_offset as i128 * 8 / 10) as i64
    } else {
        camera_offset
    }
}

/// Where on the screen the left edge of `element` lies when it is drawn on
/// `layer`.
pub open spec fn screen_position<T: Drawable>(element: T, layer: i32, camera_offset: i64) -> i64 {
    saturated(element.position().0 - parallax_shift(camera_offset, layer))
}

/// What `element` adds to the drawing of `layer`: its picture if it belongs
/// to the layer and meets the screen, nothing otherwise.
pub open spec fn element_picture<T: Drawable>(
    element: T,
    layer: i32,
    camera_offset: i64,
    screen_width: i64,
) -> Seq<DrawCommand> {
    let screen_x = screen_position(element, layer, camera_offset);
    if element.layer() == layer && on_screen(screen_x, element.size().0, screen_width) {
        element.picture(screen_x, screen_width)
    } else {
        seq![]
    }
}

/// The drawing of one layer: the pictures of its elements in the order in
/// which they were added.
pub open spec fn layer_pictures<T: Drawable>(
    elements: Seq<T>,
    layer: i32,
    camera_offset: i64,
    screen_width: i64,
) -> Seq<DrawCommand>
    decreases elements.len(),
{
    if elements.len() == 0 {
        seq![]
    } else {
        layer_pictures(elements.drop_last(), layer, camera_offset, screen_width) + element_picture(
            elements.last(),
            layer,
            camera_offset,
            screen_width,
        )
    }
}

/// The drawing of the first `count` layers, the farthest first.
pub open spec fn layers_below<T: Drawable>(
    elements: Seq<T>,
    count: i32,
    camera_offset: i64,
    screen_width: i64,
) -> Seq<DrawCommand>
    decreases count,
{
    if count <= 0 {
        seq![]
    } else {
        layers_below(elements, (count - 1) as i32, camera_offset, screen_width) + layer_pictures(
            elements,
            (count - 1) as i32,
            camera_offset,
            screen_width,
        )
    }
}

/// A collection of drawable elements, each carrying its own layer.
pub struct Scenery<T: Drawable> {
    pub elements: Vec<T>,
}

impl<T: Drawable> Scenery<T> {
    /// The drawing of the whole backdrop as seen from a camera at
    /// `camera_offset`: all three layers, back to front.
    pub open spec fn backdrop(self, camera_offset: i64, screen_width: i64) -> Seq<DrawCommand> {
        layers_below(self.elements@, LAYERS, camera_offset, screen_width)
    }

    pub fn new() -> (scenery: Scenery<T>)
        ensures
            scenery.elements@ == Seq::<T>::empty(),
    {
        Scenery { elements: Vec::new() }
    }

    /// Adds `elements` behind those that are already there.
    pub fn extend(&mut self, elements: Vec<T>)
        ensures
            final(self).elements@ == old(self).elements@ + elements@,
    {
        let mut elements = elements;
        self.elements.append(&mut elements);
    }

    fn draw_layer(&self, d: &mut Vec<DrawCommand>, layer: i32, camera_offset: i64, screen_width: i64)
        ensures
            final(d)@ == old(d)@ + layer_pictures(
                self.elements@,
                layer,
                camera_offset,
                screen_width,
            ),
    {
        let shift = parallax(camera_offset, layer);
        let mut i: usize = 0;
        assert(self.elements@.subrange(0, 0) =~= Seq::<T>::empty());
        while i < self.elements.len()
            invariant
                i <= self.elements.len(),
                shift == parallax_shift(camera_offset, layer),
                d@ == old(d)@ + layer_pictures(
                    self.elements@.subrange(0, i as int),
                    layer,
                    camera_offset,
                    screen_width,
                ),
            decreases self.elements.len() - i,
        {
            let element = &self.elements[i];
            proof {
                let longer = self.elements@.subrange(0, i + 1);
                assert(longer.drop_last() =~= self.elements@.subrange(0, i as int));
                assert(longer.last() == *element);
            }
            if element.get_layer() == layer {
                let (x, _) = element.get_position();
                let (width, _) = element.get_size();
                let screen_x = saturate(x as i128 - shift as i128);
                if is_on_screen(screen_x, width, screen_width) {
                    element.draw(d, screen_x, screen_width);
                }
            }
            assert(d@ =~= old(d)@ + layer_pictures(
                self.elements@.subrange(0, i + 1),
                layer,
                camera_offset,
                screen_width,
            ));
            i = i + 1;
        }
        assert(self.elements@.subrange(0, i as int) =~= self.elements@);
    }

    /// Appends the drawing of the backdrop to the frame `d`, layer by layer
    /// from the background to the foreground. Elements that do not meet the
    /// screen are left out.
    pub fn draw(&self, d: &mut Vec<DrawCommand>, camera_offset: i64, screen_width: i64)
        ensures
            final(d)@ == old(d)@ + self.backdrop(camera_offset, screen_width),
    {
        let mut layer: i32 = 0;
        while layer < LAYERS
            invariant
                0 <= layer <= LAYERS,
                d@ == old(d)@ + layers_below(self.elements@, layer, camera_offset, screen_width),
            decreases LAYERS - layer,
        {
            self.draw_layer(d, layer, camera_offset, screen_width);
            layer = layer + 1;
            assert(d@ =~= old(d)@ + layers_below(
                self.elements@,
                layer,
                camera_offset,
                screen_width,
            ));
        }
    }
}

/// Nearer layers scroll faster: whichever way the camera has moved, the
/// background has scrolled no further than the midground, and the midground
/// no further than the foreground.
pub proof fn lemma_nearer_layers_scroll_faster(camera_offset: i64)
    ensures
        camera_offset >= 0 ==> 0 <= parallax_shift(camera_offset, 0) <= parallax_shift(
            camera_offset,
            1,
        ) <= parallax_shift(camera_offset, 2),
        camera_offset <= 0 ==> 0 >= parallax_shift(camera_offset, 0) >= parallax_shift(
            camera_offset,
            1,
        ) >= parallax_shift(camera_offset, 2),
{
}

} // verus!
