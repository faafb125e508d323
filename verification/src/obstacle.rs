//! Obstacles: what they are, where they spawn, when they are recycled, and
//! whether the player has run into one.

use vstd::prelude::*;
use rand::rngs::ThreadRng;
use crate::canvas::{
    draw_line, draw_rectangle, draw_rectangle_lines, draw_triangle, line, rectangle,
    rectangle_lines, DrawCommand,
};
use crate::color::Color;
use crate::drawable::Drawable;
use crate::geometry::{centered_bounds, centered_overlaps_corner, corner_bounds, overlaps, Vector2};
use crate::random::random_range;
use crate::units::{add_saturating, pixels, saturated, sub_saturating, to_pixels};

verus! {

#[derive(Clone, Copy, Debug, PartialEq, Eq, Structural)]
pub enum ObstacleType {
    Spike,
    Block,
    FloatingPlatform,
}

impl ObstacleType {
    /// The one place that says how large each kind of obstacle is.
    #[verifier::allow_in_spec]
    pub fn size(self) -> Vector2
        returns
            (match self {
                ObstacleType::Spike => Vector2 { x: 30_000, y: 30_000 },
                ObstacleType::Block => Vector2 { x: 40_000, y: 40_000 },
                ObstacleType::FloatingPlatform => Vector2 { x: 100_000, y: 20_000 },
            }),
    {
        match self {
            ObstacleType::Spike => Vector2 { x: 30_000, y: 30_000 },
            ObstacleType::Block => Vector2 { x: 40_000, y: 40_000 },
            ObstacleType::FloatingPlatform => Vector2 { x: 100_000, y: 20_000 },
        }
    }

    /// The kind that a roll of a three-sided die stands for.
    #[verifier::allow_in_spec]
    pub fn from_roll(roll: i64) -> ObstacleType
        returns
            (if roll == 0 {
                ObstacleType::Spike
            } else if roll == 1 {
                ObstacleType::Block
            } else {
                ObstacleType::FloatingPlatform
            }),
    {
        if roll == 0 {
            ObstacleType::Spike
        } else if roll == 1 {
            ObstacleType::Block
        } else {
            ObstacleType::FloatingPlatform
        }
    }
}

/// An obstacle in the world. `position` is its top-left corner; its size
/// follows from its kind.
#[derive(Clone, Copy, Debug, PartialEq, Eq, Structural)]
pub struct Obstacle {
    pub position: Vector2,
    pub obstacle_type: ObstacleType,
}

/// The least height above the ground at which a floating platform hangs.
pub const MIN_LIFT: i64 = 60_000;

/// The height above the ground that no floating platform reaches.
pub const MAX_LIFT: i64 = 100_000;

/// The distance from one spawned obstacle to the next.
pub const MIN_SPACING: i64 = 300_000;

/// The distance between the accent lines of a floating platform.
pub const ACCENT_GAP: i64 = 30_000;

impl Obstacle {
    /// Whether the obstacle overlaps the box of size `player_size` centred
    /// on `player_pos`.
    pub open spec fn hits(self, player_pos: Vector2, player_size: Vector2) -> bool {
        overlaps(
            centered_bounds(player_pos, player_size),
            corner_bounds(self.position, self.obstacle_type.size()),
        )
    }

    /// Whether the obstacle is drawn when its left edge is at `screen_x`:
    /// not when it lies wholly to the left or to the right of the screen.
    pub open spec fn visible(self, screen_x: i64, screen_width: i64) -> bool {
        !(screen_x < -self.obstacle_type.size().x || screen_x > screen_width)
    }

    /// The first `count` accent lines of a floating platform.
    pub open spec fn accents(self, screen_x: i64, count: int) -> Seq<DrawCommand>
        decreases count,
    {
        if count <= 0 {
            seq![]
        } else {
            let x = to_pixels(saturated(screen_x + (count - 1) * ACCENT_GAP) as int);
            self.accents(screen_x, count - 1).push(
                line(
                    x,
                    to_pixels(self.position.y as int),
                    x,
                    to_pixels(saturated(self.position.y + self.obstacle_type.size().y) as int),
                    Color::green(),
                ),
            )
        }
    }

    /// The silhouette of the obstacle with its left edge at `screen_x`: a
    /// triangle for a spike, an outlined rectangle for a block, a rectangle
    /// with three accent lines for a floating platform.
    pub open spec fn silhouette(self, screen_x: i64) -> Seq<DrawCommand> {
        let size = self.obstacle_type.size();
        let x = to_pixels(screen_x as int);
        let y = to_pixels(self.position.y as int);
        let width = to_pixels(size.x as int);
        let height = to_pixels(size.y as int);
        match self.obstacle_type {
            ObstacleType::Spike => {
                let base = saturated(self.position.y + size.y);
                seq![
                    DrawCommand::Triangle {
                        a: Vector2 { x: screen_x, y: base },
                        b: Vector2 { x: saturated(screen_x + size.x), y: base },
                        c: Vector2 { x: saturated(screen_x + size.x / 2), y: self.position.y },
                        color: Color::red(),
                    },
                ]
            },
            ObstacleType::Block => seq![
                rectangle(x, y, width, height, Color::gray()),
                rectangle_lines(x, y, width, height, Color::dark_gray()),
            ],
            ObstacleType::FloatingPlatform => seq![
                rectangle(x, y, width, height, Color::dark_green()),
            ] + self.accents(screen_x, 3),
        }
    }

    pub fn new(position: Vector2, obstacle_type: ObstacleType) -> (obstacle: Obstacle)
        ensures
            obstacle == (Obstacle { position, obstacle_type }),
    {
        Obstacle { position, obstacle_type }
    }

    /// Tells whether the box of size `player_size` centred on `player_pos`
    /// overlaps the obstacle. Boxes that only touch do not collide.
    pub fn collides_with(&self, player_pos: Vector2, player_size: Vector2) -> (r: bool)
        ensures
            r == self.hits(player_pos, player_size),
    {
        centered_overlaps_corner(player_pos, player_size, self.position, self.obstacle_type.size())
    }

    fn draw_accents(&self, d: &mut Vec<DrawCommand>, screen_x: i64)
        ensures
            final(d)@ == old(d)@ + self.accents(screen_x, 3),
    {
        let size = self.obstacle_type.size();
        let top = pixels(self.position.y);
        let bottom = pixels(add_saturating(self.position.y, size.y));
        let mut i: i64 = 0;
        while i < 3
            invariant
                0 <= i <= 3,
                size == self.obstacle_type.size(),
                top == to_pixels(self.position.y as int),
                bottom == to_pixels(saturated(self.position.y + size.y) as int),
                d@ == old(d)@ + self.accents(screen_x, i as int),
            decreases 3 - i,
        {
            let x = pixels(add_saturating(screen_x, i * ACCENT_GAP));
            draw_line(d, x, top, x, bottom, Color::green());
            i = i + 1;
            assert(d@ =~= old(d)@ + self.accents(screen_x, i as int));
        }
    }
}

impl Drawable for Obstacle {
    open spec fn position(&self) -> (i64, i64) {
        (self.position.x, self.position.y)
    }

    open spec fn size(&self) -> (i64, i64) {
        (self.obstacle_type.size().x, self.obstacle_type.size().y)
    }

    /// Obstacles stand in the foreground, the layer that scrolls at the
    /// full speed of the camera.
    open spec fn layer(&self) -> i32 {
        2
    }

    open spec fn picture(&self, screen_x: i64, screen_width: i64) -> Seq<DrawCommand> {
        if self.visible(screen_x, screen_width) {
            self.silhouette(screen_x)
        } else {
            seq![]
        }
    }

    fn draw(&self, d: &mut Vec<DrawCommand>, screen_x: i64, screen_width: i64) {
        let size = self.obstacle_type.size();
        if screen_x < -size.x || screen_x > screen_width {
            assert(d@ =~= old(d)@ + self.picture(screen_x, screen_width));
            return ;
        }
        match self.obstacle_type {
            ObstacleType::Spike => {
                let base = add_saturating(self.position.y, size.y);
                draw_triangle(
                    d,
                    Vector2 { x: screen_x, y: base },
                    Vector2 { x: add_saturating(screen_x, size.x), y: base },
                    Vector2 { x: add_saturating(screen_x, size.x / 2), y: self.position.y },
                    Color::red(),
                );
            },
            ObstacleType::Block => {
                draw_rectangle(
                    d,
                    pixels(screen_x),
                    pixels(self.position.y),
                    pixels(size.x),
                    pixels(size.y),
                    Color::gray(),
                );
                draw_rectangle_lines(
                    d,
                    pixels(screen_x),
                    pixels(self.position.y),
                    pixels(size.x),
                    pixels(size.y),
                    Color::dark_gray(),
                );
            },
            ObstacleType::FloatingPlatform => {
                draw_rectangle(
                    d,
                    pixels(screen_x),
                    pixels(self.position.y),
                    pixels(size.x),
                    pixels(size.y),
                    Color::dark_green(),
                );
                self.draw_accents(d, screen_x);
            },
        }
        assert(d@ =~= old(d)@ + self.picture(screen_x, screen_width));
    }

    fn get_position(&self) -> (r: (i64, i64)) {
        (self.position.x, self.position.y)
    }

    fn get_size(&self) -> (r: (i64, i64)) {
        let size = self.obstacle_type.size();
        (size.x, size.y)
    }

    fn get_layer(&self) -> (r: i32) {
        2
    }
}

/// Owns the obstacles in play, oldest first, and remembers where the last
/// one was spawned.
pub struct ObstacleManager {
    pub obstacles: Vec<Obstacle>,
    pub last_spawn_position: i64,
    pub min_distance_between_obstacles: i64,
}

/// What one frame brings to the obstacles: where the camera is, how wide
/// the screen is, where the ground is, and what chance has chosen for an
/// obstacle that may spawn.
pub struct Tick {
    pub camera_offset: i64,
    pub screen_width: i64,
    pub ground_level: i64,
    pub obstacle_type: ObstacleType,
    pub lift: i64,
}

/// What an obstacle manager holds, as plain values.
pub struct ObstacleField {
    pub obstacles: Seq<Obstacle>,
    pub last_spawn_position: i64,
    pub min_distance_between_obstacles: i64,
}

/// The world position at the far edge of what the camera sees: obstacles
/// spawn there.
pub open spec fn spawn_frontier(camera_offset: i64, screen_width: i64) -> i64 {
    saturated(camera_offset + screen_width)
}

/// Whether the trailing edge of `obstacle` has fallen half a screen or more
/// behind the camera.
pub open spec fn passed(obstacle: Obstacle, camera_offset: i64, screen_width: i64) -> bool {
    2 * (obstacle.position.x + obstacle.obstacle_type.size().x) <= 2 * camera_offset
        - screen_width
}

/// The test that recycling keeps obstacles by.
pub open spec fn in_play(camera_offset: i64, screen_width: i64) -> spec_fn(Obstacle) -> bool {
    |obstacle: Obstacle| !passed(obstacle, camera_offset, screen_width)
}

/// The height at which an obstacle of the given kind is placed: on the
/// ground line, or `lift` above it for a floating platform.
pub open spec fn spawn_height(obstacle_type: ObstacleType, ground_level: i64, lift: i64) -> i64 {
    match obstacle_type {
        ObstacleType::FloatingPlatform => saturated(ground_level - lift),
        _ => ground_level,
    }
}

/// The pictures of all the obstacles, oldest first, as seen from a camera
/// at `camera_offset`.
pub open spec fn obstacle_pictures(
    obstacles: Seq<Obstacle>,
    camera_offset: i64,
    screen_width: i64,
) -> Seq<DrawCommand>
    decreases obstacles.len(),
{
    if obstacles.len() == 0 {
        seq![]
    } else {
        let last = obstacles.last();
        obstacle_pictures(obstacles.drop_last(), camera_offset, screen_width) + last.picture(
            saturated(last.position.x - camera_offset),
            screen_width,
        )
    }
}

impl ObstacleField {
    /// Obstacles keep their distance: each lies at least the minimum
    /// spacing beyond every older one, and none lies beyond the last spawn
    /// position.
    pub open spec fn wf(self) -> bool {
        &&& self.min_distance_between_obstacles >= 0
        &&& forall|i: int|
            0 <= i < self.obstacles.len() ==> (#[trigger] self.obstacles[i]).position.x
                <= self.last_spawn_position
        &&& forall|i: int, j: int|
            0 <= i < j < self.obstacles.len() ==> (#[trigger] self.obstacles[j]).position.x - (
            #[trigger] self.obstacles[i]).position.x >= self.min_distance_between_obstacles
    }

    /// Whether the frontier has moved far enough from the last spawn for a
    /// new obstacle.
    pub open spec fn spawn_due(self, camera_offset: i64, screen_width: i64) -> bool {
        spawn_frontier(camera_offset, screen_width) - self.last_spawn_position
            >= self.min_distance_between_obstacles
    }

    /// The field without the obstacles that the camera has left behind.
    pub open spec fn recycled(self, camera_offset: i64, screen_width: i64) -> ObstacleField {
        ObstacleField {
            obstacles: self.obstacles.filter(in_play(camera_offset, screen_width)),
            ..self
        }
    }

    /// The field with one more obstacle of the given kind at the frontier.
    pub open spec fn spawned(
        self,
        camera_offset: i64,
        screen_width: i64,
        ground_level: i64,
        obstacle_type: ObstacleType,
        lift: i64,
    ) -> ObstacleField {
        let frontier = spawn_frontier(camera_offset, screen_width);
        ObstacleField {
            obstacles: self.obstacles.push(
                Obstacle {
                    position: Vector2 {
                        x: frontier,
                        y: spawn_height(obstacle_type, ground_level, lift),
                    },
                    obstacle_type,
                },
            ),
            last_spawn_position: frontier,
            ..self
        }
    }

    /// The field one frame later: recycled, and with a new obstacle of the
    /// given kind if one is due.
    pub open spec fn after_update(
        self,
        camera_offset: i64,
        screen_width: i64,
        ground_level: i64,
        obstacle_type: ObstacleType,
        lift: i64,
    ) -> ObstacleField {
        let recycled = self.recycled(camera_offset, screen_width);
        if self.spawn_due(camera_offset, screen_width) {
            recycled.spawned(camera_offset, screen_width, ground_level, obstacle_type, lift)
        } else {
            recycled
        }
    }

    /// The field after all of `ticks`, one after the other.
    pub open spec fn after_ticks(self, ticks: Seq<Tick>) -> ObstacleField
        decreases ticks.len(),
    {
        if ticks.len() == 0 {
            self
        } else {
            let tick = ticks.last();
            self.after_ticks(ticks.drop_last()).after_update(
                tick.camera_offset,
                tick.screen_width,
                tick.ground_level,
                tick.obstacle_type,
                tick.lift,
            )
        }
    }

    /// Where the obstacles that spawn during `ticks` are placed, in the
    /// order in which they spawn.
    pub open spec fn spawns_during(self, ticks: Seq<Tick>) -> Seq<i64>
        decreases ticks.len(),
    {
        if ticks.len() == 0 {
            seq![]
        } else {
            let tick = ticks.last();
            let earlier = self.spawns_during(ticks.drop_last());
            if self.after_ticks(ticks.drop_last()).spawn_due(
                tick.camera_offset,
                tick.screen_width,
            ) {
                earlier.push(spawn_frontier(tick.camera_offset, tick.screen_width))
            } else {
                earlier
            }
        }
    }

    /// Whether any obstacle overlaps the player's box.
    pub open spec fn any_hit(self, player_pos: Vector2, player_size: Vector2) -> bool {
        exists|i: int|
            0 <= i < self.obstacles.len() && (#[trigger] self.obstacles[i]).hits(
                player_pos,
                player_size,
            )
    }
}

impl View for ObstacleManager {
    type V = ObstacleField;

    open spec fn view(&self) -> ObstacleField {
        ObstacleField {
            obstacles: self.obstacles@,
            last_spawn_position: self.last_spawn_position,
            min_distance_between_obstacles: self.min_distance_between_obstacles,
        }
    }
}

impl ObstacleManager {
    /// A manager with no obstacle yet, as if the last one had been spawned
    /// at the origin.
    pub fn new() -> (manager: ObstacleManager)
        ensures
            manager@.obstacles == Seq::<Obstacle>::empty(),
            manager@.last_spawn_position == 0,
            manager@.min_distance_between_obstacles == MIN_SPACING,
            manager@.wf(),
    {
        ObstacleManager {
            obstacles: Vec::new(),
            last_spawn_position: 0,
            min_distance_between_obstacles: MIN_SPACING,
        }
    }

    /// Drops every obstacle whose trailing edge is half a screen or more
    /// behind the camera, and keeps the others in their order.
    pub fn recycle(&mut self, camera_offset: i64, screen_width: i64)
        ensures
            final(self)@ == old(self)@.recycled(camera_offset, screen_width),
    {
        let ghost keep = in_play(camera_offset, screen_width);
        let mut kept: Vec<Obstacle> = Vec::new();
        let mut i: usize = 0;
        proof {
            reveal(Seq::filter);
            assert(self.obstacles@.subrange(0, 0) =~= Seq::<Obstacle>::empty());
        }
        while i < self.obstacles.len()
            invariant
                i <= self.obstacles.len(),
                keep == in_play(camera_offset, screen_width),
                *self == *old(self),
                kept@ == self.obstacles@.subrange(0, i as int).filter(keep),
            decreases self.obstacles.len() - i,
        {
            let obstacle = self.obstacles[i];
            let trailing: i128 = 2 * (obstacle.position.x as i128 + obstacle.obstacle_type.size().x
                as i128);
            let threshold: i128 = 2 * (camera_offset as i128) - (screen_width as i128);
            proof {
                reveal(Seq::filter);
                let longer = self.obstacles@.subrange(0, i + 1);
                assert(longer.drop_last() =~= self.obstacles@.subrange(0, i as int));
                assert(longer.last() == obstacle);
                assert(keep(obstacle) == !passed(obstacle, camera_offset, screen_width));
            }
            if trailing > threshold {
                kept.push(obstacle);
            }
            i = i + 1;
        }
        proof {
            assert(self.obstacles@.subrange(0, i as int) =~= self.obstacles@);
        }
        self.obstacles = kept;
    }

    /// Tells whether the frontier is far enough from the last spawn.
    pub fn spawn_is_due(&self, camera_offset: i64, screen_width: i64) -> (due: bool)
        ensures
            due == self@.spawn_due(camera_offset, screen_width),
    {
        let frontier = add_saturating(camera_offset, screen_width);
        frontier as i128 - self.last_spawn_position as i128
            >= self.min_distance_between_obstacles as i128
    }

    /// Places an obstacle of the given kind at the frontier, `lift` above
    /// the ground if it floats.
    pub fn spawn(
        &mut self,
        camera_offset: i64,
        screen_width: i64,
        ground_level: i64,
        obstacle_type: ObstacleType,
        lift: i64,
    )
        ensures
            final(self)@ == old(self)@.spawned(
                camera_offset,
                screen_width,
                ground_level,
                obstacle_type,
                lift,
            ),
    {
        let frontier = add_saturating(camera_offset, screen_width);
        let y = match obstacle_type {
            ObstacleType::FloatingPlatform => sub_saturating(ground_level, lift),
            _ => ground_level,
        };
        let obstacle = Obstacle::new(Vector2 { x: frontier, y }, obstacle_type);
        self.obstacles.push(obstacle);
        self.last_spawn_position = frontier;
    }

    /// One frame of the obstacle lifecycle with the dice already cast:
    /// recycles, then spawns an obstacle of the given kind if one is due.
    pub fn update_with(
        &mut self,
        camera_offset: i64,
        screen_width: i64,
        ground_level: i64,
        obstacle_type: ObstacleType,
        lift: i64,
    )
        ensures
            final(self)@ == old(self)@.after_update(
                camera_offset,
                screen_width,
                ground_level,
                obstacle_type,
                lift,
            ),
            old(self)@.wf() ==> final(self)@.wf(),
    {
        proof {
            lemma_update_keeps_spacing(
                self@,
                camera_offset,
                screen_width,
                ground_level,
                obstacle_type,
                lift,
            );
        }
        let due = self.spawn_is_due(camera_offset, screen_width);
        self.recycle(camera_offset, screen_width);
        if due {
            self.spawn(camera_offset, screen_width, ground_level, obstacle_type, lift);
        }
    }

    /// One frame of the obstacle lifecycle: recycles, then, if one is due,
    /// spawns an obstacle of a kind chosen by chance, floating platforms at
    /// a height chosen by chance.
    pub fn update(&mut self, camera_offset: i64, screen_width: i64, ground_level: i64)
        ensures
            exists|obstacle_type: ObstacleType, lift: i64|
                MIN_LIFT <= lift < MAX_LIFT && final(self)@ == #[trigger] old(self)@.after_update(
                    camera_offset,
                    screen_width,
                    ground_level,
                    obstacle_type,
                    lift,
                ),
            old(self)@.wf() ==> final(self)@.wf(),
    {
        let mut generator = rand::rng();
        let due = self.spawn_is_due(camera_offset, screen_width);
        let mut obstacle_type = ObstacleType::Spike;
        let mut lift = MIN_LIFT;
        if due {
            obstacle_type = ObstacleType::from_roll(random_range(&mut generator, 0, 3));
            lift = roll_lift(&mut generator, obstacle_type);
        }
        self.update_with(camera_offset, screen_width, ground_level, obstacle_type, lift);
    }

    /// Appends the pictures of all the obstacles, oldest first, to the
    /// frame `d`. Obstacles scroll at the full speed of the camera.
    pub fn draw(&self, d: &mut Vec<DrawCommand>, camera_offset: i64, screen_width: i64)
        ensures
            final(d)@ == old(d)@ + obstacle_pictures(self@.obstacles, camera_offset, screen_width),
    {
        let mut i: usize = 0;
        assert(self.obstacles@.subrange(0, 0) =~= Seq::<Obstacle>::empty());
        while i < self.obstacles.len()
            invariant
                i <= self.obstacles.len(),
                d@ == old(d)@ + obstacle_pictures(
                    self.obstacles@.subrange(0, i as int),
                    camera_offset,
                    screen_width,
                ),
            decreases self.obstacles.len() - i,
        {
            let obstacle = &self.obstacles[i];
            let screen_x = sub_saturating(obstacle.position.x, camera_offset);
            obstacle.draw(d, screen_x, screen_width);
            proof {
                let longer = self.obstacles@.subrange(0, i + 1);
                assert(longer.drop_last() =~= self.obstacles@.subrange(0, i as int));
                assert(longer.last() == *obstacle);
                assert(d@ =~= old(d)@ + obstacle_pictures(longer, camera_offset, screen_width));
            }
            i = i + 1;
        }
        assert(self.obstacles@.subrange(0, i as int) =~= self.obstacles@);
    }

    /// Tells whether the box of size `player_size` centred on `player_pos`
    /// overlaps any obstacle.
    pub fn check_collisions(&self, player_pos: Vector2, player_size: Vector2) -> (r: bool)
        ensures
            r == self@.any_hit(player_pos, player_size),
    {
        let mut i: usize = 0;
        while i < self.obstacles.len()
            invariant
                i <= self.obstacles.len(),
                forall|k: int| 0 <= k < i ==> !(#[trigger] self.obstacles@[k]).hits(
                    player_pos,
                    player_size,
                ),
            decreases self.obstacles.len() - i,
        {
            if self.obstacles[i].collides_with(player_pos, player_size) {
                assert(self@.obstacles[i as int].hits(player_pos, player_size));
                return true;
            }
            i = i + 1;
        }
        false
    }
}

/// The height above the ground for a new obstacle: chosen by chance for a
/// floating platform, the least lift for the kinds that stand on the
/// ground, which do not use it.
fn roll_lift(generator: &mut ThreadRng, obstacle_type: ObstacleType) -> (lift: i64)
    ensures
        MIN_LIFT <= lift < MAX_LIFT,
{
    match obstacle_type {
        ObstacleType::FloatingPlatform => random_range(generator, MIN_LIFT, MAX_LIFT),
        _ => MIN_LIFT,
    }
}

/// Recycling removes exactly the obstacles that the camera has left half a
/// screen or more behind: an obstacle of the field is still there afterwards
/// if and only if its trailing edge is beyond that line.
pub proof fn lemma_recycled_exactly_the_passed(
    field: ObstacleField,
    camera_offset: i64,
    screen_width: i64,
    obstacle: Obstacle,
)
    ensures
        field.recycled(camera_offset, screen_width).obstacles.contains(obstacle) <==> (
        field.obstacles.contains(obstacle) && !passed(obstacle, camera_offset, screen_width)),
{
    let keep = in_play(camera_offset, screen_width);
    let after = field.obstacles.filter(keep);
    if after.contains(obstacle) {
        field.obstacles.lemma_filter_contains_rev(keep, obstacle);
        let i = choose|i: int| 0 <= i < after.len() && after[i] == obstacle;
        field.obstacles.lemma_filter_pred(keep, i);
    }
    if field.obstacles.contains(obstacle) && !passed(obstacle, camera_offset, screen_width) {
        let i = choose|i: int| 0 <= i < field.obstacles.len() && field.obstacles[i] == obstacle;
        field.obstacles.lemma_filter_contains(keep, i);
    }
}

/// No obstacle at or ahead of the camera is ever recycled.
pub proof fn lemma_ahead_is_never_recycled(
    field: ObstacleField,
    camera_offset: i64,
    screen_width: i64,
    obstacle: Obstacle,
)
    requires
        screen_width >= 0,
        field.obstacles.contains(obstacle),
        obstacle.position.x >= camera_offset,
    ensures
        field.recycled(camera_offset, screen_width).obstacles.contains(obstacle),
{
    lemma_recycled_exactly_the_passed(field, camera_offset, screen_width, obstacle);
}

/// Recycling keeps the obstacles in their order: what is left is a
/// subsequence of what was there.
pub proof fn lemma_recycled_is_subsequence(s: Seq<Obstacle>, keep: spec_fn(Obstacle) -> bool)
    ensures
        forall|i: int, j: int|
            0 <= i < j < s.filter(keep).len() ==> exists|a: int, b: int|
                0 <= a < b < s.len() && s[a] == #[trigger] s.filter(keep)[i] && s[b]
                    == #[trigger] s.filter(keep)[j],
        forall|i: int|
            0 <= i < s.filter(keep).len() ==> exists|a: int|
                0 <= a < s.len() && s[a] == #[trigger] s.filter(keep)[i],
    decreases s.len(),
{
    reveal(Seq::filter);
    if s.len() > 0 {
        let shorter = s.drop_last();
        lemma_recycled_is_subsequence(shorter, keep);
        let f = s.filter(keep);
        let g = shorter.filter(keep);
        assert forall|i: int| 0 <= i < f.len() implies exists|a: int|
            0 <= a < s.len() && s[a] == #[trigger] f[i] by {
            if i < g.len() {
                let a = choose|a: int| 0 <= a < shorter.len() && shorter[a] == g[i];
                assert(s[a] == f[i]);
            } else {
                assert(s[s.len() - 1] == f[i]);
            }
        }
        assert forall|i: int, j: int| 0 <= i < j < f.len() implies exists|a: int, b: int|
            0 <= a < b < s.len() && s[a] == #[trigger] f[i] && s[b] == #[trigger] f[j] by {
            if j < g.len() {
                let (a, b) = choose|a: int, b: int|
                    0 <= a < b < shorter.len() && shorter[a] == g[i] && shorter[b] == g[j];
                assert(s[a] == f[i] && s[b] == f[j]);
            } else {
                let a = choose|a: int| 0 <= a < shorter.len() && shorter[a] == g[i];
                assert(s[a] == f[i] && s[s.len() - 1] == f[j]);
            }
        }
    }
}

/// Spawned obstacles keep their distance through every frame: a well-formed
/// field stays well-formed, and an obstacle is spawned, at the frontier,
/// only when the frontier lies at least the minimum spacing beyond the last
/// spawn, which then moves to the frontier.
pub proof fn lemma_update_keeps_spacing(
    field: ObstacleField,
    camera_offset: i64,
    screen_width: i64,
    ground_level: i64,
    obstacle_type: ObstacleType,
    lift: i64,
)
    ensures
        ({
            let next = field.after_update(
                camera_offset,
                screen_width,
                ground_level,
                obstacle_type,
                lift,
            );
            let frontier = spawn_frontier(camera_offset, screen_width);
            let left = field.recycled(camera_offset, screen_width).obstacles;
            &&& field.wf() ==> next.wf()
            &&& next.min_distance_between_obstacles == field.min_distance_between_obstacles
            &&& field.spawn_due(camera_offset, screen_width) ==> {
                &&& next.obstacles.len() == left.len() + 1
                &&& next.obstacles.last().position.x == frontier
                &&& next.obstacles.last().obstacle_type == obstacle_type
                &&& next.last_spawn_position == frontier
                &&& frontier - field.last_spawn_position >= field.min_distance_between_obstacles
            }
            &&& !field.spawn_due(camera_offset, screen_width) ==> {
                &&& next.obstacles == left
                &&& next.last_spawn_position == field.last_spawn_position
            }
        }),
{
    let keep = in_play(camera_offset, screen_width);
    let recycled = field.recycled(camera_offset, screen_width);
    let next = field.after_update(camera_offset, screen_width, ground_level, obstacle_type, lift);
    lemma_recycled_is_subsequence(field.obstacles, keep);
    if field.wf() {
        assert(recycled.wf()) by {
            assert forall|i: int| 0 <= i < recycled.obstacles.len() implies (
            #[trigger] recycled.obstacles[i]).position.x <= recycled.last_spawn_position by {
                let a = choose|a: int|
                    0 <= a < field.obstacles.len() && field.obstacles[a] == recycled.obstacles[i];
                assert(field.obstacles[a].position.x <= field.last_spawn_position);
            }
            assert forall|i: int, j: int| 0 <= i < j < recycled.obstacles.len() implies (
            #[trigger] recycled.obstacles[j]).position.x - (
            #[trigger] recycled.obstacles[i]).position.x
                >= recycled.min_distance_between_obstacles by {
                let (a, b) = choose|a: int, b: int|
                    0 <= a < b < field.obstacles.len() && field.obstacles[a]
                        == recycled.obstacles[i] && field.obstacles[b] == recycled.obstacles[j];
                assert(field.obstacles[b].position.x - field.obstacles[a].position.x
                    >= field.min_distance_between_obstacles);
            }
        }
        if field.spawn_due(camera_offset, screen_width) {
            assert(next.wf());
        }
    }
}

/// Whatever the frames of a run are, each obstacle spawns at least the
/// minimum spacing beyond the one that spawned before it, and the first at
/// least that far beyond the last spawn position that the run started with;
/// the last spawn position is always where the newest obstacle spawned.
pub proof fn lemma_spawns_keep_their_distance_in_any_run(field: ObstacleField, ticks: Seq<Tick>)
    ensures
        ({
            let spawns = field.spawns_during(ticks);
            let last = field.after_ticks(ticks);
            let spacing = field.min_distance_between_obstacles;
            &&& last.min_distance_between_obstacles == spacing
            &&& spawns.len() == 0 ==> last.last_spawn_position == field.last_spawn_position
            &&& spawns.len() > 0 ==> {
                &&& last.last_spawn_position == spawns.last()
                &&& spawns[0] - field.last_spawn_position >= spacing
            }
            &&& forall|i: int|
                0 <= i < spawns.len() - 1 ==> #[trigger] spawns[i + 1] - spawns[i] >= spacing
            &&& field.wf() ==> last.wf()
        }),
    decreases ticks.len(),
{
    if ticks.len() > 0 {
        let tick = ticks.last();
        let before = field.after_ticks(ticks.drop_last());
        lemma_spawns_keep_their_distance_in_any_run(field, ticks.drop_last());
        lemma_update_keeps_spacing(
            before,
            tick.camera_offset,
            tick.screen_width,
            tick.ground_level,
            tick.obstacle_type,
            tick.lift,
        );
        let earlier = field.spawns_during(ticks.drop_last());
        let spawns = field.spawns_during(ticks);
        if before.spawn_due(tick.camera_offset, tick.screen_width) {
            assert forall|i: int| 0 <= i < spawns.len() - 1 implies #[trigger] spawns[i + 1]
                - spawns[i] >= field.min_distance_between_obstacles by {
                if i < earlier.len() - 1 {
                    assert(earlier[i + 1] - earlier[i] >= field.min_distance_between_obstacles);
                }
            }
        }
    }
}

} // verus!
