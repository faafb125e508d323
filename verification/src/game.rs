//! One session of the game: the state that a frame reads and changes, how a
//! frame changes it, and what a frame draws.

use vstd::prelude::*;
use crate::canvas::{
    clear_background, draw_rectangle, draw_text, rectangle, text, Caption, DrawCommand,
};
use crate::color::Color;
use crate::drawable::Drawable;
use crate::geometry::Vector2;
use crate::obstacle::{
    lemma_update_keeps_spacing, obstacle_pictures, Obstacle, ObstacleField, ObstacleManager,
    ObstacleType, MAX_LIFT, MIN_LIFT, MIN_SPACING,
};
use crate::player::Player;
use crate::scenery::{layers_below, Scenery, SceneryElement, LAYERS};
use crate::units::{
    pixels, saturate, saturated, sub_saturating, to_pixels, travel, travelled, trunc_div,
};
use crate::utils::handle_input;

verus! {

/// The distance, in units, that earns one point of score.
pub const UNITS_PER_POINT: i64 = 100_000;

/// What is fixed for a session.
#[derive(Clone, Copy, Debug, PartialEq, Eq, Structural)]
pub struct GameConfig {
    pub screen_width: i64,
    pub screen_height: i64,
    /// The ground line: where the player stands when not in the air.
    pub ground_level: i64,
    /// How high a fully charged jump goes.
    pub jump_height: u32,
    /// How long it takes to charge a jump fully, in microseconds.
    pub jump_charge_time_max: u32,
    /// Units per second gained each second of flight.
    pub gravity: u32,
    /// Units per second at which the camera travels.
    pub player_speed: u32,
    pub player_size: Vector2,
}

/// The keys as they are in one frame.
#[derive(Clone, Copy, Debug, PartialEq, Eq, Structural)]
pub struct FrameInput {
    pub right_down: bool,
    pub left_down: bool,
    /// The jump key is held.
    pub jump_down: bool,
    /// The jump key went down in this frame.
    pub jump_pressed: bool,
}

impl GameConfig {
    /// A configuration can be played only if charging a jump takes time.
    pub open spec fn valid(self) -> bool {
        self.jump_charge_time_max > 0
    }

    /// Where the player starts: in the middle of the screen, on the ground.
    pub open spec fn start_position(self) -> Vector2 {
        Vector2 { x: trunc_div(self.screen_width as int, 2) as i64, y: self.ground_level }
    }

    /// The player as a session starts with.
    pub open spec fn fresh_player(self) -> Player {
        Player {
            position: self.start_position(),
            size: self.player_size,
            velocity_y: 0,
            is_jumping: false,
            is_charging_jump: false,
            jump_charge_time: 0,
        }
    }

    /// A screen of 800 by 600 pixels with the ground 110 pixels above its
    /// lower edge, a player of 40 by 60 pixels who travels 200 pixels a
    /// second and jumps up to 200 pixels high after half a second of charge,
    /// under a gravity of 1200 pixels per second squared.
    pub fn standard() -> (config: GameConfig)
        ensures
            config == (GameConfig {
                screen_width: 800_000,
                screen_height: 600_000,
                ground_level: 490_000,
                jump_height: 200_000,
                jump_charge_time_max: 500_000,
                gravity: 1_200_000,
                player_speed: 200_000,
                player_size: Vector2 { x: 40_000, y: 60_000 },
            }),
            config.valid(),
    {
        GameConfig {
            screen_width: 800_000,
            screen_height: 600_000,
            ground_level: 490_000,
            jump_height: 200_000,
            jump_charge_time_max: 500_000,
            gravity: 1_200_000,
            player_speed: 200_000,
            player_size: Vector2 { x: 40_000, y: 60_000 },
        }
    }

    fn new_player(&self) -> (player: Player)
        ensures
            player == self.fresh_player(),
    {
        Player::new(Vector2 { x: self.screen_width / 2, y: self.ground_level }, self.player_size)
    }
}

/// Everything that a session holds.
pub struct Game {
    pub config: GameConfig,
    pub player: Player,
    pub obstacles: ObstacleManager,
    pub scenery: Scenery<SceneryElement>,
    /// How far the player has travelled.
    pub camera_offset: i64,
    pub game_over: bool,
    pub score: i64,
}

/// What a session holds, as plain values.
pub struct GameState {
    pub config: GameConfig,
    pub player: Player,
    pub obstacles: ObstacleField,
    pub scenery: Seq<SceneryElement>,
    pub camera_offset: i64,
    pub game_over: bool,
    pub score: i64,
}

/// The direction of travel that the keys ask for.
pub open spec fn direction_of(input: FrameInput) -> int {
    if input.left_down {
        -1
    } else if input.right_down {
        1
    } else {
        0
    }
}

/// The score for having travelled as far as `camera_offset`: one point for
/// each hundred pixels, parts of a point not counted.
pub open spec fn score_of(camera_offset: i64) -> i64 {
    trunc_div(camera_offset as int, UNITS_PER_POINT as int) as i64
}

/// Where the lift of a floating platform may lie.
pub open spec fn valid_lift(lift: i64) -> bool {
    MIN_LIFT <= lift < MAX_LIFT
}

impl GameState {
    /// The configuration can be played, the player is well-formed, not
    /// below the ground and not charged beyond the cap, and the obstacles
    /// keep their distance.
    pub open spec fn wf(self) -> bool {
        &&& self.config.valid()
        &&& self.player.wf()
        &&& self.player.position.y <= self.config.ground_level
        &&& self.player.is_jumping ==> self.player.position.y < self.config.ground_level
        &&& self.player.jump_charge_time <= self.config.jump_charge_time_max
        &&& self.obstacles.wf()
    }

    /// The camera after a frame of travel.
    pub open spec fn moved_camera(self, input: FrameInput, delta_time: u32) -> i64 {
        saturated(
            self.camera_offset + travelled(
                direction_of(input) * self.config.player_speed,
                delta_time as int,
            ),
        )
    }

    /// The centre of the player's box in the world: the player is always in
    /// the middle of the screen, so it moves with the camera.
    pub open spec fn player_center(self) -> Vector2 {
        Vector2 {
            x: saturated(trunc_div(self.config.screen_width as int, 2) + self.camera_offset),
            y: self.player.position.y,
        }
    }

    /// The session after one frame of play: the camera travels, the player
    /// and the obstacles take their step, a collision ends the game, and
    /// the score follows the camera.
    pub open spec fn after_play(
        self,
        input: FrameInput,
        delta_time: u32,
        obstacle_type: ObstacleType,
        lift: i64,
    ) -> GameState {
        let camera_offset = self.moved_camera(input, delta_time);
        let player = self.player.after_update(
            delta_time,
            self.config.ground_level,
            self.config.jump_height,
            self.config.jump_charge_time_max,
            self.config.gravity,
            input.jump_down,
        );
        let obstacles = self.obstacles.after_update(
            camera_offset,
            self.config.screen_width,
            self.config.ground_level,
            obstacle_type,
            lift,
        );
        let moved = GameState { camera_offset, player, obstacles, ..self };
        GameState {
            game_over: obstacles.any_hit(moved.player_center(), player.size),
            score: score_of(camera_offset),
            ..moved
        }
    }

    /// The session as it starts again: everything but the configuration and
    /// the scenery is as new.
    pub open spec fn restarted(self) -> GameState {
        GameState {
            player: self.config.fresh_player(),
            obstacles: ObstacleField {
                obstacles: Seq::empty(),
                last_spawn_position: 0,
                min_distance_between_obstacles: MIN_SPACING,
            },
            camera_offset: 0,
            game_over: false,
            score: 0,
            ..self
        }
    }

    /// The session one frame later. While the game is on, the frame is one
    /// of play; once it is over, nothing moves. A press of the jump key
    /// when the game is over, even in the frame in which it ended, starts
    /// it again.
    pub open spec fn after_frame(
        self,
        input: FrameInput,
        delta_time: u32,
        obstacle_type: ObstacleType,
        lift: i64,
    ) -> GameState {
        let played = if self.game_over {
            self
        } else {
            self.after_play(input, delta_time, obstacle_type, lift)
        };
        if played.game_over && input.jump_pressed {
            played.restarted()
        } else {
            played
        }
    }

    /// The two lines of the game-over screen.
    pub open spec fn game_over_screen(self) -> Seq<DrawCommand> {
        if self.game_over {
            let center_x = trunc_div(to_pixels(self.config.screen_width as int), 2);
            let center_y = trunc_div(to_pixels(self.config.screen_height as int), 2);
            seq![
                text(Caption::GameOver, center_x - 100, center_y - 20, 40, Color::red()),
                text(Caption::Restart, center_x - 150, center_y + 50, 20, Color::white()),
            ]
        } else {
            seq![]
        }
    }

    /// The sky and the ground below the ground line.
    pub open spec fn stage(self) -> Seq<DrawCommand> {
        seq![
            DrawCommand::Clear { color: Color::sky_blue() },
            rectangle(
                0,
                to_pixels(self.config.ground_level as int),
                to_pixels(self.config.screen_width as int),
                to_pixels(
                    saturated(self.config.screen_height - self.config.ground_level) as int,
                ),
                Color::green(),
            ),
        ]
    }

    /// The frame rate and the score, top left.
    pub open spec fn readouts(self, fps: u32) -> Seq<DrawCommand> {
        seq![
            text(Caption::Fps(fps), 10, 10, 20, Color::white()),
            text(Caption::Score(self.score), 10, 30, 20, Color::white()),
        ]
    }

    /// Everything that a frame draws, back to front: the stage, the
    /// backdrop, the obstacles, the player, the readouts, the charge gauge
    /// and the game-over screen.
    pub open spec fn frame(self, fps: u32) -> Seq<DrawCommand> {
        self.stage() + layers_below(
            self.scenery,
            LAYERS,
            self.camera_offset,
            self.config.screen_width,
        ) + obstacle_pictures(
            self.obstacles.obstacles,
            self.camera_offset,
            self.config.screen_width,
        ) + self.player.picture(self.player.position.x, self.config.screen_width)
            + self.readouts(fps) + self.player.charge_gauge(self.config.jump_charge_time_max)
            + self.game_over_screen()
    }
}

impl View for Game {
    type V = GameState;

    open spec fn view(&self) -> GameState {
        GameState {
            config: self.config,
            player: self.player,
            obstacles: self.obstacles@,
            scenery: self.scenery.elements@,
            camera_offset: self.camera_offset,
            game_over: self.game_over,
            score: self.score,
        }
    }
}

impl Game {
    /// Starts a session in the world `scenery`. A configuration in which
    /// charging a jump takes no time is turned down.
    pub fn new(config: GameConfig, scenery: Scenery<SceneryElement>) -> (game: Option<Game>)
        ensures
            game is Some <==> config.valid(),
            game is Some ==> {
                let state = game->Some_0@;
                &&& state.config == config
                &&& state.scenery == scenery.elements@
                &&& state.camera_offset == 0
                &&& !state.game_over
                &&& state.score == 0
                &&& state == state.restarted()
                &&& state.wf()
            },
    {
        if config.jump_charge_time_max == 0 {
            return None;
        }
        let game = Game {
            config,
            player: config.new_player(),
            obstacles: ObstacleManager::new(),
            scenery,
            camera_offset: 0,
            game_over: false,
            score: 0,
        };
        assert(game@.obstacles.obstacles =~= Seq::<Obstacle>::empty());
        assert(game@.obstacles == game@.restarted().obstacles);
        Some(game)
    }

    /// Starts the session again: the camera, the score, the player and the
    /// obstacles are as new.
    pub fn restart(&mut self)
        ensures
            final(self)@ == old(self)@.restarted(),
    {
        self.game_over = false;
        self.camera_offset = 0;
        self.score = 0;
        self.player = self.config.new_player();
        self.obstacles = ObstacleManager::new();
        assert(self@.obstacles.obstacles =~= Seq::<Obstacle>::empty());
        assert(self@.obstacles == old(self)@.restarted().obstacles);
    }

    /// The first part of a frame of play: the camera travels and the player
    /// takes a step.
    fn travel_and_jump(&mut self, input: FrameInput, delta_time: u32)
        requires
            old(self).config.valid(),
        ensures
            final(self).camera_offset == old(self)@.moved_camera(input, delta_time),
            final(self).player == old(self).player.after_update(
                delta_time,
                old(self).config.ground_level,
                old(self).config.jump_height,
                old(self).config.jump_charge_time_max,
                old(self).config.gravity,
                input.jump_down,
            ),
            final(self).config == old(self).config,
            final(self).obstacles == old(self).obstacles,
            final(self).scenery == old(self).scenery,
            final(self).game_over == old(self).game_over,
            final(self).score == old(self).score,
    {
        let (direction, space_pressed) = handle_input(
            input.right_down,
            input.left_down,
            input.jump_down,
        );
        assert(-0x1_0000_0000 < direction * self.config.player_speed < 0x1_0000_0000)
            by (nonlinear_arith)
            requires
                -1 <= direction <= 1,
                0 <= self.config.player_speed < 0x1_0000_0000,
        ;
        let rate: i64 = (direction as i64) * (self.config.player_speed as i64);
        self.camera_offset = saturate(self.camera_offset as i128 + travel(rate, delta_time));
        self.player.update(
            delta_time,
            self.config.ground_level,
            self.config.jump_height,
            self.config.jump_charge_time_max,
            self.config.gravity,
            space_pressed,
        );
    }

    /// The last part of a frame of play: a collision ends the game, and the
    /// score follows the camera.
    fn collide_and_score(&mut self)
        ensures
            final(self).game_over == old(self)@.obstacles.any_hit(
                old(self)@.player_center(),
                old(self).player.size,
            ),
            final(self).score == score_of(old(self).camera_offset),
            final(self).config == old(self).config,
            final(self).player == old(self).player,
            final(self).obstacles == old(self).obstacles,
            final(self).scenery == old(self).scenery,
            final(self).camera_offset == old(self).camera_offset,
    {
        let center = Vector2 {
            x: saturate((self.config.screen_width / 2) as i128 + self.camera_offset as i128),
            y: self.player.get_position().1,
        };
        let size = self.player.get_size();
        self.game_over = self.obstacles.check_collisions(center, Vector2 { x: size.0, y: size.1 });
        self.score = self.camera_offset / UNITS_PER_POINT;
    }

    /// One frame with the dice already cast: if an obstacle is due, it is
    /// of the given kind and, if it floats, `lift` above the ground.
    pub fn step_with(
        &mut self,
        input: FrameInput,
        delta_time: u32,
        obstacle_type: ObstacleType,
        lift: i64,
    )
        requires
            old(self)@.config.valid(),
        ensures
            final(self)@ == old(self)@.after_frame(input, delta_time, obstacle_type, lift),
            old(self)@.wf() ==> final(self)@.wf(),
    {
        proof {
            if self@.wf() {
                lemma_frame_keeps_wf(self@, input, delta_time, obstacle_type, lift);
            }
        }
        if !self.game_over {
            self.travel_and_jump(input, delta_time);
            self.obstacles.update_with(
                self.camera_offset,
                self.config.screen_width,
                self.config.ground_level,
                obstacle_type,
                lift,
            );
            self.collide_and_score();
        }
        if self.game_over && input.jump_pressed {
            self.restart();
        }
    }

    /// One frame: reads the keys, moves the world, and starts again on a
    /// press of the jump key once the game is over. Chance decides the kind
    /// of a new obstacle and the lift of a floating platform.
    pub fn step(&mut self, input: FrameInput, delta_time: u32)
        requires
            old(self)@.config.valid(),
        ensures
            exists|obstacle_type: ObstacleType, lift: i64|
                valid_lift(lift) && final(self)@ == #[trigger] old(self)@.after_frame(
                    input,
                    delta_time,
                    obstacle_type,
                    lift,
                ),
            old(self)@.wf() ==> final(self)@.wf(),
    {
        let ghost mut obstacle_type = ObstacleType::Spike;
        let ghost mut lift = MIN_LIFT;
        if !self.game_over {
            self.travel_and_jump(input, delta_time);
            let ghost before = self.obstacles@;
            self.obstacles.update(
                self.camera_offset,
                self.config.screen_width,
                self.config.ground_level,
            );
            proof {
                let (kind, height) = choose|kind: ObstacleType, height: i64|
                    MIN_LIFT <= height < MAX_LIFT && self.obstacles@ == #[trigger] before.after_update(
                        self.camera_offset,
                        self.config.screen_width,
                        self.config.ground_level,
                        kind,
                        height,
                    );
                obstacle_type = kind;
                lift = height;
            }
            self.collide_and_score();
        }
        if self.game_over && input.jump_pressed {
            self.restart();
        }
        proof {
            if old(self)@.wf() {
                lemma_frame_keeps_wf(old(self)@, input, delta_time, obstacle_type, lift);
            }
            assert(self@ == old(self)@.after_frame(input, delta_time, obstacle_type, lift));
        }
    }

    /// Draws the frame: the commands for a renderer to carry out in order.
    /// `fps` is the measured frame rate, which is only shown.
    pub fn render(&self, fps: u32) -> (d: Vec<DrawCommand>)
        requires
            self@.config.valid(),
        ensures
            d@ == self@.frame(fps),
    {
        let mut d: Vec<DrawCommand> = Vec::new();
        clear_background(&mut d, Color::sky_blue());
        draw_rectangle(
            &mut d,
            0,
            pixels(self.config.ground_level),
            pixels(self.config.screen_width),
            pixels(sub_saturating(self.config.screen_height, self.config.ground_level)),
            Color::green(),
        );
        assert(d@ =~= self@.stage());
        self.scenery.draw(&mut d, self.camera_offset, self.config.screen_width);
        self.obstacles.draw(&mut d, self.camera_offset, self.config.screen_width);
        self.player.draw(&mut d, self.player.get_position().0, self.config.screen_width);
        let ghost drawn = d@;
        draw_text(&mut d, Caption::Fps(fps), 10, 10, 20, Color::white());
        draw_text(&mut d, Caption::Score(self.score), 10, 30, 20, Color::white());
        assert(d@ =~= drawn + self@.readouts(fps));
        self.player.draw_jump_charge(&mut d, self.config.jump_charge_time_max);
        let ghost charged = d@;
        if self.game_over {
            let center_x = pixels(self.config.screen_width) / 2;
            let center_y = pixels(self.config.screen_height) / 2;
            draw_text(&mut d, Caption::GameOver, center_x - 100, center_y - 20, 40, Color::red());
            draw_text(&mut d, Caption::Restart, center_x - 150, center_y + 50, 20, Color::white());
        }
        assert(d@ =~= charged + self@.game_over_screen());
        assert(d@ =~= self@.frame(fps));
        d
    }
}

/// Through every frame a well-formed session stays well-formed: the player
/// is never below the ground and is on it only when not airborne, charging
/// and flying never go together, and the obstacles keep their distance.
pub proof fn lemma_frame_keeps_wf(
    state: GameState,
    input: FrameInput,
    delta_time: u32,
    obstacle_type: ObstacleType,
    lift: i64,
)
    requires
        state.wf(),
    ensures
        state.after_frame(input, delta_time, obstacle_type, lift).wf(),
        state.after_frame(input, delta_time, obstacle_type, lift).config == state.config,
        state.after_frame(input, delta_time, obstacle_type, lift).scenery == state.scenery,
{
    if !state.game_over {
        let camera_offset = state.moved_camera(input, delta_time);
        lemma_update_keeps_spacing(
            state.obstacles,
            camera_offset,
            state.config.screen_width,
            state.config.ground_level,
            obstacle_type,
            lift,
        );
    }
}

/// Starting again puts the camera and the score back to zero, removes every
/// obstacle and stands the player in the middle of the screen on the
/// ground; a press of the jump key once the game is over does just that.
pub proof fn lemma_restart_resets(
    state: GameState,
    input: FrameInput,
    delta_time: u32,
    obstacle_type: ObstacleType,
    lift: i64,
)
    requires
        state.game_over,
        input.jump_pressed,
    ensures
        ({
            let next = state.after_frame(input, delta_time, obstacle_type, lift);
            &&& next == state.restarted()
            &&& next.camera_offset == 0
            &&& next.score == 0
            &&& !next.game_over
            &&& next.obstacles.obstacles.len() == 0
            &&& next.player.position == state.config.start_position()
            &&& next.player.velocity_y == 0
            &&& !next.player.is_jumping
            &&& !next.player.is_charging_jump
            &&& next.config == state.config
            &&& next.scenery == state.scenery
        }),
{
}

/// Once the game is over, nothing moves until the jump key is pressed.
pub proof fn lemma_game_over_is_still(
    state: GameState,
    input: FrameInput,
    delta_time: u32,
    obstacle_type: ObstacleType,
    lift: i64,
)
    requires
        state.game_over,
        !input.jump_pressed,
    ensures
        state.after_frame(input, delta_time, obstacle_type, lift) == state,
{
}

} // verus!
