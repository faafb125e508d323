//! The player: a charge-then-release jump under gravity.
//!
//! The player is grounded and idle, grounded and charging a jump, or
//! airborne. Holding the jump button on the ground charges; letting go
//! launches; gravity brings the player back down to the ground line.

use vstd::prelude::*;
use crate::canvas::{draw_rectangle, draw_text, rectangle, text, Caption, DrawCommand};
use crate::color::Color;
use crate::drawable::Drawable;
use crate::figure::{draw_figure, figure, Figure};
use crate::geometry::Vector2;
use crate::units::{
    isqrt, lemma_sqrt_floor_bounds, lemma_sqrt_floor_monotonic, pixels, saturate, saturated,
    sqrt_floor, to_pixels, travel, travelled, MICROS_PER_SECOND,
};

verus! {

/// The player's state. The box of the player is centred on `position`.
#[derive(Clone, Copy, Debug, PartialEq, Eq, Structural)]
pub struct Player {
    /// `x` stays put; `y` changes during a jump. Smaller `y` is higher.
    pub position: Vector2,
    pub size: Vector2,
    /// Vertical speed in units per second; negative is upward.
    pub velocity_y: i64,
    pub is_jumping: bool,
    pub is_charging_jump: bool,
    /// How long the current charge has lasted, in microseconds.
    pub jump_charge_time: u32,
}

/// What one frame brings to the player: how long it lasts, in microseconds,
/// and whether the jump button is held in it.
pub struct Frame {
    pub delta_time: u32,
    pub is_space_pressed: bool,
}

/// A charge `charge` long after `dt` more microseconds of holding, capped at
/// `max_charge`.
pub open spec fn charge_after(charge: u32, dt: u32, max_charge: u32) -> u32 {
    if charge + dt < max_charge {
        (charge + dt) as u32
    } else {
        max_charge
    }
}

/// The square of the speed that a jump charged for `charge` out of
/// `max_charge` microseconds leaves the ground with:
/// twice the gravity times the share of `jump_height` that was charged.
pub open spec fn launch_energy(gravity: u32, jump_height: u32, charge: u32, max_charge: u32) -> nat {
    ((2 * gravity * jump_height * charge) / (max_charge as int)) as nat
}

/// The speed that a jump leaves the ground with, in units per second.
pub open spec fn launch_speed(gravity: u32, jump_height: u32, charge: u32, max_charge: u32) -> nat {
    sqrt_floor(launch_energy(gravity, jump_height, charge, max_charge))
}

/// What a frame of flight that is entered at `velocity` adds to the energy:
/// what the pull of gravity adds to the speed squared, less what the step
/// takes from the height. With nothing rounded this is never above zero.
pub open spec fn energy_gain(velocity: i64, delta_time: u32, gravity: u32) -> int {
    let pull = travelled(gravity as int, delta_time as int);
    let step = travelled(velocity + pull, delta_time as int);
    pull * (2 * velocity + pull) - 2 * gravity * step
}

impl Player {
    /// A player is never airborne and charging at once.
    pub open spec fn wf(self) -> bool {
        !(self.is_jumping && self.is_charging_jump)
    }

    /// The player after the jump button was looked at: charging starts or
    /// goes on while it is held on the ground, and the jump starts when it
    /// is let go.
    pub open spec fn after_input(
        self,
        delta_time: u32,
        jump_height: u32,
        jump_charge_time_max: u32,
        gravity: u32,
        is_space_pressed: bool,
    ) -> Player {
        if self.is_jumping {
            self
        } else if is_space_pressed {
            if !self.is_charging_jump {
                Player { is_charging_jump: true, jump_charge_time: 0, ..self }
            } else {
                Player {
                    jump_charge_time: charge_after(
                        self.jump_charge_time,
                        delta_time,
                        jump_charge_time_max,
                    ),
                    ..self
                }
            }
        } else if self.is_charging_jump {
            Player {
                is_charging_jump: false,
                velocity_y: (-launch_speed(
                    gravity,
                    jump_height,
                    self.jump_charge_time,
                    jump_charge_time_max,
                )) as i64,
                is_jumping: true,
                ..self
            }
        } else {
            self
        }
    }

    /// The player after `delta_time` of flight: gravity adds to the
    /// velocity, the new velocity moves the player, and reaching the ground
    /// line ends the jump there.
    pub open spec fn after_flight(self, delta_time: u32, ground_level: i64, gravity: u32) -> Player {
        if !self.is_jumping {
            self
        } else {
            let velocity = saturated(
                self.velocity_y + travelled(gravity as int, delta_time as int),
            );
            let y = saturated(self.position.y + travelled(velocity as int, delta_time as int));
            if y >= ground_level {
                Player {
                    position: Vector2 { x: self.position.x, y: ground_level },
                    velocity_y: 0,
                    is_jumping: false,
                    ..self
                }
            } else {
                Player {
                    position: Vector2 { x: self.position.x, y },
                    velocity_y: velocity,
                    ..self
                }
            }
        }
    }

    /// The player one frame later.
    pub open spec fn after_update(
        self,
        delta_time: u32,
        ground_level: i64,
        jump_height: u32,
        jump_charge_time_max: u32,
        gravity: u32,
        is_space_pressed: bool,
    ) -> Player {
        self.after_input(
            delta_time,
            jump_height,
            jump_charge_time_max,
            gravity,
            is_space_pressed,
        ).after_flight(delta_time, ground_level, gravity)
    }

    /// The player after all of `frames`, one after the other.
    pub open spec fn after_frames(
        self,
        frames: Seq<Frame>,
        ground_level: i64,
        jump_height: u32,
        jump_charge_time_max: u32,
        gravity: u32,
    ) -> Player
        decreases frames.len(),
    {
        if frames.len() == 0 {
            self
        } else {
            self.after_frames(
                frames.drop_last(),
                ground_level,
                jump_height,
                jump_charge_time_max,
                gravity,
            ).after_update(
                frames.last().delta_time,
                ground_level,
                jump_height,
                jump_charge_time_max,
                gravity,
                frames.last().is_space_pressed,
            )
        }
    }

    /// How high the player is above the ground line.
    pub open spec fn height(self, ground_level: i64) -> int {
        ground_level - self.position.y
    }

    /// Twice the energy of the flight, for a unit of mass: the speed squared
    /// plus twice the gravity times the height.
    pub open spec fn energy(self, ground_level: i64, gravity: u32) -> int {
        self.velocity_y * self.velocity_y + 2 * gravity * self.height(ground_level)
    }

    /// The player is on the ground line, or in a flight that has no more
    /// energy than carries to `jump_height` and is no higher than that; the
    /// charge is within the cap.
    pub open spec fn within_jump(
        self,
        ground_level: i64,
        jump_height: u32,
        jump_charge_time_max: u32,
        gravity: u32,
    ) -> bool {
        &&& self.jump_charge_time <= jump_charge_time_max
        &&& if self.is_jumping {
            &&& 0 <= self.height(ground_level) <= jump_height
            &&& self.energy(ground_level, gravity) <= 2 * gravity * jump_height
        } else {
            self.position.y == ground_level
        }
    }

    /// Whether the rounding of `frame` adds no energy to the flight, if the
    /// player is in flight in it.
    pub open spec fn adds_no_energy(
        self,
        frame: Frame,
        jump_height: u32,
        jump_charge_time_max: u32,
        gravity: u32,
    ) -> bool {
        let ready = self.after_input(
            frame.delta_time,
            jump_height,
            jump_charge_time_max,
            gravity,
            frame.is_space_pressed,
        );
        ready.is_jumping ==> energy_gain(ready.velocity_y, frame.delta_time, gravity) <= 0
    }

    /// Whether no frame of the run adds energy to the flight by its
    /// rounding.
    pub open spec fn run_adds_no_energy(
        self,
        frames: Seq<Frame>,
        ground_level: i64,
        jump_height: u32,
        jump_charge_time_max: u32,
        gravity: u32,
    ) -> bool
        decreases frames.len(),
    {
        if frames.len() == 0 {
            true
        } else {
            &&& self.run_adds_no_energy(
                frames.drop_last(),
                ground_level,
                jump_height,
                jump_charge_time_max,
                gravity,
            )
            &&& self.after_frames(
                frames.drop_last(),
                ground_level,
                jump_height,
                jump_charge_time_max,
                gravity,
            ).adds_no_energy(frames.last(), jump_height, jump_charge_time_max, gravity)
        }
    }

    /// A player at rest at `position`.
    pub fn new(position: Vector2, size: Vector2) -> (player: Player)
        ensures
            player == (Player {
                position,
                size,
                velocity_y: 0,
                is_jumping: false,
                is_charging_jump: false,
                jump_charge_time: 0,
            }),
            player.wf(),
    {
        Player {
            position,
            size,
            velocity_y: 0,
            is_jumping: false,
            is_charging_jump: false,
            jump_charge_time: 0,
        }
    }

    /// Advances the player by one frame of `delta_time` microseconds.
    pub fn update(
        &mut self,
        delta_time: u32,
        ground_level: i64,
        jump_height: u32,
        jump_charge_time_max: u32,
        gravity: u32,
        is_space_pressed: bool,
    )
        requires
            jump_charge_time_max > 0,
        ensures
            *final(self) == old(self).after_update(
                delta_time,
                ground_level,
                jump_height,
                jump_charge_time_max,
                gravity,
                is_space_pressed,
            ),
            old(self).wf() ==> final(self).wf(),
            final(self).is_jumping ==> final(self).position.y < ground_level,
            old(self).position.y <= ground_level ==> final(self).position.y <= ground_level,
            old(self).jump_charge_time <= jump_charge_time_max ==> final(self).jump_charge_time
                <= jump_charge_time_max,
    {
        if !self.is_jumping {
            if is_space_pressed {
                if !self.is_charging_jump {
                    self.is_charging_jump = true;
                    self.jump_charge_time = 0;
                } else {
                    let charged: u64 = self.jump_charge_time as u64 + delta_time as u64;
                    if charged < jump_charge_time_max as u64 {
                        self.jump_charge_time = charged as u32;
                    } else {
                        self.jump_charge_time = jump_charge_time_max;
                    }
                }
            } else if self.is_charging_jump {
                self.is_charging_jump = false;
                self.velocity_y = jump_velocity(
                    gravity,
                    jump_height,
                    self.jump_charge_time,
                    jump_charge_time_max,
                );
                self.is_jumping = true;
            }
        }
        if self.is_jumping {
            let pull = travel(gravity as i64, delta_time);
            self.velocity_y = saturate(self.velocity_y as i128 + pull);
            let step = travel(self.velocity_y, delta_time);
            self.position.y = saturate(self.position.y as i128 + step);
            if self.position.y >= ground_level {
                self.position.y = ground_level;
                self.velocity_y = 0;
                self.is_jumping = false;
            }
        }
    }

    /// The figure that stands for the player when drawn at `screen_x`.
    pub open spec fn outline(self, screen_x: i64) -> Figure {
        Figure {
            x: to_pixels(screen_x as int) as i64,
            y: to_pixels(self.position.y as int) as i64,
            width: to_pixels(self.size.x as int) as i64,
            height: to_pixels(self.size.y as int) as i64,
        }
    }

    /// The gauge shown while a jump is charged: its trough, the part that
    /// is filled, and the charge in percent below it.
    pub open spec fn charge_gauge(self, jump_charge_time_max: u32) -> Seq<DrawCommand> {
        if self.is_charging_jump {
            seq![
                rectangle(10, 60, 200, 20, Color::gray()),
                rectangle(
                    10,
                    60,
                    gauge_fill(self.jump_charge_time, jump_charge_time_max) as int,
                    20,
                    Color::yellow(),
                ),
                text(
                    Caption::JumpPower(
                        charge_percent(self.jump_charge_time, jump_charge_time_max) as u64,
                    ),
                    10,
                    85,
                    20,
                    Color::white(),
                ),
            ]
        } else {
            seq![]
        }
    }

    /// Appends the charge gauge to the frame `d`; nothing while no jump is
    /// being charged.
    pub fn draw_jump_charge(&self, d: &mut Vec<DrawCommand>, jump_charge_time_max: u32)
        requires
            jump_charge_time_max > 0,
        ensures
            final(d)@ == old(d)@ + self.charge_gauge(jump_charge_time_max),
    {
        if self.is_charging_jump {
            let charge = self.jump_charge_time as u64;
            let max = jump_charge_time_max as u64;
            let filled = 200 * charge / max;
            let percent = (200 * charge + max) / (2 * max);
            draw_rectangle(d, 10, 60, 200, 20, Color::gray());
            draw_rectangle(d, 10, 60, filled as i64, 20, Color::yellow());
            draw_text(d, Caption::JumpPower(percent), 10, 85, 20, Color::white());
        }
        assert(d@ =~= old(d)@ + self.charge_gauge(jump_charge_time_max));
    }
}

/// Width in pixels of the filled part of the gauge, out of 200.
pub open spec fn gauge_fill(charge: u32, max_charge: u32) -> nat {
    ((200 * charge) / (max_charge as int)) as nat
}

/// The charge as a percentage of the full charge, rounded to the nearest
/// whole number, halves upward.
pub open spec fn charge_percent(charge: u32, max_charge: u32) -> nat {
    ((200 * charge + max_charge) / (2 * max_charge)) as nat
}

impl Drawable for Player {
    open spec fn position(&self) -> (i64, i64) {
        (self.position.x, self.position.y)
    }

    open spec fn size(&self) -> (i64, i64) {
        (self.size.x, self.size.y)
    }

    /// The player stands in the foreground.
    open spec fn layer(&self) -> i32 {
        2
    }

    open spec fn picture(&self, screen_x: i64, screen_width: i64) -> Seq<DrawCommand> {
        figure(self.outline(screen_x), self.is_jumping || self.is_charging_jump)
    }

    fn draw(&self, d: &mut Vec<DrawCommand>, screen_x: i64, screen_width: i64) {
        let outline = Figure {
            x: pixels(screen_x),
            y: pixels(self.position.y),
            width: pixels(self.size.x),
            height: pixels(self.size.y),
        };
        draw_figure(d, outline, self.is_jumping || self.is_charging_jump);
    }

    fn get_position(&self) -> (r: (i64, i64)) {
        (self.position.x, self.position.y)
    }

    fn get_size(&self) -> (r: (i64, i64)) {
        (self.size.x, self.size.y)
    }

    fn get_layer(&self) -> (r: i32) {
        2
    }
}

/// The energy of a launch fits well within 97 bits.
pub proof fn lemma_launch_energy_bound(gravity: u32, jump_height: u32, charge: u32, max_charge: u32)
    requires
        max_charge > 0,
    ensures
        2 * gravity * jump_height * charge < 0x2_0000_0000_0000_0000_0000_0000,
        launch_energy(gravity, jump_height, charge, max_charge) < 0x2_0000_0000_0000_0000_0000_0000,
        launch_speed(gravity, jump_height, charge, max_charge) < 0x2_0000_0000_0000,
{
    let product = 2 * gravity * jump_height * charge;
    assert(0 <= product < 0x2_0000_0000_0000_0000_0000_0000) by (nonlinear_arith)
        requires
            product == 2 * gravity * jump_height * charge,
            0 <= gravity < 0x1_0000_0000,
            0 <= jump_height < 0x1_0000_0000,
            0 <= charge < 0x1_0000_0000,
    ;
    let energy = launch_energy(gravity, jump_height, charge, max_charge);
    assert(0 <= product / (max_charge as int) <= product) by (nonlinear_arith)
        requires
            0 <= product,
            max_charge > 0,
    ;
    let speed = launch_speed(gravity, jump_height, charge, max_charge);
    lemma_sqrt_floor_bounds(energy);
    assert(speed < 0x2_0000_0000_0000) by (nonlinear_arith)
        requires
            speed * speed <= energy,
            energy < 0x2_0000_0000_0000_0000_0000_0000,
    ;
}

/// The velocity that a jump charged for `charge` out of `max_charge`
/// microseconds starts with: upward, hence negative.
pub fn jump_velocity(gravity: u32, jump_height: u32, charge: u32, max_charge: u32) -> (v: i64)
    requires
        max_charge > 0,
    ensures
        v == -launch_speed(gravity, jump_height, charge, max_charge),
{
    proof {
        lemma_launch_energy_bound(gravity, jump_height, charge, max_charge);
        assert(0 <= 2 * gravity * jump_height < 0x2_0000_0000_0000_0000) by (nonlinear_arith)
            requires
                0 <= gravity < 0x1_0000_0000,
                0 <= jump_height < 0x1_0000_0000,
        ;
    }
    let twice: u128 = 2 * (gravity as u128) * (jump_height as u128);
    let product: u128 = twice * (charge as u128);
    let energy: u128 = product / (max_charge as u128);
    let speed = isqrt(energy);
    -(speed as i64)
}

/// Letting go of the jump button while charging launches the player upward
/// at the launch speed of the charge, whose square is the launch energy
/// rounded down to a square.
pub proof fn lemma_release_launches(
    player: Player,
    delta_time: u32,
    jump_height: u32,
    jump_charge_time_max: u32,
    gravity: u32,
)
    requires
        jump_charge_time_max > 0,
        !player.is_jumping,
        player.is_charging_jump,
    ensures
        ({
            let launched = player.after_input(
                delta_time,
                jump_height,
                jump_charge_time_max,
                gravity,
                false,
            );
            let speed = launch_speed(
                gravity,
                jump_height,
                player.jump_charge_time,
                jump_charge_time_max,
            );
            let energy = launch_energy(
                gravity,
                jump_height,
                player.jump_charge_time,
                jump_charge_time_max,
            );
            &&& launched.is_jumping
            &&& !launched.is_charging_jump
            &&& launched.velocity_y == -speed
            &&& speed * speed <= energy < (speed + 1) * (speed + 1)
        }),
{
    lemma_launch_energy_bound(gravity, jump_height, player.jump_charge_time, jump_charge_time_max);
    lemma_sqrt_floor_bounds(
        launch_energy(gravity, jump_height, player.jump_charge_time, jump_charge_time_max),
    );
}

/// A jump that was not charged at all has no speed.
pub proof fn lemma_no_charge_no_jump(gravity: u32, jump_height: u32, max_charge: u32)
    requires
        max_charge > 0,
    ensures
        launch_speed(gravity, jump_height, 0, max_charge) == 0,
{
    assert(2 * gravity * jump_height * 0 == 0) by (nonlinear_arith);
    assert(0int / (max_charge as int) == 0) by (nonlinear_arith)
        requires
            max_charge > 0,
    ;
    assert(sqrt_floor(0) == 0);
}

/// A fully charged jump has the energy that carries the player
/// `jump_height` high: the square of its speed is twice the gravity times
/// `jump_height`, rounded down to a square.
pub proof fn lemma_full_charge_reaches_jump_height(gravity: u32, jump_height: u32, max_charge: u32)
    requires
        max_charge > 0,
    ensures
        ({
            let speed = launch_speed(gravity, jump_height, max_charge, max_charge);
            speed * speed <= 2 * gravity * jump_height < (speed + 1) * (speed + 1)
        }),
{
    let twice = 2 * gravity * jump_height;
    assert((twice * max_charge) / (max_charge as int) == twice) by (nonlinear_arith)
        requires
            max_charge > 0,
    ;
    assert(twice >= 0) by (nonlinear_arith)
        requires
            twice == 2 * gravity * jump_height,
            gravity >= 0,
            jump_height >= 0,
    ;
    lemma_sqrt_floor_bounds(twice as nat);
}

/// A longer charge never gives a slower launch.
pub proof fn lemma_launch_speed_grows_with_charge(
    gravity: u32,
    jump_height: u32,
    shorter: u32,
    longer: u32,
    max_charge: u32,
)
    requires
        max_charge > 0,
        shorter <= longer,
    ensures
        launch_speed(gravity, jump_height, shorter, max_charge) <= launch_speed(
            gravity,
            jump_height,
            longer,
            max_charge,
        ),
{
    let twice = 2 * gravity * jump_height;
    assert(0 <= twice * shorter <= twice * longer) by (nonlinear_arith)
        requires
            twice == 2 * gravity * jump_height,
            gravity >= 0,
            jump_height >= 0,
            0 <= shorter <= longer,
    ;
    assert((twice * shorter) / (max_charge as int) <= (twice * longer) / (max_charge as int))
        by (nonlinear_arith)
        requires
            0 <= twice * shorter <= twice * longer,
            max_charge > 0,
    ;
    assert(0 <= (twice * shorter) / (max_charge as int)) by (nonlinear_arith)
        requires
            0 <= twice * shorter,
            max_charge > 0,
    ;
    lemma_sqrt_floor_monotonic(
        launch_energy(gravity, jump_height, shorter, max_charge),
        launch_energy(gravity, jump_height, longer, max_charge),
    );
}

/// A player who is on or above the ground line stays on or above it through
/// every frame, and is on it only when not airborne.
pub proof fn lemma_never_below_ground(
    player: Player,
    delta_time: u32,
    ground_level: i64,
    jump_height: u32,
    jump_charge_time_max: u32,
    gravity: u32,
    is_space_pressed: bool,
)
    requires
        player.position.y <= ground_level,
    ensures
        ({
            let next = player.after_update(
                delta_time,
                ground_level,
                jump_height,
                jump_charge_time_max,
                gravity,
                is_space_pressed,
            );
            &&& next.position.y <= ground_level
            &&& next.position.y == ground_level ==> !next.is_jumping
            &&& next.position.x == player.position.x
            &&& next.size == player.size
        }),
{
}

/// Whatever the frames of a run are, a player who starts on or above the
/// ground line ends on or above it, and after at least one frame is on it
/// only when not airborne; the player never moves sideways, never changes
/// size, and a charge within the cap stays within it.
pub proof fn lemma_never_below_ground_in_any_run(
    player: Player,
    frames: Seq<Frame>,
    ground_level: i64,
    jump_height: u32,
    jump_charge_time_max: u32,
    gravity: u32,
)
    requires
        player.position.y <= ground_level,
    ensures
        ({
            let last = player.after_frames(
                frames,
                ground_level,
                jump_height,
                jump_charge_time_max,
                gravity,
            );
            &&& last.position.y <= ground_level
            &&& frames.len() > 0 && last.position.y == ground_level ==> !last.is_jumping
            &&& last.position.x == player.position.x
            &&& last.size == player.size
            &&& player.wf() ==> last.wf()
            &&& player.jump_charge_time <= jump_charge_time_max ==> last.jump_charge_time
                <= jump_charge_time_max
        }),
    decreases frames.len(),
{
    if frames.len() > 0 {
        lemma_never_below_ground_in_any_run(
            player,
            frames.drop_last(),
            ground_level,
            jump_height,
            jump_charge_time_max,
            gravity,
        );
    }
}

/// A frame never leaves the player both airborne and charging.
pub proof fn lemma_update_keeps_wf(
    player: Player,
    delta_time: u32,
    ground_level: i64,
    jump_height: u32,
    jump_charge_time_max: u32,
    gravity: u32,
    is_space_pressed: bool,
)
    requires
        player.wf(),
    ensures
        player.after_update(
            delta_time,
            ground_level,
            jump_height,
            jump_charge_time_max,
            gravity,
            is_space_pressed,
        ).wf(),
{
}

/// A frame of flight changes the energy by no more than `energy_gain`: a
/// player still in the air after it has at most the energy it had plus that
/// gain.
pub proof fn lemma_flight_energy(player: Player, delta_time: u32, ground_level: i64, gravity: u32)
    requires
        player.is_jumping,
        i64::MIN <= player.velocity_y + travelled(gravity as int, delta_time as int) <= i64::MAX,
    ensures
        ({
            let next = player.after_flight(delta_time, ground_level, gravity);
            next.is_jumping ==> next.energy(ground_level, gravity) <= player.energy(
                ground_level,
                gravity,
            ) + energy_gain(player.velocity_y, delta_time, gravity)
        }),
{
    let next = player.after_flight(delta_time, ground_level, gravity);
    if next.is_jumping {
        let v = player.velocity_y as int;
        let g = gravity as int;
        let pull = travelled(g, delta_time as int);
        let step = travelled(v + pull, delta_time as int);
        let h = player.height(ground_level);
        let h1 = next.height(ground_level);
        assert(next.velocity_y == v + pull);
        assert(h1 <= h - step);
        assert((v + pull) * (v + pull) + 2 * g * h1 <= v * v + 2 * g * h + (pull * (2 * v + pull)
            - 2 * g * step)) by (nonlinear_arith)
            requires
                h1 <= h - step,
                g >= 0,
        ;
    }
}

/// In a frame in which nothing is rounded, neither the pull of gravity nor
/// the step of the player, the flight loses energy: the square of the pull.
pub proof fn lemma_unrounded_frame_loses_energy(velocity: i64, delta_time: u32, gravity: u32)
    requires
        (gravity * delta_time) % (MICROS_PER_SECOND as int) == 0,
        ((velocity + travelled(gravity as int, delta_time as int)) * delta_time) % (
        MICROS_PER_SECOND as int) == 0,
    ensures
        ({
            let pull = travelled(gravity as int, delta_time as int);
            energy_gain(velocity, delta_time, gravity) == -(pull * pull)
        }),
{
    let g = gravity as int;
    let dt = delta_time as int;
    let v = velocity as int;
    let d = MICROS_PER_SECOND as int;
    let pull = travelled(g, dt);
    let step = travelled(v + pull, dt);
    assert(g * dt >= 0) by (nonlinear_arith)
        requires
            g >= 0,
            dt >= 0,
    ;
    assert(pull * d == g * dt);
    assert(step * d == (v + pull) * dt);
    assert(pull * (2 * v + pull) - 2 * g * step == -(pull * pull)) by (nonlinear_arith)
        requires
            pull * d == g * dt,
            step * d == (v + pull) * dt,
            d == 1_000_000,
    ;
}

/// A frame adds no energy when the pull of gravity outweighs what rounding
/// can add: when its square is at least twice the gravity plus twice the
/// speed after the pull.
pub proof fn lemma_strong_pull_adds_no_energy(velocity: i64, delta_time: u32, gravity: u32)
    requires
        ({
            let pull = travelled(gravity as int, delta_time as int);
            let speed = if velocity + pull >= 0 {
                velocity + pull
            } else {
                -(velocity + pull)
            };
            pull * pull >= 2 * gravity + 2 * speed
        }),
    ensures
        energy_gain(velocity, delta_time, gravity) <= 0,
{
    let g = gravity as int;
    let dt = delta_time as int;
    let d = MICROS_PER_SECOND as int;
    let pull = travelled(g, dt);
    let v1 = velocity + pull;
    let step = travelled(v1, dt);
    let speed = if v1 >= 0 {
        v1
    } else {
        -v1
    };
    assert(g * dt >= 0) by (nonlinear_arith)
        requires
            g >= 0,
            dt >= 0,
    ;
    let rest = g * dt - pull * d;
    let slack = v1 * dt - step * d;
    assert(0 <= rest < d);
    assert(v1 >= 0 ==> v1 * dt >= 0) by (nonlinear_arith)
        requires
            dt >= 0,
    ;
    assert(v1 < 0 ==> v1 * dt <= 0) by (nonlinear_arith)
        requires
            dt >= 0,
    ;
    assert(-d < slack < d);
    assert(v1 >= 0 ==> slack >= 0);
    assert(v1 < 0 ==> slack <= 0);
    let gain = pull * (2 * velocity + pull) - 2 * g * step;
    let lift = pull * v1;
    let fall = g * step;
    let square = pull * pull;
    assert(gain == 2 * lift - square - 2 * fall) by (nonlinear_arith)
        requires
            gain == pull * (2 * velocity + pull) - 2 * g * step,
            v1 == velocity + pull,
            lift == pull * v1,
            fall == g * step,
            square == pull * pull,
    ;
    assert(lift * d == (g * dt) * v1 - rest * v1) by (nonlinear_arith)
        requires
            lift == pull * v1,
            pull * d == g * dt - rest,
    ;
    assert(fall * d == g * (v1 * dt) - g * slack) by (nonlinear_arith)
        requires
            fall == g * step,
            step * d == v1 * dt - slack,
    ;
    assert((g * dt) * v1 == g * (v1 * dt)) by (nonlinear_arith);
    assert(gain * d == 2 * (lift * d) - square * d - 2 * (fall * d)) by (nonlinear_arith)
        requires
            gain == 2 * lift - square - 2 * fall,
    ;
    assert(square * d == d * (pull * pull)) by (nonlinear_arith)
        requires
            square == pull * pull,
    ;
    assert(gain * d == -(d * (pull * pull)) - 2 * (rest * v1) + 2 * (g * slack));
    assert(-(rest * v1) <= d * speed) by (nonlinear_arith)
        requires
            0 <= rest < d,
            speed >= 0,
            speed == v1 || speed == -v1,
    ;
    assert(g * slack <= g * d) by (nonlinear_arith)
        requires
            g >= 0,
            slack < d,
    ;
    assert(gain * d <= d * (2 * g + 2 * speed - pull * pull)) by (nonlinear_arith)
        requires
            gain * d == -(d * (pull * pull)) - 2 * (rest * v1) + 2 * (g * slack),
            -(rest * v1) <= d * speed,
            g * slack <= g * d,
    ;
    assert(gain <= 0) by (nonlinear_arith)
        requires
            gain * d <= d * (2 * g + 2 * speed - pull * pull),
            2 * g + 2 * speed - pull * pull <= 0,
            d == 1_000_000,
    ;
}

/// One frame that adds no energy keeps a player within the jump.
pub proof fn lemma_frame_keeps_within_jump(
    player: Player,
    frame: Frame,
    ground_level: i64,
    jump_height: u32,
    jump_charge_time_max: u32,
    gravity: u32,
)
    requires
        jump_charge_time_max > 0,
        player.within_jump(ground_level, jump_height, jump_charge_time_max, gravity),
        player.adds_no_energy(frame, jump_height, jump_charge_time_max, gravity),
    ensures
        player.after_update(
            frame.delta_time,
            ground_level,
            jump_height,
            jump_charge_time_max,
            gravity,
            frame.is_space_pressed,
        ).within_jump(ground_level, jump_height, jump_charge_time_max, gravity),
{
    let g = gravity as int;
    let dt = frame.delta_time as int;
    let top = jump_height as int;
    let ready = player.after_input(
        frame.delta_time,
        jump_height,
        jump_charge_time_max,
        gravity,
        frame.is_space_pressed,
    );
    let next = ready.after_flight(frame.delta_time, ground_level, gravity);
    assert(0 <= 2 * g * top < 0x2_0000_0000_0000_0000) by (nonlinear_arith)
        requires
            0 <= g < 0x1_0000_0000,
            0 <= top < 0x1_0000_0000,
    ;
    if ready.is_jumping {
        if !player.is_jumping {
            // the frame of the launch: from the ground line, at the launch speed
            let charge = player.jump_charge_time;
            let energy = launch_energy(gravity, jump_height, charge, jump_charge_time_max);
            let speed = launch_speed(gravity, jump_height, charge, jump_charge_time_max);
            lemma_launch_energy_bound(gravity, jump_height, charge, jump_charge_time_max);
            lemma_sqrt_floor_bounds(energy);
            assert(energy <= 2 * g * top) by (nonlinear_arith)
                requires
                    energy == (2 * g * top * charge) / (jump_charge_time_max as int),
                    0 <= charge <= jump_charge_time_max,
                    jump_charge_time_max > 0,
                    0 <= 2 * g * top,
            ;
            assert(ready.velocity_y == -speed);
            assert(ready.velocity_y * ready.velocity_y == speed * speed) by (nonlinear_arith)
                requires
                    ready.velocity_y == -speed,
            ;
            assert(ready.height(ground_level) == 0);
            assert(2 * g * ready.height(ground_level) == 0);
        }
        assert(ready.within_jump(ground_level, jump_height, jump_charge_time_max, gravity));
        let v = ready.velocity_y as int;
        let h = ready.height(ground_level);
        assert(2 * g * h >= 0) by (nonlinear_arith)
            requires
                g >= 0,
                h >= 0,
        ;
        assert(-0x2_0000_0000 < v < 0x2_0000_0000) by (nonlinear_arith)
            requires
                v * v < 0x2_0000_0000_0000_0000,
        ;
        let pull = travelled(g, dt);
        assert(0 <= g * dt < 0x1_0000_0000_0000_0000) by (nonlinear_arith)
            requires
                0 <= g < 0x1_0000_0000,
                0 <= dt < 0x1_0000_0000,
        ;
        assert(0 <= pull < 0x1_0000_0000_0000_0000);
        lemma_flight_energy(ready, frame.delta_time, ground_level, gravity);
        if next.is_jumping {
            let h1 = next.height(ground_level);
            let v1 = next.velocity_y as int;
            assert(h1 > 0);
            assert(next.energy(ground_level, gravity) <= 2 * g * top);
            if g > 0 {
                assert(h1 <= top) by (nonlinear_arith)
                    requires
                        v1 * v1 + 2 * g * h1 <= 2 * g * top,
                        g > 0,
                ;
            } else {
                assert(2 * g * h == 0 && 2 * g * top == 0) by (nonlinear_arith)
                    requires
                        g == 0,
                ;
                assert(v * v <= 0);
                assert(v == 0) by (nonlinear_arith)
                    requires
                        v * v <= 0,
                ;
                assert(g * dt == 0) by (nonlinear_arith)
                    requires
                        g == 0,
                ;
                assert(pull == 0);
                assert((v + pull) * dt == 0) by (nonlinear_arith)
                    requires
                        v + pull == 0,
                ;
                assert(h1 == h);
            }
        }
    }
}

/// After a launch from the ground line, the player never rises above
/// `jump_height`, through any run in which no frame adds energy by its
/// rounding: the energy of the launch is at most what carries that high,
/// and it does not grow.
pub proof fn lemma_jump_never_exceeds_jump_height(
    player: Player,
    frames: Seq<Frame>,
    ground_level: i64,
    jump_height: u32,
    jump_charge_time_max: u32,
    gravity: u32,
)
    requires
        jump_charge_time_max > 0,
        player.within_jump(ground_level, jump_height, jump_charge_time_max, gravity),
        player.run_adds_no_energy(
            frames,
            ground_level,
            jump_height,
            jump_charge_time_max,
            gravity,
        ),
    ensures
        ({
            let last = player.after_frames(
                frames,
                ground_level,
                jump_height,
                jump_charge_time_max,
                gravity,
            );
            &&& last.within_jump(ground_level, jump_height, jump_charge_time_max, gravity)
            &&& 0 <= last.height(ground_level) <= jump_height
            &&& last.position.y >= ground_level - jump_height
        }),
    decreases frames.len(),
{
    if frames.len() > 0 {
        lemma_jump_never_exceeds_jump_height(
            player,
            frames.drop_last(),
            ground_level,
            jump_height,
            jump_charge_time_max,
            gravity,
        );
        lemma_frame_keeps_within_jump(
            player.after_frames(
                frames.drop_last(),
                ground_level,
                jump_height,
                jump_charge_time_max,
                gravity,
            ),
            frames.last(),
            ground_level,
            jump_height,
            jump_charge_time_max,
            gravity,
        );
    }
}

} // verus!
