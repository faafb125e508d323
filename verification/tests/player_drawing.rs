use vibe_game::canvas::{Caption, DrawCommand};
use vibe_game::color::Color;
use vibe_game::drawable::Drawable;
use vibe_game::figure::{draw_figure, Figure};
use vibe_game::geometry::Vector2;
use vibe_game::player::Player;

fn rect(x: i64, y: i64, width: i64, height: i64, color: Color) -> DrawCommand {
    DrawCommand::Rectangle { x, y, width, height, color }
}

fn outline(x: i64, y: i64, width: i64, height: i64, color: Color) -> DrawCommand {
    DrawCommand::RectangleLines { x, y, width, height, color }
}

fn body() -> Color {
    Color::new(30, 90, 150, 255)
}

fn body_edge() -> Color {
    Color::new(20, 60, 100, 255)
}

fn skin() -> Color {
    Color::new(255, 213, 170, 255)
}

fn standing_figure(mouth: Vec<DrawCommand>) -> Vec<DrawCommand> {
    let pants = Color::new(40, 40, 120, 255);
    let shoes = Color::new(160, 40, 40, 255);
    let button = Color::new(220, 220, 220, 255);
    let mut expected = vec![
        DrawCommand::Circle { x: 400, y: 550, radius: 20, color: Color::new(0, 0, 0, 50) },
        rect(385, 520, 13, 30, pants),
        rect(402, 520, 13, 30, pants),
        rect(383, 538, 15, 12, shoes),
        rect(402, 538, 15, 12, shoes),
        rect(380, 475, 40, 45, body()),
        outline(380, 475, 40, 45, body_edge()),
        rect(382, 460, 36, 15, skin()),
        outline(382, 460, 36, 15, Color::new(200, 160, 130, 255)),
        rect(382, 460, 36, 7, Color::new(80, 50, 20, 255)),
        rect(392, 465, 4, 3, Color::white()),
        rect(404, 465, 4, 3, Color::white()),
        rect(394, 467, 2, 3, Color::black()),
        rect(406, 467, 2, 3, Color::black()),
    ];
    expected.extend(mouth);
    expected.extend(vec![
        rect(374, 490, 6, 30, body()),
        outline(374, 490, 6, 30, body_edge()),
        rect(420, 490, 6, 30, body()),
        outline(420, 490, 6, 30, body_edge()),
        rect(370, 512, 8, 8, skin()),
        rect(422, 512, 8, 8, skin()),
        DrawCommand::Line { x1: 380, y1: 505, x2: 420, y2: 505, color: Color::new(200, 180, 60, 255) },
        rect(398, 483, 4, 4, button),
        rect(398, 493, 4, 4, button),
        rect(398, 503, 4, 4, button),
    ]);
    expected
}

fn closed_mouth() -> Vec<DrawCommand> {
    vec![DrawCommand::Line {
        x1: 394,
        y1: 472,
        x2: 406,
        y2: 472,
        color: Color::new(200, 100, 100, 255),
    }]
}

fn open_mouth() -> Vec<DrawCommand> {
    vec![
        DrawCommand::Circle { x: 400, y: 472, radius: 4, color: Color::new(200, 100, 100, 255) },
        DrawCommand::Circle { x: 400, y: 472, radius: 2, color: Color::new(100, 10, 10, 255) },
    ]
}

fn standing() -> Player {
    Player::new(Vector2::new(400_000, 490_000), Vector2::new(40_000, 60_000))
}

#[test]
fn a_player_at_rest_is_drawn_with_a_closed_mouth() {
    let p = standing();
    let mut d = Vec::new();
    p.draw(&mut d, 400_000, 800_000);
    assert_eq!(d.len(), 25);
    assert_eq!(d, standing_figure(closed_mouth()));
}

#[test]
fn a_charging_player_is_drawn_with_an_open_mouth() {
    let mut p = standing();
    p.is_charging_jump = true;
    let mut d = Vec::new();
    p.draw(&mut d, 400_000, 800_000);
    assert_eq!(d.len(), 26);
    assert_eq!(d, standing_figure(open_mouth()));
}

#[test]
fn a_jumping_player_is_drawn_with_an_open_mouth_where_it_is() {
    let mut p = standing();
    p.is_jumping = true;
    p.position.y = 390_000;
    let mut d = Vec::new();
    p.draw(&mut d, 400_000, 800_000);
    let expected: Vec<DrawCommand> = standing_figure(open_mouth())
        .into_iter()
        .map(|c| match c {
            DrawCommand::Rectangle { x, y, width, height, color } => {
                DrawCommand::Rectangle { x, y: y - 100, width, height, color }
            }
            DrawCommand::RectangleLines { x, y, width, height, color } => {
                DrawCommand::RectangleLines { x, y: y - 100, width, height, color }
            }
            DrawCommand::Circle { x, y, radius, color } => {
                DrawCommand::Circle { x, y: y - 100, radius, color }
            }
            DrawCommand::Line { x1, y1, x2, y2, color } => {
                DrawCommand::Line { x1, y1: y1 - 100, x2, y2: y2 - 100, color }
            }
            other => other,
        })
        .collect();
    assert_eq!(d, expected);
}

#[test]
fn drawing_adds_to_what_is_already_in_the_frame() {
    let p = standing();
    let mut d = vec![DrawCommand::Clear { color: Color::sky_blue() }];
    p.draw(&mut d, 400_000, 800_000);
    assert_eq!(d.len(), 26);
    assert_eq!(d[0], DrawCommand::Clear { color: Color::sky_blue() });
    assert_eq!(d[1..].to_vec(), standing_figure(closed_mouth()));
}

#[test]
fn the_figure_follows_its_anchor() {
    let p = standing();
    let mut here = Vec::new();
    let mut there = Vec::new();
    p.draw(&mut here, 400_000, 800_000);
    p.draw(&mut there, 150_999, 800_000);
    assert_eq!(here.len(), there.len());
    for (a, b) in here.iter().zip(there.iter()) {
        match (a, b) {
            (
                DrawCommand::Rectangle { x: ax, y: ay, width: aw, height: ah, color: ac },
                DrawCommand::Rectangle { x: bx, y: by, width: bw, height: bh, color: bc },
            ) => {
                assert_eq!(ax - bx, 250);
                assert_eq!((ay, aw, ah, ac), (by, bw, bh, bc));
            }
            (
                DrawCommand::RectangleLines { x: ax, y: ay, .. },
                DrawCommand::RectangleLines { x: bx, y: by, .. },
            ) => {
                assert_eq!(ax - bx, 250);
                assert_eq!(ay, by);
            }
            (DrawCommand::Circle { x: ax, .. }, DrawCommand::Circle { x: bx, .. }) => {
                assert_eq!(ax - bx, 250);
            }
            (DrawCommand::Line { x1: a1, x2: a2, .. }, DrawCommand::Line { x1: b1, x2: b2, .. }) => {
                assert_eq!(a1 - b1, 250);
                assert_eq!(a2 - b2, 250);
            }
            _ => panic!("the two figures differ in kind"),
        }
    }
}

#[test]
fn a_figure_of_negative_size_rounds_toward_zero() {
    let f = Figure { x: 0, y: 0, width: -40, height: -60 };
    let mut d = Vec::new();
    draw_figure(&mut d, f, false);
    assert_eq!(d[0], DrawCommand::Circle { x: 0, y: -60, radius: -20, color: Color::new(0, 0, 0, 50) });
    assert_eq!(d[1], rect(13 - 2, -30, -13, -30, Color::new(40, 40, 120, 255)));
    assert_eq!(d[9], rect(20 + 2, 30, -44, -7, Color::new(80, 50, 20, 255)));
}

#[test]
fn a_figure_at_the_limits_is_drawn() {
    let limit = 9_223_372_036_854_776;
    let f = Figure { x: -limit, y: limit, width: limit, height: limit };
    let mut d = Vec::new();
    draw_figure(&mut d, f, true);
    assert_eq!(d.len(), 26);
    assert_eq!(
        d[0],
        DrawCommand::Circle { x: -limit, y: 2 * limit, radius: limit / 2, color: Color::new(0, 0, 0, 50) }
    );
}

#[test]
fn no_gauge_without_a_charge() {
    let p = standing();
    let mut d = Vec::new();
    p.draw_jump_charge(&mut d, 500_000);
    assert!(d.is_empty());
    let mut q = standing();
    q.is_jumping = true;
    q.jump_charge_time = 250_000;
    q.draw_jump_charge(&mut d, 500_000);
    assert!(d.is_empty());
}

fn gauge(charge: u32, max: u32) -> Vec<DrawCommand> {
    let mut p = standing();
    p.is_charging_jump = true;
    p.jump_charge_time = charge;
    let mut d = Vec::new();
    p.draw_jump_charge(&mut d, max);
    d
}

#[test]
fn the_gauge_shows_half_a_charge() {
    assert_eq!(
        gauge(250_000, 500_000),
        vec![
            rect(10, 60, 200, 20, Color::gray()),
            rect(10, 60, 100, 20, Color::yellow()),
            DrawCommand::Text {
                caption: Caption::JumpPower(50),
                x: 10,
                y: 85,
                font_size: 20,
                color: Color::white(),
            },
        ]
    );
}

#[test]
fn the_gauge_is_empty_at_first_and_full_at_last() {
    let empty = gauge(0, 500_000);
    assert_eq!(empty[1], rect(10, 60, 0, 20, Color::yellow()));
    assert_eq!(
        empty[2],
        DrawCommand::Text { caption: Caption::JumpPower(0), x: 10, y: 85, font_size: 20, color: Color::white() }
    );
    let full = gauge(500_000, 500_000);
    assert_eq!(full[1], rect(10, 60, 200, 20, Color::yellow()));
    assert_eq!(
        full[2],
        DrawCommand::Text { caption: Caption::JumpPower(100), x: 10, y: 85, font_size: 20, color: Color::white() }
    );
}

#[test]
fn the_gauge_rounds_the_fill_down_and_the_percentage_to_the_nearest() {
    // 1/3 of the charge: 66.67 pixels, 33.33 percent
    let third = gauge(1, 3);
    assert_eq!(third[1], rect(10, 60, 66, 20, Color::yellow()));
    assert_eq!(
        third[2],
        DrawCommand::Text { caption: Caption::JumpPower(33), x: 10, y: 85, font_size: 20, color: Color::white() }
    );
    // 2/3: 133.33 pixels, 66.67 percent
    let two_thirds = gauge(2, 3);
    assert_eq!(two_thirds[1], rect(10, 60, 133, 20, Color::yellow()));
    assert_eq!(
        two_thirds[2],
        DrawCommand::Text { caption: Caption::JumpPower(67), x: 10, y: 85, font_size: 20, color: Color::white() }
    );
    // 1/200: half a percent goes up
    let tie = gauge(1, 200);
    assert_eq!(
        tie[2],
        DrawCommand::Text { caption: Caption::JumpPower(1), x: 10, y: 85, font_size: 20, color: Color::white() }
    );
}

#[test]
fn the_gauge_at_the_largest_charge() {
    let d = gauge(u32::MAX, 1);
    assert_eq!(d[1], rect(10, 60, 200 * (u32::MAX as i64), 20, Color::yellow()));
    assert_eq!(
        d[2],
        DrawCommand::Text {
            caption: Caption::JumpPower(100 * (u32::MAX as u64)),
            x: 10,
            y: 85,
            font_size: 20,
            color: Color::white(),
        }
    );
}
