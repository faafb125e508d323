//! Reading the player's keys and laying out the world.
//!
//! The world is laid out once: twenty trees, ten clouds, five mountains and
//! thirty ground tiles, some with a tuft of grass. Where exactly a tree or a
//! cloud stands, and how large it is, is left to chance within fixed bounds.

use vstd::prelude::*;
use crate::random::{random_range, random_ratio};
use crate::scenery::{
    create_scenery_element, scenery_elements, Scenery, SceneryElement, SceneryType,
};
use crate::units::UNITS_PER_PIXEL;

verus! {

pub const TREES: i64 = 20;

pub const CLOUDS: i64 = 10;

pub const MOUNTAINS: i64 = 5;

pub const GROUND_TILES: i64 = 30;

/// The direction of travel that the arrow keys ask for, and whether the
/// jump key is held. Right is 1, left is -1 and wins over right, neither
/// is 0.
pub fn handle_input(right_down: bool, left_down: bool, space_down: bool) -> (r: (i32, bool))
    ensures
        r.0 == (if left_down {
            -1i32
        } else if right_down {
            1i32
        } else {
            0i32
        }),
        r.1 == space_down,
{
    let mut direction: i32 = 0;
    if right_down {
        direction = 1;
    }
    if left_down {
        direction = -1;
    }
    (direction, space_down)
}

/// What chance decides of one tree: how far it stands from its place in
/// the row and how much it has grown, both in pixels.
pub struct TreeRoll {
    pub jitter: i64,
    pub growth: i64,
}

/// What chance decides of one cloud: how far it floats from its place in
/// the row, how high it floats and how much wider than usual it is, all in
/// pixels.
pub struct CloudRoll {
    pub jitter: i64,
    pub altitude: i64,
    pub stretch: i64,
}

/// Everything that chance decides of a world.
pub struct WorldRolls {
    pub trees: Seq<TreeRoll>,
    pub clouds: Seq<CloudRoll>,
    /// How much higher than usual each mountain is, in pixels.
    pub mountains: Seq<i64>,
    /// For each ground tile, how far along it a tuft of grass grows, in
    /// pixels, if one grows there at all.
    pub tufts: Seq<Option<i64>>,
}

impl TreeRoll {
    pub open spec fn valid(self) -> bool {
        0 <= self.jitter < 100 && 50 <= self.growth < 150
    }
}

impl CloudRoll {
    pub open spec fn valid(self) -> bool {
        0 <= self.jitter < 200 && 50 <= self.altitude < 150 && 0 <= self.stretch < 50
    }
}

pub open spec fn valid_rise(rise: i64) -> bool {
    0 <= rise < 100
}

pub open spec fn valid_tuft(tuft: Option<i64>) -> bool {
    match tuft {
        Some(offset) => 20 <= offset < 180,
        None => true,
    }
}

impl WorldRolls {
    /// Every roll lies within its bounds, and there is one for each piece
    /// of the world.
    pub open spec fn valid(self) -> bool {
        &&& self.trees.len() == TREES
        &&& self.clouds.len() == CLOUDS
        &&& self.mountains.len() == MOUNTAINS
        &&& self.tufts.len() == GROUND_TILES
        &&& forall|i: int| 0 <= i < self.trees.len() ==> (#[trigger] self.trees[i]).valid()
        &&& forall|i: int| 0 <= i < self.clouds.len() ==> (#[trigger] self.clouds[i]).valid()
        &&& forall|i: int| 0 <= i < self.mountains.len() ==> valid_rise(#[trigger] self.mountains[i])
        &&& forall|i: int| 0 <= i < self.tufts.len() ==> valid_tuft(#[trigger] self.tufts[i])
    }
}

/// The tree at place `index` of the row: trees stand 300 pixels apart and
/// are at least 100 pixels high.
pub open spec fn tree(index: int, roll: TreeRoll, ground_level: i64) -> Seq<SceneryElement> {
    scenery_elements(
        SceneryType::Tree,
        ((index * 300 + roll.jitter) * UNITS_PER_PIXEL) as i64,
        0,
        Some((((100 + roll.growth) * UNITS_PER_PIXEL) as i64, 0i64)),
        ground_level,
    )
}

/// The cloud at place `index` of the row: clouds float 400 pixels apart,
/// are at least 100 pixels wide and 40 pixels high.
pub open spec fn cloud(index: int, roll: CloudRoll, ground_level: i64) -> Seq<SceneryElement> {
    scenery_elements(
        SceneryType::Cloud,
        ((index * 400 + roll.jitter) * UNITS_PER_PIXEL) as i64,
        (roll.altitude * UNITS_PER_PIXEL) as i64,
        Some((((100 + roll.stretch) * UNITS_PER_PIXEL) as i64, 40_000i64)),
        ground_level,
    )
}

/// The mountain at place `index` of the row: mountains stand 500 pixels
/// apart and are at least 200 pixels high.
pub open spec fn mountain(index: int, rise: i64, ground_level: i64) -> Seq<SceneryElement> {
    scenery_elements(
        SceneryType::Mountain,
        (index * 500 * UNITS_PER_PIXEL) as i64,
        0,
        Some((((200 + rise) * UNITS_PER_PIXEL) as i64, 0i64)),
        ground_level,
    )
}

/// The ground tile at place `index` of the row, with its tuft of grass if
/// it has one: tiles lie 200 pixels apart.
pub open spec fn ground_tile(index: int, tuft: Option<i64>, ground_level: i64) -> Seq<
    SceneryElement,
> {
    let tile = scenery_elements(
        SceneryType::Ground,
        (index * 200 * UNITS_PER_PIXEL) as i64,
        0,
        None,
        ground_level,
    );
    match tuft {
        Some(offset) => tile + scenery_elements(
            SceneryType::GrassTuft,
            ((index * 200 + offset) * UNITS_PER_PIXEL) as i64,
            0,
            None,
            ground_level,
        ),
        None => tile,
    }
}

/// The row of trees that `rolls` describe.
pub open spec fn forest(rolls: Seq<TreeRoll>, ground_level: i64) -> Seq<SceneryElement>
    decreases rolls.len(),
{
    if rolls.len() == 0 {
        seq![]
    } else {
        forest(rolls.drop_last(), ground_level) + tree(rolls.len() - 1, rolls.last(), ground_level)
    }
}

/// The row of clouds that `rolls` describe.
pub open spec fn sky(rolls: Seq<CloudRoll>, ground_level: i64) -> Seq<SceneryElement>
    decreases rolls.len(),
{
    if rolls.len() == 0 {
        seq![]
    } else {
        sky(rolls.drop_last(), ground_level) + cloud(rolls.len() - 1, rolls.last(), ground_level)
    }
}

/// The row of mountains that `rolls` describe.
pub open spec fn mountain_range(rolls: Seq<i64>, ground_level: i64) -> Seq<SceneryElement>
    decreases rolls.len(),
{
    if rolls.len() == 0 {
        seq![]
    } else {
        mountain_range(rolls.drop_last(), ground_level) + mountain(
            rolls.len() - 1,
            rolls.last(),
            ground_level,
        )
    }
}

/// The row of ground tiles that `rolls` describe.
pub open spec fn ground_row(rolls: Seq<Option<i64>>, ground_level: i64) -> Seq<SceneryElement>
    decreases rolls.len(),
{
    if rolls.len() == 0 {
        seq![]
    } else {
        ground_row(rolls.drop_last(), ground_level) + ground_tile(
            rolls.len() - 1,
            rolls.last(),
            ground_level,
        )
    }
}

/// The whole world that `rolls` describe: the trees, then the clouds, then
/// the mountains, then the ground.
pub open spec fn world_elements(rolls: WorldRolls, ground_level: i64) -> Seq<SceneryElement> {
    forest(rolls.trees, ground_level) + sky(rolls.clouds, ground_level) + mountain_range(
        rolls.mountains,
        ground_level,
    ) + ground_row(rolls.tufts, ground_level)
}

/// Makes the tree at place `index` of the row.
pub fn plant_tree(index: i64, jitter: i64, growth: i64, ground_level: i64) -> (elements: Vec<
    SceneryElement,
>)
    requires
        0 <= index < TREES,
        (TreeRoll { jitter, growth }).valid(),
    ensures
        elements@ == tree(index as int, TreeRoll { jitter, growth }, ground_level),
{
    create_scenery_element(
        SceneryType::Tree,
        (index * 300 + jitter) * UNITS_PER_PIXEL,
        0,
        Some(((100 + growth) * UNITS_PER_PIXEL, 0)),
        ground_level,
    )
}

/// Makes the cloud at place `index` of the row.
pub fn float_cloud(index: i64, jitter: i64, altitude: i64, stretch: i64, ground_level: i64) -> (elements:
    Vec<SceneryElement>)
    requires
        0 <= index < CLOUDS,
        (CloudRoll { jitter, altitude, stretch }).valid(),
    ensures
        elements@ == cloud(index as int, CloudRoll { jitter, altitude, stretch }, ground_level),
{
    create_scenery_element(
        SceneryType::Cloud,
        (index * 400 + jitter) * UNITS_PER_PIXEL,
        altitude * UNITS_PER_PIXEL,
        Some(((100 + stretch) * UNITS_PER_PIXEL, 40_000)),
        ground_level,
    )
}

/// Makes the mountain at place `index` of the row.
pub fn raise_mountain(index: i64, rise: i64, ground_level: i64) -> (elements: Vec<SceneryElement>)
    requires
        0 <= index < MOUNTAINS,
        valid_rise(rise),
    ensures
        elements@ == mountain(index as int, rise, ground_level),
{
    create_scenery_element(
        SceneryType::Mountain,
        index * 500 * UNITS_PER_PIXEL,
        0,
        Some(((200 + rise) * UNITS_PER_PIXEL, 0)),
        ground_level,
    )
}

/// Makes the ground tile at place `index` of the row, with its tuft of
/// grass if it has one.
pub fn lay_ground(index: i64, tuft: Option<i64>, ground_level: i64) -> (elements: Vec<
    SceneryElement,
>)
    requires
        0 <= index < GROUND_TILES,
        valid_tuft(tuft),
    ensures
        elements@ == ground_tile(index as int, tuft, ground_level),
{
    let x = index * 200 * UNITS_PER_PIXEL;
    let mut elements = create_scenery_element(SceneryType::Ground, x, 0, None, ground_level);
    match tuft {
        Some(offset) => {
            let mut grass = create_scenery_element(
                SceneryType::GrassTuft,
                (index * 200 + offset) * UNITS_PER_PIXEL,
                0,
                None,
                ground_level,
            );
            elements.append(&mut grass);
        },
        None => {},
    }
    elements
}

/// Lays out the world on the ground line `ground_level`. Chance decides
/// within the bounds of `WorldRolls::valid`; everything else is fixed.
pub fn generate_world(ground_level: i64, _screen_width: i64) -> (scenery: Scenery<SceneryElement>)
    ensures
        exists|rolls: WorldRolls|
            rolls.valid() && scenery.elements@ == #[trigger] world_elements(rolls, ground_level),
{
    let mut generator = rand::rng();
    let mut scenery: Scenery<SceneryElement> = Scenery::new();

    let ghost mut trees: Seq<TreeRoll> = Seq::empty();
    let mut i: i64 = 0;
    while i < TREES
        invariant
            0 <= i <= TREES,
            trees.len() == i,
            forall|k: int| 0 <= k < trees.len() ==> (#[trigger] trees[k]).valid(),
            scenery.elements@ == forest(trees, ground_level),
        decreases TREES - i,
    {
        let jitter = random_range(&mut generator, 0, 100);
        let growth = random_range(&mut generator, 50, 150);
        let elements = plant_tree(i, jitter, growth, ground_level);
        scenery.extend(elements);
        proof {
            let grown = trees.push(TreeRoll { jitter, growth });
            assert(grown.drop_last() =~= trees);
            trees = grown;
        }
        i = i + 1;
    }

    let ghost mut clouds: Seq<CloudRoll> = Seq::empty();
    let mut i: i64 = 0;
    while i < CLOUDS
        invariant
            0 <= i <= CLOUDS,
            clouds.len() == i,
            forall|k: int| 0 <= k < clouds.len() ==> (#[trigger] clouds[k]).valid(),
            scenery.elements@ == forest(trees, ground_level) + sky(clouds, ground_level),
        decreases CLOUDS - i,
    {
        let jitter = random_range(&mut generator, 0, 200);
        let altitude = random_range(&mut generator, 50, 150);
        let stretch = random_range(&mut generator, 0, 50);
        let elements = float_cloud(i, jitter, altitude, stretch, ground_level);
        scenery.extend(elements);
        proof {
            let grown = clouds.push(CloudRoll { jitter, altitude, stretch });
            assert(grown.drop_last() =~= clouds);
            assert(scenery.elements@ =~= forest(trees, ground_level) + sky(grown, ground_level));
            clouds = grown;
        }
        i = i + 1;
    }

    let ghost mut mountains: Seq<i64> = Seq::empty();
    let mut i: i64 = 0;
    while i < MOUNTAINS
        invariant
            0 <= i <= MOUNTAINS,
            mountains.len() == i,
            forall|k: int| 0 <= k < mountains.len() ==> valid_rise(#[trigger] mountains[k]),
            scenery.elements@ == forest(trees, ground_level) + sky(clouds, ground_level)
                + mountain_range(mountains, ground_level),
        decreases MOUNTAINS - i,
    {
        let rise = random_range(&mut generator, 0, 100);
        let elements = raise_mountain(i, rise, ground_level);
        scenery.extend(elements);
        proof {
            let grown = mountains.push(rise);
            assert(grown.drop_last() =~= mountains);
            assert(scenery.elements@ =~= forest(trees, ground_level) + sky(clouds, ground_level)
                + mountain_range(grown, ground_level));
            mountains = grown;
        }
        i = i + 1;
    }

    let ghost mut tufts: Seq<Option<i64>> = Seq::empty();
    let mut i: i64 = 0;
    while i < GROUND_TILES
        invariant
            0 <= i <= GROUND_TILES,
            tufts.len() == i,
            forall|k: int| 0 <= k < tufts.len() ==> valid_tuft(#[trigger] tufts[k]),
            scenery.elements@ == forest(trees, ground_level) + sky(clouds, ground_level)
                + mountain_range(mountains, ground_level) + ground_row(tufts, ground_level),
        decreases GROUND_TILES - i,
    {
        let tuft = if random_ratio(&mut generator, 3, 5) {
            Some(random_range(&mut generator, 20, 180))
        } else {
            None
        };
        let elements = lay_ground(i, tuft, ground_level);
        scenery.extend(elements);
        proof {
            let grown = tufts.push(tuft);
            assert(grown.drop_last() =~= tufts);
            assert(scenery.elements@ =~= forest(trees, ground_level) + sky(clouds, ground_level)
                + mountain_range(mountains, ground_level) + ground_row(grown, ground_level));
            tufts = grown;
        }
        i = i + 1;
    }
    proof {
        let rolls = WorldRolls { trees, clouds, mountains, tufts };
        assert(rolls.valid());
        assert(scenery.elements@ == world_elements(rolls, ground_level));
    }
    scenery
}

} // verus!
