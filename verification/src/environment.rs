//! World generation: the grass carpet, the trees and the animals.

use vstd::prelude::*;

use crate::animals::AnimalBundle;
use crate::animals::spawn_animal;
use crate::components::Attackable;
use crate::components::BoxCollider;
use crate::components::DestructKind;
use crate::components::DropsItem;
use crate::components::EntityHealth;
use crate::components::TargetPriority;
use crate::geom::Vec2i;
use crate::geom::Vec3i;
use crate::items::Item;
use crate::items::ItemTypes;

verus! {

/// The grass carpet spans tiles -35 to 34 on both axes.
pub const GRASS_HALF_SPAN: i64 = 35;

/// Trees and animals land on tiles -20 to 19.
pub const SPREAD_HALF_SPAN: i64 = 20;

/// How many trees the world starts with.
pub const NUM_TREES: usize = 50;

/// How many animals the world starts with.
pub const NUM_ANIMALS: usize = 25;

/// One tile of the grass carpet.
#[derive(Clone, Copy, PartialEq, Eq, Structural, Debug)]
pub struct GrassSpawn {
    pub sprite_index: usize,
    pub pos: Vec3i,
}

/// A tree: a solid, attackable obstacle that drops wall blocks.
#[derive(Clone, Copy, PartialEq, Eq, Structural, Debug)]
pub struct TreeBundle {
    pub sprite_index: usize,
    pub custom_size: Vec2i,
    pub pos: Vec3i,
    pub attackable: Attackable,
    pub health: EntityHealth,
    pub drops: DropsItem,
    pub collider: BoxCollider,
}

/// The components of a tree at `spawn_pos`.
pub open spec fn tree_bundle(spawn_pos: Vec3i) -> TreeBundle {
    TreeBundle {
        sprite_index: 8,
        custom_size: Vec2i { x: 200, y: 200 },
        pos: spawn_pos,
        attackable: Attackable(TargetPriority::Low),
        health: EntityHealth { val: 2000, func_destruct: DestructKind::DespawnRecursive },
        drops: DropsItem { item: Item { item_type: ItemTypes::WallBlock, quantity: 3 } },
        collider: BoxCollider { size: Vec2i { x: 200, y: 200 } },
    }
}

/// Build a tree.
pub fn spawn_tree(spawn_pos: Vec3i) -> (t: TreeBundle)
    ensures
        t == tree_bundle(spawn_pos),
{
    TreeBundle {
        sprite_index: 8,
        custom_size: Vec2i { x: 200, y: 200 },
        pos: spawn_pos,
        attackable: Attackable(TargetPriority::Low),
        health: EntityHealth { val: 2000, func_destruct: DestructKind::DespawnRecursive },
        drops: DropsItem { item: Item { item_type: ItemTypes::WallBlock, quantity: 3 } },
        collider: BoxCollider { size: Vec2i { x: 200, y: 200 } },
    }
}

/// The world position of a 20-pixel tile.
pub open spec fn tile_pos(tx: int, ty: int) -> Vec3i {
    Vec3i { x: (200 * tx) as i64, y: (200 * ty) as i64, z: 30 }
}

/// The tree stands on some tile of the inner field.
pub open spec fn tree_on_random_tile(t: TreeBundle) -> bool {
    exists|tx: int, ty: int|
        -SPREAD_HALF_SPAN <= tx < SPREAD_HALF_SPAN && -SPREAD_HALF_SPAN <= ty < SPREAD_HALF_SPAN
            && t == tree_bundle(#[trigger] tile_pos(tx, ty))
}

/// A grass tile's sprite is one of the four grass drawings.
pub open spec fn grass_sprite(s: usize) -> bool {
    s == 2 || s == 3 || s == 6 || s == 7
}

/// Lay out the starting world: a 70 by 70 grass carpet tile by tile, then
/// 50 trees and 25 animals on random tiles of the inner field.
pub fn spawn_environment() -> (r: (Vec<GrassSpawn>, Vec<TreeBundle>, Vec<AnimalBundle>))
    ensures
        r.0@.len() == (2 * GRASS_HALF_SPAN) * (2 * GRASS_HALF_SPAN),
        forall|k: int|
            0 <= k < r.0@.len() ==> {
                let g = #[trigger] r.0@[k];
                &&& grass_sprite(g.sprite_index)
                &&& g.pos == (Vec3i {
                    x: (200 * (k / 70 - 35)) as i64,
                    y: (200 * (k % 70 - 35)) as i64,
                    z: 0,
                })
            },
        r.1@.len() == NUM_TREES,
        forall|k: int| 0 <= k < r.1@.len() ==> tree_on_random_tile(#[trigger] r.1@[k]),
        r.2@.len() == NUM_ANIMALS,
        forall|k: int|
            0 <= k < r.2@.len() ==> {
                let a = #[trigger] r.2@[k];
                &&& a.sprite_index == 21
                &&& a.pos.z == 30
                &&& -200 * SPREAD_HALF_SPAN <= a.pos.x < 200 * SPREAD_HALF_SPAN
                &&& -200 * SPREAD_HALF_SPAN <= a.pos.y < 200 * SPREAD_HALF_SPAN
                &&& a.pos.x % 200 == 0
                &&& a.pos.y % 200 == 0
            },
{
    let mut grass: Vec<GrassSpawn> = Vec::new();
    let mut x: i64 = -GRASS_HALF_SPAN;
    while x < GRASS_HALF_SPAN
        invariant
            -GRASS_HALF_SPAN <= x <= GRASS_HALF_SPAN,
            grass@.len() == (x + 35) * 70,
            forall|k: int|
                0 <= k < grass@.len() ==> {
                    let g = #[trigger] grass@[k];
                    &&& grass_sprite(g.sprite_index)
                    &&& g.pos == (Vec3i {
                        x: (200 * (k / 70 - 35)) as i64,
                        y: (200 * (k % 70 - 35)) as i64,
                        z: 0,
                    })
                },
        decreases GRASS_HALF_SPAN - x,
    {
        let mut y: i64 = -GRASS_HALF_SPAN;
        while y < GRASS_HALF_SPAN
            invariant
                -GRASS_HALF_SPAN <= x < GRASS_HALF_SPAN,
                -GRASS_HALF_SPAN <= y <= GRASS_HALF_SPAN,
                grass@.len() == (x + 35) * 70 + (y + 35),
                forall|k: int|
                    0 <= k < grass@.len() ==> {
                        let g = #[trigger] grass@[k];
                        &&& grass_sprite(g.sprite_index)
                        &&& g.pos == (Vec3i {
                            x: (200 * (k / 70 - 35)) as i64,
                            y: (200 * (k % 70 - 35)) as i64,
                            z: 0,
                        })
                    },
            decreases GRASS_HALF_SPAN - y,
        {
            let pick = crate::rng::random_in(0, 4);
            let sprite: usize = if pick == 0 {
                2
            } else if pick == 1 {
                3
            } else if pick == 2 {
                6
            } else {
                7
            };
            let g = GrassSpawn { sprite_index: sprite, pos: Vec3i { x: 200 * x, y: 200 * y, z: 0 } };
            proof {
                let k = grass@.len() as int;
                assert(k == (x + 35) * 70 + (y + 35));
                assert(k / 70 == x + 35 && k % 70 == y + 35) by (nonlinear_arith)
                    requires
                        k == (x + 35) * 70 + (y + 35),
                        0 <= x + 35 < 70,
                        0 <= y + 35 < 70,
                ;
            }
            grass.push(g);
            y = y + 1;
        }
        x = x + 1;
    }
    proof {
        assert(grass@.len() == 4900);
    }

    let mut trees: Vec<TreeBundle> = Vec::new();
    let mut t: usize = 0;
    while t < NUM_TREES
        invariant
            0 <= t <= NUM_TREES,
            trees@.len() == t,
            forall|k: int| 0 <= k < trees@.len() ==> tree_on_random_tile(#[trigger] trees@[k]),
        decreases NUM_TREES - t,
    {
        let xtile = crate::rng::random_in(-SPREAD_HALF_SPAN, SPREAD_HALF_SPAN);
        let ytile = crate::rng::random_in(-SPREAD_HALF_SPAN, SPREAD_HALF_SPAN);
        let tree = spawn_tree(Vec3i { x: xtile * 200, y: ytile * 200, z: 30 });
        trees.push(tree);
        proof {
            assert(trees@[t as int] == tree_bundle(tile_pos(xtile as int, ytile as int)));
        }
        t = t + 1;
    }

    let mut animals: Vec<AnimalBundle> = Vec::new();
    let mut a: usize = 0;
    while a < NUM_ANIMALS
        invariant
            0 <= a <= NUM_ANIMALS,
            animals@.len() == a,
            forall|k: int|
                0 <= k < animals@.len() ==> {
                    let an = #[trigger] animals@[k];
                    &&& an.sprite_index == 21
                    &&& an.pos.z == 30
                    &&& -200 * SPREAD_HALF_SPAN <= an.pos.x < 200 * SPREAD_HALF_SPAN
                    &&& -200 * SPREAD_HALF_SPAN <= an.pos.y < 200 * SPREAD_HALF_SPAN
                    &&& an.pos.x % 200 == 0
                    &&& an.pos.y % 200 == 0
                },
        decreases NUM_ANIMALS - a,
    {
        let xtile = crate::rng::random_in(-SPREAD_HALF_SPAN, SPREAD_HALF_SPAN);
        let ytile = crate::rng::random_in(-SPREAD_HALF_SPAN, SPREAD_HALF_SPAN);
        let animal = spawn_animal(Vec3i { x: xtile * 200, y: ytile * 200, z: 30 });
        animals.push(animal);
        proof {
            assert((xtile * 200) % 200 == 0 && (ytile * 200) % 200 == 0) by (nonlinear_arith)
                requires
                    -20 <= xtile <= 20,
                    -20 <= ytile <= 20,
            ;
        }
        a = a + 1;
    }
    (grass, trees, animals)
}

} // verus!
