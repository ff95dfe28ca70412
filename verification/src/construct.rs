//! Building: snapping the cursor to the block grid and placing blocks.

use vstd::prelude::*;

use crate::components::BlockSelection;
use crate::components::MouseLoc;
use crate::geom::Vec3i;
use crate::geom::dist_sq;
use crate::geom::trem;
use crate::geom::rem_t;
use crate::items::InventoryItems;
use crate::items::ItemTypes;
use crate::items::first_index_of;
use crate::items::has_type;
use crate::items::tick_or_remove_spec;

verus! {

/// The block grid pitch: 20 pixels, in tenths.
pub const GRID: i64 = 200;

/// Building reaches at most 50 pixels from the player, squared, in tenths.
pub const MAX_CONSTRUCT_DIST_SQ: i64 = 250_000;

/// One coordinate snapped to the grid: remainders over half a cell round
/// up, the rest round down; negative coordinates round toward zero.
pub open spec fn snap_coord(v: int) -> int {
    let rem = trem(v, GRID as int);
    if rem > 100 {
        v + GRID - rem
    } else {
        v - rem
    }
}

/// Snap one coordinate to the grid.
pub fn snap_coord_exec(v: i64) -> (r: i64)
    requires
        -1_000_000_000 <= v <= 1_000_000_000,
    ensures
        r == snap_coord(v as int),
{
    let rem = rem_t(v, GRID);
    if rem > 100 {
        v + GRID - rem
    } else {
        v - rem
    }
}

/// A snapped coordinate lies on the grid, within one cell of where it was.
pub proof fn law_snap_on_grid(v: int)
    requires
        -1_000_000_000 <= v <= 1_000_000_000,
    ensures
        snap_coord(v) % (GRID as int) == 0,
        v - GRID < snap_coord(v) < v + GRID,
{
    let g = GRID as int;
    if v >= 0 {
        vstd::arithmetic::div_mod::lemma_fundamental_div_mod(v, g);
        vstd::arithmetic::div_mod::lemma_mod_bound(v, g);
        let rem = v % g;
        if rem > 100 {
            assert((v + g - rem) % g == 0) by {
                vstd::arithmetic::div_mod::lemma_mod_multiples_vanish(v / g + 1, 0, g);
            }
        } else {
            assert((v - rem) % g == 0) by {
                vstd::arithmetic::div_mod::lemma_mod_multiples_vanish(v / g, 0, g);
            }
        }
    } else {
        vstd::arithmetic::div_mod::lemma_fundamental_div_mod(-v, g);
        vstd::arithmetic::div_mod::lemma_mod_bound(-v, g);
        let rem = -((-v) % g);
        assert(trem(v, g) == rem);
        assert((v - rem) % g == 0) by {
            vstd::arithmetic::div_mod::lemma_mod_multiples_vanish(-((-v) / g), 0, g);
        }
    }
}

/// The kinds the builder knows how to place.
pub open spec fn buildable(t: ItemTypes) -> bool {
    ||| t == ItemTypes::WallBlock
    ||| t == ItemTypes::TurretBlock
    ||| t == ItemTypes::TripMine
    ||| t == ItemTypes::Fence
    ||| t == ItemTypes::Wheat
    ||| t == ItemTypes::WindMill
    ||| t == ItemTypes::WoodFence
    ||| t == ItemTypes::MiningRig
}

/// A block to place: which kind, and where on the grid.
#[derive(Clone, Copy, PartialEq, Eq, Structural, Debug)]
pub struct BuildAction {
    pub block: ItemTypes,
    pub pos: Vec3i,
}

/// The grid point under the mouse, on the building layer.
pub open spec fn build_pos(mouse: MouseLoc) -> Vec3i {
    Vec3i { x: snap_coord(mouse.x as int) as i64, y: snap_coord(mouse.y as int) as i64, z: 30 }
}

/// One click of the builder. On a right click within reach, with the chosen
/// block in stock, one block of that stock is consumed; the chosen kind is
/// placed at the grid point under the mouse if the builder knows it.
pub fn build(
    player_pos: Vec3i,
    mouse: MouseLoc,
    block: &BlockSelection,
    inv: &mut InventoryItems,
    right_click: bool,
) -> (r: Option<BuildAction>)
    requires
        player_pos.in_world(),
        -1_000_000_000 <= mouse.x <= 1_000_000_000,
        -1_000_000_000 <= mouse.y <= 1_000_000_000,
        has_type(old(inv)@, block.block) ==> old(inv)@[first_index_of(old(inv)@, block.block)].quantity
            > i8::MIN,
    ensures
        ({
            let go = right_click && dist_sq(player_pos, Vec3i { x: mouse.x, y: mouse.y, z: 0 })
                < MAX_CONSTRUCT_DIST_SQ && has_type(old(inv)@, block.block);
            &&& !go ==> r is None && final(inv)@ == old(inv)@
            &&& go ==> final(inv)@ == tick_or_remove_spec(old(inv)@, block.block) && r == (
            if buildable(block.block) {
                Some(BuildAction { block: block.block, pos: build_pos(mouse) })
            } else {
                None::<BuildAction>
            })
        }),
{
    let mouse_vec = Vec3i { x: mouse.x, y: mouse.y, z: 0 };
    if right_click && crate::geom::dist_sq_i128(player_pos, mouse_vec) < MAX_CONSTRUCT_DIST_SQ
        as i128 {
        if inv.has_item(block.block) {
            let x_pos = snap_coord_exec(mouse.x);
            let y_pos = snap_coord_exec(mouse.y);
            let spawn_pos = Vec3i { x: x_pos, y: y_pos, z: 30 };
            let action = match block.block {
                ItemTypes::WallBlock => Some(BuildAction { block: block.block, pos: spawn_pos }),
                ItemTypes::TurretBlock => Some(BuildAction { block: block.block, pos: spawn_pos }),
                ItemTypes::TripMine => Some(BuildAction { block: block.block, pos: spawn_pos }),
                ItemTypes::Fence => Some(BuildAction { block: block.block, pos: spawn_pos }),
                ItemTypes::Wheat => Some(BuildAction { block: block.block, pos: spawn_pos }),
                ItemTypes::WindMill => Some(BuildAction { block: block.block, pos: spawn_pos }),
                ItemTypes::WoodFence => Some(BuildAction { block: block.block, pos: spawn_pos }),
                ItemTypes::MiningRig => Some(BuildAction { block: block.block, pos: spawn_pos }),
                _ => None,
            };
            inv.tick_or_remove(block.block);
            action
        } else {
            None
        }
    } else {
        None
    }
}

} // verus!
