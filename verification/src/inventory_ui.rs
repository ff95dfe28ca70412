//! The inventory screens: laying item sprites out on a panel grid and
//! moving items between the player and an open container.

use vstd::prelude::*;

use crate::components::InvName;
use crate::components::MouseLoc;
use crate::geom::Vec3i;
use crate::geom::dist_sq_xy;
use crate::items::InventoryItems;
use crate::items::Item;
use crate::items::add_item_spec;
use crate::items::first_index_of;
use crate::items::has_type;
use crate::items::remove_item_spec;

verus! {

/// Panel slots sit on a 21-pixel grid, five to a row.
pub const SLOT_STEP: i64 = 210;

/// An item sprite is picked up within 10 pixels of the mouse, squared.
pub const CLICK_DIST_SQ: i64 = 10_000;

/// Where the `i`-th item of a panel sits, relative to the panel: five to a
/// row from the top left.
pub open spec fn slot_pos(i: int) -> Vec3i {
    Vec3i {
        x: ((i % 5) * SLOT_STEP - 2 * SLOT_STEP) as i64,
        y: (SLOT_STEP - (i / 5) * SLOT_STEP) as i64,
        z: 300,
    }
}

/// One item sprite on a panel.
#[derive(Clone, Copy, PartialEq, Eq, Structural, Debug)]
pub struct InventoryItemSpawn {
    pub sprite_index: usize,
    pub rel_pos: Vec3i,
    pub item: Item,
}

/// A whole inventory panel: the frame and its item sprites.
#[derive(Clone, Debug)]
pub struct InventoryPanelSpawn {
    pub sprite_index: usize,
    pub pos: Vec3i,
    pub name: InvName,
    pub items: Vec<InventoryItemSpawn>,
}

/// Lay an inventory out on a panel at `spawn_pos`: the `k`-th stack shows
/// its kind's sprite in the `k`-th slot.
pub fn inventory_spawn(
    inv_items: &InventoryItems,
    spawn_pos: Vec3i,
    inv_name: InvName,
) -> (panel: InventoryPanelSpawn)
    requires
        inv_items@.len() <= 1_000_000,
    ensures
        panel.sprite_index == 0,
        panel.pos == spawn_pos,
        panel.name == inv_name,
        panel.items@.len() == inv_items@.len(),
        forall|k: int|
            0 <= k < inv_items@.len() ==> panel.items@[k] == (InventoryItemSpawn {
                sprite_index: (#[trigger] inv_items@[k]).item_type.spec_sprite_index(),
                rel_pos: slot_pos(k),
                item: inv_items@[k],
            }),
{
    let n = inv_items.items.len();
    let mut items: Vec<InventoryItemSpawn> = Vec::new();
    let mut k: usize = 0;
    while k < n
        invariant
            0 <= k <= n,
            n == inv_items@.len(),
            n <= 1_000_000,
            items@.len() == k,
            forall|j: int|
                0 <= j < k ==> items@[j] == (InventoryItemSpawn {
                    sprite_index: (#[trigger] inv_items@[j]).item_type.spec_sprite_index(),
                    rel_pos: slot_pos(j),
                    item: inv_items@[j],
                }),
        decreases n - k,
    {
        let it = inv_items.items[k];
        let col: i64 = (k % 5) as i64;
        let row: i64 = (k / 5) as i64;
        let spawned = InventoryItemSpawn {
            sprite_index: it.item_type.sprite_index(),
            rel_pos: Vec3i {
                x: col * SLOT_STEP - 2 * SLOT_STEP,
                y: SLOT_STEP - row * SLOT_STEP,
                z: 300,
            },
            item: it,
        };
        items.push(spawned);
        k = k + 1;
    }
    InventoryPanelSpawn { sprite_index: 0, pos: spawn_pos, name: inv_name, items }
}

/// The player's inventory screen: one panel at the centre.
pub fn player_inventory_init(inv: &InventoryItems) -> (panel: InventoryPanelSpawn)
    requires
        inv@.len() <= 1_000_000,
    ensures
        panel.pos == (Vec3i { x: 0, y: 0, z: 300 }),
        panel.name == InvName::PlayerPanel,
        panel.items@.len() == inv@.len(),
{
    inventory_spawn(inv, Vec3i { x: 0, y: 0, z: 300 }, InvName::PlayerPanel)
}

/// The container screen: the player's panel above, the container's below.
pub fn external_inventory_init(
    player_inv: &InventoryItems,
    external_inv: &InventoryItems,
) -> (panels: (InventoryPanelSpawn, InventoryPanelSpawn))
    requires
        player_inv@.len() <= 1_000_000,
        external_inv@.len() <= 1_000_000,
    ensures
        panels.0.pos == (Vec3i { x: 0, y: 550, z: 300 }),
        panels.0.name == InvName::PlayerPanel,
        panels.0.items@.len() == player_inv@.len(),
        panels.1.pos == (Vec3i { x: 0, y: (-550) as i64, z: 300 }),
        panels.1.name == InvName::ExternalPanel,
        panels.1.items@.len() == external_inv@.len(),
{
    let p = inventory_spawn(player_inv, Vec3i { x: 0, y: 550, z: 300 }, InvName::PlayerPanel);
    let x = inventory_spawn(
        external_inv,
        Vec3i { x: 0, y: -550, z: 300 },
        InvName::ExternalPanel,
    );
    (p, x)
}

/// An item sprite on screen during the container screen.
#[derive(Clone, Copy, PartialEq, Eq, Structural, Debug)]
pub struct InvItemEntry {
    pub parent: InvName,
    pub glob_pos: Vec3i,
    pub item: Item,
}

/// The mouse sits on this sprite (compared in the plane).
pub open spec fn clicked(e: InvItemEntry, mouse: MouseLoc) -> bool {
    dist_sq_xy(e.glob_pos, Vec3i { x: mouse.x, y: mouse.y, z: 0 }) < CLICK_DIST_SQ
}

/// `i` is the first sprite under the mouse.
pub open spec fn is_first_clicked(entries: Seq<InvItemEntry>, mouse: MouseLoc, i: int) -> bool {
    0 <= i < entries.len() && clicked(entries[i], mouse) && (forall|j: int|
        0 <= j < i ==> !clicked(entries[j], mouse))
}

/// The transfer the first clicked sprite asks for must be possible: its
/// stack must be in the inventory it leaves, with enough in it, and the
/// inventory it enters must have room.
pub open spec fn transfer_ok(
    e: InvItemEntry,
    player: Seq<Item>,
    external: Seq<Item>,
) -> bool {
    let t = e.item.item_type;
    if e.parent == InvName::PlayerPanel {
        &&& has_type(player, t)
        &&& 0 <= e.item.quantity <= player[first_index_of(player, t)].quantity
        &&& external.len() < usize::MAX - 1
        &&& has_type(external, t) ==> external[first_index_of(external, t)].quantity < i8::MAX
    } else {
        &&& has_type(external, t)
        &&& 0 <= e.item.quantity <= external[first_index_of(external, t)].quantity
        &&& player.len() < usize::MAX - 1
        &&& has_type(player, t) ==> player[first_index_of(player, t)].quantity < i8::MAX
    }
}

/// One right click on the container screen: the first item sprite under the
/// mouse moves one stack between the player and the open container — out of
/// whichever panel it was drawn on.
pub fn change_inventory(
    right_click: bool,
    mouse: MouseLoc,
    entries: &Vec<InvItemEntry>,
    player_inv: &mut InventoryItems,
    external_inv: &mut InventoryItems,
)
    requires
        forall|i: int| 0 <= i < entries@.len() ==> (#[trigger] entries@[i]).glob_pos.in_world(),
        -1_000_000_000 <= mouse.x <= 1_000_000_000,
        -1_000_000_000 <= mouse.y <= 1_000_000_000,
        right_click ==> forall|i: int|
            is_first_clicked(entries@, mouse, i) ==> transfer_ok(
                #[trigger] entries@[i],
                old(player_inv)@,
                old(external_inv)@,
            ),
    ensures
        (!right_click || (forall|i: int|
            0 <= i < entries@.len() ==> !clicked(#[trigger] entries@[i], mouse))) ==> {
            &&& final(player_inv)@ == old(player_inv)@
            &&& final(external_inv)@ == old(external_inv)@
        },
        right_click ==> forall|i: int|
            is_first_clicked(entries@, mouse, i) ==> {
                let e = #[trigger] entries@[i];
                if e.parent == InvName::PlayerPanel {
                    &&& final(player_inv)@ == remove_item_spec(old(player_inv)@, e.item)
                    &&& final(external_inv)@ == add_item_spec(old(external_inv)@, e.item)
                } else {
                    &&& final(external_inv)@ == remove_item_spec(old(external_inv)@, e.item)
                    &&& final(player_inv)@ == add_item_spec(old(player_inv)@, e.item)
                }
            },
{
    if !right_click {
        return;
    }
    let n = entries.len();
    let mut i: usize = 0;
    while i < n
        invariant
            0 <= i <= n,
            n == entries@.len(),
            right_click,
            player_inv@ == old(player_inv)@,
            external_inv@ == old(external_inv)@,
            -1_000_000_000 <= mouse.x <= 1_000_000_000,
            -1_000_000_000 <= mouse.y <= 1_000_000_000,
            forall|j: int| 0 <= j < n ==> (#[trigger] entries@[j]).glob_pos.in_world(),
            forall|j: int| 0 <= j < i ==> !clicked(#[trigger] entries@[j], mouse),
            forall|k: int|
                is_first_clicked(entries@, mouse, k) ==> transfer_ok(
                    #[trigger] entries@[k],
                    old(player_inv)@,
                    old(external_inv)@,
                ),
        decreases n - i,
    {
        let e = entries[i];
        let mouse3 = Vec3i { x: mouse.x, y: mouse.y, z: 0 };
        let dsq = crate::geom::dist_sq_xy_i128(e.glob_pos, mouse3);
        if dsq < CLICK_DIST_SQ as i128 {
            proof {
                assert(clicked(entries@[i as int], mouse));
                assert(is_first_clicked(entries@, mouse, i as int));
                assert(transfer_ok(entries@[i as int], player_inv@, external_inv@));
            }
            match e.parent {
                InvName::PlayerPanel => {
                    external_inv.add_item(e.item);
                    player_inv.remove_item(e.item);
                },
                InvName::ExternalPanel => {
                    external_inv.remove_item(e.item);
                    player_inv.add_item(e.item);
                },
            }
            proof {
                assert forall|k: int| is_first_clicked(entries@, mouse, k) implies k
                    == i as int by {
                    if k < i as int {
                        assert(clicked(entries@[k], mouse));
                        assert(!clicked(entries@[k], mouse));
                    } else if k > i as int {
                        assert(!clicked(entries@[i as int], mouse));
                    }
                }
                assert(!(forall|k: int|
                    0 <= k < entries@.len() ==> !clicked(#[trigger] entries@[k], mouse))) by {
                    assert(clicked(entries@[i as int], mouse));
                }
            }
            return;
        }
        i = i + 1;
    }
}

} // verus!
