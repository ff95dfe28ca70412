//! Opening chests and leaving the inventory screen.

use vstd::prelude::*;

use crate::components::AppState;
use crate::components::ExternalInventory;
use crate::items::InventoryItems;

verus! {

/// A chest standing in the world, with its contents.
#[derive(Clone, Debug)]
pub struct ChestEntity {
    pub id: u64,
    pub items: InventoryItems,
}

/// Some listed chest has this id.
pub open spec fn chest_with_id(chests: Seq<ChestEntity>, id: u64) -> bool {
    exists|i: int| 0 <= i < chests.len() && chests[i].id == id
}

/// `i` is the first listed chest with this id.
pub open spec fn is_first_chest(chests: Seq<ChestEntity>, id: u64, i: int) -> bool {
    0 <= i < chests.len() && chests[i].id == id && (forall|j: int|
        0 <= j < i ==> chests[j].id != id)
}

/// What opening produces: the origin marker, a copy of the contents, and
/// the screen to switch to.
#[derive(Clone, Debug)]
pub struct ChestOpened {
    pub origin: ExternalInventory,
    pub items: InventoryItems,
    pub state: AppState,
}

/// Serve the first interact event that names a chest that exists: copy that
/// chest's contents next to an origin marker and switch to the container
/// screen. Later events in the same frame are dropped, as is an event whose
/// chest is gone.
pub fn chest_open(
    events: &Vec<crate::components::ChestInteractEvent>,
    chests: &Vec<ChestEntity>,
) -> (r: Option<ChestOpened>)
    ensures
        r is None <==> (forall|e: int|
            0 <= e < events@.len() ==> !chest_with_id(chests@, (#[trigger] events@[e]).chest_entity)),
        r is Some ==> exists|e: int|
            {
                &&& 0 <= e < events@.len()
                &&& chest_with_id(chests@, (#[trigger] events@[e]).chest_entity)
                &&& forall|e2: int|
                    0 <= e2 < e ==> !chest_with_id(chests@, (#[trigger] events@[e2]).chest_entity)
                &&& exists|c: int|
                    is_first_chest(chests@, events@[e].chest_entity, c) && {
                        let got = r->Some_0;
                        &&& got.origin == (ExternalInventory {
                            entity_origin: (#[trigger] chests@[c]).id,
                        })
                        &&& got.items@ == chests@[c].items@
                        &&& got.state == AppState::ExternalInventory
                    }
            },
{
    let ne = events.len();
    let nc = chests.len();
    let mut e: usize = 0;
    while e < ne
        invariant
            0 <= e <= ne,
            ne == events@.len(),
            nc == chests@.len(),
            forall|k: int|
                0 <= k < e ==> !chest_with_id(chests@, (#[trigger] events@[k]).chest_entity),
        decreases ne - e,
    {
        let ev = events[e];
        let mut c: usize = 0;
        while c < nc
            invariant
                0 <= c <= nc,
                nc == chests@.len(),
                ev == events@[e as int],
                0 <= e < ne,
                ne == events@.len(),
                forall|k: int|
                    0 <= k < e ==> !chest_with_id(chests@, (#[trigger] events@[k]).chest_entity),
                forall|j: int| 0 <= j < c ==> (#[trigger] chests@[j]).id != ev.chest_entity,
            decreases nc - c,
        {
            if chests[c].id == ev.chest_entity {
                let items = chests[c].items.duplicate();
                let opened = ChestOpened {
                    origin: ExternalInventory { entity_origin: chests[c].id },
                    items,
                    state: AppState::ExternalInventory,
                };
                proof {
                    assert(chests@[c as int].id == ev.chest_entity);
                    assert(chest_with_id(chests@, ev.chest_entity));
                    assert(is_first_chest(chests@, ev.chest_entity, c as int));
                    assert(exists|cc: int|
                        is_first_chest(chests@, events@[e as int].chest_entity, cc) && {
                            &&& opened.origin == (ExternalInventory {
                                entity_origin: (#[trigger] chests@[cc]).id,
                            })
                            &&& opened.items@ == chests@[cc].items@
                            &&& opened.state == AppState::ExternalInventory
                        }) by {
                        assert(is_first_chest(chests@, events@[e as int].chest_entity, c as int) && {
                            &&& opened.origin == (ExternalInventory {
                                entity_origin: (#[trigger] chests@[c as int]).id,
                            })
                            &&& opened.items@ == chests@[c as int].items@
                            &&& opened.state == AppState::ExternalInventory
                        });
                    }
                }
                return Some(opened);
            }
            c = c + 1;
        }
        proof {
            assert(!chest_with_id(chests@, ev.chest_entity));
        }
        e = e + 1;
    }
    None
}

/// Leaving the inventory screen: the inventory key returns to the game.
pub fn inventory_handler(just_i: bool) -> (r: Option<AppState>)
    ensures
        r == (if just_i {
            Some(AppState::InGame)
        } else {
            None::<AppState>
        }),
{
    if just_i {
        Some(AppState::InGame)
    } else {
        None
    }
}

} // verus!
