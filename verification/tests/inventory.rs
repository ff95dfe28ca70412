use survival_core::items::{InventoryItems, Item, ItemTypes};

fn inv(stacks: &[(ItemTypes, i8)]) -> InventoryItems {
    let mut v = InventoryItems::new();
    for (t, q) in stacks {
        v.items.push(Item { item_type: *t, quantity: *q });
    }
    v
}

#[test]
fn get_index_finds_first_stack() {
    let v = inv(&[(ItemTypes::Coal, 5), (ItemTypes::Wheat, 2)]);
    assert_eq!(v.get_index(ItemTypes::Coal), 0);
    assert_eq!(v.get_index(ItemTypes::Wheat), 1);
    assert_eq!(v.get_index(ItemTypes::Chest), usize::MAX);
}

#[test]
fn has_item_reports_presence() {
    let v = inv(&[(ItemTypes::Steak, 1)]);
    assert!(v.has_item(ItemTypes::Steak));
    assert!(!v.has_item(ItemTypes::Coal));
}

#[test]
fn add_item_bumps_existing_stack_by_one() {
    let mut v = inv(&[(ItemTypes::Coal, 5)]);
    v.add_item(Item { item_type: ItemTypes::Coal, quantity: 3 });
    assert_eq!(v.items.len(), 1);
    assert_eq!(v.items[0].quantity, 6);
}

#[test]
fn add_item_pushes_new_stack_whole() {
    let mut v = inv(&[(ItemTypes::Coal, 5)]);
    v.add_item(Item { item_type: ItemTypes::IronIngot, quantity: 3 });
    assert_eq!(v.items.len(), 2);
    assert_eq!(v.items[1].item_type, ItemTypes::IronIngot);
    assert_eq!(v.items[1].quantity, 3);
}

#[test]
fn remove_item_takes_whole_stack_away() {
    let mut v = inv(&[(ItemTypes::Coal, 5), (ItemTypes::Wheat, 2)]);
    v.remove_item(Item { item_type: ItemTypes::Coal, quantity: 5 });
    assert_eq!(v.items.len(), 1);
    assert_eq!(v.items[0].item_type, ItemTypes::Wheat);
}

#[test]
fn remove_item_lowers_partial_stack() {
    let mut v = inv(&[(ItemTypes::Coal, 5)]);
    v.remove_item(Item { item_type: ItemTypes::Coal, quantity: 2 });
    assert_eq!(v.items.len(), 1);
    assert_eq!(v.items[0].quantity, 3);
}

#[test]
fn tick_or_remove_consumes_one_and_drops_empty_stacks() {
    let mut v = inv(&[(ItemTypes::Wheat, 2)]);
    v.tick_or_remove(ItemTypes::Wheat);
    assert_eq!(v.items[0].quantity, 1);
    v.tick_or_remove(ItemTypes::Wheat);
    assert!(v.items.is_empty());
}

#[test]
fn tick_or_remove_ignores_absent_kinds() {
    let mut v = inv(&[(ItemTypes::Wheat, 2)]);
    v.tick_or_remove(ItemTypes::Coal);
    assert_eq!(v.items.len(), 1);
    assert_eq!(v.items[0].quantity, 2);
}

#[test]
fn add_then_remove_round_trip_restores_inventory() {
    let mut v = inv(&[(ItemTypes::Coal, 5)]);
    v.add_item(Item { item_type: ItemTypes::Steak, quantity: 7 });
    v.remove_item(Item { item_type: ItemTypes::Steak, quantity: 7 });
    assert_eq!(v.items.len(), 1);
    assert_eq!(v.items[0].item_type, ItemTypes::Coal);
    assert_eq!(v.items[0].quantity, 5);
}

#[test]
fn duplicate_copies_all_stacks() {
    let v = inv(&[(ItemTypes::Coal, 5), (ItemTypes::Wheat, 2)]);
    let c = v.duplicate();
    assert_eq!(c.items.len(), 2);
    assert_eq!(c.items[0].item_type, ItemTypes::Coal);
    assert_eq!(c.items[1].quantity, 2);
}

#[test]
fn sprite_indices_match_the_texture_sheet() {
    assert_eq!(ItemTypes::WallBlock.sprite_index(), 0);
    assert_eq!(ItemTypes::TurretBlock.sprite_index(), 5);
    assert_eq!(ItemTypes::TripMine.sprite_index(), 12);
    assert_eq!(ItemTypes::Fence.sprite_index(), 14);
    assert_eq!(ItemTypes::Wheat.sprite_index(), 17);
    assert_eq!(ItemTypes::WindMill.sprite_index(), 15);
    assert_eq!(ItemTypes::WoodFence.sprite_index(), 20);
    assert_eq!(ItemTypes::Chest.sprite_index(), 25);
    assert_eq!(ItemTypes::LandingPad.sprite_index(), 26);
    assert_eq!(ItemTypes::MiningRig.sprite_index(), 27);
    assert_eq!(ItemTypes::IronIngot.sprite_index(), 28);
    assert_eq!(ItemTypes::Coal.sprite_index(), 29);
    assert_eq!(ItemTypes::CraftingTable.sprite_index(), 30);
    assert_eq!(ItemTypes::Steak.sprite_index(), 31);
}
