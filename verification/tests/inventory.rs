use game_server::inventory::{
    add_in_inventory, destroy_item, drop_if_possible, handle_equip_item, process_unequip, AddOutcome,
    DestroyOutcome, DropOutcome, EquipOutcome, Unequipped,
};
use game_server::inventory::{count_changed, CountChange, UpdateKind};
use game_server::items::{
    Character, DollSlot, GamePoint, Item, ItemError, ItemInfo, ItemKind, ItemLocation, ItemsData,
    PaperDoll, ShotCharges, WeaponInfo,
};

// 17 - Wooden Arrow, 57 - Adena
const STACKABLE_ITEMS: [u32; 2] = [17, 57];
// 1 - Short Sword, 25 - Piece Bone Breastplate
const NON_STACKABLE_ITEMS: [u32; 2] = [1, 25];

const DROP_POSITION: GamePoint = GamePoint { x: 28300, y: -4224, z: 11070 };
const FAR_POSITION: GamePoint = GamePoint { x: 0, y: 0, z: 0 };
const CHARACTER_POSITION: GamePoint = GamePoint { x: 28300, y: -4224, z: 11070 };
const CHARACTER_OID: u32 = 100;

/// Whether `target` is within the 150 units of flat (x/z) distance that a
/// character may drop items at.
fn within_reach(from: GamePoint, target: GamePoint) -> bool {
    let dx = from.x as f32 - target.x as f32;
    let dz = from.z as f32 - target.z as f32;
    (dx * dx + dz * dz).sqrt() <= 150.0
}

fn info(stackable: bool, kind: ItemKind, slot: Option<DollSlot>) -> ItemInfo {
    ItemInfo { stackable, kind, grade: 0, slot, also_frees: None, skill: None }
}

fn items_data() -> ItemsData {
    let mut data = ItemsData::new(1000);
    data.insert_info(17, info(true, ItemKind::Ammo(0), Some(DollSlot::LeftHand)));
    data.insert_info(57, info(true, ItemKind::Other, None));
    data.insert_info(
        1,
        info(
            false,
            ItemKind::Weapon(WeaponInfo { soulshots: 1, spiritshots: 1, shot_grade: 0, ammo_class: None }),
            Some(DollSlot::RightHand),
        ),
    );
    data.insert_info(25, info(false, ItemKind::Armor, Some(DollSlot::Chest)));
    data
}

/// Spawns an item of `count` pieces into the character's inventory, as
/// loading it from the database does, and returns its object id.
fn add_item(data: &mut ItemsData, ch: &mut Character, item_id: u32, count: u64) -> u32 {
    let mut item = Item::new_with_count(item_id, count, ItemLocation::Inventory);
    item.owner = Some(ch.object_id);
    let oid = data.next_object_id();
    data.insert_existing(oid, item);
    add_in_inventory(data, ch, oid, true).unwrap();
    oid
}

fn setup_with_items_in_inventory() -> (ItemsData, Character, Vec<u32>, Vec<u32>) {
    let mut data = items_data();
    let mut ch = Character::new(CHARACTER_OID);
    let non_stackable = NON_STACKABLE_ITEMS.iter().map(|&id| add_item(&mut data, &mut ch, id, 1)).collect();
    let stackable = STACKABLE_ITEMS.iter().map(|&id| add_item(&mut data, &mut ch, id, 150)).collect();
    (data, ch, stackable, non_stackable)
}

fn setup_with_equipped_items() -> (ItemsData, Character, Vec<u32>) {
    let (mut data, mut ch, _stackable, non_stackable) = setup_with_items_in_inventory();
    for &oid in &non_stackable {
        handle_equip_item(&mut data, &mut ch, oid).unwrap();
    }
    (data, ch, non_stackable)
}

fn verify_items_in_inventory(data: &ItemsData, ch: &Character, oids: &[u32], should_exist: bool) {
    for &oid in oids {
        assert_eq!(ch.inventory.contains(&oid), should_exist, "inventory membership of {oid}");
        if should_exist {
            if let Some(item) = data.item(oid) {
                assert_eq!(item.location, ItemLocation::Inventory, "item {oid} should be in the inventory");
            }
        }
    }
}

fn verify_item_equipment_status(data: &ItemsData, ch: &Character, oids: &[u32], should_be_equipped: bool) {
    for &oid in oids {
        assert_eq!(ch.paper_doll.is_equipped(oid), should_be_equipped);
        match data.item(oid) {
            Some(item) => assert_eq!(matches!(item.location, ItemLocation::PaperDoll(_)), should_be_equipped),
            None => assert!(!should_be_equipped, "an equipped item must exist"),
        }
    }
}

#[test]
fn test_adding_items_to_inventory() {
    let (data, ch, stackable, non_stackable) = setup_with_items_in_inventory();
    verify_items_in_inventory(&data, &ch, &stackable, true);
    verify_items_in_inventory(&data, &ch, &non_stackable, true);
}

#[test]
fn test_stacking_behavior() {
    let (mut data, mut ch, stackable, _non_stackable) = setup_with_items_in_inventory();
    let additional: Vec<u32> = STACKABLE_ITEMS.iter().map(|&id| add_item(&mut data, &mut ch, id, 5)).collect();
    let additional2: Vec<u32> = STACKABLE_ITEMS.iter().map(|&id| add_item(&mut data, &mut ch, id, 10)).collect();
    for i in 0..STACKABLE_ITEMS.len() {
        for oid in [additional[i], additional2[i]] {
            assert!(data.item(oid).is_none(), "additional stackable item should be despawned");
            assert!(!ch.inventory.contains(&oid));
        }
        assert_eq!(data.item(stackable[i]).unwrap().count, 165);
        assert!(ch.inventory.contains(&stackable[i]));
    }
}

#[test]
fn test_equip_items_from_inventory() {
    let (data, ch, non_stackable) = setup_with_equipped_items();
    verify_item_equipment_status(&data, &ch, &non_stackable, true);
}

#[test]
fn test_unequip_items() {
    let (mut data, mut ch, equipped) = setup_with_equipped_items();
    for &oid in &equipped {
        let u = process_unequip(&mut data, &mut ch.paper_doll, oid);
        assert!(u.found);
    }
    verify_item_equipment_status(&data, &ch, &equipped, false);
    verify_items_in_inventory(&data, &ch, &equipped, true);
}

#[test]
fn test_set_and_get() {
    let mut paperdoll = PaperDoll::new();
    paperdoll.equip_slot(DollSlot::Head, 5001);
    paperdoll.equip_slot(DollSlot::Chest, 5002);
    paperdoll.equip_slot(DollSlot::Legs, 5003);

    assert_eq!(paperdoll.get(DollSlot::Head), Some(5001));
    assert_eq!(paperdoll.get(DollSlot::Chest), Some(5002));
    assert_eq!(paperdoll.get(DollSlot::Legs), Some(5003));

    paperdoll.set_slot(DollSlot::Head, None);
    assert_eq!(paperdoll.get(DollSlot::Head), None);
}

#[test]
fn test_drop_unequipped_non_stackable_item() {
    let (mut data, mut ch, _stackable, non_stackable) = setup_with_items_in_inventory();
    let item_to_drop = non_stackable[0];
    let out = drop_if_possible(
        &mut data,
        &mut ch,
        item_to_drop,
        1,
        DROP_POSITION,
        within_reach(CHARACTER_POSITION, DROP_POSITION),
    )
    .unwrap();
    assert_eq!(out, DropOutcome::Dropped { object_id: item_to_drop, whole: true, unequipped: None });
    verify_items_in_inventory(&data, &ch, &[item_to_drop], false);
    let item = data.item(item_to_drop).expect("Dropped item should still exist");
    assert_eq!(item.location, ItemLocation::World(DROP_POSITION), "Dropped item should be at drop position");
    assert_eq!(item.owner, None);
}

#[test]
fn test_cant_drop_item_in_invalid_location() {
    let (mut data, mut ch, _stackable, non_stackable) = setup_with_items_in_inventory();
    let item_to_drop = non_stackable[0];
    let out = drop_if_possible(
        &mut data,
        &mut ch,
        item_to_drop,
        1,
        FAR_POSITION,
        within_reach(CHARACTER_POSITION, FAR_POSITION),
    )
    .unwrap();
    assert_eq!(out, DropOutcome::TooFar);
    verify_items_in_inventory(&data, &ch, &[item_to_drop], true);
}

#[test]
fn test_drop_equipped_item() {
    let (mut data, mut ch, equipped) = setup_with_equipped_items();
    let item_to_drop = equipped[0];
    verify_item_equipment_status(&data, &ch, &[item_to_drop], true);
    let out = drop_if_possible(&mut data, &mut ch, item_to_drop, 1, DROP_POSITION, true).unwrap();
    match out {
        DropOutcome::Dropped { object_id, whole, unequipped } => {
            assert_eq!(object_id, item_to_drop);
            assert!(whole);
            assert!(unequipped.is_some());
        }
        other => panic!("unexpected {other:?}"),
    }
    assert!(!ch.paper_doll.is_equipped(item_to_drop));
    verify_items_in_inventory(&data, &ch, &[item_to_drop], false);
    let item = data.item(item_to_drop).expect("Dropped item should still exist");
    assert!(matches!(item.location, ItemLocation::World(_)), "Dropped item should have World location");
}

#[test]
fn test_drop_full_stackable_item() {
    let (mut data, mut ch, stackable, _non_stackable) = setup_with_items_in_inventory();
    let item_to_drop = stackable[0];
    let original_count = 150;
    drop_if_possible(&mut data, &mut ch, item_to_drop, original_count, DROP_POSITION, true).unwrap();
    verify_items_in_inventory(&data, &ch, &[item_to_drop], false);
    let item = data.item(item_to_drop).expect("Dropped item should still exist");
    assert_eq!(item.count, original_count, "Dropped item should have full count");
    assert!(matches!(item.location, ItemLocation::World(_)), "Dropped item should have World location");
}

#[test]
fn test_drop_partial_stackable_item() {
    let (mut data, mut ch, stackable, _non_stackable) = setup_with_items_in_inventory();
    let item_to_drop = stackable[0];
    let original_count = 150;
    let drop_count = 50;
    let remaining_count = original_count - drop_count;
    let next = data.next_object_id();
    let out = drop_if_possible(&mut data, &mut ch, item_to_drop, drop_count, DROP_POSITION, true).unwrap();

    verify_items_in_inventory(&data, &ch, &[item_to_drop], true);
    let original_item = data.item(item_to_drop).expect("Original item should still exist");
    assert_eq!(original_item.count, remaining_count, "Original item should have reduced count");
    assert_eq!(original_item.location, ItemLocation::Inventory, "Original item should still be in inventory");

    let dropped_oid = match out {
        DropOutcome::Dropped { object_id, whole: false, unequipped: None } => object_id,
        other => panic!("unexpected {other:?}"),
    };
    assert_eq!(dropped_oid, next);
    let dropped = data.item(dropped_oid).expect("Dropped item should be registered");
    assert_eq!(dropped.count, drop_count);
    assert_eq!(dropped.id, original_item.id, "Dropped item should have same item ID");
    assert_eq!(dropped.location, ItemLocation::World(DROP_POSITION), "Dropped item should be at drop position");
}

#[test]
fn adding_unknown_item_fails() {
    let mut data = items_data();
    let mut ch = Character::new(CHARACTER_OID);
    assert_eq!(add_in_inventory(&mut data, &mut ch, 4242, false), Err(ItemError::UnknownItem));
    let oid = data.next_object_id();
    data.insert_existing(oid, Item::new_with_count(999, 1, ItemLocation::Inventory));
    assert_eq!(add_in_inventory(&mut data, &mut ch, oid, false), Err(ItemError::UnknownItemInfo));
    assert!(ch.inventory.is_empty());
}

#[test]
fn picking_up_from_the_world_reports_what_was_obtained() {
    let mut data = items_data();
    let mut ch = Character::new(CHARACTER_OID);
    let oid = data.next_object_id();
    data.insert_existing(oid, Item::new_with_count(25, 1, ItemLocation::World(DROP_POSITION)));
    let out = add_in_inventory(&mut data, &mut ch, oid, false).unwrap();
    assert_eq!(
        out,
        AddOutcome::Added {
            obtained: Some(game_server::inventory::Obtained { item_id: 25, count: 1 }),
            equip_ammo: false
        }
    );
    let item = data.item(oid).unwrap();
    assert_eq!(item.location, ItemLocation::Inventory);
    assert_eq!(item.owner, Some(CHARACTER_OID));
    assert_eq!(ch.inventory, vec![oid]);
}

#[test]
fn stacking_merges_into_the_first_item_of_the_template() {
    let mut data = items_data();
    let mut ch = Character::new(CHARACTER_OID);
    let first = add_item(&mut data, &mut ch, 57, 10);
    let oid = data.next_object_id();
    data.insert_existing(oid, Item::new_with_count(57, 7, ItemLocation::World(DROP_POSITION)));
    let out = add_in_inventory(&mut data, &mut ch, oid, false).unwrap();
    assert_eq!(
        out,
        AddOutcome::Stacked {
            into: first,
            total: 17,
            obtained: Some(game_server::inventory::Obtained { item_id: 57, count: 7 })
        }
    );
    assert!(data.item(oid).is_none());
}

#[test]
fn ammunition_for_the_wielded_bow_is_to_be_equipped() {
    let mut data = items_data();
    data.insert_info(
        14,
        ItemInfo {
            stackable: false,
            kind: ItemKind::Weapon(WeaponInfo { soulshots: 1, spiritshots: 1, shot_grade: 0, ammo_class: Some(0) }),
            grade: 0,
            slot: Some(DollSlot::RightHand),
            also_frees: Some(DollSlot::LeftHand),
            skill: None,
        },
    );
    let mut ch = Character::new(CHARACTER_OID);
    let bow = add_item(&mut data, &mut ch, 14, 1);
    let out = handle_equip_item(&mut data, &mut ch, bow).unwrap();
    assert_eq!(out, EquipOutcome::Equipped { slot: DollSlot::RightHand, unequipped: vec![], auto_ammo: None });
    let oid = data.next_object_id();
    data.insert_existing(oid, Item::new_with_count(17, 100, ItemLocation::Inventory));
    let out = add_in_inventory(&mut data, &mut ch, oid, true).unwrap();
    assert_eq!(out, AddOutcome::Added { obtained: None, equip_ammo: true });
    let out = handle_equip_item(&mut data, &mut ch, oid).unwrap();
    assert_eq!(out, EquipOutcome::Equipped { slot: DollSlot::LeftHand, unequipped: vec![], auto_ammo: None });
    // taking the bow off takes the arrows off too
    let u = process_unequip(&mut data, &mut ch.paper_doll, bow);
    assert_eq!(u.ammo, Some(oid));
}

#[test]
fn equipping_into_an_occupied_slot_takes_the_old_item_off() {
    let mut data = items_data();
    let mut ch = Character::new(CHARACTER_OID);
    let a = add_item(&mut data, &mut ch, 25, 1);
    let b = add_item(&mut data, &mut ch, 25, 1);
    handle_equip_item(&mut data, &mut ch, a).unwrap();
    let out = handle_equip_item(&mut data, &mut ch, b).unwrap();
    match out {
        EquipOutcome::Equipped { slot, unequipped, auto_ammo } => {
            assert_eq!(slot, DollSlot::Chest);
            assert_eq!(unequipped.len(), 1);
            assert_eq!(unequipped[0].object_id, a);
            assert_eq!(auto_ammo, None);
        }
        other => panic!("unexpected {other:?}"),
    }
    assert_eq!(data.item(a).unwrap().location, ItemLocation::Inventory);
    assert_eq!(ch.paper_doll.get(DollSlot::Chest), Some(b));
}

#[test]
fn adena_cannot_be_worn() {
    let mut data = items_data();
    let mut ch = Character::new(CHARACTER_OID);
    let a = add_item(&mut data, &mut ch, 57, 3);
    assert_eq!(handle_equip_item(&mut data, &mut ch, a), Ok(EquipOutcome::NotWearable));
}

#[test]
fn destroying_part_of_a_stack_keeps_the_rest() {
    let (mut data, mut ch, stackable, non_stackable) = setup_with_items_in_inventory();
    assert_eq!(destroy_item(&mut data, &mut ch, stackable[1], 40), Ok(DestroyOutcome::Reduced { count: 110 }));
    assert_eq!(data.item(stackable[1]).unwrap().count, 110);
    match destroy_item(&mut data, &mut ch, non_stackable[1], 1).unwrap() {
        DestroyOutcome::Destroyed { item, unequip } => {
            assert_eq!(item.id, 25);
            assert!(!unequip);
        }
        other => panic!("unexpected {other:?}"),
    }
    assert!(data.item(non_stackable[1]).is_none());
    assert!(!ch.inventory.contains(&non_stackable[1]));
    assert_eq!(destroy_item(&mut data, &mut ch, non_stackable[1], 1), Err(ItemError::NotInInventory));
}

#[test]
fn destroying_a_worn_item_asks_to_take_it_off() {
    let (mut data, mut ch, equipped) = setup_with_equipped_items();
    match destroy_item(&mut data, &mut ch, equipped[0], 1).unwrap() {
        DestroyOutcome::Destroyed { unequip, .. } => assert!(unequip),
        other => panic!("unexpected {other:?}"),
    }
}

#[test]
fn dropping_an_item_not_carried_fails() {
    let (mut data, mut ch, _s, _n) = setup_with_items_in_inventory();
    assert_eq!(drop_if_possible(&mut data, &mut ch, 7, 1, DROP_POSITION, true), Err(ItemError::NotInInventory));
}

#[test]
fn new_items_have_no_charges() {
    let item = Item::new_with_count(1, 1, ItemLocation::Store);
    assert_eq!(item.charges, ShotCharges::none());
    assert_eq!(item.prev_count, 1);
}

#[test]
fn splitting_a_stack_needs_a_free_object_id() {
    let mut data = ItemsData::new(0);
    data.insert_info(17, info(true, ItemKind::Ammo(0), Some(DollSlot::LeftHand)));
    let mut ch = Character::new(CHARACTER_OID);
    let last_oid = u32::MAX - 1;
    let mut arrows = Item::new_with_count(17, 150, ItemLocation::Inventory);
    arrows.owner = Some(CHARACTER_OID);
    data.insert_existing(last_oid, arrows);
    add_in_inventory(&mut data, &mut ch, last_oid, true).unwrap();
    assert_eq!(data.next_object_id(), u32::MAX);
    assert_eq!(
        drop_if_possible(&mut data, &mut ch, last_oid, 50, DROP_POSITION, true),
        Err(ItemError::ObjectIdsExhausted)
    );
    assert_eq!(data.item(last_oid).unwrap().count, 150);
    // Dropping the whole stack needs no new id.
    assert!(matches!(
        drop_if_possible(&mut data, &mut ch, last_oid, 150, DROP_POSITION, true),
        Ok(DropOutcome::Dropped { object_id, whole: true, .. }) if object_id == last_oid
    ));
}

#[test]
fn dropping_a_worn_bow_reports_the_arrows_to_take_off() {
    let mut data = items_data();
    data.insert_info(
        14,
        ItemInfo {
            stackable: false,
            kind: ItemKind::Weapon(WeaponInfo { soulshots: 1, spiritshots: 1, shot_grade: 0, ammo_class: Some(0) }),
            grade: 0,
            slot: Some(DollSlot::RightHand),
            also_frees: Some(DollSlot::LeftHand),
            skill: None,
        },
    );
    let mut ch = Character::new(CHARACTER_OID);
    let bow = add_item(&mut data, &mut ch, 14, 1);
    handle_equip_item(&mut data, &mut ch, bow).unwrap();
    let arrows = add_item(&mut data, &mut ch, 17, 100);
    handle_equip_item(&mut data, &mut ch, arrows).unwrap();
    let out = drop_if_possible(&mut data, &mut ch, bow, 1, DROP_POSITION, true).unwrap();
    assert_eq!(
        out,
        DropOutcome::Dropped {
            object_id: bow,
            whole: true,
            unequipped: Some(Unequipped { object_id: bow, found: true, ammo: Some(arrows) }),
        }
    );
}

#[test]
fn count_changes_report_and_leave_unknown_items_alone() {
    let mut data = items_data();
    let mut ch = Character::new(CHARACTER_OID);
    let arrows = add_item(&mut data, &mut ch, 17, 100);
    let mut owner = Some(ch);
    assert_eq!(count_changed(&mut data, &mut owner, 9999), Err(ItemError::UnknownItem));
    assert_eq!(owner.as_ref().unwrap().inventory, vec![arrows]);
    assert_eq!(count_changed(&mut data, &mut owner, arrows), Ok(CountChange::Unchanged));
    let mut item = data.item(arrows).unwrap();
    item.count = 0;
    data.insert_existing(arrows, item);
    assert_eq!(
        count_changed(&mut data, &mut owner, arrows),
        Ok(CountChange::Changed { despawned: true, update: Some(UpdateKind::Remove), persist: true })
    );
    assert!(owner.unwrap().inventory.is_empty());
    assert!(data.item(arrows).is_none());
}
