use game_server::inventory::add_in_inventory;
use game_server::items::{
    Character, DollSlot, Item, ItemError, ItemInfo, ItemKind, ItemLocation, ItemsData, ShotKind, WeaponInfo,
};
use game_server::shots::{
    auto_shot_step, auto_shot_use, check_weapon_shot_compatibility, use_shot, AutoShotStep,
    AutoShotToggle, ShotUseOutcome, WeaponShotCompatibility,
};

const SWORD: u32 = 1;
const SOULSHOT_NG: u32 = 1835;
const SPIRITSHOT_NG: u32 = 2509;
const SOULSHOT_D: u32 = 1463;

fn data() -> ItemsData {
    let mut d = ItemsData::new(1);
    d.insert_info(SWORD, ItemInfo {
        stackable: false,
        kind: ItemKind::Weapon(WeaponInfo { soulshots: 1, spiritshots: 0, shot_grade: 0, ammo_class: None }),
        grade: 0,
        slot: Some(DollSlot::RightHand),
        also_frees: None,
        skill: None,
    });
    d.insert_info(SOULSHOT_NG, ItemInfo { stackable: true, kind: ItemKind::Shot(ShotKind::Soulshot), grade: 0, slot: None, also_frees: None, skill: Some(2039) });
    d.insert_info(SPIRITSHOT_NG, ItemInfo { stackable: true, kind: ItemKind::Shot(ShotKind::Spiritshot), grade: 0, slot: None, also_frees: None, skill: Some(2047) });
    d.insert_info(SOULSHOT_D, ItemInfo { stackable: true, kind: ItemKind::Shot(ShotKind::Soulshot), grade: 1, slot: None, also_frees: None, skill: None });
    d
}

fn give(d: &mut ItemsData, ch: &mut Character, id: u32, count: u64) -> u32 {
    let oid = d.next_object_id();
    d.insert_existing(oid, Item::new_with_count(id, count, ItemLocation::Inventory));
    add_in_inventory(d, ch, oid, true).unwrap();
    oid
}

fn armed() -> (ItemsData, Character, u32) {
    let mut d = data();
    let mut ch = Character::new(9);
    let sword = give(&mut d, &mut ch, SWORD, 1);
    game_server::inventory::handle_equip_item(&mut d, &mut ch, sword).unwrap();
    (d, ch, sword)
}

#[test]
fn compatibility_depends_on_grade_kind_and_count() {
    let (mut d, mut ch, sword) = armed();
    let ss = give(&mut d, &mut ch, SOULSHOT_NG, 10);
    let sps = give(&mut d, &mut ch, SPIRITSHOT_NG, 10);
    let ss_d = give(&mut d, &mut ch, SOULSHOT_D, 10);
    assert_eq!(
        check_weapon_shot_compatibility(&d, &ch.paper_doll, ss),
        Ok(Some(WeaponShotCompatibility { weapon: sword, kind: ShotKind::Soulshot, count: 1 }))
    );
    // the sword takes no spiritshots
    assert_eq!(check_weapon_shot_compatibility(&d, &ch.paper_doll, sps), Ok(None));
    assert_eq!(check_weapon_shot_compatibility(&d, &ch.paper_doll, ss_d), Ok(None));
    assert_eq!(check_weapon_shot_compatibility(&d, &ch.paper_doll, 4242), Err(ItemError::UnknownItem));
    let unarmed = Character::new(10);
    assert_eq!(check_weapon_shot_compatibility(&d, &unarmed.paper_doll, ss), Ok(None));
}

#[test]
fn using_a_shot_charges_the_weapon_once() {
    let (mut d, mut ch, sword) = armed();
    let ss = give(&mut d, &mut ch, SOULSHOT_NG, 2);
    assert_eq!(
        use_shot(&mut d, &ch, ss),
        Ok(ShotUseOutcome::Charged { weapon: sword, kind: ShotKind::Soulshot, skill: Some(2039) })
    );
    assert_eq!(d.item(ss).unwrap().count, 1);
    assert!(d.item(sword).unwrap().charges.soulshot);
    assert_eq!(use_shot(&mut d, &ch, ss), Ok(ShotUseOutcome::AlreadyCharged));
    assert_eq!(d.item(ss).unwrap().count, 1);
}

#[test]
fn too_few_shots_charge_nothing() {
    let (mut d, mut ch, sword) = armed();
    let ss = give(&mut d, &mut ch, SOULSHOT_NG, 0);
    assert_eq!(use_shot(&mut d, &ch, ss), Ok(ShotUseOutcome::NotEnough));
    assert!(!d.item(sword).unwrap().charges.soulshot);
    let sps = give(&mut d, &mut ch, SPIRITSHOT_NG, 5);
    assert_eq!(use_shot(&mut d, &ch, sps), Ok(ShotUseOutcome::Incompatible { shot_item_id: SPIRITSHOT_NG }));
}

#[test]
fn automatic_shots() {
    let (mut d, mut ch, _sword) = armed();
    assert_eq!(auto_shot_use(&d, &ch, false, SOULSHOT_NG), Ok(AutoShotToggle::Ignored));
    let ss = give(&mut d, &mut ch, SOULSHOT_NG, 5);
    assert_eq!(auto_shot_use(&d, &ch, false, SOULSHOT_NG), Ok(AutoShotToggle::TurnedOn { item_id: SOULSHOT_NG }));
    assert_eq!(auto_shot_use(&d, &ch, true, SOULSHOT_NG), Ok(AutoShotToggle::TurnedOff { item_id: SOULSHOT_NG }));
    assert_eq!(auto_shot_step(&d, &ch, SOULSHOT_NG), Ok(AutoShotStep::Charge { shot: ss }));
    use_shot(&mut d, &ch, ss).unwrap();
    assert_eq!(auto_shot_step(&d, &ch, SOULSHOT_NG), Ok(AutoShotStep::Idle));
    assert_eq!(auto_shot_step(&d, &ch, SPIRITSHOT_NG), Ok(AutoShotStep::TurnOff));
}
