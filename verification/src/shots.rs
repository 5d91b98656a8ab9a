//! Soulshots and spiritshots: which shots a wielded weapon takes, the
//! automatic use of shots, and charging a weapon.
use vstd::prelude::*;
use crate::items::{
    Character, DollSlot, Item, ItemError, ItemInfo, ItemKind, ItemsData, PaperDoll, ShotCharges,
    ShotKind,
};
use crate::inventory::{find_by_item_id, first_with_id, none_with_id};

verus! {

/// The shot rules of the game server: charging weapons with soulshots and
/// spiritshots, by hand or automatically.
pub struct UseShotPlugin;

/// A weapon that takes a shot: charging `weapon` with shots of `kind` uses
/// `count` of them.
#[derive(Clone, Copy, Debug, PartialEq, Eq, Structural)]
pub struct WeaponShotCompatibility {
    pub weapon: u32,
    pub kind: ShotKind,
    pub count: u32,
}

/// How many shots of `kind` one charge of weapon `w` takes.
pub open spec fn shots_per_charge(w: crate::items::WeaponInfo, kind: ShotKind) -> u32 {
    match kind {
        ShotKind::Soulshot | ShotKind::Fishing => w.soulshots,
        ShotKind::Spiritshot | ShotKind::BlessedSpiritshot => w.spiritshots,
    }
}

/// Whether the weapon in the right hand takes the shot item `shot`.
///
/// No weapon in the right hand: no. The weapon's and the shot's templates
/// must be known (errors otherwise). Then the weapon must take shots of the
/// shot's grade, the shot must be a shot and the weapon a weapon, and a
/// charge must use at least one shot.
pub open spec fn shot_compatibility(
    items: Map<u32, Item>,
    infos: Map<u32, ItemInfo>,
    right_hand: Option<u32>,
    shot: u32,
) -> Result<Option<WeaponShotCompatibility>, ItemError> {
    match right_hand {
        None => Ok(None),
        Some(w) => if !items.contains_key(w) {
            Err(ItemError::UnknownItem)
        } else if !infos.contains_key(items[w].id) {
            Err(ItemError::UnknownItemInfo)
        } else if !items.contains_key(shot) {
            Err(ItemError::UnknownItem)
        } else if !infos.contains_key(items[shot].id) {
            Err(ItemError::UnknownItemInfo)
        } else {
            let wi = infos[items[w].id];
            let si = infos[items[shot].id];
            match (wi.kind, si.kind) {
                (ItemKind::Weapon(winfo), ItemKind::Shot(kind)) =>
                    if winfo.shot_grade != si.grade || shots_per_charge(winfo, kind) == 0 {
                        Ok(None)
                    } else {
                        Ok(Some(WeaponShotCompatibility { weapon: w, kind, count: shots_per_charge(winfo, kind) }))
                    },
                _ => Ok(None),
            }
        },
    }
}

/// Whether the weapon in the right hand takes the shot item `shot`; see
/// `shot_compatibility`.
pub fn check_weapon_shot_compatibility(data: &ItemsData, doll: &PaperDoll, shot: u32) -> (r: Result<Option<WeaponShotCompatibility>, ItemError>)
    requires
        doll.wf(),
    ensures
        r == shot_compatibility(data.items(), data.infos(), doll.at(DollSlot::RightHand), shot),
{
    let w = match doll.get(DollSlot::RightHand) {
        None => {
            return Ok(None);
        },
        Some(w) => w,
    };
    let wi = data.info_by_object_id(w)?;
    let shot_item = data.item_by_object_id(shot)?;
    let si = data.item_info(shot_item.id)?;
    match wi.kind {
        ItemKind::Weapon(winfo) => match si.kind {
            ItemKind::Shot(kind) => {
                if winfo.shot_grade != si.grade {
                    return Ok(None);
                }
                let count = match kind {
                    ShotKind::Soulshot | ShotKind::Fishing => winfo.soulshots,
                    ShotKind::Spiritshot | ShotKind::BlessedSpiritshot => winfo.spiritshots,
                };
                if count == 0 {
                    return Ok(None);
                }
                Ok(Some(WeaponShotCompatibility { weapon: w, kind, count }))
            },
            _ => Ok(None),
        },
        _ => Ok(None),
    }
}

/// What a player's request to toggle automatic shots did.
#[derive(Clone, Copy, Debug, PartialEq, Eq, Structural)]
pub enum AutoShotToggle {
    /// Automatic shots were on and are now off.
    TurnedOff { item_id: u32 },
    /// Automatic shots are now on, with shots of template `item_id`.
    TurnedOn { item_id: u32 },
    /// The shot is not in the inventory or does not fit the weapon; nothing changed.
    Ignored,
}

/// Toggles automatic shots of template `item_id` for a character;
/// `auto_on` tells whether they are on already.
pub fn auto_shot_use(data: &ItemsData, ch: &Character, auto_on: bool, item_id: u32) -> (r: Result<AutoShotToggle, ItemError>)
    requires
        ch.wf(),
    ensures
        auto_on ==> r == Ok::<AutoShotToggle, ItemError>(AutoShotToggle::TurnedOff { item_id }),
        !auto_on && none_with_id(data.items(), ch.inventory@, item_id) ==> r == Ok::<AutoShotToggle, ItemError>(AutoShotToggle::Ignored),
        !auto_on && !none_with_id(data.items(), ch.inventory@, item_id) ==> exists|j: int|
            first_with_id(data.items(), ch.inventory@, item_id, j) && #[trigger] ch.inventory@[j] == ch.inventory@[j]
            && r == match shot_compatibility(data.items(), data.infos(), ch.paper_doll.at(DollSlot::RightHand), ch.inventory@[j]) {
                Err(e) => Err(e),
                Ok(None) => Ok(AutoShotToggle::Ignored),
                Ok(Some(_)) => Ok(AutoShotToggle::TurnedOn { item_id }),
            },
{
    if auto_on {
        return Ok(AutoShotToggle::TurnedOff { item_id });
    }
    let shot = match find_by_item_id(data, &ch.inventory, item_id) {
        None => {
            return Ok(AutoShotToggle::Ignored);
        },
        Some(s) => s,
    };
    match check_weapon_shot_compatibility(data, &ch.paper_doll, shot)? {
        None => Ok(AutoShotToggle::Ignored),
        Some(_) => Ok(AutoShotToggle::TurnedOn { item_id }),
    }
}

/// What the automatic shot system does for a character this tick.
#[derive(Clone, Copy, Debug, PartialEq, Eq, Structural)]
pub enum AutoShotStep {
    /// The shots ran out or no longer fit the weapon: turn automatic shots off.
    TurnOff,
    /// Charge the weapon with the inventory item `shot`.
    Charge { shot: u32 },
    /// The weapon is charged already.
    Idle,
}

/// The automatic shot step for a character using shots of template `item_id`.
pub fn auto_shot_step(data: &ItemsData, ch: &Character, item_id: u32) -> (r: Result<AutoShotStep, ItemError>)
    requires
        ch.wf(),
    ensures
        none_with_id(data.items(), ch.inventory@, item_id) ==> r == Ok::<AutoShotStep, ItemError>(AutoShotStep::TurnOff),
        !none_with_id(data.items(), ch.inventory@, item_id) ==> exists|j: int|
            first_with_id(data.items(), ch.inventory@, item_id, j) && #[trigger] ch.inventory@[j] == ch.inventory@[j]
            && r == match shot_compatibility(data.items(), data.infos(), ch.paper_doll.at(DollSlot::RightHand), ch.inventory@[j]) {
                Err(e) => Err(e),
                Ok(None) => Ok(AutoShotStep::TurnOff),
                Ok(Some(c)) => if data.items()[c.weapon].charges.has(c.kind) {
                    Ok(AutoShotStep::Idle)
                } else {
                    Ok(AutoShotStep::Charge { shot: ch.inventory@[j] })
                },
            },
{
    let shot = match find_by_item_id(data, &ch.inventory, item_id) {
        None => {
            return Ok(AutoShotStep::TurnOff);
        },
        Some(s) => s,
    };
    let c = match check_weapon_shot_compatibility(data, &ch.paper_doll, shot)? {
        None => {
            return Ok(AutoShotStep::TurnOff);
        },
        Some(c) => c,
    };
    let weapon = data.item_by_object_id(c.weapon)?;
    if weapon.charges.already_applied(c.kind) {
        Ok(AutoShotStep::Idle)
    } else {
        Ok(AutoShotStep::Charge { shot })
    }
}

/// What using a shot did.
#[derive(Clone, Copy, Debug, PartialEq, Eq, Structural)]
pub enum ShotUseOutcome {
    /// The shot does not fit the weapon (or no weapon is wielded): the
    /// client's automatic shot of template `shot_item_id` is to be reset.
    Incompatible { shot_item_id: u32 },
    /// The weapon is charged with this kind of shot already.
    AlreadyCharged,
    /// The shot is not in the character's inventory.
    NotInInventory,
    /// Fewer shots are left than a charge takes.
    NotEnough,
    /// The weapon is charged; `skill` is the shot's skill to show, if it has one.
    Charged { weapon: u32, kind: ShotKind, skill: Option<u32> },
}

/// Charges the wielded weapon with the shot item `shot`: when the shot fits
/// the weapon, the weapon is not charged with that kind yet, the shot is in
/// the inventory and enough pieces are left, a charge's worth of pieces is
/// used up and the weapon is charged.
pub fn use_shot(data: &mut ItemsData, ch: &Character, shot: u32) -> (r: Result<ShotUseOutcome, ItemError>)
    requires
        old(data).wf(),
        ch.wf(),
    ensures
        final(data).wf(),
        final(data).infos() == old(data).infos(),
        final(data).next_id() == old(data).next_id(),
        !(r matches Ok(ShotUseOutcome::Charged { .. })) ==> final(data).items() == old(data).items(),
        ({
            let items = old(data).items();
            let infos = old(data).infos();
            ch.paper_doll.at(DollSlot::RightHand) matches Some(w) && items.contains_key(w) && infos.contains_key(items[w].id)
                && items.contains_key(shot) && infos.contains_key(items[shot].id)
                && infos[items[w].id].kind is Weapon && infos[items[shot].id].kind is Shot
                && infos[items[w].id].kind->Weapon_0.shot_grade != infos[items[shot].id].grade
                ==> r == Ok::<ShotUseOutcome, ItemError>(ShotUseOutcome::Incompatible { shot_item_id: items[shot].id })
                    && final(data).items() == items
        }),
        ({
            let items = old(data).items();
            match shot_compatibility(items, old(data).infos(), ch.paper_doll.at(DollSlot::RightHand), shot) {
                Err(e) => r == Err::<ShotUseOutcome, ItemError>(e),
                Ok(None) => if items.contains_key(shot) {
                    r == Ok::<ShotUseOutcome, ItemError>(ShotUseOutcome::Incompatible { shot_item_id: items[shot].id })
                } else {
                    r == Err::<ShotUseOutcome, ItemError>(ItemError::UnknownItem)
                },
                Ok(Some(c)) => if items[c.weapon].charges.has(c.kind) {
                    r == Ok::<ShotUseOutcome, ItemError>(ShotUseOutcome::AlreadyCharged)
                } else if !ch.inventory@.contains(shot) {
                    r == Ok::<ShotUseOutcome, ItemError>(ShotUseOutcome::NotInInventory)
                } else if items[shot].count < c.count {
                    r == Ok::<ShotUseOutcome, ItemError>(ShotUseOutcome::NotEnough)
                } else {
                    let used = items.insert(shot, Item { count: (items[shot].count - c.count) as u64, ..items[shot] });
                    &&& r == Ok::<ShotUseOutcome, ItemError>(ShotUseOutcome::Charged {
                        weapon: c.weapon,
                        kind: c.kind,
                        skill: old(data).infos()[items[shot].id].skill,
                    })
                    &&& final(data).items() == used.insert(c.weapon, Item { charges: used[c.weapon].charges.with(c.kind), ..used[c.weapon] })
                }
            }
        }),
{
    proof {
        if let Some(w) = ch.paper_doll.at(DollSlot::RightHand) {
            law_shot_grade_must_match(data.items(), data.infos(), w, shot);
        }
    }
    let compat = check_weapon_shot_compatibility(data, &ch.paper_doll, shot)?;
    let shot_item = data.item_by_object_id(shot)?;
    let c = match compat {
        None => {
            return Ok(ShotUseOutcome::Incompatible { shot_item_id: shot_item.id });
        },
        Some(c) => c,
    };
    let weapon = data.item_by_object_id(c.weapon)?;
    if weapon.charges.already_applied(c.kind) {
        return Ok(ShotUseOutcome::AlreadyCharged);
    }
    if !crate::items::inventory_contains(&ch.inventory, shot) {
        return Ok(ShotUseOutcome::NotInInventory);
    }
    if shot_item.count < c.count as u64 {
        return Ok(ShotUseOutcome::NotEnough);
    }
    data.set_item(shot, Item { count: shot_item.count - c.count as u64, ..shot_item });
    let weapon_now = data.item_by_object_id(c.weapon)?;
    let mut charges: ShotCharges = weapon_now.charges;
    charges.charge(c.kind);
    data.set_item(c.weapon, Item { charges, ..weapon_now });
    let info = data.item_info(shot_item.id)?;
    Ok(ShotUseOutcome::Charged { weapon: c.weapon, kind: c.kind, skill: info.skill })
}

/// A weapon takes one charge of a kind: right after a shot charged it,
/// the same shot still fits and finds the weapon charged with that kind,
/// so using it again charges nothing.
pub proof fn law_charged_once(items: Map<u32, Item>, infos: Map<u32, crate::items::ItemInfo>, right_hand: Option<u32>, shot: u32)
    requires
        shot_compatibility(items, infos, right_hand, shot) matches Ok(Some(c))
            && !items[c.weapon].charges.has(c.kind) && items[shot].count >= c.count,
    ensures
        ({
            let c = shot_compatibility(items, infos, right_hand, shot)->Ok_0->Some_0;
            let used = items.insert(shot, Item { count: (items[shot].count - c.count) as u64, ..items[shot] });
            let after = used.insert(c.weapon, Item { charges: used[c.weapon].charges.with(c.kind), ..used[c.weapon] });
            &&& shot_compatibility(after, infos, right_hand, shot) == Ok::<Option<WeaponShotCompatibility>, ItemError>(Some(c))
            &&& after[c.weapon].charges.has(c.kind)
        }),
{
    let c = shot_compatibility(items, infos, right_hand, shot)->Ok_0->Some_0;
    let used = items.insert(shot, Item { count: (items[shot].count - c.count) as u64, ..items[shot] });
    let after = used.insert(c.weapon, Item { charges: used[c.weapon].charges.with(c.kind), ..used[c.weapon] });
    assert(after[c.weapon].id == items[c.weapon].id);
    assert(after[shot].id == items[shot].id);
}

/// A shot fits only a weapon of its own grade: when both templates are
/// known, the right hand holds a weapon and the item is a shot, but the
/// weapon takes shots of another grade (lower or higher), the shot does not
/// fit. Whenever it does fit, the grades agree, the charge uses at least one
/// shot, and it is the weapon in the right hand that is charged.
pub proof fn law_shot_grade_must_match(items: Map<u32, Item>, infos: Map<u32, ItemInfo>, w: u32, shot: u32)
    ensures
        ({
            let known = items.contains_key(w) && infos.contains_key(items[w].id)
                && items.contains_key(shot) && infos.contains_key(items[shot].id);
            &&& (known && infos[items[w].id].kind is Weapon && infos[items[shot].id].kind is Shot
                && infos[items[w].id].kind->Weapon_0.shot_grade != infos[items[shot].id].grade)
                ==> shot_compatibility(items, infos, Some(w), shot) == Ok::<Option<WeaponShotCompatibility>, ItemError>(None)
            &&& (shot_compatibility(items, infos, Some(w), shot) matches Ok(Some(c))) ==> {
                let c = shot_compatibility(items, infos, Some(w), shot)->Ok_0->Some_0;
                &&& known
                &&& c.weapon == w
                &&& c.count >= 1
                &&& infos[items[w].id].kind is Weapon
                &&& infos[items[w].id].kind->Weapon_0.shot_grade == infos[items[shot].id].grade
                &&& infos[items[shot].id].kind == ItemKind::Shot(c.kind)
            }
        }),
{
}

} // verus!
