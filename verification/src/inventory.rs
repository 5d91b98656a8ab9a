//! What item requests do to a character's inventory and paper doll.
use vstd::prelude::*;
use crate::items::{
    DollSlot, Character, GamePoint, Item, ItemError, ItemInfo, ItemKind, ItemLocation, ItemsData, PaperDoll,
    inventory_contains, inventory_insert, inventory_remove,
};

verus! {

/// A piece of news for the player: `count` pieces of item `item_id` obtained.
#[derive(Clone, Copy, Debug, PartialEq, Eq, Structural)]
pub struct Obtained {
    pub item_id: u32,
    pub count: u64,
}

/// Whether the inventory entry `oid` is an item with template id `id`.
pub open spec fn holds_id(items: Map<u32, Item>, oid: u32, id: u32) -> bool {
    items.contains_key(oid) && items[oid].id == id
}

/// `j` is the first inventory position whose item has template id `id`.
pub open spec fn first_with_id(items: Map<u32, Item>, inv: Seq<u32>, id: u32, j: int) -> bool {
    &&& 0 <= j < inv.len()
    &&& holds_id(items, inv[j], id)
    &&& forall|k: int| 0 <= k < j ==> !holds_id(items, #[trigger] inv[k], id)
}

/// No inventory entry is an item with template id `id`.
pub open spec fn none_with_id(items: Map<u32, Item>, inv: Seq<u32>, id: u32) -> bool {
    forall|k: int| 0 <= k < inv.len() ==> !holds_id(items, #[trigger] inv[k], id)
}

/// The first item of the inventory with template id `id`.
pub fn find_by_item_id(data: &ItemsData, inventory: &Vec<u32>, id: u32) -> (r: Option<u32>)
    ensures
        r matches Some(t) ==> exists|j: int| first_with_id(data.items(), inventory@, id, j) && inventory@[j] == t,
        r is None ==> none_with_id(data.items(), inventory@, id),
{
    let mut i: usize = 0;
    while i < inventory.len()
        invariant
            i <= inventory@.len(),
            forall|k: int| 0 <= k < i ==> !holds_id(data.items(), #[trigger] inventory@[k], id),
        decreases inventory@.len() - i,
    {
        let oid = inventory[i];
        match data.item(oid) {
            Some(item) => {
                if item.id == id {
                    assert(first_with_id(data.items(), inventory@, id, i as int));
                    return Some(oid);
                }
            },
            None => {},
        }
        i = i + 1;
    }
    None
}

/// Whether the item `ammo` fits the weapon in the right hand.
pub open spec fn ammo_fits_weapon(data: ItemsData, doll: PaperDoll, ammo: u32) -> bool {
    &&& doll.at(DollSlot::RightHand) matches Some(w)
    &&& data.info_of(w) matches Some(wi)
    &&& data.info_of(ammo) matches Some(ai)
    &&& wi.ammo_matches(ai)
}

/// Whether the item `ammo` fits the weapon in the right hand.
pub fn is_ammo_valid_for_weapon(data: &ItemsData, doll: &PaperDoll, ammo: u32) -> (b: bool)
    requires
        doll.wf(),
    ensures
        b == ammo_fits_weapon(*data, *doll, ammo),
{
    match doll.get(DollSlot::RightHand) {
        None => false,
        Some(w) => match data.info_by_object_id(w) {
            Err(_) => false,
            Ok(wi) => match data.info_by_object_id(ammo) {
                Err(_) => false,
                Ok(ai) => wi.ammo_fits(&ai),
            },
        },
    }
}

/// What adding an item to an inventory did.
#[derive(Clone, Copy, Debug, PartialEq, Eq, Structural)]
pub enum AddOutcome {
    /// The item was merged into the inventory's item `into`, which now has
    /// `total` pieces; the added item is gone and its object id is free.
    Stacked { into: u32, total: u64, obtained: Option<Obtained> },
    /// The item went into the inventory as an item of its own;
    /// `equip_ammo` asks to equip it as ammunition for the wielded weapon.
    Added { obtained: Option<Obtained>, equip_ammo: bool },
}

/// The item as it is once a character picks it up: owned by the character,
/// and in the inventory if it was lying in the world.
pub open spec fn picked_up(item: Item, owner: u32) -> Item {
    Item {
        owner: Some(owner),
        location: if item.location is World { ItemLocation::Inventory } else { item.location },
        ..item
    }
}

/// No two entries of the inventory are items of one stackable template:
/// a stackable item has a single stack in an inventory.
pub open spec fn one_per_stackable(items: Map<u32, Item>, infos: Map<u32, ItemInfo>, inv: Seq<u32>) -> bool {
    forall|a: int, b: int|
        #![trigger inv[a], inv[b]]
        0 <= a < b < inv.len() && items.contains_key(inv[a]) && items.contains_key(inv[b])
            && items[inv[a]].id == items[inv[b]].id && infos.contains_key(items[inv[a]].id)
            ==> !infos[items[inv[a]].id].stackable
}

proof fn lemma_stacking_keeps_one(items: Map<u32, Item>, infos: Map<u32, ItemInfo>, inv: Seq<u32>, t: u32, oid: u32, total: u64)
    requires
        one_per_stackable(items, infos, inv),
        items.contains_key(t),
    ensures
        one_per_stackable(items.insert(t, Item { count: total, ..items[t] }).remove(oid), infos, inv),
{
    let after = items.insert(t, Item { count: total, ..items[t] }).remove(oid);
    assert forall|a: int, b: int|
        #![trigger inv[a], inv[b]]
        0 <= a < b < inv.len() && after.contains_key(inv[a]) && after.contains_key(inv[b])
            && after[inv[a]].id == after[inv[b]].id && infos.contains_key(after[inv[a]].id)
        implies !infos[after[inv[a]].id].stackable by {
        assert(items.contains_key(inv[a]) && items[inv[a]].id == after[inv[a]].id);
        assert(items.contains_key(inv[b]) && items[inv[b]].id == after[inv[b]].id);
    }
}

proof fn lemma_adding_keeps_one(items: Map<u32, Item>, infos: Map<u32, ItemInfo>, inv: Seq<u32>, oid: u32, owner: u32)
    requires
        one_per_stackable(items, infos, inv),
        items.contains_key(oid),
        infos.contains_key(items[oid].id) && infos[items[oid].id].stackable ==> none_with_id(items, inv, items[oid].id),
    ensures
        one_per_stackable(
            items.insert(oid, picked_up(items[oid], owner)),
            infos,
            if inv.contains(oid) { inv } else { inv.push(oid) },
        ),
{
    let after = items.insert(oid, picked_up(items[oid], owner));
    let inv2 = if inv.contains(oid) { inv } else { inv.push(oid) };
    assert forall|x: u32| #[trigger] after.contains_key(x) implies items.contains_key(x) && after[x].id == items[x].id by {}
    assert forall|a: int, b: int|
        #![trigger inv2[a], inv2[b]]
        0 <= a < b < inv2.len() && after.contains_key(inv2[a]) && after.contains_key(inv2[b])
            && after[inv2[a]].id == after[inv2[b]].id && infos.contains_key(after[inv2[a]].id)
        implies !infos[after[inv2[a]].id].stackable by {
        assert(after.contains_key(inv2[a]) && after.contains_key(inv2[b]));
        if b < inv.len() {
            assert(inv2[a] == inv[a] && inv2[b] == inv[b]);
        } else {
            assert(inv2[b] == oid);
            assert(inv2[a] == inv[a]);
            if infos[items[oid].id].stackable {
                assert(!holds_id(items, inv[a], items[oid].id));
            }
        }
    }
}

/// A stackable item keeps a single stack in an inventory: merging an item
/// into the first stack of its template (whatever the merged count) and
/// adding an item whose template has no stack there (or does not stack)
/// both keep at most one stack per stackable template.
pub proof fn law_one_stack_per_stackable(
    items: Map<u32, Item>,
    infos: Map<u32, ItemInfo>,
    inv: Seq<u32>,
    oid: u32,
    owner: u32,
    total: u64,
)
    requires
        one_per_stackable(items, infos, inv),
        items.contains_key(oid),
    ensures
        forall|j: int| #[trigger] first_with_id(items, inv, items[oid].id, j) ==> one_per_stackable(
            items.insert(inv[j], Item { count: total, ..items[inv[j]] }).remove(oid),
            infos,
            inv,
        ),
        (infos.contains_key(items[oid].id) && infos[items[oid].id].stackable ==> none_with_id(items, inv, items[oid].id))
            ==> one_per_stackable(
            items.insert(oid, picked_up(items[oid], owner)),
            infos,
            if inv.contains(oid) { inv } else { inv.push(oid) },
        ),
{
    assert forall|j: int| #[trigger] first_with_id(items, inv, items[oid].id, j) implies one_per_stackable(
        items.insert(inv[j], Item { count: total, ..items[inv[j]] }).remove(oid),
        infos,
        inv,
    ) by {
        lemma_stacking_keeps_one(items, infos, inv, inv[j], oid, total);
    }
    if infos.contains_key(items[oid].id) && infos[items[oid].id].stackable ==> none_with_id(items, inv, items[oid].id) {
        lemma_adding_keeps_one(items, infos, inv, oid, owner);
    }
}

/// Puts item `oid` into the character's inventory.
///
/// A stackable item whose template the inventory already holds is merged
/// into the first such item: the counts add up and the added item is
/// removed. Otherwise the item joins the inventory, owned by the character
/// (taken out of the world if it lay there); ammunition that fits the
/// wielded weapon is then to be equipped. Unless `silent`, the player is to
/// be told what was obtained.
pub fn add_in_inventory(data: &mut ItemsData, ch: &mut Character, oid: u32, silent: bool) -> (r: Result<AddOutcome, ItemError>)
    requires
        old(data).wf(),
        old(ch).wf(),
        old(data).items().contains_key(oid) && old(data).infos().contains_key(old(data).items()[oid].id)
            && old(data).infos()[old(data).items()[oid].id].stackable ==> forall|j: int|
            first_with_id(old(data).items(), old(ch).inventory@, old(data).items()[oid].id, j) ==>
            old(data).items()[old(ch).inventory@[j]].count + old(data).items()[oid].count <= u64::MAX,
    ensures
        final(data).wf(),
        final(ch).wf(),
        final(data).infos() == old(data).infos(),
        final(data).next_id() == old(data).next_id(),
        final(ch).object_id == old(ch).object_id,
        one_per_stackable(old(data).items(), old(data).infos(), old(ch).inventory@)
            ==> one_per_stackable(final(data).items(), final(data).infos(), final(ch).inventory@),
        !old(data).items().contains_key(oid) ==> r == Err::<AddOutcome, ItemError>(ItemError::UnknownItem),
        old(data).items().contains_key(oid) && !old(data).infos().contains_key(old(data).items()[oid].id)
            ==> r == Err::<AddOutcome, ItemError>(ItemError::UnknownItemInfo),
        r is Err ==> *final(data) == *old(data) && final(ch).inventory@ == old(ch).inventory@
            && final(ch).paper_doll == old(ch).paper_doll,
        old(data).info_of(oid) matches Some(info) ==> {
            let new_item = old(data).items()[oid];
            let obtained = if silent { None } else { Some(Obtained { item_id: new_item.id, count: new_item.count }) };
            if info.stackable && !none_with_id(old(data).items(), old(ch).inventory@, new_item.id) {
                exists|j: int| {
                    &&& first_with_id(old(data).items(), old(ch).inventory@, new_item.id, j)
                    &&& #[trigger] old(ch).inventory@[j] == old(ch).inventory@[j]
                    &&& {
                        let t = old(ch).inventory@[j];
                        let total = (old(data).items()[t].count + new_item.count) as u64;
                        &&& r == Ok::<AddOutcome, ItemError>(AddOutcome::Stacked { into: t, total, obtained })
                        &&& final(data).items() == old(data).items().insert(t, Item { count: total, ..old(data).items()[t] }).remove(oid)
                    }
                }
                && final(ch).inventory@ == old(ch).inventory@
                && final(ch).paper_doll == old(ch).paper_doll
            } else {
                &&& final(data).items() == old(data).items().insert(oid, picked_up(new_item, old(ch).object_id))
                &&& final(ch).inventory@ == if old(ch).inventory@.contains(oid) { old(ch).inventory@ } else { old(ch).inventory@.push(oid) }
                &&& final(ch).paper_doll == old(ch).paper_doll
                &&& r == Ok::<AddOutcome, ItemError>(AddOutcome::Added {
                    obtained,
                    equip_ammo: info.kind is Ammo && ammo_fits_weapon(*final(data), final(ch).paper_doll, oid),
                })
            }
        },
{
    let new_item = data.item_by_object_id(oid)?;
    let info = data.item_info(new_item.id)?;
    let obtained = if silent { None } else { Some(Obtained { item_id: new_item.id, count: new_item.count }) };
    if info.stackable {
        match find_by_item_id(data, &ch.inventory, new_item.id) {
            Some(t) => {
                let existing = data.item_by_object_id(t)?;
                let total = existing.count + new_item.count;
                let ghost before = data.items();
                data.set_item(t, Item { count: total, ..existing });
                data.remove_item(oid);
                proof {
                    if one_per_stackable(before, data.infos(), ch.inventory@) {
                        lemma_stacking_keeps_one(before, data.infos(), ch.inventory@, t, oid, total);
                    }
                }
                return Ok(AddOutcome::Stacked { into: t, total, obtained });
            },
            None => {},
        }
    }
    let location = match new_item.location {
        ItemLocation::World(_) => ItemLocation::Inventory,
        other => other,
    };
    let item = Item { owner: Some(ch.object_id), location, ..new_item };
    let ghost before = data.items();
    let ghost inv_before = ch.inventory@;
    data.set_item(oid, item);
    inventory_insert(&mut ch.inventory, oid);
    proof {
        if one_per_stackable(before, data.infos(), inv_before) {
            lemma_adding_keeps_one(before, data.infos(), inv_before, oid, ch.object_id);
        }
    }
    let is_ammo = match info.kind {
        ItemKind::Ammo(_) => true,
        _ => false,
    };
    let equip_ammo = is_ammo && is_ammo_valid_for_weapon(data, &ch.paper_doll, oid);
    Ok(AddOutcome::Added { obtained, equip_ammo })
}


/// What destroying (part of) an item did.
#[derive(Clone, Copy, Debug, PartialEq, Eq, Structural)]
pub enum DestroyOutcome {
    /// The whole item is gone from the inventory and the world; `unequip`
    /// asks to take it off the paper doll, where it was worn.
    Destroyed { item: Item, unequip: bool },
    /// Part of the stack was destroyed; `count` pieces are left.
    Reduced { count: u64 },
}

/// Whether a request for `count` pieces takes the whole item: always for
/// items that do not stack, and for a stack when `count` covers it.
pub open spec fn takes_whole(info: ItemInfo, item: Item, count: u64) -> bool {
    !info.stackable || count >= item.count
}

/// Destroys `count` pieces of the inventory item `oid`, or the whole item.
pub fn destroy_item(data: &mut ItemsData, ch: &mut Character, oid: u32, count: u64) -> (r: Result<DestroyOutcome, ItemError>)
    requires
        old(data).wf(),
        old(ch).wf(),
    ensures
        final(data).wf(),
        final(ch).wf(),
        final(data).infos() == old(data).infos(),
        final(data).next_id() == old(data).next_id(),
        final(ch).object_id == old(ch).object_id,
        final(ch).paper_doll == old(ch).paper_doll,
        !old(ch).inventory@.contains(oid) ==> r == Err::<DestroyOutcome, ItemError>(ItemError::NotInInventory),
        old(ch).inventory@.contains(oid) && !old(data).items().contains_key(oid)
            ==> r == Err::<DestroyOutcome, ItemError>(ItemError::UnknownItem),
        old(ch).inventory@.contains(oid) && old(data).items().contains_key(oid)
            && !old(data).infos().contains_key(old(data).items()[oid].id)
            ==> r == Err::<DestroyOutcome, ItemError>(ItemError::UnknownItemInfo),
        r is Err ==> final(data).items() == old(data).items() && final(ch).inventory@ == old(ch).inventory@,
        old(ch).inventory@.contains(oid) ==> (old(data).info_of(oid) matches Some(info) ==> {
            let item = old(data).items()[oid];
            if takes_whole(info, item, count) {
                &&& r == Ok::<DestroyOutcome, ItemError>(DestroyOutcome::Destroyed { item, unequip: item.location is PaperDoll })
                &&& final(data).items() == old(data).items().remove(oid)
                &&& final(ch).inventory@ == old(ch).inventory@.remove_value(oid)
            } else {
                &&& r == Ok::<DestroyOutcome, ItemError>(DestroyOutcome::Reduced { count: (item.count - count) as u64 })
                &&& final(data).items() == old(data).items().insert(oid, Item { count: (item.count - count) as u64, ..item })
                &&& final(ch).inventory@ == old(ch).inventory@
            }
        }),
{
    if !inventory_contains(&ch.inventory, oid) {
        return Err(ItemError::NotInInventory);
    }
    let item = data.item_by_object_id(oid)?;
    let info = data.item_info(item.id)?;
    if !info.stackable || count >= item.count {
        let _ = inventory_remove(&mut ch.inventory, oid);
        let unequip = match item.location {
            ItemLocation::PaperDoll(_) => true,
            _ => false,
        };
        data.remove_item(oid);
        Ok(DestroyOutcome::Destroyed { item, unequip })
    } else {
        let left = item.count - count;
        data.set_item(oid, Item { count: left, ..item });
        Ok(DestroyOutcome::Reduced { count: left })
    }
}

/// The items after item `oid` is taken off: back in the inventory.
pub open spec fn taken_off(items: Map<u32, Item>, oid: u32) -> Map<u32, Item> {
    if items.contains_key(oid) {
        items.insert(oid, Item { location: ItemLocation::Inventory, ..items[oid] })
    } else {
        items
    }
}

/// The ammunition to take off together with weapon `oid`: what the left
/// hand holds, when `oid` is a bow or crossbow and that is ammunition it fires.
pub open spec fn ammo_to_take_off(data: ItemsData, doll: PaperDoll, oid: u32) -> Option<u32> {
    match (data.info_of(oid), doll.at(DollSlot::LeftHand)) {
        (Some(wi), Some(a)) => match data.info_of(a) {
            Some(ai) => if wi.is_ranged() && ai.kind is Ammo && wi.ammo_matches(ai) { Some(a) } else { None },
            None => None,
        },
        _ => None,
    }
}

/// What taking an item off did.
#[derive(Clone, Copy, Debug, PartialEq, Eq, Structural)]
pub struct Unequipped {
    pub object_id: u32,
    /// False when the item no longer exists; then nothing changed.
    pub found: bool,
    /// Ammunition to take off as well.
    pub ammo: Option<u32>,
}

/// Takes item `oid` off the paper doll and back into the inventory.
pub fn process_unequip(data: &mut ItemsData, doll: &mut PaperDoll, oid: u32) -> (u: Unequipped)
    requires
        old(data).wf(),
        old(doll).wf(),
    ensures
        final(data).wf(),
        final(doll).wf(),
        final(data).infos() == old(data).infos(),
        final(data).next_id() == old(data).next_id(),
        final(data).items() == taken_off(old(data).items(), oid),
        u.object_id == oid,
        u.found == old(data).items().contains_key(oid),
        u.found ==> forall|s: DollSlot| #[trigger] final(doll).at(s) == if old(doll).at(s) == Some(oid) { None } else { old(doll).at(s) },
        !u.found ==> *final(doll) == *old(doll),
        u.ammo == if u.found { ammo_to_take_off(*final(data), *final(doll), oid) } else { None },
{
    let item = match data.item(oid) {
        Some(i) => i,
        None => {
            return Unequipped { object_id: oid, found: false, ammo: None };
        },
    };
    data.set_item(oid, Item { location: ItemLocation::Inventory, ..item });
    doll.unequip(oid);
    let mut ammo: Option<u32> = None;
    match data.info(item.id) {
        Some(wi) => {
            if wi.is_ranged_weapon() {
                match doll.get(DollSlot::LeftHand) {
                    Some(a) => match data.info_by_object_id(a) {
                        Ok(ai) => {
                            let is_ammo = match ai.kind {
                                ItemKind::Ammo(_) => true,
                                _ => false,
                            };
                            if is_ammo && wi.ammo_fits(&ai) {
                                ammo = Some(a);
                            }
                        },
                        Err(_) => {},
                    },
                    None => {},
                }
            }
        },
        None => {},
    }
    Unequipped { object_id: oid, found: true, ammo }
}

/// What a drop request did.
#[derive(Clone, Copy, Debug, PartialEq, Eq, Structural)]
pub enum DropOutcome {
    /// The spot is out of the character's reach; nothing changed.
    TooFar,
    /// `object_id` now lies in the world: the whole item when `whole`,
    /// otherwise a new item split off the stack. `unequipped` is set when the
    /// item had to be taken off first.
    Dropped { object_id: u32, whole: bool, unequipped: Option<Unequipped> },
}

/// Drops `count` pieces of the inventory item `oid` at `location`.
///
/// `within_reach` tells whether `location` is within the character's reach
/// (the distance is measured by the caller). A worn item is taken off
/// first. The whole item goes to the world when it does not stack or
/// `count` covers the stack; otherwise the stack shrinks by `count` and a
/// new item of `count` pieces, with a new object id, lies at `location`.
pub fn drop_if_possible(
    data: &mut ItemsData,
    ch: &mut Character,
    oid: u32,
    count: u64,
    location: GamePoint,
    within_reach: bool,
) -> (r: Result<DropOutcome, ItemError>)
    requires
        old(data).wf(),
        old(ch).wf(),
    ensures
        final(data).wf(),
        final(ch).wf(),
        final(data).infos() == old(data).infos(),
        final(ch).object_id == old(ch).object_id,
        !old(ch).inventory@.contains(oid) ==> r == Err::<DropOutcome, ItemError>(ItemError::NotInInventory),
        old(ch).inventory@.contains(oid) && !within_reach ==> r == Ok::<DropOutcome, ItemError>(DropOutcome::TooFar),
        old(ch).inventory@.contains(oid) && within_reach && !old(data).items().contains_key(oid)
            ==> r == Err::<DropOutcome, ItemError>(ItemError::UnknownItem),
        old(ch).inventory@.contains(oid) && within_reach && old(data).items().contains_key(oid)
            && !old(data).infos().contains_key(old(data).items()[oid].id)
            ==> r == Err::<DropOutcome, ItemError>(ItemError::UnknownItemInfo),
        r is Err || r == Ok::<DropOutcome, ItemError>(DropOutcome::TooFar) ==> {
            &&& final(data).items() == old(data).items()
            &&& final(data).next_id() == old(data).next_id()
            &&& final(ch).inventory@ == old(ch).inventory@
            &&& final(ch).paper_doll == old(ch).paper_doll
        },
        old(ch).inventory@.contains(oid) && within_reach ==> (old(data).info_of(oid) matches Some(info) ==> {
            let item = old(data).items()[oid];
            let worn = item.location is PaperDoll;
            let items1 = if worn { taken_off(old(data).items(), oid) } else { old(data).items() };
            let kept = items1[oid];
            let left_hand = old(ch).paper_doll.at(DollSlot::LeftHand);
            let took_off = if worn {
                Some(Unequipped {
                    object_id: oid,
                    found: true,
                    ammo: ammo_off(items1, old(data).infos(), if left_hand == Some(oid) { None } else { left_hand }, oid),
                })
            } else {
                None
            };
            &&& !(!takes_whole(info, item, count) && old(data).next_id() == u32::MAX) ==> {
                &&& worn ==> forall|s: DollSlot| #[trigger] final(ch).paper_doll.at(s)
                    == if old(ch).paper_doll.at(s) == Some(oid) { None } else { old(ch).paper_doll.at(s) }
                &&& !worn ==> final(ch).paper_doll == old(ch).paper_doll
            }
            &&& if takes_whole(info, item, count) {
                &&& r matches Ok(DropOutcome::Dropped { object_id, whole, unequipped })
                    && object_id == oid && whole && unequipped == took_off
                &&& final(data).items() == items1.insert(oid, Item {
                    owner: None,
                    location: ItemLocation::World(location),
                    ..kept
                })
                &&& final(ch).inventory@ == old(ch).inventory@.remove_value(oid)
                &&& final(data).next_id() == old(data).next_id()
            } else if old(data).next_id() == u32::MAX {
                &&& r == Err::<DropOutcome, ItemError>(ItemError::ObjectIdsExhausted)
                &&& final(data).items() == old(data).items()
                &&& final(ch).paper_doll == old(ch).paper_doll
            } else {
                let new_oid = old(data).next_id();
                &&& r matches Ok(DropOutcome::Dropped { object_id, whole, unequipped })
                    && object_id == new_oid && !whole && unequipped == took_off
                &&& !old(data).items().contains_key(new_oid)
                &&& final(data).items() == items1.insert(oid, Item { count: (kept.count - count) as u64, ..kept })
                    .insert(new_oid, Item {
                        id: item.id,
                        count,
                        prev_count: count,
                        location: ItemLocation::World(location),
                        owner: None,
                        enchant_level: 0,
                        charges: crate::items::ShotCharges::empty(),
                    })
                &&& final(data).next_id() == new_oid + 1
                &&& final(ch).inventory@ == old(ch).inventory@
            }
        }),
{
    if !inventory_contains(&ch.inventory, oid) {
        return Err(ItemError::NotInInventory);
    }
    if !within_reach {
        return Ok(DropOutcome::TooFar);
    }
    let item = data.item_by_object_id(oid)?;
    let info = data.item_info(item.id)?;
    let whole = !info.stackable || count >= item.count;
    if !whole && data.next_object_id() == u32::MAX {
        return Err(ItemError::ObjectIdsExhausted);
    }
    let unequipped = if item.equipped() {
        Some(process_unequip(data, &mut ch.paper_doll, oid))
    } else {
        None
    };
    let kept = data.item_by_object_id(oid)?;
    if whole {
        let _ = inventory_remove(&mut ch.inventory, oid);
        data.set_item(oid, Item { owner: None, location: ItemLocation::World(location), ..kept });
        Ok(DropOutcome::Dropped { object_id: oid, whole: true, unequipped })
    } else {
        data.set_item(oid, Item { count: kept.count - count, ..kept });
        let dropped = Item::new_with_count(item.id, count, ItemLocation::World(location));
        let new_oid = match data.spawn(dropped) {
            Ok(n) => n,
            Err(e) => {
                return Err(e);
            },
        };
        Ok(DropOutcome::Dropped { object_id: new_oid, whole: false, unequipped })
    }
}


/// The slots of a paper doll as a map.
pub open spec fn doll_map(d: PaperDoll) -> Map<DollSlot, Option<u32>> {
    Map::new(|s: DollSlot| true, |s: DollSlot| d.at(s))
}

/// The template of item `oid`, looked up in plain maps.
pub open spec fn info_in(items: Map<u32, Item>, infos: Map<u32, ItemInfo>, oid: u32) -> Option<ItemInfo> {
    if items.contains_key(oid) && infos.contains_key(items[oid].id) {
        Some(infos[items[oid].id])
    } else {
        None
    }
}

/// Ammunition to take off with weapon `oid`, given what the left hand holds.
pub open spec fn ammo_off(items: Map<u32, Item>, infos: Map<u32, ItemInfo>, left_hand: Option<u32>, oid: u32) -> Option<u32> {
    match (info_in(items, infos, oid), left_hand) {
        (Some(wi), Some(a)) => match info_in(items, infos, a) {
            Some(ai) => if wi.is_ranged() && ai.kind is Ammo && wi.ammo_matches(ai) { Some(a) } else { None },
            None => None,
        },
        _ => None,
    }
}

/// The state after taking off whatever slot `s` holds:
/// (items, doll, what the take-off reported), the last one absent for an empty slot.
pub open spec fn free_slot(
    items: Map<u32, Item>,
    infos: Map<u32, ItemInfo>,
    m: Map<DollSlot, Option<u32>>,
    s: DollSlot,
) -> (Map<u32, Item>, Map<DollSlot, Option<u32>>, Option<Unequipped>) {
    match m[s] {
        None => (items, m, None),
        Some(x) => if items.contains_key(x) {
            let m2 = Map::new(|t: DollSlot| true, |t: DollSlot| if m[t] == Some(x) { None } else { m[t] });
            let items2 = taken_off(items, x);
            (items2, m2, Some(Unequipped { object_id: x, found: true, ammo: ammo_off(items2, infos, m2[DollSlot::LeftHand], x) }))
        } else {
            (items, m, Some(Unequipped { object_id: x, found: false, ammo: None }))
        },
    }
}

/// The slots an item worn in `slot` needs free: `slot` itself, then `also`
/// when it is another slot.
pub open spec fn slots_to_free(slot: DollSlot, also: Option<DollSlot>) -> Seq<DollSlot> {
    match also {
        Some(a) => if a != slot { seq![slot, a] } else { seq![slot] },
        None => seq![slot],
    }
}

/// The state after freeing `slots` one after the other, with the reports
/// of the take-offs in order.
pub open spec fn free_slots(
    items: Map<u32, Item>,
    infos: Map<u32, ItemInfo>,
    m: Map<DollSlot, Option<u32>>,
    slots: Seq<DollSlot>,
) -> (Map<u32, Item>, Map<DollSlot, Option<u32>>, Seq<Unequipped>)
    decreases slots.len(),
{
    if slots.len() == 0 {
        (items, m, Seq::empty())
    } else {
        let prev = free_slots(items, infos, m, slots.drop_last());
        let step = free_slot(prev.0, infos, prev.1, slots.last());
        (step.0, step.1, match step.2 {
            Some(u) => prev.2.push(u),
            None => prev.2,
        })
    }
}

/// What an equip request did.
#[derive(Debug, PartialEq, Eq)]
pub enum EquipOutcome {
    /// The item cannot be worn (or is unknown); nothing changed.
    NotWearable,
    /// Ammunition that does not fit the wielded weapon; the slots it needs
    /// were freed, but it was not put on.
    AmmoDoesNotFit { unequipped: Vec<Unequipped> },
    /// The item is worn in `slot`. `unequipped` lists the take-offs that
    /// freed its slots; `auto_ammo` is ammunition from the inventory to
    /// equip along with a bow or crossbow.
    Equipped { slot: DollSlot, unequipped: Vec<Unequipped>, auto_ammo: Option<u32> },
}

/// `j` is the first inventory position holding ammunition for `weapon`.
pub open spec fn first_ammo_for(items: Map<u32, Item>, infos: Map<u32, ItemInfo>, inv: Seq<u32>, weapon: ItemInfo, j: int) -> bool {
    &&& 0 <= j < inv.len()
    &&& info_in(items, infos, inv[j]) matches Some(ai) && weapon.ammo_matches(ai)
    &&& forall|k: int| 0 <= k < j ==> !(info_in(items, infos, #[trigger] inv[k]) matches Some(ai) && weapon.ammo_matches(ai))
}

/// The first inventory item that is ammunition for `weapon`.
fn find_ammo_for(data: &ItemsData, inventory: &Vec<u32>, weapon: &ItemInfo) -> (r: Option<u32>)
    ensures
        r matches Some(t) ==> exists|j: int| first_ammo_for(data.items(), data.infos(), inventory@, *weapon, j) && inventory@[j] == t,
        r is None ==> forall|k: int| 0 <= k < inventory@.len() ==> !(info_in(data.items(), data.infos(), #[trigger] inventory@[k]) matches Some(ai) && weapon.ammo_matches(ai)),
{
    let mut i: usize = 0;
    while i < inventory.len()
        invariant
            i <= inventory@.len(),
            forall|k: int| 0 <= k < i ==> !(info_in(data.items(), data.infos(), #[trigger] inventory@[k]) matches Some(ai) && weapon.ammo_matches(ai)),
        decreases inventory@.len() - i,
    {
        let a = inventory[i];
        match data.info_by_object_id(a) {
            Ok(ai) => {
                if weapon.ammo_fits(&ai) {
                    assert(first_ammo_for(data.items(), data.infos(), inventory@, *weapon, i as int));
                    return Some(a);
                }
            },
            Err(_) => {},
        }
        i = i + 1;
    }
    None
}

fn free_one_slot(data: &mut ItemsData, doll: &mut PaperDoll, s: DollSlot, out: &mut Vec<Unequipped>)
    requires
        old(data).wf(),
        old(doll).wf(),
    ensures
        final(data).wf(),
        final(doll).wf(),
        final(data).infos() == old(data).infos(),
        final(data).next_id() == old(data).next_id(),
        ({
            let step = free_slot(old(data).items(), old(data).infos(), doll_map(*old(doll)), s);
            &&& final(data).items() == step.0
            &&& doll_map(*final(doll)) == step.1
            &&& final(out)@ == match step.2 {
                Some(u) => old(out)@.push(u),
                None => old(out)@,
            }
        }),
{
    let ghost m = doll_map(*doll);
    match doll.get(s) {
        None => {},
        Some(x) => {
            let u = process_unequip(data, doll, x);
            out.push(u);
            proof {
                let m2 = Map::new(|t: DollSlot| true, |t: DollSlot| if m[t] == Some(x) { None } else { m[t] });
                if u.found {
                    assert(doll_map(*doll) =~= m2);
                } else {
                    assert(doll_map(*doll) =~= m);
                }
            }
        },
    }
}

/// Puts item `oid` on: frees the slot it is worn in (and the second slot it
/// takes, if any) by taking off what they hold, then wears it there. Worn
/// ammunition must fit the wielded weapon; a bow or crossbow asks for the
/// first fitting ammunition of the inventory to be equipped too.
pub fn handle_equip_item(data: &mut ItemsData, ch: &mut Character, oid: u32) -> (r: Result<EquipOutcome, ItemError>)
    requires
        old(data).wf(),
        old(ch).wf(),
    ensures
        final(data).wf(),
        final(ch).wf(),
        final(data).infos() == old(data).infos(),
        final(data).next_id() == old(data).next_id(),
        final(ch).object_id == old(ch).object_id,
        final(ch).inventory@ == old(ch).inventory@,
        r is Ok,
        match old(data).info_of(oid) {
            Some(info) if info.slot is Some => {
                let slot = info.slot.unwrap();
                let freed = free_slots(old(data).items(), old(data).infos(), doll_map(old(ch).paper_doll), slots_to_free(slot, info.also_frees));
                if info.kind is Ammo && !(freed.1[DollSlot::RightHand] matches Some(w)
                    && info_in(freed.0, old(data).infos(), w) matches Some(wi) && wi.ammo_matches(info)) {
                    &&& r matches Ok(EquipOutcome::AmmoDoesNotFit { unequipped }) && unequipped@ == freed.2
                    &&& final(data).items() == freed.0
                    &&& doll_map(final(ch).paper_doll) == freed.1
                } else {
                    &&& r matches Ok(EquipOutcome::Equipped { slot: s, unequipped, auto_ammo }) && s == slot
                        && unequipped@ == freed.2
                        && (info.is_ranged() ==> (auto_ammo matches Some(a) ==> exists|j: int|
                            first_ammo_for(freed.0, old(data).infos(), old(ch).inventory@, info, j) && old(ch).inventory@[j] == a))
                        && (info.is_ranged() && auto_ammo is None ==> forall|k: int| 0 <= k < old(ch).inventory@.len()
                            ==> !(info_in(freed.0, old(data).infos(), #[trigger] old(ch).inventory@[k]) matches Some(ai) && info.ammo_matches(ai)))
                        && (!info.is_ranged() ==> auto_ammo is None)
                    &&& final(data).items() == freed.0.insert(oid, Item { location: ItemLocation::PaperDoll(slot), ..freed.0[oid] })
                    &&& doll_map(final(ch).paper_doll) == freed.1.insert(slot, Some(oid))
                }
            },
            _ => r == Ok::<EquipOutcome, ItemError>(EquipOutcome::NotWearable) && final(data).items() == old(data).items()
                && final(ch).paper_doll == old(ch).paper_doll,
        },
{
    let info = match data.info_by_object_id(oid) {
        Ok(i) => i,
        Err(_) => {
            return Ok(EquipOutcome::NotWearable);
        },
    };
    let slot = match info.slot {
        Some(s) => s,
        None => {
            return Ok(EquipOutcome::NotWearable);
        },
    };
    let ghost items0 = data.items();
    let ghost m0 = doll_map(ch.paper_doll);
    let mut unequipped: Vec<Unequipped> = Vec::new();
    free_one_slot(data, &mut ch.paper_doll, slot, &mut unequipped);
    proof {
        reveal_with_fuel(free_slots, 2);
        assert(seq![slot].drop_last() =~= Seq::<DollSlot>::empty());
    }
    match info.also_frees {
        Some(a) => {
            if a != slot {
                free_one_slot(data, &mut ch.paper_doll, a, &mut unequipped);
                proof {
                    reveal_with_fuel(free_slots, 3);
                    assert(seq![slot, a].drop_last() =~= seq![slot]);
                    assert(seq![slot].drop_last() =~= Seq::<DollSlot>::empty());
                }
            }
        },
        None => {},
    }
    let ghost freed = free_slots(items0, data.infos(), m0, slots_to_free(slot, info.also_frees));
    assert(data.items() == freed.0 && doll_map(ch.paper_doll) == freed.1 && unequipped@ == freed.2);
    let is_ammo = match info.kind {
        ItemKind::Ammo(_) => true,
        _ => false,
    };
    if is_ammo && !is_ammo_valid_for_weapon(data, &ch.paper_doll, oid) {
        return Ok(EquipOutcome::AmmoDoesNotFit { unequipped });
    }
    let auto_ammo = if info.is_ranged_weapon() {
        find_ammo_for(data, &ch.inventory, &info)
    } else {
        None
    };
    let item = match data.item(oid) {
        Some(i) => i,
        None => {
            return Ok(EquipOutcome::NotWearable);
        },
    };
    ch.paper_doll.equip_slot(slot, oid);
    data.set_item(oid, Item { location: ItemLocation::PaperDoll(slot), ..item });
    assert(doll_map(ch.paper_doll) =~= freed.1.insert(slot, Some(oid)));
    Ok(EquipOutcome::Equipped { slot, unequipped, auto_ammo })
}


/// The kinds of inventory update sent to a client.
#[derive(Clone, Copy, Debug, PartialEq, Eq, Structural)]
pub enum UpdateKind {
    Add,
    Modify,
    Remove,
}

/// What a change of an item's count leads to.
#[derive(Clone, Copy, Debug, PartialEq, Eq, Structural)]
pub enum CountChange {
    /// The count is the one last reported; nothing to do.
    Unchanged,
    /// The item was used up (`despawned`) or its new count recorded;
    /// `update` is the inventory update for the owner's client, and
    /// `persist` asks to store the new count.
    Changed { despawned: bool, update: Option<UpdateKind>, persist: bool },
}

/// Handles a change of item `oid`'s count.
///
/// `owner` is the character whose object id is the item's owner, when one
/// was found. An item whose count dropped to zero is removed (and leaves
/// its owner's inventory); otherwise its new count becomes the reported
/// one. An item in an inventory or on a paper doll without an owner is
/// neither reported nor stored.
pub fn count_changed(data: &mut ItemsData, owner: &mut Option<Character>, oid: u32) -> (r: Result<CountChange, ItemError>)
    requires
        old(data).wf(),
        *old(owner) matches Some(c) ==> c.wf(),
    ensures
        final(data).wf(),
        old(owner).is_some() <==> final(owner).is_some(),
        *final(owner) matches Some(c) ==> c.wf() && c.paper_doll == old(owner).unwrap().paper_doll
            && c.object_id == old(owner).unwrap().object_id,
        final(data).infos() == old(data).infos(),
        final(data).next_id() == old(data).next_id(),
        !old(data).items().contains_key(oid) ==> r == Err::<CountChange, ItemError>(ItemError::UnknownItem)
            && final(data).items() == old(data).items() && *final(owner) == *old(owner),
        old(data).items().contains_key(oid) ==> {
            let item = old(data).items()[oid];
            let held = item.location is Inventory || item.location is PaperDoll;
            if item.prev_count == item.count {
                r == Ok::<CountChange, ItemError>(CountChange::Unchanged) && final(data).items() == old(data).items()
                    && *final(owner) == *old(owner)
            } else {
                &&& final(data).items() == if item.count == 0 {
                    old(data).items().remove(oid)
                } else {
                    old(data).items().insert(oid, Item { prev_count: item.count, ..item })
                }
                &&& if held && item.owner is None {
                    r == Ok::<CountChange, ItemError>(CountChange::Changed { despawned: item.count == 0, update: None, persist: false })
                        && *final(owner) == *old(owner)
                } else if held && old(owner).is_some() {
                    let c = old(owner).unwrap();
                    if item.count == 0 {
                        if c.inventory@.contains(oid) {
                            &&& r == Ok::<CountChange, ItemError>(CountChange::Changed { despawned: true, update: Some(UpdateKind::Remove), persist: true })
                            &&& final(owner).unwrap().inventory@ == c.inventory@.remove_value(oid)
                        } else {
                            &&& r == Err::<CountChange, ItemError>(ItemError::NotInInventory)
                            &&& final(owner).unwrap().inventory@ == c.inventory@
                        }
                    } else {
                        &&& r == Ok::<CountChange, ItemError>(CountChange::Changed { despawned: false, update: Some(UpdateKind::Modify), persist: true })
                        &&& final(owner).unwrap().inventory@ == c.inventory@
                    }
                } else {
                    r == Ok::<CountChange, ItemError>(CountChange::Changed { despawned: item.count == 0, update: None, persist: true })
                        && *final(owner) == *old(owner)
                }
            }
        },
{
    let item = data.item_by_object_id(oid)?;
    if item.prev_count == item.count {
        return Ok(CountChange::Unchanged);
    }
    let despawned = item.count == 0;
    if despawned {
        data.remove_item(oid);
    } else {
        data.set_item(oid, Item { prev_count: item.count, ..item });
    }
    let held = match item.location {
        ItemLocation::Inventory => true,
        ItemLocation::PaperDoll(_) => true,
        _ => false,
    };
    if held && item.owner.is_none() {
        return Ok(CountChange::Changed { despawned, update: None, persist: false });
    }
    if held {
        match owner {
            Some(ref mut c) => {
                if despawned {
                    inventory_remove(&mut c.inventory, oid)?;
                    return Ok(CountChange::Changed { despawned: true, update: Some(UpdateKind::Remove), persist: true });
                } else {
                    return Ok(CountChange::Changed { despawned: false, update: Some(UpdateKind::Modify), persist: true });
                }
            },
            None => {},
        }
    }
    Ok(CountChange::Changed { despawned, update: None, persist: true })
}

/// What using an item from the inventory does.
#[derive(Clone, Copy, Debug, PartialEq, Eq, Structural)]
pub enum UseAction {
    /// A shot: charge the wielded weapon with it.
    UseShot,
    /// A wearable item that is worn: take it off.
    Unequip,
    /// A wearable item that is not worn: put it on.
    Equip,
    /// Anything else: use it.
    Use,
}

/// What using inventory item `oid` does.
pub fn use_item_action(data: &ItemsData, ch: &Character, oid: u32) -> (r: Result<UseAction, ItemError>)
    ensures
        !ch.inventory@.contains(oid) ==> r == Err::<UseAction, ItemError>(ItemError::NotInInventory),
        ch.inventory@.contains(oid) && !data.items().contains_key(oid) ==> r == Err::<UseAction, ItemError>(ItemError::UnknownItem),
        ch.inventory@.contains(oid) && data.items().contains_key(oid) && !data.infos().contains_key(data.items()[oid].id)
            ==> r == Err::<UseAction, ItemError>(ItemError::UnknownItemInfo),
        ch.inventory@.contains(oid) ==> (data.info_of(oid) matches Some(info) ==> r == Ok::<UseAction, ItemError>(
            if info.kind is Shot {
                UseAction::UseShot
            } else if info.slot is Some {
                if data.items()[oid].is_equipped() { UseAction::Unequip } else { UseAction::Equip }
            } else {
                UseAction::Use
            },
        )),
{
    if !inventory_contains(&ch.inventory, oid) {
        return Err(ItemError::NotInInventory);
    }
    let item = data.item_by_object_id(oid)?;
    let info = data.item_info(item.id)?;
    match info.kind {
        ItemKind::Shot(_) => {
            return Ok(UseAction::UseShot);
        },
        _ => {},
    }
    if info.slot.is_some() {
        if item.equipped() {
            Ok(UseAction::Unequip)
        } else {
            Ok(UseAction::Equip)
        }
    } else {
        Ok(UseAction::Use)
    }
}

/// The template id of adena, the game's money.
pub const ADENA_ID: u32 = 57;

/// The system message that tells a player what was obtained.
#[derive(Clone, Copy, Debug, PartialEq, Eq, Structural)]
pub enum ObtainedMessage {
    /// "You have obtained `count` adena."
    Adena { count: u64 },
    /// "You have obtained `count` of item `item_id`."
    Several { item_id: u32, count: u64 },
    /// "You have obtained item `item_id`."
    One { item_id: u32 },
}

/// The message for obtaining `o`: adena have their own; more than one
/// piece names the count.
pub fn obtained_message(o: Obtained) -> (m: ObtainedMessage)
    ensures
        m == if o.item_id == ADENA_ID {
            ObtainedMessage::Adena { count: o.count }
        } else if o.count > 1 {
            ObtainedMessage::Several { item_id: o.item_id, count: o.count }
        } else {
            ObtainedMessage::One { item_id: o.item_id }
        },
{
    if o.item_id == ADENA_ID {
        ObtainedMessage::Adena { count: o.count }
    } else if o.count > 1 {
        ObtainedMessage::Several { item_id: o.item_id, count: o.count }
    } else {
        ObtainedMessage::One { item_id: o.item_id }
    }
}

/// The system message for putting on or taking off an item.
#[derive(Clone, Copy, Debug, PartialEq, Eq, Structural)]
pub enum EquipmentMessage {
    /// Names the enchant level and the item.
    Enchanted { enchant_level: u16, item_id: u32 },
    /// Names the item.
    Plain { item_id: u32 },
}

/// The message for putting on or taking off `item`: an enchanted item has
/// its enchant level named.
pub fn equipment_message(item: Item) -> (m: EquipmentMessage)
    ensures
        m == if item.enchant_level > 0 {
            EquipmentMessage::Enchanted { enchant_level: item.enchant_level, item_id: item.id }
        } else {
            EquipmentMessage::Plain { item_id: item.id }
        },
{
    if item.enchant_level > 0 {
        EquipmentMessage::Enchanted { enchant_level: item.enchant_level, item_id: item.id }
    } else {
        EquipmentMessage::Plain { item_id: item.id }
    }
}

/// What a destroy request from a client leads to.
#[derive(Clone, Copy, Debug, PartialEq, Eq, Structural)]
pub enum DestroyRequest {
    /// The item is not in the inventory: "incorrect item".
    IncorrectItem,
    /// Destroy `count` pieces of `oid`.
    Destroy { oid: u32, count: u64 },
}

/// Checks a client's destroy request against the inventory.
pub fn destroy_request(ch: &Character, oid: u32, count: u64) -> (r: DestroyRequest)
    ensures
        r == if ch.inventory@.contains(oid) { DestroyRequest::Destroy { oid, count } } else { DestroyRequest::IncorrectItem },
{
    if inventory_contains(&ch.inventory, oid) {
        DestroyRequest::Destroy { oid, count }
    } else {
        DestroyRequest::IncorrectItem
    }
}

/// The inventory's items that exist, with their object ids, in inventory order.
pub open spec fn listed(items: Map<u32, Item>, inv: Seq<u32>) -> Seq<(u32, Item)>
    decreases inv.len(),
{
    if inv.len() == 0 {
        Seq::empty()
    } else {
        let rest = listed(items, inv.drop_last());
        if items.contains_key(inv.last()) { rest.push((inv.last(), items[inv.last()])) } else { rest }
    }
}

/// The item list holds exactly the inventory entries that are existing
/// items, each with its item as it is, wherever it is (worn or carried): an
/// entry is listed iff it exists, and the list is as long as the number of
/// existing entries.
pub proof fn law_item_list_lists_every_existing_entry(items: Map<u32, Item>, inv: Seq<u32>)
    ensures
        forall|k: int| 0 <= k < inv.len() && items.contains_key(inv[k])
            ==> #[trigger] listed(items, inv).contains((inv[k], items[inv[k]])),
        forall|i: int| 0 <= i < listed(items, inv).len() ==> {
            let e = #[trigger] listed(items, inv)[i];
            &&& inv.contains(e.0)
            &&& items.contains_key(e.0)
            &&& e.1 == items[e.0]
        },
        listed(items, inv).len() == inv.filter(|o: u32| items.contains_key(o)).len(),
    decreases inv.len(),
{
    if inv.len() > 0 {
        let rest = inv.drop_last();
        law_item_list_lists_every_existing_entry(items, rest);
        let l = listed(items, inv);
        let lr = listed(items, rest);
        reveal_with_fuel(Seq::filter, 1);
        assert forall|k: int| 0 <= k < inv.len() && items.contains_key(inv[k])
            implies #[trigger] l.contains((inv[k], items[inv[k]])) by {
            if k < inv.len() - 1 {
                assert(rest[k] == inv[k]);
                assert(lr.contains((rest[k], items[rest[k]])));
                let j = choose|j: int| 0 <= j < lr.len() && lr[j] == (rest[k], items[rest[k]]);
                assert(l[j] == lr[j]);
            } else {
                assert(l[l.len() - 1] == (inv[k], items[inv[k]]));
            }
        }
        assert forall|i: int| 0 <= i < l.len() implies {
            let e = #[trigger] l[i];
            &&& inv.contains(e.0)
            &&& items.contains_key(e.0)
            &&& e.1 == items[e.0]
        } by {
            if i < lr.len() {
                assert(l[i] == lr[i]);
                let e = lr[i];
                assert(lr[i] == e);
                let j = choose|j: int| 0 <= j < rest.len() && rest[j] == e.0;
                assert(inv[j] == e.0);
            } else {
                assert(inv[inv.len() - 1] == inv.last());
            }
        }
    } else {
        reveal_with_fuel(Seq::filter, 1);
    }
}

/// The item list sent to a client: every inventory entry that is an existing item.
pub fn item_list(data: &ItemsData, ch: &Character) -> (r: Vec<(u32, Item)>)
    ensures
        r@ == listed(data.items(), ch.inventory@),
{
    let mut r: Vec<(u32, Item)> = Vec::new();
    let mut i: usize = 0;
    while i < ch.inventory.len()
        invariant
            i <= ch.inventory@.len(),
            r@ == listed(data.items(), ch.inventory@.take(i as int)),
        decreases ch.inventory@.len() - i,
    {
        let oid = ch.inventory[i];
        assert(ch.inventory@.take(i + 1).drop_last() =~= ch.inventory@.take(i as int));
        match data.item(oid) {
            Some(item) => r.push((oid, item)),
            None => {},
        }
        i = i + 1;
    }
    assert(ch.inventory@.take(ch.inventory@.len() as int) =~= ch.inventory@);
    r
}

/// Where a newly spawned item goes.
#[derive(Clone, Copy, Debug, PartialEq, Eq, Structural)]
pub enum SpawnRoute {
    /// It lies in the world at this point.
    World(GamePoint),
    /// It goes into the inventory of the character with this object id.
    ToOwner(u32),
    /// It belongs in an inventory but has no owner.
    MissingOwner,
    /// It stays where it is.
    Stays,
}

/// Where a newly spawned item goes, by its location.
pub fn spawn_route(item: &Item) -> (r: SpawnRoute)
    ensures
        r == match item.location {
            ItemLocation::World(p) => SpawnRoute::World(p),
            ItemLocation::Inventory | ItemLocation::PaperDoll(_) => match item.owner {
                Some(o) => SpawnRoute::ToOwner(o),
                None => SpawnRoute::MissingOwner,
            },
            _ => SpawnRoute::Stays,
        },
{
    match item.location {
        ItemLocation::World(p) => SpawnRoute::World(p),
        ItemLocation::Inventory | ItemLocation::PaperDoll(_) => match item.owner {
            Some(o) => SpawnRoute::ToOwner(o),
            None => SpawnRoute::MissingOwner,
        },
        _ => SpawnRoute::Stays,
    }
}

/// How many of the stored items, taken in order, are spawned: spawning
/// stops at the first one whose template is unknown.
pub fn spawnable_count(data: &ItemsData, item_ids: &Vec<u32>) -> (n: usize)
    ensures
        n <= item_ids@.len(),
        forall|k: int| 0 <= k < n ==> data.infos().contains_key(#[trigger] item_ids@[k]),
        n < item_ids@.len() ==> !data.infos().contains_key(item_ids@[n as int]),
{
    let mut i: usize = 0;
    while i < item_ids.len()
        invariant
            i <= item_ids@.len(),
            forall|k: int| 0 <= k < i ==> data.infos().contains_key(#[trigger] item_ids@[k]),
        decreases item_ids@.len() - i,
    {
        match data.info(item_ids[i]) {
            Some(_) => {},
            None => {
                return i;
            },
        }
        i = i + 1;
    }
    i
}


/// How many pieces of template `id` the inventory entries hold.
pub open spec fn pieces(items: Map<u32, Item>, inv: Seq<u32>, id: u32) -> int
    decreases inv.len(),
{
    if inv.len() == 0 {
        0
    } else {
        pieces(items, inv.drop_last(), id) + if holds_id(items, inv.last(), id) { items[inv.last()].count as int } else { 0 }
    }
}

proof fn lemma_pieces_same_outside(items: Map<u32, Item>, items2: Map<u32, Item>, inv: Seq<u32>, id: u32)
    requires
        forall|k: int| 0 <= k < inv.len() ==> (holds_id(items, #[trigger] inv[k], id) <==> holds_id(items2, inv[k], id))
            && (holds_id(items, inv[k], id) ==> items[inv[k]].count == items2[inv[k]].count),
    ensures
        pieces(items2, inv, id) == pieces(items, inv, id),
    decreases inv.len(),
{
    if inv.len() > 0 {
        let rest = inv.drop_last();
        assert forall|k: int| 0 <= k < rest.len() implies (holds_id(items, #[trigger] rest[k], id) <==> holds_id(items2, rest[k], id))
            && (holds_id(items, rest[k], id) ==> items[rest[k]].count == items2[rest[k]].count) by {
            assert(rest[k] == inv[k]);
        }
        lemma_pieces_same_outside(items, items2, rest, id);
        assert(inv.last() == inv[inv.len() - 1]);
    }
}

/// Freeing slots only moves items back into the inventory: every item stays,
/// with its template and count.
proof fn lemma_free_slots_keeps_items(
    items: Map<u32, Item>,
    infos: Map<u32, ItemInfo>,
    m: Map<DollSlot, Option<u32>>,
    slots: Seq<DollSlot>,
    oid: u32,
)
    requires
        items.contains_key(oid),
    ensures
        ({
            let freed = free_slots(items, infos, m, slots).0;
            &&& freed.contains_key(oid)
            &&& freed[oid].id == items[oid].id
            &&& freed[oid].count == items[oid].count
        }),
    decreases slots.len(),
{
    if slots.len() > 0 {
        lemma_free_slots_keeps_items(items, infos, m, slots.drop_last(), oid);
    }
}

/// Taking off an item that was just put on leaves it in the inventory and
/// worn in no slot, with its template and count unchanged.
pub proof fn law_unequip_after_equip(
    items: Map<u32, Item>,
    infos: Map<u32, ItemInfo>,
    doll: Map<DollSlot, Option<u32>>,
    oid: u32,
    slot: DollSlot,
    also: Option<DollSlot>,
)
    requires
        items.contains_key(oid),
    ensures
        ({
            let freed = free_slots(items, infos, doll, slots_to_free(slot, also));
            let worn_items = freed.0.insert(oid, Item { location: ItemLocation::PaperDoll(slot), ..freed.0[oid] });
            let worn_doll = freed.1.insert(slot, Some(oid));
            let back = taken_off(worn_items, oid);
            let back_doll = Map::new(|s: DollSlot| true, |s: DollSlot| if worn_doll[s] == Some(oid) { None } else { worn_doll[s] });
            &&& back[oid].location == ItemLocation::Inventory
            &&& back[oid].id == items[oid].id
            &&& back[oid].count == items[oid].count
            &&& forall|s: DollSlot| back_doll[s] != Some(oid)
        }),
{
    lemma_free_slots_keeps_items(items, infos, doll, slots_to_free(slot, also), oid);
}

/// Stacking keeps every piece: once a stackable item is merged into the
/// inventory's item of the same template, the inventory holds as many
/// pieces of that template as before plus the merged item's.
pub proof fn law_stacking_keeps_pieces(items: Map<u32, Item>, inv: Seq<u32>, oid: u32, t: u32)
    requires
        inv.no_duplicates(),
        !inv.contains(oid),
        inv.contains(t),
        items.contains_key(t),
        items.contains_key(oid),
        items[t].id == items[oid].id,
        items[t].count + items[oid].count <= u64::MAX,
    ensures
        ({
            let total = (items[t].count + items[oid].count) as u64;
            let after = items.insert(t, Item { count: total, ..items[t] }).remove(oid);
            pieces(after, inv, items[oid].id) == pieces(items, inv, items[oid].id) + items[oid].count
        }),
    decreases inv.len(),
{
    let id = items[oid].id;
    let total = (items[t].count + items[oid].count) as u64;
    let after = items.insert(t, Item { count: total, ..items[t] }).remove(oid);
    let rest = inv.drop_last();
    let last = inv.last();
    assert(last == inv[inv.len() - 1]);
    assert(rest.no_duplicates()) by {
        assert forall|a: int, b: int| 0 <= a < b < rest.len() implies rest[a] != rest[b] by {
            assert(rest[a] == inv[a] && rest[b] == inv[b]);
        }
    }
    assert(!rest.contains(oid)) by {
        if rest.contains(oid) {
            let k = choose|k: int| 0 <= k < rest.len() && rest[k] == oid;
            assert(inv[k] == oid);
        }
    }
    if last == t {
        assert(!rest.contains(t)) by {
            if rest.contains(t) {
                let k = choose|k: int| 0 <= k < rest.len() && rest[k] == t;
                assert(inv[k] == t);
            }
        }
        assert forall|k: int| 0 <= k < rest.len() implies (holds_id(items, #[trigger] rest[k], id) <==> holds_id(after, rest[k], id))
            && (holds_id(items, rest[k], id) ==> items[rest[k]].count == after[rest[k]].count) by {
            assert(rest[k] != t);
            assert(rest[k] != oid);
        }
        lemma_pieces_same_outside(items, after, rest, id);
    } else {
        assert(rest.contains(t)) by {
            let k = choose|k: int| 0 <= k < inv.len() && inv[k] == t;
            assert(k != inv.len() - 1);
            assert(rest[k] == t);
        }
        law_stacking_keeps_pieces(items, rest, oid, t);
        assert(last != oid);
    }
}

/// Splitting a stack keeps every piece: the pieces left in the stack and
/// the pieces dropped add up to the stack's count before the drop.
pub proof fn law_split_keeps_pieces(items: Map<u32, Item>, oid: u32, new_oid: u32, count: u64, dropped: Item)
    requires
        items.contains_key(oid),
        !items.contains_key(new_oid),
        count < items[oid].count,
        dropped.count == count,
        dropped.id == items[oid].id,
    ensures
        ({
            let after = items.insert(oid, Item { count: (items[oid].count - count) as u64, ..items[oid] }).insert(new_oid, dropped);
            &&& after[oid].count + after[new_oid].count == items[oid].count
            &&& after[oid].id == after[new_oid].id
        }),
{
}

} // verus!
