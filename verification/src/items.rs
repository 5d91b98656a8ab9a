//! The item model: item templates, item instances keyed by object id,
//! characters' inventories and paper dolls, and what the item requests
//! of the game do to them.
use vstd::prelude::*;
use std::collections::HashMap;

verus! {

broadcast use vstd::std_specs::hash::group_hash_axioms;

/// The equipment slots of a character's paper doll.
#[derive(Clone, Copy, Debug, PartialEq, Eq, Hash, Structural)]
pub enum DollSlot {
    Under,
    RightEar,
    LeftEar,
    Neck,
    RightFinger,
    LeftFinger,
    Head,
    RightHand,
    LeftHand,
    Gloves,
    Chest,
    Legs,
    Feet,
    Cloak,
    Hair,
    Hair2,
}

/// The number of paper doll slots.
pub const DOLL_SLOT_COUNT: usize = 16;

pub open spec fn slot_index(s: DollSlot) -> nat {
    match s {
        DollSlot::Under => 0,
        DollSlot::RightEar => 1,
        DollSlot::LeftEar => 2,
        DollSlot::Neck => 3,
        DollSlot::RightFinger => 4,
        DollSlot::LeftFinger => 5,
        DollSlot::Head => 6,
        DollSlot::RightHand => 7,
        DollSlot::LeftHand => 8,
        DollSlot::Gloves => 9,
        DollSlot::Chest => 10,
        DollSlot::Legs => 11,
        DollSlot::Feet => 12,
        DollSlot::Cloak => 13,
        DollSlot::Hair => 14,
        DollSlot::Hair2 => 15,
    }
}

/// Two slots with the same position are the same slot, and every position is in range.
pub proof fn lemma_slot_index_injective(a: DollSlot, b: DollSlot)
    ensures
        slot_index(a) == slot_index(b) ==> a == b,
        slot_index(a) < DOLL_SLOT_COUNT,
{
}

impl DollSlot {
    pub fn index(&self) -> (i: usize)
        ensures
            i == slot_index(*self),
            i < DOLL_SLOT_COUNT,
    {
        match self {
            DollSlot::Under => 0,
            DollSlot::RightEar => 1,
            DollSlot::LeftEar => 2,
            DollSlot::Neck => 3,
            DollSlot::RightFinger => 4,
            DollSlot::LeftFinger => 5,
            DollSlot::Head => 6,
            DollSlot::RightHand => 7,
            DollSlot::LeftHand => 8,
            DollSlot::Gloves => 9,
            DollSlot::Chest => 10,
            DollSlot::Legs => 11,
            DollSlot::Feet => 12,
            DollSlot::Cloak => 13,
            DollSlot::Hair => 14,
            DollSlot::Hair2 => 15,
        }
    }
}

/// A point of the game world, in the world's integer coordinates.
#[derive(Clone, Copy, Debug, PartialEq, Eq, Structural)]
pub struct GamePoint {
    pub x: i32,
    pub y: i32,
    pub z: i32,
}

/// Where an item is.
#[derive(Clone, Copy, Debug, PartialEq, Eq, Structural)]
pub enum ItemLocation {
    Inventory,
    PaperDoll(DollSlot),
    World(GamePoint),
    Store,
}

/// The kinds of shots that charge a weapon.
#[derive(Clone, Copy, Debug, PartialEq, Eq, Structural)]
pub enum ShotKind {
    Soulshot,
    Spiritshot,
    BlessedSpiritshot,
    Fishing,
}

/// What a weapon template says about shots and ammunition.
#[derive(Clone, Copy, Debug, PartialEq, Eq, Structural)]
pub struct WeaponInfo {
    /// Soulshots (and fishing shots) one charge takes.
    pub soulshots: u32,
    /// Spiritshots (blessed or not) one charge takes.
    pub spiritshots: u32,
    /// The grade of shots this weapon takes.
    pub shot_grade: u8,
    /// The class of ammunition a bow or crossbow fires; none for other weapons.
    pub ammo_class: Option<u8>,
}

/// What kind of thing an item template describes.
#[derive(Clone, Copy, Debug, PartialEq, Eq, Structural)]
pub enum ItemKind {
    Weapon(WeaponInfo),
    Armor,
    Shot(ShotKind),
    /// Arrows or bolts of the given ammunition class.
    Ammo(u8),
    Other,
}

/// An item template.
#[derive(Clone, Copy, Debug, PartialEq, Eq, Structural)]
pub struct ItemInfo {
    pub stackable: bool,
    pub kind: ItemKind,
    pub grade: u8,
    /// The paper doll slot the item is worn in, if it can be worn.
    pub slot: Option<DollSlot>,
    /// A second slot that wearing the item frees (a two-handed weapon frees the left hand).
    pub also_frees: Option<DollSlot>,
    /// The first skill the item casts when used, if any.
    pub skill: Option<u32>,
}

impl ItemInfo {
    /// A bow or a crossbow.
    pub open spec fn is_ranged(self) -> bool {
        self.kind matches ItemKind::Weapon(w) && w.ammo_class is Some
    }

    /// Whether ammunition of template `ammo` fits the weapon of this template.
    pub open spec fn ammo_matches(self, ammo: ItemInfo) -> bool {
        &&& self.kind matches ItemKind::Weapon(w)
        &&& w.ammo_class matches Some(c)
        &&& ammo.kind == ItemKind::Ammo(c)
    }

    pub fn is_ranged_weapon(&self) -> (b: bool)
        ensures
            b == self.is_ranged(),
    {
        match self.kind {
            ItemKind::Weapon(w) => w.ammo_class.is_some(),
            _ => false,
        }
    }

    pub fn ammo_fits(&self, ammo: &ItemInfo) -> (b: bool)
        ensures
            b == self.ammo_matches(*ammo),
    {
        match self.kind {
            ItemKind::Weapon(w) => match w.ammo_class {
                Some(c) => match ammo.kind {
                    ItemKind::Ammo(a) => a == c,
                    _ => false,
                },
                None => false,
            },
            _ => false,
        }
    }
}

/// The shots a weapon is charged with.
#[derive(Clone, Copy, Debug, PartialEq, Eq, Structural)]
pub struct ShotCharges {
    pub soulshot: bool,
    pub spiritshot: bool,
    pub blessed_spiritshot: bool,
    pub fishing: bool,
}

impl ShotCharges {
    pub open spec fn has(self, kind: ShotKind) -> bool {
        match kind {
            ShotKind::Soulshot => self.soulshot,
            ShotKind::Spiritshot => self.spiritshot,
            ShotKind::BlessedSpiritshot => self.blessed_spiritshot,
            ShotKind::Fishing => self.fishing,
        }
    }

    pub open spec fn with(self, kind: ShotKind) -> ShotCharges {
        match kind {
            ShotKind::Soulshot => ShotCharges { soulshot: true, ..self },
            ShotKind::Spiritshot => ShotCharges { spiritshot: true, ..self },
            ShotKind::BlessedSpiritshot => ShotCharges { blessed_spiritshot: true, ..self },
            ShotKind::Fishing => ShotCharges { fishing: true, ..self },
        }
    }

    pub open spec fn empty() -> ShotCharges {
        ShotCharges { soulshot: false, spiritshot: false, blessed_spiritshot: false, fishing: false }
    }

    pub fn none() -> (c: ShotCharges)
        ensures
            c == ShotCharges::empty(),
            forall|k: ShotKind| !c.has(k),
    {
        ShotCharges { soulshot: false, spiritshot: false, blessed_spiritshot: false, fishing: false }
    }

    /// Whether the weapon is charged with shots of `kind`.
    pub fn already_applied(&self, kind: ShotKind) -> (b: bool)
        ensures
            b == self.has(kind),
    {
        match kind {
            ShotKind::Soulshot => self.soulshot,
            ShotKind::Spiritshot => self.spiritshot,
            ShotKind::BlessedSpiritshot => self.blessed_spiritshot,
            ShotKind::Fishing => self.fishing,
        }
    }

    pub fn charge(&mut self, kind: ShotKind)
        ensures
            *final(self) == old(self).with(kind),
    {
        match kind {
            ShotKind::Soulshot => self.soulshot = true,
            ShotKind::Spiritshot => self.spiritshot = true,
            ShotKind::BlessedSpiritshot => self.blessed_spiritshot = true,
            ShotKind::Fishing => self.fishing = true,
        }
    }
}

/// An item instance.
#[derive(Clone, Copy, Debug, PartialEq, Eq, Structural)]
pub struct Item {
    /// The template id.
    pub id: u32,
    pub count: u64,
    /// The count last reported to the owner's client.
    pub prev_count: u64,
    pub location: ItemLocation,
    /// The object id of the owning character.
    pub owner: Option<u32>,
    pub enchant_level: u16,
    /// The shots this item, as a weapon, is charged with.
    pub charges: ShotCharges,
}

impl Item {
    pub open spec fn is_equipped(self) -> bool {
        self.location is PaperDoll
    }

    /// A fresh item of `count` pieces at `location`, owned by nobody.
    pub fn new_with_count(id: u32, count: u64, location: ItemLocation) -> (item: Item)
        ensures
            item.id == id,
            item.count == count,
            item.prev_count == count,
            item.location == location,
            item.owner is None,
            item.enchant_level == 0,
            item.charges == ShotCharges::empty(),
    {
        Item {
            id,
            count,
            prev_count: count,
            location,
            owner: None,
            enchant_level: 0,
            charges: ShotCharges::none(),
        }
    }

    pub fn equipped(&self) -> (b: bool)
        ensures
            b == self.is_equipped(),
    {
        match self.location {
            ItemLocation::PaperDoll(_) => true,
            _ => false,
        }
    }
}

/// What a character wears: for each slot, the object id of the item in it.
pub struct PaperDoll {
    slots: Vec<Option<u32>>,
}

impl PaperDoll {
    /// The object id of the item in slot `s`.
    pub closed spec fn at(&self, s: DollSlot) -> Option<u32> {
        self.slots@[slot_index(s) as int]
    }

    pub closed spec fn wf(&self) -> bool {
        self.slots@.len() == DOLL_SLOT_COUNT
    }

    /// Whether some slot holds `oid`.
    pub open spec fn wears(&self, oid: u32) -> bool {
        exists|s: DollSlot| self.at(s) == Some(oid)
    }

    /// A paper doll with every slot empty.
    pub fn new() -> (d: PaperDoll)
        ensures
            d.wf(),
            forall|s: DollSlot| d.at(s) is None,
    {
        let mut slots: Vec<Option<u32>> = Vec::new();
        let mut i: usize = 0;
        while i < DOLL_SLOT_COUNT
            invariant
                i <= DOLL_SLOT_COUNT,
                slots@.len() == i,
                forall|j: int| 0 <= j < i ==> slots@[j] is None,
            decreases DOLL_SLOT_COUNT - i,
        {
            slots.push(None);
            i = i + 1;
        }
        PaperDoll { slots }
    }

    /// The object id of the item in `slot`.
    pub fn get(&self, slot: DollSlot) -> (r: Option<u32>)
        requires
            self.wf(),
        ensures
            r == self.at(slot),
    {
        self.slots[slot.index()]
    }

    /// Puts item `oid` in `slot`, or empties the slot.
    pub fn set_slot(&mut self, slot: DollSlot, oid: Option<u32>)
        requires
            old(self).wf(),
        ensures
            final(self).wf(),
            final(self).at(slot) == oid,
            forall|s: DollSlot| s != slot ==> final(self).at(s) == old(self).at(s),
    {
        self.slots.set(slot.index(), oid);
        proof {
            assert forall|s: DollSlot| s != slot implies self.at(s) == old(self).at(s) by {
                lemma_slot_index_injective(s, slot);
            }
        }
    }

    /// Puts item `oid` in `slot`.
    pub fn equip_slot(&mut self, slot: DollSlot, oid: u32)
        requires
            old(self).wf(),
        ensures
            final(self).wf(),
            final(self).at(slot) == Some(oid),
            forall|s: DollSlot| s != slot ==> final(self).at(s) == old(self).at(s),
    {
        self.set_slot(slot, Some(oid));
    }

    /// Empties every slot that holds `oid`.
    pub fn unequip(&mut self, oid: u32)
        requires
            old(self).wf(),
        ensures
            final(self).wf(),
            forall|s: DollSlot| #[trigger] final(self).at(s) == if old(self).at(s) == Some(oid) {
                None
            } else {
                old(self).at(s)
            },
    {
        let mut i: usize = 0;
        while i < DOLL_SLOT_COUNT
            invariant
                i <= DOLL_SLOT_COUNT,
                self.slots@.len() == DOLL_SLOT_COUNT,
                forall|j: int| 0 <= j < i ==> #[trigger] self.slots@[j] == if old(self).slots@[j] == Some(oid) {
                    None
                } else {
                    old(self).slots@[j]
                },
                forall|j: int| i <= j < DOLL_SLOT_COUNT ==> #[trigger] self.slots@[j] == old(self).slots@[j],
            decreases DOLL_SLOT_COUNT - i,
        {
            if self.slots[i] == Some(oid) {
                self.slots.set(i, None);
            }
            i = i + 1;
        }
        proof {
            assert forall|s: DollSlot| #[trigger] self.at(s) == if old(self).at(s) == Some(oid) {
                None
            } else {
                old(self).at(s)
            } by {
                lemma_slot_index_injective(s, s);
            }
        }
    }

    /// Whether some slot holds `oid`.
    pub fn is_equipped(&self, oid: u32) -> (b: bool)
        requires
            self.wf(),
        ensures
            b == self.wears(oid),
    {
        let mut i: usize = 0;
        while i < DOLL_SLOT_COUNT
            invariant
                i <= DOLL_SLOT_COUNT,
                self.slots@.len() == DOLL_SLOT_COUNT,
                forall|j: int| 0 <= j < i ==> self.slots@[j] != Some(oid),
            decreases DOLL_SLOT_COUNT - i,
        {
            if self.slots[i] == Some(oid) {
                proof {
                    let s = slot_of_index(i as nat);
                    assert(self.at(s) == Some(oid));
                }
                return true;
            }
            i = i + 1;
        }
        proof {
            assert forall|s: DollSlot| self.at(s) != Some(oid) by {
                lemma_slot_index_injective(s, s);
            }
        }
        false
    }
}

/// The slot at a table position.
pub open spec fn slot_of_index(i: nat) -> DollSlot {
    if i == 0 { DollSlot::Under }
    else if i == 1 { DollSlot::RightEar }
    else if i == 2 { DollSlot::LeftEar }
    else if i == 3 { DollSlot::Neck }
    else if i == 4 { DollSlot::RightFinger }
    else if i == 5 { DollSlot::LeftFinger }
    else if i == 6 { DollSlot::Head }
    else if i == 7 { DollSlot::RightHand }
    else if i == 8 { DollSlot::LeftHand }
    else if i == 9 { DollSlot::Gloves }
    else if i == 10 { DollSlot::Chest }
    else if i == 11 { DollSlot::Legs }
    else if i == 12 { DollSlot::Feet }
    else if i == 13 { DollSlot::Cloak }
    else if i == 14 { DollSlot::Hair }
    else { DollSlot::Hair2 }
}


/// Why an item request could not be carried out.
#[derive(Clone, Copy, Debug, PartialEq, Eq, Structural)]
pub enum ItemError {
    /// The item is not in the character's inventory.
    NotInInventory,
    /// No item has that object id.
    UnknownItem,
    /// No template has the item's id.
    UnknownItemInfo,
    /// Every object id is taken.
    ObjectIdsExhausted,
}

/// All item instances, by object id, and all item templates, by item id.
pub struct ItemsData {
    items: HashMap<u32, Item>,
    infos: HashMap<u32, ItemInfo>,
    next_object_id: u32,
}

impl ItemsData {
    /// The item instances, by object id.
    pub closed spec fn items(&self) -> Map<u32, Item> {
        self.items@
    }

    /// The item templates, by item id.
    pub closed spec fn infos(&self) -> Map<u32, ItemInfo> {
        self.infos@
    }

    /// The object id the next new item gets.
    pub closed spec fn next_id(&self) -> u32 {
        self.next_object_id
    }

    /// Every item's object id is below the next one to be handed out.
    pub closed spec fn wf(&self) -> bool {
        forall|oid: u32| #[trigger] self.items@.contains_key(oid) ==> oid < self.next_object_id
    }

    /// The template of the item with object id `oid`.
    pub open spec fn info_of(&self, oid: u32) -> Option<ItemInfo> {
        if self.items().contains_key(oid) && self.infos().contains_key(self.items()[oid].id) {
            Some(self.infos()[self.items()[oid].id])
        } else {
            None
        }
    }

    /// No items and no templates; new items get object ids from `first_object_id` on.
    pub fn new(first_object_id: u32) -> (d: ItemsData)
        ensures
            d.wf(),
            d.items() == Map::<u32, Item>::empty(),
            d.infos() == Map::<u32, ItemInfo>::empty(),
            d.next_id() == first_object_id,
    {
        ItemsData { items: HashMap::new(), infos: HashMap::new(), next_object_id: first_object_id }
    }

    /// Registers (or replaces) the template of item id `item_id`.
    pub fn insert_info(&mut self, item_id: u32, info: ItemInfo)
        requires
            old(self).wf(),
        ensures
            final(self).wf(),
            final(self).infos() == old(self).infos().insert(item_id, info),
            final(self).items() == old(self).items(),
            final(self).next_id() == old(self).next_id(),
    {
        self.infos.insert(item_id, info);
    }

    /// The item with object id `oid`.
    pub fn item(&self, oid: u32) -> (r: Option<Item>)
        ensures
            r == if self.items().contains_key(oid) { Some(self.items()[oid]) } else { None },
    {
        match self.items.get(&oid) {
            Some(i) => Some(*i),
            None => None,
        }
    }

    /// The template of item id `item_id`.
    pub fn info(&self, item_id: u32) -> (r: Option<ItemInfo>)
        ensures
            r == if self.infos().contains_key(item_id) { Some(self.infos()[item_id]) } else { None },
    {
        match self.infos.get(&item_id) {
            Some(i) => Some(*i),
            None => None,
        }
    }

    /// The item with object id `oid`, or `UnknownItem`.
    pub fn item_by_object_id(&self, oid: u32) -> (r: Result<Item, ItemError>)
        ensures
            self.items().contains_key(oid) ==> r == Ok::<Item, ItemError>(self.items()[oid]),
            !self.items().contains_key(oid) ==> r == Err::<Item, ItemError>(ItemError::UnknownItem),
    {
        match self.item(oid) {
            Some(i) => Ok(i),
            None => Err(ItemError::UnknownItem),
        }
    }

    /// The template of item id `item_id`, or `UnknownItemInfo`.
    pub fn item_info(&self, item_id: u32) -> (r: Result<ItemInfo, ItemError>)
        ensures
            self.infos().contains_key(item_id) ==> r == Ok::<ItemInfo, ItemError>(self.infos()[item_id]),
            !self.infos().contains_key(item_id) ==> r == Err::<ItemInfo, ItemError>(ItemError::UnknownItemInfo),
    {
        match self.info(item_id) {
            Some(i) => Ok(i),
            None => Err(ItemError::UnknownItemInfo),
        }
    }

    /// The template of the item with object id `oid`; `UnknownItem` when
    /// there is no such item, `UnknownItemInfo` when its template is missing.
    pub fn info_by_object_id(&self, oid: u32) -> (r: Result<ItemInfo, ItemError>)
        ensures
            !self.items().contains_key(oid) ==> r == Err::<ItemInfo, ItemError>(ItemError::UnknownItem),
            self.items().contains_key(oid) && !self.infos().contains_key(self.items()[oid].id)
                ==> r == Err::<ItemInfo, ItemError>(ItemError::UnknownItemInfo),
            self.info_of(oid) matches Some(i) ==> r == Ok::<ItemInfo, ItemError>(i),
    {
        let item = self.item_by_object_id(oid)?;
        self.item_info(item.id)
    }

    /// The object id the next new item gets.
    pub fn next_object_id(&self) -> (n: u32)
        ensures
            n == self.next_id(),
    {
        self.next_object_id
    }

    /// Adds an item under a new object id and returns that id.
    pub fn spawn(&mut self, item: Item) -> (r: Result<u32, ItemError>)
        requires
            old(self).wf(),
        ensures
            final(self).wf(),
            final(self).infos() == old(self).infos(),
            old(self).next_id() == u32::MAX ==> r == Err::<u32, ItemError>(ItemError::ObjectIdsExhausted)
                && *final(self) == *old(self),
            old(self).next_id() < u32::MAX ==> {
                &&& r == Ok::<u32, ItemError>(old(self).next_id())
                &&& !old(self).items().contains_key(old(self).next_id())
                &&& final(self).items() == old(self).items().insert(old(self).next_id(), item)
                &&& final(self).next_id() == old(self).next_id() + 1
            },
    {
        if self.next_object_id == u32::MAX {
            return Err(ItemError::ObjectIdsExhausted);
        }
        let oid = self.next_object_id;
        self.items.insert(oid, item);
        self.next_object_id = oid + 1;
        Ok(oid)
    }

    /// Adds an item that already has object id `oid` (one loaded from the database).
    pub fn insert_existing(&mut self, oid: u32, item: Item)
        requires
            old(self).wf(),
            oid < u32::MAX,
        ensures
            final(self).wf(),
            final(self).infos() == old(self).infos(),
            final(self).items() == old(self).items().insert(oid, item),
            final(self).next_id() == if oid < old(self).next_id() { old(self).next_id() } else { (oid + 1) as u32 },
    {
        self.items.insert(oid, item);
        if oid >= self.next_object_id {
            self.next_object_id = oid + 1;
        }
    }

    pub(crate) fn set_item(&mut self, oid: u32, item: Item)
        requires
            old(self).wf(),
            old(self).items().contains_key(oid),
        ensures
            final(self).wf(),
            final(self).infos() == old(self).infos(),
            final(self).next_id() == old(self).next_id(),
            final(self).items() == old(self).items().insert(oid, item),
    {
        self.items.insert(oid, item);
    }

    /// Removes the item with object id `oid` (despawning it frees its id).
    pub(crate) fn remove_item(&mut self, oid: u32)
        requires
            old(self).wf(),
        ensures
            final(self).wf(),
            final(self).infos() == old(self).infos(),
            final(self).next_id() == old(self).next_id(),
            final(self).items() == old(self).items().remove(oid),
    {
        self.items.remove(&oid);
    }
}

/// A character as the item rules see it.
pub struct Character {
    pub object_id: u32,
    /// Object ids of the items the character carries, in the order they came in.
    pub inventory: Vec<u32>,
    pub paper_doll: PaperDoll,
}

impl Character {
    pub open spec fn wf(&self) -> bool {
        &&& self.inventory@.no_duplicates()
        &&& self.paper_doll.wf()
    }

    /// A character carrying and wearing nothing.
    pub fn new(object_id: u32) -> (c: Character)
        ensures
            c.wf(),
            c.object_id == object_id,
            c.inventory@ == Seq::<u32>::empty(),
            forall|s: DollSlot| c.paper_doll.at(s) is None,
    {
        Character { object_id, inventory: Vec::new(), paper_doll: PaperDoll::new() }
    }
}

/// Whether the inventory holds `oid`.
pub fn inventory_contains(inventory: &Vec<u32>, oid: u32) -> (b: bool)
    ensures
        b == inventory@.contains(oid),
{
    let mut i: usize = 0;
    while i < inventory.len()
        invariant
            i <= inventory@.len(),
            forall|j: int| 0 <= j < i ==> inventory@[j] != oid,
        decreases inventory@.len() - i,
    {
        if inventory[i] == oid {
            return true;
        }
        i = i + 1;
    }
    false
}

/// Adds `oid` to the inventory unless it is there already.
pub fn inventory_insert(inventory: &mut Vec<u32>, oid: u32)
    requires
        old(inventory)@.no_duplicates(),
    ensures
        final(inventory)@.no_duplicates(),
        old(inventory)@.contains(oid) ==> final(inventory)@ == old(inventory)@,
        !old(inventory)@.contains(oid) ==> final(inventory)@ == old(inventory)@.push(oid),
{
    if !inventory_contains(inventory, oid) {
        inventory.push(oid);
        proof {
            assert forall|i: int, j: int| 0 <= i < j < inventory@.len() implies inventory@[i] != inventory@[j] by {
                if j == inventory@.len() - 1 {
                    assert(old(inventory)@.contains(old(inventory)@[i]));
                }
            }
        }
    }
}

/// Takes `oid` out of the inventory; `NotInInventory` when it is not there.
pub fn inventory_remove(inventory: &mut Vec<u32>, oid: u32) -> (r: Result<(), ItemError>)
    requires
        old(inventory)@.no_duplicates(),
    ensures
        final(inventory)@.no_duplicates(),
        old(inventory)@.contains(oid) ==> r is Ok && final(inventory)@ == old(inventory)@.remove_value(oid),
        !old(inventory)@.contains(oid) ==> r == Err::<(), ItemError>(ItemError::NotInInventory)
            && final(inventory)@ == old(inventory)@,
        !final(inventory)@.contains(oid),
        forall|o: u32| o != oid ==> (final(inventory)@.contains(o) <==> old(inventory)@.contains(o)),
{
    let mut i: usize = 0;
    while i < inventory.len()
        invariant
            i <= inventory@.len(),
            inventory@ == old(inventory)@,
            old(inventory)@.no_duplicates(),
            forall|j: int| 0 <= j < i ==> inventory@[j] != oid,
        decreases inventory@.len() - i,
    {
        if inventory[i] == oid {
            let ghost before = inventory@;
            inventory.remove(i);
            proof {
                assert(before.index_of_first(oid) == Some(i as int)) by {
                    before.index_of_first_ensures(oid);
                    assert(before[i as int] == oid);
                    assert(before.contains(oid));
                }
                assert(inventory@ =~= before.remove_value(oid));
                before.remove_ensures(i as int);
                assert forall|o: u32| o != oid implies (inventory@.contains(o) <==> before.contains(o)) by {
                    if before.contains(o) {
                        let k = choose|k: int| 0 <= k < before.len() && before[k] == o;
                        if k < i { assert(inventory@[k] == o); } else { assert(inventory@[k - 1] == o); }
                    }
                }
                assert(!inventory@.contains(oid)) by {
                    if inventory@.contains(oid) {
                        let k = choose|k: int| 0 <= k < inventory@.len() && inventory@[k] == oid;
                        if k < i { assert(before[k] == oid); } else { assert(before[k + 1] == oid); assert(before[i as int] == oid); }
                    }
                }
                assert forall|a: int, b: int| 0 <= a < b < inventory@.len() implies inventory@[a] != inventory@[b] by {
                    let a2 = if a < i { a } else { a + 1 };
                    let b2 = if b < i { b } else { b + 1 };
                    assert(inventory@[a] == before[a2]);
                    assert(inventory@[b] == before[b2]);
                }
            }
            return Ok(());
        }
        i = i + 1;
    }
    Err(ItemError::NotInInventory)
}

} // verus!
