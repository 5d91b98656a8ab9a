//! Doors, encounters (who knows about whom), and the server's state
//! switches: database pause and the migration task.
use vstd::prelude::*;

verus! {

/// Whether a door is open.
#[derive(Clone, Copy, Debug, PartialEq, Eq, Hash, Structural)]
pub enum DoorStatus {
    Open,
    Close,
}

/// A command to a door.
#[derive(Clone, Copy, Debug, PartialEq, Eq, Structural)]
pub enum DoorCommand {
    Open,
    Close,
}

/// How a door collides with characters.
#[derive(Clone, Copy, Debug, PartialEq, Eq, Structural)]
pub enum CollisionLayer {
    /// Blocks characters.
    EnvironmentSolid,
    /// Lets characters through.
    EnvironmentPassable,
}

/// The layer of a door: solid only when it checks collisions and is closed.
pub open spec fn door_layer_of(check_collision: bool, status: DoorStatus) -> CollisionLayer {
    if check_collision && status == DoorStatus::Close {
        CollisionLayer::EnvironmentSolid
    } else {
        CollisionLayer::EnvironmentPassable
    }
}

/// The collision layer a door gets when it appears.
pub fn door_layer(check_collision: bool, status: DoorStatus) -> (l: CollisionLayer)
    ensures
        l == door_layer_of(check_collision, status),
        (l == CollisionLayer::EnvironmentSolid) <==> (check_collision && status == DoorStatus::Close),
{
    match (check_collision, status) {
        (true, DoorStatus::Close) => CollisionLayer::EnvironmentSolid,
        (true, DoorStatus::Open) => CollisionLayer::EnvironmentPassable,
        (false, _) => CollisionLayer::EnvironmentPassable,
    }
}

/// The status a door command asks for.
pub open spec fn commanded_status(cmd: DoorCommand) -> DoorStatus {
    match cmd {
        DoorCommand::Open => DoorStatus::Open,
        DoorCommand::Close => DoorStatus::Close,
    }
}

/// What a door command changes.
#[derive(Clone, Copy, Debug, PartialEq, Eq, Structural)]
pub enum DoorChange {
    /// The door is in the commanded state already.
    Unchanged,
    /// The door takes `status`; `layer` is its new collision layer when it
    /// checks collisions.
    Changed { status: DoorStatus, layer: Option<CollisionLayer> },
}

/// Only a closed door that checks collisions blocks characters: a door
/// appears solid exactly when it checks collisions and is closed, and a
/// door that checks no collisions is passable whatever its status.
pub proof fn law_only_closed_checking_doors_block(check_collision: bool, status: DoorStatus)
    ensures
        door_layer_of(check_collision, status) == CollisionLayer::EnvironmentSolid
            <==> (check_collision && status == DoorStatus::Close),
        !check_collision ==> door_layer_of(check_collision, status) == CollisionLayer::EnvironmentPassable,
{
}

/// What command `cmd` does to a door in state `current`: nothing when the
/// door is in the commanded state already; otherwise it takes that state,
/// and a door that checks collisions takes the layer of that state.
pub open spec fn door_change(current: DoorStatus, check_collision: bool, cmd: DoorCommand) -> DoorChange {
    if current == commanded_status(cmd) {
        DoorChange::Unchanged
    } else {
        DoorChange::Changed {
            status: commanded_status(cmd),
            layer: if check_collision { Some(door_layer_of(true, commanded_status(cmd))) } else { None },
        }
    }
}

/// The status and layer of a door after `change`, given the ones it had.
pub open spec fn after_change(status: DoorStatus, layer: CollisionLayer, change: DoorChange) -> (DoorStatus, CollisionLayer) {
    match change {
        DoorChange::Unchanged => (status, layer),
        DoorChange::Changed { status: s, layer: l } => (s, match l {
            Some(l) => l,
            None => layer,
        }),
    }
}

/// What command `cmd` does to a door in state `current`.
pub fn door_command(current: DoorStatus, check_collision: bool, cmd: DoorCommand) -> (c: DoorChange)
    ensures
        c == door_change(current, check_collision, cmd),
{
    let status = match cmd {
        DoorCommand::Open => DoorStatus::Open,
        DoorCommand::Close => DoorStatus::Close,
    };
    if current == status {
        return DoorChange::Unchanged;
    }
    let layer = if check_collision {
        Some(door_layer(true, status))
    } else {
        None
    };
    DoorChange::Changed { status, layer }
}

/// A door that checks collisions keeps the layer that matches its state:
/// starting with the layer it appeared with, after any command it is in the
/// commanded state and has the layer a door in that state appears with —
/// solid exactly when closed.
pub proof fn law_door_layer_follows_status(current: DoorStatus, cmd: DoorCommand)
    ensures
        ({
            let after = after_change(current, door_layer_of(true, current), door_change(current, true, cmd));
            &&& after.0 == commanded_status(cmd)
            &&& after.1 == door_layer_of(true, after.0)
            &&& (after.1 == CollisionLayer::EnvironmentSolid <==> after.0 == DoorStatus::Close)
        }),
{
}

/// Whether an entity can be seen by others.
#[derive(Clone, Copy, Debug, PartialEq, Eq, Structural)]
pub enum EncountersVisibility {
    Visible,
    Hidden,
}

/// An entity near a character: its id and, when it can be known at all, its visibility.
#[derive(Clone, Copy, Debug, PartialEq, Eq, Structural)]
pub struct NearbyEntity {
    pub entity: u64,
    pub visibility: Option<EncountersVisibility>,
}

/// Whether `e` is in the list.
pub fn contains_entity(list: &Vec<u64>, e: u64) -> (b: bool)
    ensures
        b == list@.contains(e),
{
    let mut i: usize = 0;
    while i < list.len()
        invariant
            i <= list@.len(),
            forall|j: int| 0 <= j < i ==> list@[j] != e,
        decreases list@.len() - i,
    {
        if list[i] == e {
            return true;
        }
        i = i + 1;
    }
    false
}

/// The entities a character comes to know, in the order met: visible
/// nearby entities it did not know yet, each once.
pub open spec fn newly_known(known: Seq<u64>, nearby: Seq<NearbyEntity>) -> Seq<u64>
    decreases nearby.len(),
{
    if nearby.len() == 0 {
        Seq::empty()
    } else {
        let prev = newly_known(known, nearby.drop_last());
        let n = nearby.last();
        if n.visibility == Some(EncountersVisibility::Visible) && !(known + prev).contains(n.entity) {
            prev.push(n.entity)
        } else {
            prev
        }
    }
}

/// Adds to `known` the visible entities of `nearby` it lacks, and returns
/// them in the order met (each is announced to the character).
pub fn set_relations(known: &mut Vec<u64>, nearby: &Vec<NearbyEntity>) -> (added: Vec<u64>)
    ensures
        added@ == newly_known(old(known)@, nearby@),
        final(known)@ == old(known)@ + added@,
{
    let ghost start = known@;
    let mut added: Vec<u64> = Vec::new();
    let mut i: usize = 0;
    while i < nearby.len()
        invariant
            i <= nearby@.len(),
            added@ == newly_known(start, nearby@.take(i as int)),
            known@ == start + added@,
        decreases nearby@.len() - i,
    {
        let n = nearby[i];
        assert(nearby@.take(i + 1).drop_last() =~= nearby@.take(i as int));
        let visible = match n.visibility {
            Some(EncountersVisibility::Visible) => true,
            _ => false,
        };
        if visible && !contains_entity(known, n.entity) {
            known.push(n.entity);
            added.push(n.entity);
            assert(known@ =~= start + added@);
        }
        i = i + 1;
    }
    assert(nearby@.take(nearby@.len() as int) =~= nearby@);
    added
}

/// After meeting, a character knows exactly what it knew plus the visible nearby entities.
pub proof fn law_known_after_meeting(known: Seq<u64>, nearby: Seq<NearbyEntity>, e: u64)
    ensures
        (known + newly_known(known, nearby)).contains(e) <==> (known.contains(e) || exists|j: int|
            0 <= j < nearby.len() && nearby[j].entity == e && nearby[j].visibility == Some(EncountersVisibility::Visible)),
    decreases nearby.len(),
{
    if nearby.len() > 0 {
        let nd = nearby.drop_last();
        law_known_after_meeting(known, nd, e);
        let prev = newly_known(known, nd);
        let n = nearby.last();
        let ex_prev = exists|j: int|
            0 <= j < nd.len() && nd[j].entity == e && nd[j].visibility == Some(EncountersVisibility::Visible);
        let ex_full = exists|j: int|
            0 <= j < nearby.len() && nearby[j].entity == e && nearby[j].visibility == Some(EncountersVisibility::Visible);
        assert(ex_full <==> (ex_prev || (n.entity == e && n.visibility == Some(EncountersVisibility::Visible)))) by {
            if ex_full {
                let j = choose|j: int|
                    0 <= j < nearby.len() && nearby[j].entity == e && nearby[j].visibility == Some(EncountersVisibility::Visible);
                if j < nearby.len() - 1 {
                    assert(nd[j] == nearby[j]);
                }
            }
            if ex_prev {
                let j = choose|j: int|
                    0 <= j < nd.len() && nd[j].entity == e && nd[j].visibility == Some(EncountersVisibility::Visible);
                assert(nearby[j] == nd[j]);
            }
            if n.entity == e && n.visibility == Some(EncountersVisibility::Visible) {
                assert(nearby[nearby.len() - 1] == n);
            }
        }
        let kp = known + prev;
        if n.visibility == Some(EncountersVisibility::Visible) && !kp.contains(n.entity) {
            assert((known + prev.push(n.entity)) =~= kp.push(n.entity));
            assert(kp.push(n.entity).contains(e) <==> (kp.contains(e) || n.entity == e)) by {
                if kp.push(n.entity).contains(e) {
                    let i = choose|i: int| 0 <= i < kp.push(n.entity).len() && kp.push(n.entity)[i] == e;
                    if i < kp.len() {
                        assert(kp[i] == e);
                    }
                }
                if kp.contains(e) {
                    let i = choose|i: int| 0 <= i < kp.len() && kp[i] == e;
                    assert(kp.push(n.entity)[i] == e);
                }
                if n.entity == e {
                    assert(kp.push(n.entity)[kp.len() as int] == e);
                }
            }
        }
    } else {
        assert(known + newly_known(known, nearby) =~= known);
    }
}

/// Every entity a character comes to know was among the visible nearby ones.
proof fn lemma_newly_known_were_nearby(known: Seq<u64>, nearby: Seq<NearbyEntity>, e: u64)
    requires
        newly_known(known, nearby).contains(e),
    ensures
        exists|j: int| 0 <= j < nearby.len() && nearby[j].entity == e
            && nearby[j].visibility == Some(EncountersVisibility::Visible),
    decreases nearby.len(),
{
    let nd = nearby.drop_last();
    let prev = newly_known(known, nd);
    let n = nearby.last();
    if prev.contains(e) {
        lemma_newly_known_were_nearby(known, nd, e);
        let j = choose|j: int| 0 <= j < nd.len() && nd[j].entity == e
            && nd[j].visibility == Some(EncountersVisibility::Visible);
        assert(nearby[j] == nd[j]);
    } else {
        let i = choose|i: int| 0 <= i < newly_known(known, nearby).len() && newly_known(known, nearby)[i] == e;
        assert(i == prev.len());
        assert(nearby[nearby.len() - 1] == n);
    }
}

/// A character does not forget what it has just met: an entity it came to
/// know that is still in range, visible and has its object id is kept by
/// the next forgetting pass over the same surroundings.
pub proof fn law_met_entities_are_kept(known: Seq<u64>, nearby: Seq<NearbyEntity>, k: KnownEntity)
    requires
        newly_known(known, nearby).contains(k.entity),
        k.object_id is Some,
        !k.hidden,
    ensures
        !forgotten(k, nearby.map_values(|n: NearbyEntity| n.entity)),
{
    lemma_newly_known_were_nearby(known, nearby, k.entity);
    let j = choose|j: int| 0 <= j < nearby.len() && nearby[j].entity == k.entity
        && nearby[j].visibility == Some(EncountersVisibility::Visible);
    assert(nearby.map_values(|n: NearbyEntity| n.entity)[j] == k.entity);
}

/// A known entity as the forgetting pass sees it.
#[derive(Clone, Copy, Debug, PartialEq, Eq, Structural)]
pub struct KnownEntity {
    pub entity: u64,
    /// Its object id; none when it no longer has one (it is gone).
    pub object_id: Option<u32>,
    /// Whether it is hidden now.
    pub hidden: bool,
}

/// Whether a known entity is to be forgotten: it is gone, hidden, or out of range.
pub open spec fn forgotten(k: KnownEntity, nearby: Seq<u64>) -> bool {
    k.object_id is None || k.hidden || !nearby.contains(k.entity)
}

/// The entities to forget, in order, each with the object id announced
/// for it (zero for an entity without one).
pub open spec fn to_forget(known: Seq<KnownEntity>, nearby: Seq<u64>) -> Seq<(u64, u32)>
    decreases known.len(),
{
    if known.len() == 0 {
        Seq::empty()
    } else {
        let prev = to_forget(known.drop_last(), nearby);
        let k = known.last();
        if forgotten(k, nearby) {
            prev.push((k.entity, match k.object_id { Some(o) => o, None => 0 }))
        } else {
            prev
        }
    }
}

/// The known entities to forget: those gone, hidden or out of range.
pub fn unset_relations(known: &Vec<KnownEntity>, nearby: &Vec<u64>) -> (removed: Vec<(u64, u32)>)
    ensures
        removed@ == to_forget(known@, nearby@),
{
    let mut removed: Vec<(u64, u32)> = Vec::new();
    let mut i: usize = 0;
    while i < known.len()
        invariant
            i <= known@.len(),
            removed@ == to_forget(known@.take(i as int), nearby@),
        decreases known@.len() - i,
    {
        let k = known[i];
        assert(known@.take(i + 1).drop_last() =~= known@.take(i as int));
        let in_range = contains_entity(nearby, k.entity);
        if k.object_id.is_none() || k.hidden || !in_range {
            let oid = match k.object_id {
                Some(o) => o,
                None => 0,
            };
            removed.push((k.entity, oid));
        }
        i = i + 1;
    }
    assert(known@.take(known@.len() as int) =~= known@);
    removed
}

/// A character as others first see it: its object id and its vitals, as whole numbers.
#[derive(Clone, Copy, Debug, PartialEq, Eq, Structural)]
pub struct SeenCharacter {
    pub object_id: u32,
    pub hp: u32,
    pub max_hp: u32,
    pub cp: u32,
    pub max_cp: u32,
}

/// An NPC as others first see it; `has_model` tells whether its model data was found.
#[derive(Clone, Copy, Debug, PartialEq, Eq, Structural)]
pub struct SeenNpc {
    pub object_id: u32,
    pub hp: u32,
    pub max_hp: u32,
    pub has_model: bool,
}

/// An item lying in the world; `stackable` is none when its item info was not found.
#[derive(Clone, Copy, Debug, PartialEq, Eq, Structural)]
pub struct SeenItem {
    pub object_id: u32,
    pub item_id: u32,
    pub count: u64,
    pub stackable: Option<bool>,
}

/// An entity walking up to another one, whose object id is `target`.
#[derive(Clone, Copy, Debug, PartialEq, Eq, Structural)]
pub struct SeenPursuit {
    pub object_id: u32,
    pub target: u32,
    pub range: u32,
}

/// What a character that has just come to know an entity learns of it.
#[derive(Clone, Copy, Debug, PartialEq, Eq, Structural)]
pub struct NewlyKnownEntity {
    pub character: Option<SeenCharacter>,
    pub npc: Option<SeenNpc>,
    pub item: Option<SeenItem>,
    /// The object id of the entity when it walks towards a waypoint.
    pub walking: Option<u32>,
    pub pursuing: Option<SeenPursuit>,
}

/// Current and maximal combat points.
#[derive(Clone, Copy, Debug, PartialEq, Eq, Structural)]
pub struct CombatPoints {
    pub cp: u32,
    pub max_cp: u32,
}

/// A packet that introduces an entity to a character that just came to know it.
#[derive(Clone, Copy, Debug, PartialEq, Eq, Structural)]
pub enum IntroPacket {
    CharInfo { object_id: u32 },
    NpcInfo { object_id: u32 },
    /// Current and maximal hit points, and for a character current and maximal combat points.
    StatusUpdate { object_id: u32, hp: u32, max_hp: u32, cp: Option<CombatPoints> },
    SpawnItem { object_id: u32, item_id: u32, stackable: bool, count: u64 },
    MoveToLocation { object_id: u32 },
    MoveToPawn { object_id: u32, target: u32, range: u32 },
}

/// Why an introduction stopped short.
#[derive(Clone, Copy, Debug, PartialEq, Eq, Structural)]
pub enum IntroError {
    MissingNpcModel,
    MissingItemInfo,
}

/// The packets that introduce a character.
pub open spec fn character_intro(c: Option<SeenCharacter>) -> Seq<IntroPacket> {
    match c {
        Some(c) => seq![
            IntroPacket::CharInfo { object_id: c.object_id },
            IntroPacket::StatusUpdate { object_id: c.object_id, hp: c.hp, max_hp: c.max_hp, cp: Some(CombatPoints { cp: c.cp, max_cp: c.max_cp }) },
        ],
        None => Seq::empty(),
    }
}

/// The packets that introduce an NPC whose model was found.
pub open spec fn npc_intro(n: Option<SeenNpc>) -> Seq<IntroPacket> {
    match n {
        Some(n) => seq![
            IntroPacket::NpcInfo { object_id: n.object_id },
            IntroPacket::StatusUpdate { object_id: n.object_id, hp: n.hp, max_hp: n.max_hp, cp: None },
        ],
        None => Seq::empty(),
    }
}

/// The packets that show the way an entity moves.
pub open spec fn movement_intro(k: NewlyKnownEntity) -> Seq<IntroPacket> {
    let walk = match k.walking {
        Some(o) => seq![IntroPacket::MoveToLocation { object_id: o }],
        None => Seq::empty(),
    };
    let pursuit = match k.pursuing {
        Some(p) => seq![IntroPacket::MoveToPawn { object_id: p.object_id, target: p.target, range: p.range }],
        None => Seq::empty(),
    };
    walk + pursuit
}

/// The packets sent, in order, to introduce `k`, and the error that stopped
/// the introduction, if any: the character part, then the NPC part (an NPC
/// without model data stops here), then the item (an item without item info
/// stops here), then its movement.
pub open spec fn introduction(k: NewlyKnownEntity) -> (Seq<IntroPacket>, Option<IntroError>) {
    let chars = character_intro(k.character);
    if k.npc is Some && !k.npc->0.has_model {
        (chars, Some(IntroError::MissingNpcModel))
    } else {
        let with_npc = chars + npc_intro(k.npc);
        match k.item {
            Some(i) => match i.stackable {
                None => (with_npc, Some(IntroError::MissingItemInfo)),
                Some(st) => (
                    with_npc.push(IntroPacket::SpawnItem { object_id: i.object_id, item_id: i.item_id, stackable: st, count: i.count })
                        + movement_intro(k),
                    None,
                ),
            },
            None => (with_npc + movement_intro(k), None),
        }
    }
}

/// The packets that introduce a newly known entity to the character that
/// met it, and the error that cut the introduction short, if any.
pub fn introduce_known(k: &NewlyKnownEntity) -> (r: (Vec<IntroPacket>, Option<IntroError>))
    ensures
        r.0@ == introduction(*k).0,
        r.1 == introduction(*k).1,
{
    let mut out: Vec<IntroPacket> = Vec::new();
    if let Some(c) = k.character {
        out.push(IntroPacket::CharInfo { object_id: c.object_id });
        out.push(IntroPacket::StatusUpdate { object_id: c.object_id, hp: c.hp, max_hp: c.max_hp, cp: Some(CombatPoints { cp: c.cp, max_cp: c.max_cp }) });
    }
    assert(out@ =~= character_intro(k.character));
    if let Some(n) = k.npc {
        if !n.has_model {
            return (out, Some(IntroError::MissingNpcModel));
        }
        out.push(IntroPacket::NpcInfo { object_id: n.object_id });
        out.push(IntroPacket::StatusUpdate { object_id: n.object_id, hp: n.hp, max_hp: n.max_hp, cp: None });
    }
    assert(out@ =~= character_intro(k.character) + npc_intro(k.npc));
    if let Some(i) = k.item {
        match i.stackable {
            None => {
                return (out, Some(IntroError::MissingItemInfo));
            },
            Some(st) => {
                out.push(IntroPacket::SpawnItem { object_id: i.object_id, item_id: i.item_id, stackable: st, count: i.count });
            },
        }
    }
    let ghost before_moves = out@;
    if let Some(o) = k.walking {
        out.push(IntroPacket::MoveToLocation { object_id: o });
    }
    if let Some(p) = k.pursuing {
        out.push(IntroPacket::MoveToPawn { object_id: p.object_id, target: p.target, range: p.range });
    }
    assert(out@ =~= before_moves + movement_intro(*k));
    (out, None)
}

/// The states of the running server that the database watch switches between.
#[derive(Clone, Copy, Debug, PartialEq, Eq, Structural)]
pub enum ServerState {
    Run,
    Pause,
    /// Any state the database watch leaves alone (such as loading).
    Other,
}

/// The state the database watch switches to, if any: a running server
/// pauses when the database connection is lost and a paused one resumes
/// when it is back.
pub open spec fn db_watch_next(state: ServerState, disconnected: bool) -> Option<ServerState> {
    if disconnected {
        if state == ServerState::Run { Some(ServerState::Pause) } else { None }
    } else {
        if state == ServerState::Pause { Some(ServerState::Run) } else { None }
    }
}

/// The state the database watch switches to, if any.
pub fn pause_if_no_postgres_connection(state: ServerState, disconnected: bool) -> (next: Option<ServerState>)
    ensures
        next == db_watch_next(state, disconnected),
{
    if disconnected {
        if state == ServerState::Run {
            Some(ServerState::Pause)
        } else {
            None
        }
    } else if state == ServerState::Pause {
        Some(ServerState::Run)
    } else {
        None
    }
}

/// The database watch settles at once: after one switch, the same
/// connection state asks for no further switch; a lost connection never
/// leaves the server running, and a live one never leaves it paused.
pub proof fn law_db_watch_settles(state: ServerState, disconnected: bool)
    ensures
        ({
            let after = match db_watch_next(state, disconnected) {
                Some(n) => n,
                None => state,
            };
            &&& db_watch_next(after, disconnected) is None
            &&& disconnected ==> after != ServerState::Run
            &&& !disconnected ==> after != ServerState::Pause
        }),
{
}

/// What the migration system does on a tick.
#[derive(Clone, Copy, Debug, PartialEq, Eq, Structural)]
pub enum MigrationStep {
    /// There is no single migration task: start one.
    SpawnTask,
    /// The task is done: remove its marker and go on to initializing repositories.
    Finish,
    /// The task is still running.
    Wait,
}

/// The migration step, given the `finished` flags of the migration task
/// markers that exist.
pub fn migration_step(markers: &Vec<bool>) -> (s: MigrationStep)
    ensures
        s == if markers@.len() == 1 {
            if markers@[0] { MigrationStep::Finish } else { MigrationStep::Wait }
        } else {
            MigrationStep::SpawnTask
        },
{
    if markers.len() == 1 {
        if markers[0] {
            MigrationStep::Finish
        } else {
            MigrationStep::Wait
        }
    } else {
        MigrationStep::SpawnTask
    }
}

} // verus!
