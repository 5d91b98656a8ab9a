use game_server::world::{
    door_command, door_layer, migration_step, pause_if_no_postgres_connection, set_relations,
    unset_relations, CollisionLayer, DoorChange, DoorCommand, DoorStatus, EncountersVisibility,
    KnownEntity, MigrationStep, NearbyEntity, ServerState,
};
use game_server::world::{
    introduce_known, CombatPoints, IntroError, IntroPacket, NewlyKnownEntity, SeenCharacter,
    SeenItem, SeenNpc, SeenPursuit,
};

#[test]
fn doors_block_only_when_closed_and_checking_collisions() {
    assert_eq!(door_layer(true, DoorStatus::Close), CollisionLayer::EnvironmentSolid);
    assert_eq!(door_layer(true, DoorStatus::Open), CollisionLayer::EnvironmentPassable);
    assert_eq!(door_layer(false, DoorStatus::Close), CollisionLayer::EnvironmentPassable);
}

#[test]
fn door_commands() {
    assert_eq!(door_command(DoorStatus::Open, true, DoorCommand::Open), DoorChange::Unchanged);
    assert_eq!(
        door_command(DoorStatus::Open, true, DoorCommand::Close),
        DoorChange::Changed { status: DoorStatus::Close, layer: Some(CollisionLayer::EnvironmentSolid) }
    );
    assert_eq!(
        door_command(DoorStatus::Close, false, DoorCommand::Open),
        DoorChange::Changed { status: DoorStatus::Open, layer: None }
    );
}

fn nearby(entity: u64, visibility: Option<EncountersVisibility>) -> NearbyEntity {
    NearbyEntity { entity, visibility }
}

#[test]
fn meeting_adds_visible_strangers_once() {
    let mut known = vec![1];
    let added = set_relations(
        &mut known,
        &vec![
            nearby(1, Some(EncountersVisibility::Visible)),
            nearby(2, Some(EncountersVisibility::Visible)),
            nearby(3, Some(EncountersVisibility::Hidden)),
            nearby(4, None),
            nearby(2, Some(EncountersVisibility::Visible)),
            nearby(5, Some(EncountersVisibility::Visible)),
        ],
    );
    assert_eq!(added, vec![2, 5]);
    assert_eq!(known, vec![1, 2, 5]);
}

#[test]
fn forgetting_drops_the_gone_the_hidden_and_the_distant() {
    let known = vec![
        KnownEntity { entity: 1, object_id: Some(11), hidden: false },
        KnownEntity { entity: 2, object_id: None, hidden: false },
        KnownEntity { entity: 3, object_id: Some(13), hidden: true },
        KnownEntity { entity: 4, object_id: Some(14), hidden: false },
    ];
    let removed = unset_relations(&known, &vec![1, 2, 3]);
    assert_eq!(removed, vec![(2, 0), (3, 13), (4, 14)]);
}

#[test]
fn the_database_watch_pauses_and_resumes() {
    assert_eq!(pause_if_no_postgres_connection(ServerState::Run, true), Some(ServerState::Pause));
    assert_eq!(pause_if_no_postgres_connection(ServerState::Pause, true), None);
    assert_eq!(pause_if_no_postgres_connection(ServerState::Pause, false), Some(ServerState::Run));
    assert_eq!(pause_if_no_postgres_connection(ServerState::Run, false), None);
    assert_eq!(pause_if_no_postgres_connection(ServerState::Other, true), None);
}

#[test]
fn migration_steps() {
    assert_eq!(migration_step(&vec![]), MigrationStep::SpawnTask);
    assert_eq!(migration_step(&vec![false]), MigrationStep::Wait);
    assert_eq!(migration_step(&vec![true]), MigrationStep::Finish);
    assert_eq!(migration_step(&vec![true, true]), MigrationStep::SpawnTask);
}

fn nothing_known() -> NewlyKnownEntity {
    NewlyKnownEntity { character: None, npc: None, item: None, walking: None, pursuing: None }
}

#[test]
fn a_walking_character_is_introduced_with_its_vitals_and_route() {
    let mut k = nothing_known();
    k.character = Some(SeenCharacter { object_id: 7, hp: 90, max_hp: 100, cp: 40, max_cp: 50 });
    k.walking = Some(7);
    let (packets, err) = introduce_known(&k);
    assert_eq!(err, None);
    assert_eq!(
        packets,
        vec![
            IntroPacket::CharInfo { object_id: 7 },
            IntroPacket::StatusUpdate {
                object_id: 7,
                hp: 90,
                max_hp: 100,
                cp: Some(CombatPoints { cp: 40, max_cp: 50 }),
            },
            IntroPacket::MoveToLocation { object_id: 7 },
        ]
    );
}

#[test]
fn an_npc_without_model_stops_the_introduction() {
    let mut k = nothing_known();
    k.npc = Some(SeenNpc { object_id: 3, hp: 10, max_hp: 10, has_model: false });
    k.walking = Some(3);
    let (packets, err) = introduce_known(&k);
    assert_eq!(err, Some(IntroError::MissingNpcModel));
    assert!(packets.is_empty());
}

#[test]
fn a_pursuing_npc_shows_hit_points_only() {
    let mut k = nothing_known();
    k.npc = Some(SeenNpc { object_id: 3, hp: 5, max_hp: 10, has_model: true });
    k.pursuing = Some(SeenPursuit { object_id: 3, target: 9, range: 40 });
    let (packets, err) = introduce_known(&k);
    assert_eq!(err, None);
    assert_eq!(
        packets,
        vec![
            IntroPacket::NpcInfo { object_id: 3 },
            IntroPacket::StatusUpdate { object_id: 3, hp: 5, max_hp: 10, cp: None },
            IntroPacket::MoveToPawn { object_id: 3, target: 9, range: 40 },
        ]
    );
}

#[test]
fn items_on_the_ground_are_spawned_unless_their_info_is_missing() {
    let mut k = nothing_known();
    k.item = Some(SeenItem { object_id: 11, item_id: 57, count: 1000, stackable: Some(true) });
    let (packets, err) = introduce_known(&k);
    assert_eq!(err, None);
    assert_eq!(
        packets,
        vec![IntroPacket::SpawnItem { object_id: 11, item_id: 57, stackable: true, count: 1000 }]
    );
    k.item = Some(SeenItem { object_id: 11, item_id: 57, count: 1000, stackable: None });
    let (packets, err) = introduce_known(&k);
    assert_eq!(err, Some(IntroError::MissingItemInfo));
    assert!(packets.is_empty());
}

#[test]
fn what_was_just_met_is_not_forgotten() {
    let surroundings = vec![
        nearby(7, Some(EncountersVisibility::Visible)),
        nearby(8, Some(EncountersVisibility::Visible)),
    ];
    let mut known: Vec<u64> = Vec::new();
    let added = set_relations(&mut known, &surroundings);
    assert_eq!(added, vec![7, 8]);
    let as_known: Vec<KnownEntity> = added
        .iter()
        .map(|&e| KnownEntity { entity: e, object_id: Some(e as u32 + 100), hidden: false })
        .collect();
    let in_range: Vec<u64> = surroundings.iter().map(|n| n.entity).collect();
    assert!(unset_relations(&as_known, &in_range).is_empty());
}
