use game_server::commands::{
    build_command_action, ping_reply, time_command_params, unknown_command_reply, BuildAction,
    DoubleSlashCommand,
};

#[test]
fn summon_ids_below_the_offset_are_items() {
    let a = build_command_action(&DoubleSlashCommand::Summon { id: 57, count: 1000 }, &vec![], &vec![]);
    assert_eq!(a, BuildAction::SpawnItems { item_id: 57, count: 1000 });
    let a = build_command_action(&DoubleSlashCommand::Summon { id: 1_020_001, count: 1 }, &vec![], &vec![]);
    assert_eq!(a, BuildAction::SpawnNpc { npc_id: 20_001 });
    let a = build_command_action(&DoubleSlashCommand::Summon { id: 1_000_000, count: 1 }, &vec![], &vec![]);
    assert_eq!(a, BuildAction::SpawnNpc { npc_id: 0 });
}

#[test]
fn go_to_and_teleport_to_find_the_first_match() {
    let ids = vec![5, 9, 9];
    let a = build_command_action(&DoubleSlashCommand::GoTo { target_obj_id: 9 }, &ids, &vec![]);
    assert_eq!(a, BuildAction::TeleportToEntity { index: 1 });
    let a = build_command_action(&DoubleSlashCommand::GoTo { target_obj_id: 3 }, &ids, &vec![]);
    assert_eq!(a, BuildAction::Nothing);
    let names = vec!["Gatekeeper".to_string(), "Alice".to_string()];
    let a = build_command_action(&DoubleSlashCommand::TeleportTo { target_name: "Alice".to_string() }, &vec![], &names);
    assert_eq!(a, BuildAction::TeleportToEntity { index: 1 });
    let a = build_command_action(&DoubleSlashCommand::TeleportTo { target_name: "alice".to_string() }, &vec![], &names);
    assert_eq!(a, BuildAction::Nothing);
}

#[test]
fn other_build_commands() {
    assert_eq!(build_command_action(&DoubleSlashCommand::Admin, &vec![], &vec![]), BuildAction::OpenAdminMenu);
    assert_eq!(build_command_action(&DoubleSlashCommand::Unknown, &vec![], &vec![]), BuildAction::Nothing);
    assert_eq!(build_command_action(&DoubleSlashCommand::InstantMove, &vec![], &vec![]), BuildAction::Nothing);
    assert_eq!(build_command_action(&DoubleSlashCommand::Spawn { npc_id: 7 }, &vec![], &vec![]), BuildAction::SpawnNpc { npc_id: 7 });
    assert_eq!(
        build_command_action(&DoubleSlashCommand::Item { id: 1, count: 2 }, &vec![], &vec![]),
        BuildAction::SpawnItems { item_id: 1, count: 2 }
    );
    assert_eq!(build_command_action(&DoubleSlashCommand::Teleport, &vec![], &vec![]), BuildAction::TeleportToPoint);
}

#[test]
fn ping_answers_with_milliseconds() {
    assert_eq!(ping_reply(".ping", Some(42)), Some("Ping: 42ms".to_string()));
    assert_eq!(ping_reply(".pingx", None), Some("Ping: 0ms".to_string()));
    assert_eq!(ping_reply(".help", Some(1)), None);
}

#[test]
fn unknown_bypass_commands_are_named_back() {
    assert_eq!(unknown_command_reply("foo bar"), "Unknown command: foo bar. Please check the command syntax.");
}

#[test]
fn time_command_reads_the_clock() {
    let (h, m) = time_command_params();
    assert!(h < 24 && m < 60);
}
