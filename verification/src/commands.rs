//! Chat commands: the build ("//") commands, ".ping", unknown bypass
//! commands and the time command.
use vstd::prelude::*;
use crate::text::{decimal, local_wall_clock, push_decimal, starts_with};

verus! {

/// Summon ids from here on name NPCs; below it they name items.
pub const NPC_ID_OFFSET: u32 = 1_000_000;

/// A build command typed after "//".
#[derive(Debug, PartialEq, Eq)]
pub enum DoubleSlashCommand {
    Unknown,
    Admin,
    Spawn { npc_id: u32 },
    GoTo { target_obj_id: u32 },
    Item { id: u32, count: u64 },
    TeleportTo { target_name: String },
    Summon { id: u32, count: u64 },
    InstantMove,
    /// A teleport to map coordinates; the coordinates stay with the caller.
    Teleport,
}

/// What a build command asks the server to do for the character who typed it.
#[derive(Clone, Copy, Debug, PartialEq, Eq, Structural)]
pub enum BuildAction {
    Nothing,
    /// Open the main admin menu.
    OpenAdminMenu,
    /// Spawn NPC `npc_id` where the character stands.
    SpawnNpc { npc_id: u32 },
    /// Teleport to the entity at this position of the list searched.
    TeleportToEntity { index: usize },
    /// Put `count` of item `item_id` into the character's inventory.
    SpawnItems { item_id: u32, count: u64 },
    /// Teleport to the coordinates the command gave.
    TeleportToPoint,
}

/// `j` is the first position of `ids` holding `id`.
pub open spec fn first_index_of(ids: Seq<u32>, id: u32, j: int) -> bool {
    0 <= j < ids.len() && ids[j] == id && forall|k: int| 0 <= k < j ==> ids[k] != id
}

/// `j` is the first position of `names` holding `name`.
pub open spec fn first_name_index(names: Seq<Seq<char>>, name: Seq<char>, j: int) -> bool {
    0 <= j < names.len() && names[j] == name && forall|k: int| 0 <= k < j ==> names[k] != name
}

fn first_position(object_ids: &Vec<u32>, id: u32) -> (r: Option<usize>)
    ensures
        r matches Some(j) ==> first_index_of(object_ids@, id, j as int),
        r is None ==> !object_ids@.contains(id),
{
    let mut i: usize = 0;
    while i < object_ids.len()
        invariant
            i <= object_ids@.len(),
            forall|k: int| 0 <= k < i ==> object_ids@[k] != id,
        decreases object_ids@.len() - i,
    {
        if object_ids[i] == id {
            return Some(i);
        }
        i = i + 1;
    }
    None
}

fn first_name_position(names: &Vec<String>, name: &String) -> (r: Option<usize>)
    ensures
        r matches Some(j) ==> first_name_index(names@.map_values(|n: String| n@), name@, j as int),
        r is None ==> !names@.map_values(|n: String| n@).contains(name@),
{
    let ghost all = names@.map_values(|n: String| n@);
    let mut i: usize = 0;
    while i < names.len()
        invariant
            i <= names@.len(),
            all == names@.map_values(|n: String| n@),
            forall|k: int| 0 <= k < i ==> all[k] != name@,
        decreases names@.len() - i,
    {
        if names[i] == *name {
            return Some(i);
        }
        i = i + 1;
    }
    None
}

/// What build command `cmd` does. `object_ids` are the object ids of the
/// entities a "go to" searches, and `names` the names of those a
/// "teleport to" searches, each in search order. A summon id below
/// `NPC_ID_OFFSET` is an item id; from it on, it is an NPC id plus the offset.
pub fn build_command_action(cmd: &DoubleSlashCommand, object_ids: &Vec<u32>, names: &Vec<String>) -> (a: BuildAction)
    ensures
        match *cmd {
            DoubleSlashCommand::Unknown | DoubleSlashCommand::InstantMove => a == BuildAction::Nothing,
            DoubleSlashCommand::Admin => a == BuildAction::OpenAdminMenu,
            DoubleSlashCommand::Spawn { npc_id } => a == BuildAction::SpawnNpc { npc_id },
            DoubleSlashCommand::GoTo { target_obj_id } => match a {
                BuildAction::TeleportToEntity { index } => first_index_of(object_ids@, target_obj_id, index as int),
                BuildAction::Nothing => !object_ids@.contains(target_obj_id),
                _ => false,
            },
            DoubleSlashCommand::Item { id, count } => a == BuildAction::SpawnItems { item_id: id, count },
            DoubleSlashCommand::TeleportTo { target_name } => {
                let all = names@.map_values(|n: String| n@);
                match a {
                    BuildAction::TeleportToEntity { index } => first_name_index(all, target_name@, index as int),
                    BuildAction::Nothing => !all.contains(target_name@),
                    _ => false,
                }
            },
            DoubleSlashCommand::Summon { id, count } => a == if id < NPC_ID_OFFSET {
                BuildAction::SpawnItems { item_id: id, count }
            } else {
                BuildAction::SpawnNpc { npc_id: (id - NPC_ID_OFFSET) as u32 }
            },
            DoubleSlashCommand::Teleport => a == BuildAction::TeleportToPoint,
        },
{
    match cmd {
        DoubleSlashCommand::Unknown => BuildAction::Nothing,
        DoubleSlashCommand::InstantMove => BuildAction::Nothing,
        DoubleSlashCommand::Admin => BuildAction::OpenAdminMenu,
        DoubleSlashCommand::Spawn { npc_id } => BuildAction::SpawnNpc { npc_id: *npc_id },
        DoubleSlashCommand::GoTo { target_obj_id } => match first_position(object_ids, *target_obj_id) {
            Some(index) => BuildAction::TeleportToEntity { index },
            None => BuildAction::Nothing,
        },
        DoubleSlashCommand::Item { id, count } => BuildAction::SpawnItems { item_id: *id, count: *count },
        DoubleSlashCommand::TeleportTo { target_name } => match first_name_position(names, target_name) {
            Some(index) => BuildAction::TeleportToEntity { index },
            None => BuildAction::Nothing,
        },
        DoubleSlashCommand::Summon { id, count } => {
            if *id < NPC_ID_OFFSET {
                BuildAction::SpawnItems { item_id: *id, count: *count }
            } else {
                BuildAction::SpawnNpc { npc_id: *id - NPC_ID_OFFSET }
            }
        },
        DoubleSlashCommand::Teleport => BuildAction::TeleportToPoint,
    }
}

/// "Ping: <ms>ms".
pub open spec fn ping_text(ms: nat) -> Seq<char> {
    seq!['P', 'i', 'n', 'g', ':', ' '] + decimal(ms) + seq!['m', 's']
}

/// The answer to a custom ("." prefixed) command: for ".ping" (and
/// anything starting with it) the session's current ping in milliseconds,
/// zero when it is not known yet; nothing for other commands.
pub fn ping_reply(cmd: &str, ping_ms: Option<u64>) -> (r: Option<String>)
    ensures
        !seq!['.', 'p', 'i', 'n', 'g'].is_prefix_of(cmd@) ==> r is None,
        seq!['.', 'p', 'i', 'n', 'g'].is_prefix_of(cmd@) ==> (r matches Some(t) && t@ == ping_text(
            match ping_ms {
                Some(ms) => ms as nat,
                None => 0,
            },
        )),
{
    proof {
        reveal_strlit(".ping");
        reveal_strlit("Ping: ");
        reveal_strlit("ms");
        assert(".ping"@ =~= seq!['.', 'p', 'i', 'n', 'g']);
    }
    if !starts_with(cmd, ".ping") {
        return None;
    }
    let ms = match ping_ms {
        Some(ms) => ms,
        None => 0,
    };
    let mut out = String::from_str("Ping: ");
    push_decimal(&mut out, ms);
    out.append("ms");
    assert(out@ =~= ping_text(ms as nat));
    Some(out)
}

/// "Unknown command: <cmd>. Please check the command syntax."
pub open spec fn unknown_command_text(cmd: Seq<char>) -> Seq<char> {
    "Unknown command: "@ + cmd + ". Please check the command syntax."@
}

/// The answer to a bypass command the server does not know.
pub fn unknown_command_reply(cmd: &str) -> (r: String)
    ensures
        r@ == unknown_command_text(cmd@),
{
    let mut out = String::from_str("Unknown command: ");
    out.append(cmd);
    out.append(". Please check the command syntax.");
    out
}

/// The hour and minute of the local time, for the time command.
pub fn time_command_params() -> (hm: (u32, u32))
    ensures
        hm.0 < 24,
        hm.1 < 60,
{
    let now = local_wall_clock();
    (now.hour, now.minute)
}

} // verus!
