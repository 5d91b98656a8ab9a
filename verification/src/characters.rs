//! Character creation and deletion: the checks on a request and the
//! replies of the database tasks.
use vstd::prelude::*;
use rand::seq::SliceRandom;
use crate::items::GamePoint;

verus! {

/// The longest character name, in bytes.
pub const MAX_NAME_BYTES: usize = 16;

/// Why a character could not be created, as the client shows it.
#[derive(Clone, Copy, Debug, PartialEq, Eq, Structural)]
pub enum CharacterCreationFailReason {
    CreationFailed,
    TooManyCharacters,
    NameAlreadyExists,
    SixteenEngChars,
    IncorrectName,
    CreateNotAllowed,
    ChooseAnotherServer,
}

/// Checks a creation request before it goes to the database: the name must
/// fit in `MAX_NAME_BYTES` bytes, then the account must have room for
/// another character.
pub fn char_create_check(name: &str, table_full: bool) -> (r: Result<(), CharacterCreationFailReason>)
    ensures
        name.len() > MAX_NAME_BYTES ==> r == Err::<(), CharacterCreationFailReason>(CharacterCreationFailReason::SixteenEngChars),
        name.len() <= MAX_NAME_BYTES && table_full ==> r == Err::<(), CharacterCreationFailReason>(CharacterCreationFailReason::TooManyCharacters),
        name.len() <= MAX_NAME_BYTES && !table_full ==> r is Ok,
{
    if name.len() > MAX_NAME_BYTES {
        return Err(CharacterCreationFailReason::SixteenEngChars);
    }
    if table_full {
        return Err(CharacterCreationFailReason::TooManyCharacters);
    }
    Ok(())
}

/// Checks that a name is free, given the names the database found for it
/// (none when the lookup failed).
pub fn name_check(found: &Option<Vec<String>>, name: &String) -> (r: Result<(), CharacterCreationFailReason>)
    ensures
        found is None ==> r == Err::<(), CharacterCreationFailReason>(CharacterCreationFailReason::CreationFailed),
        found matches Some(names) ==> (r is Ok <==> !names@.map_values(|n: String| n@).contains(name@)),
        found matches Some(names) && !(r is Ok) ==> r == Err::<(), CharacterCreationFailReason>(CharacterCreationFailReason::NameAlreadyExists),
{
    match found {
        None => Err(CharacterCreationFailReason::CreationFailed),
        Some(names) => {
            if contains_name(names, name) {
                Err(CharacterCreationFailReason::NameAlreadyExists)
            } else {
                Ok(())
            }
        },
    }
}

/// Whether `name` is one of `names`.
pub fn contains_name(names: &Vec<String>, name: &String) -> (b: bool)
    ensures
        b == names@.map_values(|n: String| n@).contains(name@),
{
    let ghost all = names@.map_values(|n: String| n@);
    let mut i: usize = 0;
    while i < names.len()
        invariant
            i <= names@.len(),
            all == names@.map_values(|n: String| n@),
            forall|k: int| 0 <= k < i ==> all[k] != name@,
        decreases names@.len() - i,
    {
        if names[i] == *name {
            assert(all[i as int] == name@);
            return true;
        }
        i = i + 1;
    }
    false
}

/// Picks one of `items` at random (`rand`'s `SliceRandom::choose` with the
/// thread-local generator). Only that the pick is one of the items is stated:
/// which one depends on chance.
#[verifier::external_body]
fn choose_random<T: Copy>(items: &[T]) -> (r: T)
    requires
        items@.len() > 0,
    ensures
        items@.contains(r),
{
    *items.choose(&mut rand::thread_rng()).unwrap()
}

/// The starting position of a new character: one of its class's born
/// points, picked at random.
pub fn init_position(born_points: &Vec<GamePoint>) -> (p: GamePoint)
    requires
        born_points@.len() > 0,
    ensures
        born_points@.contains(p),
{
    choose_random(born_points.as_slice())
}

/// Whether a deletion request names one of the account's characters.
pub fn char_delete_check(slot: u32, characters: usize) -> (ok: bool)
    ensures
        ok == (slot < characters),
{
    (slot as usize) < characters
}

/// The reply to a deletion, from what the deletion task met: whether the
/// slot held a character, whether the database found it, whether deleting
/// it there worked, and whether the slot could be emptied.
#[derive(Clone, Copy, Debug, PartialEq, Eq, Structural)]
pub enum DeletionReply {
    Deleted,
    Failed,
}

/// The reply to a deletion; any failed step fails it.
pub fn deletion_reply(selected: bool, found: bool, deleted: bool, slot_removed: bool) -> (r: DeletionReply)
    ensures
        r == if selected && found && deleted && slot_removed { DeletionReply::Deleted } else { DeletionReply::Failed },
{
    if selected && found && deleted && slot_removed {
        DeletionReply::Deleted
    } else {
        DeletionReply::Failed
    }
}

} // verus!
