//! The pure steps of the keylist commands: origin choice, record building
//! for new lists and new memberships, the autocomplete snapshot, and the
//! per-key reply text.

use vstd::prelude::*;

verus! {

use crate::records::KeylistKeyRecord;
use crate::records::KeylistRecord;
use crate::text::int_dec_digits;
use vstd::string::*;

/// Which keylists a listing asks for: every list the user can reach, only
/// the lists the user owns, or only the lists shared with the user.
#[derive(Clone, Copy, Debug)]
pub enum KeylistOrigin {
    All,
    Owned,
    Assigned,
}

impl Default for KeylistOrigin {
    fn default() -> (r: Self)
        ensures
            r == KeylistOrigin::All,
    {
        KeylistOrigin::All
    }
}

/// Builds the row a `keylist create` inserts: the invoking user owns and
/// authored the list, and nothing has modified it yet.
pub fn new_keylist(name: String, description: Option<String>, now: String, author: i64) -> (k:
    KeylistRecord)
    ensures
        k.id == 0,
        k.name == name,
        k.description == description,
        k.owner_id == author,
        k.create_date == now,
        k.create_user_id == author,
        k.modify_date is None,
        k.modify_user_id is None,
{
    KeylistRecord {
        id: 0,
        name,
        description,
        owner_id: author,
        create_date: now,
        create_user_id: author,
        modify_date: None,
        modify_user_id: None,
    }
}

/// Builds the membership row that ties one key to one keylist.
pub fn new_keylist_key(keylist_id: i32, gamekey_id: i32, now: String, author: i64) -> (k:
    KeylistKeyRecord)
    ensures
        k.id == 0,
        k.keylist_id == keylist_id,
        k.gamekey_id == gamekey_id,
        k.create_date == now,
        k.create_user_id == author,
{
    KeylistKeyRecord { id: 0, keylist_id, gamekey_id, create_date: now, create_user_id: author }
}

/// The names of the given keylists, in order: what keylist autocomplete
/// filters.
pub fn names_of_keylists(lists: &Vec<KeylistRecord>) -> (names: Vec<String>)
    ensures
        names@ == lists@.map_values(|k: KeylistRecord| k.name),
{
    let mut out: Vec<String> = Vec::new();
    let mut i: usize = 0;
    while i < lists.len()
        invariant
            i <= lists.len(),
            out@.len() == i,
            forall|j: int| 0 <= j < i ==> out@[j] == lists@[j].name,
        decreases lists.len() - i,
    {
        out.push(lists[i].name.clone());
        i += 1;
    }
    proof {
        assert(out@ =~= lists@.map_values(|k: KeylistRecord| k.name));
    }
    out
}

/// The per-key reply of a `keylist add` round.
pub fn keylist_added_message(key_id: i32, keylist_name: &str) -> (m: String)
    ensures
        m@ == "Successfully added key `"@ + int_dec_digits(key_id as int) + "` to keylist `"@
            + keylist_name@ + "`"@,
{
    let mut m = "Successfully added key `".to_owned();
    let id_text = crate::text::i64_to_dec(key_id as i64);
    m.append(id_text.as_str());
    m.append("` to keylist `");
    m.append(keylist_name);
    m.append("`");
    m
}

} // verus!
