//! Plain-value records for the catalog's entities, mirroring the relational
//! rows that the storage collaborator hands in and takes back. Timestamps
//! travel as strings and user ids as signed integers, so every field is a
//! value the verifier can reason about directly.

use vstd::prelude::*;

verus! {

/// A failure reported by the storage collaborator.
pub struct StorageError {
    pub message: String,
}

/// A game row.
pub struct GameRecord {
    pub id: i32,
    pub title: String,
    pub description: Option<String>,
    pub image_link: Option<String>,
    pub create_date: String,
    pub create_user_id: i64,
    pub modify_date: Option<String>,
    pub modify_user_id: Option<i64>,
}

/// A license-key row.
pub struct GameKeyRecord {
    pub id: i32,
    pub game_id: i32,
    pub platform_id: i32,
    pub value: String,
    pub keystate: String,
    pub page_link: Option<String>,
    pub notes: Option<String>,
    pub create_date: String,
    pub create_user_id: i64,
    pub modify_date: Option<String>,
    pub modify_user_id: Option<i64>,
    pub expiration_date: Option<String>,
}

/// A platform row.
pub struct PlatformRecord {
    pub id: i32,
    pub name: String,
    pub store_link: Option<String>,
}

/// A keylist row: a user-curated named collection of key references.
pub struct KeylistRecord {
    pub id: i32,
    pub name: String,
    pub description: Option<String>,
    pub owner_id: i64,
    pub create_date: String,
    pub create_user_id: i64,
    pub modify_date: Option<String>,
    pub modify_user_id: Option<i64>,
}

/// A membership row tying one key to one keylist.
pub struct KeylistKeyRecord {
    pub id: i32,
    pub keylist_id: i32,
    pub gamekey_id: i32,
    pub create_date: String,
    pub create_user_id: i64,
}

/// A key together with the game and platform rows it references,
/// pre-joined so that rendering needs no further lookups.
pub struct GameKeyModel {
    pub game_key: GameKeyRecord,
    pub game: GameRecord,
    pub platform: PlatformRecord,
}

/// A game row pre-joined with its key count, ready for display.
pub struct GameDetailModel {
    pub id: i32,
    pub title: String,
    pub description: Option<String>,
    pub image_link: Option<String>,
    pub key_count: u64,
}

impl GameKeyModel {
    pub fn game_key(&self) -> (r: &GameKeyRecord)
        ensures
            *r == self.game_key,
    {
        &self.game_key
    }

    pub fn game(&self) -> (r: &GameRecord)
        ensures
            *r == self.game,
    {
        &self.game
    }

    pub fn platform(&self) -> (r: &PlatformRecord)
        ensures
            *r == self.platform,
    {
        &self.platform
    }
}

/// Clones an optional text field, keeping its value.
pub fn clone_opt_string(o: &Option<String>) -> (r: Option<String>)
    ensures
        r == *o,
{
    match o {
        Some(s) => Some(s.clone()),
        None => None,
    }
}

impl Clone for GameRecord {
    fn clone(&self) -> (r: Self)
        ensures
            r == *self,
    {
        GameRecord {
            id: self.id,
            title: self.title.clone(),
            description: clone_opt_string(&self.description),
            image_link: clone_opt_string(&self.image_link),
            create_date: self.create_date.clone(),
            create_user_id: self.create_user_id,
            modify_date: clone_opt_string(&self.modify_date),
            modify_user_id: self.modify_user_id,
        }
    }
}

impl Clone for GameKeyRecord {
    fn clone(&self) -> (r: Self)
        ensures
            r == *self,
    {
        GameKeyRecord {
            id: self.id,
            game_id: self.game_id,
            platform_id: self.platform_id,
            value: self.value.clone(),
            keystate: self.keystate.clone(),
            page_link: clone_opt_string(&self.page_link),
            notes: clone_opt_string(&self.notes),
            create_date: self.create_date.clone(),
            create_user_id: self.create_user_id,
            modify_date: clone_opt_string(&self.modify_date),
            modify_user_id: self.modify_user_id,
            expiration_date: clone_opt_string(&self.expiration_date),
        }
    }
}

impl Clone for PlatformRecord {
    fn clone(&self) -> (r: Self)
        ensures
            r == *self,
    {
        PlatformRecord {
            id: self.id,
            name: self.name.clone(),
            store_link: clone_opt_string(&self.store_link),
        }
    }
}

impl Clone for KeylistRecord {
    fn clone(&self) -> (r: Self)
        ensures
            r == *self,
    {
        KeylistRecord {
            id: self.id,
            name: self.name.clone(),
            description: clone_opt_string(&self.description),
            owner_id: self.owner_id,
            create_date: self.create_date.clone(),
            create_user_id: self.create_user_id,
            modify_date: clone_opt_string(&self.modify_date),
            modify_user_id: self.modify_user_id,
        }
    }
}

impl Clone for KeylistKeyRecord {
    fn clone(&self) -> (r: Self)
        ensures
            r == *self,
    {
        KeylistKeyRecord {
            id: self.id,
            keylist_id: self.keylist_id,
            gamekey_id: self.gamekey_id,
            create_date: self.create_date.clone(),
            create_user_id: self.create_user_id,
        }
    }
}

impl Clone for GameKeyModel {
    fn clone(&self) -> (r: Self)
        ensures
            r == *self,
    {
        GameKeyModel {
            game_key: self.game_key.clone(),
            game: self.game.clone(),
            platform: self.platform.clone(),
        }
    }
}

impl Clone for GameDetailModel {
    fn clone(&self) -> (r: Self)
        ensures
            r == *self,
    {
        GameDetailModel {
            id: self.id,
            title: self.title.clone(),
            description: clone_opt_string(&self.description),
            image_link: clone_opt_string(&self.image_link),
            key_count: self.key_count,
        }
    }
}

} // verus!
