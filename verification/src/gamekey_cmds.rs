//! The pure steps of the key commands: choice labels, list filtering,
//! claiming (including the first-unused and random variants), record
//! building and merging, and the reply texts.

use rand::Rng;
use vstd::prelude::*;

verus! {

use crate::links::link_is_valid;
use crate::links::url_accepted;
use crate::records::GameKeyModel;
use crate::records::GameKeyRecord;
use crate::text::int_dec_digits;
use crate::text::str_eq;
use vstd::string::*;

/// The key-state choice a command offers.
pub enum KeystateCoice {
    Unused,
    Used,
}

impl KeystateCoice {
    /// The stored text of this choice.
    pub open spec fn spec_label(&self) -> Seq<char> {
        match self {
            KeystateCoice::Unused => "Unused"@,
            KeystateCoice::Used => "Used"@,
        }
    }

    /// Renders the stored text of this choice.
    pub fn label(&self) -> (s: String)
        ensures
            s@ == self.spec_label(),
    {
        match self {
            KeystateCoice::Unused => "Unused".to_owned(),
            KeystateCoice::Used => "Used".to_owned(),
        }
    }
}

/// The platform choice a command offers.
pub enum PlatformCoice {
    Steam,
    Epic,
    UPlay,
    EA,
}

impl PlatformCoice {
    /// The stored platform name of this choice.
    pub open spec fn spec_label(&self) -> Seq<char> {
        match self {
            PlatformCoice::Steam => "Steam"@,
            PlatformCoice::Epic => "Epic Games"@,
            PlatformCoice::UPlay => "Ubisoft Connect"@,
            PlatformCoice::EA => "EA Play"@,
        }
    }

    /// Renders the stored platform name of this choice.
    pub fn label(&self) -> (s: String)
        ensures
            s@ == self.spec_label(),
    {
        match self {
            PlatformCoice::Steam => "Steam".to_owned(),
            PlatformCoice::Epic => "Epic Games".to_owned(),
            PlatformCoice::UPlay => "Ubisoft Connect".to_owned(),
            PlatformCoice::EA => "EA Play".to_owned(),
        }
    }
}

/// Whether a joined key passes the optional key-state filter.
pub open spec fn keeps_keystate(k: GameKeyModel, choice: Option<KeystateCoice>) -> bool {
    match choice {
        None => true,
        Some(c) => k.game_key.keystate@ == c.spec_label(),
    }
}

/// Whether a joined key passes the optional platform filter.
pub open spec fn keeps_platform(k: GameKeyModel, choice: Option<PlatformCoice>) -> bool {
    match choice {
        None => true,
        Some(c) => k.platform.name@ == c.spec_label(),
    }
}

/// Applies the optional key-state and platform filters of the key listing,
/// keeping the order of what passes both.
pub fn filter_game_keys(
    keys: Vec<GameKeyModel>,
    keystate: Option<KeystateCoice>,
    platform: Option<PlatformCoice>,
) -> (r: Vec<GameKeyModel>)
    ensures
        r@ == keys@.filter(
            |k: GameKeyModel| keeps_keystate(k, keystate) && keeps_platform(k, platform),
        ),
{
    let mut out: Vec<GameKeyModel> = Vec::new();
    let mut i: usize = 0;
    proof {
        reveal(Seq::filter);
        assert(keys@.subrange(0, 0).filter(
            |k: GameKeyModel| keeps_keystate(k, keystate) && keeps_platform(k, platform),
        ) =~= Seq::<GameKeyModel>::empty());
    }
    while i < keys.len()
        invariant
            i <= keys.len(),
            out@ == keys@.subrange(0, i as int).filter(
                |k: GameKeyModel| keeps_keystate(k, keystate) && keeps_platform(k, platform),
            ),
        decreases keys.len() - i,
    {
        let state_ok = match &keystate {
            None => true,
            Some(c) => {
                let label = c.label();
                str_eq(keys[i].game_key.keystate.as_str(), label.as_str())
            },
        };
        let platform_ok = match &platform {
            None => true,
            Some(c) => {
                let label = c.label();
                str_eq(keys[i].platform.name.as_str(), label.as_str())
            },
        };
        if state_ok && platform_ok {
            out.push(keys[i].clone());
        }
        proof {
            reveal(Seq::filter);
            let prefix = keys@.subrange(0, i + 1);
            assert(prefix.drop_last() =~= keys@.subrange(0, i as int));
            assert(prefix.last() == keys@[i as int]);
        }
        i += 1;
    }
    proof {
        assert(keys@.subrange(0, keys@.len() as int) =~= keys@);
    }
    out
}

/// Why a claim was refused.
pub enum ClaimError {
    /// The key has already been handed out.
    AlreadyUsed,
}

/// Claims a key: a key already marked used is refused; otherwise the row
/// comes back marked used, stamped with the claim time and the claiming
/// user, and everything else unchanged. The key's value rides along in the
/// row for the caller's reply.
pub fn claim_key(key: GameKeyRecord, now: String, author: i64) -> (r: Result<
    GameKeyRecord,
    ClaimError,
>)
    ensures
        match r {
            Ok(u) => {
                &&& key.keystate@ != "Used"@
                &&& u.id == key.id
                &&& u.game_id == key.game_id
                &&& u.platform_id == key.platform_id
                &&& u.value == key.value
                &&& u.keystate@ == "Used"@
                &&& u.page_link == key.page_link
                &&& u.notes == key.notes
                &&& u.create_date == key.create_date
                &&& u.create_user_id == key.create_user_id
                &&& u.modify_date == Some(now)
                &&& u.modify_user_id == Some(author)
                &&& u.expiration_date == key.expiration_date
            },
            Err(e) => {
                &&& e == ClaimError::AlreadyUsed
                &&& key.keystate@ == "Used"@
            },
        },
{
    if str_eq(key.keystate.as_str(), "Used") {
        proof {
            reveal_strlit("Used");
        }
        return Err(ClaimError::AlreadyUsed);
    }
    let mut updated = key;
    updated.keystate = "Used".to_owned();
    updated.modify_date = Some(now);
    updated.modify_user_id = Some(author);
    Ok(updated)
}

/// No key among the first `upto` joined rows is unused.
pub open spec fn no_unused_before(keys: Seq<GameKeyModel>, upto: int) -> bool {
    forall|j: int| 0 <= j < upto ==> (#[trigger] keys[j]).game_key.keystate@ != "Unused"@
}

/// The first unused key of a game's list, if any: what a quick claim hands
/// to `claim_key`.
pub fn first_unused_key(keys: &Vec<GameKeyModel>) -> (r: Option<GameKeyRecord>)
    ensures
        match r {
            None => no_unused_before(keys@, keys@.len() as int),
            Some(k) => exists|i: int|
                #![auto]
                {
                    &&& 0 <= i < keys@.len()
                    &&& keys@[i].game_key == k
                    &&& k.keystate@ == "Unused"@
                    &&& no_unused_before(keys@, i)
                },
        },
{
    let mut i: usize = 0;
    while i < keys.len()
        invariant
            i <= keys.len(),
            no_unused_before(keys@, i as int),
        decreases keys.len() - i,
    {
        if str_eq(keys[i].game_key.keystate.as_str(), "Unused") {
            proof {
                let wi = i as int;
                assert({
                    &&& 0 <= wi < keys@.len()
                    &&& keys@[wi].game_key == keys@[wi].game_key
                    &&& no_unused_before(keys@, wi)
                });
            }
            return Some(keys[i].game_key.clone());
        }
        i += 1;
    }
    None
}

/// Builds the row a `gamekey add` inserts: the resolved game and platform,
/// the chosen state's stored text, the given value, links and notes, the
/// creation stamp and author, and no modification or expiry yet.
pub fn prepare_new_game_key(
    game_id: i32,
    platform_id: i32,
    value: String,
    keystate: &KeystateCoice,
    page_link: Option<String>,
    notes: Option<String>,
    now: String,
    author: i64,
) -> (k: GameKeyRecord)
    ensures
        k.id == 0,
        k.game_id == game_id,
        k.platform_id == platform_id,
        k.value == value,
        k.keystate@ == keystate.spec_label(),
        k.page_link == page_link,
        k.notes == notes,
        k.create_date == now,
        k.create_user_id == author,
        k.modify_date is None,
        k.modify_user_id is None,
        k.expiration_date is None,
{
    GameKeyRecord {
        id: 0,
        game_id,
        platform_id,
        value,
        keystate: keystate.label(),
        page_link,
        notes,
        create_date: now,
        create_user_id: author,
        modify_date: None,
        modify_user_id: None,
        expiration_date: None,
    }
}

/// Why a key edit refused its input.
pub enum GameKeyEditError {
    /// The supplied store page link is not a valid URL.
    InvalidPageLink,
}

/// Merges a `gamekey edit` into an existing row: resolved game and
/// platform ids and given fields replace their counterparts, absent ones
/// keep the stored values, and the modification stamp and author are set.
/// A page link that the URL parser rejects is refused before anything is
/// merged.
pub fn merge_game_key_edit(
    existing: GameKeyRecord,
    game_id: Option<i32>,
    platform_id: Option<i32>,
    value: Option<String>,
    keystate: Option<KeystateCoice>,
    page_link: Option<String>,
    notes: Option<String>,
    now: String,
    author: i64,
) -> (r: Result<GameKeyRecord, GameKeyEditError>)
    ensures
        match r {
            Ok(k) => {
                &&& (page_link matches Some(l) ==> url_accepted(l@))
                &&& k.id == existing.id
                &&& k.game_id == (match game_id {
                    Some(g) => g,
                    None => existing.game_id,
                })
                &&& k.platform_id == (match platform_id {
                    Some(p) => p,
                    None => existing.platform_id,
                })
                &&& k.value == (match value {
                    Some(v) => v,
                    None => existing.value,
                })
                &&& k.keystate@ == (match keystate {
                    Some(c) => c.spec_label(),
                    None => existing.keystate@,
                })
                &&& k.page_link == (match page_link {
                    Some(l) => Some(l),
                    None => existing.page_link,
                })
                &&& k.notes == (match notes {
                    Some(n) => Some(n),
                    None => existing.notes,
                })
                &&& k.create_date == existing.create_date
                &&& k.create_user_id == existing.create_user_id
                &&& k.modify_date == Some(now)
                &&& k.modify_user_id == Some(author)
                &&& k.expiration_date == existing.expiration_date
            },
            Err(e) => {
                &&& e == GameKeyEditError::InvalidPageLink
                &&& page_link matches Some(l) && !url_accepted(l@)
            },
        },
{
    if let Some(l) = &page_link {
        if !link_is_valid(l.as_str()) {
            return Err(GameKeyEditError::InvalidPageLink);
        }
    }
    Ok(
        GameKeyRecord {
            id: existing.id,
            game_id: match game_id {
                Some(g) => g,
                None => existing.game_id,
            },
            platform_id: match platform_id {
                Some(p) => p,
                None => existing.platform_id,
            },
            value: match value {
                Some(v) => v,
                None => existing.value,
            },
            keystate: match keystate {
                Some(c) => c.label(),
                None => existing.keystate,
            },
            page_link: match page_link {
                Some(l) => Some(l),
                None => existing.page_link,
            },
            notes: match notes {
                Some(n) => Some(n),
                None => existing.notes,
            },
            create_date: existing.create_date,
            create_user_id: existing.create_user_id,
            modify_date: Some(now),
            modify_user_id: Some(author),
            expiration_date: existing.expiration_date,
        },
    )
}

/// Relies on rand::Rng::gen_range over `0..n`: the draw lies below `n`;
/// which value comes back is up to the generator.
#[verifier::external_body]
fn random_below(n: usize) -> (r: usize)
    requires
        0 < n,
    ensures
        r < n,
{
    rand::thread_rng().gen_range(0..n)
}

/// Draws one of the given key ids at random; only an empty list yields
/// nothing. Every call may pick a different entry.
pub fn pick_random_id(ids: &Vec<i32>) -> (r: Option<i32>)
    ensures
        match r {
            None => ids@.len() == 0,
            Some(id) => exists|i: int| 0 <= i < ids@.len() && ids@[i] == id,
        },
{
    if ids.len() == 0 {
        return None;
    }
    let i = random_below(ids.len());
    proof {
        assert(0 <= i < ids@.len() && ids@[i as int] == ids@[i as int]);
    }
    Some(ids[i])
}

/// The reply that hands a claimed key's value out, in spoiler quoting.
pub fn claim_message(value: &str) -> (m: String)
    ensures
        m@ == "Your key: `"@ + value@ + "`"@,
{
    let mut m = "Your key: `".to_owned();
    m.append(value);
    m.append("`");
    m
}

/// The random-claim reply: the key's value and the game it belongs to.
pub fn claim_message_with_game(value: &str, title: &str) -> (m: String)
    ensures
        m@ == "Your key: `"@ + value@ + "` for `"@ + title@ + "`"@,
{
    let mut m = "Your key: `".to_owned();
    m.append(value);
    m.append("` for `");
    m.append(title);
    m.append("`");
    m
}

/// The reply when a key lookup found nothing.
pub fn key_missing_message(gamekey_id: i32) -> (m: String)
    ensures
        m@ == "The key `"@ + int_dec_digits(gamekey_id as int) + "` does not exist."@,
{
    let mut m = "The key `".to_owned();
    let id_text = crate::text::i64_to_dec(gamekey_id as i64);
    m.append(id_text.as_str());
    m.append("` does not exist.");
    m
}

/// The reply when a claim hit a key that was already handed out.
pub fn key_used_message(gamekey_id: i32) -> (m: String)
    ensures
        m@ == "The key `"@ + int_dec_digits(gamekey_id as int) + "` is already used."@,
{
    let mut m = "The key `".to_owned();
    let id_text = crate::text::i64_to_dec(gamekey_id as i64);
    m.append(id_text.as_str());
    m.append("` is already used.");
    m
}

/// The reply after deleting keys: how many rows went.
pub fn keys_removed_message(deleted: u64) -> (m: String)
    ensures
        m@ == "Deleted `"@ + crate::text::dec_digits(deleted as nat) + "` keys."@,
{
    let mut m = "Deleted `".to_owned();
    let count_text = crate::text::u64_to_dec(deleted);
    m.append(count_text.as_str());
    m.append("` keys.");
    m
}

} // verus!
