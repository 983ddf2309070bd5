//! The pure steps of the game administration commands: record building and
//! merging, duplicate and link validation, reply texts, and the export
//! rendering. Lookups and mutations happen at the storage edge; their
//! results come in as plain values.

use vstd::prelude::*;

verus! {

use crate::links::link_is_valid;
use crate::links::url_accepted;
use crate::records::clone_opt_string;
use crate::records::GameDetailModel;
use crate::records::GameRecord;
use crate::text::dec_digits;
use crate::text::u64_to_dec;
use vstd::string::*;

/// Why a game command refused its input.
pub enum GameCommandError {
    /// A game with the given title already exists.
    AlreadyExists,
    /// The supplied image link is not a valid URL.
    InvalidImageLink,
}

/// Builds the row a `game add` inserts. The title lookup has already run:
/// `already_exists` reports whether it found a row. A duplicate title is
/// refused first; then an image link that the URL parser rejects; otherwise
/// the new row carries the given fields, the creation stamp and author, and
/// no modification yet.
pub fn prepare_new_game(
    title: String,
    description: Option<String>,
    image_link: Option<String>,
    already_exists: bool,
    now: String,
    author: i64,
) -> (r: Result<GameRecord, GameCommandError>)
    ensures
        match r {
            Ok(g) => {
                &&& !already_exists
                &&& (image_link matches Some(l) ==> url_accepted(l@))
                &&& g == (GameRecord {
                    id: 0,
                    title,
                    description,
                    image_link,
                    create_date: now,
                    create_user_id: author,
                    modify_date: None,
                    modify_user_id: None,
                })
            },
            Err(GameCommandError::AlreadyExists) => already_exists,
            Err(GameCommandError::InvalidImageLink) => {
                &&& !already_exists
                &&& image_link matches Some(l) && !url_accepted(l@)
            },
        },
{
    if already_exists {
        return Err(GameCommandError::AlreadyExists);
    }
    if let Some(l) = &image_link {
        if !link_is_valid(l.as_str()) {
            return Err(GameCommandError::InvalidImageLink);
        }
    }
    Ok(
        GameRecord {
            id: 0,
            title,
            description,
            image_link,
            create_date: now,
            create_user_id: author,
            modify_date: None,
            modify_user_id: None,
        },
    )
}

/// Merges a `game edit` into an existing row: each given field replaces its
/// counterpart, each absent one keeps the stored value, and the
/// modification stamp and author are set. An image link that the URL
/// parser rejects is refused before anything is merged.
pub fn merge_game_edit(
    existing: GameRecord,
    title: Option<String>,
    description: Option<String>,
    image_link: Option<String>,
    now: String,
    author: i64,
) -> (r: Result<GameRecord, GameCommandError>)
    ensures
        match r {
            Ok(g) => {
                &&& (image_link matches Some(l) ==> url_accepted(l@))
                &&& g.id == existing.id
                &&& g.title == (match title {
                    Some(t) => t,
                    None => existing.title,
                })
                &&& g.description == (match description {
                    Some(d) => Some(d),
                    None => existing.description,
                })
                &&& g.image_link == (match image_link {
                    Some(l) => Some(l),
                    None => existing.image_link,
                })
                &&& g.create_date == existing.create_date
                &&& g.create_user_id == existing.create_user_id
                &&& g.modify_date == Some(now)
                &&& g.modify_user_id == Some(author)
            },
            Err(e) => {
                &&& e == GameCommandError::InvalidImageLink
                &&& image_link matches Some(l) && !url_accepted(l@)
            },
        },
{
    if let Some(l) = &image_link {
        if !link_is_valid(l.as_str()) {
            return Err(GameCommandError::InvalidImageLink);
        }
    }
    Ok(
        GameRecord {
            id: existing.id,
            title: match title {
                Some(t) => t,
                None => existing.title,
            },
            description: match description {
                Some(d) => Some(d),
                None => existing.description,
            },
            image_link: match image_link {
                Some(l) => Some(l),
                None => existing.image_link,
            },
            create_date: existing.create_date,
            create_user_id: existing.create_user_id,
            modify_date: Some(now),
            modify_user_id: Some(author),
        },
    )
}

/// Joins a game row with its key count into the display model that both
/// the detail reply and the game listing render.
pub fn game_detail_model(game: &GameRecord, key_count: u64) -> (m: GameDetailModel)
    ensures
        m.id == game.id,
        m.title == game.title,
        m.description == game.description,
        m.image_link == game.image_link,
        m.key_count == key_count,
{
    GameDetailModel {
        id: game.id,
        title: game.title.clone(),
        description: clone_opt_string(&game.description),
        image_link: clone_opt_string(&game.image_link),
        key_count,
    }
}

/// The titles of the given games, in order: the snapshot the title cache
/// holds for autocomplete.
pub fn titles_of_games(games: &Vec<GameRecord>) -> (titles: Vec<String>)
    ensures
        titles@ == games@.map_values(|g: GameRecord| g.title),
{
    let mut out: Vec<String> = Vec::new();
    let mut i: usize = 0;
    while i < games.len()
        invariant
            i <= games.len(),
            out@.len() == i,
            forall|j: int| 0 <= j < i ==> out@[j] == games@[j].title,
        decreases games.len() - i,
    {
        out.push(games[i].title.clone());
        i += 1;
    }
    proof {
        assert(out@ =~= games@.map_values(|g: GameRecord| g.title));
    }
    out
}

/// The reply when a title lookup found nothing.
pub fn missing_game_message(title: &str) -> (m: String)
    ensures
        m@ == "Could not find a game with the title '"@ + title@ + "'."@,
{
    let mut m = "Could not find a game with the title '".to_owned();
    m.append(title);
    m.append("'.");
    m
}

/// The reply after a removal: how many keys and how many games went.
pub fn removal_message(deleted_keys: u64, deleted_games: u64) -> (m: String)
    ensures
        m@ == "Deleted `"@ + dec_digits(deleted_keys as nat) + "` keys and `"@ + dec_digits(
            deleted_games as nat,
        ) + "` games."@,
{
    let mut m = "Deleted `".to_owned();
    let keys_text = u64_to_dec(deleted_keys);
    m.append(keys_text.as_str());
    m.append("` keys and `");
    let games_text = u64_to_dec(deleted_games);
    m.append(games_text.as_str());
    m.append("` games.");
    m
}

/// One line of the export: title, a semicolon, the create date, a newline.
pub open spec fn spec_csv_line(g: GameRecord) -> Seq<char> {
    g.title@ + ";"@ + g.create_date@ + "\n"@
}

/// The export lines for a game sequence, in order.
pub open spec fn spec_csv_lines(games: Seq<GameRecord>) -> Seq<char>
    decreases games.len(),
{
    if games.len() == 0 {
        Seq::empty()
    } else {
        spec_csv_lines(games.drop_last()) + spec_csv_line(games.last())
    }
}

/// Renders the export of games with unused keys: a fixed header line, then
/// one line per reported game.
pub fn export_csv(games: &Vec<GameRecord>) -> (s: String)
    ensures
        s@ == "game_title;create_date\n"@ + spec_csv_lines(games@),
{
    let mut s = "game_title;create_date\n".to_owned();
    let mut i: usize = 0;
    proof {
        assert(s@ =~= "game_title;create_date\n"@ + spec_csv_lines(games@.subrange(0, 0)));
    }
    while i < games.len()
        invariant
            i <= games.len(),
            s@ == "game_title;create_date\n"@ + spec_csv_lines(games@.subrange(0, i as int)),
        decreases games.len() - i,
    {
        s.append(games[i].title.as_str());
        s.append(";");
        s.append(games[i].create_date.as_str());
        s.append("\n");
        proof {
            let prefix = games@.subrange(0, i + 1);
            assert(prefix.drop_last() =~= games@.subrange(0, i as int));
            assert(prefix.last() == games@[i as int]);
            assert(s@ =~= "game_title;create_date\n"@ + spec_csv_lines(prefix));
        }
        i += 1;
    }
    proof {
        assert(games@.subrange(0, games@.len() as int) =~= games@);
    }
    s
}

} // verus!
