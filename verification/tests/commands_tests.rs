use gemuki::game_cmds::export_csv;
use gemuki::game_cmds::game_detail_model;
use gemuki::game_cmds::merge_game_edit;
use gemuki::game_cmds::missing_game_message;
use gemuki::game_cmds::prepare_new_game;
use gemuki::game_cmds::removal_message;
use gemuki::game_cmds::titles_of_games;
use gemuki::game_cmds::GameCommandError;
use gemuki::gamekey_cmds::claim_key;
use gemuki::gamekey_cmds::claim_message;
use gemuki::gamekey_cmds::claim_message_with_game;
use gemuki::gamekey_cmds::filter_game_keys;
use gemuki::gamekey_cmds::first_unused_key;
use gemuki::gamekey_cmds::key_missing_message;
use gemuki::gamekey_cmds::key_used_message;
use gemuki::gamekey_cmds::keys_removed_message;
use gemuki::gamekey_cmds::merge_game_key_edit;
use gemuki::gamekey_cmds::pick_random_id;
use gemuki::gamekey_cmds::prepare_new_game_key;
use gemuki::gamekey_cmds::ClaimError;
use gemuki::gamekey_cmds::KeystateCoice;
use gemuki::gamekey_cmds::PlatformCoice;
use gemuki::keylist_cmds::keylist_added_message;
use gemuki::keylist_cmds::names_of_keylists;
use gemuki::keylist_cmds::new_keylist;
use gemuki::keylist_cmds::new_keylist_key;
use gemuki::keylist_cmds::KeylistOrigin;
use gemuki::records::GameKeyModel;
use gemuki::records::GameKeyRecord;
use gemuki::records::GameRecord;
use gemuki::records::KeylistRecord;
use gemuki::records::PlatformRecord;
use gemuki::statistic::statistics_embed;
use gemuki::statistic::KeyStatistics;
use gemuki::steam::game_from_app_details;
use gemuki::steam::keep_named_apps;
use gemuki::steam::App;
use gemuki::steam::AppDetails;
use gemuki::steam::PriceOverview;

fn game(id: i32, title: &str) -> GameRecord {
    GameRecord {
        id,
        title: title.to_string(),
        description: None,
        image_link: None,
        create_date: "2024-07-22 08:31:19".to_string(),
        create_user_id: 77,
        modify_date: None,
        modify_user_id: None,
    }
}

fn key(id: i32, keystate: &str) -> GameKeyRecord {
    GameKeyRecord {
        id,
        game_id: 12,
        platform_id: 1,
        value: format!("KEY-{}", id),
        keystate: keystate.to_string(),
        page_link: None,
        notes: None,
        create_date: "2024-07-22 08:31:19".to_string(),
        create_user_id: 77,
        modify_date: None,
        modify_user_id: None,
        expiration_date: None,
    }
}

fn joined(id: i32, keystate: &str, platform: &str) -> GameKeyModel {
    GameKeyModel {
        game_key: key(id, keystate),
        game: game(12, "Portal"),
        platform: PlatformRecord { id: 1, name: platform.to_string(), store_link: None },
    }
}

#[test]
fn adding_a_game_builds_the_row() {
    let r = prepare_new_game(
        "Portal".to_string(),
        Some("A puzzle game.".to_string()),
        Some("https://img.example/portal.png".to_string()),
        false,
        "2024-07-22 08:31:19".to_string(),
        77,
    );
    match r {
        Ok(g) => {
            assert_eq!(g.id, 0);
            assert_eq!(g.title, "Portal");
            assert_eq!(g.description.as_deref(), Some("A puzzle game."));
            assert_eq!(g.image_link.as_deref(), Some("https://img.example/portal.png"));
            assert_eq!(g.create_date, "2024-07-22 08:31:19");
            assert_eq!(g.create_user_id, 77);
            assert!(g.modify_date.is_none());
            assert!(g.modify_user_id.is_none());
        }
        Err(_) => panic!("expected the game to be accepted"),
    }
}

#[test]
fn adding_a_duplicate_title_is_refused() {
    let r = prepare_new_game("Portal".to_string(), None, None, true, "now".to_string(), 77);
    assert!(matches!(r, Err(GameCommandError::AlreadyExists)));
}

#[test]
fn adding_a_game_with_a_broken_link_is_refused() {
    let r = prepare_new_game(
        "Portal".to_string(),
        None,
        Some("not a url".to_string()),
        false,
        "now".to_string(),
        77,
    );
    assert!(matches!(r, Err(GameCommandError::InvalidImageLink)));
}

#[test]
fn editing_merges_given_fields_over_stored_ones() {
    let mut existing = game(12, "Portal");
    existing.description = Some("old words".to_string());
    let r = merge_game_edit(
        existing,
        Some("Portal 2".to_string()),
        None,
        Some("https://img.example/p2.png".to_string()),
        "2024-07-23 10:28:00".to_string(),
        78,
    );
    match r {
        Ok(g) => {
            assert_eq!(g.id, 12);
            assert_eq!(g.title, "Portal 2");
            assert_eq!(g.description.as_deref(), Some("old words"));
            assert_eq!(g.image_link.as_deref(), Some("https://img.example/p2.png"));
            assert_eq!(g.create_date, "2024-07-22 08:31:19");
            assert_eq!(g.create_user_id, 77);
            assert_eq!(g.modify_date.as_deref(), Some("2024-07-23 10:28:00"));
            assert_eq!(g.modify_user_id, Some(78));
        }
        Err(_) => panic!("expected the edit to be accepted"),
    }
}

#[test]
fn editing_with_a_broken_link_is_refused() {
    let r = merge_game_edit(
        game(12, "Portal"),
        None,
        None,
        Some("://nope".to_string()),
        "now".to_string(),
        78,
    );
    assert!(matches!(r, Err(GameCommandError::InvalidImageLink)));
}

#[test]
fn detail_model_joins_the_key_count() {
    let m = game_detail_model(&game(12, "Portal"), 4);
    assert_eq!(m.id, 12);
    assert_eq!(m.title, "Portal");
    assert_eq!(m.key_count, 4);
}

#[test]
fn title_snapshot_keeps_order() {
    let games = vec![game(1, "Chess"), game(2, "Go")];
    assert_eq!(titles_of_games(&games), vec!["Chess".to_string(), "Go".to_string()]);
}

#[test]
fn game_reply_texts() {
    assert_eq!(missing_game_message("Portal"), "Could not find a game with the title 'Portal'.");
    assert_eq!(removal_message(4, 1), "Deleted `4` keys and `1` games.");
}

#[test]
fn export_renders_header_and_one_line_per_game() {
    let games = vec![game(1, "Chess"), game(2, "Go")];
    assert_eq!(
        export_csv(&games),
        "game_title;create_date\nChess;2024-07-22 08:31:19\nGo;2024-07-22 08:31:19\n"
    );
    assert_eq!(export_csv(&Vec::new()), "game_title;create_date\n");
}

#[test]
fn choice_labels_match_the_stored_texts() {
    assert_eq!(KeystateCoice::Unused.label(), "Unused");
    assert_eq!(KeystateCoice::Used.label(), "Used");
    assert_eq!(PlatformCoice::Steam.label(), "Steam");
    assert_eq!(PlatformCoice::Epic.label(), "Epic Games");
    assert_eq!(PlatformCoice::UPlay.label(), "Ubisoft Connect");
    assert_eq!(PlatformCoice::EA.label(), "EA Play");
}

#[test]
fn key_listing_filters_by_state_and_platform() {
    let keys = vec![
        joined(1, "Unused", "Steam"),
        joined(2, "Used", "Steam"),
        joined(3, "Unused", "EA Play"),
    ];
    let unused = filter_game_keys(keys.clone(), Some(KeystateCoice::Unused), None);
    assert_eq!(unused.len(), 2);
    assert_eq!(unused[0].game_key.id, 1);
    assert_eq!(unused[1].game_key.id, 3);

    let steam_only = filter_game_keys(keys.clone(), None, Some(PlatformCoice::Steam));
    assert_eq!(steam_only.len(), 2);
    assert_eq!(steam_only[0].game_key.id, 1);
    assert_eq!(steam_only[1].game_key.id, 2);

    let both = filter_game_keys(keys.clone(), Some(KeystateCoice::Unused), Some(PlatformCoice::Steam));
    assert_eq!(both.len(), 1);
    assert_eq!(both[0].game_key.id, 1);

    let unfiltered = filter_game_keys(keys, None, None);
    assert_eq!(unfiltered.len(), 3);
}

#[test]
fn claiming_an_unused_key_marks_it_used() {
    let r = claim_key(key(9, "Unused"), "2024-10-23 08:43:29".to_string(), 88);
    match r {
        Ok(u) => {
            assert_eq!(u.id, 9);
            assert_eq!(u.keystate, "Used");
            assert_eq!(u.value, "KEY-9");
            assert_eq!(u.modify_date.as_deref(), Some("2024-10-23 08:43:29"));
            assert_eq!(u.modify_user_id, Some(88));
            assert_eq!(u.create_user_id, 77);
        }
        Err(_) => panic!("expected the claim to go through"),
    }
}

#[test]
fn claiming_a_used_key_is_refused() {
    let r = claim_key(key(9, "Used"), "now".to_string(), 88);
    assert!(matches!(r, Err(ClaimError::AlreadyUsed)));
}

#[test]
fn quick_claim_takes_the_first_unused_key() {
    let keys = vec![joined(1, "Used", "Steam"), joined(2, "Unused", "Steam"), joined(3, "Unused", "Steam")];
    let picked = first_unused_key(&keys).expect("an unused key exists");
    assert_eq!(picked.id, 2);

    let all_used = vec![joined(1, "Used", "Steam")];
    assert!(first_unused_key(&all_used).is_none());
    assert!(first_unused_key(&Vec::new()).is_none());
}

#[test]
fn random_claim_draws_from_the_list() {
    assert!(pick_random_id(&Vec::new()).is_none());
    assert_eq!(pick_random_id(&vec![31]), Some(31));
    let ids = vec![2, 3, 5, 7];
    for _ in 0..32 {
        let drawn = pick_random_id(&ids).expect("the list is not empty");
        assert!(ids.contains(&drawn));
    }
}

#[test]
fn adding_a_key_builds_the_row() {
    let k = prepare_new_game_key(
        12,
        1,
        "AAAA-BBBB".to_string(),
        &KeystateCoice::Unused,
        None,
        Some("came with the bundle".to_string()),
        "now".to_string(),
        77,
    );
    assert_eq!(k.id, 0);
    assert_eq!(k.game_id, 12);
    assert_eq!(k.platform_id, 1);
    assert_eq!(k.value, "AAAA-BBBB");
    assert_eq!(k.keystate, "Unused");
    assert!(k.page_link.is_none());
    assert_eq!(k.notes.as_deref(), Some("came with the bundle"));
    assert!(k.modify_date.is_none());
    assert!(k.expiration_date.is_none());
}

#[test]
fn editing_a_key_merges_and_stamps() {
    let r = merge_game_key_edit(
        key(9, "Unused"),
        Some(13),
        None,
        None,
        Some(KeystateCoice::Used),
        Some("https://store.example/portal".to_string()),
        None,
        "later".to_string(),
        88,
    );
    match r {
        Ok(k) => {
            assert_eq!(k.id, 9);
            assert_eq!(k.game_id, 13);
            assert_eq!(k.platform_id, 1);
            assert_eq!(k.value, "KEY-9");
            assert_eq!(k.keystate, "Used");
            assert_eq!(k.page_link.as_deref(), Some("https://store.example/portal"));
            assert_eq!(k.modify_date.as_deref(), Some("later"));
            assert_eq!(k.modify_user_id, Some(88));
        }
        Err(_) => panic!("expected the edit to be accepted"),
    }
}

#[test]
fn editing_a_key_with_a_broken_link_is_refused() {
    let r = merge_game_key_edit(
        key(9, "Unused"),
        None,
        None,
        None,
        None,
        Some("not a url".to_string()),
        None,
        "later".to_string(),
        88,
    );
    assert!(r.is_err());
}

#[test]
fn key_reply_texts() {
    assert_eq!(claim_message("AAAA-BBBB"), "Your key: `AAAA-BBBB`");
    assert_eq!(claim_message_with_game("AAAA-BBBB", "Portal"), "Your key: `AAAA-BBBB` for `Portal`");
    assert_eq!(key_missing_message(9), "The key `9` does not exist.");
    assert_eq!(key_used_message(9), "The key `9` is already used.");
    assert_eq!(keys_removed_message(2), "Deleted `2` keys.");
}

#[test]
fn keylist_rows_carry_the_author() {
    let k = new_keylist("trades".to_string(), None, "now".to_string(), 7);
    assert_eq!(k.id, 0);
    assert_eq!(k.name, "trades");
    assert_eq!(k.owner_id, 7);
    assert_eq!(k.create_user_id, 7);
    assert!(k.modify_date.is_none());

    let m = new_keylist_key(4, 9, "now".to_string(), 7);
    assert_eq!(m.keylist_id, 4);
    assert_eq!(m.gamekey_id, 9);
    assert_eq!(m.create_user_id, 7);
}

#[test]
fn keylist_names_and_reply_text() {
    let lists = vec![
        KeylistRecord {
            id: 4,
            name: "trades".to_string(),
            description: None,
            owner_id: 7,
            create_date: "now".to_string(),
            create_user_id: 7,
            modify_date: None,
            modify_user_id: None,
        },
    ];
    assert_eq!(names_of_keylists(&lists), vec!["trades".to_string()]);
    assert_eq!(keylist_added_message(9, "trades"), "Successfully added key `9` to keylist `trades`");
}

#[test]
fn keylist_origin_defaults_to_all() {
    assert!(matches!(KeylistOrigin::default(), KeylistOrigin::All));
}

#[test]
fn statistics_page_renders_all_eight_counts() {
    let e = statistics_embed(&KeyStatistics {
        total_games: 3,
        total_users: 2,
        total_keys: 10,
        unused_keys: 6,
        used_keys: 4,
        total_keys_of_user: 5,
        unused_keys_of_user: 3,
        used_keys_of_user: 2,
    });
    assert_eq!(e.title, "gemuki-bot statistics");
    assert_eq!(e.description, "");
    assert_eq!(e.fields.len(), 8);
    let shown: Vec<(String, String)> =
        e.fields.iter().map(|f| (f.name.clone(), f.value.clone())).collect();
    assert_eq!(
        shown,
        vec![
            ("Total games".to_string(), "3".to_string()),
            ("Total users".to_string(), "2".to_string()),
            ("Total keys".to_string(), "10".to_string()),
            ("Unused keys".to_string(), "6".to_string()),
            ("Used keys".to_string(), "4".to_string()),
            ("Owned keys".to_string(), "5".to_string()),
            ("Owned unused keys".to_string(), "3".to_string()),
            ("Owned used keys".to_string(), "2".to_string()),
        ]
    );
}

#[test]
fn blank_app_names_are_dropped() {
    let apps = vec![
        App::new(10, "Portal".to_string()),
        App::new(11, "".to_string()),
        App::new(12, "   ".to_string()),
        App::new(13, "\t\n".to_string()),
        App::new(14, "Half-Life".to_string()),
    ];
    let kept = keep_named_apps(apps);
    assert_eq!(kept.len(), 2);
    assert_eq!(kept[0].appid(), 10);
    assert_eq!(kept[1].appid(), 14);
}

#[test]
fn quick_setup_takes_name_description_and_image_from_the_details() {
    let details = AppDetails {
        app_type: "game".to_string(),
        name: "Portal".to_string(),
        steam_appid: 400,
        is_free: false,
        detailed_description: "long".to_string(),
        about_the_game: "about".to_string(),
        short_description: "short".to_string(),
        header_image: "https://img.example/portal.png".to_string(),
        website: "https://example.com".to_string(),
        price_overview: PriceOverview {
            currency: "EUR".to_string(),
            initial: 999,
            final_value: 499,
            discount_percent: 50,
            initial_formatted: "9,99€".to_string(),
            final_formatted: "4,99€".to_string(),
        },
    };
    let g = game_from_app_details(&details, "now".to_string(), 77);
    assert_eq!(g.id, 0);
    assert_eq!(g.title, "Portal");
    assert_eq!(g.description.as_deref(), Some("short"));
    assert_eq!(g.image_link.as_deref(), Some("https://img.example/portal.png"));
    assert_eq!(g.create_user_id, 77);
}
