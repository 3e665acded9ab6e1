//! Tests of the component catalog, version parsing, data paths and the
//! output bridge's decisions.

use mailauncher::bridge::{bridge_step, BridgeAction, ReadEvent};
use mailauncher::components::{
    available_components, get_repo_config, map_component_name, parse_component_type,
    DownloadItemType,
};
use mailauncher::errors::AppError;
use mailauncher::models::SuccessResponse;
use mailauncher::paths::{
    find_maibot_db, get_database_dir, get_database_path, get_deployments_dir, get_log_dir,
    maibot_db_candidates,
};
use mailauncher::resolver::Platform;
use mailauncher::versions::{get_github_repo, parse_python_version};

#[test]
fn presentation_names_map_to_internal_keys() {
    assert_eq!(map_component_name("MaiBot"), "main");
    assert_eq!(map_component_name("NapCat"), "napcat");
    assert_eq!(map_component_name("MaiBot-Napcat-Adapter"), "napcat-ada");
    // Unrecognised names fall through unchanged.
    assert_eq!(map_component_name("main"), "main");
    assert_eq!(map_component_name("webui"), "webui");
}

#[test]
fn component_types_parse_case_insensitively() {
    assert_eq!(parse_component_type("MaiBot").unwrap(), DownloadItemType::Maibot);
    assert_eq!(parse_component_type("mai-bot").unwrap(), DownloadItemType::Maibot);
    assert_eq!(parse_component_type("NAPCAT").unwrap(), DownloadItemType::Napcat);
    assert_eq!(
        parse_component_type("napcat-adapter").unwrap(),
        DownloadItemType::NapcatAdapter
    );
    assert_eq!(
        parse_component_type("NapCatAdapter").unwrap(),
        DownloadItemType::NapcatAdapter
    );
    assert_eq!(parse_component_type("adapter").unwrap(), DownloadItemType::NapcatAdapter);
    assert_eq!(parse_component_type("lpmm").unwrap(), DownloadItemType::Lpmm);
}

#[test]
fn unknown_component_type_is_rejected() {
    match parse_component_type("frontend") {
        Err(AppError::InvalidInput(msg)) => {
            assert_eq!(msg, "unknown component type: frontend");
        }
        other => panic!("expected InvalidInput, got {:?}", other),
    }
}

#[test]
fn repo_configs_name_the_upstream_repositories() {
    let r = get_repo_config(&DownloadItemType::Maibot);
    assert_eq!(r.url, "https://github.com/MaiM-with-u/MaiBot.git");
    assert_eq!(r.folder, "MaiBot");
    let r = get_repo_config(&DownloadItemType::NapcatAdapter);
    assert_eq!(r.url, "https://github.com/MaiM-with-u/MaiBot-Napcat-Adapter.git");
    assert_eq!(r.folder, "MaiBot-Napcat-Adapter");
    let r = get_repo_config(&DownloadItemType::Lpmm);
    assert_eq!(r.url, "https://github.com/MaiM-with-u/MaiMBot-LPMM.git");
    assert_eq!(r.folder, "MaiMBot-LPMM");
    let r = get_repo_config(&DownloadItemType::Napcat);
    assert_eq!(
        r.url,
        "https://github.com/NapNeko/NapCatQQ/releases/latest/download/NapCat.Shell.zip"
    );
    assert_eq!(r.folder, "NapCat");
}

#[test]
fn github_repos_are_known_under_both_names() {
    for name in ["main", "MaiBot"] {
        let g = get_github_repo(name).unwrap();
        assert_eq!(g.owner, "MaiM-with-u");
        assert_eq!(g.repo, "MaiBot");
        assert!(!g.has_releases);
    }
    for name in ["napcat-ada", "MaiBot-Napcat-Adapter"] {
        let g = get_github_repo(name).unwrap();
        assert_eq!(g.owner, "MaiM-with-u");
        assert_eq!(g.repo, "MaiBot-Napcat-Adapter");
        assert!(!g.has_releases);
    }
    for name in ["napcat", "NapCat"] {
        let g = get_github_repo(name).unwrap();
        assert_eq!(g.owner, "NapNeko");
        assert_eq!(g.repo, "NapCatQQ");
        assert!(g.has_releases);
    }
    assert!(get_github_repo("webui").is_none());
}

#[test]
fn version_strings_parse_into_triples() {
    assert_eq!(parse_python_version("3.11.5"), (3, 11, 5));
    assert_eq!(parse_python_version("3.11"), (3, 11, 0));
    assert_eq!(parse_python_version("3"), (3, 0, 0));
    assert_eq!(parse_python_version(""), (0, 0, 0));
    // Pieces that do not parse are skipped, as the launcher always did.
    assert_eq!(parse_python_version("3.a.5"), (3, 5, 0));
    assert_eq!(parse_python_version("v3.11.5"), (11, 5, 0));
    // Signs are accepted, as Rust's integer parser accepts them.
    assert_eq!(parse_python_version("+3.11"), (3, 11, 0));
    assert_eq!(parse_python_version("3.-1.2"), (3, -1, 2));
    // A piece beyond the integer range is skipped, not clamped.
    assert_eq!(parse_python_version("99999999999.1.2"), (1, 2, 0));
    // Extra pieces beyond the third are ignored.
    assert_eq!(parse_python_version("3.11.5.2"), (3, 11, 5));
    assert_eq!(parse_python_version("2147483647.0.0"), (2147483647, 0, 0));
    assert_eq!(parse_python_version("-2147483648.1.1"), (-2147483648, 1, 1));
    assert_eq!(parse_python_version("2147483648.1.1"), (1, 1, 0));
}

#[test]
fn database_paths_sit_under_the_data_root() {
    assert_eq!(get_database_dir(Platform::Unix, "/data"), "/data/data/database");
    assert_eq!(
        get_database_path(Platform::Unix, "/data"),
        "/data/data/database/mailauncher.db"
    );
    assert_eq!(
        get_database_path(Platform::Windows, "C:\\data"),
        "C:\\data\\data\\database\\mailauncher.db"
    );
    assert_eq!(get_deployments_dir(Platform::Unix, "/data"), "/data/deployments");
    assert_eq!(get_log_dir(Platform::Unix, "/data"), "/data/data/Log/backend");
}

#[test]
fn engine_database_candidates_are_probed_in_order() {
    let cands = maibot_db_candidates(Platform::Unix, "/deploy", "inst1");
    assert_eq!(
        cands,
        vec![
            "/deploy/inst1/MaiBot/data/MaiBot.db".to_string(),
            "/deploy/inst1/MaiBot/data/maibot.db".to_string(),
            "/deploy/inst1/data/MaiBot.db".to_string(),
            "/deploy/inst1/data/maibot.db".to_string(),
        ]
    );
    // The first existing candidate wins.
    let r = find_maibot_db(Platform::Unix, "/deploy", "inst1", &vec![false, true, true, false]);
    assert_eq!(r.unwrap(), "/deploy/inst1/MaiBot/data/maibot.db");
    // No candidate: no database.
    assert_eq!(
        find_maibot_db(Platform::Unix, "/deploy", "inst1", &vec![false, false, false, false]),
        None
    );
    // A short probe counts the missing answers as absent.
    assert_eq!(find_maibot_db(Platform::Unix, "/deploy", "inst1", &vec![]), None);
}

#[test]
fn bridge_reacts_to_each_read_event() {
    match bridge_step(ReadEvent::Data("chunk".to_string())) {
        BridgeAction::Publish(text) => assert_eq!(text, "chunk"),
        other => panic!("expected Publish, got {:?}", other),
    }
    assert!(matches!(bridge_step(ReadEvent::Eof), BridgeAction::StopQuietly));
    assert!(matches!(
        bridge_step(ReadEvent::Failed { broken_pipe: true }),
        BridgeAction::StopQuietly
    ));
    assert!(matches!(
        bridge_step(ReadEvent::Failed { broken_pipe: false }),
        BridgeAction::StopWithWarning
    ));
}

#[test]
fn component_listing_follows_what_is_on_disk() {
    assert_eq!(
        available_components(true, true, true),
        vec![
            "MaiBot".to_string(),
            "NapCat".to_string(),
            "MaiBot-Napcat-Adapter".to_string(),
        ]
    );
    assert_eq!(available_components(true, false, true), vec![
        "MaiBot".to_string(),
        "MaiBot-Napcat-Adapter".to_string(),
    ]);
    assert_eq!(available_components(false, false, false), Vec::<String>::new());
}

#[test]
fn success_response_carries_its_message() {
    let r = SuccessResponse::ok("component started".to_string());
    assert!(r.success);
    assert_eq!(r.message, "component started");
}
