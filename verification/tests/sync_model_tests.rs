//! Tests of the sync payloads: validation, counts, planning and replies.

use mangayomi_server::config::collections::Collection;
use mangayomi_server::db::utils::{check_delete_ids, DbUtilError};
use mangayomi_server::diagnostics::LogLevel;
use mangayomi_server::sync::error::SyncError;
use mangayomi_server::sync::extractor::ValidatePayload;
use mangayomi_server::sync::handler::{sync_reply, SyncEndpointConfig, SyncReply, SyncResult};
use mangayomi_server::sync::history::model::{History, HistoryList};
use mangayomi_server::sync::manga::model::{Category, Chapter, Manga, MangaList, Track};
use mangayomi_server::sync::model::{Model, Syncable};
use mangayomi_server::sync::service::{
    plan_entity_sync, plan_manga_sync, plan_settings_sync, step_error, StepFailure, SyncList,
    SyncOp, SyncStep,
};
use mangayomi_server::sync::settings::model::{Settings, SettingsObj};
use mangayomi_server::sync::update::model::{Update, UpdateList};

fn history(id: i64) -> History {
    History { id, updated_at: 5, ..Default::default() }
}

fn step(collection: Collection, op: SyncOp) -> SyncStep {
    SyncStep { collection, op }
}

#[test]
fn test_history_list_validation_order() {
    let list = HistoryList { histories: vec![history(1), history(-4)], deleted_histories: vec![0], reset_all: None };
    assert_eq!(
        list.validate().unwrap_err(),
        "Invalid history ID: -4 (must be between 1 and 9223372036854775807)"
    );
    let list = HistoryList { histories: vec![history(1)], deleted_histories: vec![0], reset_all: None };
    assert_eq!(
        list.validate().unwrap_err(),
        "Invalid deleted history ID: 0 (must be between 1 and 9223372036854775807)"
    );
    let list = HistoryList { histories: vec![history(1)], deleted_histories: vec![2, 3], reset_all: Some(true) };
    assert!(list.validate().is_ok());
    assert_eq!(list.item_count(), 1);
    assert_eq!(list.modified_count(), 1);
}

#[test]
fn test_update_list_validation() {
    let list = UpdateList {
        updates: vec![Update { id: 3_000_000_000, updated_at: 1, ..Default::default() }],
        deleted_updates: (1..=10_001).collect(),
        reset_all: None,
    };
    assert_eq!(list.validate().unwrap_err(), "Too many deleted update: 10001 (max: 10000)");
}

#[test]
fn test_manga_list_validation_checks_deletions_first() {
    let list = MangaList {
        categories: vec![Category { id: 0, ..Default::default() }],
        deleted_tracks: vec![-1],
        ..Default::default()
    };
    assert_eq!(
        list.validate().unwrap_err(),
        "Invalid deleted track ID: -1 (must be between 1 and 9223372036854775807)"
    );
    let list = MangaList {
        manga: vec![Manga { id: 1, ..Default::default() }],
        chapters: vec![Chapter { id: 0, ..Default::default() }],
        tracks: vec![Track { id: 0, ..Default::default() }],
        ..Default::default()
    };
    assert_eq!(
        list.validate().unwrap_err(),
        "Invalid chapter ID: 0 (must be between 1 and 9223372036854775807)"
    );
    let list = MangaList {
        categories: vec![Category { id: 1, ..Default::default() }],
        manga: vec![Manga { id: 2, ..Default::default() }],
        chapters: vec![Chapter { id: 5_000_000_000, ..Default::default() }],
        tracks: vec![Track { id: 4, ..Default::default() }, Track { id: 5, ..Default::default() }],
        ..Default::default()
    };
    assert!(list.validate().is_ok());
    assert_eq!(list.item_count(), 5);
    assert_eq!(list.modified_count(), 5);
}

#[test]
fn test_settings_validation() {
    let none = SettingsObj { settings: None };
    assert!(none.validate().is_ok());
    assert_eq!(none.item_count(), 0);
    let bad_id = SettingsObj { settings: Some(Settings { id: 0, ..Default::default() }) };
    assert!(bad_id.validate().unwrap_err().starts_with("Invalid settings ID: 0"));
    let bad_time = SettingsObj { settings: Some(Settings { id: 227, updated_at: -1, ..Default::default() }) };
    assert_eq!(bad_time.validate().unwrap_err(), "Invalid updated_at timestamp");
    let good = SettingsObj { settings: Some(Settings { id: 227, updated_at: 0, ..Default::default() }) };
    assert!(good.validate().is_ok());
    assert_eq!(good.modified_count(), 1);
}

#[test]
fn test_models_report_id_timestamp_and_collection() {
    let c = Category { id: 9, updated_at: 11, ..Default::default() };
    assert_eq!(c.get_id(), 9);
    assert_eq!(c.get_updated_at(), 11);
    assert_eq!(Category::collection().name(), "categories");
    assert_eq!(Manga::collection().name(), "manga");
    assert_eq!(Chapter::collection().name(), "chapters");
    assert_eq!(Track::collection().name(), "tracks");
    assert_eq!(History::collection().name(), "histories");
    assert_eq!(Update::collection().name(), "updates");
    assert_eq!(Settings::collection().name(), "settings");
}

#[test]
fn test_entity_plan() {
    let list = HistoryList { histories: vec![history(1)], deleted_histories: vec![2], reset_all: None };
    assert_eq!(
        plan_entity_sync(&list),
        vec![
            step(Collection::Histories, SyncOp::Upsert),
            step(Collection::Histories, SyncOp::DeleteByIds),
            step(Collection::Histories, SyncOp::FetchAll),
        ]
    );
    let reset = HistoryList { histories: vec![], deleted_histories: vec![2], reset_all: Some(true) };
    assert_eq!(
        plan_entity_sync(&reset),
        vec![step(Collection::Histories, SyncOp::ResetAll), step(Collection::Histories, SyncOp::FetchAll)]
    );
    let explicit_false = UpdateList { updates: vec![], deleted_updates: vec![], reset_all: Some(false) };
    assert_eq!(plan_entity_sync(&explicit_false), vec![step(Collection::Updates, SyncOp::FetchAll)]);
}

#[test]
fn test_manga_plan() {
    let list = MangaList {
        manga: vec![Manga { id: 1, ..Default::default() }],
        deleted_tracks: vec![3],
        ..Default::default()
    };
    assert_eq!(
        plan_manga_sync(&list),
        vec![
            step(Collection::Manga, SyncOp::Upsert),
            step(Collection::Tracks, SyncOp::DeleteByIds),
            step(Collection::Categories, SyncOp::FetchAll),
            step(Collection::Manga, SyncOp::FetchAll),
            step(Collection::Chapters, SyncOp::FetchAll),
            step(Collection::Tracks, SyncOp::FetchAll),
        ]
    );
    let reset = MangaList { deleted_tracks: vec![3], reset_all: Some(true), ..Default::default() };
    let steps = plan_manga_sync(&reset);
    assert_eq!(steps.len(), 8);
    assert_eq!(steps[0], step(Collection::Categories, SyncOp::ResetAll));
    assert_eq!(steps[3], step(Collection::Tracks, SyncOp::ResetAll));
    assert!(steps.iter().all(|s| s.op != SyncOp::DeleteByIds));
}

#[test]
fn test_settings_plan() {
    let obj = SettingsObj { settings: Some(Settings { id: 1, ..Default::default() }) };
    assert_eq!(
        plan_settings_sync(&obj),
        vec![step(Collection::Settings, SyncOp::Upsert), step(Collection::Settings, SyncOp::FetchAll)]
    );
    assert_eq!(plan_settings_sync(&SettingsObj { settings: None }), vec![step(Collection::Settings, SyncOp::FetchAll)]);
}

#[test]
fn test_step_errors() {
    assert!(matches!(step_error(StepFailure::UpserterMissing), SyncError::NotInitialized));
    match step_error(StepFailure::UpsertError("boom".to_string())) {
        SyncError::UpsertFailed(m) => assert_eq!(m, "boom"),
        _ => panic!("wrong error"),
    }
    match step_error(StepFailure::Database(DbUtilError::DatabaseError("down".to_string()))) {
        SyncError::DatabaseError(m) => assert_eq!(m, "Database error: down"),
        _ => panic!("wrong error"),
    }
    assert_eq!(SyncError::NotInitialized.message(), "BulkUpserter not initialized");
    assert_eq!(SyncError::UpsertFailed("x".to_string()).message(), "Upsert failed: x");
    assert_eq!(SyncError::Timeout.message(), "Operation timed out");
}

#[test]
fn test_results_from_stored() {
    let list = HistoryList { histories: vec![history(1)], deleted_histories: vec![2], reset_all: Some(false) };
    let result = list.into_result(vec![history(4), history(5)]);
    assert_eq!(result.histories.len(), 2);
    assert!(result.deleted_histories.is_empty());
    assert_eq!(result.reset_all, Some(false));
    let manga = MangaList::from_stored(vec![], vec![Manga::default()], vec![], vec![], None);
    assert_eq!(manga.manga.len(), 1);
    assert!(manga.reset_all.is_none());
    let settings = SettingsObj::from_stored(vec![
        Settings { id: 7, ..Default::default() },
        Settings { id: 8, ..Default::default() },
    ]);
    assert_eq!(settings.settings.unwrap().id, 7);
    assert!(SettingsObj::from_stored(vec![]).settings.is_none());
}

#[test]
fn test_sync_reply() {
    let config = SyncEndpointConfig::new("history", "/histories");
    let list = HistoryList { histories: vec![history(1), history(2)], ..Default::default() };
    match sync_reply(config, Ok(list), 15) {
        SyncReply::Synced { result, log } => {
            assert_eq!(result.histories.len(), 2);
            assert_eq!(log.level, LogLevel::Info);
            assert_eq!(log.message, "[SYNC] history sync completed: 2 items processed in 15ms");
        }
        SyncReply::Failed { .. } => panic!("expected success"),
    }
    match sync_reply::<HistoryList>(config, Err(SyncError::DatabaseError("down".to_string())), 1) {
        SyncReply::Failed { body, log } => {
            assert_eq!(body.error, "Sync failed: Database error: down");
            assert_eq!(body.entity, "history");
            assert_eq!(log.level, LogLevel::Error);
            assert_eq!(log.message, "[SYNC] history sync failed: Database error: down");
        }
        SyncReply::Synced { .. } => panic!("expected failure"),
    }
}

#[test]
fn test_delete_ids_must_not_be_empty() {
    match check_delete_ids(&[]) {
        Err(DbUtilError::CollectionError(m)) => {
            assert_eq!(m, "ids cannot be empty - use delete_all_by_user to delete all documents")
        }
        _ => panic!("empty ids must be refused"),
    }
    assert!(check_delete_ids(&[1]).is_ok());
    assert_eq!(DbUtilError::Timeout.message(), "Operation timed out");
}
