//! The library entities (categories, manga, chapters, trackers) and their
//! combined sync payload.

use vstd::prelude::*;
use crate::config::collections::Collection;
use crate::oid::Oid;
use crate::sync::extractor::ValidatePayload;
use crate::sync::handler::SyncResult;
use crate::sync::model::{Model, Syncable, model_ids};
use crate::config::sync;
use crate::sync::validation::{
    deleted_ids_check, ids_check, lemma_deleted_ids_check_ok, lemma_model_ids_check_ok, then_check,
    validate_deleted_ids, validate_model_ids,
};

verus! {

/// A library category.
#[derive(Clone, Debug, PartialEq, Eq, Default)]
pub struct Category {
    pub oid: Option<Oid>,
    pub id: i64,
    pub name: String,
    pub for_item_type: i64,
    pub pos: Option<i64>,
    pub hide: Option<bool>,
    pub should_update: Option<bool>,
    pub user: Option<Oid>,
    pub updated_at: i64,
}

/// A library entry.
#[derive(Clone, Debug, PartialEq, Eq, Default)]
pub struct Manga {
    pub oid: Option<Oid>,
    pub id: i64,
    pub name: String,
    pub link: String,
    pub image_url: String,
    pub description: Option<String>,
    pub author: Option<String>,
    pub artist: Option<String>,
    pub status: i64,
    pub favorite: bool,
    pub source: String,
    pub source_id: Option<i64>,
    pub lang: String,
    pub date_added: Option<i64>,
    pub last_update: Option<i64>,
    pub last_read: Option<i64>,
    pub is_local_archive: Option<bool>,
    pub custom_cover_from_tracker: Option<String>,
    pub item_type: i64,
    pub genre: Option<Vec<String>>,
    pub categories: Option<Vec<i64>>,
    pub user: Option<Oid>,
    pub updated_at: i64,
}

/// A chapter of a library entry.
#[derive(Clone, Debug, PartialEq, Eq, Default)]
pub struct Chapter {
    pub oid: Option<Oid>,
    pub id: i64,
    pub name: String,
    pub url: Option<String>,
    pub date_upload: Option<String>,
    pub scanlator: Option<String>,
    pub is_bookmarked: Option<bool>,
    pub is_read: Option<bool>,
    pub last_page_read: Option<String>,
    pub archive_path: Option<String>,
    pub manga_id: i64,
    pub user: Option<Oid>,
    pub updated_at: i64,
}

/// A tracker binding of a library entry.
#[derive(Clone, Debug, PartialEq, Eq, Default)]
pub struct Track {
    pub oid: Option<Oid>,
    pub id: i64,
    pub library_id: Option<i64>,
    pub media_id: Option<i64>,
    pub manga_id: Option<i64>,
    pub score: Option<i64>,
    pub started_reading_date: Option<i64>,
    pub finished_reading_date: Option<i64>,
    pub last_chapter_read: Option<i64>,
    pub status: Option<i64>,
    pub sync_id: Option<i64>,
    pub title: Option<String>,
    pub total_chapter: Option<i64>,
    pub tracking_url: Option<String>,
    pub is_manga: Option<bool>,
    pub item_type: i64,
    pub user: Option<Oid>,
    pub updated_at: i64,
}

impl Model for Category {
    open spec fn spec_id(&self) -> i64 { self.id }
    open spec fn spec_updated_at(&self) -> i64 { self.updated_at }
    fn get_id(&self) -> (r: i64) { self.id }
    fn get_updated_at(&self) -> (r: i64) { self.updated_at }
}

impl Syncable for Category {
    open spec fn spec_collection() -> Collection { Collection::Categories }
    fn collection() -> (c: Collection) { Collection::Categories }
}

impl Model for Manga {
    open spec fn spec_id(&self) -> i64 { self.id }
    open spec fn spec_updated_at(&self) -> i64 { self.updated_at }
    fn get_id(&self) -> (r: i64) { self.id }
    fn get_updated_at(&self) -> (r: i64) { self.updated_at }
}

impl Syncable for Manga {
    open spec fn spec_collection() -> Collection { Collection::Manga }
    fn collection() -> (c: Collection) { Collection::Manga }
}

impl Model for Chapter {
    open spec fn spec_id(&self) -> i64 { self.id }
    open spec fn spec_updated_at(&self) -> i64 { self.updated_at }
    fn get_id(&self) -> (r: i64) { self.id }
    fn get_updated_at(&self) -> (r: i64) { self.updated_at }
}

impl Syncable for Chapter {
    open spec fn spec_collection() -> Collection { Collection::Chapters }
    fn collection() -> (c: Collection) { Collection::Chapters }
}

impl Model for Track {
    open spec fn spec_id(&self) -> i64 { self.id }
    open spec fn spec_updated_at(&self) -> i64 { self.updated_at }
    fn get_id(&self) -> (r: i64) { self.id }
    fn get_updated_at(&self) -> (r: i64) { self.updated_at }
}

impl Syncable for Track {
    open spec fn spec_collection() -> Collection { Collection::Tracks }
    fn collection() -> (c: Collection) { Collection::Tracks }
}

/// The manga sync payload, which carries four entity types stored in four
/// collections: entities to upsert and IDs to delete for each, and whether
/// the stored entities are to be replaced.
#[derive(Default)]
pub struct MangaList {
    pub categories: Vec<Category>,
    pub deleted_categories: Vec<i64>,
    pub manga: Vec<Manga>,
    pub deleted_manga: Vec<i64>,
    pub chapters: Vec<Chapter>,
    pub deleted_chapters: Vec<i64>,
    pub tracks: Vec<Track>,
    pub deleted_tracks: Vec<i64>,
    pub reset_all: Option<bool>,
}

/// The number of entities that a manga payload carries.
pub open spec fn manga_list_count(l: MangaList) -> nat {
    l.categories@.len() + l.manga@.len() + l.chapters@.len() + l.tracks@.len()
}

impl ValidatePayload for MangaList {
    open spec fn spec_item_count(&self) -> nat {
        manga_list_count(*self)
    }

    /// The deleted IDs of each type (count, then IDs), then the entity IDs of
    /// each type, in the order categories, manga, chapters, tracks.
    open spec fn spec_validation(&self) -> Result<(), Seq<char>> {
        then_check(deleted_ids_check(self.deleted_categories@, "category"@),
        then_check(deleted_ids_check(self.deleted_manga@, "manga"@),
        then_check(deleted_ids_check(self.deleted_chapters@, "chapter"@),
        then_check(deleted_ids_check(self.deleted_tracks@, "track"@),
        then_check(ids_check(model_ids(self.categories@), "category"@),
        then_check(ids_check(model_ids(self.manga@), "manga"@),
        then_check(ids_check(model_ids(self.chapters@), "chapter"@),
        ids_check(model_ids(self.tracks@), "track"@))))))))
    }

    fn item_count(&self) -> (n: usize) {
        self.categories.len() + self.manga.len() + self.chapters.len() + self.tracks.len()
    }

    fn validate(&self) -> (r: Result<(), String>) {
        match validate_deleted_ids(self.deleted_categories.as_slice(), "category") {
            Ok(()) => {},
            Err(e) => { return Err(e); },
        }
        match validate_deleted_ids(self.deleted_manga.as_slice(), "manga") {
            Ok(()) => {},
            Err(e) => { return Err(e); },
        }
        match validate_deleted_ids(self.deleted_chapters.as_slice(), "chapter") {
            Ok(()) => {},
            Err(e) => { return Err(e); },
        }
        match validate_deleted_ids(self.deleted_tracks.as_slice(), "track") {
            Ok(()) => {},
            Err(e) => { return Err(e); },
        }
        match validate_model_ids(self.categories.as_slice(), "category") {
            Ok(()) => {},
            Err(e) => { return Err(e); },
        }
        match validate_model_ids(self.manga.as_slice(), "manga") {
            Ok(()) => {},
            Err(e) => { return Err(e); },
        }
        match validate_model_ids(self.chapters.as_slice(), "chapter") {
            Ok(()) => {},
            Err(e) => { return Err(e); },
        }
        validate_model_ids(self.tracks.as_slice(), "track")
    }
}

impl SyncResult for MangaList {
    open spec fn spec_modified_count(&self) -> nat {
        manga_list_count(*self)
    }

    fn modified_count(&self) -> (n: usize) {
        self.categories.len() + self.manga.len() + self.chapters.len() + self.tracks.len()
    }
}

/// Validation of a manga payload: it is accepted exactly when each of its
/// four lists of IDs to delete holds at most `MAX_DELETED_ITEMS` IDs, and
/// every ID, of a category, manga, chapter or tracker and of each entity to
/// delete, lies in `[MIN_ID_VALUE, MAX_ID_VALUE]`.
pub proof fn lemma_manga_validation_ok(l: MangaList)
    ensures
        l.spec_validation() is Ok <==> {
            &&& l.deleted_categories@.len() <= sync::MAX_DELETED_ITEMS
            &&& l.deleted_manga@.len() <= sync::MAX_DELETED_ITEMS
            &&& l.deleted_chapters@.len() <= sync::MAX_DELETED_ITEMS
            &&& l.deleted_tracks@.len() <= sync::MAX_DELETED_ITEMS
            &&& forall|i: int| 0 <= i < l.deleted_categories@.len()
                ==> sync::MIN_ID_VALUE <= #[trigger] l.deleted_categories@[i] <= sync::MAX_ID_VALUE
            &&& forall|i: int| 0 <= i < l.deleted_manga@.len()
                ==> sync::MIN_ID_VALUE <= #[trigger] l.deleted_manga@[i] <= sync::MAX_ID_VALUE
            &&& forall|i: int| 0 <= i < l.deleted_chapters@.len()
                ==> sync::MIN_ID_VALUE <= #[trigger] l.deleted_chapters@[i] <= sync::MAX_ID_VALUE
            &&& forall|i: int| 0 <= i < l.deleted_tracks@.len()
                ==> sync::MIN_ID_VALUE <= #[trigger] l.deleted_tracks@[i] <= sync::MAX_ID_VALUE
            &&& forall|i: int| 0 <= i < l.categories@.len()
                ==> sync::MIN_ID_VALUE <= (#[trigger] l.categories@[i]).id <= sync::MAX_ID_VALUE
            &&& forall|i: int| 0 <= i < l.manga@.len()
                ==> sync::MIN_ID_VALUE <= (#[trigger] l.manga@[i]).id <= sync::MAX_ID_VALUE
            &&& forall|i: int| 0 <= i < l.chapters@.len()
                ==> sync::MIN_ID_VALUE <= (#[trigger] l.chapters@[i]).id <= sync::MAX_ID_VALUE
            &&& forall|i: int| 0 <= i < l.tracks@.len()
                ==> sync::MIN_ID_VALUE <= (#[trigger] l.tracks@[i]).id <= sync::MAX_ID_VALUE
        },
{
    lemma_deleted_ids_check_ok(l.deleted_categories@, "category"@);
    lemma_deleted_ids_check_ok(l.deleted_manga@, "manga"@);
    lemma_deleted_ids_check_ok(l.deleted_chapters@, "chapter"@);
    lemma_deleted_ids_check_ok(l.deleted_tracks@, "track"@);
    lemma_model_ids_check_ok(l.categories@, "category"@);
    lemma_model_ids_check_ok(l.manga@, "manga"@);
    lemma_model_ids_check_ok(l.chapters@, "chapter"@);
    lemma_model_ids_check_ok(l.tracks@, "track"@);
}

} // verus!
