//! MongoDB collection names (the single source of truth).

use vstd::prelude::*;

verus! {

pub const USERS: &'static str = "users";
pub const CATEGORIES: &'static str = "categories";
pub const MANGA: &'static str = "manga";
pub const CHAPTERS: &'static str = "chapters";
pub const TRACKS: &'static str = "tracks";
pub const HISTORIES: &'static str = "histories";
pub const UPDATES: &'static str = "updates";
pub const SETTINGS: &'static str = "settings";

} // verus!

verus! {

/// The collections of the database.
#[derive(PartialEq, Eq, Structural, Clone, Copy, Debug)]
pub enum Collection {
    Users,
    Categories,
    Manga,
    Chapters,
    Tracks,
    Histories,
    Updates,
    Settings,
}

/// The name under which a collection is stored.
pub open spec fn collection_name(c: Collection) -> Seq<char> {
    match c {
        Collection::Users => USERS@,
        Collection::Categories => CATEGORIES@,
        Collection::Manga => MANGA@,
        Collection::Chapters => CHAPTERS@,
        Collection::Tracks => TRACKS@,
        Collection::Histories => HISTORIES@,
        Collection::Updates => UPDATES@,
        Collection::Settings => SETTINGS@,
    }
}

impl Collection {
    /// The name under which this collection is stored.
    pub fn name(&self) -> (r: &'static str)
        ensures
            r@ == collection_name(*self),
    {
        match self {
            Collection::Users => USERS,
            Collection::Categories => CATEGORIES,
            Collection::Manga => MANGA,
            Collection::Chapters => CHAPTERS,
            Collection::Tracks => TRACKS,
            Collection::Histories => HISTORIES,
            Collection::Updates => UPDATES,
            Collection::Settings => SETTINGS,
        }
    }
}

} // verus!
