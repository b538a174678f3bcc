//! The records of what a viewer searched for and looked at. A record is
//! written once and never changed.

use crate::video::{Video, VideoView};
use vstd::prelude::*;

verus! {

/// One search of a viewer.
#[derive(Debug, PartialEq, Eq)]
pub struct SearchEntry {
    /// The store's own id of the record, once it has one.
    pub id: Option<String>,
    /// The store's id of the viewer.
    pub user: String,
    pub query: String,
    /// When the search was made, as the store writes instants.
    pub timestamp: String,
}

/// One interaction of a viewer with an item.
#[derive(Debug, PartialEq, Eq)]
pub struct InteractionEntry {
    /// The store's own id of the record, once it has one.
    pub id: Option<String>,
    /// The store's id of the viewer.
    pub user: String,
    pub video_id: String,
    pub video_title: String,
    /// What the viewer did, such as `click`.
    pub interaction_type: String,
    /// When it happened, as the store writes instants.
    pub timestamp: String,
}

impl SearchEntry {
    /// The record of a search that the store has not seen yet.
    pub fn new(user: String, query: String, timestamp: String) -> (entry: SearchEntry)
        ensures
            entry.id is None,
            entry.user@ == user@,
            entry.query@ == query@,
            entry.timestamp@ == timestamp@,
    {
        SearchEntry { id: None, user, query, timestamp }
    }
}

impl InteractionEntry {
    /// The record of an interaction with `video` that the store has not
    /// seen yet. It refers to the item by id and title.
    pub fn new(user: String, video: Video, interaction_type: String, timestamp: String) -> (entry:
        InteractionEntry)
        ensures
            entry.id is None,
            entry.user@ == user@,
            entry.video_id@ == video@.video_id,
            entry.video_title@ == video@.title,
            entry.interaction_type@ == interaction_type@,
            entry.timestamp@ == timestamp@,
    {
        InteractionEntry {
            id: None,
            user,
            video_id: video.video_id,
            video_title: video.title,
            interaction_type,
            timestamp,
        }
    }
}

} // verus!
