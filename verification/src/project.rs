use vstd::prelude::*;

verus! {

/// The metadata record of one processed recording, as the persistence
/// layer stores it: identifiers, the project's place on disk, and the
/// recording's date, kind and language.  The library only carries the
/// record; storing it is its callers' business.
#[derive(Debug)]
pub struct AudioProject {
    /// Unique id of the project.
    pub id: String,
    /// Id of the group the project belongs to.
    pub group_id: String,
    /// Display name.
    pub name: String,
    /// Where the project's files live, relative to the data directory.
    pub relative_path: String,
    /// When the recording was made.
    pub date: String,
    /// What kind of recording this is, e.g. a meeting.
    pub project_type: String,
    /// Language of the recording.
    pub language: String,
}

} // verus!
