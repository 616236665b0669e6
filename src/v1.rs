use crate::common::{DumpError, IndexMetadata, Timestamp, Version};
use crate::v2::Synonyms;
use vstd::prelude::*;

verus! {

/// A ranking rule of the first schema.
#[derive(Clone, Debug)]
pub enum RankingRule {
    Typo,
    Words,
    Proximity,
    Attribute,
    WordsPosition,
    Exactness,
    Asc(String),
    Desc(String),
}

/// A field of a partial settings update: set to a value, cleared, or left as it is.
#[derive(Clone, Debug)]
pub enum UpdateState<T> {
    Update(T),
    Clear,
    Nothing,
}

/// The settings of an index as the first schema stores them.
#[derive(Clone, Debug)]
pub struct Settings {
    pub ranking_rules: Option<Option<Vec<String>>>,
    pub distinct_attribute: Option<Option<String>>,
    pub searchable_attributes: Option<Option<Vec<String>>>,
    pub displayed_attributes: Option<Option<Vec<String>>>,
    pub stop_words: Option<Option<Vec<String>>>,
    pub synonyms: Option<Option<Synonyms>>,
    pub attributes_for_faceting: Option<Option<Vec<String>>>,
}

/// A partial settings update of the first schema.
#[derive(Clone, Debug)]
pub struct SettingsUpdate {
    pub ranking_rules: UpdateState<Vec<RankingRule>>,
    pub distinct_attribute: UpdateState<String>,
    pub primary_key: UpdateState<String>,
    pub searchable_attributes: UpdateState<Vec<String>>,
    pub displayed_attributes: UpdateState<Vec<String>>,
    pub stop_words: UpdateState<Vec<String>>,
    pub synonyms: UpdateState<Synonyms>,
    pub attributes_for_faceting: UpdateState<Vec<String>>,
}

/// The kind of an update of the first schema.
#[derive(Clone, Debug)]
pub enum UpdateType {
    ClearAll,
    Customs,
    DocumentsAddition { number: usize },
    DocumentsPartial { number: usize },
    DocumentsDeletion { number: usize },
    Settings { settings: Box<SettingsUpdate> },
}

/// An update that was still waiting in the queue.
#[derive(Clone, Debug)]
pub struct EnqueuedUpdate {
    pub update_id: u64,
    pub update_type: UpdateType,
    pub enqueued_at: Timestamp,
}

/// An update that was processed, successfully or not.
#[derive(Clone, Debug)]
pub struct ProcessedUpdate {
    pub update_id: u64,
    pub update_type: UpdateType,
    pub error: Option<String>,
    pub error_type: Option<String>,
    pub error_code: Option<String>,
    pub error_link: Option<String>,
    /// Time spent processing, in nanoseconds.
    pub duration_nanos: u128,
    pub enqueued_at: Timestamp,
    pub processed_at: Timestamp,
}

/// An entry of an index's update log in the first schema.
#[derive(Clone, Debug)]
pub enum UpdateStatus {
    Enqueued { content: EnqueuedUpdate },
    Failed { content: ProcessedUpdate },
    Processed { content: ProcessedUpdate },
}

/// What the first schema's reader gives of one index.
#[derive(Debug)]
pub struct V1IndexReader {
    pub metadata: IndexMetadata,
    pub settings: Result<Settings, DumpError>,
    /// The documents, each as its JSON text.
    pub documents: Result<Vec<String>, DumpError>,
    /// The update log, in the order it was recorded.
    pub tasks: Vec<Result<UpdateStatus, DumpError>>,
}

/// What the first schema's reader gives of a whole dump.
#[derive(Debug)]
pub struct V1Reader {
    pub version: Version,
    pub date: Option<Timestamp>,
    /// The names of the indexes, in listing order.
    pub index_uids: Vec<String>,
    /// The indexes in listing order, each opened or failed; or the failure to list them.
    pub indexes: Result<Vec<Result<V1IndexReader, DumpError>>, DumpError>,
}

} // verus!
