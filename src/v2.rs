use crate::common::Timestamp;
use vstd::prelude::*;

verus! {

/// The stable identifier of an index in the second schema, as its 128-bit value.
#[derive(Clone, Copy, Debug, PartialEq, Eq, Structural)]
pub struct Uuid {
    pub value: u128,
}

/// An index's name paired with its stable identifier.
#[derive(Clone, Debug)]
pub struct IndexUuid {
    pub uid: String,
    pub uuid: Uuid,
}

/// A ranking criterion of the second schema.
#[derive(Clone, Debug)]
pub enum Criterion {
    Words,
    Typo,
    Proximity,
    Attribute,
    Sort,
    Exactness,
    Asc(String),
    Desc(String),
}

pub open spec fn asc_suffix() -> Seq<char> {
    seq![':', 'a', 's', 'c']
}

pub open spec fn desc_suffix() -> Seq<char> {
    seq![':', 'd', 'e', 's', 'c']
}

/// The text under which a criterion is stored in the settings.
pub open spec fn criterion_text(c: Criterion) -> Seq<char> {
    match c {
        Criterion::Words => "words"@,
        Criterion::Typo => "typo"@,
        Criterion::Proximity => "proximity"@,
        Criterion::Attribute => "attribute"@,
        Criterion::Sort => "sort"@,
        Criterion::Exactness => "exactness"@,
        Criterion::Asc(f) => f@ + asc_suffix(),
        Criterion::Desc(f) => f@ + desc_suffix(),
    }
}

impl Criterion {
    /// The stored text of this criterion: its name, or `field:asc` / `field:desc`.
    pub fn to_text(&self) -> (r: String)
        ensures
            r@ == criterion_text(*self),
    {
        match self {
            Criterion::Words => String::from_str("words"),
            Criterion::Typo => String::from_str("typo"),
            Criterion::Proximity => String::from_str("proximity"),
            Criterion::Attribute => String::from_str("attribute"),
            Criterion::Sort => String::from_str("sort"),
            Criterion::Exactness => String::from_str("exactness"),
            Criterion::Asc(f) => {
                let r = f.clone().concat(":asc");
                proof {
                    reveal_strlit(":asc");
                    assert(":asc"@ =~= asc_suffix());
                }
                r
            },
            Criterion::Desc(f) => {
                let r = f.clone().concat(":desc");
                proof {
                    reveal_strlit(":desc");
                    assert(":desc"@ =~= desc_suffix());
                }
                r
            },
        }
    }
}

/// Settings that have not been through validation yet.
#[derive(Clone, Copy, Debug)]
pub struct Unchecked;

/// Settings that went through validation; only [`Settings::check`] makes this marker.
#[derive(Clone, Copy, Debug)]
pub struct Checked {
    sealed: (),
}

/// Synonyms: each word with the words that stand for it.
pub type Synonyms = Vec<(String, Vec<String>)>;

/// The search settings of an index. Each field is `None` when untouched, `Some(None)` when
/// reset to its default, and `Some(Some(v))` when set to `v`.
#[derive(Clone, Debug)]
pub struct Settings<S> {
    pub displayed_attributes: Option<Option<Vec<String>>>,
    pub searchable_attributes: Option<Option<Vec<String>>>,
    pub filterable_attributes: Option<Option<Vec<String>>>,
    pub ranking_rules: Option<Option<Vec<String>>>,
    pub stop_words: Option<Option<Vec<String>>>,
    pub synonyms: Option<Option<Synonyms>>,
    pub distinct_attribute: Option<Option<String>>,
    pub state: S,
}

/// Whether an attribute list holds the wildcard `*`.
pub open spec fn has_wildcard(fields: Seq<String>) -> bool {
    exists|i: int| 0 <= i < fields.len() && (#[trigger] fields[i])@ == "*"@
}

/// Validation of an attribute list: a list holding `*` means every attribute, i.e. the default.
pub open spec fn checked_attributes(f: Option<Option<Vec<String>>>) -> Option<Option<Vec<String>>> {
    match f {
        Some(Some(v)) => if has_wildcard(v@) {
            Some(None)
        } else {
            Some(Some(v))
        },
        _ => f,
    }
}

/// What validation makes of settings: the fields, with both attribute lists validated.
pub open spec fn is_checked_of<S, T>(s: Settings<S>, r: Settings<T>) -> bool {
    &&& r.displayed_attributes == checked_attributes(s.displayed_attributes)
    &&& r.searchable_attributes == checked_attributes(s.searchable_attributes)
    &&& r.filterable_attributes == s.filterable_attributes
    &&& r.ranking_rules == s.ranking_rules
    &&& r.stop_words == s.stop_words
    &&& r.synonyms == s.synonyms
    &&& r.distinct_attribute == s.distinct_attribute
}

fn check_attributes(f: Option<Option<Vec<String>>>) -> (r: Option<Option<Vec<String>>>)
    ensures
        r == checked_attributes(f),
{
    match f {
        Some(Some(v)) => {
            let star = String::from_str("*");
            let mut i: usize = 0;
            let mut found = false;
            while i < v.len()
                invariant
                    i <= v@.len(),
                    star@ == "*"@,
                    found == (exists|j: int| 0 <= j < i && (#[trigger] v@[j])@ == "*"@),
                decreases v@.len() - i,
            {
                if v[i] == star {
                    found = true;
                }
                i = i + 1;
            }
            if found {
                Some(None)
            } else {
                Some(Some(v))
            }
        },
        other => other,
    }
}

impl Settings<Unchecked> {
    /// Validates the settings: a displayed or searchable list holding `*` becomes a reset.
    pub fn check(self) -> (r: Settings<Checked>)
        ensures
            is_checked_of(self, r),
    {
        Settings {
            displayed_attributes: check_attributes(self.displayed_attributes),
            searchable_attributes: check_attributes(self.searchable_attributes),
            filterable_attributes: self.filterable_attributes,
            ranking_rules: self.ranking_rules,
            stop_words: self.stop_words,
            synonyms: self.synonyms,
            distinct_attribute: self.distinct_attribute,
            state: Checked { sealed: () },
        }
    }
}

/// Whether two settings hold the same fields, whatever their validation marker.
pub open spec fn same_fields<S, T>(a: Settings<S>, b: Settings<T>) -> bool {
    &&& a.displayed_attributes == b.displayed_attributes
    &&& a.searchable_attributes == b.searchable_attributes
    &&& a.filterable_attributes == b.filterable_attributes
    &&& a.ranking_rules == b.ranking_rules
    &&& a.stop_words == b.stop_words
    &&& a.synonyms == b.synonyms
    &&& a.distinct_attribute == b.distinct_attribute
}

impl Settings<Checked> {
    /// The same fields, marked as not validated, so that they can be edited and validated again.
    pub fn into_unchecked(self) -> (r: Settings<Unchecked>)
        ensures
            same_fields(r, self),
    {
        Settings {
            displayed_attributes: self.displayed_attributes,
            searchable_attributes: self.searchable_attributes,
            filterable_attributes: self.filterable_attributes,
            ranking_rules: self.ranking_rules,
            stop_words: self.stop_words,
            synonyms: self.synonyms,
            distinct_attribute: self.distinct_attribute,
            state: Unchecked,
        }
    }
}

/// Validation is idempotent: validating settings that were validated already, with their
/// marker reset, gives the same fields as validating once.
pub proof fn lemma_check_idempotent(
    s: Settings<Unchecked>,
    once: Settings<Checked>,
    again: Settings<Unchecked>,
    twice: Settings<Checked>,
)
    requires
        is_checked_of(s, once),
        same_fields(again, once),
        is_checked_of(again, twice),
    ensures
        same_fields(twice, once),
{
}

/// How an addition of documents treats documents that exist already.
#[derive(Clone, Copy, Debug, PartialEq, Eq, Structural)]
pub enum IndexDocumentsMethod {
    /// Replace an existing document by the new one.
    ReplaceDocuments,
    /// Merge the new fields into an existing document.
    UpdateDocuments,
}

/// The format of the documents of an addition.
#[derive(Clone, Copy, Debug, PartialEq, Eq, Structural)]
pub enum UpdateFormat {
    Json,
    Csv,
    JsonStream,
}

/// What kind of job an update was.
#[derive(Clone, Debug)]
pub enum UpdateMeta {
    DocumentsAddition { method: IndexDocumentsMethod, format: UpdateFormat, primary_key: Option<String> },
    ClearDocuments,
    DeleteDocuments { ids: Vec<String> },
    Settings(Settings<Unchecked>),
}

/// An update as it was enqueued.
#[derive(Clone, Debug)]
pub struct Enqueued {
    pub update_id: u64,
    pub meta: UpdateMeta,
    pub enqueued_at: Timestamp,
    /// The identifier of the file that holds the update's payload, if there is one.
    pub content: Option<Uuid>,
}

/// An update whose processing started.
#[derive(Clone, Debug)]
pub struct Processing {
    pub from: Enqueued,
    pub started_processing_at: Timestamp,
}

/// The error that made an update fail.
#[derive(Clone, Debug)]
pub struct ResponseError {
    /// The protocol status code.
    pub code: u16,
    pub message: String,
    pub error_code: String,
    pub error_type: String,
    pub error_link: String,
}

/// An update that failed.
#[derive(Clone, Debug)]
pub struct Failed {
    pub from: Processing,
    pub error: ResponseError,
    pub failed_at: Timestamp,
}

/// The number of documents an addition brought.
#[derive(Clone, Copy, Debug, PartialEq, Eq, Structural)]
pub struct DocumentAdditionResult {
    pub nb_documents: usize,
}

/// The outcome of a processed update.
#[derive(Clone, Copy, Debug, PartialEq, Eq, Structural)]
pub enum UpdateResult {
    DocumentsAddition(DocumentAdditionResult),
    DocumentDeletion { deleted: u64 },
    Other,
}

/// An update that was processed successfully.
#[derive(Clone, Debug)]
pub struct Processed {
    pub success: UpdateResult,
    pub processed_at: Timestamp,
    pub from: Processing,
}

/// The state of an update in the second schema.
#[derive(Clone, Debug)]
pub enum UpdateStatus {
    Processing(Processing),
    Enqueued(Enqueued),
    Processed(Processed),
    Failed(Failed),
}

/// One job of the second schema, with the identifier of the index it belongs to.
#[derive(Clone, Debug)]
pub struct Task {
    pub uuid: Uuid,
    pub update: UpdateStatus,
}

} // verus!
