use vstd::prelude::*;

verus! {

/// A point in time, as nanoseconds since the Unix epoch (UTC).
#[derive(Clone, Copy, Debug, PartialEq, Eq, Structural)]
pub struct Timestamp {
    pub unix_nanos: i128,
}

/// The schema version that a dump declares.
#[derive(Clone, Copy, Debug, PartialEq, Eq, Structural)]
pub enum Version {
    V1,
    V2,
    V3,
    V4,
    V5,
    V6,
}

/// A hard error: the element of a sequence that it stands for could not be read.
#[derive(Clone, Copy, Debug, PartialEq, Eq, Structural)]
pub enum DumpError {
    /// The underlying archive could not be read.
    Io,
    /// A record of the archive is not in the shape its version prescribes.
    MalformedRecord,
    /// The dump's version is outside the supported range.
    UnsupportedVersion,
    /// The start of processing of this update lies before the earliest representable instant.
    TimestampOutOfRange { update_id: u64 },
}

/// A soft incompatibility, resolved by a fixed rule and reported on the side.
#[derive(Clone, Debug)]
pub enum Warning {
    /// An enqueued update cannot be carried over and was skipped.
    EnqueuedTaskSkipped { update_id: u64 },
    /// An update of the discontinued "customs" kind was skipped.
    CustomsTaskIgnored,
    /// The discontinued `wordsPosition` ranking rule was removed from this index's rules.
    WordsPositionRemoved { index: String },
}

/// What the dump records about one index.
#[derive(Clone, Debug)]
pub struct IndexMetadata {
    pub uid: String,
    pub primary_key: Option<String>,
    pub created_at: Timestamp,
    pub updated_at: Timestamp,
}

} // verus!
