use crate::common::{DumpError, Timestamp, Warning};
use crate::settings::{settings_from_update, update_translated, update_warnings};
use crate::v1::{self, ProcessedUpdate, UpdateType};
use crate::v2::{
    DocumentAdditionResult, Enqueued, Failed, IndexDocumentsMethod, Processed, Processing,
    ResponseError, UpdateFormat, UpdateMeta, UpdateResult,
};
use vstd::prelude::*;

verus! {

/// Whether `m` is what the update kind `t` becomes; the discontinued "customs" kind becomes nothing.
pub open spec fn meta_translated(t: UpdateType, m: Option<UpdateMeta>) -> bool {
    match t {
        UpdateType::ClearAll => m == Some(UpdateMeta::ClearDocuments),
        UpdateType::Customs => m is None,
        UpdateType::DocumentsAddition { .. } => m == Some(
            UpdateMeta::DocumentsAddition {
                method: IndexDocumentsMethod::ReplaceDocuments,
                format: UpdateFormat::Json,
                primary_key: None,
            },
        ),
        UpdateType::DocumentsPartial { .. } => m == Some(
            UpdateMeta::DocumentsAddition {
                method: IndexDocumentsMethod::UpdateDocuments,
                format: UpdateFormat::Json,
                primary_key: None,
            },
        ),
        UpdateType::DocumentsDeletion { .. } => match m {
            Some(UpdateMeta::DeleteDocuments { ids }) => ids@.len() == 0,
            _ => false,
        },
        UpdateType::Settings { settings } => match m {
            Some(UpdateMeta::Settings(s)) => update_translated(*settings, s),
            _ => false,
        },
    }
}

/// The warnings that translating the update kind `t` of the index `uid` reports.
pub open spec fn meta_warnings(uid: String, t: UpdateType) -> Seq<Warning> {
    match t {
        UpdateType::Customs => seq![Warning::CustomsTaskIgnored],
        UpdateType::Settings { settings } => update_warnings(uid, *settings),
        _ => seq![],
    }
}

/// Translates the kind of an update of the index `uid`.
pub fn meta_of(t: UpdateType, uid: &String, warnings: &mut Vec<Warning>) -> (r: Option<UpdateMeta>)
    ensures
        meta_translated(t, r),
        final(warnings)@ == old(warnings)@ + meta_warnings(*uid, t),
{
    match t {
        UpdateType::ClearAll => {
            assert(warnings@ =~= old(warnings)@ + Seq::<Warning>::empty());
            Some(UpdateMeta::ClearDocuments)
        },
        UpdateType::Customs => {
            warnings.push(Warning::CustomsTaskIgnored);
            assert(warnings@ =~= old(warnings)@ + seq![Warning::CustomsTaskIgnored]);
            None
        },
        UpdateType::DocumentsAddition { .. } => {
            assert(warnings@ =~= old(warnings)@ + Seq::<Warning>::empty());
            Some(
                UpdateMeta::DocumentsAddition {
                    method: IndexDocumentsMethod::ReplaceDocuments,
                    format: UpdateFormat::Json,
                    primary_key: None,
                },
            )
        },
        UpdateType::DocumentsPartial { .. } => {
            assert(warnings@ =~= old(warnings)@ + Seq::<Warning>::empty());
            Some(
                UpdateMeta::DocumentsAddition {
                    method: IndexDocumentsMethod::UpdateDocuments,
                    format: UpdateFormat::Json,
                    primary_key: None,
                },
            )
        },
        UpdateType::DocumentsDeletion { .. } => {
            assert(warnings@ =~= old(warnings)@ + Seq::<Warning>::empty());
            Some(UpdateMeta::DeleteDocuments { ids: Vec::new() })
        },
        UpdateType::Settings { settings } => {
            Some(UpdateMeta::Settings(settings_from_update(*settings, uid, warnings)))
        },
    }
}

/// The outcome that a processed update of kind `t` reports. A clear reports the largest
/// count, as the number of documents it removed was not recorded.
pub open spec fn success_spec(t: UpdateType) -> UpdateResult {
    match t {
        UpdateType::ClearAll => UpdateResult::DocumentDeletion { deleted: u64::MAX },
        UpdateType::Customs => UpdateResult::Other,
        UpdateType::DocumentsAddition { number } => UpdateResult::DocumentsAddition(
            DocumentAdditionResult { nb_documents: number },
        ),
        UpdateType::DocumentsPartial { number } => UpdateResult::DocumentsAddition(
            DocumentAdditionResult { nb_documents: number },
        ),
        UpdateType::DocumentsDeletion { number } => UpdateResult::DocumentDeletion {
            deleted: number as u64,
        },
        UpdateType::Settings { .. } => UpdateResult::Other,
    }
}

/// The outcome of a processed update of kind `t`.
pub fn success_of(t: &UpdateType) -> (r: UpdateResult)
    ensures
        r == success_spec(*t),
{
    match t {
        UpdateType::ClearAll => UpdateResult::DocumentDeletion { deleted: u64::MAX },
        UpdateType::Customs => UpdateResult::Other,
        UpdateType::DocumentsAddition { number } => UpdateResult::DocumentsAddition(
            DocumentAdditionResult { nb_documents: *number },
        ),
        UpdateType::DocumentsPartial { number } => UpdateResult::DocumentsAddition(
            DocumentAdditionResult { nb_documents: *number },
        ),
        UpdateType::DocumentsDeletion { number } => UpdateResult::DocumentDeletion {
            deleted: *number as u64,
        },
        UpdateType::Settings { .. } => UpdateResult::Other,
    }
}

/// Relies on `http::StatusCode`'s `Default`, which is `StatusCode::OK`, and on `as_u16`,
/// which gives its number: the default status code is 200.
#[verifier::external_body]
fn default_status_code() -> (r: u16)
    ensures
        r == 200,
{
    http::StatusCode::default().as_u16()
}

/// The earliest instant that a date of the service can hold, -9999-01-01T00:00:00Z, in
/// nanoseconds since the Unix epoch.
pub const MIN_INSTANT_NANOS: i128 = -377_705_116_800_000_000_000;

/// The instant processing started, `processed_at - duration`, as an exact integer.
pub open spec fn start_of(c: ProcessedUpdate) -> int {
    c.processed_at.unix_nanos - c.duration_nanos
}

/// Whether the start of processing of `c` is an instant that a date can hold.
pub open spec fn start_in_range(c: ProcessedUpdate) -> bool {
    start_of(c) >= MIN_INSTANT_NANOS
}

/// Computes `processed_at - duration`, or fails when that lies before the earliest instant
/// that a date can hold.
pub fn start_time(processed_at: Timestamp, duration_nanos: u128, update_id: u64) -> (r: Result<
    Timestamp,
    DumpError,
>)
    ensures
        processed_at.unix_nanos - duration_nanos >= MIN_INSTANT_NANOS ==> r == Ok::<Timestamp, DumpError>(
            Timestamp { unix_nanos: (processed_at.unix_nanos - duration_nanos) as i128 },
        ),
        processed_at.unix_nanos - duration_nanos < MIN_INSTANT_NANOS ==> r == Err::<Timestamp, DumpError>(
            DumpError::TimestampOutOfRange { update_id },
        ),
{
    let t = processed_at.unix_nanos;
    if t < MIN_INSTANT_NANOS {
        return Err(DumpError::TimestampOutOfRange { update_id });
    }
    // The room between `processed_at` and the earliest instant.
    let room: u128 = if t >= 0 {
        t as u128 + 377_705_116_800_000_000_000u128
    } else {
        (t - MIN_INSTANT_NANOS) as u128
    };
    if duration_nanos > room {
        return Err(DumpError::TimestampOutOfRange { update_id });
    }
    if duration_nanos > i128::MAX as u128 {
        // Here `processed_at - duration` is `(processed_at - excess) + i128::MIN`.
        let excess = (duration_nanos - (i128::MAX as u128) - 1) as i128;
        Ok(Timestamp { unix_nanos: (t - excess) + i128::MIN })
    } else {
        Ok(Timestamp { unix_nanos: t - duration_nanos as i128 })
    }
}

/// The text of an optional field, or the empty text.
pub open spec fn text_or_empty(o: Option<String>) -> Seq<char> {
    match o {
        Some(s) => s@,
        None => Seq::empty(),
    }
}

fn or_empty(o: Option<String>) -> (r: String)
    ensures
        r@ == text_or_empty(o),
{
    match o {
        Some(s) => s,
        None => String::new(),
    }
}

/// Whether `p` is the processing state that the processed update `c` is re-expressed as.
pub open spec fn processing_translated(c: ProcessedUpdate, p: Processing) -> bool {
    &&& p.from.update_id == c.update_id
    &&& meta_translated(c.update_type, Some(p.from.meta))
    &&& p.from.enqueued_at == c.enqueued_at
    &&& p.from.content is None
    &&& p.started_processing_at.unix_nanos == start_of(c)
}

/// Whether `e` is the error that the failed update `c` reports: the texts it recorded, empty
/// where absent, and the default status code.
pub open spec fn error_translated(c: ProcessedUpdate, e: ResponseError) -> bool {
    &&& e.code == 200
    &&& e.message@ == text_or_empty(c.error)
    &&& e.error_code@ == text_or_empty(c.error_code)
    &&& e.error_type@ == text_or_empty(c.error_type)
    &&& e.error_link@ == text_or_empty(c.error_link)
}

/// Whether an update status translates to something: neither enqueued nor of the "customs" kind.
pub open spec fn status_kept(s: v1::UpdateStatus) -> bool {
    match s {
        v1::UpdateStatus::Enqueued { .. } => false,
        v1::UpdateStatus::Failed { content } => !(content.update_type is Customs),
        v1::UpdateStatus::Processed { content } => !(content.update_type is Customs),
    }
}

/// Whether `r` is what the update status `s` becomes: nothing for a dropped update, an error
/// when the start of processing cannot be represented, else the translated status.
pub open spec fn status_translated(s: v1::UpdateStatus, r: Result<Option<crate::v2::UpdateStatus>, DumpError>) -> bool {
    match s {
        v1::UpdateStatus::Enqueued { .. } => r == Ok::<Option<crate::v2::UpdateStatus>, DumpError>(None),
        v1::UpdateStatus::Failed { content: c } => if c.update_type is Customs {
            r == Ok::<Option<crate::v2::UpdateStatus>, DumpError>(None)
        } else if !start_in_range(c) {
            r == Err::<Option<crate::v2::UpdateStatus>, DumpError>(DumpError::TimestampOutOfRange { update_id: c.update_id })
        } else {
            match r {
                Ok(Some(crate::v2::UpdateStatus::Failed(f))) => {
                    &&& processing_translated(c, f.from)
                    &&& error_translated(c, f.error)
                    &&& f.failed_at == c.processed_at
                },
                _ => false,
            }
        },
        v1::UpdateStatus::Processed { content: c } => if c.update_type is Customs {
            r == Ok::<Option<crate::v2::UpdateStatus>, DumpError>(None)
        } else if !start_in_range(c) {
            r == Err::<Option<crate::v2::UpdateStatus>, DumpError>(DumpError::TimestampOutOfRange { update_id: c.update_id })
        } else {
            match r {
                Ok(Some(crate::v2::UpdateStatus::Processed(p))) => {
                    &&& processing_translated(c, p.from)
                    &&& p.success == success_spec(c.update_type)
                    &&& p.processed_at == c.processed_at
                },
                _ => false,
            }
        },
    }
}

/// The warnings that translating the update status `s` of the index `uid` reports.
pub open spec fn status_warnings(uid: String, s: v1::UpdateStatus) -> Seq<Warning> {
    match s {
        v1::UpdateStatus::Enqueued { content } => seq![Warning::EnqueuedTaskSkipped { update_id: content.update_id }],
        v1::UpdateStatus::Failed { content } => meta_warnings(uid, content.update_type),
        v1::UpdateStatus::Processed { content } => meta_warnings(uid, content.update_type),
    }
}

/// Translates one entry of the update log of the index `uid`. Enqueued updates, whose payload
/// the first schema did not keep, and updates of the discontinued "customs" kind are dropped
/// with a warning; the others get a synthesized enqueued and processing history.
pub fn status_of(s: v1::UpdateStatus, uid: &String, warnings: &mut Vec<Warning>) -> (r: Result<Option<crate::v2::UpdateStatus>, DumpError>)
    ensures
        status_translated(s, r),
        final(warnings)@ == old(warnings)@ + status_warnings(*uid, s),
{
    match s {
        v1::UpdateStatus::Enqueued { content } => {
            let w = Warning::EnqueuedTaskSkipped { update_id: content.update_id };
            warnings.push(w);
            assert(warnings@ =~= old(warnings)@ + seq![w]);
            Ok(None)
        },
        v1::UpdateStatus::Failed { content } => {
            let ProcessedUpdate {
                update_id, update_type, error, error_type, error_code, error_link,
                duration_nanos, enqueued_at, processed_at,
            } = content;
            let meta = match meta_of(update_type, uid, warnings) {
                Some(m) => m,
                None => return Ok(None),
            };
            let started = match start_time(processed_at, duration_nanos, update_id) {
                Ok(t) => t,
                Err(e) => return Err(e),
            };
            let code = default_status_code();
            Ok(Some(crate::v2::UpdateStatus::Failed(Failed {
                from: Processing {
                    from: Enqueued { update_id, meta, enqueued_at, content: None },
                    started_processing_at: started,
                },
                error: ResponseError {
                    code,
                    message: or_empty(error),
                    error_code: or_empty(error_code),
                    error_type: or_empty(error_type),
                    error_link: or_empty(error_link),
                },
                failed_at: processed_at,
            })))
        },
        v1::UpdateStatus::Processed { content } => {
            let success = success_of(&content.update_type);
            let ProcessedUpdate { update_id, update_type, enqueued_at, processed_at, duration_nanos, .. } = content;
            let meta = match meta_of(update_type, uid, warnings) {
                Some(m) => m,
                None => return Ok(None),
            };
            let started = match start_time(processed_at, duration_nanos, update_id) {
                Ok(t) => t,
                Err(e) => return Err(e),
            };
            Ok(Some(crate::v2::UpdateStatus::Processed(Processed {
                success,
                processed_at,
                from: Processing {
                    from: Enqueued { update_id, meta, enqueued_at, content: None },
                    started_processing_at: started,
                },
            })))
        },
    }
}

/// A failed update that is translated started processing exactly its duration before it
/// was processed.
pub proof fn lemma_failed_start(c: ProcessedUpdate, r: Result<Option<crate::v2::UpdateStatus>, DumpError>)
    requires
        status_translated(v1::UpdateStatus::Failed { content: c }, r),
        !(c.update_type is Customs),
        start_in_range(c),
    ensures
        match r {
            Ok(Some(crate::v2::UpdateStatus::Failed(f))) => f.from.started_processing_at.unix_nanos
                == c.processed_at.unix_nanos - c.duration_nanos && f.failed_at == c.processed_at,
            _ => false,
        },
{
}

} // verus!
