use crate::common::{DumpError, IndexMetadata, Timestamp, Version, Warning};
use crate::settings::{
    copy_v1_settings, list_view, settings_from_v1, settings_warnings, synonyms_view, text_rules_translated,
};
use crate::updates::{status_kept, status_of, status_translated, status_warnings};
use crate::v1::{self, V1IndexReader, V1Reader};
use crate::v2::{checked_attributes, Checked, IndexUuid, Settings, Task, Uuid};
use vstd::prelude::*;

verus! {

/// The identifier given to the index at 0-based position `i` of the listing.
pub open spec fn uuid_of(i: int) -> Uuid {
    Uuid { value: i as u128 }
}

/// Whether `r` pairs each name of `listing`, in order, with the identifier of its position.
pub open spec fn index_uuids_of(listing: Seq<String>, r: Seq<IndexUuid>) -> bool {
    &&& r.len() == listing.len()
    &&& forall|i: int| 0 <= i < r.len() ==> (#[trigger] r[i]).uid == listing[i] && r[i].uuid == uuid_of(i)
}

/// Whether `b` is the entry that `indexes` gives for the entry `a` of the first schema.
pub open spec fn index_wrapped(a: Result<V1IndexReader, DumpError>, b: Result<CompatIndexV1ToV2<'_>, DumpError>) -> bool {
    match a {
        Ok(x) => match b {
            Ok(c) => *c.from == x,
            Err(_) => false,
        },
        Err(e) => b is Err && b->Err_0 == e,
    }
}

/// Whether an entry of an update log yields an element of the task sequence: read errors do,
/// and so do the updates that translate to something.
pub open spec fn task_kept(t: Result<v1::UpdateStatus, DumpError>) -> bool {
    match t {
        Ok(s) => status_kept(s),
        Err(_) => true,
    }
}

/// The number of elements that an update log yields.
pub open spec fn kept_count(ts: Seq<Result<v1::UpdateStatus, DumpError>>) -> nat
    decreases ts.len(),
{
    if ts.len() == 0 {
        0
    } else {
        kept_count(ts.drop_last()) + if task_kept(ts.last()) { 1nat } else { 0nat }
    }
}

/// Whether `o` is the element that the log entry `t` of the index at position `pos` yields.
pub open spec fn item_translated(pos: int, t: Result<v1::UpdateStatus, DumpError>, o: Result<Task, DumpError>) -> bool {
    match t {
        Err(e) => o == Err::<Task, DumpError>(e),
        Ok(s) => match o {
            Ok(task) => task.uuid == uuid_of(pos) && status_translated(s, Ok(Some(task.update))),
            Err(e) => status_translated(s, Err(e)),
        },
    }
}

/// Whether `out` is what the update log `ts` of the index at position `pos` yields, in order.
pub open spec fn log_translated(pos: int, ts: Seq<Result<v1::UpdateStatus, DumpError>>, out: Seq<Result<Task, DumpError>>) -> bool
    decreases ts.len(),
{
    if ts.len() == 0 {
        out.len() == 0
    } else if task_kept(ts.last()) {
        &&& out.len() > 0
        &&& item_translated(pos, ts.last(), out.last())
        &&& log_translated(pos, ts.drop_last(), out.drop_last())
    } else {
        log_translated(pos, ts.drop_last(), out)
    }
}

/// The number of elements that an index entry yields: one for an index that failed to open.
pub open spec fn chunk_len(entry: Result<V1IndexReader, DumpError>) -> nat {
    match entry {
        Ok(r) => kept_count(r.tasks@),
        Err(_) => 1,
    }
}

/// Whether `chunk` is what the index entry at position `pos` yields.
pub open spec fn chunk_translated(pos: int, entry: Result<V1IndexReader, DumpError>, chunk: Seq<Result<Task, DumpError>>) -> bool {
    match entry {
        Ok(r) => log_translated(pos, r.tasks@, chunk),
        Err(e) => chunk == seq![Err::<Task, DumpError>(e)],
    }
}

/// Whether `out` is the concatenation, index by index in listing order, of what each entry yields.
pub open spec fn all_translated(entries: Seq<Result<V1IndexReader, DumpError>>, out: Seq<Result<Task, DumpError>>) -> bool
    decreases entries.len(),
{
    if entries.len() == 0 {
        out.len() == 0
    } else {
        let c = chunk_len(entries.last());
        &&& out.len() >= c
        &&& chunk_translated(entries.len() - 1, entries.last(), out.subrange(out.len() - c, out.len() as int))
        &&& all_translated(entries.drop_last(), out.subrange(0, out.len() - c))
    }
}

/// What the whole task sequence is for the listing `indexes` of a dump.
pub open spec fn tasks_translated(indexes: Result<Vec<Result<V1IndexReader, DumpError>>, DumpError>, out: Seq<Result<Task, DumpError>>) -> bool {
    match indexes {
        Err(e) => out == seq![Err::<Task, DumpError>(e)],
        Ok(v) => all_translated(v@, out),
    }
}

/// The warnings that an entry of the update log of the index `uid` reports.
pub open spec fn entry_warnings(uid: String, t: Result<v1::UpdateStatus, DumpError>) -> Seq<Warning> {
    match t {
        Ok(s) => status_warnings(uid, s),
        Err(_) => seq![],
    }
}

/// The warnings that the update log `ts` of the index `uid` reports, in log order.
pub open spec fn log_warnings(uid: String, ts: Seq<Result<v1::UpdateStatus, DumpError>>) -> Seq<Warning>
    decreases ts.len(),
{
    if ts.len() == 0 {
        seq![]
    } else {
        log_warnings(uid, ts.drop_last()) + entry_warnings(uid, ts.last())
    }
}

/// The warnings that the update logs of all opened indexes report, in listing order.
pub open spec fn all_warnings(entries: Seq<Result<V1IndexReader, DumpError>>) -> Seq<Warning>
    decreases entries.len(),
{
    if entries.len() == 0 {
        seq![]
    } else {
        all_warnings(entries.drop_last()) + match entries.last() {
            Ok(r) => log_warnings(r.metadata.uid, r.tasks@),
            Err(_) => seq![],
        }
    }
}

/// The warnings that the whole task sequence reports.
pub open spec fn tasks_warnings(indexes: Result<Vec<Result<V1IndexReader, DumpError>>, DumpError>) -> Seq<Warning> {
    match indexes {
        Err(_) => seq![],
        Ok(v) => all_warnings(v@),
    }
}

/// Whether `c` is what validation makes of the translation of the full settings `src`, list
/// by list.
pub open spec fn settings_checked_of<S>(src: v1::Settings, c: Settings<S>) -> bool {
    &&& list_view(c.displayed_attributes) == list_view(checked_attributes(src.displayed_attributes))
    &&& list_view(c.searchable_attributes) == list_view(checked_attributes(src.searchable_attributes))
    &&& list_view(c.filterable_attributes) == list_view(src.attributes_for_faceting)
    &&& text_rules_translated(src.ranking_rules, c.ranking_rules)
    &&& list_view(c.stop_words) == list_view(src.stop_words)
    &&& synonyms_view(c.synonyms) == synonyms_view(src.synonyms)
    &&& c.distinct_attribute == src.distinct_attribute
}

/// Validation sees an attribute list through its view only.
proof fn lemma_checked_view(a: Option<Option<Vec<String>>>, b: Option<Option<Vec<String>>>)
    requires
        list_view(a) == list_view(b),
    ensures
        list_view(checked_attributes(a)) == list_view(checked_attributes(b)),
{
}

/// Whether the names of the listing agree with the opened indexes: one entry per name, and
/// each opened index carries the name at its position.
pub open spec fn listing_consistent(r: V1Reader) -> bool {
    match r.indexes {
        Err(_) => true,
        Ok(v) => {
            &&& v@.len() == r.index_uids@.len()
            &&& forall|i: int| 0 <= i < v@.len() && (#[trigger] v@[i]) is Ok ==> v@[i]->Ok_0.metadata.uid == r.index_uids@[i]
        },
    }
}

/// Whether `b` is the entry `a` with its update log taken out and everything else kept.
pub open spec fn entry_drained(a: Result<V1IndexReader, DumpError>, b: Result<V1IndexReader, DumpError>) -> bool {
    match a {
        Ok(x) => match b {
            Ok(y) => y.metadata == x.metadata && y.settings == x.settings && y.documents == x.documents
                && y.tasks@.len() == 0,
            Err(_) => false,
        },
        Err(e) => b == Err::<V1IndexReader, DumpError>(e),
    }
}

/// Whether the listing `b` is the listing `a` with every update log taken out.
pub open spec fn logs_taken(
    a: Result<Vec<Result<V1IndexReader, DumpError>>, DumpError>,
    b: Result<Vec<Result<V1IndexReader, DumpError>>, DumpError>,
) -> bool {
    match a {
        Err(e) => b is Err && b->Err_0 == e,
        Ok(v) => match b {
            Ok(w) => w@.len() == v@.len() && forall|i: int| 0 <= i < v@.len() ==> entry_drained(#[trigger] v@[i], w@[i]),
            Err(_) => false,
        },
    }
}

/// Reads a dump of the first schema as a dump of the second.
#[derive(Debug)]
pub struct CompatV1ToV2 {
    pub from: V1Reader,
}

/// Reads an index of a dump of the first schema as an index of the second.
#[derive(Debug)]
pub struct CompatIndexV1ToV2<'a> {
    pub from: &'a V1IndexReader,
}

/// Translates the update log `tasks` of the index `uid` at position `pos`, appending what it
/// yields to `out`.
fn translate_log(
    pos: usize,
    uid: &String,
    tasks: Vec<Result<v1::UpdateStatus, DumpError>>,
    out: &mut Vec<Result<Task, DumpError>>,
    warnings: &mut Vec<Warning>,
)
    ensures
        final(out)@.len() >= old(out)@.len(),
        final(out)@.subrange(0, old(out)@.len() as int) == old(out)@,
        log_translated(pos as int, tasks@, final(out)@.subrange(old(out)@.len() as int, final(out)@.len() as int)),
        final(warnings)@ == old(warnings)@ + log_warnings(*uid, tasks@),
{
    let mut tasks = tasks;
    let ghost orig = tasks@;
    let ghost base = out@.len();
    let ghost out0 = out@;
    let ghost w0 = warnings@;
    let n = tasks.len();
    let mut j: usize = 0;
    while j < n
        invariant
            n == orig.len(),
            j <= n,
            tasks@ == orig.subrange(j as int, n as int),
            out@.len() >= base,
            out@.subrange(0, base as int) == out0,
            log_translated(pos as int, orig.take(j as int), out@.subrange(base as int, out@.len() as int)),
            warnings@ == w0 + log_warnings(*uid, orig.take(j as int)),
        decreases n - j,
    {
        let ghost prev = out@;
        let t = tasks.remove(0);
        assert(t == orig[j as int]);
        match t {
            Err(e) => out.push(Err(e)),
            Ok(s) => match status_of(s, uid, warnings) {
                Ok(Some(update)) => out.push(Ok(Task { uuid: Uuid { value: pos as u128 }, update })),
                Ok(None) => {},
                Err(e) => out.push(Err(e)),
            },
        }
        proof {
            assert(tasks@ =~= orig.subrange(j + 1, n as int));
            assert(orig.take(j + 1).drop_last() =~= orig.take(j as int));
            assert(orig.take(j + 1).last() == orig[j as int]);
            assert(out@.subrange(0, base as int) =~= out0);
            if out@.len() > prev.len() {
                assert(out@.subrange(base as int, out@.len() as int).drop_last() =~= prev.subrange(base as int, prev.len() as int));
            } else {
                assert(out@.subrange(base as int, out@.len() as int) =~= prev.subrange(base as int, prev.len() as int));
            }
            assert(warnings@ =~= w0 + log_warnings(*uid, orig.take(j + 1)));
        }
        j = j + 1;
    }
    assert(orig.take(n as int) =~= orig);
}

impl CompatV1ToV2 {
    pub fn new(from: V1Reader) -> (r: Self)
        ensures
            r.from == from,
    {
        CompatV1ToV2 { from }
    }

    /// Wraps a dump of the first schema; a dump that declares another version is refused.
    pub fn open(from: V1Reader) -> (r: Result<Self, DumpError>)
        ensures
            from.version == Version::V1 ==> r == Ok::<Self, DumpError>(CompatV1ToV2 { from }),
            from.version != Version::V1 ==> r == Err::<Self, DumpError>(DumpError::UnsupportedVersion),
    {
        if from.version == Version::V1 {
            Ok(CompatV1ToV2 { from })
        } else {
            Err(DumpError::UnsupportedVersion)
        }
    }

    /// The version that the underlying dump declares.
    pub fn version(&self) -> (r: Version)
        ensures
            r == self.from.version,
    {
        self.from.version
    }

    /// When the underlying dump was made, if it says.
    pub fn date(&self) -> (r: Option<Timestamp>)
        ensures
            r == self.from.date,
    {
        self.from.date
    }

    /// The indexes in listing order, each named as in the dump and identified by its position.
    pub fn index_uuid(&self) -> (r: Vec<IndexUuid>)
        ensures
            index_uuids_of(self.from.index_uids@, r@),
    {
        let mut out: Vec<IndexUuid> = Vec::new();
        let mut i: usize = 0;
        while i < self.from.index_uids.len()
            invariant
                i <= self.from.index_uids@.len(),
                index_uuids_of(self.from.index_uids@.take(i as int), out@),
            decreases self.from.index_uids@.len() - i,
        {
            out.push(IndexUuid { uid: self.from.index_uids[i].clone(), uuid: Uuid { value: i as u128 } });
            i = i + 1;
        }
        assert(self.from.index_uids@.take(i as int) =~= self.from.index_uids@);
        out
    }

    /// The indexes in listing order. An index that failed to open stands as its error, and the
    /// others are there all the same; only a failure to list the indexes fails the whole.
    pub fn indexes(&self) -> (r: Result<Vec<Result<CompatIndexV1ToV2<'_>, DumpError>>, DumpError>)
        ensures
            match self.from.indexes {
                Err(e) => r is Err && r->Err_0 == e,
                Ok(v) => match r {
                    Ok(o) => o@.len() == v@.len() && forall|i: int| 0 <= i < v@.len() ==> index_wrapped(#[trigger] v@[i], o@[i]),
                    Err(_) => false,
                },
            },
    {
        match &self.from.indexes {
            Err(e) => Err(*e),
            Ok(list) => {
                let mut out: Vec<Result<CompatIndexV1ToV2<'_>, DumpError>> = Vec::new();
                let mut i: usize = 0;
                while i < list.len()
                    invariant
                        i <= list@.len(),
                        out@.len() == i,
                        forall|k: int| 0 <= k < i ==> index_wrapped(#[trigger] list@[k], out@[k]),
                    decreases list@.len() - i,
                {
                    match &list[i] {
                        Ok(reader) => out.push(Ok(CompatIndexV1ToV2 { from: reader })),
                        Err(e) => out.push(Err(*e)),
                    }
                    i = i + 1;
                }
                Ok(out)
            },
        }
    }

    /// The tasks of all indexes, index by index in listing order and in log order within an
    /// index, each linked to its index by the identifier of the index's position. Enqueued and
    /// "customs" updates are left out; read errors stand as elements. The update logs are
    /// taken out of the dump; its version, date, names and everything else it holds of each
    /// index stay as they were.
    pub fn tasks(&mut self, warnings: &mut Vec<Warning>) -> (r: Vec<Result<Task, DumpError>>)
        ensures
            tasks_translated(old(self).from.indexes, r@),
            final(warnings)@ == old(warnings)@ + tasks_warnings(old(self).from.indexes),
            final(self).from.version == old(self).from.version,
            final(self).from.date == old(self).from.date,
            final(self).from.index_uids == old(self).from.index_uids,
            logs_taken(old(self).from.indexes, final(self).from.indexes),
    {
        let mut taken: Result<Vec<Result<V1IndexReader, DumpError>>, DumpError> = Ok(Vec::new());
        std::mem::swap(&mut self.from.indexes, &mut taken);
        match taken {
            Err(e) => {
                self.from.indexes = Err(e);
                let r = vec![Err(e)];
                assert(r@ =~= seq![Err::<Task, DumpError>(e)]);
                assert(warnings@ =~= old(warnings)@ + Seq::<Warning>::empty());
                r
            },
            Ok(list) => {
                let mut list = list;
                let ghost orig = list@;
                let ghost w0 = warnings@;
                let n = list.len();
                let mut out: Vec<Result<Task, DumpError>> = Vec::new();
                let mut kept: Vec<Result<V1IndexReader, DumpError>> = Vec::new();
                let mut i: usize = 0;
                while i < n
                    invariant
                        n == orig.len(),
                        i <= n,
                        list@ == orig.subrange(i as int, n as int),
                        all_translated(orig.take(i as int), out@),
                        warnings@ == w0 + all_warnings(orig.take(i as int)),
                        kept@.len() == i,
                        forall|k: int| 0 <= k < i ==> entry_drained(#[trigger] orig[k], kept@[k]),
                    decreases n - i,
                {
                    let ghost prev = out@;
                    let entry = list.remove(0);
                    assert(entry == orig[i as int]);
                    match entry {
                        Ok(reader) => {
                            let V1IndexReader { metadata, settings, documents, tasks } = reader;
                            let ghost log = tasks@;
                            translate_log(i, &metadata.uid, tasks, &mut out, warnings);
                            proof { lemma_log_shape(i as int, log, out@.subrange(prev.len() as int, out@.len() as int)); }
                            kept.push(Ok(V1IndexReader { metadata, settings, documents, tasks: Vec::new() }));
                        },
                        Err(e) => {
                            out.push(Err(e));
                            kept.push(Err(e));
                        },
                    }
                    proof {
                        assert(list@ =~= orig.subrange(i + 1, n as int));
                        let s = orig.take(i + 1);
                        assert(s.drop_last() =~= orig.take(i as int));
                        assert(s.last() == orig[i as int]);
                        let c = chunk_len(s.last());
                        assert(out@.len() - c == prev.len());
                        assert(out@.subrange(0, out@.len() - c) =~= prev);
                        if let Err(e) = orig[i as int] {
                            assert(out@.subrange(out@.len() - c, out@.len() as int) =~= seq![Err::<Task, DumpError>(e)]);
                        }
                        assert(warnings@ =~= w0 + all_warnings(s));
                    }
                    i = i + 1;
                }
                assert(orig.take(n as int) =~= orig);
                self.from.indexes = Ok(kept);
                out
            },
        }
    }
}

/// Index identifiers are deterministic and distinct: two listings of the same names give the
/// same identifiers, and no two positions share one.
pub proof fn lemma_index_uuid(listing: Seq<String>, a: Seq<IndexUuid>, b: Seq<IndexUuid>)
    requires
        listing.len() <= usize::MAX,
        index_uuids_of(listing, a),
        index_uuids_of(listing, b),
    ensures
        a == b,
        forall|i: int, j: int| 0 <= i < a.len() && 0 <= j < a.len() && i != j ==> #[trigger] a[i].uuid != #[trigger] a[j].uuid,
        forall|i: int| 0 <= i < a.len() ==> (#[trigger] a[i]).uuid.value == i,
{
    assert forall|i: int| 0 <= i < a.len() implies a[i] == b[i] by {}
    assert(a =~= b);
}

/// The total number of elements that the entries of a listing yield.
pub open spec fn total_kept(entries: Seq<Result<V1IndexReader, DumpError>>) -> nat
    decreases entries.len(),
{
    if entries.len() == 0 {
        0
    } else {
        total_kept(entries.drop_last()) + chunk_len(entries.last())
    }
}

/// Whether every task of `out` is processed or failed: none is enqueued or in processing.
pub open spec fn only_finished(out: Seq<Result<Task, DumpError>>) -> bool {
    forall|k: int| 0 <= k < out.len() && (#[trigger] out[k]) is Ok ==> (out[k]->Ok_0.update is Processed || out[k]->Ok_0.update is Failed)
}

/// An update log yields one element for each processed or failed update that is not of the
/// "customs" kind, and for each read error; every task it yields is processed or failed.
pub proof fn lemma_log_shape(pos: int, ts: Seq<Result<v1::UpdateStatus, DumpError>>, out: Seq<Result<Task, DumpError>>)
    requires
        log_translated(pos, ts, out),
    ensures
        out.len() == kept_count(ts),
        only_finished(out),
    decreases ts.len(),
{
    if ts.len() > 0 {
        if task_kept(ts.last()) {
            lemma_log_shape(pos, ts.drop_last(), out.drop_last());
            assert forall|k: int| 0 <= k < out.len() && (#[trigger] out[k]) is Ok implies (out[k]->Ok_0.update is Processed || out[k]->Ok_0.update is Failed) by {
                if k < out.len() - 1 {
                    assert(out.drop_last()[k] == out[k]);
                }
            }
        } else {
            lemma_log_shape(pos, ts.drop_last(), out);
        }
    }
}

/// The task sequence has one element for each processed or failed update that is not of the
/// "customs" kind, and one for each read error, over all indexes; enqueued and "customs"
/// updates are absent from it.
pub proof fn lemma_tasks_count(entries: Seq<Result<V1IndexReader, DumpError>>, out: Seq<Result<Task, DumpError>>)
    requires
        all_translated(entries, out),
    ensures
        out.len() == total_kept(entries),
        only_finished(out),
    decreases entries.len(),
{
    if entries.len() > 0 {
        let c = chunk_len(entries.last());
        let head = out.subrange(0, out.len() - c);
        let tail = out.subrange(out.len() - c, out.len() as int);
        lemma_tasks_count(entries.drop_last(), head);
        match entries.last() {
            Ok(r) => lemma_log_shape(entries.len() - 1, r.tasks@, tail),
            Err(e) => {},
        }
        assert forall|k: int| 0 <= k < out.len() && (#[trigger] out[k]) is Ok implies (out[k]->Ok_0.update is Processed || out[k]->Ok_0.update is Failed) by {
            if k < out.len() - c {
                assert(head[k] == out[k]);
            } else {
                assert(tail[k - (out.len() - c)] == out[k]);
            }
        }
    }
}

/// Every task that an update log of the index at position `pos` yields carries the
/// identifier of that position.
proof fn lemma_log_uuid(pos: int, ts: Seq<Result<v1::UpdateStatus, DumpError>>, out: Seq<Result<Task, DumpError>>)
    requires
        log_translated(pos, ts, out),
    ensures
        forall|k: int| 0 <= k < out.len() && (#[trigger] out[k]) is Ok ==> out[k]->Ok_0.uuid == uuid_of(pos),
    decreases ts.len(),
{
    if ts.len() > 0 {
        if task_kept(ts.last()) {
            lemma_log_uuid(pos, ts.drop_last(), out.drop_last());
            assert forall|k: int| 0 <= k < out.len() && (#[trigger] out[k]) is Ok implies out[k]->Ok_0.uuid == uuid_of(pos) by {
                if k < out.len() - 1 {
                    assert(out.drop_last()[k] == out[k]);
                }
            }
        } else {
            lemma_log_uuid(pos, ts.drop_last(), out);
        }
    }
}

/// Every task of the sequence carries the identifier of the position of an index that opened.
proof fn lemma_all_uuid(entries: Seq<Result<V1IndexReader, DumpError>>, out: Seq<Result<Task, DumpError>>)
    requires
        all_translated(entries, out),
        entries.len() <= usize::MAX,
    ensures
        forall|k: int| 0 <= k < out.len() && (#[trigger] out[k]) is Ok ==> {
            let i = out[k]->Ok_0.uuid.value as int;
            &&& i < entries.len()
            &&& out[k]->Ok_0.uuid == uuid_of(i)
            &&& entries[i] is Ok
        },
    decreases entries.len(),
{
    if entries.len() > 0 {
        let c = chunk_len(entries.last());
        let head = out.subrange(0, out.len() - c);
        let tail = out.subrange(out.len() - c, out.len() as int);
        let pos = entries.len() - 1;
        lemma_all_uuid(entries.drop_last(), head);
        if let Ok(r) = entries.last() {
            lemma_log_uuid(pos, r.tasks@, tail);
        }
        assert forall|k: int| 0 <= k < out.len() && (#[trigger] out[k]) is Ok implies {
            let i = out[k]->Ok_0.uuid.value as int;
            &&& i < entries.len()
            &&& out[k]->Ok_0.uuid == uuid_of(i)
            &&& entries[i] is Ok
        } by {
            if k < out.len() - c {
                assert(head[k] == out[k]);
                let i = out[k]->Ok_0.uuid.value as int;
                assert(entries.drop_last()[i] == entries[i]);
            } else {
                assert(tail[k - (out.len() - c)] == out[k]);
            }
        }
    }
}

/// Tasks link to the names of the listing: when the listing agrees with the opened indexes,
/// each task carries the identifier that `index_uuid` gives the index it belongs to, and
/// that index opened under the name `index_uuid` pairs with the identifier.
pub proof fn lemma_tasks_linked(r: V1Reader, names: Seq<IndexUuid>, out: Seq<Result<Task, DumpError>>)
    requires
        listing_consistent(r),
        index_uuids_of(r.index_uids@, names),
        tasks_translated(r.indexes, out),
    ensures
        forall|k: int| 0 <= k < out.len() && (#[trigger] out[k]) is Ok ==> {
            let i = out[k]->Ok_0.uuid.value as int;
            &&& r.indexes is Ok
            &&& i < names.len()
            &&& names[i].uuid == out[k]->Ok_0.uuid
            &&& r.indexes->Ok_0@[i] is Ok
            &&& r.indexes->Ok_0@[i]->Ok_0.metadata.uid == names[i].uid
        },
{
    if let Ok(v) = r.indexes {
        assert(v@.len() <= usize::MAX) by {
            broadcast use vstd::std_specs::vec::axiom_spec_len;
            assert(v@.len() == v.len());
        }
        lemma_all_uuid(v@, out);
    }
}

/// The id of an entry of an update log of the first schema.
pub open spec fn entry_id(s: v1::UpdateStatus) -> u64 {
    match s {
        v1::UpdateStatus::Enqueued { content } => content.update_id,
        v1::UpdateStatus::Failed { content } => content.update_id,
        v1::UpdateStatus::Processed { content } => content.update_id,
    }
}

/// The id of an update of the second schema.
pub open spec fn update_id_of(u: crate::v2::UpdateStatus) -> u64 {
    match u {
        crate::v2::UpdateStatus::Processing(p) => p.from.update_id,
        crate::v2::UpdateStatus::Enqueued(e) => e.update_id,
        crate::v2::UpdateStatus::Processed(p) => p.from.from.update_id,
        crate::v2::UpdateStatus::Failed(f) => f.from.from.update_id,
    }
}

/// Whether no two read entries of an update log share an id.
pub open spec fn unique_ids(ts: Seq<Result<v1::UpdateStatus, DumpError>>) -> bool {
    forall|i: int, j: int|
        0 <= i < ts.len() && 0 <= j < ts.len() && i != j && (#[trigger] ts[i]) is Ok && (#[trigger] ts[j]) is Ok
            ==> entry_id(ts[i]->Ok_0) != entry_id(ts[j]->Ok_0)
}

/// Every task that an update log yields has the id of a kept entry of that log.
proof fn lemma_log_origin(pos: int, ts: Seq<Result<v1::UpdateStatus, DumpError>>, out: Seq<Result<Task, DumpError>>)
    requires
        log_translated(pos, ts, out),
    ensures
        forall|k: int| 0 <= k < out.len() && (#[trigger] out[k]) is Ok ==> exists|j: int|
            0 <= j < ts.len() && (#[trigger] ts[j]) is Ok && status_kept(ts[j]->Ok_0)
                && entry_id(ts[j]->Ok_0) == update_id_of(out[k]->Ok_0.update),
    decreases ts.len(),
{
    if ts.len() > 0 {
        let last = ts.len() - 1;
        if task_kept(ts.last()) {
            lemma_log_origin(pos, ts.drop_last(), out.drop_last());
            assert forall|k: int| 0 <= k < out.len() && (#[trigger] out[k]) is Ok implies exists|j: int|
                0 <= j < ts.len() && (#[trigger] ts[j]) is Ok && status_kept(ts[j]->Ok_0)
                    && entry_id(ts[j]->Ok_0) == update_id_of(out[k]->Ok_0.update) by {
                if k < out.len() - 1 {
                    assert(out.drop_last()[k] == out[k]);
                    let j = choose|j: int| 0 <= j < ts.drop_last().len() && (#[trigger] ts.drop_last()[j]) is Ok
                        && status_kept(ts.drop_last()[j]->Ok_0)
                        && entry_id(ts.drop_last()[j]->Ok_0) == update_id_of(out.drop_last()[k]->Ok_0.update);
                    assert(ts.drop_last()[j] == ts[j]);
                } else {
                    assert(ts[last] == ts.last());
                }
            }
        } else {
            lemma_log_origin(pos, ts.drop_last(), out);
            assert forall|k: int| 0 <= k < out.len() && (#[trigger] out[k]) is Ok implies exists|j: int|
                0 <= j < ts.len() && (#[trigger] ts[j]) is Ok && status_kept(ts[j]->Ok_0)
                    && entry_id(ts[j]->Ok_0) == update_id_of(out[k]->Ok_0.update) by {
                let j = choose|j: int| 0 <= j < ts.drop_last().len() && (#[trigger] ts.drop_last()[j]) is Ok
                    && status_kept(ts.drop_last()[j]->Ok_0)
                    && entry_id(ts.drop_last()[j]->Ok_0) == update_id_of(out[k]->Ok_0.update);
                assert(ts.drop_last()[j] == ts[j]);
            }
        }
    }
}

/// Dropped updates are absent: when the ids of an update log are unique, no task that the log
/// yields has the id of an enqueued entry or of an entry of the "customs" kind.
pub proof fn lemma_dropped_absent(pos: int, ts: Seq<Result<v1::UpdateStatus, DumpError>>, out: Seq<Result<Task, DumpError>>, j: int)
    requires
        log_translated(pos, ts, out),
        unique_ids(ts),
        0 <= j < ts.len(),
        ts[j] is Ok,
        !status_kept(ts[j]->Ok_0),
    ensures
        forall|k: int| 0 <= k < out.len() && (#[trigger] out[k]) is Ok ==> update_id_of(out[k]->Ok_0.update) != entry_id(ts[j]->Ok_0),
{
    lemma_log_origin(pos, ts, out);
}

impl<'a> CompatIndexV1ToV2<'a> {
    /// What the dump records about the index.
    pub fn metadata(&self) -> (r: &IndexMetadata)
        ensures
            *r == self.from.metadata,
    {
        &self.from.metadata
    }

    /// The index's documents, unchanged.
    pub fn documents(&self) -> (r: &Result<Vec<String>, DumpError>)
        ensures
            *r == self.from.documents,
    {
        &self.from.documents
    }

    /// The index's settings in the second schema, validated.
    pub fn settings(&self, warnings: &mut Vec<Warning>) -> (r: Result<Settings<Checked>, DumpError>)
        ensures
            match self.from.settings {
                Err(e) => r is Err && r->Err_0 == e && final(warnings)@ == old(warnings)@,
                Ok(s) => match r {
                    Ok(c) => settings_checked_of(s, c)
                        && final(warnings)@ == old(warnings)@ + settings_warnings(self.from.metadata.uid, s),
                    Err(_) => false,
                },
            },
    {
        match &self.from.settings {
            Err(e) => Err(*e),
            Ok(s) => {
                let copy = copy_v1_settings(s);
                let translated = settings_from_v1(copy, &self.from.metadata.uid, warnings);
                let c = translated.check();
                proof {
                    lemma_checked_view(copy.displayed_attributes, s.displayed_attributes);
                    lemma_checked_view(copy.searchable_attributes, s.searchable_attributes);
                }
                Ok(c)
            },
        }
    }
}

} // verus!
