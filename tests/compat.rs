use dump_compat::common::{DumpError, IndexMetadata, Timestamp, Version, Warning};
use dump_compat::compat::CompatV1ToV2;
use dump_compat::ranking::{criterion_of, translate_rules, translate_text_rules};
use dump_compat::settings::{settings_from_update, update_state_into};
use dump_compat::updates::{meta_of, start_time, status_of, success_of, MIN_INSTANT_NANOS};
use dump_compat::v1::{
    self, EnqueuedUpdate, ProcessedUpdate, RankingRule, SettingsUpdate, UpdateState, UpdateType,
    V1IndexReader, V1Reader,
};
use dump_compat::v2::{
    Criterion, IndexDocumentsMethod, Settings, UpdateFormat, UpdateMeta, UpdateResult,
    UpdateStatus, Unchecked,
};

fn ts(n: i128) -> Timestamp {
    Timestamp { unix_nanos: n }
}

fn strings(v: &[&str]) -> Vec<String> {
    v.iter().map(|s| s.to_string()).collect()
}

fn metadata(uid: &str) -> IndexMetadata {
    IndexMetadata { uid: uid.to_string(), primary_key: None, created_at: ts(0), updated_at: ts(0) }
}

fn empty_update() -> SettingsUpdate {
    SettingsUpdate {
        ranking_rules: UpdateState::Nothing,
        distinct_attribute: UpdateState::Nothing,
        primary_key: UpdateState::Nothing,
        searchable_attributes: UpdateState::Nothing,
        displayed_attributes: UpdateState::Nothing,
        stop_words: UpdateState::Nothing,
        synonyms: UpdateState::Nothing,
        attributes_for_faceting: UpdateState::Nothing,
    }
}

fn v1_settings() -> v1::Settings {
    v1::Settings {
        ranking_rules: None,
        distinct_attribute: None,
        searchable_attributes: None,
        displayed_attributes: None,
        stop_words: None,
        synonyms: None,
        attributes_for_faceting: None,
    }
}

fn processed(update_id: u64, update_type: UpdateType, processed_at: i128, duration: u128) -> ProcessedUpdate {
    ProcessedUpdate {
        update_id,
        update_type,
        error: None,
        error_type: None,
        error_code: None,
        error_link: None,
        duration_nanos: duration,
        enqueued_at: ts(5),
        processed_at: ts(processed_at),
    }
}

fn index(uid: &str, tasks: Vec<Result<v1::UpdateStatus, DumpError>>) -> V1IndexReader {
    V1IndexReader {
        metadata: metadata(uid),
        settings: Ok(v1_settings()),
        documents: Ok(strings(&["{\"id\":1}"])),
        tasks,
    }
}

fn reader(uids: &[&str], indexes: Result<Vec<Result<V1IndexReader, DumpError>>, DumpError>) -> V1Reader {
    V1Reader { version: Version::V1, date: Some(ts(42)), index_uids: strings(uids), indexes }
}

#[test]
fn index_uuid_uses_positions() {
    let compat = CompatV1ToV2::new(reader(&["a", "b", "c"], Ok(vec![])));
    let first = compat.index_uuid();
    let second = compat.index_uuid();
    let values: Vec<u128> = first.iter().map(|u| u.uuid.value).collect();
    assert_eq!(values, vec![0, 1, 2]);
    let names: Vec<&str> = first.iter().map(|u| u.uid.as_str()).collect();
    assert_eq!(names, vec!["a", "b", "c"]);
    assert_eq!(first.len(), second.len());
    for (x, y) in first.iter().zip(second.iter()) {
        assert_eq!(x.uid, y.uid);
        assert_eq!(x.uuid, y.uuid);
    }
}

#[test]
fn index_uuid_of_empty_listing() {
    let compat = CompatV1ToV2::new(reader(&[], Ok(vec![])));
    assert!(compat.index_uuid().is_empty());
}

#[test]
fn version_and_date_pass_through() {
    let compat = CompatV1ToV2::new(reader(&[], Ok(vec![])));
    assert_eq!(compat.version(), Version::V1);
    assert_eq!(compat.date(), Some(ts(42)));
}

#[test]
fn tasks_keep_only_finished_updates() {
    let log = vec![
        Ok(v1::UpdateStatus::Enqueued {
            content: EnqueuedUpdate { update_id: 1, update_type: UpdateType::ClearAll, enqueued_at: ts(1) },
        }),
        Ok(v1::UpdateStatus::Processed { content: processed(2, UpdateType::DocumentsAddition { number: 3 }, 100, 10) }),
        Ok(v1::UpdateStatus::Failed { content: processed(3, UpdateType::ClearAll, 200, 20) }),
        Ok(v1::UpdateStatus::Processed { content: processed(4, UpdateType::Customs, 300, 30) }),
    ];
    let second = vec![Ok(v1::UpdateStatus::Processed {
        content: processed(5, UpdateType::DocumentsDeletion { number: 7 }, 400, 40),
    })];
    let mut compat = CompatV1ToV2::new(reader(&["a", "b"], Ok(vec![Ok(index("a", log)), Ok(index("b", second))])));
    let mut warnings = Vec::new();
    let tasks = compat.tasks(&mut warnings);
    assert_eq!(tasks.len(), 3);
    let ids: Vec<(u128, u64)> = tasks
        .iter()
        .map(|t| {
            let t = t.as_ref().unwrap();
            let id = match &t.update {
                UpdateStatus::Processed(p) => p.from.from.update_id,
                UpdateStatus::Failed(f) => f.from.from.update_id,
                _ => panic!("unfinished task"),
            };
            (t.uuid.value, id)
        })
        .collect();
    assert_eq!(ids, vec![(0, 2), (0, 3), (1, 5)]);
    assert!(matches!(warnings[0], Warning::EnqueuedTaskSkipped { update_id: 1 }));
    assert!(matches!(warnings[1], Warning::CustomsTaskIgnored));
    assert_eq!(warnings.len(), 2);
}

#[test]
fn tasks_report_errors_in_place() {
    let log = vec![
        Err(DumpError::MalformedRecord),
        Ok(v1::UpdateStatus::Processed { content: processed(2, UpdateType::ClearAll, 10, 1) }),
    ];
    let mut compat = CompatV1ToV2::new(reader(&["a", "b"], Ok(vec![Err(DumpError::Io), Ok(index("b", log))])));
    let mut warnings = Vec::new();
    let tasks = compat.tasks(&mut warnings);
    assert_eq!(tasks.len(), 3);
    assert!(matches!(tasks[0], Err(DumpError::Io)));
    assert!(matches!(tasks[1], Err(DumpError::MalformedRecord)));
    assert_eq!(tasks[2].as_ref().unwrap().uuid.value, 1);
}

#[test]
fn tasks_when_listing_fails() {
    let mut compat = CompatV1ToV2::new(reader(&[], Err(DumpError::Io)));
    let mut warnings = Vec::new();
    let tasks = compat.tasks(&mut warnings);
    assert_eq!(tasks.len(), 1);
    assert!(matches!(tasks[0], Err(DumpError::Io)));
}

#[test]
fn failed_task_timing_and_error() {
    let mut content = processed(9, UpdateType::DocumentsPartial { number: 2 }, 1_000_000_000_000, 1_500_000_000);
    content.error = Some("boom".to_string());
    content.error_code = Some("internal".to_string());
    let mut warnings = Vec::new();
    let r = status_of(v1::UpdateStatus::Failed { content }, &"idx".to_string(), &mut warnings).unwrap().unwrap();
    match r {
        UpdateStatus::Failed(f) => {
            assert_eq!(f.from.started_processing_at, ts(998_500_000_000));
            assert_eq!(f.failed_at, ts(1_000_000_000_000));
            assert_eq!(f.error.code, 200);
            assert_eq!(f.error.message, "boom");
            assert_eq!(f.error.error_code, "internal");
            assert_eq!(f.error.error_type, "");
            assert_eq!(f.error.error_link, "");
            assert_eq!(f.from.from.enqueued_at, ts(5));
            assert!(f.from.from.content.is_none());
            assert!(matches!(
                f.from.from.meta,
                UpdateMeta::DocumentsAddition {
                    method: IndexDocumentsMethod::UpdateDocuments,
                    format: UpdateFormat::Json,
                    primary_key: None
                }
            ));
        }
        _ => panic!("expected a failed update"),
    }
    assert!(warnings.is_empty());
}

#[test]
fn processed_task_outcomes() {
    let mut w = Vec::new();
    let uid = "idx".to_string();
    let clear = status_of(v1::UpdateStatus::Processed { content: processed(1, UpdateType::ClearAll, 50, 5) }, &uid, &mut w);
    match clear.unwrap().unwrap() {
        UpdateStatus::Processed(p) => {
            assert_eq!(p.success, UpdateResult::DocumentDeletion { deleted: u64::MAX });
            assert_eq!(p.from.started_processing_at, ts(45));
            assert_eq!(p.processed_at, ts(50));
            assert!(matches!(p.from.from.meta, UpdateMeta::ClearDocuments));
        }
        _ => panic!("expected a processed update"),
    }
    assert_eq!(
        success_of(&UpdateType::DocumentsAddition { number: 4 }),
        UpdateResult::DocumentsAddition(dump_compat::v2::DocumentAdditionResult { nb_documents: 4 })
    );
    assert_eq!(success_of(&UpdateType::DocumentsDeletion { number: 6 }), UpdateResult::DocumentDeletion { deleted: 6 });
    assert_eq!(success_of(&UpdateType::Settings { settings: Box::new(empty_update()) }), UpdateResult::Other);
}

#[test]
fn start_time_out_of_range() {
    assert_eq!(MIN_INSTANT_NANOS, -377_705_116_800_000_000_000);
    assert_eq!(start_time(ts(i128::MIN), 1, 8), Err(DumpError::TimestampOutOfRange { update_id: 8 }));
    assert_eq!(start_time(ts(MIN_INSTANT_NANOS), 1, 8), Err(DumpError::TimestampOutOfRange { update_id: 8 }));
    assert_eq!(start_time(ts(MIN_INSTANT_NANOS + 1), 1, 8), Ok(ts(MIN_INSTANT_NANOS)));
    assert_eq!(start_time(ts(10), u128::MAX, 8), Err(DumpError::TimestampOutOfRange { update_id: 8 }));
    let big = (i128::MAX as u128) + 5;
    assert_eq!(start_time(ts(i128::MAX), big, 8), Ok(ts(-5)));
    assert_eq!(start_time(ts(0), 0, 8), Ok(ts(0)));
    let mut w = Vec::new();
    let r = status_of(
        v1::UpdateStatus::Processed { content: processed(8, UpdateType::ClearAll, i128::MIN, 1) },
        &"i".to_string(),
        &mut w,
    );
    assert!(matches!(r, Err(DumpError::TimestampOutOfRange { update_id: 8 })));
}

#[test]
fn ranking_rules_drop_words_position() {
    let rules = vec![RankingRule::Typo, RankingRule::WordsPosition, RankingRule::Desc("price".to_string())];
    let mut w = Vec::new();
    let out = translate_rules(&rules, &"movies".to_string(), &mut w);
    assert_eq!(out, strings(&["typo", "price:desc"]));
    assert_eq!(w.len(), 1);
    match &w[0] {
        Warning::WordsPositionRemoved { index } => assert_eq!(index, "movies"),
        _ => panic!("expected a ranking rule warning"),
    }
}

#[test]
fn criteria_of_every_rule() {
    let mut w = Vec::new();
    let uid = "i".to_string();
    let all = vec![
        RankingRule::Typo,
        RankingRule::Words,
        RankingRule::Proximity,
        RankingRule::Attribute,
        RankingRule::Exactness,
        RankingRule::Asc("date".to_string()),
    ];
    let out = translate_rules(&all, &uid, &mut w);
    assert_eq!(out, strings(&["typo", "words", "proximity", "attribute", "exactness", "date:asc"]));
    assert!(w.is_empty());
    assert!(criterion_of(&RankingRule::WordsPosition, &uid, &mut w).is_none());
    assert!(matches!(criterion_of(&RankingRule::Asc("x".to_string()), &uid, &mut w), Some(Criterion::Asc(f)) if f == "x"));
    assert_eq!(Criterion::Sort.to_text(), "sort");
}

#[test]
fn stored_rule_texts() {
    let mut w = Vec::new();
    let input = strings(&["typo", "wordsPosition", "asc(price)", "desc(rank)", "custom", "asc()", "exactness"]);
    let out = translate_text_rules(&input, &"i".to_string(), &mut w);
    assert_eq!(out, strings(&["typo", "price:asc", "rank:desc", "custom", "asc()", "exactness"]));
    assert_eq!(w.len(), 1);
}

#[test]
fn parse_rule_texts() {
    assert!(matches!(RankingRule::parse("proximity"), Some(RankingRule::Proximity)));
    assert!(matches!(RankingRule::parse("desc(a_b)"), Some(RankingRule::Desc(f)) if f == "a_b"));
    assert!(RankingRule::parse("desc(").is_none());
    assert!(RankingRule::parse("Typo").is_none());
}

#[test]
fn tri_state_fields() {
    let mut update = empty_update();
    update.displayed_attributes = UpdateState::Nothing;
    update.searchable_attributes = UpdateState::Clear;
    update.stop_words = UpdateState::Update(strings(&["a", "b"]));
    let mut w = Vec::new();
    let s: Settings<Unchecked> = settings_from_update(update, &"i".to_string(), &mut w);
    assert!(s.displayed_attributes.is_none());
    assert_eq!(s.searchable_attributes, Some(None));
    assert_eq!(s.stop_words, Some(Some(strings(&["a", "b"]))));
    assert_eq!(update_state_into(UpdateState::Update(3u8)), Some(Some(3)));
    assert_eq!(update_state_into::<u8>(UpdateState::Clear), Some(None));
    assert_eq!(update_state_into::<u8>(UpdateState::Nothing), None);
}

#[test]
fn settings_update_ranking_rules_and_faceting() {
    let mut update = empty_update();
    update.ranking_rules = UpdateState::Update(vec![RankingRule::WordsPosition, RankingRule::Asc("d".to_string())]);
    update.attributes_for_faceting = UpdateState::Update(strings(&["genre"]));
    update.primary_key = UpdateState::Update("id".to_string());
    let mut w = Vec::new();
    let s = settings_from_update(update, &"i".to_string(), &mut w);
    assert_eq!(s.ranking_rules, Some(Some(strings(&["d:asc"]))));
    assert_eq!(s.filterable_attributes, Some(Some(strings(&["genre"]))));
    assert_eq!(w.len(), 1);
}

#[test]
fn update_kinds_to_meta() {
    let mut w = Vec::new();
    let uid = "i".to_string();
    assert!(meta_of(UpdateType::Customs, &uid, &mut w).is_none());
    assert!(matches!(meta_of(UpdateType::DocumentsDeletion { number: 3 }, &uid, &mut w), Some(UpdateMeta::DeleteDocuments { ids }) if ids.is_empty()));
    assert!(matches!(
        meta_of(UpdateType::DocumentsAddition { number: 3 }, &uid, &mut w),
        Some(UpdateMeta::DocumentsAddition { method: IndexDocumentsMethod::ReplaceDocuments, .. })
    ));
    assert!(matches!(meta_of(UpdateType::Settings { settings: Box::new(empty_update()) }, &uid, &mut w), Some(UpdateMeta::Settings(_))));
    assert_eq!(w.len(), 1);
}

#[test]
fn indexes_survive_one_failure() {
    let entries = vec![
        Ok(index("i0", vec![])),
        Ok(index("i1", vec![])),
        Err(DumpError::Io),
        Ok(index("i3", vec![])),
        Ok(index("i4", vec![])),
    ];
    let compat = CompatV1ToV2::new(reader(&["i0", "i1", "i2", "i3", "i4"], Ok(entries)));
    let indexes = compat.indexes().unwrap();
    assert_eq!(indexes.len(), 5);
    let names: Vec<String> = indexes
        .iter()
        .map(|i| match i {
            Ok(i) => i.metadata().uid.clone(),
            Err(_) => "error".to_string(),
        })
        .collect();
    assert_eq!(names, strings(&["i0", "i1", "error", "i3", "i4"]));
    assert!(matches!(indexes[2], Err(DumpError::Io)));
}

#[test]
fn indexes_when_listing_fails() {
    let compat = CompatV1ToV2::new(reader(&[], Err(DumpError::UnsupportedVersion)));
    assert!(matches!(compat.indexes(), Err(DumpError::UnsupportedVersion)));
}

#[test]
fn index_settings_are_translated_and_checked() {
    let mut settings = v1_settings();
    settings.displayed_attributes = Some(Some(strings(&["title", "*"])));
    settings.searchable_attributes = Some(Some(strings(&["title"])));
    settings.attributes_for_faceting = Some(Some(strings(&["genre"])));
    settings.ranking_rules = Some(Some(strings(&["words", "wordsPosition", "desc(year)"])));
    settings.distinct_attribute = Some(None);
    let mut reader = index("movies", vec![]);
    reader.settings = Ok(settings);
    let compat = CompatV1ToV2::new(V1Reader {
        version: Version::V1,
        date: None,
        index_uids: strings(&["movies"]),
        indexes: Ok(vec![Ok(reader)]),
    });
    let mut indexes = compat.indexes().unwrap();
    let idx = indexes.remove(0).unwrap();
    assert_eq!(idx.documents().as_ref().unwrap(), &strings(&["{\"id\":1}"]));
    let mut w = Vec::new();
    let checked = idx.settings(&mut w).unwrap();
    assert_eq!(checked.displayed_attributes, Some(None));
    assert_eq!(checked.searchable_attributes, Some(Some(strings(&["title"]))));
    assert_eq!(checked.filterable_attributes, Some(Some(strings(&["genre"]))));
    assert_eq!(checked.ranking_rules, Some(Some(strings(&["words", "year:desc"]))));
    assert_eq!(checked.distinct_attribute, Some(None));
    assert_eq!(w.len(), 1);
}

#[test]
fn index_settings_read_error() {
    let mut reader = index("movies", vec![]);
    reader.settings = Err(DumpError::MalformedRecord);
    let idx = dump_compat::compat::CompatIndexV1ToV2 { from: &reader };
    let mut w = Vec::new();
    assert!(matches!(idx.settings(&mut w), Err(DumpError::MalformedRecord)));
}

#[test]
fn validation_is_idempotent() {
    let mut update = empty_update();
    update.displayed_attributes = UpdateState::Update(strings(&["*"]));
    update.searchable_attributes = UpdateState::Update(strings(&["a", "b"]));
    let mut w = Vec::new();
    let once = settings_from_update(update, &"i".to_string(), &mut w).check();
    let twice = once.clone().into_unchecked().check();
    assert_eq!(once.displayed_attributes, Some(None));
    assert_eq!(twice.displayed_attributes, once.displayed_attributes);
    assert_eq!(twice.searchable_attributes, once.searchable_attributes);
    assert_eq!(twice.searchable_attributes, Some(Some(strings(&["a", "b"]))));
}

#[test]
fn open_accepts_only_first_version() {
    assert!(CompatV1ToV2::open(reader(&["a"], Ok(vec![]))).is_ok());
    let mut other = reader(&["a"], Ok(vec![]));
    other.version = Version::V2;
    assert!(matches!(CompatV1ToV2::open(other), Err(DumpError::UnsupportedVersion)));
}

#[test]
fn tasks_warn_about_settings_updates_per_index() {
    let mut update = empty_update();
    update.ranking_rules = UpdateState::Update(vec![RankingRule::WordsPosition, RankingRule::Typo]);
    let log = vec![Ok(v1::UpdateStatus::Processed {
        content: processed(1, UpdateType::Settings { settings: Box::new(update) }, 100, 1),
    })];
    let mut compat = CompatV1ToV2::new(reader(&["x", "movies"], Ok(vec![Ok(index("x", vec![])), Ok(index("movies", log))])));
    let mut warnings = vec![Warning::CustomsTaskIgnored];
    let tasks = compat.tasks(&mut warnings);
    assert_eq!(tasks.len(), 1);
    let task = tasks[0].as_ref().unwrap();
    assert_eq!(task.uuid.value, 1);
    match &task.update {
        UpdateStatus::Processed(p) => {
            assert_eq!(p.success, UpdateResult::Other);
            match &p.from.from.meta {
                UpdateMeta::Settings(s) => assert_eq!(s.ranking_rules, Some(Some(strings(&["typo"])))),
                _ => panic!("expected a settings update"),
            }
        }
        _ => panic!("expected a processed update"),
    }
    assert_eq!(warnings.len(), 2);
    assert!(matches!(warnings[0], Warning::CustomsTaskIgnored));
    assert!(matches!(&warnings[1], Warning::WordsPositionRemoved { index } if index == "movies"));
}

#[test]
fn adapter_stays_usable_after_tasks() {
    let log = vec![Ok(v1::UpdateStatus::Processed { content: processed(2, UpdateType::ClearAll, 100, 10) })];
    let mut compat = CompatV1ToV2::new(reader(&["a", "b"], Ok(vec![Ok(index("a", log)), Err(DumpError::Io)])));
    let before: Vec<(String, u128)> = compat.index_uuid().iter().map(|u| (u.uid.clone(), u.uuid.value)).collect();
    {
        let indexes = compat.indexes().unwrap();
        assert_eq!(indexes.len(), 2);
        let mut w = Vec::new();
        assert!(indexes[0].as_ref().unwrap().settings(&mut w).is_ok());
    }
    let mut warnings = Vec::new();
    assert_eq!(compat.tasks(&mut warnings).len(), 2);
    let after: Vec<(String, u128)> = compat.index_uuid().iter().map(|u| (u.uid.clone(), u.uuid.value)).collect();
    assert_eq!(before, after);
    assert_eq!(compat.version(), Version::V1);
    assert_eq!(compat.date(), Some(ts(42)));
    let indexes = compat.indexes().unwrap();
    assert_eq!(indexes[0].as_ref().unwrap().metadata().uid, "a");
    assert_eq!(indexes[0].as_ref().unwrap().documents().as_ref().unwrap(), &strings(&["{\"id\":1}"]));
    assert!(matches!(indexes[1], Err(DumpError::Io)));
}
