use badkat::storage::{
    failure_detail, load_json, note3, strip_bom, FileRead, LoadJson, SaveAction, SaveEvent, SaveJob,
};

#[derive(Debug, PartialEq, Eq)]
struct Value {
    name: String,
}

fn value(name: &str) -> Value {
    Value { name: name.into() }
}

fn to_json(v: &Value) -> String {
    let mut map = serde_json::Map::new();
    map.insert("name".to_string(), serde_json::Value::String(v.name.clone()));
    serde_json::Value::Object(map).to_string()
}

/// One path of an in-memory directory: nothing, a file, or a directory.
#[derive(Clone, Debug)]
enum Entry {
    File(String),
    Dir,
}

/// The primary, backup and temporary paths of one value.
#[derive(Default)]
struct Files {
    primary: Option<Entry>,
    backup: Option<Entry>,
    temp: Option<Entry>,
}

fn parse(raw: &str) -> Option<Value> {
    let text = strip_bom(raw);
    let json: serde_json::Value = serde_json::from_str(&text).ok()?;
    let name = json.get("name")?.as_str()?.to_string();
    Some(Value { name })
}

fn read(entry: &Option<Entry>) -> FileRead<Value> {
    match entry {
        None => FileRead::NotFound("No such file or directory (os error 2)".into()),
        Some(Entry::Dir) => FileRead::Failed("Is a directory (os error 21)".into()),
        Some(Entry::File(raw)) => match parse(raw) {
            Some(v) => FileRead::Parsed(v),
            None => FileRead::Malformed,
        },
    }
}

fn load(files: &Files) -> LoadJson<Value> {
    load_json(read(&files.primary), read(&files.backup))
}

/// Loads the backup path as if it were a primary of its own.
fn load_backup_as_primary(files: &Files) -> LoadJson<Value> {
    load_json(read(&files.backup), read(&None))
}

fn valid_json(entry: &Option<Entry>) -> bool {
    match entry {
        Some(Entry::File(raw)) => serde_json::from_str::<serde_json::Value>(&strip_bom(raw)).is_ok(),
        _ => false,
    }
}

fn remove_file(slot: &mut Option<Entry>) -> SaveEvent {
    match slot {
        Some(Entry::Dir) => SaveEvent::Failed("Is a directory (os error 21)".into()),
        Some(Entry::File(_)) => {
            *slot = None;
            SaveEvent::Done
        }
        None => SaveEvent::Failed("No such file or directory (os error 2)".into()),
    }
}

/// Carries out each operation that the save names on the in-memory files.
fn save(files: &mut Files, v: &Value) -> Result<(), String> {
    let (mut job, mut action) = SaveJob::start();
    let mut text = String::new();
    let mut operations = 0;
    loop {
        operations += 1;
        assert!(operations <= 13, "a save ran past its last operation");
        let event = match action {
            SaveAction::CreateParent => SaveEvent::Done,
            SaveAction::Serialize => {
                text = to_json(v);
                SaveEvent::Done
            }
            SaveAction::WriteTemp => {
                files.temp = Some(Entry::File(text.clone()));
                SaveEvent::Done
            }
            SaveAction::InspectPrimary => SaveEvent::Primary {
                exists: files.primary.is_some(),
                valid: valid_json(&files.primary),
            },
            SaveAction::CheckBackup => SaveEvent::Present(files.backup.is_some()),
            SaveAction::RemoveBackup => remove_file(&mut files.backup),
            SaveAction::RotatePrimary => match files.backup {
                Some(Entry::Dir) => SaveEvent::Failed("Is a directory (os error 21)".into()),
                _ => {
                    files.backup = files.primary.take();
                    SaveEvent::Done
                }
            },
            SaveAction::RemovePrimary => remove_file(&mut files.primary),
            SaveAction::PromoteTemp => {
                files.primary = files.temp.take();
                SaveEvent::Done
            }
            SaveAction::CheckPrimary => SaveEvent::Present(files.primary.is_some()),
            SaveAction::RestorePrimary => {
                if let Some(Entry::File(raw)) = &files.backup {
                    files.primary = Some(Entry::File(raw.clone()));
                }
                SaveEvent::Done
            }
            SaveAction::RemoveTemp => {
                files.temp = None;
                SaveEvent::Done
            }
            SaveAction::Finish(result) => return result,
        };
        action = job.advance(event);
    }
}

#[test]
fn successful_save_keeps_previous_value_as_backup() {
    let mut files = Files::default();
    save(&mut files, &value("A")).unwrap();
    save(&mut files, &value("B")).unwrap();

    assert!(matches!(load(&files), LoadJson::Primary(v) if v == value("B")));
    assert!(matches!(load_backup_as_primary(&files), LoadJson::Primary(v) if v == value("A")));
}

#[test]
fn invalid_primary_recovers_from_valid_backup() {
    let files = Files {
        primary: Some(Entry::File("not json".into())),
        backup: Some(Entry::File(r#"{"name":"A"}"#.into())),
        temp: None,
    };

    assert!(matches!(load(&files), LoadJson::Backup(v) if v == value("A")));
}

#[test]
fn missing_files_are_not_reported_as_corruption() {
    let files = Files::default();
    assert!(matches!(load(&files), LoadJson::Missing));
}

#[test]
fn invalid_primary_and_backup_are_reported() {
    let files = Files {
        primary: Some(Entry::File("bad primary".into())),
        backup: Some(Entry::File("bad backup".into())),
        temp: None,
    };

    assert!(matches!(load(&files), LoadJson::Invalid { .. }));
}

#[test]
fn replacement_failure_keeps_the_previous_primary_readable() {
    let mut files = Files::default();
    save(&mut files, &value("A")).unwrap();
    // A directory at the backup path makes rotation fail after the
    // new temporary file has already been written.
    files.backup = Some(Entry::Dir);

    assert!(save(&mut files, &value("B")).is_err());
    assert!(matches!(load(&files), LoadJson::Primary(v) if v == value("A")));
    assert!(files.temp.is_none());
}

#[test]
fn invalid_files_report_each_reason() {
    let files = Files {
        primary: Some(Entry::File("bad primary".into())),
        backup: None,
        temp: None,
    };
    match load(&files) {
        LoadJson::Invalid { primary, backup } => {
            assert_eq!(primary, "primary JSON is invalid");
            assert_eq!(backup, None);
        }
        other => panic!("unexpected {:?}", other),
    }
    match load_json::<Value>(FileRead::NotFound("gone".into()), FileRead::Failed("denied".into())) {
        LoadJson::Invalid { primary, backup } => {
            assert_eq!(primary, "gone");
            assert_eq!(backup, Some("denied".to_string()));
        }
        other => panic!("unexpected {:?}", other),
    }
}

#[test]
fn failure_details_join_both_reasons() {
    let p = "primary JSON is invalid".to_string();
    assert_eq!(failure_detail(&p, &None), "primary JSON is invalid");
    assert_eq!(
        failure_detail(&p, &Some("backup JSON is invalid".into())),
        "primary JSON is invalid; backup: backup JSON is invalid"
    );
    assert_eq!(note3("a ", &"b".to_string(), " c"), "a b c");
}

#[test]
fn byte_order_marks_are_dropped_before_parsing() {
    assert_eq!(strip_bom("\u{feff}\u{feff}{}"), "{}");
    assert_eq!(strip_bom("x\u{feff}"), "x\u{feff}");
    let files = Files {
        primary: Some(Entry::File("\u{feff}{\"name\":\"A\"}".into())),
        backup: None,
        temp: None,
    };
    assert!(matches!(load(&files), LoadJson::Primary(v) if v == value("A")));
}

#[test]
fn corrupt_primary_is_replaced_without_touching_the_backup() {
    let mut files = Files {
        primary: Some(Entry::File("corrupt".into())),
        backup: Some(Entry::File(r#"{"name":"A"}"#.into())),
        temp: None,
    };
    save(&mut files, &value("B")).unwrap();
    assert!(matches!(load(&files), LoadJson::Primary(v) if v == value("B")));
    assert!(matches!(load_backup_as_primary(&files), LoadJson::Primary(v) if v == value("A")));
}

#[test]
fn early_failure_finishes_without_cleanup() {
    let (mut job, first) = SaveJob::start();
    assert_eq!(first, SaveAction::CreateParent);
    let next = job.advance(SaveEvent::Failed("read-only".into()));
    assert_eq!(next, SaveAction::Finish(Err("read-only".into())));
}

#[test]
fn failed_promotion_restores_a_missing_primary() {
    let (mut job, _) = SaveJob::start();
    assert_eq!(job.advance(SaveEvent::Done), SaveAction::Serialize);
    assert_eq!(job.advance(SaveEvent::Done), SaveAction::WriteTemp);
    assert_eq!(job.advance(SaveEvent::Done), SaveAction::InspectPrimary);
    assert_eq!(job.advance(SaveEvent::Primary { exists: true, valid: true }), SaveAction::CheckBackup);
    assert_eq!(job.advance(SaveEvent::Present(false)), SaveAction::RotatePrimary);
    assert_eq!(job.advance(SaveEvent::Done), SaveAction::PromoteTemp);
    assert_eq!(job.advance(SaveEvent::Failed("busy".into())), SaveAction::CheckPrimary);
    assert_eq!(job.advance(SaveEvent::Present(false)), SaveAction::RestorePrimary);
    assert_eq!(job.advance(SaveEvent::Failed("copy failed".into())), SaveAction::RemoveTemp);
    assert_eq!(job.advance(SaveEvent::Done), SaveAction::Finish(Err("busy".into())));
}
