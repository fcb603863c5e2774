//! Recoverable JSON files: `<name>.json` holds the committed value,
//! `<name>.json.tmp` an in-progress replacement and `<name>.json.bak`
//! the previous valid value.
//!
//! The file system is driven by the caller: loading decides from what
//! reading the two files gave, and saving is a step machine that names
//! each file operation and is told how it went.

use vstd::prelude::*;
use crate::text::{chars_of, push_str, slice_of, string_of};

verus! {

/// What loading a recoverable file found.
#[derive(Debug)]
pub enum LoadJson<T> {
    Missing,
    Primary(T),
    Backup(T),
    Invalid { primary: String, backup: Option<String> },
}

/// What reading and parsing one file gave.
#[derive(Debug)]
pub enum FileRead<T> {
    /// The file does not exist; the error's text.
    NotFound(String),
    /// The file could not be read; the error's text.
    Failed(String),
    /// The file was read but is not a valid value.
    Malformed,
    Parsed(T),
}

/// The reason reported for a file that gave no value.
pub open spec fn error_text<T>(r: FileRead<T>, invalid: Seq<char>) -> Seq<char> {
    match r {
        FileRead::NotFound(e) => e@,
        FileRead::Failed(e) => e@,
        _ => invalid,
    }
}

fn read_error<T>(result: FileRead<T>, invalid: &str) -> (r: String)
    ensures
        r@ == error_text(result, invalid@),
{
    match result {
        FileRead::NotFound(e) => e,
        FileRead::Failed(e) => e,
        _ => String::from_str(invalid),
    }
}

/// `r` is what loading decides from what reading the primary and the
/// backup gave: a valid primary, else a valid backup; `Missing` only when
/// neither file exists, and otherwise why each copy was unusable.
pub open spec fn loaded<T>(primary: FileRead<T>, backup: FileRead<T>, r: LoadJson<T>) -> bool {
    match primary {
        FileRead::Parsed(v) => r == LoadJson::Primary(v),
        _ => match backup {
            FileRead::Parsed(b) => r == LoadJson::<T>::Backup(b),
            _ => if primary is NotFound && backup is NotFound {
                r is Missing
            } else {
                &&& r is Invalid
                &&& r->Invalid_primary@ == error_text(primary, "primary JSON is invalid"@)
                &&& (backup is NotFound ==> r->Invalid_backup is None)
                &&& (!(backup is NotFound) ==> r->Invalid_backup is Some
                    && r->Invalid_backup->0@ == error_text(backup, "backup JSON is invalid"@))
            },
        },
    }
}

/// Prefers a valid primary, then a valid backup; reports `Missing` only
/// when neither file exists, and otherwise why each copy was unusable.
pub fn load_json<T>(primary: FileRead<T>, backup: FileRead<T>) -> (r: LoadJson<T>)
    ensures
        loaded(primary, backup, r),
{
    let primary = match primary {
        FileRead::Parsed(v) => return LoadJson::Primary(v),
        other => other,
    };
    let backup = match backup {
        FileRead::Parsed(b) => return LoadJson::Backup(b),
        other => other,
    };
    let primary_missing = match &primary {
        FileRead::NotFound(_) => true,
        _ => false,
    };
    let backup_missing = match &backup {
        FileRead::NotFound(_) => true,
        _ => false,
    };
    if primary_missing && backup_missing {
        return LoadJson::Missing;
    }
    let p = read_error(primary, "primary JSON is invalid");
    let b = if backup_missing {
        None
    } else {
        Some(read_error(backup, "backup JSON is invalid"))
    };
    LoadJson::Invalid { primary: p, backup: b }
}

/// Why neither copy could be used: the primary's reason, then the
/// backup's after "; backup: " when there is one.
pub open spec fn failure_detail_text(primary: Seq<char>, backup: Option<Seq<char>>) -> Seq<char> {
    match backup {
        Some(b) => primary + "; backup: "@ + b,
        None => primary,
    }
}

pub open spec fn opt_text(o: Option<String>) -> Option<Seq<char>> {
    match o {
        Some(s) => Some(s@),
        None => None,
    }
}

/// The text of `failure_detail_text`.
pub fn failure_detail(primary: &String, backup: &Option<String>) -> (r: String)
    ensures
        r@ == failure_detail_text(primary@, opt_text(*backup)),
{
    let mut r = primary.clone();
    match backup {
        Some(b) => {
            push_str(&mut r, "; backup: ");
            push_str(&mut r, b.as_str());
        },
        None => {},
    }
    r
}

/// `prefix + detail + suffix` as one note.
pub fn note3(prefix: &str, detail: &String, suffix: &str) -> (r: String)
    ensures
        r@ == prefix@ + detail@ + suffix@,
{
    let mut r = String::from_str(prefix);
    push_str(&mut r, detail.as_str());
    push_str(&mut r, suffix);
    r
}

/// `s` ends with `t`.
pub open spec fn ends_with(s: Seq<char>, t: Seq<char>) -> bool {
    s.len() >= t.len() && s.subrange(s.len() - t.len(), s.len() as int) == t
}

/// A plain file name: not empty, not `.` or `..`, and without path
/// separators or `:` (on Windows `C:x` is a drive-relative path, which
/// would replace the directory rather than join it).
pub open spec fn plain_name(name: Seq<char>) -> bool {
    &&& name.len() > 0
    &&& name != "."@
    &&& name != ".."@
    &&& forall|i: int| 0 <= i < name.len() ==> name[i] != '/' && name[i] != '\\' && name[i] != ':'
}

/// `dir` starts with the verbatim prefix `\\?\`, under which Windows
/// rebuilds the whole joined path from its components.
pub open spec fn verbatim(dir: Seq<char>) -> bool {
    dir.len() >= 4 && dir.subrange(0, 4) == seq!['\\', '\\', '?', '\\']
}

/// `path` is the file `name` in the directory `dir`: right after it, or
/// after one path separator.
pub open spec fn placed_in(path: Seq<char>, dir: Seq<char>, name: Seq<char>) -> bool {
    path == dir + name || exists|c: char| (c == '/' || c == '\\') && path == dir + seq![c] + name
}

/// `std::path::Path::join`, with the joined path read back as text
/// (`to_string_lossy`, lossless on paths made from text). Trusted to give
/// `dir` followed by `name`, with a separator between them where `dir`
/// does not already end with one, as the documentation of
/// `PathBuf::push` describes for a relative file name. Under a Windows
/// verbatim prefix the documentation has the whole path normalized, so
/// there only the ending with `name` is claimed; which separator is used
/// depends on the platform and is left unsaid.
#[verifier::external_body]
pub(crate) fn join_path(dir: &str, name: &str) -> (r: String)
    requires
        plain_name(name@),
    ensures
        ends_with(r@, name@),
        !verbatim(dir@) ==> placed_in(r@, dir@, name@),
{
    std::path::Path::new(dir).join(name).to_string_lossy().into_owned()
}

/// `s` without its leading byte-order marks.
pub open spec fn without_bom(s: Seq<char>) -> Seq<char>
    decreases s.len(),
{
    if s.len() > 0 && s[0] == '\u{feff}' {
        without_bom(s.drop_first())
    } else {
        s
    }
}

/// The text a JSON file is parsed from: any leading byte-order marks dropped.
pub fn strip_bom(raw: &str) -> (r: String)
    ensures
        r@ == without_bom(raw@),
{
    let s = chars_of(raw);
    let n = s.len();
    let mut a: usize = 0;
    assert(s@.subrange(0, n as int) =~= s@);
    while a < n && s[a] == '\u{feff}'
        invariant
            a <= n == s.len(),
            without_bom(s@) == without_bom(s@.subrange(a as int, n as int)),
        decreases n - a,
    {
        assert(s@.subrange(a as int, n as int).drop_first() =~= s@.subrange(a + 1, n as int));
        a = a + 1;
    }
    let t = slice_of(&s, a, n);
    assert(without_bom(t@) == t@) by {
        if t@.len() > 0 {
            assert(t@[0] == s@[a as int]);
        }
    }
    string_of(&t)
}

/// One file operation of a save, for the caller to carry out.
#[derive(Debug, PartialEq, Eq)]
pub enum SaveAction {
    /// Create the directory holding the file.
    CreateParent,
    /// Render the value as JSON text.
    Serialize,
    /// Create the temporary file, write the text in full and flush it to disk.
    WriteTemp,
    /// Report whether the primary exists and holds valid JSON.
    InspectPrimary,
    /// Report whether the backup exists.
    CheckBackup,
    /// Delete the backup.
    RemoveBackup,
    /// Rename the primary to the backup.
    RotatePrimary,
    /// Delete the (invalid) primary.
    RemovePrimary,
    /// Rename the temporary file to the primary.
    PromoteTemp,
    /// Report whether the primary exists.
    CheckPrimary,
    /// Copy the backup to the primary; the result does not matter.
    RestorePrimary,
    /// Delete the temporary file; the result does not matter.
    RemoveTemp,
    /// The save is over with this result.
    Finish(Result<(), String>),
}

/// How the last operation went.
#[derive(Debug)]
pub enum SaveEvent {
    Done,
    Failed(String),
    Primary { exists: bool, valid: bool },
    Present(bool),
}

/// Where a save stands.
#[derive(Debug, Clone, Copy, PartialEq, Eq, Structural)]
pub enum SaveStage {
    CreateParent,
    Serialize,
    WriteTemp,
    InspectPrimary,
    CheckBackup,
    RemoveBackup,
    RotatePrimary,
    RemovePrimary,
    PromoteTemp,
    CheckPrimary,
    RestorePrimary,
    RemoveTemp,
    Finished,
}

/// A save in progress: the stage whose operation is being carried out,
/// whether the primary was valid before the save, and the error to
/// report once the temporary file is cleaned up.
#[derive(Debug)]
pub struct SaveJob {
    pub stage: SaveStage,
    pub primary_valid: bool,
    pub error: Option<String>,
}

pub struct JobView {
    pub stage: SaveStage,
    pub primary_valid: bool,
    pub error: Option<Seq<char>>,
}

impl View for SaveJob {
    type V = JobView;

    open spec fn view(&self) -> JobView {
        JobView {
            stage: self.stage,
            primary_valid: self.primary_valid,
            error: match self.error {
                Some(e) => Some(e@),
                None => None,
            },
        }
    }
}

/// The stage an action belongs to.
pub open spec fn stage_of(a: SaveAction) -> SaveStage {
    match a {
        SaveAction::CreateParent => SaveStage::CreateParent,
        SaveAction::Serialize => SaveStage::Serialize,
        SaveAction::WriteTemp => SaveStage::WriteTemp,
        SaveAction::InspectPrimary => SaveStage::InspectPrimary,
        SaveAction::CheckBackup => SaveStage::CheckBackup,
        SaveAction::RemoveBackup => SaveStage::RemoveBackup,
        SaveAction::RotatePrimary => SaveStage::RotatePrimary,
        SaveAction::RemovePrimary => SaveStage::RemovePrimary,
        SaveAction::PromoteTemp => SaveStage::PromoteTemp,
        SaveAction::CheckPrimary => SaveStage::CheckPrimary,
        SaveAction::RestorePrimary => SaveStage::RestorePrimary,
        SaveAction::RemoveTemp => SaveStage::RemoveTemp,
        SaveAction::Finish(_) => SaveStage::Finished,
    }
}

/// The next stage of a save, and whether the primary was valid, after
/// `event` ended the operation of stage `s`; `err` is the text of a
/// failure. A failure before the temporary file exists ends the save; a
/// later one cleans the temporary file up first.
pub open spec fn next_stage(s: SaveStage, pv: bool, event: SaveEvent) -> (SaveStage, bool) {
    match s {
        SaveStage::CreateParent => if event is Failed {
            (SaveStage::Finished, pv)
        } else {
            (SaveStage::Serialize, pv)
        },
        SaveStage::Serialize => if event is Failed {
            (SaveStage::Finished, pv)
        } else {
            (SaveStage::WriteTemp, pv)
        },
        SaveStage::WriteTemp => if event is Failed {
            (SaveStage::RemoveTemp, pv)
        } else {
            (SaveStage::InspectPrimary, pv)
        },
        SaveStage::InspectPrimary => match event {
            SaveEvent::Primary { exists, valid } => if valid {
                (SaveStage::CheckBackup, true)
            } else if exists {
                (SaveStage::RemovePrimary, false)
            } else {
                (SaveStage::PromoteTemp, false)
            },
            _ => (SaveStage::RemoveTemp, false),
        },
        SaveStage::CheckBackup => match event {
            SaveEvent::Present(false) => (SaveStage::RotatePrimary, pv),
            _ => (SaveStage::RemoveBackup, pv),
        },
        SaveStage::RemoveBackup => if event is Failed {
            (SaveStage::RemoveTemp, pv)
        } else {
            (SaveStage::RotatePrimary, pv)
        },
        SaveStage::RotatePrimary => if event is Failed {
            (SaveStage::RemoveTemp, pv)
        } else {
            (SaveStage::PromoteTemp, pv)
        },
        SaveStage::RemovePrimary => if event is Failed {
            (SaveStage::RemoveTemp, pv)
        } else {
            (SaveStage::PromoteTemp, pv)
        },
        SaveStage::PromoteTemp => if event is Failed {
            if pv {
                (SaveStage::CheckPrimary, pv)
            } else {
                (SaveStage::RemoveTemp, pv)
            }
        } else {
            (SaveStage::Finished, pv)
        },
        SaveStage::CheckPrimary => match event {
            SaveEvent::Present(false) => (SaveStage::RestorePrimary, pv),
            _ => (SaveStage::RemoveTemp, pv),
        },
        SaveStage::RestorePrimary => (SaveStage::RemoveTemp, pv),
        SaveStage::RemoveTemp => (SaveStage::Finished, pv),
        SaveStage::Finished => (SaveStage::Finished, pv),
    }
}

/// The error a save reports: the first failure, or one for an
/// inspection that gave no answer.
pub open spec fn next_error(s: SaveStage, error: Option<Seq<char>>, event: SaveEvent) -> Option<Seq<char>> {
    if error is Some {
        error
    } else {
        match event {
            SaveEvent::Failed(e) => if s == SaveStage::RestorePrimary || s == SaveStage::RemoveTemp {
                error
            } else {
                Some(e@)
            },
            _ => if s == SaveStage::InspectPrimary {
                match event {
                    SaveEvent::Primary { .. } => error,
                    _ => Some("the primary file could not be inspected"@),
                }
            } else {
                error
            },
        }
    }
}

/// Whether `a` is the operation of stage `s`; a finished save reports
/// success exactly when no error was recorded, else that error.
pub open spec fn action_matches(a: SaveAction, s: SaveStage, error: Option<Seq<char>>) -> bool {
    &&& stage_of(a) == s
    &&& (s == SaveStage::Finished ==> match a {
        SaveAction::Finish(Ok(())) => error is None,
        SaveAction::Finish(Err(e)) => error == Some(e@),
        _ => false,
    })
}

impl SaveJob {
    /// Starts a save: the first operation creates the parent directory.
    pub fn start() -> (r: (SaveJob, SaveAction))
        ensures
            r.0@ == (JobView { stage: SaveStage::CreateParent, primary_valid: false, error: None }),
            r.1 == SaveAction::CreateParent,
    {
        (SaveJob { stage: SaveStage::CreateParent, primary_valid: false, error: None }, SaveAction::CreateParent)
    }

    /// Takes the outcome of the current operation and names the next one.
    pub fn advance(&mut self, event: SaveEvent) -> (a: SaveAction)
        ensures
            final(self)@.stage == next_stage(old(self)@.stage, old(self)@.primary_valid, event).0,
            final(self)@.primary_valid == next_stage(old(self)@.stage, old(self)@.primary_valid, event).1,
            final(self)@.error == next_error(old(self)@.stage, old(self)@.error, event),
            action_matches(a, final(self)@.stage, final(self)@.error),
    {
        let ghost ev = event;
        let failed = match &event {
            SaveEvent::Failed(_) => true,
            _ => false,
        };
        let stage = self.stage;
        let pv = self.primary_valid;
        let (next, npv): (SaveStage, bool) = match stage {
            SaveStage::CreateParent => if failed {
                (SaveStage::Finished, pv)
            } else {
                (SaveStage::Serialize, pv)
            },
            SaveStage::Serialize => if failed {
                (SaveStage::Finished, pv)
            } else {
                (SaveStage::WriteTemp, pv)
            },
            SaveStage::WriteTemp => if failed {
                (SaveStage::RemoveTemp, pv)
            } else {
                (SaveStage::InspectPrimary, pv)
            },
            SaveStage::InspectPrimary => match &event {
                SaveEvent::Primary { exists, valid } => if *valid {
                    (SaveStage::CheckBackup, true)
                } else if *exists {
                    (SaveStage::RemovePrimary, false)
                } else {
                    (SaveStage::PromoteTemp, false)
                },
                _ => (SaveStage::RemoveTemp, false),
            },
            SaveStage::CheckBackup => match &event {
                SaveEvent::Present(false) => (SaveStage::RotatePrimary, pv),
                _ => (SaveStage::RemoveBackup, pv),
            },
            SaveStage::RemoveBackup => if failed {
                (SaveStage::RemoveTemp, pv)
            } else {
                (SaveStage::RotatePrimary, pv)
            },
            SaveStage::RotatePrimary => if failed {
                (SaveStage::RemoveTemp, pv)
            } else {
                (SaveStage::PromoteTemp, pv)
            },
            SaveStage::RemovePrimary => if failed {
                (SaveStage::RemoveTemp, pv)
            } else {
                (SaveStage::PromoteTemp, pv)
            },
            SaveStage::PromoteTemp => if failed {
                if pv {
                    (SaveStage::CheckPrimary, pv)
                } else {
                    (SaveStage::RemoveTemp, pv)
                }
            } else {
                (SaveStage::Finished, pv)
            },
            SaveStage::CheckPrimary => match &event {
                SaveEvent::Present(false) => (SaveStage::RestorePrimary, pv),
                _ => (SaveStage::RemoveTemp, pv),
            },
            SaveStage::RestorePrimary => (SaveStage::RemoveTemp, pv),
            SaveStage::RemoveTemp => (SaveStage::Finished, pv),
            SaveStage::Finished => (SaveStage::Finished, pv),
        };
        if self.error.is_none() {
            match event {
                SaveEvent::Failed(e) => {
                    if stage != SaveStage::RestorePrimary && stage != SaveStage::RemoveTemp {
                        self.error = Some(e);
                    }
                },
                SaveEvent::Primary { .. } => {},
                _ => {
                    if stage == SaveStage::InspectPrimary {
                        self.error = Some(String::from_str("the primary file could not be inspected"));
                    }
                },
            }
        }
        self.stage = next;
        self.primary_valid = npv;
        match next {
            SaveStage::CreateParent => SaveAction::CreateParent,
            SaveStage::Serialize => SaveAction::Serialize,
            SaveStage::WriteTemp => SaveAction::WriteTemp,
            SaveStage::InspectPrimary => SaveAction::InspectPrimary,
            SaveStage::CheckBackup => SaveAction::CheckBackup,
            SaveStage::RemoveBackup => SaveAction::RemoveBackup,
            SaveStage::RotatePrimary => SaveAction::RotatePrimary,
            SaveStage::RemovePrimary => SaveAction::RemovePrimary,
            SaveStage::PromoteTemp => SaveAction::PromoteTemp,
            SaveStage::CheckPrimary => SaveAction::CheckPrimary,
            SaveStage::RestorePrimary => SaveAction::RestorePrimary,
            SaveStage::RemoveTemp => SaveAction::RemoveTemp,
            SaveStage::Finished => SaveAction::Finish(
                match &self.error {
                    Some(e) => Err(e.clone()),
                    None => Ok(()),
                },
            ),
        }
    }
}

/// A file as the save protocol sees it: absent, or present with some
/// content that is or is not valid JSON.
pub enum Slot {
    Absent,
    File { content: int, valid: bool },
}

/// The three files of one recoverable value.
pub struct Files {
    pub primary: Slot,
    pub backup: Slot,
    pub temp: Slot,
}

pub open spec fn is_valid_file(s: Slot) -> bool {
    s matches Slot::File { valid, .. } && valid
}

/// `event` is a true report of the operation of stage `s` on the files `f`.
pub open spec fn truthful(s: SaveStage, f: Files, event: SaveEvent) -> bool {
    match s {
        SaveStage::InspectPrimary => event matches SaveEvent::Primary { exists, valid } && exists == !(
        f.primary is Absent) && valid == is_valid_file(f.primary),
        SaveStage::CheckBackup => event matches SaveEvent::Present(b) && b == !(f.backup is Absent),
        SaveStage::CheckPrimary => event matches SaveEvent::Present(b) && b == !(f.primary is Absent),
        _ => event is Done || event is Failed,
    }
}

/// `g` is a possible state of the files after the operation of stage `s`
/// on `f` ended with `event`, where `new` is the content being saved.
/// Renames and deletions that fail change nothing; a failed write may
/// leave anything in the temporary file and a failed copy anything in
/// the primary.
pub open spec fn effect(s: SaveStage, f: Files, event: SaveEvent, new: int, g: Files) -> bool {
    let ok = event is Done;
    match s {
        SaveStage::WriteTemp => if ok {
            g == Files { temp: Slot::File { content: new, valid: true }, ..f }
        } else {
            g.primary == f.primary && g.backup == f.backup
        },
        SaveStage::RemoveBackup => if ok {
            g == Files { backup: Slot::Absent, ..f }
        } else {
            g == f
        },
        SaveStage::RotatePrimary => if ok {
            g == Files { primary: Slot::Absent, backup: f.primary, ..f }
        } else {
            g == f
        },
        SaveStage::RemovePrimary => if ok {
            g == Files { primary: Slot::Absent, ..f }
        } else {
            g == f
        },
        SaveStage::PromoteTemp => if ok {
            g == Files { primary: f.temp, temp: Slot::Absent, ..f }
        } else {
            g == f
        },
        SaveStage::RestorePrimary => if ok {
            g == Files { primary: f.backup, ..f }
        } else {
            g.backup == f.backup && g.temp == f.temp
        },
        SaveStage::RemoveTemp => if ok {
            g == Files { temp: Slot::Absent, ..f }
        } else {
            g == f
        },
        _ => g == f,
    }
}

/// The value committed before the save can still be loaded: a valid
/// primary is still the primary or the backup, and when the primary was
/// not valid the backup is untouched.
pub open spec fn recoverable(f: Files, init: Files) -> bool {
    &&& is_valid_file(init.primary) ==> (f.primary == init.primary || f.backup == init.primary)
    &&& !is_valid_file(init.primary) ==> f.backup == init.backup
}

/// What holds of the files at each stage of a save that started from
/// `init` and writes content `new`.
pub open spec fn save_inv(j: JobView, f: Files, init: Files, new: int) -> bool {
    let pv = is_valid_file(init.primary);
    let temp_new = f.temp == Slot::File { content: new, valid: true };
    match j.stage {
        SaveStage::CreateParent | SaveStage::Serialize | SaveStage::WriteTemp => {
            &&& f.primary == init.primary
            &&& f.backup == init.backup
            &&& j.error is None
        },
        SaveStage::InspectPrimary => {
            &&& f.primary == init.primary
            &&& f.backup == init.backup
            &&& temp_new
            &&& j.error is None
        },
        SaveStage::CheckBackup | SaveStage::RemoveBackup => {
            &&& pv && j.primary_valid
            &&& f.primary == init.primary
            &&& f.backup == init.backup
            &&& temp_new
            &&& j.error is None
        },
        SaveStage::RotatePrimary => {
            &&& pv && j.primary_valid
            &&& f.primary == init.primary
            &&& temp_new
            &&& j.error is None
        },
        SaveStage::RemovePrimary => {
            &&& !pv && !j.primary_valid
            &&& f.primary == init.primary
            &&& f.backup == init.backup
            &&& temp_new
            &&& j.error is None
        },
        SaveStage::PromoteTemp => {
            &&& j.primary_valid == pv
            &&& f.primary is Absent
            &&& (pv ==> f.backup == init.primary)
            &&& (!pv ==> f.backup == init.backup)
            &&& temp_new
            &&& j.error is None
        },
        SaveStage::CheckPrimary | SaveStage::RestorePrimary => {
            &&& pv && j.primary_valid
            &&& f.backup == init.primary
            &&& j.error is Some
        },
        SaveStage::RemoveTemp => {
            &&& j.error is Some
            &&& recoverable(f, init)
        },
        SaveStage::Finished => {
            &&& j.error is None ==> {
                &&& f.primary == Slot::File { content: new, valid: true }
                &&& f.temp is Absent
                &&& (pv ==> f.backup == init.primary)
                &&& (!pv ==> f.backup == init.backup)
            }
            &&& j.error is Some ==> recoverable(f, init)
        },
    }
}

/// Law: a save starts in a state of its protocol.
pub proof fn save_starts_consistent(init: Files, new: int)
    ensures
        save_inv(JobView { stage: SaveStage::CreateParent, primary_valid: false, error: None }, init, init, new),
{
}

/// Law: whatever each file operation reports, as long as it reports the
/// truth, every step of a save keeps the protocol's invariant.
pub proof fn save_step_keeps_protocol(j: JobView, f: Files, init: Files, new: int, event: SaveEvent, g: Files)
    requires
        save_inv(j, f, init, new),
        j.stage != SaveStage::Finished,
        truthful(j.stage, f, event),
        effect(j.stage, f, event, new, g),
    ensures
        save_inv(
            JobView {
                stage: next_stage(j.stage, j.primary_valid, event).0,
                primary_valid: next_stage(j.stage, j.primary_valid, event).1,
                error: next_error(j.stage, j.error, event),
            },
            g,
            init,
            new,
        ),
{
}

/// Law: a save that reports success leaves the new value complete in the
/// primary and the previous valid primary as the backup (an invalid
/// primary is never promoted to backup); a save that reports failure
/// leaves the previously committed value loadable.
pub proof fn finished_save_outcome(j: JobView, f: Files, init: Files, new: int)
    requires
        save_inv(j, f, init, new),
        j.stage == SaveStage::Finished,
    ensures
        j.error is None ==> f.primary == (Slot::File { content: new, valid: true }),
        j.error is None && is_valid_file(init.primary) ==> f.backup == init.primary,
        j.error is None && !is_valid_file(init.primary) ==> f.backup == init.backup,
        j.error is Some ==> recoverable(f, init),
{
}

/// How many operations a save has left at most from each stage.
pub open spec fn stage_rank(s: SaveStage) -> nat {
    match s {
        SaveStage::CreateParent => 12,
        SaveStage::Serialize => 11,
        SaveStage::WriteTemp => 10,
        SaveStage::InspectPrimary => 9,
        SaveStage::CheckBackup => 8,
        SaveStage::RemoveBackup => 7,
        SaveStage::RotatePrimary => 6,
        SaveStage::RemovePrimary => 5,
        SaveStage::PromoteTemp => 4,
        SaveStage::CheckPrimary => 3,
        SaveStage::RestorePrimary => 2,
        SaveStage::RemoveTemp => 1,
        SaveStage::Finished => 0,
    }
}

/// Law: whatever the operations report, every step of an unfinished save
/// moves on, so a save finishes after at most 12 operations.
pub proof fn every_save_finishes(s: SaveStage, pv: bool, event: SaveEvent)
    requires
        s != SaveStage::Finished,
    ensures
        stage_rank(next_stage(s, pv, event).0) < stage_rank(s),
        stage_rank(SaveStage::CreateParent) == 12,
{
}

/// Law: what a successful save wrote loads back unchanged. The save
/// leaves the new content, complete and valid, in the primary; when that
/// content is read back as the value that was saved, loading takes it as
/// it is, whatever the backup holds.
pub proof fn saved_value_loads_back<T>(j: JobView, f: Files, init: Files, new: int, value: T, backup: FileRead<T>, r: LoadJson<T>)
    requires
        save_inv(j, f, init, new),
        j.stage == SaveStage::Finished,
        j.error is None,
        loaded(FileRead::Parsed(value), backup, r),
    ensures
        f.primary == (Slot::File { content: new, valid: true }),
        r == LoadJson::Primary(value),
{
}

} // verus!
