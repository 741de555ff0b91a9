//! The safe configuration writer: a new text is put in place of a file's
//! content only where it differs, and, where the policy asks for it, only
//! after the earlier content was copied to a backup.
//!
//! The writer decides and its caller acts. The caller carries out the action
//! that the writer names, reports what came of it as an event, and goes on
//! until the action is `Finish`. The order is fixed: read, compare, back up,
//! write, report.
//!
//! The write is not atomic: the target is truncated and written in place, so
//! that a crash in the middle of it can leave the target cut short. The
//! backup, where one was made, is then the way back. Two backups made within
//! the same second have the same name, and the later one takes the place of
//! the earlier.

use crate::clock::local_time_text;
use crate::config::UpdatePolicy;
use crate::error::ErrorKind;
use vstd::prelude::*;
use vstd::string::*;

verus! {

/// How an update ended well. The two are told apart, so that "nothing changed"
/// is never mistaken for "changed".
#[derive(Debug, Clone, Copy, PartialEq, Eq, Structural)]
pub enum UpdateOutcome {
    /// The new content was written.
    Updated,
    /// The file held the new content already, and nothing was touched.
    AlreadyUpToDate,
}

impl UpdateOutcome {
    /// What `message` says of each outcome.
    pub open spec fn description(self) -> Seq<char> {
        match self {
            UpdateOutcome::Updated => "Git config updated successfully"@,
            UpdateOutcome::AlreadyUpToDate => "Git config is already up to date"@,
        }
    }

    /// The report for the user.
    pub fn message(&self) -> (text: String)
        ensures
            text@ == self.description(),
    {
        match self {
            UpdateOutcome::Updated => "Git config updated successfully".to_owned(),
            UpdateOutcome::AlreadyUpToDate => "Git config is already up to date".to_owned(),
        }
    }
}

/// Where an update stands.
#[derive(Debug, Clone, Copy, PartialEq, Eq)]
pub enum Phase {
    /// The target's content is being read.
    Reading,
    /// The backup directory is being made.
    MakingBackupDir,
    /// The target is being copied into the backup directory.
    CopyingBackup,
    /// The new content is being written.
    Writing,
    /// The update is over.
    Finished { result: Result<UpdateOutcome, ErrorKind> },
}

/// What came of the action that the writer named last.
#[derive(Debug, PartialEq, Eq)]
pub enum Event {
    /// The target was looked for and does not exist.
    Missing,
    /// The target was read and holds this content.
    Content { current: String },
    /// The action was carried out.
    Succeeded,
    /// The action could not be carried out.
    Failed,
}

/// What an `Event` holds.
pub enum EventView {
    Missing,
    Content { current: Seq<char> },
    Succeeded,
    Failed,
}

impl View for Event {
    type V = EventView;

    open spec fn view(&self) -> EventView {
        match self {
            Event::Missing => EventView::Missing,
            Event::Content { current } => EventView::Content { current: current@ },
            Event::Succeeded => EventView::Succeeded,
            Event::Failed => EventView::Failed,
        }
    }
}

/// What the caller is to do next.
#[derive(Debug, PartialEq, Eq)]
pub enum Action {
    /// Read the target: report `Content`, `Missing` where it does not exist,
    /// `Failed` where it cannot be read.
    ReadTarget,
    /// Make sure that the directory exists.
    CreateBackupDir { dir: String },
    /// Copy the target as it is to a file of this name in the directory.
    CopyToBackup { dir: String, file_name: String },
    /// Create or truncate the target and write this content in full.
    WriteTarget { content: String },
    /// Stop, and hand this result on.
    Finish { result: Result<UpdateOutcome, ErrorKind> },
}

/// What an `Action` holds.
pub enum ActionView {
    ReadTarget,
    CreateBackupDir { dir: Seq<char> },
    CopyToBackup { dir: Seq<char>, file_name: Seq<char> },
    WriteTarget { content: Seq<char> },
    Finish { result: Result<UpdateOutcome, ErrorKind> },
}

impl View for Action {
    type V = ActionView;

    open spec fn view(&self) -> ActionView {
        match self {
            Action::ReadTarget => ActionView::ReadTarget,
            Action::CreateBackupDir { dir } => ActionView::CreateBackupDir { dir: dir@ },
            Action::CopyToBackup { dir, file_name } => ActionView::CopyToBackup {
                dir: dir@,
                file_name: file_name@,
            },
            Action::WriteTarget { content } => ActionView::WriteTarget { content: content@ },
            Action::Finish { result } => ActionView::Finish { result: *result },
        }
    }
}

/// The name of the backup made at a time, for a target with an extension.
pub open spec fn backup_name(timestamp: Seq<char>, extension: Seq<char>) -> Seq<char> {
    "backup_"@ + timestamp + "."@ + extension
}

/// The name of the backup made at a time, for a target with an extension:
/// `backup_`, the time, a dot, the extension.
pub fn backup_file_name(timestamp: &str, extension: &str) -> (name: String)
    ensures
        name@ == backup_name(timestamp@, extension@),
{
    let mut name = "backup_".to_owned();
    name.append(timestamp);
    name.append(".");
    name.append(extension);
    name
}

/// One update of one target.
pub struct SafeConfigWriter {
    content: String,
    policy: UpdatePolicy,
    extension: String,
    phase: Phase,
}

/// What a `SafeConfigWriter` holds.
pub struct Update {
    /// The content that the target is to have.
    pub content: Seq<char>,
    /// Whether a changed target is copied before it is overwritten.
    pub backup_enabled: bool,
    /// The directory that takes the copy.
    pub backup_dir: Seq<char>,
    /// The target's extension, which the copy keeps.
    pub extension: Seq<char>,
    /// Where the update stands.
    pub phase: Phase,
}

impl View for SafeConfigWriter {
    type V = Update;

    closed spec fn view(&self) -> Update {
        Update {
            content: self.content@,
            backup_enabled: self.policy.backup_enabled,
            backup_dir: self.policy.backup_dir@,
            extension: self.extension@,
            phase: self.phase,
        }
    }
}

impl Update {
    /// The phase that follows the reading of the target: nothing is done where
    /// the content is the new one already; a target that exists is copied
    /// first where the policy asks for it; else the content is written.
    pub open spec fn compared(self, current: Seq<char>, exists: bool) -> Phase {
        if current == self.content {
            Phase::Finished { result: Ok(UpdateOutcome::AlreadyUpToDate) }
        } else if self.backup_enabled && exists {
            Phase::MakingBackupDir
        } else {
            Phase::Writing
        }
    }

    /// The phase that follows an event. A target that does not exist counts as
    /// empty. A step of the backup that fails ends the update with `Backup`,
    /// before anything is written; a read or a write that fails ends it with
    /// `Io`. An update that is over stays as it is.
    pub open spec fn next_phase(self, event: EventView) -> Phase {
        match self.phase {
            Phase::Reading => match event {
                EventView::Missing => self.compared(Seq::empty(), false),
                EventView::Content { current } => self.compared(current, true),
                _ => Phase::Finished { result: Err(ErrorKind::Io) },
            },
            Phase::MakingBackupDir => match event {
                EventView::Succeeded => Phase::CopyingBackup,
                _ => Phase::Finished { result: Err(ErrorKind::Backup) },
            },
            Phase::CopyingBackup => match event {
                EventView::Succeeded => Phase::Writing,
                _ => Phase::Finished { result: Err(ErrorKind::Backup) },
            },
            Phase::Writing => match event {
                EventView::Succeeded => Phase::Finished { result: Ok(UpdateOutcome::Updated) },
                _ => Phase::Finished { result: Err(ErrorKind::Io) },
            },
            Phase::Finished { result } => Phase::Finished { result },
        }
    }

    /// The update after an event.
    pub open spec fn after(self, event: EventView) -> Update {
        Update { phase: self.next_phase(event), ..self }
    }

    /// The action that the update asks for, the local time being `now`.
    pub open spec fn action(self, now: Seq<char>) -> ActionView {
        match self.phase {
            Phase::Reading => ActionView::ReadTarget,
            Phase::MakingBackupDir => ActionView::CreateBackupDir { dir: self.backup_dir },
            Phase::CopyingBackup => ActionView::CopyToBackup {
                dir: self.backup_dir,
                file_name: backup_name(now, self.extension),
            },
            Phase::Writing => ActionView::WriteTarget { content: self.content },
            Phase::Finished { result } => ActionView::Finish { result },
        }
    }
}

impl SafeConfigWriter {
    /// An update that puts `content` in place of the target's content. The
    /// extension is the target's, without the dot.
    pub fn new(content: String, policy: UpdatePolicy, extension: String) -> (writer: Self)
        ensures
            writer@ == (Update {
                content: content@,
                backup_enabled: policy.backup_enabled,
                backup_dir: policy.backup_dir@,
                extension: extension@,
                phase: Phase::Reading,
            }),
    {
        SafeConfigWriter { content, policy, extension, phase: Phase::Reading }
    }

    /// Where the update stands.
    pub fn phase(&self) -> (phase: Phase)
        ensures
            phase == self@.phase,
    {
        self.phase
    }

    /// Takes in what came of the last action.
    pub fn advance(&mut self, event: Event)
        ensures
            final(self)@ == old(self)@.after(event@),
    {
        let next = match self.phase {
            Phase::Reading => match event {
                Event::Missing => self.compare(&String::new(), false),
                Event::Content { current } => self.compare(&current, true),
                _ => Phase::Finished { result: Err(ErrorKind::Io) },
            },
            Phase::MakingBackupDir => match event {
                Event::Succeeded => Phase::CopyingBackup,
                _ => Phase::Finished { result: Err(ErrorKind::Backup) },
            },
            Phase::CopyingBackup => match event {
                Event::Succeeded => Phase::Writing,
                _ => Phase::Finished { result: Err(ErrorKind::Backup) },
            },
            Phase::Writing => match event {
                Event::Succeeded => Phase::Finished { result: Ok(UpdateOutcome::Updated) },
                _ => Phase::Finished { result: Err(ErrorKind::Io) },
            },
            Phase::Finished { result } => Phase::Finished { result },
        };
        self.phase = next;
    }

    /// The phase that follows the reading of the target.
    fn compare(&self, current: &String, exists: bool) -> (phase: Phase)
        ensures
            phase == self@.compared(current@, exists),
    {
        if *current == self.content {
            Phase::Finished { result: Ok(UpdateOutcome::AlreadyUpToDate) }
        } else if self.policy.backup_enabled && exists {
            Phase::MakingBackupDir
        } else {
            Phase::Writing
        }
    }

    /// The action that the update asks for, a backup being named after the
    /// given time.
    pub fn action_at(&self, timestamp: &str) -> (action: Action)
        ensures
            action@ == self@.action(timestamp@),
    {
        match self.phase {
            Phase::Reading => Action::ReadTarget,
            Phase::MakingBackupDir => Action::CreateBackupDir {
                dir: self.policy.backup_dir.clone(),
            },
            Phase::CopyingBackup => Action::CopyToBackup {
                dir: self.policy.backup_dir.clone(),
                file_name: backup_file_name(timestamp, self.extension.as_str()),
            },
            Phase::Writing => Action::WriteTarget { content: self.content.clone() },
            Phase::Finished { result } => Action::Finish { result },
        }
    }

    /// The action that the update asks for, a backup being named after the
    /// local time of this call, to the second.
    pub fn action(&self) -> (action: Action)
        ensures
            exists|now: Seq<char>| action@ == #[trigger] self@.action(now),
    {
        match self.phase {
            Phase::CopyingBackup => {
                let timestamp = local_time_text("%Y%m%d_%H%M%S");
                self.action_at(timestamp.as_str())
            },
            _ => self.action_at(""),
        }
    }

    /// Takes in what came of the last action, and names the next one.
    pub fn step(&mut self, event: Event) -> (action: Action)
        ensures
            final(self)@ == old(self)@.after(event@),
            exists|now: Seq<char>| action@ == #[trigger] final(self)@.action(now),
    {
        self.advance(event);
        self.action()
    }
}

/// The files that an update touches: the target, and the backup directory by
/// file name.
pub struct Files {
    /// The target's content, or `None` where it does not exist.
    pub target: Option<Seq<char>>,
    /// The content of each file in the backup directory.
    pub backups: Map<Seq<char>, Seq<char>>,
}

/// What a caller that never fails makes of an action: the event that it
/// reports, and the files as they are then.
pub open spec fn perform(action: ActionView, files: Files) -> (EventView, Files) {
    match action {
        ActionView::ReadTarget => match files.target {
            Some(current) => (EventView::Content { current }, files),
            None => (EventView::Missing, files),
        },
        ActionView::CreateBackupDir { dir } => (EventView::Succeeded, files),
        ActionView::CopyToBackup { dir, file_name } => match files.target {
            Some(current) => (
                EventView::Succeeded,
                Files { backups: files.backups.insert(file_name, current), ..files },
            ),
            None => (EventView::Failed, files),
        },
        ActionView::WriteTarget { content } => (
            EventView::Succeeded,
            Files { target: Some(content), ..files },
        ),
        ActionView::Finish { result } => (EventView::Succeeded, files),
    }
}

impl Update {
    /// The number of actions that the update may still ask for before it is
    /// over.
    pub open spec fn actions_left(self) -> nat {
        match self.phase {
            Phase::Reading => 4,
            Phase::MakingBackupDir => 3,
            Phase::CopyingBackup => 2,
            Phase::Writing => 1,
            Phase::Finished { result } => 0,
        }
    }

    /// The update carried through by a caller that never fails, the local time
    /// being `now`: how it ends, and the files as they are then.
    pub open spec fn run(self, files: Files, now: Seq<char>) -> (
        Result<UpdateOutcome, ErrorKind>,
        Files,
    )
        decreases self.actions_left(),
    {
        match self.phase {
            Phase::Finished { result } => (result, files),
            _ => {
                let (event, files_then) = perform(self.action(now), files);
                self.after(event).run(files_then, now)
            },
        }
    }
}

/// Every event brings an update that is not over nearer to its end: it asks
/// for at most four actions.
pub proof fn lemma_update_ends(update: Update, event: EventView)
    requires
        !(update.phase is Finished),
    ensures
        update.after(event).actions_left() < update.actions_left(),
{
}

/// An update that is over stays over, with the same result, and asks for
/// nothing more: after a failed backup nothing is ever written.
pub proof fn lemma_finished_update_stays(update: Update, event: EventView, now: Seq<char>)
    requires
        update.phase is Finished,
    ensures
        update.after(event) == update,
        update.action(now) == (ActionView::Finish { result: update.phase->result }),
{
}

/// The new content is only written after the target was read and found to
/// differ, and, where it exists and the policy asks for a backup, only after
/// the copy was made.
pub proof fn lemma_write_follows_backup(update: Update, event: EventView)
    requires
        update.phase != Phase::Writing,
        update.after(event).phase == Phase::Writing,
    ensures
        match update.phase {
            Phase::CopyingBackup => event == EventView::Succeeded,
            Phase::Reading => match event {
                EventView::Content { current } => current != update.content
                    && !update.backup_enabled,
                EventView::Missing => update.content.len() > 0,
                _ => false,
            },
            _ => false,
        },
{
    if update.content.len() == 0 {
        assert(update.content =~= Seq::<char>::empty());
    }
}

/// An update to the content that the target holds already reports "already up
/// to date" and leaves every file as it is: nothing is copied, nothing is
/// written.
pub proof fn lemma_unchanged_content_is_left_alone(update: Update, files: Files, now: Seq<char>)
    requires
        update.phase == Phase::Reading,
        files.target == Some(update.content),
    ensures
        update.run(files, now) == (Ok::<UpdateOutcome, ErrorKind>(UpdateOutcome::AlreadyUpToDate), files),
{
    reveal_with_fuel(Update::run, 2);
}

/// With backups on, an update of a target that holds other content leaves the
/// earlier content in the backup named after the time, and nothing else new in
/// the backup directory, and the new content in the target.
pub proof fn lemma_backup_before_write(
    update: Update,
    files: Files,
    now: Seq<char>,
    earlier: Seq<char>,
)
    requires
        update.phase == Phase::Reading,
        update.backup_enabled,
        files.target == Some(earlier),
        earlier != update.content,
    ensures
        update.run(files, now) == (
            Ok::<UpdateOutcome, ErrorKind>(UpdateOutcome::Updated),
            Files {
                target: Some(update.content),
                backups: files.backups.insert(backup_name(now, update.extension), earlier),
            },
        ),
{
    reveal_with_fuel(Update::run, 5);
}

/// With backups off, an update leaves the backup directory as it is, and puts
/// the new content in the target.
pub proof fn lemma_no_backup_when_disabled(update: Update, files: Files, now: Seq<char>)
    requires
        update.phase == Phase::Reading,
        !update.backup_enabled,
    ensures
        update.run(files, now).1.backups == files.backups,
        files.target != Some(update.content) && (files.target is Some || update.content.len() > 0)
            ==> update.run(files, now) == (
            Ok::<UpdateOutcome, ErrorKind>(UpdateOutcome::Updated),
            Files { target: Some(update.content), ..files },
        ),
{
    reveal_with_fuel(Update::run, 3);
}

/// An update of a target that does not exist, to content that is not empty,
/// creates the target with the content and makes no backup, whatever the
/// policy.
pub proof fn lemma_missing_target_is_created(update: Update, files: Files, now: Seq<char>)
    requires
        update.phase == Phase::Reading,
        files.target is None,
        update.content.len() > 0,
    ensures
        update.run(files, now) == (
            Ok::<UpdateOutcome, ErrorKind>(UpdateOutcome::Updated),
            Files { target: Some(update.content), ..files },
        ),
{
    reveal_with_fuel(Update::run, 3);
}

/// An update of a target that does not exist to empty content has nothing to
/// do: a missing target counts as empty, and it is not created.
pub proof fn lemma_missing_target_stays_missing(update: Update, files: Files, now: Seq<char>)
    requires
        update.phase == Phase::Reading,
        files.target is None,
        update.content.len() == 0,
    ensures
        update.run(files, now) == (
            Ok::<UpdateOutcome, ErrorKind>(UpdateOutcome::AlreadyUpToDate),
            files,
        ),
{
    reveal_with_fuel(Update::run, 2);
    assert(update.content =~= Seq::<char>::empty());
}

} // verus!
