use git_profile_core::config::UpdatePolicy;
use git_profile_core::error::ErrorKind;
use git_profile_core::update::{
    backup_file_name, Action, Event, Phase, SafeConfigWriter, UpdateOutcome,
};

/// Files in memory, with a switch for each operation that is to fail.
struct Disk {
    target: Option<String>,
    backups: Vec<(String, String)>,
    dirs: Vec<String>,
    log: Vec<&'static str>,
    fail_read: bool,
    fail_dir: bool,
    fail_copy: bool,
    fail_write: bool,
}

fn disk(target: Option<&str>) -> Disk {
    Disk {
        target: target.map(|content| content.to_string()),
        backups: Vec::new(),
        dirs: Vec::new(),
        log: Vec::new(),
        fail_read: false,
        fail_dir: false,
        fail_copy: false,
        fail_write: false,
    }
}

fn perform(disk: &mut Disk, action: Action) -> Event {
    match action {
        Action::ReadTarget => {
            disk.log.push("read");
            if disk.fail_read {
                return Event::Failed;
            }
            match &disk.target {
                Some(current) => Event::Content { current: current.clone() },
                None => Event::Missing,
            }
        }
        Action::CreateBackupDir { dir } => {
            disk.log.push("dir");
            if disk.fail_dir {
                return Event::Failed;
            }
            disk.dirs.push(dir);
            Event::Succeeded
        }
        Action::CopyToBackup { dir, file_name } => {
            disk.log.push("copy");
            if disk.fail_copy || !disk.dirs.contains(&dir) {
                return Event::Failed;
            }
            let current = disk.target.clone().unwrap();
            disk.backups.retain(|backup| backup.0 != file_name);
            disk.backups.push((file_name, current));
            Event::Succeeded
        }
        Action::WriteTarget { content } => {
            disk.log.push("write");
            if disk.fail_write {
                return Event::Failed;
            }
            disk.target = Some(content);
            Event::Succeeded
        }
        Action::Finish { .. } => unreachable!(),
    }
}

fn run(disk: &mut Disk, content: &str, backup_enabled: bool) -> Result<UpdateOutcome, ErrorKind> {
    let policy = UpdatePolicy { backup_enabled, backup_dir: "profiles/backups".to_string() };
    let mut writer = SafeConfigWriter::new(content.to_string(), policy, "gitconfig".to_string());
    let mut action = writer.action();
    loop {
        if let Action::Finish { result } = action {
            assert_eq!(writer.phase(), Phase::Finished { result });
            return result;
        }
        let event = perform(disk, action);
        action = writer.step(event);
    }
}

fn writer(content: &str, backup_enabled: bool) -> SafeConfigWriter {
    let policy = UpdatePolicy { backup_enabled, backup_dir: "profiles/backups".to_string() };
    SafeConfigWriter::new(content.to_string(), policy, "gitconfig".to_string())
}

fn is_backup_name(name: &str) -> bool {
    let bytes = name.as_bytes();
    name.len() == "backup_YYYYMMDD_HHMMSS.gitconfig".len()
        && name.starts_with("backup_")
        && name.ends_with(".gitconfig")
        && bytes[7..15].iter().all(|byte| byte.is_ascii_digit())
        && bytes[15] == b'_'
        && bytes[16..22].iter().all(|byte| byte.is_ascii_digit())
}

// Whole updates.

#[test]
fn identical_content_is_left_alone() {
    for backup_enabled in [true, false] {
        let mut disk = disk(Some("[user]\n\tname = A\n"));
        assert_eq!(
            run(&mut disk, "[user]\n\tname = A\n", backup_enabled),
            Ok(UpdateOutcome::AlreadyUpToDate)
        );
        assert_eq!(disk.log, vec!["read"]);
        assert_eq!(disk.target.as_deref(), Some("[user]\n\tname = A\n"));
        assert!(disk.backups.is_empty());
        assert!(disk.dirs.is_empty());
    }
}

#[test]
fn changed_content_is_backed_up_and_then_written() {
    let mut disk = disk(Some("content A"));
    assert_eq!(run(&mut disk, "content B", true), Ok(UpdateOutcome::Updated));
    assert_eq!(disk.log, vec!["read", "dir", "copy", "write"]);
    assert_eq!(disk.target.as_deref(), Some("content B"));
    assert_eq!(disk.dirs, vec!["profiles/backups".to_string()]);
    assert_eq!(disk.backups.len(), 1);
    assert!(is_backup_name(&disk.backups[0].0), "{}", disk.backups[0].0);
    assert_eq!(disk.backups[0].1, "content A");
}

#[test]
fn without_backups_nothing_is_copied() {
    let mut disk = disk(Some("content A"));
    assert_eq!(run(&mut disk, "content B", false), Ok(UpdateOutcome::Updated));
    assert_eq!(disk.log, vec!["read", "write"]);
    assert_eq!(disk.target.as_deref(), Some("content B"));
    assert!(disk.backups.is_empty());
    assert!(disk.dirs.is_empty());
}

#[test]
fn a_missing_target_is_created_without_a_backup() {
    for backup_enabled in [true, false] {
        let mut disk = disk(None);
        assert_eq!(run(&mut disk, "content C", backup_enabled), Ok(UpdateOutcome::Updated));
        assert_eq!(disk.log, vec!["read", "write"]);
        assert_eq!(disk.target.as_deref(), Some("content C"));
        assert!(disk.backups.is_empty());
        assert!(disk.dirs.is_empty());
    }
}

#[test]
fn a_missing_target_counts_as_empty() {
    let mut disk = disk(None);
    assert_eq!(run(&mut disk, "", true), Ok(UpdateOutcome::AlreadyUpToDate));
    assert_eq!(disk.log, vec!["read"]);
    assert_eq!(disk.target, None);
}

#[test]
fn an_empty_target_is_backed_up_like_any_other() {
    let mut disk = disk(Some(""));
    assert_eq!(run(&mut disk, "content", true), Ok(UpdateOutcome::Updated));
    assert_eq!(disk.log, vec!["read", "dir", "copy", "write"]);
    assert_eq!(disk.backups[0].1, "");
}

#[test]
fn a_target_can_be_emptied() {
    let mut disk = disk(Some("content"));
    assert_eq!(run(&mut disk, "", false), Ok(UpdateOutcome::Updated));
    assert_eq!(disk.target.as_deref(), Some(""));
}

#[test]
fn a_target_that_cannot_be_read_is_an_io_error() {
    let mut disk = disk(Some("content A"));
    disk.fail_read = true;
    assert_eq!(run(&mut disk, "content B", true), Err(ErrorKind::Io));
    assert_eq!(disk.log, vec!["read"]);
    assert_eq!(disk.target.as_deref(), Some("content A"));
}

#[test]
fn a_backup_directory_that_cannot_be_made_aborts_the_update() {
    let mut disk = disk(Some("content A"));
    disk.fail_dir = true;
    assert_eq!(run(&mut disk, "content B", true), Err(ErrorKind::Backup));
    assert_eq!(disk.log, vec!["read", "dir"]);
    assert_eq!(disk.target.as_deref(), Some("content A"));
    assert!(disk.backups.is_empty());
}

#[test]
fn a_copy_that_cannot_be_made_aborts_the_update() {
    let mut disk = disk(Some("content A"));
    disk.fail_copy = true;
    assert_eq!(run(&mut disk, "content B", true), Err(ErrorKind::Backup));
    assert_eq!(disk.log, vec!["read", "dir", "copy"]);
    assert_eq!(disk.target.as_deref(), Some("content A"));
}

#[test]
fn a_write_that_fails_is_an_io_error_and_the_backup_stays() {
    let mut disk = disk(Some("content A"));
    disk.fail_write = true;
    assert_eq!(run(&mut disk, "content B", true), Err(ErrorKind::Io));
    assert_eq!(disk.log, vec!["read", "dir", "copy", "write"]);
    assert_eq!(disk.backups.len(), 1);
    assert_eq!(disk.backups[0].1, "content A");
}

#[test]
fn a_write_that_fails_without_backups_is_an_io_error() {
    let mut disk = disk(None);
    disk.fail_write = true;
    assert_eq!(run(&mut disk, "content B", false), Err(ErrorKind::Io));
    assert_eq!(disk.log, vec!["read", "write"]);
}

#[test]
fn two_updates_make_two_backups_of_the_content_before_each() {
    let mut disk = disk(Some("content A"));
    assert_eq!(run(&mut disk, "content B", true), Ok(UpdateOutcome::Updated));
    let first = disk.backups[0].clone();
    disk.backups.clear();
    assert_eq!(run(&mut disk, "content C", true), Ok(UpdateOutcome::Updated));
    assert_eq!(first.1, "content A");
    assert_eq!(disk.backups[0].1, "content B");
    assert_eq!(disk.target.as_deref(), Some("content C"));
}

// Single steps.

#[test]
fn a_new_writer_asks_for_the_target() {
    let writer = writer("new", true);
    assert_eq!(writer.phase(), Phase::Reading);
    assert_eq!(writer.action(), Action::ReadTarget);
    assert_eq!(writer.action_at("20240102_030405"), Action::ReadTarget);
}

#[test]
fn each_phase_asks_for_its_action() {
    let mut writer = writer("new", true);
    writer.advance(Event::Content { current: "old".to_string() });
    assert_eq!(writer.phase(), Phase::MakingBackupDir);
    assert_eq!(
        writer.action_at("20240102_030405"),
        Action::CreateBackupDir { dir: "profiles/backups".to_string() }
    );
    writer.advance(Event::Succeeded);
    assert_eq!(writer.phase(), Phase::CopyingBackup);
    assert_eq!(
        writer.action_at("20240102_030405"),
        Action::CopyToBackup {
            dir: "profiles/backups".to_string(),
            file_name: "backup_20240102_030405.gitconfig".to_string(),
        }
    );
    writer.advance(Event::Succeeded);
    assert_eq!(writer.phase(), Phase::Writing);
    assert_eq!(
        writer.action_at("20240102_030405"),
        Action::WriteTarget { content: "new".to_string() }
    );
    writer.advance(Event::Succeeded);
    assert_eq!(writer.phase(), Phase::Finished { result: Ok(UpdateOutcome::Updated) });
    assert_eq!(
        writer.action_at("20240102_030405"),
        Action::Finish { result: Ok(UpdateOutcome::Updated) }
    );
}

#[test]
fn step_names_the_next_action() {
    let mut writer = writer("new", false);
    assert_eq!(writer.step(Event::Missing), Action::WriteTarget { content: "new".to_string() });
    assert_eq!(
        writer.step(Event::Succeeded),
        Action::Finish { result: Ok(UpdateOutcome::Updated) }
    );
}

#[test]
fn the_backup_is_named_after_the_local_time() {
    let mut writer = writer("new", true);
    writer.advance(Event::Content { current: "old".to_string() });
    match writer.step(Event::Succeeded) {
        Action::CopyToBackup { dir, file_name } => {
            assert_eq!(dir, "profiles/backups");
            assert!(is_backup_name(&file_name), "{}", file_name);
            assert!(&file_name[7..11] >= "2024", "{}", file_name);
        }
        other => panic!("{:?}", other),
    }
}

#[test]
fn a_finished_update_stays_finished() {
    let mut writer = writer("same", true);
    writer.advance(Event::Content { current: "same".to_string() });
    let finished = Phase::Finished { result: Ok(UpdateOutcome::AlreadyUpToDate) };
    assert_eq!(writer.phase(), finished);
    for event in [
        Event::Succeeded,
        Event::Failed,
        Event::Missing,
        Event::Content { current: "other".to_string() },
    ] {
        assert_eq!(
            writer.step(event),
            Action::Finish { result: Ok(UpdateOutcome::AlreadyUpToDate) }
        );
        assert_eq!(writer.phase(), finished);
    }
}

#[test]
fn a_failed_update_stays_failed() {
    let mut writer = writer("new", true);
    writer.advance(Event::Content { current: "old".to_string() });
    writer.advance(Event::Failed);
    for event in [Event::Succeeded, Event::Missing, Event::Failed] {
        assert_eq!(writer.step(event), Action::Finish { result: Err(ErrorKind::Backup) });
    }
}

#[test]
fn an_event_that_does_not_answer_the_action_counts_as_its_failure() {
    let mut reading = writer("new", true);
    reading.advance(Event::Succeeded);
    assert_eq!(reading.phase(), Phase::Finished { result: Err(ErrorKind::Io) });

    let mut making_dir = writer("new", true);
    making_dir.advance(Event::Content { current: "old".to_string() });
    making_dir.advance(Event::Missing);
    assert_eq!(making_dir.phase(), Phase::Finished { result: Err(ErrorKind::Backup) });

    let mut copying = writer("new", true);
    copying.advance(Event::Content { current: "old".to_string() });
    copying.advance(Event::Succeeded);
    copying.advance(Event::Content { current: "old".to_string() });
    assert_eq!(copying.phase(), Phase::Finished { result: Err(ErrorKind::Backup) });

    let mut writing = writer("new", false);
    writing.advance(Event::Missing);
    writing.advance(Event::Missing);
    assert_eq!(writing.phase(), Phase::Finished { result: Err(ErrorKind::Io) });
}

#[test]
fn backups_made_in_the_same_second_share_a_name() {
    let mut first = writer("content B", true);
    first.advance(Event::Content { current: "content A".to_string() });
    first.advance(Event::Succeeded);
    let mut second = writer("content C", true);
    second.advance(Event::Content { current: "content B".to_string() });
    second.advance(Event::Succeeded);
    assert_eq!(first.action_at("20240102_030405"), second.action_at("20240102_030405"));
    assert_ne!(first.action_at("20240102_030405"), second.action_at("20240102_030406"));
}

#[test]
fn backup_file_name_joins_time_and_extension() {
    assert_eq!(backup_file_name("20240102_030405", "gitconfig"), "backup_20240102_030405.gitconfig");
    assert_eq!(backup_file_name("19991231_235959", "toml"), "backup_19991231_235959.toml");
    assert_eq!(backup_file_name("", ""), "backup_.");
}

#[test]
fn outcomes_have_their_messages() {
    assert_eq!(UpdateOutcome::Updated.message(), "Git config updated successfully");
    assert_eq!(UpdateOutcome::AlreadyUpToDate.message(), "Git config is already up to date");
}
