use pm_core::backup::{
    backup_file_name, backup_format, member_name, plan_backup, plan_backup_at,
    plan_backup_with, request_needs_timestamp, BackupError, BackupFormat, TAR_PREFIX,
};

const NOW: &str = "2024-05-06T07:08:09.123456789Z";

#[test]
fn no_name_gives_a_dated_zip() {
    assert_eq!(backup_file_name(None, NOW), "backup_2024-05-06T07-08-09.123456789Z.zip");
    assert_eq!(backup_file_name(None, "2024-05-06T07:08:09Z"), "backup_2024-05-06T07-08-09Z.zip");
}

#[test]
fn a_bare_name_gets_tar_gz() {
    assert_eq!(backup_file_name(Some("my"), NOW), "my.tar.gz");
    assert_eq!(backup_file_name(Some("my.backup"), NOW), "my.backup.tar.gz");
    assert_eq!(backup_file_name(Some("dir/my"), NOW), "dir/my.tar.gz");
}

#[test]
fn a_name_with_an_archive_ending_is_kept() {
    assert_eq!(backup_file_name(Some("my.zip"), NOW), "my.zip");
    assert_eq!(backup_file_name(Some("my.tgz"), NOW), "my.tgz");
    assert_eq!(backup_file_name(Some("my.tar.gz"), NOW), "my.tar.gz");
    assert_eq!(backup_file_name(Some("my.gz"), NOW), "my.gz");
    assert_eq!(backup_file_name(Some(".zip"), NOW), ".zip");
}

#[test]
fn endings_are_matched_exactly() {
    assert_eq!(backup_file_name(Some("my.ZIP"), NOW), "my.ZIP.tar.gz");
    assert_eq!(backup_file_name(Some("myzip"), NOW), "myzip.tar.gz");
    assert_eq!(backup_file_name(Some("my.zip.bak"), NOW), "my.zip.bak.tar.gz");
}

#[test]
fn a_name_is_trimmed() {
    assert_eq!(backup_file_name(Some("  my  "), NOW), "my.tar.gz");
    assert_eq!(backup_file_name(Some(" my.zip\n"), NOW), "my.zip");
}

#[test]
fn a_blank_name_gives_a_dated_tar_gz() {
    assert_eq!(backup_file_name(Some(""), NOW), "backup_2024-05-06T07-08-09.123456789Z.tar.gz");
    assert_eq!(backup_file_name(Some("  \t"), NOW), "backup_2024-05-06T07-08-09.123456789Z.tar.gz");
}

#[test]
fn the_ending_selects_the_format() {
    assert_eq!(backup_format("my.zip"), BackupFormat::Zip);
    assert_eq!(backup_format("my.tar.gz"), BackupFormat::TarGz);
    assert_eq!(backup_format("my.tgz"), BackupFormat::TarGz);
    assert_eq!(backup_format("my.gz"), BackupFormat::TarGz);
    assert_eq!(backup_format("my"), BackupFormat::TarGz);
    assert_eq!(backup_format("zip"), BackupFormat::TarGz);
    assert_eq!(backup_format(""), BackupFormat::TarGz);
}

#[test]
fn plan_backup_at_names_and_selects() {
    let plan = plan_backup_at(None, NOW);
    assert_eq!(plan.file, "backup_2024-05-06T07-08-09.123456789Z.zip");
    assert_eq!(plan.format, BackupFormat::Zip);
    let plan = plan_backup_at(Some("my"), NOW);
    assert_eq!(plan.file, "my.tar.gz");
    assert_eq!(plan.format, BackupFormat::TarGz);
    let plan = plan_backup_at(Some("my.zip"), NOW);
    assert_eq!(plan.format, BackupFormat::Zip);
    let plan = plan_backup_at(Some("my.tgz"), NOW);
    assert_eq!(plan.file, "my.tgz");
    assert_eq!(plan.format, BackupFormat::TarGz);
}

#[test]
fn plan_backup_reads_the_clock() {
    let plan = plan_backup(None).unwrap();
    assert!(plan.file.starts_with("backup_"));
    assert!(plan.file.ends_with("Z.zip"));
    assert!(!plan.file.contains(':'));
    assert!(plan.file.len() >= "backup_2024-05-06T07-08-09Z.zip".len());
    assert_eq!(plan.format, BackupFormat::Zip);
    let named = plan_backup(Some("my")).unwrap();
    assert_eq!(named.file, "my.tar.gz");
}

#[test]
fn tar_archives_pack_under_the_store_name() {
    assert_eq!(TAR_PREFIX, "pm-store");
}

#[test]
fn zip_members_are_named_relative_to_the_root() {
    let root = "/home/u/.local/share/pm-store";
    assert_eq!(
        member_name(root, "/home/u/.local/share/pm-store/config.json", '/'),
        Some("config.json".to_string())
    );
    assert_eq!(
        member_name(root, "/home/u/.local/share/pm-store/store/work/gh.enc", '/'),
        Some("store/work/gh.enc".to_string())
    );
    assert_eq!(
        member_name("/data/", "/data/store/a.enc", '/'),
        Some("store/a.enc".to_string())
    );
    assert_eq!(
        member_name("C:\\pm-store", "C:\\pm-store\\store\\a.enc", '\\'),
        Some("store\\a.enc".to_string())
    );
}

#[test]
fn files_outside_the_root_have_no_member_name() {
    let root = "/home/u/.local/share/pm-store";
    assert_eq!(member_name(root, "/home/u/.local/share/pm-store", '/'), None);
    assert_eq!(member_name(root, "/home/u/.local/share/pm-store/", '/'), None);
    assert_eq!(member_name(root, "/home/u/.local/share/pm-store2/config.json", '/'), None);
    assert_eq!(member_name(root, "/etc/passwd", '/'), None);
    assert_eq!(member_name(root, "", '/'), None);
}

#[test]
fn only_a_missing_or_blank_name_needs_the_instant() {
    assert!(request_needs_timestamp(None));
    assert!(request_needs_timestamp(Some("")));
    assert!(request_needs_timestamp(Some(" \t\n")));
    assert!(!request_needs_timestamp(Some("my")));
    assert!(!request_needs_timestamp(Some(" my.zip ")));
}

#[test]
fn a_named_backup_is_planned_without_the_clock() {
    let plan = plan_backup_with(Some("my"), None).unwrap();
    assert_eq!(plan.file, "my.tar.gz");
    assert_eq!(plan.format, BackupFormat::TarGz);
    let plan = plan_backup_with(Some("my.zip"), None).unwrap();
    assert_eq!(plan.file, "my.zip");
    assert_eq!(plan.format, BackupFormat::Zip);
    assert_eq!(plan_backup_with(Some("my"), Some(NOW)), plan_backup_with(Some("my"), None));
}

#[test]
fn a_dated_backup_needs_the_clock() {
    assert_eq!(plan_backup_with(None, None), Err(BackupError::Clock));
    assert_eq!(plan_backup_with(Some("  "), None), Err(BackupError::Clock));
    let plan = plan_backup_with(None, Some(NOW)).unwrap();
    assert_eq!(plan.file, "backup_2024-05-06T07-08-09.123456789Z.zip");
    assert_eq!(plan.format, BackupFormat::Zip);
    let plan = plan_backup_with(Some(""), Some(NOW)).unwrap();
    assert_eq!(plan.file, "backup_2024-05-06T07-08-09.123456789Z.tar.gz");
    assert_eq!(plan.format, BackupFormat::TarGz);
}

#[test]
fn plan_backup_of_a_name_is_that_name() {
    for (asked, file, format) in [
        ("my", "my.tar.gz", BackupFormat::TarGz),
        ("my.zip", "my.zip", BackupFormat::Zip),
        ("my.tgz", "my.tgz", BackupFormat::TarGz),
        (" my.gz ", "my.gz", BackupFormat::TarGz),
    ] {
        let plan = plan_backup(Some(asked)).unwrap();
        assert_eq!(plan.file, file);
        assert_eq!(plan.format, format);
    }
}
