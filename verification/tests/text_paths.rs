use mxu_core::paths::{
    agent_log_filename, archive_kind, backup_file_name, has_suffix_ci, join_path, normalize_path,
    resolve_lib_dir, strip_v_prefix, temp_download_path, version_folder_name, ArchiveKind,
};
use mxu_core::text::{build_user_agent, format_log_line, parse_u64, str_eq, u64_to_string};

#[test]
fn renders_u64_decimal() {
    assert_eq!(u64_to_string(0), "0");
    assert_eq!(u64_to_string(42), "42");
    assert_eq!(u64_to_string(1000), "1000");
    assert_eq!(u64_to_string(u64::MAX), "18446744073709551615");
}

#[test]
fn parses_decimal_u64() {
    assert_eq!(parse_u64("123"), Some(123));
    assert_eq!(parse_u64("+7"), Some(7));
    assert_eq!(parse_u64("0"), Some(0));
    assert_eq!(parse_u64("18446744073709551615"), Some(u64::MAX));
    assert_eq!(parse_u64("18446744073709551616"), None);
    assert_eq!(parse_u64(""), None);
    assert_eq!(parse_u64("+"), None);
    assert_eq!(parse_u64("12a"), None);
    assert_eq!(parse_u64("-1"), None);
}

#[test]
fn compares_strings() {
    assert!(str_eq("abc", "abc"));
    assert!(!str_eq("abc", "abd"));
    assert!(!str_eq("abc", "ab"));
    assert!(str_eq("", ""));
}

#[test]
fn builds_user_agent() {
    assert_eq!(
        build_user_agent("1.0.0", "linux", "x86_64", "2.1.0"),
        "MXU/1.0.0 (linux; x86_64) Tauri/2.1.0"
    );
}

#[test]
fn formats_log_line() {
    assert_eq!(
        format_log_line("2024-01-01 10:00:00", "stdout", "hello"),
        "2024-01-01 10:00:00 [stdout] hello"
    );
}

#[test]
fn normalizes_paths() {
    assert_eq!(normalize_path("a/./b"), "a/b");
    assert_eq!(normalize_path("a/../b"), "b");
    assert_eq!(normalize_path("a//b/"), "a/b");
    assert_eq!(normalize_path("./a"), "a");
    assert_eq!(normalize_path("."), "");
    assert_eq!(normalize_path(""), "");
    assert_eq!(normalize_path("../x"), "../x");
    assert_eq!(normalize_path("/a/b/../c"), "/a/c");
    assert_eq!(normalize_path("/a/../../b"), "/../b");
    assert_eq!(normalize_path("/.."), "/..");
    assert_eq!(normalize_path("/"), "/");
    assert_eq!(normalize_path("a/b/../../.."), "..");
}

#[test]
fn joins_paths() {
    assert_eq!(join_path("a", "b"), "a/b");
    assert_eq!(join_path("a/", "b"), "a/b");
    assert_eq!(join_path("a", "/b"), "/b");
    assert_eq!(join_path("", "b"), "b");
    assert_eq!(join_path("/work", "agent.py"), "/work/agent.py");
}

#[test]
fn derives_temp_download_path() {
    assert_eq!(temp_download_path("/tmp/file.zip"), "/tmp/file.zip.downloading");
}

#[test]
fn names_agent_log_files() {
    assert_eq!(agent_log_filename(0, 42), "mxu-agent-42.log");
    assert_eq!(agent_log_filename(2, 7), "mxu-agent-2-7.log");
}

#[test]
fn strips_version_prefixes() {
    assert_eq!(strip_v_prefix("v1.2.3"), "1.2.3");
    assert_eq!(strip_v_prefix("1.2.3"), "1.2.3");
    assert_eq!(strip_v_prefix("vv2"), "2");
    assert_eq!(version_folder_name("v1.2.3"), "v1.2.3");
    assert_eq!(version_folder_name("1.2.3"), "v1.2.3");
}

#[test]
fn names_backups() {
    assert_eq!(backup_file_name("f.dll", 1), "f.dll.bak001");
    assert_eq!(backup_file_name("f.dll", 42), "f.dll.bak042");
    assert_eq!(backup_file_name("f.dll", 999), "f.dll.bak999");
}

#[test]
fn dispatches_archive_kinds() {
    assert_eq!(archive_kind("pkg.zip"), ArchiveKind::Zip);
    assert_eq!(archive_kind("pkg.tar.gz"), ArchiveKind::TarGz);
    assert_eq!(archive_kind("PKG.TAR.GZ"), ArchiveKind::TarGz);
    assert_eq!(archive_kind("pkg.tgz"), ArchiveKind::TarGz);
    assert_eq!(archive_kind("pkg.tar"), ArchiveKind::Zip);
    assert!(has_suffix_ci("Name.TGZ", ".tgz"));
    assert!(!has_suffix_ci("gz", ".tar.gz"));
}

#[test]
fn resolves_lib_dir() {
    assert_eq!(resolve_lib_dir(Some("custom".to_string()), "default".to_string()), "custom");
    assert_eq!(resolve_lib_dir(Some("".to_string()), "default".to_string()), "default");
    assert_eq!(resolve_lib_dir(None, "default".to_string()), "default");
}
