use discord_strive::claude::types::{ContextConfig, FileRef};
use discord_strive::context_files::{
    add_uploaded_file, delete_report, file_entry_line, file_not_found_message, no_files_report,
    request_failed_message, FilesRequest, has_files, pruned_config, file_url, files_api_url, files_page_url,
    parse_manager_args, partition_files, remove_file_ref, upload_report, verify_report, FileListing,
    ManagerCommand, UsageError,
};

fn file(id: &str, title: Option<&str>) -> FileRef {
    FileRef { id: id.to_string(), title: title.map(|t| t.to_string()) }
}

fn ids(items: &[&str]) -> Vec<String> {
    items.iter().map(|s| s.to_string()).collect()
}

#[test]
fn urls() {
    assert_eq!(files_api_url(), "https://api.anthropic.com/v1/files");
    assert_eq!(files_page_url(None), "https://api.anthropic.com/v1/files?limit=1000");
    assert_eq!(
        files_page_url(Some("file_9")),
        "https://api.anthropic.com/v1/files?limit=1000&after_id=file_9"
    );
    assert_eq!(file_url("file_1"), "https://api.anthropic.com/v1/files/file_1");
}

#[test]
fn listing_walks_pages_until_no_more() {
    let mut l = FileListing::new();
    assert_eq!(l.next_request().unwrap(), "https://api.anthropic.com/v1/files?limit=1000");
    l.absorb_page(&ids(&["a", "b"]), Some(true), Some("b".to_string()));
    assert_eq!(l.next_request().unwrap(), "https://api.anthropic.com/v1/files?limit=1000&after_id=b");
    l.absorb_page(&ids(&["c", "a"]), Some(false), None);
    assert!(l.next_request().is_none());
    assert!(l.contains("a"));
    assert!(l.contains("c"));
    assert!(!l.contains("d"));
}

#[test]
fn listing_stops_when_has_more_is_missing() {
    let mut l = FileListing::new();
    l.absorb_page(&ids(&["a"]), None, Some("a".to_string()));
    assert!(l.next_request().is_none());
}

#[test]
fn partition_keeps_order() {
    let mut l = FileListing::new();
    l.absorb_page(&ids(&["b", "d"]), None, None);
    let files = vec![file("a", None), file("b", Some("B")), file("c", None), file("d", Some("D"))];
    let (kept, removed) = partition_files(&files, &l);
    assert_eq!(kept.iter().map(|f| f.id.as_str()).collect::<Vec<_>>(), vec!["b", "d"]);
    assert_eq!(removed.iter().map(|f| f.id.as_str()).collect::<Vec<_>>(), vec!["a", "c"]);
    assert_eq!(kept[0].title.as_deref(), Some("B"));
}

#[test]
fn remove_drops_every_entry_of_the_file() {
    let mut config = ContextConfig { files: vec![file("a", None), file("b", None), file("a", Some("again"))] };
    assert_eq!(remove_file_ref(&mut config, "a"), 2);
    assert_eq!(config.files.len(), 1);
    assert_eq!(config.files[0].id, "b");
    assert_eq!(remove_file_ref(&mut config, "zzz"), 0);
    assert_eq!(config.files.len(), 1);
}

#[test]
fn upload_uses_title_or_file_name() {
    let mut config = ContextConfig { files: vec![] };
    assert_eq!(add_uploaded_file(&mut config, "file_1", Some("Guide"), "guide.txt"), "Guide");
    assert_eq!(add_uploaded_file(&mut config, "file_2", None, "notes.md"), "notes.md");
    assert_eq!(config.files.len(), 2);
    assert_eq!(config.files[0].title.as_deref(), Some("Guide"));
    assert_eq!(config.files[1].id, "file_2");
    assert_eq!(config.files[1].title.as_deref(), Some("notes.md"));
}

fn argv(items: &[&str]) -> Vec<String> {
    items.iter().map(|s| s.to_string()).collect()
}

#[test]
fn manager_command_lines() {
    assert_eq!(parse_manager_args(&argv(&["cm"])), Err(UsageError::NoCommand));
    assert_eq!(parse_manager_args(&argv(&["cm", "verify"])), Ok(ManagerCommand::Verify));
    assert_eq!(
        parse_manager_args(&argv(&["cm", "upload", "doc.txt", "--title", "My Doc"])),
        Ok(ManagerCommand::Upload { file_path: "doc.txt".to_string(), title: Some("My Doc".to_string()) })
    );
    assert_eq!(
        parse_manager_args(&argv(&["cm", "upload", "doc.txt"])),
        Ok(ManagerCommand::Upload { file_path: "doc.txt".to_string(), title: None })
    );
    assert_eq!(parse_manager_args(&argv(&["cm", "upload"])), Err(UsageError::UploadWithoutPath));
    assert_eq!(
        parse_manager_args(&argv(&["cm", "delete", "file_1"])),
        Ok(ManagerCommand::Delete { file_id: "file_1".to_string() })
    );
    assert_eq!(parse_manager_args(&argv(&["cm", "delete"])), Err(UsageError::DeleteWithoutId));
    assert_eq!(
        parse_manager_args(&argv(&["cm", "list"])),
        Err(UsageError::UnknownCommand("list".to_string()))
    );
}

#[test]
fn upload_title_flag_is_only_read_after_the_path() {
    // The path itself is not taken as a flag.
    assert_eq!(
        parse_manager_args(&argv(&["cm", "upload", "--title", "x"])),
        Ok(ManagerCommand::Upload { file_path: "--title".to_string(), title: None })
    );
}

#[test]
fn entry_lines_show_title_or_untitled() {
    assert_eq!(file_entry_line(&file("f1", Some("Doc"))), "  f1 — Doc");
    assert_eq!(file_entry_line(&file("f2", None)), "  f2 — (untitled)");
}

#[test]
fn verify_reports() {
    let kept = vec![file("a", Some("A")), file("b", None)];
    assert_eq!(verify_report(&kept, &[]), vec!["All 2 file(s) verified — all exist remotely.".to_string()]);
    let removed = vec![file("c", None)];
    assert_eq!(
        verify_report(&kept, &removed),
        vec![
            "Kept 2 file(s):".to_string(),
            "  a — A".to_string(),
            "  b — (untitled)".to_string(),
            "Removed 1 stale entry/entries:".to_string(),
            "  c — (untitled)".to_string(),
        ]
    );
}

#[test]
fn upload_and_delete_reports() {
    assert_eq!(
        upload_report("doc.txt", 1234, "file_9", "Doc"),
        vec![
            "Uploaded: doc.txt (1234 bytes)".to_string(),
            "File ID: file_9".to_string(),
            "Added to context.json as \"Doc\"".to_string(),
        ]
    );
    assert_eq!(
        delete_report("file_9", 1),
        vec!["Deleted file: file_9".to_string(), "Removed from context.json.".to_string()]
    );
    assert_eq!(
        delete_report("file_9", 0),
        vec!["Deleted file: file_9".to_string(), "(was not in context.json)".to_string()]
    );
}

#[test]
fn verify_rewrites_only_when_something_is_stale() {
    assert!(!has_files(&ContextConfig { files: vec![] }));
    assert!(has_files(&ContextConfig { files: vec![file("a", None)] }));
    let kept = vec![file("a", Some("A")), file("b", None)];
    assert!(pruned_config(&kept, &[]).is_none());
    let updated = pruned_config(&kept, &[file("c", None)]).unwrap();
    assert_eq!(updated.files.len(), 2);
    assert_eq!(updated.files[0].id, "a");
    assert_eq!(updated.files[0].title.as_deref(), Some("A"));
    assert_eq!(updated.files[1].id, "b");
}

#[test]
fn manager_failure_texts() {
    assert_eq!(no_files_report(), "context.json has no files.");
    assert_eq!(file_not_found_message("x.txt"), "File not found: x.txt");
    assert_eq!(
        request_failed_message(FilesRequest::Upload, 413, Some("too big")),
        "Upload failed (413 Payload Too Large): too big"
    );
    assert_eq!(request_failed_message(FilesRequest::List, 500, None), "List files failed (500 Internal Server Error): ");
    assert_eq!(request_failed_message(FilesRequest::Delete, 404, Some("gone")), "Delete failed (404 Not Found): gone");
}
