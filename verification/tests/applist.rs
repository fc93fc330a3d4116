use goldberg_drop::applist::{
    collect_merged_ids, default_archive_passwords, ensure_applist_synced, file_key_exec,
    read_ids_from_dir, remember_password, rewrite_applist_dir, AppList,
};
use std::collections::HashMap;

fn file(name: &str, text: &str) -> (String, String) {
    (name.to_string(), text.to_string())
}

#[test]
fn folders_are_read_in_number_order() {
    let files = vec![
        file("10.txt", "300\n"),
        file("2.txt", " 200 \r\nignored"),
        file("notes.md", "999"),
        file("x.txt", "400"),
        file("1.txt", "200"),
        file(".txt", "500"),
    ];
    assert_eq!(read_ids_from_dir(&files), vec![200, 300, 400]);
    assert_eq!(file_key_exec("12.txt.txt"), 12);
    assert_eq!(file_key_exec("abc"), u32::MAX);
}

#[test]
fn a_written_folder_reads_back() {
    let ids = vec![570, 10, 4262310];
    let files = rewrite_applist_dir(&ids);
    assert_eq!(files[0], ("0.txt".to_string(), "570\n".to_string()));
    assert_eq!(files[2], ("2.txt".to_string(), "4262310\n".to_string()));
    assert_eq!(read_ids_from_dir(&files), ids);
    let many: Vec<u32> = (100..115).rev().collect();
    assert_eq!(read_ids_from_dir(&rewrite_applist_dir(&many)), many);
}

#[test]
fn merged_lists_put_steam_first_and_sync_both_folders() {
    assert_eq!(collect_merged_ids(Some(&vec![3, 1, 3]), &vec![1, 2]), vec![3, 1, 2]);
    assert_eq!(collect_merged_ids(None, &vec![5, 5, 6]), vec![5, 6]);
    let steam = vec![file("0.txt", "10"), file("1.txt", "20")];
    let ours = vec![file("0.txt", "20"), file("1.txt", "30")];
    let (ids, files) = ensure_applist_synced(Some(&steam), &ours);
    assert_eq!(ids, vec![10, 20, 30]);
    assert_eq!(read_ids_from_dir(&files), ids);
}

#[test]
fn adding_apps_appends_and_asks_for_restart() {
    let mut list = AppList { ids: vec![10], names: HashMap::new() };
    let r = list.add_to_applist(20, "  Orb  ", false);
    assert!(r.added && r.restarted);
    assert_eq!(list.ids, vec![10, 20]);
    assert_eq!(list.names.get(&20).map(|s| s.as_str()), Some("Orb"));
    let again = list.add_to_applist(20, "", false);
    assert!(!again.added && !again.restarted);
    let forced = list.add_to_applist(10, "", true);
    assert!(!forced.added && forced.restarted);
    let entries = list.read_applist();
    assert_eq!(entries.len(), 2);
    assert_eq!((entries[0].app_id, entries[0].name.as_str()), (10, "App 10"));
    assert_eq!((entries[1].app_id, entries[1].name.as_str()), (20, "Orb"));
}

#[test]
fn archive_passwords() {
    let saved = vec!["x".to_string(), "cs.rin.ru".to_string(), "y".to_string(), "x".to_string()];
    assert_eq!(
        default_archive_passwords("bundled", &saved),
        vec!["cs.rin.ru".to_string(), "bundled".to_string(), "x".to_string(), "y".to_string()]
    );
    let mut list = vec!["a".to_string()];
    assert!(!remember_password(&mut list, ""));
    assert!(!remember_password(&mut list, "a"));
    assert!(remember_password(&mut list, "b"));
    assert_eq!(list, vec!["a".to_string(), "b".to_string()]);
}

#[test]
fn syncing_twice_writes_the_same_files() {
    let steam = vec![file("0.txt", "20\n"), file("1.txt", "10\n")];
    let ours = vec![file("0.txt", "10\n"), file("1.txt", "30\n")];
    let (ids, files) = ensure_applist_synced(Some(&steam), &ours);
    assert_eq!(ids, vec![20, 10, 30]);
    let (ids2, files2) = ensure_applist_synced(Some(&files), &files);
    assert_eq!(ids2, ids);
    assert_eq!(files2, files);
    let (ids3, files3) = ensure_applist_synced(None, &files);
    assert_eq!(ids3, ids);
    assert_eq!(files3, files);
}
