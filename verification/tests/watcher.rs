use bilidl::watcher::{normalize_separators, record_change, stop_watcher, ChangeKind};
use std::sync::mpsc;
use std::sync::Mutex;

#[test]
fn backslashes_become_slashes() {
    assert_eq!(normalize_separators(r"D:\Project\Test\a.txt"), "D:/Project/Test/a.txt");
    assert_eq!(normalize_separators("/already/fine"), "/already/fine");
    assert_eq!(normalize_separators(r"\\"), "//");
    assert_eq!(normalize_separators(""), "");
    assert_eq!(normalize_separators(r"目录\文件"), "目录/文件");
    let once = normalize_separators(r"a\b");
    assert_eq!(normalize_separators(&once), once);
}

#[test]
fn creation_is_logged_with_first_path() {
    let paths = vec![r"C:\x\new.txt".to_string(), r"C:\y".to_string()];
    let change = record_change(ChangeKind::Create, "Create(File)".to_string(), &paths);
    assert_eq!(change.kind, "Create(File)");
    assert_eq!(change.path, "C:/x/new.txt");
}

#[test]
fn stop_signal_reaches_a_live_watch() {
    let (tx, rx) = mpsc::channel::<()>();
    let tx = Mutex::new(tx);
    assert!(stop_watcher(tx.lock().unwrap()));
    assert!(rx.try_recv().is_ok());
    drop(rx);
    assert!(!stop_watcher(tx.lock().unwrap()));
}

#[test]
fn only_creations_are_logged() {
    assert!(ChangeKind::Create.is_logged());
    for k in [ChangeKind::Any, ChangeKind::Access, ChangeKind::Modify, ChangeKind::Remove, ChangeKind::Other] {
        assert!(!k.is_logged());
    }
}
