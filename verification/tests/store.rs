use projectman::errors::StoreError;
use projectman::record::ProjectRecord;
use projectman::store::SettingsDocument;

fn record(name: &str, path: &str, editor: &str) -> ProjectRecord {
    ProjectRecord::new(name.to_string(), path.to_string(), editor.to_string())
}

fn document(names: &[&str]) -> SettingsDocument {
    let mut doc = SettingsDocument::new("code".to_string());
    for name in names {
        let path = format!("/work/{}", name);
        assert_eq!(doc.insert(record(name, &path, "code")), Ok(()));
    }
    doc
}

#[test]
fn new_document_is_empty() {
    let doc = SettingsDocument::new("code".to_string());
    assert!(doc.is_empty());
    assert_eq!(doc.len(), 0);
    assert_eq!(doc.default_open_command(), "code");
    assert!(doc.names().is_empty());
    assert!(doc.projects().is_empty());
}

#[test]
fn insert_appends_at_the_end() {
    let mut doc = document(&["a", "b"]);
    assert_eq!(doc.insert(record("c", "/elsewhere", "vim")), Ok(()));
    assert_eq!(doc.len(), 3);
    assert!(!doc.is_empty());
    assert_eq!(doc.names(), vec!["a".to_string(), "b".to_string(), "c".to_string()]);
    assert_eq!(doc.projects()[2], record("c", "/elsewhere", "vim"));
}

#[test]
fn insert_of_a_taken_name_changes_nothing() {
    let mut doc = document(&["demo"]);
    let before = doc.clone();
    assert_eq!(doc.insert(record("demo", "/other", "vim")), Err(StoreError::DuplicateName));
    assert_eq!(doc, before);
    assert_eq!(doc.len(), 1);
    assert_eq!(doc.find_by_name("demo").unwrap().path, "/work/demo");
}

#[test]
fn insert_never_gives_two_records_one_name() {
    let mut doc = SettingsDocument::new("code".to_string());
    for name in ["a", "b", "a", "c", "b", "a"] {
        let _ = doc.insert(record(name, "/p", "code"));
    }
    let names = doc.names();
    assert_eq!(names, vec!["a".to_string(), "b".to_string(), "c".to_string()]);
    for i in 0..names.len() {
        for j in (i + 1)..names.len() {
            assert_ne!(names[i], names[j]);
        }
    }
}

#[test]
fn remove_after_insert_gives_the_document_back() {
    let before = document(&["a", "b"]);
    let mut doc = before.clone();
    assert_eq!(doc.insert(record("c", "/work/c", "vim")), Ok(()));
    assert_ne!(doc, before);
    assert_eq!(doc.remove("c"), Ok(record("c", "/work/c", "vim")));
    assert_eq!(doc, before);
}

#[test]
fn remove_keeps_the_order_of_the_rest() {
    let mut doc = document(&["a", "b", "c", "d"]);
    assert_eq!(doc.remove("b"), Ok(record("b", "/work/b", "code")));
    assert_eq!(doc.names(), vec!["a".to_string(), "c".to_string(), "d".to_string()]);
    assert_eq!(doc.remove("a"), Ok(record("a", "/work/a", "code")));
    assert_eq!(doc.names(), vec!["c".to_string(), "d".to_string()]);
    assert_eq!(doc.default_open_command(), "code");
}

#[test]
fn remove_of_an_unknown_name_is_not_found() {
    let mut doc = document(&["a"]);
    let before = doc.clone();
    assert_eq!(doc.remove("b"), Err(StoreError::NotFound));
    assert_eq!(doc, before);
    let mut empty = SettingsDocument::new("code".to_string());
    assert_eq!(empty.remove("a"), Err(StoreError::NotFound));
}

#[test]
fn update_editor_changes_one_editor_and_nothing_else() {
    let mut doc = document(&["a", "b", "c"]);
    let before = doc.clone();
    assert_eq!(doc.update_editor("b", "subl".to_string()), Ok(()));
    assert_eq!(doc.default_open_command(), before.default_open_command());
    assert_eq!(doc.len(), before.len());
    for i in 0..doc.len() {
        let now = doc.project_at(i).unwrap();
        let then = before.project_at(i).unwrap();
        assert_eq!(now.name, then.name);
        assert_eq!(now.path, then.path);
        if i == 1 {
            assert_eq!(now.editor, "subl");
        } else {
            assert_eq!(now.editor, then.editor);
        }
    }
}

#[test]
fn update_editor_of_an_unknown_name_is_not_found() {
    let mut doc = document(&["a"]);
    let before = doc.clone();
    assert_eq!(doc.update_editor("b", "subl".to_string()), Err(StoreError::NotFound));
    assert_eq!(doc, before);
}

#[test]
fn update_editor_takes_any_text() {
    let mut doc = document(&["a"]);
    assert_eq!(doc.update_editor("a", String::new()), Ok(()));
    assert_eq!(doc.find_by_name("a").unwrap().editor, "");
    assert_eq!(doc.update_editor("a", "default".to_string()), Ok(()));
    assert_eq!(doc.find_by_name("a").unwrap().editor, "default");
}

#[test]
fn names_are_matched_exactly() {
    let doc = document(&["Demo", "demo2"]);
    assert!(doc.project_exists("Demo"));
    assert!(!doc.project_exists("demo"));
    assert!(!doc.project_exists("Dem"));
    assert!(!doc.project_exists("Demo "));
    assert!(!doc.project_exists(""));
    assert_eq!(doc.find_by_name("Demo"), Some(&record("Demo", "/work/Demo", "code")));
    assert_eq!(doc.find_by_name("demo"), None);
    assert_eq!(doc.find_by_name("demo2").unwrap().path, "/work/demo2");
}

#[test]
fn an_empty_name_is_a_name() {
    let mut doc = document(&["a"]);
    assert_eq!(doc.insert(record("", "/work", "code")), Ok(()));
    assert!(doc.project_exists(""));
    assert_eq!(doc.insert(record("", "/other", "code")), Err(StoreError::DuplicateName));
    assert_eq!(doc.remove(""), Ok(record("", "/work", "code")));
    assert!(!doc.project_exists(""));
}

#[test]
fn project_at_follows_document_order() {
    let doc = document(&["a", "b"]);
    assert_eq!(doc.project_at(0).unwrap().name, "a");
    assert_eq!(doc.project_at(1).unwrap().name, "b");
    assert_eq!(doc.project_at(2), None);
    assert_eq!(doc.project_at(usize::MAX), None);
}

#[test]
fn documents_compare_by_content() {
    let a = document(&["a", "b"]);
    let b = document(&["a", "b"]);
    let c = document(&["b", "a"]);
    let d = document(&["a"]);
    assert_eq!(a, b);
    assert_ne!(a, c);
    assert_ne!(a, d);
    let mut e = SettingsDocument::new("vim".to_string());
    assert_ne!(e, SettingsDocument::new("code".to_string()));
    assert_eq!(e.insert(record("a", "/work/a", "code")), Ok(()));
    assert_ne!(e, d);
    let mut f = document(&["a"]);
    assert_eq!(f.update_editor("a", "vim".to_string()), Ok(()));
    assert_ne!(f, d);
}

#[test]
fn records_compare_by_content_and_clone_equal() {
    let r = record("a", "/work/a", "code");
    assert_eq!(r.clone(), r);
    assert_ne!(r, record("b", "/work/a", "code"));
    assert_ne!(r, record("a", "/work/b", "code"));
    assert_ne!(r, record("a", "/work/a", "vim"));
}
