use projectman::errors::StoreError;
use projectman::record::ProjectRecord;
use projectman::resolver::{resolve_for_open, resolve_selection, Resolution, ResolvedTarget};
use projectman::store::SettingsDocument;
use projectman::use_cases::{
    add_project, default_project_name, open_project, remove_project, selection_options,
    set_editor, AddOutcome, Launch, OpenPlan, SetEditorError,
};

fn record(name: &str, path: &str, editor: &str) -> ProjectRecord {
    ProjectRecord::new(name.to_string(), path.to_string(), editor.to_string())
}

fn catalogue(names: &[&str]) -> SettingsDocument {
    let mut doc = SettingsDocument::new("code".to_string());
    for name in names {
        let path = format!("/work/{}", name);
        assert!(doc.insert(record(name, &path, "code")).is_ok());
    }
    doc
}

fn launches(plan: OpenPlan) -> Vec<(String, String)> {
    match plan {
        OpenPlan::Launch { launches, .. } => {
            launches.into_iter().map(|Launch { command, path }| (command, path)).collect()
        }
        OpenPlan::NotFound(name) => panic!("expected launches, got not found: {}", name),
    }
}

fn pair(command: &str, path: &str) -> (String, String) {
    (command.to_string(), path.to_string())
}

#[test]
fn scenario_add_to_an_empty_document() {
    let mut doc = SettingsDocument::new("code".to_string());
    let outcome = add_project(&mut doc, "demo".to_string(), "/work/demo".to_string());
    assert_eq!(outcome, AddOutcome::Added);
    assert_eq!(doc.len(), 1);
    assert_eq!(doc.projects()[0], record("demo", "/work/demo", "code"));
    assert_eq!(doc.default_open_command(), "code");
}

#[test]
fn scenario_add_an_existing_name() {
    let mut doc = catalogue(&["demo"]);
    let before = doc.clone();
    let outcome = add_project(&mut doc, "demo".to_string(), "/somewhere/else".to_string());
    assert_eq!(outcome, AddOutcome::AlreadyExists);
    assert_eq!(doc, before);
}

#[test]
fn scenario_remove_the_second_of_two() {
    let mut doc = catalogue(&["a", "b"]);
    let options = selection_options(&doc).unwrap();
    assert_eq!(options, vec!["a".to_string(), "b".to_string()]);
    assert_eq!(options[1], "b");
    assert_eq!(remove_project(&mut doc, 1), Ok(record("b", "/work/b", "code")));
    assert_eq!(doc.names(), vec!["a".to_string()]);
    assert_eq!(doc, catalogue(&["a"]));
}

#[test]
fn scenario_set_the_editor_of_a_project() {
    let mut doc = SettingsDocument::new("code".to_string());
    assert!(doc.insert(record("x", "/work/x", "code")).is_ok());
    let options = selection_options(&doc).unwrap();
    assert_eq!(options, vec!["x".to_string()]);
    assert_eq!(set_editor(&mut doc, 0, "subl".to_string()), Ok("x".to_string()));
    assert_eq!(doc.len(), 1);
    assert_eq!(doc.projects()[0], record("x", "/work/x", "subl"));
    assert_eq!(doc.default_open_command(), "code");
}

#[test]
fn scenario_open_a_missing_project() {
    let doc = catalogue(&["a", "b"]);
    let before = doc.clone();
    let target = match resolve_for_open(&doc, Some("missing")) {
        Ok(Resolution::Resolved(target)) => target,
        other => panic!("expected a target, got {:?}", other),
    };
    assert!(matches!(&target, ResolvedTarget::Unresolved(name) if name == "missing"));
    match open_project(&doc, &target) {
        OpenPlan::NotFound(name) => assert_eq!(name, "missing"),
        OpenPlan::Launch { launches, .. } => panic!("nothing is to be launched, got {:?}", launches),
    }
    assert_eq!(doc, before);
}

#[test]
fn opening_with_the_default_command_launches_once() {
    let doc = catalogue(&["a"]);
    let target = ResolvedTarget::Found(record("a", "/work/a", "code"));
    assert_eq!(launches(open_project(&doc, &target)), vec![pair("code", "/work/a")]);
    let unset = ResolvedTarget::Selected(record("a", "/work/a", "default"));
    assert_eq!(launches(open_project(&doc, &unset)), vec![pair("code", "/work/a")]);
}

#[test]
fn opening_with_an_editor_of_its_own_launches_it_and_then_the_default() {
    let doc = catalogue(&["a"]);
    let target = ResolvedTarget::Found(record("a", "/work/a", "subl"));
    assert_eq!(
        launches(open_project(&doc, &target)),
        vec![pair("subl", "/work/a"), pair("code", "/work/a")]
    );
    let picked = ResolvedTarget::Selected(record("b", "/b", "vim"));
    assert_eq!(launches(open_project(&doc, &picked)), vec![pair("vim", "/b"), pair("code", "/b")]);
}

#[test]
fn the_plan_names_the_project_that_is_opened() {
    let doc = catalogue(&["a"]);
    let target = ResolvedTarget::Found(record("a", "/work/a", "code"));
    assert!(matches!(open_project(&doc, &target), OpenPlan::Launch { name, .. } if name == "a"));
}

#[test]
fn opening_a_picked_project() {
    let mut doc = catalogue(&["a", "b"]);
    assert!(doc.update_editor("b", "subl".to_string()).is_ok());
    let target = resolve_selection(&doc, 1).unwrap();
    assert_eq!(
        launches(open_project(&doc, &target)),
        vec![pair("subl", "/work/b"), pair("code", "/work/b")]
    );
}

#[test]
fn the_proposed_name_is_the_last_segment() {
    assert_eq!(default_project_name("/work/demo"), "demo");
    assert_eq!(default_project_name("/home/me/src/projectman"), "projectman");
    assert_eq!(default_project_name("demo"), "demo");
    assert_eq!(default_project_name("a/b"), "b");
    assert_eq!(default_project_name("/x"), "x");
}

#[test]
fn the_proposed_name_of_a_path_that_ends_in_a_slash_is_empty() {
    assert_eq!(default_project_name("/work/demo/"), "");
    assert_eq!(default_project_name("/"), "");
    assert_eq!(default_project_name("//"), "");
    assert_eq!(default_project_name(""), "");
}

#[test]
fn the_proposed_name_keeps_characters_beyond_ascii() {
    assert_eq!(default_project_name("/home/zo\u{eb}/caf\u{e9} \u{2692}"), "caf\u{e9} \u{2692}");
    assert_eq!(default_project_name("/\u{65e5}\u{672c}/\u{8a9e}"), "\u{8a9e}");
    assert_eq!(default_project_name("c:\\work\\demo"), "c:\\work\\demo");
}

#[test]
fn adding_takes_the_default_command_as_editor() {
    let mut doc = SettingsDocument::new("vim".to_string());
    assert_eq!(add_project(&mut doc, "a".to_string(), "/a".to_string()), AddOutcome::Added);
    assert_eq!(add_project(&mut doc, "".to_string(), "/".to_string()), AddOutcome::Added);
    assert_eq!(doc.projects()[0], record("a", "/a", "vim"));
    assert_eq!(doc.projects()[1], record("", "/", "vim"));
    assert_eq!(add_project(&mut doc, "".to_string(), "/b".to_string()), AddOutcome::AlreadyExists);
    assert_eq!(doc.len(), 2);
}

#[test]
fn nothing_to_pick_from_in_an_empty_catalogue() {
    let mut doc = catalogue(&[]);
    assert_eq!(selection_options(&doc), Err(StoreError::EmptyCatalog));
    assert_eq!(remove_project(&mut doc, 0), Err(StoreError::EmptyCatalog));
    assert_eq!(set_editor(&mut doc, 0, "vim".to_string()), Err(SetEditorError::EmptyCatalog));
    assert_eq!(doc, catalogue(&[]));
}

#[test]
fn a_position_beyond_the_catalogue_changes_nothing() {
    let mut doc = catalogue(&["a", "b"]);
    assert_eq!(remove_project(&mut doc, 2), Err(StoreError::NotFound));
    assert_eq!(set_editor(&mut doc, 2, "vim".to_string()), Err(SetEditorError::NotFound));
    assert_eq!(set_editor(&mut doc, 7, "default".to_string()), Err(SetEditorError::NotFound));
    assert_eq!(doc, catalogue(&["a", "b"]));
}

#[test]
fn the_reserved_word_cannot_be_set_as_editor() {
    let mut doc = catalogue(&["a"]);
    assert_eq!(set_editor(&mut doc, 0, "default".to_string()), Err(SetEditorError::ReservedEditor));
    assert_eq!(doc, catalogue(&["a"]));
    assert_eq!(set_editor(&mut doc, 0, "Default".to_string()), Ok("a".to_string()));
    assert_eq!(doc.projects()[0].editor, "Default");
    assert_eq!(set_editor(&mut doc, 0, "".to_string()), Ok("a".to_string()));
    assert_eq!(doc.projects()[0].editor, "");
}

#[test]
fn removing_by_position_takes_that_record_only() {
    let mut doc = catalogue(&["a", "b", "c"]);
    assert_eq!(remove_project(&mut doc, 0), Ok(record("a", "/work/a", "code")));
    assert_eq!(doc, catalogue(&["b", "c"]));
    assert_eq!(remove_project(&mut doc, 1), Ok(record("c", "/work/c", "code")));
    assert_eq!(doc, catalogue(&["b"]));
    assert_eq!(remove_project(&mut doc, 0), Ok(record("b", "/work/b", "code")));
    assert!(doc.is_empty());
}
