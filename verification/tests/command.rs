use projectman::command::{dispatch, help, Command, HELP_TEXT};

fn word(text: &str) -> Option<String> {
    Some(text.to_string())
}

#[test]
fn no_word_opens() {
    assert!(matches!(dispatch(None, None), Command::Open(None)));
    assert!(matches!(dispatch(None, word("demo")), Command::Open(Some(name)) if name == "demo"));
}

#[test]
fn open_and_its_short_form_open() {
    assert!(matches!(dispatch(word("open"), None), Command::Open(None)));
    assert!(matches!(dispatch(word("o"), None), Command::Open(None)));
    assert!(matches!(dispatch(word("open"), word("demo")), Command::Open(Some(n)) if n == "demo"));
    assert!(matches!(dispatch(word("o"), word("x y")), Command::Open(Some(n)) if n == "x y"));
}

#[test]
fn add_and_save_add() {
    assert!(matches!(dispatch(word("add"), None), Command::Add));
    assert!(matches!(dispatch(word("save"), None), Command::Add));
    assert!(matches!(dispatch(word("add"), word("ignored")), Command::Add));
}

#[test]
fn remove_and_seteditor() {
    assert!(matches!(dispatch(word("remove"), None), Command::Remove));
    assert!(matches!(dispatch(word("seteditor"), None), Command::SetEditor));
    assert!(matches!(dispatch(word("seteditor"), word("vim")), Command::SetEditor));
}

#[test]
fn any_other_word_is_unknown() {
    for text in ["edit", "", "Open", "opens", "op", "rm", "delete", "set-editor", " add", "help"] {
        match dispatch(word(text), word("demo")) {
            Command::Unknown(unknown) => assert_eq!(unknown, text),
            other => panic!("{:?} is no command, got {:?}", text, other),
        }
    }
}

#[test]
fn help_names_every_command() {
    let text = help();
    assert_eq!(text, HELP_TEXT);
    let expected = "
Usage: pm <command>

Options:
  -V, --version                output the version number
  -h, --help                   output usage information

Commands:
  open|o [projectName]         Open one of your saved projects
  add|save [projectDirectory]  Save current directory as a project
  remove [projectName]         Remove the project
  seteditor [commandToOpen]    Set text editor to use
  edit                         Edit settings.json
";
    assert_eq!(text, expected);
    for line in [
        "open|o [projectName]",
        "add|save [projectDirectory]",
        "remove [projectName]",
        "seteditor [commandToOpen]",
        "edit",
    ] {
        assert!(text.contains(line), "missing {:?}", line);
    }
    assert!(text.starts_with("\nUsage: pm <command>\n"));
    assert!(text.ends_with("Edit settings.json\n"));
    assert_eq!(text.lines().count(), 13);
}
