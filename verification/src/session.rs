use vstd::prelude::*;
use crate::command::{Command, CommandView};
use crate::errors::StoreError;
use crate::model::{DocumentView, RecordView, RESERVED_EDITOR};
use crate::resolver::{
    resolve_name, resolve_selection, target_of_name, ResolvedTarget, TargetView,
};
use crate::store::{text_views, SettingsDocument};
use crate::use_cases::{
    add_project, default_project_name, last_segment, launch_views, launches_for, open_project,
    remove_project, selection_options, set_editor, AddOutcome, Launch, LaunchView, OpenPlan,
    SetEditorError,
};

verus! {

/// What a project is picked for.
#[derive(Debug, Clone, Copy, PartialEq, Eq, Structural)]
pub enum Purpose {
    Open,
    Remove,
    SetEditor,
}

/// What the user is told when a run ends.
#[derive(Debug)]
pub enum Notice {
    /// No project is stored; one has to be added first.
    EmptyCatalog,
    /// No project has this name; it can be added.
    NotFound(String),
    /// The project of this name was added.
    Added(String),
    /// A project of this name is stored already.
    AlreadyExists(String),
    /// The project of this name was removed.
    Removed(String),
    /// The editor of the project of this name was set.
    EditorUpdated(String),
    /// The reserved editor cannot be chosen.
    ReservedEditor,
    /// This word is no command; the summary of the commands follows.
    UnknownCommand(String),
}

/// How a run ends.
#[derive(Debug)]
pub enum Ending {
    /// The project called `name` is opened: `launches` are run in order.
    /// The document is as it was.
    Open { name: String, launches: Vec<Launch> },
    /// The document was changed: it is written, and then the user is told.
    Save(Notice),
    /// The document is as it was and nothing went wrong: the user is told.
    Report(Notice),
    /// The document is as it was and the run failed.
    Fail(StoreError),
}

/// What a run needs next.
#[derive(Debug)]
pub enum Step {
    /// One of `options` has to be picked; there is at least one.
    Pick { purpose: Purpose, options: Vec<String> },
    /// The path of the working directory has to be read.
    WorkingDirectory,
    /// A name for the project in `cwd` has to be typed; `hint` is proposed.
    Name { cwd: String, hint: String },
    /// An editor for the project at position `index` has to be typed.
    Editor { index: usize },
    /// Nothing: the run is over.
    End(Ending),
}

pub enum NoticeView {
    EmptyCatalog,
    NotFound(Seq<char>),
    Added(Seq<char>),
    AlreadyExists(Seq<char>),
    Removed(Seq<char>),
    EditorUpdated(Seq<char>),
    ReservedEditor,
    UnknownCommand(Seq<char>),
}

pub enum EndingView {
    Open { name: Seq<char>, launches: Seq<LaunchView> },
    Save(NoticeView),
    Report(NoticeView),
    Fail(StoreError),
}

pub enum StepView {
    Pick { purpose: Purpose, options: Seq<Seq<char>> },
    WorkingDirectory,
    Name { cwd: Seq<char>, hint: Seq<char> },
    Editor { index: usize },
    End(EndingView),
}

impl View for Notice {
    type V = NoticeView;

    open spec fn view(&self) -> NoticeView {
        match self {
            Notice::EmptyCatalog => NoticeView::EmptyCatalog,
            Notice::NotFound(name) => NoticeView::NotFound(name@),
            Notice::Added(name) => NoticeView::Added(name@),
            Notice::AlreadyExists(name) => NoticeView::AlreadyExists(name@),
            Notice::Removed(name) => NoticeView::Removed(name@),
            Notice::EditorUpdated(name) => NoticeView::EditorUpdated(name@),
            Notice::ReservedEditor => NoticeView::ReservedEditor,
            Notice::UnknownCommand(word) => NoticeView::UnknownCommand(word@),
        }
    }
}

impl View for Ending {
    type V = EndingView;

    open spec fn view(&self) -> EndingView {
        match self {
            Ending::Open { name, launches } => EndingView::Open {
                name: name@,
                launches: launch_views(launches@),
            },
            Ending::Save(notice) => EndingView::Save(notice@),
            Ending::Report(notice) => EndingView::Report(notice@),
            Ending::Fail(e) => EndingView::Fail(*e),
        }
    }
}

impl View for Step {
    type V = StepView;

    open spec fn view(&self) -> StepView {
        match self {
            Step::Pick { purpose, options } => StepView::Pick {
                purpose: *purpose,
                options: text_views(options@),
            },
            Step::WorkingDirectory => StepView::WorkingDirectory,
            Step::Name { cwd, hint } => StepView::Name { cwd: cwd@, hint: hint@ },
            Step::Editor { index } => StepView::Editor { index: *index },
            Step::End(ending) => StepView::End(ending@),
        }
    }
}

/// The step that asks to pick a project, or the end of the run where none
/// is stored: then nothing is asked.
pub open spec fn pick_step(doc: DocumentView, purpose: Purpose) -> StepView {
    if doc.projects.len() == 0 {
        StepView::End(EndingView::Report(NoticeView::EmptyCatalog))
    } else {
        StepView::Pick { purpose, options: doc.names() }
    }
}

/// How opening a target ends: a project is opened, an unknown name is
/// reported.
pub open spec fn open_ending(doc: DocumentView, target: TargetView) -> EndingView {
    match target {
        TargetView::Selected(record) | TargetView::Found(record) => EndingView::Open {
            name: record.name,
            launches: launches_for(doc.default_open_command, record),
        },
        TargetView::Unresolved(name) => EndingView::Report(NoticeView::NotFound(name)),
    }
}

/// The first step of a command.
pub open spec fn first_step(doc: DocumentView, command: CommandView) -> StepView {
    match command {
        CommandView::Open(Some(name)) => StepView::End(
            open_ending(doc, target_of_name(doc, name)),
        ),
        CommandView::Open(None) => pick_step(doc, Purpose::Open),
        CommandView::Add => StepView::WorkingDirectory,
        CommandView::Remove => pick_step(doc, Purpose::Remove),
        CommandView::SetEditor => pick_step(doc, Purpose::SetEditor),
        CommandView::Unknown(word) => StepView::End(
            EndingView::Report(NoticeView::UnknownCommand(word)),
        ),
    }
}

/// The step after the project at `index` was picked, and the document
/// after it.
pub open spec fn step_after_pick(doc: DocumentView, purpose: Purpose, index: int) -> (
    StepView,
    DocumentView,
) {
    if doc.projects.len() == 0 {
        (StepView::End(EndingView::Report(NoticeView::EmptyCatalog)), doc)
    } else if index >= doc.projects.len() {
        (StepView::End(EndingView::Fail(StoreError::NotFound)), doc)
    } else {
        let record = doc.projects[index];
        match purpose {
            Purpose::Open => (
                StepView::End(open_ending(doc, TargetView::Selected(record))),
                doc,
            ),
            Purpose::Remove => (
                StepView::End(EndingView::Save(NoticeView::Removed(record.name))),
                DocumentView {
                    default_open_command: doc.default_open_command,
                    projects: doc.projects.remove(index),
                },
            ),
            Purpose::SetEditor => (StepView::Editor { index: index as usize }, doc),
        }
    }
}

/// The step after `name` was typed for the project in `cwd`, and the
/// document after it.
pub open spec fn step_after_name(doc: DocumentView, cwd: Seq<char>, name: Seq<char>) -> (
    StepView,
    DocumentView,
) {
    if doc.has(name) {
        (StepView::End(EndingView::Report(NoticeView::AlreadyExists(name))), doc)
    } else {
        (
            StepView::End(EndingView::Save(NoticeView::Added(name))),
            doc.inserted(RecordView { name, path: cwd, editor: doc.default_open_command }),
        )
    }
}

/// The step after `editor` was typed for the project at `index`, and the
/// document after it.
pub open spec fn step_after_editor(doc: DocumentView, index: int, editor: Seq<char>) -> (
    StepView,
    DocumentView,
) {
    if doc.projects.len() == 0 {
        (StepView::End(EndingView::Report(NoticeView::EmptyCatalog)), doc)
    } else if index >= doc.projects.len() {
        (StepView::End(EndingView::Fail(StoreError::NotFound)), doc)
    } else if editor == RESERVED_EDITOR@ {
        (StepView::End(EndingView::Report(NoticeView::ReservedEditor)), doc)
    } else {
        (
            StepView::End(EndingView::Save(NoticeView::EditorUpdated(doc.projects[index].name))),
            DocumentView {
                default_open_command: doc.default_open_command,
                projects: doc.projects.update(index, doc.projects[index].with_editor(editor)),
            },
        )
    }
}

/// Whether a step ends the run with the document to be written.
pub open spec fn saves(step: StepView) -> bool {
    step matches StepView::End(EndingView::Save(_))
}

/// A step that does not end the run with the document to be written leaves
/// the document as it was: what is changed is written, and a run that is
/// given up, refused or failed has changed nothing.
pub proof fn law_only_saved_steps_change_the_document(
    doc: DocumentView,
    purpose: Purpose,
    index: int,
    cwd: Seq<char>,
    name: Seq<char>,
    editor: Seq<char>,
)
    ensures
        !saves(step_after_pick(doc, purpose, index).0) ==> step_after_pick(doc, purpose, index).1
            == doc,
        !saves(step_after_name(doc, cwd, name).0) ==> step_after_name(doc, cwd, name).1 == doc,
        !saves(step_after_editor(doc, index, editor).0) ==> step_after_editor(
            doc,
            index,
            editor,
        ).1 == doc,
{
}

/// Ends a run by opening `target`.
fn open_target(doc: &SettingsDocument, target: ResolvedTarget) -> (ending: Ending)
    ensures
        ending@ == open_ending(doc@, target@),
{
    match open_project(doc, &target) {
        OpenPlan::Launch { name, launches } => Ending::Open { name, launches },
        OpenPlan::NotFound(name) => Ending::Report(Notice::NotFound(name)),
    }
}

/// Asks to pick a project, unless none is stored.
fn ask_to_pick(doc: &SettingsDocument, purpose: Purpose) -> (step: Step)
    ensures
        step@ == pick_step(doc@, purpose),
{
    match selection_options(doc) {
        Ok(options) => Step::Pick { purpose, options },
        Err(_) => Step::End(Ending::Report(Notice::EmptyCatalog)),
    }
}

/// Starts the run of a command.
pub fn begin(doc: &SettingsDocument, command: Command) -> (step: Step)
    ensures
        step@ == first_step(doc@, command@),
{
    match command {
        Command::Open(Some(name)) => {
            let target = resolve_name(doc, name.as_str());
            Step::End(open_target(doc, target))
        },
        Command::Open(None) => ask_to_pick(doc, Purpose::Open),
        Command::Add => Step::WorkingDirectory,
        Command::Remove => ask_to_pick(doc, Purpose::Remove),
        Command::SetEditor => ask_to_pick(doc, Purpose::SetEditor),
        Command::Unknown(word) => Step::End(Ending::Report(Notice::UnknownCommand(word))),
    }
}

/// Goes on after the project at position `index` of the list was picked.
pub fn on_pick(doc: &mut SettingsDocument, purpose: Purpose, index: usize) -> (step: Step)
    ensures
        (step@, final(doc)@) == step_after_pick(old(doc)@, purpose, index as int),
{
    if doc.is_empty() {
        return Step::End(Ending::Report(Notice::EmptyCatalog));
    }
    match purpose {
        Purpose::Open => match resolve_selection(doc, index) {
            Ok(target) => Step::End(open_target(doc, target)),
            Err(e) => Step::End(Ending::Fail(e)),
        },
        Purpose::Remove => match remove_project(doc, index) {
            Ok(record) => Step::End(Ending::Save(Notice::Removed(record.name))),
            Err(e) => Step::End(Ending::Fail(e)),
        },
        Purpose::SetEditor => {
            if index < doc.len() {
                Step::Editor { index }
            } else {
                Step::End(Ending::Fail(StoreError::NotFound))
            }
        },
    }
}

/// Goes on after the working directory was read.
pub fn on_working_directory(cwd: String) -> (step: Step)
    ensures
        step@ == (StepView::Name { cwd: cwd@, hint: last_segment(cwd@) }),
{
    let hint = default_project_name(cwd.as_str());
    Step::Name { cwd, hint }
}

/// Goes on after `name` was typed for the project in `cwd`.
pub fn on_name(doc: &mut SettingsDocument, cwd: String, name: String) -> (step: Step)
    ensures
        (step@, final(doc)@) == step_after_name(old(doc)@, cwd@, name@),
{
    let shown = name.clone();
    match add_project(doc, name, cwd) {
        AddOutcome::Added => Step::End(Ending::Save(Notice::Added(shown))),
        AddOutcome::AlreadyExists => Step::End(Ending::Report(Notice::AlreadyExists(shown))),
    }
}

/// Goes on after `editor` was typed for the project at position `index`.
pub fn on_editor(doc: &mut SettingsDocument, index: usize, editor: String) -> (step: Step)
    ensures
        (step@, final(doc)@) == step_after_editor(old(doc)@, index as int, editor@),
{
    match set_editor(doc, index, editor) {
        Ok(name) => Step::End(Ending::Save(Notice::EditorUpdated(name))),
        Err(SetEditorError::EmptyCatalog) => Step::End(Ending::Report(Notice::EmptyCatalog)),
        Err(SetEditorError::NotFound) => Step::End(Ending::Fail(StoreError::NotFound)),
        Err(SetEditorError::ReservedEditor) => Step::End(Ending::Report(Notice::ReservedEditor)),
    }
}

} // verus!
