use vstd::prelude::*;
use crate::errors::StoreError;
use crate::model::{lemma_position_unique, RecordView, RESERVED_EDITOR};
use crate::record::ProjectRecord;
use crate::resolver::{effective_open_command, ResolvedTarget, TargetView};
use crate::store::{text_views, SettingsDocument};
use crate::text::same_text;

verus! {

/// One start of an outside program: `command` is run with `path` as its
/// only argument.
#[derive(Debug)]
pub struct Launch {
    pub command: String,
    pub path: String,
}

/// What a launch is: two pieces of text.
pub struct LaunchView {
    pub command: Seq<char>,
    pub path: Seq<char>,
}

impl View for Launch {
    type V = LaunchView;

    open spec fn view(&self) -> LaunchView {
        LaunchView { command: self.command@, path: self.path@ }
    }
}

/// The views of a run of launches, in the same order.
pub open spec fn launch_views(launches: Seq<Launch>) -> Seq<LaunchView> {
    launches.map_values(|l: Launch| l@)
}

/// The launches that open `record`, in order. The first runs the effective
/// command. A project with an editor of its own that differs from the
/// default open command is opened a second time, with the default open
/// command.
pub open spec fn launches_for(default_open_command: Seq<char>, record: RecordView) -> Seq<
    LaunchView,
> {
    let first = LaunchView {
        command: record.effective_command(default_open_command),
        path: record.path,
    };
    if record.editor != RESERVED_EDITOR@ && record.editor != default_open_command {
        seq![first, LaunchView { command: default_open_command, path: record.path }]
    } else {
        seq![first]
    }
}

/// What opening a target comes to.
#[derive(Debug)]
pub enum OpenPlan {
    /// Open the project called `name`: run `launches`, in order.
    Launch { name: String, launches: Vec<Launch> },
    /// Nothing is run: no project has this name.
    NotFound(String),
}

/// Whether a project was added.
#[derive(Debug, Clone, Copy, PartialEq, Eq, Structural)]
pub enum AddOutcome {
    /// The project was appended to the catalogue.
    Added,
    /// A project of that name is stored already; nothing was changed.
    AlreadyExists,
}

/// Why the editor of a project was not set.
#[derive(Debug, Clone, Copy, PartialEq, Eq, Structural)]
pub enum SetEditorError {
    /// The catalogue is empty.
    EmptyCatalog,
    /// The chosen position is beyond the catalogue.
    NotFound,
    /// The new editor is the reserved word `default`, which stands for "no
    /// editor of its own" and cannot be chosen.
    ReservedEditor,
}

/// Plans the opening of a target: the launches for a project, or the
/// report that the name is unknown. The document is not changed.
pub fn open_project(doc: &SettingsDocument, target: &ResolvedTarget) -> (plan: OpenPlan)
    ensures
        match target@ {
            TargetView::Selected(record) | TargetView::Found(record) => {
                &&& plan matches OpenPlan::Launch { name, launches }
                &&& name@ == record.name
                &&& launch_views(launches@) == launches_for(doc@.default_open_command, record)
            },
            TargetView::Unresolved(name) => plan matches OpenPlan::NotFound(missing) && missing@
                == name,
        },
{
    match target {
        ResolvedTarget::Selected(record) | ResolvedTarget::Found(record) => {
            let mut launches: Vec<Launch> = Vec::new();
            let first = effective_open_command(doc, record);
            launches.push(Launch { command: first.to_owned(), path: record.path.clone() });
            let editor = record.editor.as_str();
            let default_command = doc.default_open_command();
            if !same_text(editor, RESERVED_EDITOR) && !same_text(editor, default_command) {
                launches.push(
                    Launch { command: default_command.to_owned(), path: record.path.clone() },
                );
            }
            assert(launch_views(launches@) =~= launches_for(doc@.default_open_command, record@));
            OpenPlan::Launch { name: record.name.clone(), launches }
        },
        ResolvedTarget::Unresolved(name) => OpenPlan::NotFound(name.clone()),
    }
}

/// The name that a path proposes for its project starts at `start`: what
/// follows has no `/`, and what comes before ends in one.
pub open spec fn is_last_segment_start(path: Seq<char>, start: int) -> bool {
    &&& 0 <= start <= path.len()
    &&& forall|k: int| start <= k < path.len() ==> path[k] != '/'
    &&& start == 0 || path[start - 1] == '/'
}

/// The last segment of a path: what follows its last `/`, or all of it
/// where it has none.
pub open spec fn last_segment(path: Seq<char>) -> Seq<char> {
    let start: int = choose|start: int| is_last_segment_start(path, start);
    path.subrange(start, path.len() as int)
}

/// A path has one last segment only.
pub proof fn lemma_last_segment(path: Seq<char>, start: int)
    requires
        is_last_segment_start(path, start),
    ensures
        last_segment(path) == path.subrange(start, path.len() as int),
{
    let chosen: int = choose|s: int| is_last_segment_start(path, s);
    if chosen < start {
        assert(path[start - 1] == '/');
    } else if start < chosen {
        assert(path[chosen - 1] == '/');
    }
}

/// The name proposed for the project in directory `cwd`: the last segment
/// of the path.
pub fn default_project_name(cwd: &str) -> (name: String)
    ensures
        name@ == last_segment(cwd@),
{
    let length: usize = cwd.unicode_len();
    let mut start: usize = 0;
    let mut count: usize = 0;
    for c in it: cwd.chars()
        invariant
            it.seq() == cwd@,
            length == cwd@.len(),
            count == it.index(),
            is_last_segment_start(cwd@.subrange(0, count as int), start as int),
    {
        count += 1;
        if c == '/' {
            start = count;
        }
    }
    proof {
        assert(cwd@.subrange(0, count as int) =~= cwd@);
        lemma_last_segment(cwd@, start as int);
    }
    cwd.substring_char(start, length).to_owned()
}

/// Adds the project in directory `cwd` under `name`, with the document's
/// default open command as its editor. Where the name is taken nothing is
/// changed.
pub fn add_project(doc: &mut SettingsDocument, name: String, cwd: String) -> (outcome: AddOutcome)
    ensures
        match outcome {
            AddOutcome::Added => {
                &&& !old(doc)@.has(name@)
                &&& final(doc)@ == old(doc)@.inserted(
                    RecordView {
                        name: name@,
                        path: cwd@,
                        editor: old(doc)@.default_open_command,
                    },
                )
            },
            AddOutcome::AlreadyExists => old(doc)@.has(name@) && final(doc)@ == old(doc)@,
        },
{
    let editor = doc.default_open_command().to_owned();
    match doc.insert(ProjectRecord::new(name, cwd, editor)) {
        Ok(_) => AddOutcome::Added,
        Err(_) => AddOutcome::AlreadyExists,
    }
}

/// The names to pick from before a project is removed or its editor set.
/// An empty catalogue is an error: there is nothing to pick.
pub fn selection_options(doc: &SettingsDocument) -> (res: Result<Vec<String>, StoreError>)
    ensures
        if doc@.projects.len() == 0 {
            res == Err::<Vec<String>, StoreError>(StoreError::EmptyCatalog)
        } else {
            res matches Ok(names) && text_views(names@) == doc@.names()
        },
{
    if doc.is_empty() {
        Err(StoreError::EmptyCatalog)
    } else {
        Ok(doc.names())
    }
}

/// Removes the project that was picked at position `index` of the list of
/// names, and hands it back. The other projects keep their order.
pub fn remove_project(doc: &mut SettingsDocument, index: usize) -> (res: Result<
    ProjectRecord,
    StoreError,
>)
    ensures
        match res {
            Ok(record) => {
                &&& index < old(doc)@.projects.len()
                &&& record@ == old(doc)@.projects[index as int]
                &&& final(doc)@.default_open_command == old(doc)@.default_open_command
                &&& final(doc)@.projects == old(doc)@.projects.remove(index as int)
            },
            Err(e) => {
                &&& index >= old(doc)@.projects.len()
                &&& e == if old(doc)@.projects.len() == 0 {
                    StoreError::EmptyCatalog
                } else {
                    StoreError::NotFound
                }
                &&& final(doc)@ == old(doc)@
            },
        },
{
    if doc.is_empty() {
        return Err(StoreError::EmptyCatalog);
    }
    let name = match doc.project_at(index) {
        Some(record) => record.name.clone(),
        None => { return Err(StoreError::NotFound); },
    };
    proof {
        use_type_invariant(&*doc);
        lemma_position_unique(doc@, name@, index as int);
    }
    doc.remove(name.as_str())
}

/// Makes `editor` the editor of the project that was picked at position
/// `index` of the list of names, and hands back the name of that project.
/// The reserved editor is refused. Nothing else in the document changes.
pub fn set_editor(doc: &mut SettingsDocument, index: usize, editor: String) -> (res: Result<
    String,
    SetEditorError,
>)
    ensures
        match res {
            Ok(name) => {
                &&& index < old(doc)@.projects.len()
                &&& editor@ != RESERVED_EDITOR@
                &&& name@ == old(doc)@.projects[index as int].name
                &&& final(doc)@.default_open_command == old(doc)@.default_open_command
                &&& final(doc)@.projects == old(doc)@.projects.update(
                    index as int,
                    old(doc)@.projects[index as int].with_editor(editor@),
                )
            },
            Err(e) => {
                &&& e == if old(doc)@.projects.len() == 0 {
                    SetEditorError::EmptyCatalog
                } else if index >= old(doc)@.projects.len() {
                    SetEditorError::NotFound
                } else {
                    SetEditorError::ReservedEditor
                }
                &&& index >= old(doc)@.projects.len() || editor@ == RESERVED_EDITOR@
                &&& final(doc)@ == old(doc)@
            },
        },
{
    if doc.is_empty() {
        return Err(SetEditorError::EmptyCatalog);
    }
    let name = match doc.project_at(index) {
        Some(record) => record.name.clone(),
        None => { return Err(SetEditorError::NotFound); },
    };
    if same_text(editor.as_str(), RESERVED_EDITOR) {
        return Err(SetEditorError::ReservedEditor);
    }
    proof {
        use_type_invariant(&*doc);
        lemma_position_unique(doc@, name@, index as int);
    }
    match doc.update_editor(name.as_str(), editor) {
        Ok(_) => Ok(name),
        Err(_) => Err(SetEditorError::NotFound),
    }
}

} // verus!
