use vstd::prelude::*;
use crate::errors::StoreError;
use crate::model::{DocumentView, RecordView, RESERVED_EDITOR};
use crate::record::ProjectRecord;
use crate::store::{text_views, SettingsDocument};
use crate::text::same_text;

verus! {

/// The project that a request settled on, or the name that no project has.
#[derive(Debug)]
pub enum ResolvedTarget {
    /// The project that was picked from the list.
    Selected(ProjectRecord),
    /// The project that has the requested name.
    Found(ProjectRecord),
    /// The requested name, which no project has.
    Unresolved(String),
}

/// What a target is, over the views of its parts.
pub enum TargetView {
    Selected(RecordView),
    Found(RecordView),
    Unresolved(Seq<char>),
}

impl View for ResolvedTarget {
    type V = TargetView;

    open spec fn view(&self) -> TargetView {
        match self {
            ResolvedTarget::Selected(record) => TargetView::Selected(record@),
            ResolvedTarget::Found(record) => TargetView::Found(record@),
            ResolvedTarget::Unresolved(name) => TargetView::Unresolved(name@),
        }
    }
}

/// How far a request to open a project has come.
#[derive(Debug)]
pub enum Resolution {
    /// The target is known.
    Resolved(ResolvedTarget),
    /// No name was given: one of these names has to be picked. There is at
    /// least one.
    Choose(Vec<String>),
}

/// The target of a request that names a project.
pub open spec fn target_of_name(doc: DocumentView, name: Seq<char>) -> TargetView {
    match doc.find(name) {
        Some(record) => TargetView::Found(record),
        None => TargetView::Unresolved(name),
    }
}

/// The target of a request that names a project: the project of that
/// name, or the name itself where no project has it. Names are compared
/// exactly.
pub fn resolve_name(doc: &SettingsDocument, name: &str) -> (target: ResolvedTarget)
    ensures
        target@ == target_of_name(doc@, name@),
        target is Found <==> doc@.has(name@),
        target is Unresolved <==> !doc@.has(name@),
{
    match doc.find_by_name(name) {
        Some(record) => ResolvedTarget::Found(record.clone()),
        None => ResolvedTarget::Unresolved(name.to_owned()),
    }
}

/// Settles which project a request to open refers to, as far as that can
/// be done without asking. With a name the outcome is the target of that
/// name. Without a name it is the list of names to pick from; an empty
/// catalogue is an error, and nothing is to be picked then.
pub fn resolve_for_open(doc: &SettingsDocument, requested: Option<&str>) -> (res: Result<
    Resolution,
    StoreError,
>)
    ensures
        match requested {
            Some(name) => {
                &&& res matches Ok(Resolution::Resolved(target))
                &&& target@ == target_of_name(doc@, name@)
                &&& target is Found <==> doc@.has(name@)
                &&& target is Unresolved <==> !doc@.has(name@)
            },
            None => if doc@.projects.len() == 0 {
                res == Err::<Resolution, StoreError>(StoreError::EmptyCatalog)
            } else {
                res matches Ok(Resolution::Choose(names)) && text_views(names@) == doc@.names()
            },
        },
{
    match requested {
        Some(name) => Ok(Resolution::Resolved(resolve_name(doc, name))),
        None => {
            if doc.is_empty() {
                Err(StoreError::EmptyCatalog)
            } else {
                Ok(Resolution::Choose(doc.names()))
            }
        },
    }
}

/// The target for the name that was picked at position `index` of the list
/// that `resolve_for_open` gave out. A position beyond the list is an error.
pub fn resolve_selection(doc: &SettingsDocument, index: usize) -> (res: Result<
    ResolvedTarget,
    StoreError,
>)
    ensures
        if index < doc@.projects.len() {
            res matches Ok(target) && target@ == TargetView::Selected(doc@.projects[index as int])
        } else {
            res == Err::<ResolvedTarget, StoreError>(StoreError::NotFound)
        },
{
    match doc.project_at(index) {
        Some(record) => Ok(ResolvedTarget::Selected(record.clone())),
        None => Err(StoreError::NotFound),
    }
}

/// The command that opens `record`: its own editor, or the document's
/// default open command where the editor is the reserved word `default`.
pub fn effective_open_command<'a>(doc: &'a SettingsDocument, record: &'a ProjectRecord) -> (command:
    &'a str)
    ensures
        command@ == record@.effective_command(doc@.default_open_command),
{
    if same_text(record.editor.as_str(), RESERVED_EDITOR) {
        doc.default_open_command()
    } else {
        record.editor.as_str()
    }
}

} // verus!
