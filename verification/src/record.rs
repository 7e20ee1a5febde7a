use vstd::prelude::*;
use crate::model::RecordView;

verus! {

/// One stored project: its name, the directory it lives in, and the
/// command that opens it.
#[derive(Debug)]
pub struct ProjectRecord {
    pub name: String,
    pub path: String,
    pub editor: String,
}

impl View for ProjectRecord {
    type V = RecordView;

    open spec fn view(&self) -> RecordView {
        RecordView { name: self.name@, path: self.path@, editor: self.editor@ }
    }
}

impl ProjectRecord {
    pub fn new(name: String, path: String, editor: String) -> (record: ProjectRecord)
        ensures
            record@ == (RecordView { name: name@, path: path@, editor: editor@ }),
    {
        ProjectRecord { name, path, editor }
    }
}

impl Clone for ProjectRecord {
    fn clone(&self) -> (copy: ProjectRecord)
        ensures
            copy == *self,
    {
        ProjectRecord {
            name: self.name.clone(),
            path: self.path.clone(),
            editor: self.editor.clone(),
        }
    }
}

impl PartialEq for ProjectRecord {
    fn eq(&self, other: &ProjectRecord) -> (same: bool) {
        self.name == other.name && self.path == other.path && self.editor == other.editor
    }
}

impl vstd::std_specs::cmp::PartialEqSpecImpl for ProjectRecord {
    open spec fn obeys_eq_spec() -> bool {
        true
    }

    open spec fn eq_spec(&self, other: &ProjectRecord) -> bool {
        self@ == other@
    }
}

} // verus!
