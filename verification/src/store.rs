use vstd::prelude::*;
use crate::errors::StoreError;
use crate::model::{
    law_insert_keeps_names_unique, law_remove_takes_one, law_update_editor_changes_only_editor,
    lemma_position, lemma_position_unique, DocumentView, RecordView,
};
use crate::record::ProjectRecord;
use crate::text::same_text;

verus! {

/// The views of a run of records, in the same order.
pub open spec fn record_views(records: Seq<ProjectRecord>) -> Seq<RecordView> {
    records.map_values(|r: ProjectRecord| r@)
}

/// The views of a run of strings, in the same order.
pub open spec fn text_views(texts: Seq<String>) -> Seq<Seq<char>> {
    texts.map_values(|t: String| t@)
}

/// The settings document: the default open command and the catalogue of
/// projects. No two projects of a document share a name.
#[derive(Debug)]
pub struct SettingsDocument {
    default_open_command: String,
    projects: Vec<ProjectRecord>,
}

impl View for SettingsDocument {
    type V = DocumentView;

    closed spec fn view(&self) -> DocumentView {
        DocumentView {
            default_open_command: self.default_open_command@,
            projects: record_views(self.projects@),
        }
    }
}

impl SettingsDocument {
    /// What holds of every document: its names are unique.
    #[verifier::type_invariant]
    pub open spec fn well_formed(&self) -> bool {
        self@.names_unique()
    }

    /// A document with the given default open command and no project.
    pub fn new(default_open_command: String) -> (doc: SettingsDocument)
        ensures
            doc@ == (DocumentView {
                default_open_command: default_open_command@,
                projects: Seq::empty(),
            }),
    {
        let doc = SettingsDocument { default_open_command, projects: Vec::new() };
        assert(doc@.projects =~= Seq::empty());
        doc
    }

    /// The command that opens a project without an editor of its own.
    pub fn default_open_command(&self) -> (command: &str)
        ensures
            command@ == self@.default_open_command,
    {
        self.default_open_command.as_str()
    }

    /// The number of stored projects.
    pub fn len(&self) -> (n: usize)
        ensures
            n == self@.projects.len(),
    {
        self.projects.len()
    }

    /// Whether no project is stored.
    pub fn is_empty(&self) -> (empty: bool)
        ensures
            empty == (self@.projects.len() == 0),
    {
        self.projects.len() == 0
    }

    /// The stored projects, in document order.
    pub fn projects(&self) -> (records: &Vec<ProjectRecord>)
        ensures
            record_views(records@) == self@.projects,
            self@.names_unique(),
    {
        proof {
            use_type_invariant(self);
        }
        &self.projects
    }

    /// The project at `index`, if there is one.
    pub fn project_at(&self, index: usize) -> (record: Option<&ProjectRecord>)
        ensures
            match record {
                Some(r) => index < self@.projects.len() && r@ == self@.projects[index as int],
                None => index >= self@.projects.len(),
            },
    {
        if index < self.projects.len() {
            Some(&self.projects[index])
        } else {
            None
        }
    }

    /// The names of the stored projects, in document order.
    pub fn names(&self) -> (names: Vec<String>)
        ensures
            text_views(names@) == self@.names(),
    {
        let mut names: Vec<String> = Vec::new();
        let mut i: usize = 0;
        while i < self.projects.len()
            invariant
                i <= self.projects.len(),
                names.len() == i,
                forall|j: int| 0 <= j < i ==> (#[trigger] names@[j])@ == self.projects@[j].name@,
            decreases self.projects.len() - i,
        {
            names.push(self.projects[i].name.clone());
            i += 1;
        }
        assert(text_views(names@) =~= self@.names());
        names
    }

    /// Moves the projects out and leaves none behind.
    fn take_projects(&mut self) -> (projects: Vec<ProjectRecord>)
        ensures
            projects@ == old(self).projects@,
            final(self).projects@ == Seq::<ProjectRecord>::empty(),
            final(self).default_open_command == old(self).default_open_command,
    {
        let mut projects: Vec<ProjectRecord> = Vec::new();
        assert(record_views(projects@).map_values(|r: RecordView| r.name).len() == 0);
        core::mem::swap(&mut self.projects, &mut projects);
        projects
    }

    /// Makes `projects`, whose names are unique, the projects of a document
    /// that holds none.
    fn put_projects(&mut self, projects: Vec<ProjectRecord>)
        requires
            record_views(projects@).map_values(|r: RecordView| r.name).no_duplicates(),
        ensures
            final(self).projects@ == projects@,
            final(self).default_open_command == old(self).default_open_command,
    {
        let mut projects = projects;
        core::mem::swap(&mut self.projects, &mut projects);
    }

    /// The position of the project called `name`, if there is one.
    fn position_of(&self, name: &str) -> (at: Option<usize>)
        ensures
            match at {
                Some(i) => {
                    &&& self@.has(name@)
                    &&& i == self@.position(name@)
                    &&& i < self.projects.len()
                },
                None => !self@.has(name@),
            },
    {
        proof {
            use_type_invariant(self);
        }
        let mut i: usize = 0;
        while i < self.projects.len()
            invariant
                i <= self.projects.len(),
                self@.names_unique(),
                forall|j: int| 0 <= j < i ==> self.projects@[j].name@ != name@,
            decreases self.projects.len() - i,
        {
            if same_text(self.projects[i].name.as_str(), name) {
                proof {
                    lemma_position_unique(self@, name@, i as int);
                }
                return Some(i);
            }
            i += 1;
        }
        None
    }

    /// The project called `name`, if there is one. Names are compared
    /// exactly.
    pub fn find_by_name(&self, name: &str) -> (found: Option<&ProjectRecord>)
        ensures
            match found {
                Some(r) => self@.find(name@) == Some(r@),
                None => self@.find(name@) is None,
            },
    {
        match self.position_of(name) {
            Some(i) => Some(&self.projects[i]),
            None => None,
        }
    }

    /// Whether a project called `name` is stored.
    pub fn project_exists(&self, name: &str) -> (stored: bool)
        ensures
            stored == self@.has(name@),
    {
        self.position_of(name).is_some()
    }

    /// Appends `record`, unless its name is already taken: then the
    /// document stays as it was.
    pub fn insert(&mut self, record: ProjectRecord) -> (res: Result<(), StoreError>)
        ensures
            match res {
                Ok(_) => {
                    &&& !old(self)@.has(record@.name)
                    &&& final(self)@ == old(self)@.inserted(record@)
                },
                Err(e) => {
                    &&& e == StoreError::DuplicateName
                    &&& old(self)@.has(record@.name)
                    &&& final(self)@ == old(self)@
                },
            },
    {
        proof {
            use_type_invariant(&*self);
        }
        if self.position_of(record.name.as_str()).is_some() {
            return Err(StoreError::DuplicateName);
        }
        proof {
            law_insert_keeps_names_unique(self@, record@);
            assert(record_views(self.projects@.push(record)) =~= record_views(self.projects@).push(
                record@,
            ));
        }
        let mut projects = self.take_projects();
        projects.push(record);
        self.put_projects(projects);
        Ok(())
    }

    /// Takes the project called `name` out of the document and hands it
    /// back; the others keep their order.
    pub fn remove(&mut self, name: &str) -> (res: Result<ProjectRecord, StoreError>)
        ensures
            match res {
                Ok(r) => {
                    &&& old(self)@.find(name@) == Some(r@)
                    &&& final(self)@ == old(self)@.removed(name@)
                },
                Err(e) => {
                    &&& e == StoreError::NotFound
                    &&& !old(self)@.has(name@)
                    &&& final(self)@ == old(self)@
                },
            },
    {
        proof {
            use_type_invariant(&*self);
        }
        match self.position_of(name) {
            Some(i) => {
                proof {
                    law_remove_takes_one(self@, name@);
                    assert(record_views(self.projects@.remove(i as int)) =~= record_views(
                        self.projects@,
                    ).remove(i as int));
                }
                let mut projects = self.take_projects();
                let record = projects.remove(i);
                self.put_projects(projects);
                Ok(record)
            },
            None => Err(StoreError::NotFound),
        }
    }

    /// Makes `editor` the editor of the project called `name`.
    pub fn update_editor(&mut self, name: &str, editor: String) -> (res: Result<(), StoreError>)
        ensures
            match res {
                Ok(_) => {
                    &&& old(self)@.has(name@)
                    &&& final(self)@ == old(self)@.with_editor(name@, editor@)
                },
                Err(e) => {
                    &&& e == StoreError::NotFound
                    &&& !old(self)@.has(name@)
                    &&& final(self)@ == old(self)@
                },
            },
    {
        proof {
            use_type_invariant(&*self);
        }
        match self.position_of(name) {
            Some(i) => {
                proof {
                    law_update_editor_changes_only_editor(self@, name@, editor@);
                    lemma_position(self@, name@);
                }
                let mut projects = self.take_projects();
                let ghost before = projects@;
                projects[i].editor = editor;
                proof {
                    assert(record_views(projects@) =~= record_views(before).update(
                        i as int,
                        before[i as int]@.with_editor(editor@),
                    ));
                }
                self.put_projects(projects);
                Ok(())
            },
            None => Err(StoreError::NotFound),
        }
    }
}

impl Clone for SettingsDocument {
    fn clone(&self) -> (copy: SettingsDocument)
        ensures
            copy@ == self@,
    {
        proof {
            use_type_invariant(self);
        }
        let mut projects: Vec<ProjectRecord> = Vec::new();
        let mut i: usize = 0;
        while i < self.projects.len()
            invariant
                i <= self.projects.len(),
                projects@ == self.projects@.subrange(0, i as int),
            decreases self.projects.len() - i,
        {
            projects.push(self.projects[i].clone());
            assert(projects@ =~= self.projects@.subrange(0, i + 1));
            i += 1;
        }
        assert(projects@ =~= self.projects@);
        SettingsDocument { default_open_command: self.default_open_command.clone(), projects }
    }
}

impl PartialEq for SettingsDocument {
    fn eq(&self, other: &SettingsDocument) -> (same: bool) {
        if !(self.default_open_command == other.default_open_command) {
            return false;
        }
        if self.projects.len() != other.projects.len() {
            assert(self@.projects.len() != other@.projects.len());
            return false;
        }
        let mut i: usize = 0;
        while i < self.projects.len()
            invariant
                i <= self.projects.len(),
                self.projects.len() == other.projects.len(),
                self.default_open_command@ == other.default_open_command@,
                forall|j: int| 0 <= j < i ==> self.projects@[j]@ == other.projects@[j]@,
            decreases self.projects.len() - i,
        {
            if !(self.projects[i] == other.projects[i]) {
                assert(self@.projects[i as int] != other@.projects[i as int]);
                return false;
            }
            i += 1;
        }
        assert(self@.projects =~= other@.projects);
        true
    }
}

impl vstd::std_specs::cmp::PartialEqSpecImpl for SettingsDocument {
    open spec fn obeys_eq_spec() -> bool {
        true
    }

    open spec fn eq_spec(&self, other: &SettingsDocument) -> bool {
        self@ == other@
    }
}

} // verus!
