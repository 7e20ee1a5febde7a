use vstd::prelude::*;

verus! {

/// The reserved editor: a project that has it has no editor of its own and
/// is opened with the document's default open command.
pub const RESERVED_EDITOR: &'static str = "default";

/// What a project record is: three pieces of text.
pub struct RecordView {
    pub name: Seq<char>,
    pub path: Seq<char>,
    pub editor: Seq<char>,
}

/// What a settings document is: the default open command and the projects
/// in the order in which they were added.
pub struct DocumentView {
    pub default_open_command: Seq<char>,
    pub projects: Seq<RecordView>,
}

impl RecordView {
    /// The command that opens this project under `default_open_command`.
    pub open spec fn effective_command(self, default_open_command: Seq<char>) -> Seq<char> {
        if self.editor == RESERVED_EDITOR@ {
            default_open_command
        } else {
            self.editor
        }
    }

    /// This record with another editor.
    pub open spec fn with_editor(self, editor: Seq<char>) -> RecordView {
        RecordView { name: self.name, path: self.path, editor }
    }
}

impl DocumentView {
    /// The project names, in document order.
    pub open spec fn names(self) -> Seq<Seq<char>> {
        self.projects.map_values(|r: RecordView| r.name)
    }

    /// No two projects share a name.
    pub open spec fn names_unique(self) -> bool {
        self.names().no_duplicates()
    }

    /// Some project is called `name`.
    pub open spec fn has(self, name: Seq<char>) -> bool {
        self.names().contains(name)
    }

    /// The position of a project called `name`; meaningful when `has(name)`.
    pub open spec fn position(self, name: Seq<char>) -> int {
        self.names().index_of(name)
    }

    /// The project called `name`, if there is one.
    pub open spec fn find(self, name: Seq<char>) -> Option<RecordView> {
        if self.has(name) {
            Some(self.projects[self.position(name)])
        } else {
            None
        }
    }

    /// The document with `record` appended.
    pub open spec fn inserted(self, record: RecordView) -> DocumentView {
        DocumentView {
            default_open_command: self.default_open_command,
            projects: self.projects.push(record),
        }
    }

    /// The document without the project called `name`.
    pub open spec fn removed(self, name: Seq<char>) -> DocumentView {
        DocumentView {
            default_open_command: self.default_open_command,
            projects: self.projects.remove(self.position(name)),
        }
    }

    /// The document in which the project called `name` has `editor` as its
    /// editor.
    pub open spec fn with_editor(self, name: Seq<char>, editor: Seq<char>) -> DocumentView {
        let at = self.position(name);
        DocumentView {
            default_open_command: self.default_open_command,
            projects: self.projects.update(at, self.projects[at].with_editor(editor)),
        }
    }
}

/// Where `name` is stored, `position(name)` is a valid position and the
/// record there carries that name.
pub proof fn lemma_position(doc: DocumentView, name: Seq<char>)
    requires
        doc.has(name),
    ensures
        0 <= doc.position(name) < doc.projects.len(),
        doc.projects[doc.position(name)].name == name,
{
    let i: int = choose|i: int| 0 <= i < doc.names().len() && doc.names()[i] == name;
    assert(doc.names()[i] == name);
}

/// In a document with unique names a name is stored at one position only.
pub proof fn lemma_position_unique(doc: DocumentView, name: Seq<char>, at: int)
    requires
        doc.names_unique(),
        0 <= at < doc.projects.len(),
        doc.projects[at].name == name,
    ensures
        doc.has(name),
        doc.position(name) == at,
{
    assert(doc.names()[at] == name);
    lemma_position(doc, name);
    let p: int = doc.position(name);
    if p != at {
        assert(doc.names()[p] == doc.names()[at]);
    }
}

/// Appending a record whose name is not yet stored keeps the names unique.
pub proof fn law_insert_keeps_names_unique(doc: DocumentView, record: RecordView)
    requires
        doc.names_unique(),
        !doc.has(record.name),
    ensures
        doc.inserted(record).names_unique(),
{
    let after = doc.inserted(record);
    let names = after.names();
    assert forall|i: int, j: int|
        0 <= i < names.len() && 0 <= j < names.len() && i != j implies names[i] != names[j] by {
        if i < doc.projects.len() && j < doc.projects.len() {
            assert(doc.names()[i] != doc.names()[j]);
        } else if i < doc.projects.len() {
            assert(doc.names()[i] == names[i]);
        } else {
            assert(doc.names()[j] == names[j]);
        }
    }
}

/// Adding a record under a new name and then removing that name gives the
/// document back.
pub proof fn law_remove_undoes_insert(doc: DocumentView, record: RecordView)
    requires
        !doc.has(record.name),
    ensures
        doc.inserted(record).has(record.name),
        doc.inserted(record).removed(record.name) == doc,
{
    let after = doc.inserted(record);
    let last: int = doc.projects.len() as int;
    assert(after.names()[last] == record.name);
    lemma_position(after, record.name);
    let p: int = after.position(record.name);
    if p < last {
        assert(doc.names()[p] == record.name);
    }
    assert(after.projects.remove(last) =~= doc.projects);
}

/// Removing a stored name keeps the names unique, takes exactly one record
/// away, and leaves no record of that name behind.
pub proof fn law_remove_takes_one(doc: DocumentView, name: Seq<char>)
    requires
        doc.names_unique(),
        doc.has(name),
    ensures
        doc.removed(name).names_unique(),
        doc.removed(name).projects.len() == doc.projects.len() - 1,
        !doc.removed(name).has(name),
        doc.removed(name).default_open_command == doc.default_open_command,
{
    lemma_position(doc, name);
    let p: int = doc.position(name);
    let after = doc.removed(name);
    doc.projects.remove_ensures(p);
    let names = after.names();
    let source = |i: int| if i < p { i } else { i + 1 };
    assert forall|i: int| 0 <= i < names.len() implies #[trigger] names[i] == doc.names()[source(
        i,
    )] by {}
    assert forall|i: int, j: int|
        0 <= i < names.len() && 0 <= j < names.len() && i != j implies names[i] != names[j] by {
        assert(doc.names()[source(i)] != doc.names()[source(j)]);
    }
    if after.has(name) {
        let i: int = choose|i: int| 0 <= i < names.len() && names[i] == name;
        assert(doc.names()[source(i)] == doc.names()[p]);
    }
}

/// Setting the editor of a stored project changes the editor of that one
/// record and nothing else: every name and path, every other editor, the
/// order and the default open command stay as they were.
pub proof fn law_update_editor_changes_only_editor(
    doc: DocumentView,
    name: Seq<char>,
    editor: Seq<char>,
)
    requires
        doc.has(name),
    ensures
        doc.with_editor(name, editor).default_open_command == doc.default_open_command,
        doc.with_editor(name, editor).projects.len() == doc.projects.len(),
        doc.with_editor(name, editor).names() == doc.names(),
        forall|i: int|
            0 <= i < doc.projects.len() ==> {
                let before = doc.projects[i];
                let after = #[trigger] doc.with_editor(name, editor).projects[i];
                &&& after.name == before.name
                &&& after.path == before.path
                &&& after.editor == if i == doc.position(name) {
                    editor
                } else {
                    before.editor
                }
            },
        doc.names_unique() ==> doc.with_editor(name, editor).names_unique(),
{
    lemma_position(doc, name);
    assert(doc.with_editor(name, editor).names() =~= doc.names());
}

} // verus!
