use vstd::prelude::*;
use crate::errors::ConfigError;
use crate::json::{
    json_of, jsons_of, members_of, parse_value, parsed_json, render_value, rendered_json,
    value_array, value_as_array, value_as_str, value_get, value_object, value_text, Json,
};
use crate::model::{lemma_position, DocumentView, RecordView};
use crate::record::ProjectRecord;
use crate::store::SettingsDocument;

verus! {

/// The key of the default open command in a settings object.
pub const COMMAND_KEY: &'static str = "commandToOpen";

/// The key of the project array in a settings object.
pub const PROJECTS_KEY: &'static str = "projects";

/// The key of a project's name.
pub const NAME_KEY: &'static str = "name";

/// The key of a project's directory.
pub const PATH_KEY: &'static str = "path";

/// The key of a project's editor.
pub const EDITOR_KEY: &'static str = "editor";

/// The text under `key`, where `json` is an object that has a string there.
pub open spec fn text_member(json: Json, key: Seq<char>) -> Option<Seq<char>> {
    match json {
        Json::Object(members) if members.contains_key(key) => match members[key] {
            Json::Text(text) => Some(text),
            _ => None,
        },
        _ => None,
    }
}

/// The elements under `key`, where `json` is an object that has an array
/// there.
pub open spec fn array_member(json: Json, key: Seq<char>) -> Option<Seq<Json>> {
    match json {
        Json::Object(members) if members.contains_key(key) => match members[key] {
            Json::Array(items) => Some(items),
            _ => None,
        },
        _ => None,
    }
}

/// The record that a JSON value stands for: an object with a string under
/// each of `name`, `path` and `editor`. Other members are ignored.
pub open spec fn record_of_json(json: Json) -> Option<RecordView> {
    match (
        text_member(json, NAME_KEY@),
        text_member(json, PATH_KEY@),
        text_member(json, EDITOR_KEY@),
    ) {
        (Some(name), Some(path), Some(editor)) => Some(RecordView { name, path, editor }),
        _ => None,
    }
}

/// The records that a run of JSON values stands for, if each of them stands
/// for one.
pub open spec fn records_of_json(items: Seq<Json>) -> Option<Seq<RecordView>> {
    if forall|i: int| 0 <= i < items.len() ==> (#[trigger] record_of_json(items[i])) is Some {
        Some(items.map_values(|json: Json| record_of_json(json)->Some_0))
    } else {
        None
    }
}

/// The document that a JSON value stands for: an object with the default
/// open command as a string and the projects as an array of records with
/// unique names. Other members are ignored.
pub open spec fn document_of_json(json: Json) -> Result<DocumentView, ConfigError> {
    match (text_member(json, COMMAND_KEY@), array_member(json, PROJECTS_KEY@)) {
        (Some(default_open_command), Some(items)) => match records_of_json(items) {
            Some(projects) => {
                let doc = DocumentView { default_open_command, projects };
                if doc.names_unique() {
                    Ok(doc)
                } else {
                    Err(ConfigError::DuplicateName)
                }
            },
            None => Err(ConfigError::Structure),
        },
        _ => Err(ConfigError::Structure),
    }
}

/// The JSON object that stands for a record.
pub open spec fn json_of_record(record: RecordView) -> Json {
    Json::Object(
        Map::empty().insert(NAME_KEY@, Json::Text(record.name)).insert(
            PATH_KEY@,
            Json::Text(record.path),
        ).insert(EDITOR_KEY@, Json::Text(record.editor)),
    )
}

/// The JSON object that stands for a document.
pub open spec fn json_of_document(doc: DocumentView) -> Json {
    Json::Object(
        Map::empty().insert(COMMAND_KEY@, Json::Text(doc.default_open_command)).insert(
            PROJECTS_KEY@,
            Json::Array(doc.projects.map_values(|r: RecordView| json_of_record(r))),
        ),
    )
}

/// The document that a settings text stands for.
pub open spec fn document_of_text(text: Seq<char>) -> Result<DocumentView, ConfigError> {
    match parsed_json(text) {
        Some(json) => document_of_json(json),
        None => Err(ConfigError::Syntax),
    }
}

/// The settings text of a document.
pub open spec fn text_of_document(doc: DocumentView) -> Result<Seq<char>, ConfigError> {
    match rendered_json(json_of_document(doc)) {
        Some(text) => Ok(text),
        None => Err(ConfigError::Unserializable),
    }
}

/// The keys of one object are different texts.
pub proof fn lemma_keys_differ()
    ensures
        COMMAND_KEY@ != PROJECTS_KEY@,
        NAME_KEY@ != PATH_KEY@,
        NAME_KEY@ != EDITOR_KEY@,
        PATH_KEY@ != EDITOR_KEY@,
{
    reveal_strlit("commandToOpen");
    reveal_strlit("projects");
    reveal_strlit("name");
    reveal_strlit("path");
    reveal_strlit("editor");
    assert(COMMAND_KEY@.len() == 13 && PROJECTS_KEY@.len() == 8);
    assert(NAME_KEY@.len() == 4 && EDITOR_KEY@.len() == 6 && PATH_KEY@.len() == 4);
    assert(NAME_KEY@[0] == 'n' && PATH_KEY@[0] == 'p');
}

/// Reading the JSON object of a record gives the record back.
pub proof fn law_record_round_trip(record: RecordView)
    ensures
        record_of_json(json_of_record(record)) == Some(record),
{
    lemma_keys_differ();
}

/// Reading the JSON object of a document with unique names gives the
/// document back, whatever the order in which the members are written.
pub proof fn law_document_round_trip(doc: DocumentView)
    requires
        doc.names_unique(),
    ensures
        document_of_json(json_of_document(doc)) == Ok::<DocumentView, ConfigError>(doc),
{
    lemma_keys_differ();
    let items = doc.projects.map_values(|r: RecordView| json_of_record(r));
    assert forall|i: int| 0 <= i < items.len() implies (#[trigger] record_of_json(items[i]))
        == Some(doc.projects[i]) by {
        law_record_round_trip(doc.projects[i]);
    }
    assert(items.map_values(|json: Json| record_of_json(json)->Some_0) =~= doc.projects);
}

/// The text under `key` in an object.
fn text_at(value: &serde_json::Value, key: &str) -> (res: Option<String>)
    ensures
        match text_member(json_of(*value), key@) {
            Some(text) => res is Some && res->Some_0@ == text,
            None => res is None,
        },
{
    match value_get(value, key) {
        Some(member) => match value_as_str(member) {
            Some(text) => Some(text.to_owned()),
            None => None,
        },
        None => None,
    }
}

/// The elements under `key` in an object.
fn array_at<'a>(value: &'a serde_json::Value, key: &str) -> (res: Option<
    &'a Vec<serde_json::Value>,
>)
    ensures
        match array_member(json_of(*value), key@) {
            Some(items) => res is Some && jsons_of(res->Some_0@) == items,
            None => res is None,
        },
{
    match value_get(value, key) {
        Some(member) => value_as_array(member),
        None => None,
    }
}

/// A document with unique names that is written as text and read again is
/// the same document, wherever the JSON reader gives back the value that the
/// JSON writer was given.
pub proof fn law_text_round_trip(doc: DocumentView, text: Seq<char>)
    requires
        doc.names_unique(),
    ensures
        rendered_json(json_of_document(doc)) == Some(text) && parsed_json(text) == Some(
            json_of_document(doc),
        ) ==> text_of_document(doc) == Ok::<Seq<char>, ConfigError>(text) && document_of_text(text)
            == Ok::<DocumentView, ConfigError>(doc),
{
    law_document_round_trip(doc);
}

/// Reads a record from a JSON value.
pub fn record_from_value(value: &serde_json::Value) -> (res: Option<ProjectRecord>)
    ensures
        match record_of_json(json_of(*value)) {
            Some(record) => res is Some && res->Some_0@ == record,
            None => res is None,
        },
{
    let name = match text_at(value, NAME_KEY) {
        Some(name) => name,
        None => { return None; },
    };
    let path = match text_at(value, PATH_KEY) {
        Some(path) => path,
        None => { return None; },
    };
    let editor = match text_at(value, EDITOR_KEY) {
        Some(editor) => editor,
        None => { return None; },
    };
    Some(ProjectRecord::new(name, path, editor))
}

/// Reads a settings document from a JSON value. A value of another shape
/// is refused; so is, among the values of the right shape, one in which two
/// projects share a name.
pub fn document_from_value(value: &serde_json::Value) -> (res: Result<
    SettingsDocument,
    ConfigError,
>)
    ensures
        match document_of_json(json_of(*value)) {
            Ok(doc) => res is Ok && res->Ok_0@ == doc,
            Err(e) => res is Err && res->Err_0 == e,
        },
{
    let default_open_command = match text_at(value, COMMAND_KEY) {
        Some(command) => command,
        None => { return Err(ConfigError::Structure); },
    };
    let items = match array_at(value, PROJECTS_KEY) {
        Some(items) => items,
        None => { return Err(ConfigError::Structure); },
    };
    let ghost jsons = jsons_of(items@);
    let ghost command = default_open_command@;
    let ghost mut read: Seq<RecordView> = Seq::empty();
    let ghost mut first: int = 0;
    let ghost mut second: int = 0;
    let mut doc = SettingsDocument::new(default_open_command);
    let mut repeated = false;
    let mut i: usize = 0;
    while i < items.len()
        invariant
            i <= items.len(),
            jsons == jsons_of(items@),
            text_member(json_of(*value), COMMAND_KEY@) == Some(command),
            array_member(json_of(*value), PROJECTS_KEY@) == Some(jsons),
            read.len() == i,
            forall|j: int| 0 <= j < i ==> (#[trigger] record_of_json(jsons[j])) == Some(read[j]),
            doc@.default_open_command == command,
            !repeated ==> doc@.projects == read,
            repeated ==> 0 <= first < second < i && read[first].name == read[second].name,
        decreases items.len() - i,
    {
        let record = match record_from_value(&items[i]) {
            Some(record) => record,
            None => {
                assert(record_of_json(jsons[i as int]) is None);
                return Err(ConfigError::Structure);
            },
        };
        let ghost before = doc@;
        proof {
            read = read.push(record@);
        }
        if !repeated {
            if doc.insert(record).is_err() {
                repeated = true;
                proof {
                    lemma_position(before, read[i as int].name);
                    first = before.position(read[i as int].name);
                    second = i as int;
                }
            }
        }
        i += 1;
    }
    let ghost whole = DocumentView { default_open_command: command, projects: read };
    proof {
        assert(jsons.map_values(|json: Json| record_of_json(json)->Some_0) =~= read);
        assert(records_of_json(jsons) == Some(read));
        if repeated {
            assert(whole.names()[first] == whole.names()[second]);
        } else {
            use_type_invariant(&doc);
        }
    }
    if repeated {
        Err(ConfigError::DuplicateName)
    } else {
        Ok(doc)
    }
}

/// Writes a record as a JSON value.
pub fn record_to_value(record: &ProjectRecord) -> (value: serde_json::Value)
    ensures
        json_of(value) == json_of_record(record@),
{
    let mut entries: Vec<(String, serde_json::Value)> = Vec::new();
    entries.push((NAME_KEY.to_owned(), value_text(record.name.clone())));
    entries.push((PATH_KEY.to_owned(), value_text(record.path.clone())));
    entries.push((EDITOR_KEY.to_owned(), value_text(record.editor.clone())));
    proof {
        lemma_keys_differ();
        reveal_with_fuel(members_of, 4);
        assert(entries@.drop_last().drop_last().drop_last().len() == 0);
        assert(members_of(entries@) =~= json_of_record(record@)->Object_0);
    }
    value_object(entries)
}

/// Writes a settings document as a JSON value.
pub fn document_to_value(doc: &SettingsDocument) -> (value: serde_json::Value)
    ensures
        json_of(value) == json_of_document(doc@),
{
    let records = doc.projects();
    let mut items: Vec<serde_json::Value> = Vec::new();
    let mut i: usize = 0;
    while i < records.len()
        invariant
            i <= records.len(),
            items.len() == i,
            forall|j: int|
                0 <= j < i ==> json_of(#[trigger] items@[j]) == json_of_record(records@[j]@),
        decreases records.len() - i,
    {
        items.push(record_to_value(&records[i]));
        i += 1;
    }
    assert(jsons_of(items@) =~= doc@.projects.map_values(|r: RecordView| json_of_record(r)));
    let mut entries: Vec<(String, serde_json::Value)> = Vec::new();
    entries.push(
        (COMMAND_KEY.to_owned(), value_text(doc.default_open_command().to_owned())),
    );
    entries.push((PROJECTS_KEY.to_owned(), value_array(items)));
    proof {
        lemma_keys_differ();
        reveal_with_fuel(members_of, 3);
        assert(entries@.drop_last().drop_last().len() == 0);
        assert(members_of(entries@) =~= json_of_document(doc@)->Object_0);
    }
    value_object(entries)
}

/// Reads a settings document from its text.
pub fn decode_settings(text: &str) -> (res: Result<SettingsDocument, ConfigError>)
    ensures
        match document_of_text(text@) {
            Ok(doc) => res is Ok && res->Ok_0@ == doc,
            Err(e) => res is Err && res->Err_0 == e,
        },
{
    match parse_value(text) {
        Ok(value) => document_from_value(&value),
        Err(_) => Err(ConfigError::Syntax),
    }
}

/// Writes a settings document as text.
pub fn encode_settings(doc: &SettingsDocument) -> (res: Result<String, ConfigError>)
    ensures
        match text_of_document(doc@) {
            Ok(text) => res is Ok && res->Ok_0@ == text,
            Err(e) => res is Err && res->Err_0 == e,
        },
{
    let value = document_to_value(doc);
    match render_value(&value) {
        Ok(text) => Ok(text),
        Err(_) => Err(ConfigError::Unserializable),
    }
}

} // verus!
