use vstd::prelude::*;
use vstd::string::StringExecFns;
use crate::codec::{decode_settings, document_of_text, encode_settings, text_of_document};
use crate::errors::ConfigError;
use crate::model::DocumentView;
use crate::store::SettingsDocument;

verus! {

/// Where the settings directory lies, from the home directory.
pub const SETTINGS_DIR: &'static str = "/.projectman";

/// Where the settings file lies, from the home directory.
pub const SETTINGS_FILE: &'static str = "/.projectman/settings.json";

/// The default open command of a first run.
pub const FIRST_OPEN_COMMAND: &'static str = "code";

/// The directory of the settings file, for a home directory.
pub open spec fn settings_dir_of(home: Seq<char>) -> Seq<char> {
    home + SETTINGS_DIR@
}

/// The path of the settings file, for a home directory.
pub open spec fn settings_file_of(home: Seq<char>) -> Seq<char> {
    home + SETTINGS_FILE@
}

/// The document of a first run: no project is stored.
pub open spec fn default_document_view() -> DocumentView {
    DocumentView { default_open_command: FIRST_OPEN_COMMAND@, projects: Seq::empty() }
}

/// The directory that holds the settings file.
pub fn settings_dir(home: &str) -> (path: String)
    ensures
        path@ == settings_dir_of(home@),
{
    home.to_owned().concat(SETTINGS_DIR)
}

/// The path of the settings file.
pub fn settings_file(home: &str) -> (path: String)
    ensures
        path@ == settings_file_of(home@),
{
    home.to_owned().concat(SETTINGS_FILE)
}

/// The document of a first run.
pub fn default_document() -> (doc: SettingsDocument)
    ensures
        doc@ == default_document_view(),
{
    SettingsDocument::new(FIRST_OPEN_COMMAND.to_owned())
}

/// The document that a run starts with.
#[derive(Debug)]
pub enum Loaded {
    /// The document that the settings file holds.
    Existing(SettingsDocument),
    /// There was no settings file: the document of a first run, and the
    /// text to write to the new file.
    Created { document: SettingsDocument, text: String },
}

/// Settles the document that a run starts with, from the text of the
/// settings file, or from `None` where there is no such file. A file that
/// is there and cannot be read as a document is an error: it is never
/// replaced by the document of a first run.
pub fn load_settings(existing: Option<&str>) -> (res: Result<Loaded, ConfigError>)
    ensures
        match existing {
            Some(text) => match document_of_text(text@) {
                Ok(doc) => res matches Ok(Loaded::Existing(document)) && document@ == doc,
                Err(e) => res is Err && res->Err_0 == e,
            },
            None => match text_of_document(default_document_view()) {
                Ok(written) => res matches Ok(Loaded::Created { document, text }) && document@
                    == default_document_view() && text@ == written,
                Err(e) => res is Err && res->Err_0 == e,
            },
        },
{
    match existing {
        Some(text) => match decode_settings(text) {
            Ok(document) => Ok(Loaded::Existing(document)),
            Err(e) => Err(e),
        },
        None => {
            let document = default_document();
            match encode_settings(&document) {
                Ok(text) => Ok(Loaded::Created { document, text }),
                Err(e) => Err(e),
            }
        },
    }
}

} // verus!
