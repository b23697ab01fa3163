//! Local state store: the two small JSON-shaped documents the shell and
//! the sidecar share, kept under the per-user application-data directory.
//!
//! The store itself is the verified in-memory state; the caller mirrors
//! every successful save to disk (one file per [`StoreFile`], overwritten
//! wholesale) and hydrates the store from disk at startup. Reads of an
//! absent document return the empty JSON object rather than failing. The
//! credentials document is special: content that is not well-formed JSON
//! is rejected before anything is persisted, so the store never holds —
//! and the caller therefore never writes — syntactically invalid
//! credentials.

use vstd::prelude::*;
use vstd::string::*;
use crate::errors::AppError;
use crate::json::{is_valid_json, json_is_valid};

verus! {

/// The named documents the store owns: `credentials.json` and
/// `email_settings.json`.
#[derive(Clone, Copy, Debug, PartialEq, Eq, Structural)]
pub enum StoreFile {
    Credentials,
    EmailSettings,
}

impl StoreFile {
    /// The file name this document is persisted under.
    pub open spec fn spec_file_name(&self) -> Seq<char> {
        match self {
            StoreFile::Credentials => "credentials.json"@,
            StoreFile::EmailSettings => "email_settings.json"@,
        }
    }

    /// The file name this document is persisted under.
    pub fn file_name(&self) -> (r: String)
        ensures
            r@ == self.spec_file_name(),
    {
        match self {
            StoreFile::Credentials => String::from_str("credentials.json"),
            StoreFile::EmailSettings => String::from_str("email_settings.json"),
        }
    }
}

/// What a read of an absent document returns: the empty JSON object.
pub open spec fn spec_load(m: Map<StoreFile, Seq<char>>, file: StoreFile) -> Seq<char> {
    if m.dom().contains(file) {
        m[file]
    } else {
        "{}"@
    }
}

/// The in-memory contents of the application-data directory: at most one
/// document per name. Its view is the map from present documents to their
/// text.
pub struct Store {
    credentials: Option<String>,
    email_settings: Option<String>,
}

impl View for Store {
    type V = Map<StoreFile, Seq<char>>;

    closed spec fn view(&self) -> Map<StoreFile, Seq<char>> {
        let m = Map::<StoreFile, Seq<char>>::empty();
        let m = if self.credentials is Some {
            m.insert(StoreFile::Credentials, self.credentials->0@)
        } else {
            m
        };
        if self.email_settings is Some {
            m.insert(StoreFile::EmailSettings, self.email_settings->0@)
        } else {
            m
        }
    }
}

impl Store {
    /// A store with no documents yet.
    pub fn new() -> (r: Store)
        ensures
            r@ == Map::<StoreFile, Seq<char>>::empty(),
    {
        let s = Store { credentials: None, email_settings: None };
        proof {
            assert(s@ =~= Map::<StoreFile, Seq<char>>::empty());
        }
        s
    }

    /// Persist `content` under `file`, overwriting any prior document.
    /// Credentials must be well-formed JSON: invalid content is rejected
    /// with the format error before anything changes. Email settings are
    /// an opaque blob and always accepted.
    pub fn save(&mut self, file: StoreFile, content: String) -> (r: Result<(), AppError>)
        ensures
            r is Ok <==> (file is EmailSettings || is_valid_json(content@)),
            r is Ok ==> final(self)@ == old(self)@.insert(file, content@),
            r matches Err(e) ==> e is InvalidFormat && final(self)@ == old(self)@,
    {
        match file {
            StoreFile::Credentials => {
                if !json_is_valid(content.as_str()) {
                    return Err(AppError::InvalidFormat);
                }
                proof {
                    assert((Store { credentials: Some(content), ..*self })@ =~= self@.insert(
                        StoreFile::Credentials,
                        content@,
                    ));
                }
                self.credentials = Some(content);
                Ok(())
            },
            StoreFile::EmailSettings => {
                proof {
                    assert((Store { email_settings: Some(content), ..*self })@ =~= self@.insert(
                        StoreFile::EmailSettings,
                        content@,
                    ));
                }
                self.email_settings = Some(content);
                Ok(())
            },
        }
    }

    /// The document stored under `file`, if one is present.
    pub fn load(&self, file: StoreFile) -> (r: Option<&String>)
        ensures
            match r {
                Some(c) => self@.dom().contains(file) && self@[file] == c@,
                None => !self@.dom().contains(file),
            },
    {
        match file {
            StoreFile::Credentials => self.credentials.as_ref(),
            StoreFile::EmailSettings => self.email_settings.as_ref(),
        }
    }

    /// The document stored under `file`, or the empty JSON object when it
    /// is absent; reading never fails.
    pub fn load_or_empty(&self, file: StoreFile) -> (r: String)
        ensures
            r@ == spec_load(self@, file),
    {
        match self.load(file) {
            Some(c) => c.clone(),
            None => String::from_str("{}"),
        }
    }
}

/// Saving then loading round-trips: after a document is stored, a load of
/// the same name returns exactly the stored text.
pub proof fn lemma_save_load_round_trip(
    m: Map<StoreFile, Seq<char>>,
    file: StoreFile,
    content: Seq<char>,
)
    ensures
        spec_load(m.insert(file, content), file) == content,
{
}

/// Saving one document leaves every other document exactly as it was.
pub proof fn lemma_save_leaves_others(
    m: Map<StoreFile, Seq<char>>,
    file: StoreFile,
    content: Seq<char>,
    other: StoreFile,
)
    requires
        other != file,
    ensures
        spec_load(m.insert(file, content), other) == spec_load(m, other),
{
}

} // verus!
