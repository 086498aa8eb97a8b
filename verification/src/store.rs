//! The collection store: how a named collection is located, read, defaulted
//! when absent, and wholly replaced on save.
//!
//! The host hands every operation the raw material it read from disk and
//! carries out the writes the store asks for; the store itself is pure. A
//! specification-level model of the application data directory — a map from
//! file name to file text — states what the operations mean for the
//! directory as a whole.

use vstd::prelude::*;
use vstd::string::StringExecFns;
use crate::json::parse_documents;
use crate::json::parsed;
use crate::json::render_documents;
use crate::json::rendered;
use crate::json::json_error_message;

verus! {

/// Why a store operation failed. The message is human-readable detail for
/// the caller; the variant is the taxonomy the contracts speak of.
#[derive(Debug)]
pub enum StoreError {
    /// The host could not supply a usable application data directory.
    DirectoryResolution { message: String },
    /// An existing collection file could not be read.
    IoRead { message: String },
    /// Creating the directory or overwriting the collection file failed.
    IoWrite { message: String },
    /// The collection file exists but its content is not a valid sequence
    /// of documents.
    MalformedDocument { message: String },
}

/// The failure taxonomy without the message text, for specifications.
pub enum StoreErrorKind {
    DirectoryResolution,
    IoRead,
    IoWrite,
    MalformedDocument,
}

impl StoreError {
    /// Which kind of failure this is.
    pub open spec fn kind(&self) -> StoreErrorKind {
        match self {
            StoreError::DirectoryResolution { .. } => StoreErrorKind::DirectoryResolution,
            StoreError::IoRead { .. } => StoreErrorKind::IoRead,
            StoreError::IoWrite { .. } => StoreErrorKind::IoWrite,
            StoreError::MalformedDocument { .. } => StoreErrorKind::MalformedDocument,
        }
    }

    /// The text of `message()`: a fixed prefix naming the failure kind,
    /// followed by the detail the error was built with.
    pub open spec fn message_spec(&self) -> Seq<char> {
        match self {
            StoreError::DirectoryResolution { message } => (
                "could not resolve the application data directory: "@ + message@
            ),
            StoreError::IoRead { message } => (
                "could not read the collection file: "@ + message@
            ),
            StoreError::IoWrite { message } => (
                "could not write the collection file: "@ + message@
            ),
            StoreError::MalformedDocument { message } => (
                "the collection file does not hold a valid sequence of documents: "@ + message@
            ),
        }
    }

    /// The single human-readable string for the request/response boundary.
    pub fn message(&self) -> (r: String)
        ensures
            r@ == self.message_spec(),
    {
        match self {
            StoreError::DirectoryResolution { message } => {
                let mut r = "could not resolve the application data directory: ".to_owned();
                r.append(message.as_str());
                r
            },
            StoreError::IoRead { message } => {
                let mut r = "could not read the collection file: ".to_owned();
                r.append(message.as_str());
                r
            },
            StoreError::IoWrite { message } => {
                let mut r = "could not write the collection file: ".to_owned();
                r.append(message.as_str());
                r
            },
            StoreError::MalformedDocument { message } => {
                let mut r = "the collection file does not hold a valid sequence of documents: "
                    .to_owned();
                r.append(message.as_str());
                r
            },
        }
    }
}

/// The file that holds collection `name`: `<name>.json`.
pub open spec fn file_name_spec(name: Seq<char>) -> Seq<char> {
    name + ".json"@
}

/// Computes the file name for a collection, `<name>.json`.
pub fn collection_file_name(name: &str) -> (r: String)
    ensures
        r@ == file_name_spec(name@),
{
    let mut r = name.to_owned();
    r.append(".json");
    r
}

/// The view of what the host read for a collection: `None` where the file
/// does not exist, the file's text where it does.
pub open spec fn text_view(content: Option<String>) -> Option<Seq<char>> {
    match content {
        None => None,
        Some(text) => Some(text@),
    }
}

/// What loading a collection yields from the text that was read: an absent
/// file is the empty collection, a present file is exactly what it parses
/// to, and a file that does not parse is a malformed-document failure.
pub open spec fn load_model(content: Option<Seq<char>>) -> Result<
    Seq<serde_json::Value>,
    StoreErrorKind,
> {
    match content {
        None => Ok(Seq::empty()),
        Some(text) => match parsed(text) {
            Some(docs) => Ok(docs),
            None => Err(StoreErrorKind::MalformedDocument),
        },
    }
}

/// What the application data directory holds for collection `name`.
pub open spec fn content_model(dir: Map<Seq<char>, Seq<char>>, name: Seq<char>) -> Option<
    Seq<char>,
> {
    if dir.contains_key(file_name_spec(name)) {
        Some(dir[file_name_spec(name)])
    } else {
        None
    }
}

/// get over the directory model: load whatever the directory holds for the
/// collection. It yields a result and leaves the directory as it was.
pub open spec fn get_model(dir: Map<Seq<char>, Seq<char>>, name: Seq<char>) -> Result<
    Seq<serde_json::Value>,
    StoreErrorKind,
> {
    load_model(content_model(dir, name))
}

/// save over the directory model: whole-file replacement of the one
/// collection file, leaving every other file untouched.
pub open spec fn save_model(
    dir: Map<Seq<char>, Seq<char>>,
    name: Seq<char>,
    docs: Seq<serde_json::Value>,
) -> Map<Seq<char>, Seq<char>> {
    dir.insert(file_name_spec(name), rendered(docs))
}

/// Turns what the host read for a collection into the collection itself.
///
/// `content` is `None` where the collection file does not exist — the
/// collection is then empty, not an error — and the file's full text where
/// it does. Text that does not parse as a sequence of documents is reported
/// as a malformed document, never as a partial or default result.
pub fn load_collection(content: Option<String>) -> (r: Result<
    Vec<serde_json::Value>,
    StoreError,
>)
    ensures
        match r {
            Ok(docs) => load_model(text_view(content)) == Ok::<
                Seq<serde_json::Value>,
                StoreErrorKind,
            >(docs@),
            Err(e) => load_model(text_view(content)) == Err::<
                Seq<serde_json::Value>,
                StoreErrorKind,
            >(e.kind()) && e is MalformedDocument,
        },
{
    match content {
        None => Ok(Vec::new()),
        Some(text) => match parse_documents(text.as_str()) {
            Ok(docs) => Ok(docs),
            Err(e) => Err(
                StoreError::MalformedDocument { message: json_error_message(&e) },
            ),
        },
    }
}

/// Everything a save writes: the name of the collection file and the full
/// new text that replaces the file's content.
pub struct SavePlan {
    pub file_name: String,
    pub text: String,
}

/// Computes what save(name, docs) writes. The host then creates the
/// application data directory if it is missing and overwrites
/// `<dir>/file_name` with `text`.
///
/// The conditional clauses are the round trip: whenever the saved text
/// parses at all, a get of the collection right after this save — in any
/// directory, whatever it held before — yields exactly the documents that
/// were saved. The one way the text can fail to parse is documents nested
/// beyond the parser's recursion limit; a get then reports the file as
/// malformed (the last clause), never as a partial or different collection.
pub fn prepare_save(name: &str, docs: &Vec<serde_json::Value>) -> (r: SavePlan)
    ensures
        r.file_name@ == file_name_spec(name@),
        r.text@ == rendered(docs@),
        parsed(r.text@) is Some ==> parsed(r.text@) == Some(docs@),
        parsed(r.text@) is Some ==> load_model(Some(r.text@)) == Ok::<
            Seq<serde_json::Value>,
            StoreErrorKind,
        >(docs@),
        parsed(r.text@) is Some ==> forall|dir: Map<Seq<char>, Seq<char>>|
            get_model(#[trigger] save_model(dir, name@, docs@), name@) == Ok::<
                Seq<serde_json::Value>,
                StoreErrorKind,
            >(docs@),
        parsed(r.text@) is None ==> load_model(Some(r.text@)) == Err::<
            Seq<serde_json::Value>,
            StoreErrorKind,
        >(StoreErrorKind::MalformedDocument),
{
    let file_name = collection_file_name(name);
    let text = render_documents(docs);
    proof {
        if parsed(text@) is Some {
            assert forall|dir: Map<Seq<char>, Seq<char>>|
                get_model(#[trigger] save_model(dir, name@, docs@), name@) == Ok::<
                    Seq<serde_json::Value>,
                    StoreErrorKind,
                >(docs@) by {
                let saved = save_model(dir, name@, docs@);
                assert(saved.contains_key(file_name_spec(name@)));
                assert(saved[file_name_spec(name@)] == rendered(docs@));
            }
        }
    }
    SavePlan { file_name, text }
}

/// A collection never saved loads as the empty sequence: a get of a name
/// whose file is absent succeeds with an empty collection, and — `get_model`
/// yielding only a result — changes nothing in the directory.
pub proof fn lemma_absent_collection_is_empty(dir: Map<Seq<char>, Seq<char>>, name: Seq<char>)
    requires
        !dir.contains_key(file_name_spec(name)),
    ensures
        get_model(dir, name) == Ok::<Seq<serde_json::Value>, StoreErrorKind>(Seq::empty()),
{
}

/// A save is a full replacement: after saving `d2` over an earlier save of
/// `d1`, the directory is exactly as if only `d2` had ever been saved — no
/// trace of `d1` remains to merge with.
pub proof fn lemma_save_is_full_replacement(
    dir: Map<Seq<char>, Seq<char>>,
    name: Seq<char>,
    d1: Seq<serde_json::Value>,
    d2: Seq<serde_json::Value>,
)
    ensures
        save_model(save_model(dir, name, d1), name, d2) == save_model(dir, name, d2),
{
    assert(save_model(save_model(dir, name, d1), name, d2) =~= save_model(dir, name, d2));
}

/// Each collection maps to a file of its own: distinct names never share a
/// collection file.
pub proof fn lemma_file_names_are_distinct(name1: Seq<char>, name2: Seq<char>)
    requires
        name1 != name2,
    ensures
        file_name_spec(name1) != file_name_spec(name2),
{
    if file_name_spec(name1) == file_name_spec(name2) {
        assert(file_name_spec(name1).len() == name1.len() + ".json"@.len());
        assert(file_name_spec(name2).len() == name2.len() + ".json"@.len());
        assert(name1.len() == name2.len());
        assert(name1 =~= file_name_spec(name1).subrange(0, name1.len() as int));
        assert(name2 =~= file_name_spec(name2).subrange(0, name2.len() as int));
        assert(name1 =~= name2);
    }
}

/// A save touches only its own collection's file: right after a save of one
/// collection, a get of any other collection sees exactly what it saw
/// before.
pub proof fn lemma_save_leaves_other_collections(
    dir: Map<Seq<char>, Seq<char>>,
    name: Seq<char>,
    docs: Seq<serde_json::Value>,
    other: Seq<char>,
)
    requires
        other != name,
    ensures
        get_model(save_model(dir, name, docs), other) == get_model(dir, other),
{
    lemma_file_names_are_distinct(name, other);
}

/// The two collections this application persists. Each pair of boundary
/// operations is the store applied to one of these fixed names.
pub enum KnownCollection {
    Templates,
    Topics,
}

impl KnownCollection {
    /// The collection's logical name.
    pub open spec fn name_spec(&self) -> Seq<char> {
        match self {
            KnownCollection::Templates => "templates"@,
            KnownCollection::Topics => "topics"@,
        }
    }

    /// The collection's logical name, as the store's functions take it.
    pub fn name(&self) -> (r: &'static str)
        ensures
            r@ == self.name_spec(),
    {
        match self {
            KnownCollection::Templates => "templates",
            KnownCollection::Topics => "topics",
        }
    }
}

} // verus!
