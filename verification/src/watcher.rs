//! Deciding, for each event in the watched directory, whether a file is to
//! be uploaded, and under which key.

use vstd::prelude::*;
use vstd::string::*;
use crate::path::{
    base_name,
    base_name_spec,
    eq_ignore_ascii_case,
    extension,
    extension_spec,
    same_ignoring_case,
};

verus! {

/// What happened to an entry of the watched directory.
#[derive(Clone, Copy, Debug, PartialEq, Eq, Structural)]
pub enum EventKind {
    /// An entry was created.
    Create,
    /// An entry was removed.
    Remove,
    /// Anything else.
    Other,
}

/// One event of the watched directory: what happened, and to which paths.
#[derive(Clone, Debug)]
pub struct WatchEvent {
    pub kind: EventKind,
    pub paths: Vec<String>,
}

/// The extensions of the files that are uploaded.
#[derive(Clone, Copy, Debug, PartialEq, Eq, Structural)]
pub enum ExtensionKey {
    Zip,
}

/// A file to be uploaded: where it lies, and the bucket and key to put it under.
#[derive(Clone, Debug)]
pub struct UploadPlan {
    pub path: String,
    pub bucket: String,
    pub key: String,
}

/// One call of the object store: the bucket, the key and the bytes to put.
#[derive(Clone, Debug)]
pub struct UploadRequest {
    pub bucket: String,
    pub key: String,
    pub bytes: Vec<u8>,
}

/// What an event asks for.
#[derive(Clone, Debug)]
pub enum Dispatch {
    /// Nothing: the event creates no archive.
    Ignore,
    /// Nothing, with a warning: a creation that names no path.
    EmptyPaths,
    /// The upload of the file that was created.
    Upload(UploadPlan),
}

impl ExtensionKey {
    /// The extension as it is written.
    pub open spec fn name_spec(&self) -> Seq<char> {
        match self {
            ExtensionKey::Zip => "Zip"@,
        }
    }

    /// The extension as it is written.
    pub fn name(&self) -> (name: &'static str)
        ensures
            name@ == self.name_spec(),
    {
        match self {
            ExtensionKey::Zip => "Zip",
        }
    }
}

/// Whether `path` names an archive: its extension is that of `key`, in
/// whatever case.
pub open spec fn is_archive(path: Seq<char>, key: ExtensionKey) -> bool {
    match extension_spec(path) {
        Some(ext) => same_ignoring_case(ext, key.name_spec()),
        None => false,
    }
}

/// Whether an event leads to an upload: only the creation of an archive does.
pub open spec fn uploads(kind: EventKind, paths: Seq<Seq<char>>) -> bool {
    kind == EventKind::Create && paths.len() > 0 && is_archive(paths[0], ExtensionKey::Zip)
}

/// The paths of an event as text.
pub open spec fn paths_of(evt: WatchEvent) -> Seq<Seq<char>> {
    evt.paths@.map_values(|p: String| p@)
}

/// An event that is no creation leads to no upload, whatever its paths.
pub proof fn lemma_only_creations_upload(kind: EventKind, paths: Seq<Seq<char>>)
    requires
        kind != EventKind::Create,
    ensures
        !uploads(kind, paths),
{
}

/// Whether `path` names an archive of the kind `key`.
pub fn has_extension(path: &str, key: ExtensionKey) -> (r: bool)
    ensures
        r == is_archive(path@, key),
{
    match extension(path) {
        Some(ext) => eq_ignore_ascii_case(ext.as_str(), key.name()),
        None => false,
    }
}

/// What the event `evt` asks for: the upload of the first path of a creation
/// where that names an archive, to `bucket` and under the path's base name.
pub fn handle(evt: &WatchEvent, bucket: &str) -> (d: Dispatch)
    ensures
        match d {
            Dispatch::Upload(plan) => {
                &&& uploads(evt.kind, paths_of(*evt))
                &&& plan.path@ == evt.paths@[0]@
                &&& plan.bucket@ == bucket@
                &&& Some(plan.key@) == base_name_spec(evt.paths@[0]@)
            },
            Dispatch::EmptyPaths => evt.kind == EventKind::Create && evt.paths@.len() == 0,
            Dispatch::Ignore => !uploads(evt.kind, paths_of(*evt)) && !(evt.kind
                == EventKind::Create && evt.paths@.len() == 0),
        },
{
    if evt.kind != EventKind::Create {
        return Dispatch::Ignore;
    }
    if evt.paths.len() == 0 {
        return Dispatch::EmptyPaths;
    }
    let path = evt.paths[0].as_str();
    assert(paths_of(*evt)[0] == path@);
    if !has_extension(path, ExtensionKey::Zip) {
        return Dispatch::Ignore;
    }
    match base_name(path) {
        Some(key) => Dispatch::Upload(
            UploadPlan { path: path.to_owned(), bucket: bucket.to_owned(), key },
        ),
        None => Dispatch::Ignore,
    }
}

impl UploadPlan {
    /// The call of the object store for this plan, with the file's content.
    pub fn request(self, bytes: Vec<u8>) -> (request: UploadRequest)
        ensures
            request.bucket == self.bucket,
            request.key == self.key,
            request.bytes == bytes,
    {
        UploadRequest { bucket: self.bucket, key: self.key, bytes }
    }
}

} // verus!
