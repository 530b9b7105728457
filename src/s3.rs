use vstd::prelude::*;

use crate::blob::{base64_unpadded, encodable, encode_unpadded};
use crate::errors::ServerError;

verus! {

/// Whether a listing entry is a stored object or a synthetic directory.
#[derive(Clone, Copy, Debug, PartialEq, Eq, Structural)]
pub enum ObjectType {
    File,
    Dir,
}

/// One line of a directory listing. `name` is the raw key or common prefix
/// as the backend returned it, not trimmed relative to the queried prefix.
#[derive(Clone, Debug)]
pub struct ObjectEntry {
    pub name: String,
    pub kind: ObjectType,
}

impl View for ObjectEntry {
    type V = (Seq<char>, ObjectType);

    open spec fn view(&self) -> (Seq<char>, ObjectType) {
        (self.name@, self.kind)
    }
}

/// One level of a delimiter (`/`) listing, as the storage backend returned
/// it: the common prefixes (directories) and the keys of the direct children
/// (files). The backend may leave either group out.
#[derive(Clone, Debug)]
pub struct Listing {
    pub common_prefixes: Option<Vec<String>>,
    pub contents: Option<Vec<String>>,
}

/// The strings of a group the backend may have left out, an absent group
/// being empty.
pub open spec fn names_of(group: Option<Vec<String>>) -> Seq<Seq<char>> {
    match group {
        Some(v) => v@.map_values(|s: String| s@),
        None => Seq::empty(),
    }
}

pub open spec fn tagged(names: Seq<Seq<char>>, kind: ObjectType) -> Seq<(Seq<char>, ObjectType)> {
    names.map_values(|n: Seq<char>| (n, kind))
}

/// The directory view of a listing: every common prefix as a directory, then
/// every key as a file, each group in backend order.
pub open spec fn project(listing: Listing) -> Seq<(Seq<char>, ObjectType)> {
    tagged(names_of(listing.common_prefixes), ObjectType::Dir) + tagged(
        names_of(listing.contents),
        ObjectType::File,
    )
}

pub open spec fn entries_view(entries: Seq<ObjectEntry>) -> Seq<(Seq<char>, ObjectType)> {
    entries.map_values(|e: ObjectEntry| e@)
}

/// In the directory view of a listing the directories come first, in the
/// order the backend gave them, then the files in the order the backend gave
/// them, and there is nothing else.
pub proof fn lemma_directories_before_files(listing: Listing)
    ensures
        ({
            let dirs = names_of(listing.common_prefixes);
            let files = names_of(listing.contents);
            let view = project(listing);
            &&& view.len() == dirs.len() + files.len()
            &&& forall|i: int| 0 <= i < dirs.len() ==> view[i] == (dirs[i], ObjectType::Dir)
            &&& forall|j: int|
                0 <= j < files.len() ==> view[dirs.len() + j] == (files[j], ObjectType::File)
        }),
{
}

/// The prefix to list: the requested path, or the bucket root when none was
/// given. No validation is made.
pub fn list_prefix(path: Option<String>) -> (r: String)
    ensures
        r@ == match path {
            Some(p) => p@,
            None => Seq::<char>::empty(),
        },
{
    match path {
        Some(p) => p,
        None => String::new(),
    }
}

fn append_entries(entries: &mut Vec<ObjectEntry>, group: Option<Vec<String>>, kind: ObjectType)
    ensures
        entries_view(final(entries)@) == entries_view(old(entries)@) + tagged(names_of(group), kind),
{
    let ghost start = entries@;
    if let Some(names) = group {
        let n = names.len();
        for i in 0..n
            invariant
                n == names@.len(),
                entries@.len() == start.len() + i,
                entries_view(entries@) == entries_view(start) + tagged(
                    names@.subrange(0, i as int).map_values(|s: String| s@),
                    kind,
                ),
        {
            let ghost before = entries@;
            let ghost done = names@.subrange(0, i as int).map_values(|s: String| s@);
            let name = names[i].clone();
            entries.push(ObjectEntry { name, kind });
            assert(names@.subrange(0, i + 1).map_values(|s: String| s@) =~= done.push(name@));
            assert(tagged(done.push(name@), kind) =~= tagged(done, kind).push((name@, kind)));
            assert(entries_view(entries@) =~= entries_view(before).push((name@, kind)));
        }
        assert(names@.subrange(0, n as int) == names@);
    } else {
        assert(entries_view(entries@) =~= entries_view(start) + tagged(names_of(group), kind));
    }
}

/// Projects one backend listing into directory entries: directories first,
/// then files, each in the order the backend gave, nothing added, dropped or
/// merged. A backend failure becomes a `ListObjects` error with its message.
pub fn list_objects(listing: Result<Listing, String>) -> (r: Result<Vec<ObjectEntry>, ServerError>)
    ensures
        match listing {
            Ok(l) => r matches Ok(v) && entries_view(v@) == project(l),
            Err(m) => r == Err::<Vec<ObjectEntry>, ServerError>(ServerError::ListObjects { message: m }),
        },
{
    match listing {
        Err(message) => Err(ServerError::ListObjects { message }),
        Ok(l) => {
            let mut entries: Vec<ObjectEntry> = Vec::new();
            append_entries(&mut entries, l.common_prefixes, ObjectType::Dir);
            append_entries(&mut entries, l.contents, ObjectType::File);
            assert(entries_view(Seq::<ObjectEntry>::empty()) =~= Seq::empty());
            assert(entries_view(entries@) =~= project(l));
            Ok(entries)
        }
    }
}

/// What the storage backend returned for one object: its body, which may
/// have failed to arrive in full (with the stream's error text), and its
/// declared content type, if any.
#[derive(Debug)]
pub struct FetchedObject {
    pub body: Result<Vec<u8>, String>,
    pub content_type: Option<String>,
}

/// One object prepared for transport.
#[derive(Clone, Debug)]
pub struct S3Object {
    /// The object's bytes in standard base64 without padding.
    pub blob: String,
    /// The part of the key after its last `/`.
    pub name: String,
    pub mime_type: String,
}

/// The part of a key after its last `/`: the whole key when it holds none,
/// and empty when it ends in `/`.
pub open spec fn display_name(key: Seq<char>) -> Seq<char>
    decreases key.len(),
{
    if key.len() == 0 {
        key
    } else if key.last() == '/' {
        Seq::empty()
    } else {
        display_name(key.drop_last()).push(key.last())
    }
}

/// The display name of the object stored under `key`.
pub fn object_name(key: &str) -> (r: String)
    ensures
        r@ == display_name(key@),
{
    let n = key.unicode_len();
    let mut start: usize = 0;
    let mut i: usize = 0;
    for c in it: key.chars()
        invariant
            n == key@.len(),
            it.seq() == key@,
            i == it.index(),
            start <= i <= n,
            key@.subrange(start as int, i as int) == display_name(key@.subrange(0, i as int)),
    {
        let ghost seen = key@.subrange(0, i as int);
        assert(key@.subrange(0, i + 1).drop_last() == seen);
        if c == '/' {
            start = i + 1;
        }
        i = i + 1;
        assert(key@.subrange(start as int, i as int) =~= display_name(key@.subrange(0, i as int)));
    }
    assert(key@.subrange(0, n as int) == key@);
    String::from_str(key.substring_char(start, n))
}

/// The key of the object to fetch. A request without one fails with
/// `GetObject("No file path")`.
pub fn object_key(path: Option<String>) -> (r: Result<String, ServerError>)
    ensures
        match path {
            Some(p) => r == Ok::<String, ServerError>(p),
            None => r matches Err(ServerError::GetObject { message }) && message@
                == "No file path"@,
        },
{
    match path {
        Some(p) => Ok(p),
        None => Err(ServerError::GetObject { message: String::from_str("No file path") }),
    }
}

/// Prepares the object fetched for `key`: its bytes in unpadded base64, its
/// display name and its content type. A failed fetch or body transfer
/// becomes a `GetObject` error with the backend's message; an object without
/// a content type fails with `GetObject("No content type")`.
pub fn get_object(key: &str, fetched: Result<FetchedObject, String>) -> (r: Result<
    S3Object,
    ServerError,
>)
    requires
        fetched matches Ok(f) ==> (f.body matches Ok(bytes) ==> encodable(bytes@.len())),
    ensures
        match fetched {
            Err(m) => r == Err::<S3Object, ServerError>(ServerError::GetObject { message: m }),
            Ok(f) => match f.body {
                Err(m) => r == Err::<S3Object, ServerError>(ServerError::GetObject { message: m }),
                Ok(bytes) => match f.content_type {
                    None => r matches Err(ServerError::GetObject { message }) && message@
                        == "No content type"@,
                    Some(t) => r matches Ok(o) && o.blob@ == base64_unpadded(bytes@) && o.name@
                        == display_name(key@) && o.mime_type == t,
                },
            },
        },
{
    let obj = match fetched {
        Ok(obj) => obj,
        Err(message) => {
            return Err(ServerError::GetObject { message });
        },
    };
    let bytes = match obj.body {
        Ok(bytes) => bytes,
        Err(message) => {
            return Err(ServerError::GetObject { message });
        },
    };
    let blob = encode_unpadded(bytes.as_slice());
    let mime_type = match obj.content_type {
        Some(t) => t,
        None => {
            return Err(ServerError::GetObject { message: String::from_str("No content type") });
        },
    };
    let name = object_name(key);
    Ok(S3Object { blob, name, mime_type })
}

} // verus!
