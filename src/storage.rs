use vstd::prelude::*;
use crate::layout::{PathView, StoragePath};

verus! {

/// A storage operation that a workflow asks the host to perform.
pub enum StorageRequest {
    /// Report whether anything exists at the path.
    Exists(StoragePath),
    /// Read the whole file at the path as UTF-8 text.
    ReadText(StoragePath),
    /// Read the whole file at the path as bytes.
    ReadBytes(StoragePath),
    /// Create the directory at the path and every missing parent.
    CreateDirAll(StoragePath),
    /// Create the file at the path, or truncate it, and write the bytes.
    WriteFile(StoragePath, Vec<u8>),
}

/// The view of a [`StorageRequest`].
pub enum Request {
    Exists(PathView),
    ReadText(PathView),
    ReadBytes(PathView),
    CreateDirAll(PathView),
    WriteFile(PathView, Seq<u8>),
}

impl View for StorageRequest {
    type V = Request;

    open spec fn view(&self) -> Request {
        match self {
            StorageRequest::Exists(p) => Request::Exists(p@),
            StorageRequest::ReadText(p) => Request::ReadText(p@),
            StorageRequest::ReadBytes(p) => Request::ReadBytes(p@),
            StorageRequest::CreateDirAll(p) => Request::CreateDirAll(p@),
            StorageRequest::WriteFile(p, b) => Request::WriteFile(p@, b@),
        }
    }
}

/// What reading a file gave.
pub enum FileRead<T> {
    Contents(T),
    NotFound,
    Failed(String),
}

/// The host's answer to a [`StorageRequest`].
pub enum StorageReply {
    /// To `Exists`.
    Found(bool),
    /// To `ReadText`.
    Text(FileRead<String>),
    /// To `ReadBytes`.
    Bytes(FileRead<Vec<u8>>),
    /// To `CreateDirAll`; the error holds the system's message.
    Created(Result<(), String>),
    /// To `WriteFile`: the number of bytes written, or the system's message.
    Written(Result<usize, String>),
}

/// One step of a workflow: a request for the host, or the result.
pub enum Step<T> {
    Perform(StorageRequest),
    Finished(T),
}

/// The view of a [`Step`].
pub enum Outcome<V> {
    Next(Request),
    Done(V),
}

impl<T> Step<T> {
    /// This step asks for `q`.
    pub open spec fn requests(self, q: Request) -> bool {
        self matches Step::Perform(r) && r@ == q
    }

    /// This step is the one that `o` describes.
    pub open spec fn follows(self, o: Outcome<T>) -> bool {
        match o {
            Outcome::Next(q) => self.requests(q),
            Outcome::Done(v) => self == Step::<T>::Finished(v),
        }
    }
}

/// The reply says that the probed path exists.
pub open spec fn found(r: StorageReply) -> bool {
    r matches StorageReply::Found(true)
}

/// The reply says that a directory was created.
pub open spec fn created(r: StorageReply) -> bool {
    r matches StorageReply::Created(Ok(_))
}

/// The reply says that a file was written.
pub open spec fn written(r: StorageReply) -> bool {
    r matches StorageReply::Written(Ok(_))
}

/// `present` holds `p` and each of its ancestors below the data directory.
pub open spec fn holds_path(present: Set<PathView>, p: PathView) -> bool {
    forall|k: int| 1 <= k <= p.len() ==> #[trigger] present.contains(p.take(k))
}

/// A reply to an existence probe tells the truth about `present`.
pub open spec fn probe_answered<V>(present: Set<PathView>, o: Outcome<V>, reply: StorageReply) -> bool {
    o matches Outcome::Next(Request::Exists(p)) ==> reply == StorageReply::Found(present.contains(p))
}

/// A reply that reports a created directory or a written file left that path,
/// with its ancestors, in `present`.
pub open spec fn creation_landed<V>(present: Set<PathView>, o: Outcome<V>, reply: StorageReply) -> bool {
    match o {
        Outcome::Next(Request::CreateDirAll(p)) => created(reply) ==> holds_path(present, p),
        Outcome::Next(Request::WriteFile(p, _)) => written(reply) ==> holds_path(present, p),
        _ => true,
    }
}

pub fn is_found(r: &StorageReply) -> (b: bool)
    ensures
        b == found(*r),
{
    match r {
        StorageReply::Found(b) => *b,
        _ => false,
    }
}

pub fn is_created(r: &StorageReply) -> (b: bool)
    ensures
        b == created(*r),
{
    match r {
        StorageReply::Created(Ok(_)) => true,
        _ => false,
    }
}

pub fn is_written(r: &StorageReply) -> (b: bool)
    ensures
        b == written(*r),
{
    match r {
        StorageReply::Written(Ok(_)) => true,
        _ => false,
    }
}

} // verus!
