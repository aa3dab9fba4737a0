use vstd::prelude::*;

verus! {

/// `std::io::Error`, carried opaquely inside `FileStoreError::Io`.
#[verifier::external_type_specification]
#[verifier::external_body]
pub struct ExIoError(std::io::Error);

/// Errors of a file store.
#[derive(Debug)]
pub enum FileStoreError {
    Io(std::io::Error),
    NotFound(String),
    FileTooLarge(u64),
}

/// Largest file that a store accepts: 2 GiB.
pub const MAX_FILE_SIZE: u64 = 2_147_483_648;

/// Size of the buffer that uploads are streamed through: 1 MiB.
pub const CHUNK_SIZE: usize = 1_048_576;

/// What `Path::join` returns for a base directory and a file name, as text.
pub uninterp spec fn joined_path(base: Seq<char>, file: Seq<char>) -> Seq<char>;

/// Relies on `std::path::Path::join`: `file` placed under `base`. On Unix an
/// absolute `file` replaces `base`; a relative one is appended after a `/`
/// unless `base` is empty or already ends with one.
#[verifier::external_body]
fn join_path(base: &str, file: &str) -> (r: String)
    ensures
        r@ == joined_path(base@, file@),
        file@.len() > 0 && file@[0] == '/' ==> r@ == file@,
        file@.len() > 0 && file@[0] != '/' && base@.len() > 0 && base@.last() != '/' ==> r@ == base@ + seq!['/'] + file@,
{
    std::path::Path::new(base).join(file).to_string_lossy().into_owned()
}

/// A file store over a directory of the local file system.
pub struct LocalFileStore {
    base_path: String,
}

impl LocalFileStore {
    /// A store rooted at `base_path`; the directory itself is created by the
    /// caller.
    pub fn new(base_path: String) -> (r: Self)
        ensures
            r.base_path() == base_path@,
    {
        LocalFileStore { base_path }
    }

    pub closed spec fn base_path(&self) -> Seq<char> {
        self.base_path@
    }

    /// Where the file with id `file_id` lives.
    pub fn get_file_path(&self, file_id: &str) -> (r: String)
        ensures
            r@ == joined_path(self.base_path(), file_id@),
    {
        join_path(self.base_path.as_str(), file_id)
    }

    /// The running total of an upload after a chunk of `n` more bytes, or
    /// `FileTooLarge` once it passes `MAX_FILE_SIZE`.
    pub fn add_chunk(total: u64, n: u64) -> (r: Result<u64, FileStoreError>)
        ensures
            total + n <= MAX_FILE_SIZE ==> r == Ok::<u64, FileStoreError>((total + n) as u64),
            total + n > MAX_FILE_SIZE ==> (r matches Err(FileStoreError::FileTooLarge(max)) && max == MAX_FILE_SIZE),
    {
        if n > MAX_FILE_SIZE || total > MAX_FILE_SIZE - n {
            Err(FileStoreError::FileTooLarge(MAX_FILE_SIZE))
        } else {
            Ok(total + n)
        }
    }
}

} // verus!
