use vstd::prelude::*;
use vstd::string::*;
use crate::ids::{id_text, id_to_text, lemma_id_text_shape};
use crate::text::all_ascii;

verus! {

/// The failures of the file store.
#[derive(Debug, Clone)]
pub enum StorageError {
    NotFound,
    InvalidState,
    InvalidRequest,
    TooManyParts,
    SdkError(String),
}

/// The number of bytes of a character in UTF-8.
pub open spec fn char_width(c: char) -> int {
    let v = c as u32;
    if v < 0x80 {
        1
    } else if v < 0x800 {
        2
    } else if v < 0x10000 {
        3
    } else {
        4
    }
}

/// The number of bytes of a text in UTF-8.
pub open spec fn byte_len(s: Seq<char>) -> int
    decreases s.len(),
{
    if s.len() == 0 {
        0
    } else {
        byte_len(s.drop_last()) + char_width(s.last())
    }
}

/// Byte `k` of a text falls between two characters (or at an end).
pub open spec fn is_byte_boundary(s: Seq<char>, k: int) -> bool {
    exists|j: int| 0 <= j <= s.len() && #[trigger] byte_len(s.take(j)) == k
}

/// The number of characters in the first `k` bytes of a text, where byte
/// `k` is a boundary.
pub open spec fn chars_before_byte(s: Seq<char>, k: int) -> int {
    choose|j: int| 0 <= j <= s.len() && #[trigger] byte_len(s.take(j)) == k
}

/// Whether the first two and the next two bytes of a text can be cut off
/// (what slicing `[0..2]` and `[2..4]` of it asks).
pub open spec fn can_cut_key(id: Seq<char>) -> bool {
    is_byte_boundary(id, 2) && is_byte_boundary(id, 4)
}

/// The storage path of a file: its first two bytes, `/`, the next two
/// bytes, `/`, and the whole name (`67e5.png` is kept at `67/e5/67e5.png`).
pub open spec fn storage_key_of(id: Seq<char>) -> Seq<char> {
    let a = chars_before_byte(id, 2);
    let b = chars_before_byte(id, 4);
    id.take(a) + seq!['/'] + id.subrange(a, b) + seq!['/'] + id
}

proof fn lemma_width_positive(c: char)
    ensures
        1 <= char_width(c) <= 4,
{
}

/// The byte length of a prefix grows with the prefix.
proof fn lemma_byte_len_mono(s: Seq<char>, i: int, j: int)
    requires
        0 <= i <= j <= s.len(),
    ensures
        byte_len(s.take(i)) + (j - i) <= byte_len(s.take(j)),
    decreases j - i,
{
    if i < j {
        lemma_byte_len_mono(s, i, j - 1);
        assert(s.take(j).drop_last() =~= s.take(j - 1));
        lemma_width_positive(s.take(j).last());
    }
}

/// Where a boundary exists, it is at one character count only.
proof fn lemma_boundary_unique(s: Seq<char>, k: int, j: int)
    requires
        0 <= j <= s.len(),
        byte_len(s.take(j)) == k,
    ensures
        chars_before_byte(s, k) == j,
{
    let c = chars_before_byte(s, k);
    assert(is_byte_boundary(s, k));
    if c < j {
        lemma_byte_len_mono(s, c, j);
    } else if c > j {
        lemma_byte_len_mono(s, j, c);
    }
}

/// The number of bytes of a character in UTF-8.
pub fn char_width_of(c: char) -> (r: usize)
    ensures
        r == char_width(c),
{
    let v = c as u32;
    if v < 0x80 {
        1
    } else if v < 0x800 {
        2
    } else if v < 0x10000 {
        3
    } else {
        4
    }
}

/// The number of characters in the first `k` bytes of a text, if byte `k`
/// falls between characters.
pub fn chars_in_bytes(s: &str, k: usize) -> (r: Option<usize>)
    requires
        k <= usize::MAX - 4,
    ensures
        r is Some <==> is_byte_boundary(s@, k as int),
        r matches Some(j) ==> j == chars_before_byte(s@, k as int) && 0 <= j <= s@.len()
            && byte_len(s@.take(j as int)) == k,
{
    let n = s.unicode_len();
    let mut i: usize = 0;
    let mut b: usize = 0;
    while i < n && b < k
        invariant
            n == s@.len(),
            k <= usize::MAX - 4,
            i <= n,
            b == byte_len(s@.take(i as int)),
            b <= k + 4,
            forall|j: int| 0 <= j < i ==> #[trigger] byte_len(s@.take(j)) < k,
        decreases n - i,
    {
        let c = s.get_char(i);
        proof {
            assert(s@.take(i + 1).drop_last() =~= s@.take(i as int));
            assert(s@.take(i + 1).last() == c);
        }
        b = b + char_width_of(c);
        i = i + 1;
    }
    if b == k {
        proof {
            lemma_boundary_unique(s@, k as int, i as int);
        }
        Some(i)
    } else {
        proof {
            // Before `i` the prefixes are too short; from `i` on, too long,
            // or `i` is the end of the text and its prefix is still too short.
            assert forall|j: int| 0 <= j <= s@.len() implies #[trigger] byte_len(s@.take(j))
                != k by {
                if j > i {
                    lemma_byte_len_mono(s@, i as int, j);
                }
            }
        }
        None
    }
}

/// The storage path of a file name: its first two bytes, `/`, the next two
/// bytes, `/`, and the name.
pub fn storage_key(id: &str) -> (r: String)
    requires
        can_cut_key(id@),
    ensures
        r@ == storage_key_of(id@),
{
    let a = chars_in_bytes(id, 2).unwrap();
    let b = chars_in_bytes(id, 4).unwrap();
    proof {
        if b < a {
            lemma_byte_len_mono(id@, b as int, a as int);
        }
        assert(a <= b);
    }
    let mut out = String::new();
    out.append(id.substring_char(0, a));
    out.append("/");
    out.append(id.substring_char(a, b));
    out.append("/");
    out.append(id);
    proof {
        reveal_strlit("/");
        assert(id@.subrange(0, a as int) =~= id@.take(a as int));
    }
    out
}

/// The bytes of an ASCII text are its characters.
proof fn lemma_ascii_byte_len(s: Seq<char>, j: int)
    requires
        all_ascii(s),
        0 <= j <= s.len(),
    ensures
        byte_len(s.take(j)) == j,
    decreases j,
{
    if j > 0 {
        lemma_ascii_byte_len(s, j - 1);
        assert(s.take(j).drop_last() =~= s.take(j - 1));
        assert((s[j - 1] as u32) < 128);
    }
}

/// An ASCII text of four or more characters can be cut into a storage path.
pub proof fn lemma_ascii_can_cut(s: Seq<char>)
    requires
        all_ascii(s),
        s.len() >= 4,
    ensures
        can_cut_key(s),
        chars_before_byte(s, 2) == 2,
        chars_before_byte(s, 4) == 4,
{
    lemma_ascii_byte_len(s, 2);
    lemma_ascii_byte_len(s, 4);
    lemma_boundary_unique(s, 2, 2);
    lemma_boundary_unique(s, 4, 4);
}

/// The extension under which an uploaded file is kept: the subtype of its
/// content type, or `bin` when it has none.
pub open spec fn extension_of(subtype: Option<Seq<char>>) -> Seq<char> {
    match subtype {
        Some(s) => s,
        None => "bin"@,
    }
}

/// The name of an uploaded file: the id, `.`, the extension.
pub open spec fn file_name_of(id: Seq<char>, ext: Seq<char>) -> Seq<char> {
    id + seq!['.'] + ext
}

/// Where an uploaded file is put: the first two bytes of the id, `/`, the
/// next two, `/`, and the file name.
pub open spec fn upload_key_of(id: Seq<char>, ext: Seq<char>) -> Seq<char> {
    let a = chars_before_byte(id, 2);
    let b = chars_before_byte(id, 4);
    id.take(a) + seq!['/'] + id.subrange(a, b) + seq!['/'] + file_name_of(id, ext)
}

/// The storage path and the file name of an upload with id `id` and
/// content subtype `subtype`.
pub fn upload_names(id: &str, subtype: Option<&str>) -> (r: (String, String))
    requires
        can_cut_key(id@),
    ensures
        r.0@ == upload_key_of(id@, extension_of(opt_view(subtype))),
        r.1@ == file_name_of(id@, extension_of(opt_view(subtype))),
{
    let ext: &str = match subtype {
        Some(s) => s,
        None => "bin",
    };
    let mut name = String::from_str(id);
    name.append(".");
    name.append(ext);
    let a = chars_in_bytes(id, 2).unwrap();
    let b = chars_in_bytes(id, 4).unwrap();
    proof {
        if b < a {
            lemma_byte_len_mono(id@, b as int, a as int);
        }
        reveal_strlit(".");
        reveal_strlit("/");
    }
    let mut key = String::new();
    key.append(id.substring_char(0, a));
    key.append("/");
    key.append(id.substring_char(a, b));
    key.append("/");
    key.append(name.as_str());
    proof {
        assert(id@.subrange(0, a as int) =~= id@.take(a as int));
        assert(name@ =~= file_name_of(id@, extension_of(opt_view(subtype))));
    }
    (key, name)
}

/// The view of an optional text.
pub open spec fn opt_view(s: Option<&str>) -> Option<Seq<char>> {
    match s {
        Some(t) => Some(t@),
        None => None,
    }
}

/// The storage path and the file name of the file of the pick with id `id`:
/// the id is written in its hyphenated text.
pub fn pick_upload_names(id: u128, subtype: Option<&str>) -> (r: (String, String))
    ensures
        r.0@ == upload_key_of(id_text(id), extension_of(opt_view(subtype))),
        r.1@ == file_name_of(id_text(id), extension_of(opt_view(subtype))),
{
    let text = id_to_text(id);
    proof {
        lemma_id_text_shape(id);
        lemma_ascii_can_cut(text@);
    }
    upload_names(text.as_str(), subtype)
}

/// An uploaded file is found again by its file name: the storage path
/// computed from the name is where the upload put it.
pub proof fn law_uploaded_file_found_by_name(id: Seq<char>, ext: Seq<char>)
    requires
        can_cut_key(id),
    ensures
        can_cut_key(file_name_of(id, ext)),
        storage_key_of(file_name_of(id, ext)) == upload_key_of(id, ext),
{
    let f = file_name_of(id, ext);
    let a = chars_before_byte(id, 2);
    let b = chars_before_byte(id, 4);
    assert(is_byte_boundary(id, 2));
    assert(is_byte_boundary(id, 4));
    assert(0 <= a <= id.len() && byte_len(id.take(a)) == 2);
    assert(0 <= b <= id.len() && byte_len(id.take(b)) == 4);
    assert(f.take(a) =~= id.take(a));
    assert(f.take(b) =~= id.take(b));
    assert(byte_len(f.take(a)) == 2);
    assert(byte_len(f.take(b)) == 4);
    lemma_boundary_unique(f, 2, a);
    lemma_boundary_unique(f, 4, b);
    if b < a {
        lemma_byte_len_mono(id, b, a);
    }
    assert(f.subrange(a, b) =~= id.subrange(a, b));
}

/// The content type under which a stored file is served: its recorded
/// type, or `bin` when none was recorded.
pub fn served_content_type(mimetype: Option<String>) -> (r: String)
    ensures
        r@ == match mimetype {
            Some(m) => m@,
            None => "bin"@,
        },
{
    match mimetype {
        Some(m) => m,
        None => String::from_str("bin"),
    }
}

/// A file being received, before and after it is saved to disk.
pub struct TempFile<T> {
    id: Option<String>,
    stream: T,
    path: Option<String>,
}

/// Why a file being received cannot be used yet.
#[derive(Debug, Clone, Copy, PartialEq, Eq, Structural)]
pub enum TempFileError {
    /// It has no id yet (`TempFile was not initialized`).
    NotInitialized,
    /// It was not saved yet (`TempFile was not created yet`).
    NotCreated,
}

impl<T> TempFile<T> {
    /// The id given to the file, if any.
    pub closed spec fn id_view(&self) -> Option<Seq<char>> {
        match self.id {
            Some(s) => Some(s@),
            None => None,
        }
    }

    /// Where the file was saved, if it was.
    pub closed spec fn path_view(&self) -> Option<Seq<char>> {
        match self.path {
            Some(s) => Some(s@),
            None => None,
        }
    }

    /// The stream the file is read from.
    pub closed spec fn stream_view(&self) -> T {
        self.stream
    }

    /// A file read from `stream`, with no id and not saved.
    pub fn from_stream(stream: T) -> (r: Self)
        ensures
            r.id_view() is None,
            r.path_view() is None,
            r.stream_view() == stream,
    {
        TempFile { id: None, stream, path: None }
    }

    /// The same file with the id `id`.
    pub fn with_id(self, id: String) -> (r: Self)
        ensures
            r.id_view() == Some(id@),
            r.path_view() == self.path_view(),
            r.stream_view() == self.stream_view(),
    {
        TempFile { id: Some(id), stream: self.stream, path: self.path }
    }

    /// The storage path of the file, built from its id.
    pub fn get_storage_key(&self) -> (r: Result<String, TempFileError>)
        requires
            self.id_view() matches Some(id) ==> can_cut_key(id),
        ensures
            match self.id_view() {
                Some(id) => r matches Ok(k) && k@ == storage_key_of(id),
                None => r == Err::<String, TempFileError>(TempFileError::NotInitialized),
            },
    {
        match &self.id {
            Some(id) => Ok(storage_key(id.as_str())),
            None => Err(TempFileError::NotInitialized),
        }
    }

    /// The id of the file, to save it under.
    pub fn saved_name(&self) -> (r: Result<&String, TempFileError>)
        ensures
            match self.id_view() {
                Some(id) => r matches Ok(s) && s@ == id,
                None => r == Err::<&String, TempFileError>(TempFileError::NotInitialized),
            },
    {
        match &self.id {
            Some(id) => Ok(id),
            None => Err(TempFileError::NotInitialized),
        }
    }

    /// Records where the file was saved.
    pub fn mark_saved(&mut self, path: String)
        ensures
            final(self).path_view() == Some(path@),
            final(self).id_view() == old(self).id_view(),
            final(self).stream_view() == old(self).stream_view(),
    {
        self.path = Some(path);
    }

    /// Where the file was saved, to remove it.
    pub fn saved_path(&self) -> (r: Result<&String, TempFileError>)
        ensures
            match self.path_view() {
                Some(p) => r matches Ok(s) && s@ == p,
                None => r == Err::<&String, TempFileError>(TempFileError::NotCreated),
            },
    {
        match &self.path {
            Some(p) => Ok(p),
            None => Err(TempFileError::NotCreated),
        }
    }

    /// The stream the file is read from.
    pub fn stream_mut(&mut self) -> (r: &mut T)
        ensures
            *r == old(self).stream_view(),
            final(self).stream_view() == *final(r),
            final(self).id_view() == old(self).id_view(),
            final(self).path_view() == old(self).path_view(),
    {
        &mut self.stream
    }
}

impl TempFileError {
    /// The message of the failure.
    pub fn message(&self) -> (r: &'static str)
        ensures
            r@ == match *self {
                TempFileError::NotInitialized => "TempFile was not initialized"@,
                TempFileError::NotCreated => "TempFile was not created yet"@,
            },
    {
        match self {
            TempFileError::NotInitialized => "TempFile was not initialized",
            TempFileError::NotCreated => "TempFile was not created yet",
        }
    }
}

/// How writing a file to the store failed, as the store reported it.
#[derive(Debug, Clone)]
pub enum PutFailure {
    InvalidRequest,
    TooManyParts,
    /// Any other failure, with its debug text.
    Other(String),
}

/// How reading a file from the store failed, as the store reported it.
#[derive(Debug, Clone)]
pub enum GetFailure {
    NoSuchKey,
    InvalidObjectState,
    /// Any other failure, with its debug text.
    Other(String),
}

/// The storage error for a failed write.
pub fn put_error(f: PutFailure) -> (r: StorageError)
    ensures
        match f {
            PutFailure::InvalidRequest => r is InvalidRequest,
            PutFailure::TooManyParts => r is TooManyParts,
            PutFailure::Other(d) => r matches StorageError::SdkError(m) && m@ == "PUT ERROR: "@ + d@,
        },
{
    match f {
        PutFailure::InvalidRequest => StorageError::InvalidRequest,
        PutFailure::TooManyParts => StorageError::TooManyParts,
        PutFailure::Other(d) => {
            let mut m = String::from_str("PUT ERROR: ");
            m.append(d.as_str());
            StorageError::SdkError(m)
        },
    }
}

/// The storage error for a failed read.
pub fn get_error(f: GetFailure) -> (r: StorageError)
    ensures
        match f {
            GetFailure::NoSuchKey => r is NotFound,
            GetFailure::InvalidObjectState => r is InvalidState,
            GetFailure::Other(d) => r matches StorageError::SdkError(m) && m@ == "GET ERROR: "@ + d@,
        },
{
    match f {
        GetFailure::NoSuchKey => StorageError::NotFound,
        GetFailure::InvalidObjectState => StorageError::InvalidState,
        GetFailure::Other(d) => {
            let mut m = String::from_str("GET ERROR: ");
            m.append(d.as_str());
            StorageError::SdkError(m)
        },
    }
}

} // verus!
