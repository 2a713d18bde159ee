//! File ingestion: the policy that uploads are held to, the names under
//! which they are stored, and the handle of a stored file.

use vstd::prelude::*;
use vstd::string::*;
use crate::err::{Error, ErrorView};
use crate::stamp::{local_now, stamp_text, Timestamp};

verus! {

/// The number of random characters at the start of a generated file name.
pub const PREFIX_LEN: usize = 10;

/// `str`'s `==` of std holds exactly of two strings with the same
/// characters.
pub assume_specification[ <str as PartialEq>::eq ](a: &str, b: &str) -> (r: bool)
    ensures
        r == (a@ == b@),
;

/// The index of the last `.` in `s`, or -1 where it has none.
pub open spec fn last_dot(s: Seq<char>) -> int
    decreases s.len(),
{
    if s.len() == 0 {
        -1
    } else if s.last() == '.' {
        s.len() - 1
    } else {
        last_dot(s.drop_last())
    }
}

/// The extension of a file name: what follows its last `.`, without the
/// `.` itself. A name without a `.` has none; a name that ends in `.` has
/// the empty one.
pub open spec fn extension_of(name: Seq<char>) -> Option<Seq<char>> {
    if last_dot(name) < 0 {
        None
    } else {
        Some(name.subrange(last_dot(name) + 1, name.len() as int))
    }
}

/// `last_dot` is -1 exactly where no `.` occurs, and otherwise the place of
/// a `.` after which none follows.
pub proof fn last_dot_is_last(s: Seq<char>)
    ensures
        -1 <= last_dot(s) < s.len(),
        last_dot(s) >= 0 ==> s[last_dot(s)] == '.',
        forall|j: int| last_dot(s) < j < s.len() ==> s[j] != '.',
        last_dot(s) < 0 <==> !s.contains('.'),
    decreases s.len(),
{
    if s.len() == 0 {
    } else if s.last() == '.' {
        assert(s[s.len() - 1] == '.');
    } else {
        let t = s.drop_last();
        last_dot_is_last(t);
        assert forall|j: int| last_dot(s) < j < s.len() implies s[j] != '.' by {
            if j < t.len() {
                assert(t[j] == s[j]);
            }
        }
        if last_dot(s) >= 0 {
            assert(s[last_dot(s)] == t[last_dot(t)]);
        } else {
            if s.contains('.') {
                let k = choose|k: int| 0 <= k < s.len() && s[k] == '.';
                assert(t[k] == '.');
                assert(t.contains('.'));
            }
        }
    }
}

/// A `.` after which none follows is the last one.
pub proof fn last_dot_from_end(s: Seq<char>, k: int)
    requires
        0 <= k < s.len(),
        s[k] == '.',
        forall|j: int| k < j < s.len() ==> s[j] != '.',
    ensures
        last_dot(s) == k,
{
    last_dot_is_last(s);
}

/// Whether `c` is an ASCII letter or digit.
pub open spec fn is_alphanumeric(c: char) -> bool {
    ('A' <= c && c <= 'Z') || ('a' <= c && c <= 'z') || ('0' <= c && c <= '9')
}

/// Whether `p` can stand at the start of a generated name: `PREFIX_LEN`
/// ASCII letters and digits.
pub open spec fn is_prefix(p: Seq<char>) -> bool {
    &&& p.len() == PREFIX_LEN
    &&& forall|i: int| 0 <= i < p.len() ==> is_alphanumeric(#[trigger] p[i])
}

/// The stored name made of a prefix, a time and an extension.
pub open spec fn filename_of(prefix: Seq<char>, stamp: Timestamp, ext: Seq<char>) -> Seq<char> {
    prefix + seq!['-'] + stamp_text(stamp) + seq!['.'] + ext
}

/// Whether `name` is a stored name for the extension `ext`: some random
/// prefix, then some time, then `ext`.
pub open spec fn is_generated_name(name: Seq<char>, ext: Seq<char>) -> bool {
    exists|p: Seq<char>, t: Timestamp| is_prefix(p) && t.wf() && name == filename_of(p, t, ext)
}

/// `len` characters drawn by `rand::thread_rng` from rand's `Alphanumeric`
/// distribution, which yields ASCII letters and digits only. Nothing is
/// claimed of which ones come.
#[verifier::external_body]
pub(crate) fn random_alphanumeric(len: usize) -> (r: String)
    ensures
        r@.len() == len,
        forall|i: int| 0 <= i < r@.len() ==> is_alphanumeric(#[trigger] r@[i]),
{
    rand::Rng::sample_iter(rand::thread_rng(), &rand::distributions::Alphanumeric)
        .take(len)
        .map(char::from)
        .collect()
}

/// Joins a prefix, a time and an extension into a stored name:
/// the prefix, `-`, the time as `YYYY-MM-DD--HH-MM-SS`, `.`, the extension.
pub fn compose_filename(prefix: &str, stamp: &Timestamp, ext: &str) -> (r: String)
    ensures
        r@ == filename_of(prefix@, *stamp, ext@),
{
    let mut s = String::from_str(prefix);
    s.push('-');
    stamp.push_text(&mut s);
    s.push('.');
    s.append(ext);
    assert(s@ =~= filename_of(prefix@, *stamp, ext@));
    s
}

/// For one time and one extension, different prefixes give different
/// names: the random prefix is what keeps two uploads of the same second
/// apart.
pub proof fn distinct_prefixes_give_distinct_names(
    p: Seq<char>,
    q: Seq<char>,
    stamp: Timestamp,
    ext: Seq<char>,
)
    requires
        p.len() == q.len(),
        p != q,
    ensures
        filename_of(p, stamp, ext) != filename_of(q, stamp, ext),
{
    let a = filename_of(p, stamp, ext);
    let b = filename_of(q, stamp, ext);
    if a == b {
        assert forall|i: int| 0 <= i < p.len() implies p[i] == q[i] by {
            assert(a[i] == p[i]);
            assert(b[i] == q[i]);
        }
        assert(p =~= q);
    }
}

/// A generated name has the extension it was generated for, unless that
/// extension itself holds a `.`.
pub proof fn generated_name_keeps_extension(prefix: Seq<char>, stamp: Timestamp, ext: Seq<char>)
    requires
        !ext.contains('.'),
    ensures
        extension_of(filename_of(prefix, stamp, ext)) == Some(ext),
{
    let head = prefix + seq!['-'] + stamp_text(stamp);
    let name = filename_of(prefix, stamp, ext);
    let k = head.len() as int;
    assert(name[k] == '.');
    assert forall|j: int| k < j < name.len() implies name[j] != '.' by {
        assert(name[j] == ext[j - k - 1]);
        assert(ext.contains(ext[j - k - 1]));
    }
    last_dot_from_end(name, k);
    assert(name.subrange(k + 1, name.len() as int) =~= ext);
}

/// The handle of a stored file: its name and, where it is known, the
/// storage location that holds it.
#[derive(Debug, Clone)]
pub struct File {
    filename: String,
    dir: Option<String>,
}

/// The mathematical value of a [`File`].
pub ghost struct FileView {
    pub filename: Seq<char>,
    pub dir: Option<Seq<char>>,
}

impl View for File {
    type V = FileView;

    closed spec fn view(&self) -> FileView {
        FileView {
            filename: self.filename@,
            dir: match self.dir {
                Some(d) => Some(d@),
                None => None,
            },
        }
    }
}

impl File {
    /// The handle of the file `filename` stored under `dir`.
    pub fn new(filename: String, dir: String) -> (f: File)
        ensures
            f@ == (FileView { filename: filename@, dir: Some(dir@) }),
    {
        File { filename, dir: Some(dir) }
    }

    /// The handle of the file `filename` whose storage location is not
    /// known, as when only the name was kept in a record.
    pub fn detached(filename: String) -> (f: File)
        ensures
            f@ == (FileView { filename: filename@, dir: None }),
    {
        File { filename, dir: None }
    }

    /// The same file, held under `dir`.
    pub fn attach(self, dir: String) -> (f: File)
        ensures
            f@ == (FileView { filename: self@.filename, dir: Some(dir@) }),
    {
        File { filename: self.filename, dir: Some(dir) }
    }

    /// The stored name.
    pub fn filename(&self) -> (r: &String)
        ensures
            r@ == self@.filename,
    {
        &self.filename
    }

    /// The stored name, giving up the handle.
    pub fn filename_owned(self) -> (r: String)
        ensures
            r@ == self@.filename,
    {
        self.filename
    }

    /// The storage location, where the handle carries one.
    pub fn dir(&self) -> (r: Option<&String>)
        ensures
            match r {
                Some(d) => self@.dir == Some(d@),
                None => self@.dir is None,
            },
    {
        match &self.dir {
            Some(d) => Some(d),
            None => None,
        }
    }

    /// Decides the removal of the stored bytes: the storage location under
    /// which the file named `filename` is to be deleted, or
    /// `StorageLocationMissing` where the handle carries none, in which
    /// case nothing may be touched.
    pub fn remove(&self) -> (r: Result<&String, Error>)
        ensures
            match r {
                Ok(d) => self@.dir == Some(d@),
                Err(e) => self@.dir is None && e@ == ErrorView::StorageLocationMissing,
            },
    {
        match &self.dir {
            Some(d) => Ok(d),
            None => Err(Error::StorageLocationMissing),
        }
    }

    /// An ingestion policy with the defaults.
    pub fn saver<'a>() -> (s: FileSaver<'a>)
        ensures
            s@ == default_policy(),
    {
        FileSaver::default()
    }
}


/// The policy that uploads are held to: where they are stored, which
/// extensions are let in, and how large they may be.
#[derive(Debug, Clone)]
pub struct FileSaver<'a> {
    dir: &'a str,
    allowed_fmts: Option<Vec<&'a str>>,
    max_size: Option<usize>,
}

/// The mathematical value of a [`FileSaver`]. Without `allowed` every
/// extension is let in; without `max_size` there is no cap.
pub ghost struct PolicyView {
    pub dir: Seq<char>,
    pub allowed: Option<Set<Seq<char>>>,
    pub max_size: Option<nat>,
}

/// The extensions that occur in a list.
pub open spec fn extension_set(fmts: Seq<&str>) -> Set<Seq<char>> {
    Set::new(|e: Seq<char>| exists|i: int| 0 <= i < fmts.len() && (#[trigger] fmts[i])@ == e)
}

/// The policy that is in force where nothing was configured: the current
/// directory, every extension, no cap.
pub open spec fn default_policy() -> PolicyView {
    PolicyView { dir: "./"@, allowed: None, max_size: None }
}

impl PolicyView {
    /// Whether the policy lets the extension `ext` in.
    pub open spec fn allows(self, ext: Seq<char>) -> bool {
        match self.allowed {
            None => true,
            Some(set) => set.contains(ext),
        }
    }

    /// Whether a file named `name` passes: it has an extension, and the
    /// policy lets that extension in.
    pub open spec fn accepts(self, name: Seq<char>) -> bool {
        match extension_of(name) {
            None => false,
            Some(ext) => self.allows(ext),
        }
    }

    /// Whether `size` bytes are more than the policy's cap.
    pub open spec fn exceeded_by(self, size: nat) -> bool {
        match self.max_size {
            None => false,
            Some(max) => size > max,
        }
    }

    /// Whether `f` is a handle that this policy gives out for a file that
    /// was declared as `name`: held under the policy's location, with a
    /// generated name that ends in the extension of `name`.
    pub open spec fn stores(self, name: Seq<char>, f: FileView) -> bool {
        &&& extension_of(name) is Some
        &&& f.dir == Some(self.dir)
        &&& is_generated_name(f.filename, extension_of(name).unwrap())
    }
}

/// The set of extensions that an optional list stands for.
pub open spec fn allowed_of(fmts: Option<Vec<&str>>) -> Option<Set<Seq<char>>> {
    match fmts {
        None => None,
        Some(v) => Some(extension_set(v@)),
    }
}

impl<'a> View for FileSaver<'a> {
    type V = PolicyView;

    closed spec fn view(&self) -> PolicyView {
        PolicyView {
            dir: self.dir@,
            allowed: allowed_of(self.allowed_fmts),
            max_size: match self.max_size {
                None => None,
                Some(m) => Some(m as nat),
            },
        }
    }
}

impl<'a> Default for FileSaver<'a> {
    fn default() -> (s: Self)
        ensures
            s@ == default_policy(),
    {
        FileSaver { dir: "./", allowed_fmts: None, max_size: None }
    }
}

impl<'a> FileSaver<'a> {
    /// The policy with the given location, extensions and cap.
    pub fn new(dir: &'a str, allowed_fmts: Option<Vec<&'a str>>, max_size: usize) -> (s: Self)
        ensures
            s@ == (PolicyView {
                dir: dir@,
                allowed: allowed_of(allowed_fmts),
                max_size: Some(max_size as nat),
            }),
    {
        FileSaver { dir, allowed_fmts, max_size: Some(max_size) }
    }

    /// The same policy with the storage location `dir`.
    pub fn dir(self, dir: &'a str) -> (s: Self)
        ensures
            s@ == (PolicyView { dir: dir@, ..self@ }),
    {
        FileSaver { dir, allowed_fmts: self.allowed_fmts, max_size: self.max_size }
    }

    /// The same policy with the given extensions let in, or with every
    /// extension let in where `allowed_fmts` is `None`.
    pub fn allowed_fmts(self, allowed_fmts: Option<Vec<&'a str>>) -> (s: Self)
        ensures
            s@ == (PolicyView { allowed: allowed_of(allowed_fmts), ..self@ }),
    {
        FileSaver { dir: self.dir, allowed_fmts, max_size: self.max_size }
    }

    /// The same policy with a cap of `max_size` bytes.
    pub fn max_size(self, max_size: usize) -> (s: Self)
        ensures
            s@ == (PolicyView { max_size: Some(max_size as nat), ..self@ }),
    {
        FileSaver { dir: self.dir, allowed_fmts: self.allowed_fmts, max_size: Some(max_size) }
    }

    /// Whether the policy lets the extension `ext` in.
    pub fn allows(&self, ext: &str) -> (r: bool)
        ensures
            r == self@.allows(ext@),
    {
        match &self.allowed_fmts {
            None => true,
            Some(fmts) => {
                let mut i: usize = 0;
                while i < fmts.len()
                    invariant
                        i <= fmts.len(),
                        self.allowed_fmts == Some(*fmts),
                        forall|j: int| 0 <= j < i ==> (#[trigger] fmts@[j])@ != ext@,
                    decreases fmts.len() - i,
                {
                    if *fmts[i] == *ext {
                        assert(fmts@[i as int]@ == ext@);
                        assert(extension_set(fmts@).contains(ext@));
                        return true;
                    }
                    i = i + 1;
                }
                assert(!extension_set(fmts@).contains(ext@));
                false
            },
        }
    }

    /// The extension of `filename`: the characters after its last `.`.
    pub fn get_ext(filename: &str) -> (r: Option<&str>)
        ensures
            match r {
                Some(e) => extension_of(filename@) == Some(e@),
                None => extension_of(filename@) is None,
            },
    {
        let n = filename.unicode_len();
        let mut i: usize = n;
        while i > 0
            invariant
                i <= n == filename@.len(),
                forall|j: int| i <= j < n ==> filename@[j] != '.',
            decreases i,
        {
            if filename.get_char(i - 1) == '.' {
                proof {
                    last_dot_from_end(filename@, (i - 1) as int);
                }
                return Some(filename.substring_char(i, n));
            }
            i = i - 1;
        }
        proof {
            last_dot_is_last(filename@);
        }
        None
    }

    /// The extension of `filename`, where it has one that the policy lets
    /// in; `InvalidFile` otherwise.
    pub fn get_ext_checked<'b>(&self, filename: &'b str) -> (r: Result<&'b str, Error>)
        ensures
            match r {
                Ok(e) => self@.accepts(filename@) && extension_of(filename@) == Some(e@),
                Err(e) => !self@.accepts(filename@) && e@ == ErrorView::InvalidFile,
            },
    {
        let ext = match Self::get_ext(filename) {
            Some(x) => x,
            None => return Err(Error::InvalidFile),
        };
        if !self.allows(ext) {
            return Err(Error::InvalidFile);
        }
        Ok(ext)
    }

    /// A fresh stored name for the extension `ext`: ten random letters and
    /// digits, `-`, the local time, `.`, the extension.
    pub fn generate_filename(ext: &str) -> (r: String)
        ensures
            is_generated_name(r@, ext@),
    {
        let stamp = local_now();
        let prefix = random_alphanumeric(PREFIX_LEN);
        let name = compose_filename(prefix.as_str(), &stamp, ext);
        assert(is_prefix(prefix@) && stamp.wf() && name@ == filename_of(prefix@, stamp, ext@));
        name
    }

    /// A handle with a fresh name for the extension `ext`, under the
    /// policy's storage location.
    pub fn create_file_path(&self, ext: &str) -> (f: File)
        ensures
            f@.dir == Some(self@.dir),
            is_generated_name(f@.filename, ext@),
    {
        let filename = Self::generate_filename(ext);
        File::new(filename, String::from_str(self.dir))
    }

    /// Decides the storing of a buffer that was declared as `filename`,
    /// holding it to the cap first and to the extensions second. On `Ok`
    /// the bytes are to be written under the handle that is returned.
    pub fn save_bytes_checked(&self, bytes: &[u8], filename: &str) -> (r: Result<File, Error>)
        ensures
            match r {
                Ok(f) => !self@.exceeded_by(bytes@.len()) && self@.accepts(filename@)
                    && self@.stores(filename@, f@),
                Err(e) => if self@.exceeded_by(bytes@.len()) {
                    e@ == ErrorView::FileTooLarge(self@.max_size.unwrap())
                } else {
                    !self@.accepts(filename@) && e@ == ErrorView::InvalidFile
                },
            },
    {
        if let Some(max) = self.max_size {
            if bytes.len() > max {
                return Err(Error::FileTooLarge(max));
            }
        }
        let ext = match self.get_ext_checked(filename) {
            Ok(x) => x,
            Err(e) => return Err(e),
        };
        Ok(self.create_file_path(ext))
    }

    /// Decides the storing of a buffer that was declared as `filename`,
    /// holding it to the extensions only. On `Ok` the bytes are to be
    /// written under the handle that is returned.
    pub fn save_bytes(&self, bytes: &[u8], filename: &str) -> (r: Result<File, Error>)
        ensures
            match r {
                Ok(f) => self@.accepts(filename@) && self@.stores(filename@, f@),
                Err(e) => !self@.accepts(filename@) && e@ == ErrorView::InvalidFile,
            },
    {
        let ext = match self.get_ext_checked(filename) {
            Ok(x) => x,
            Err(e) => return Err(e),
        };
        Ok(self.create_file_path(ext))
    }

    /// Begins the storing of a stream that declared the name `declared`,
    /// holding that name to the extensions. On `Ok` the destination is to
    /// be opened under the handle of the upload, and each chunk that
    /// arrives is to be put to [`Upload::chunk`] before it is written.
    pub fn save_field(self, declared: Option<&str>) -> (r: Result<Upload, Error>)
        ensures
            match r {
                Ok(u) => {
                    &&& declared is Some
                    &&& self@.accepts(declared.unwrap()@)
                    &&& self@.stores(declared.unwrap()@, u@.file)
                    &&& u.wf()
                    &&& u@.limit == self@.max_size
                    &&& u@.written == 0
                    &&& !u@.aborted
                },
                Err(e) => {
                    &&& e@ == ErrorView::InvalidFile
                    &&& (declared is None || !self@.accepts(declared.unwrap()@))
                },
            },
    {
        let filename = match declared {
            Some(f) => f,
            None => return Err(Error::InvalidFile),
        };
        let ext = match self.get_ext_checked(filename) {
            Ok(x) => x,
            Err(e) => return Err(e),
        };
        let file = self.create_file_path(ext);
        let left: usize = match self.max_size {
            Some(max) => max,
            None => 0,
        };
        Ok(Upload { file, limit: self.max_size, left, aborted: false, written: Ghost(0) })
    }

    /// Decides the copying of an existing file that is to be kept as
    /// `filename`. On `Ok` the source is to be copied to the handle that is
    /// returned, and left in place.
    pub fn copy(&self, filename: &str) -> (r: Result<File, Error>)
        ensures
            match r {
                Ok(f) => self@.accepts(filename@) && self@.stores(filename@, f@),
                Err(e) => !self@.accepts(filename@) && e@ == ErrorView::InvalidFile,
            },
    {
        let ext = match self.get_ext_checked(filename) {
            Ok(x) => x,
            Err(e) => return Err(e),
        };
        Ok(self.create_file_path(ext))
    }
}


/// A file without a `.` in its name has no extension, and no policy
/// accepts it.
pub proof fn name_without_dot_is_rejected(policy: PolicyView, name: Seq<char>)
    requires
        !name.contains('.'),
    ensures
        extension_of(name) is None,
        !policy.accepts(name),
{
    last_dot_is_last(name);
}

/// A stream that is being stored: the handle of its destination, the cap
/// it is held to, and how much of it was let through.
pub struct Upload {
    file: File,
    limit: Option<usize>,
    left: usize,
    aborted: bool,
    written: Ghost<nat>,
}

/// The mathematical value of an [`Upload`]: `written` counts the bytes of
/// the chunks that were let through, and `aborted` says that a chunk went
/// over the cap.
pub ghost struct UploadView {
    pub file: FileView,
    pub limit: Option<nat>,
    pub written: nat,
    pub aborted: bool,
}

/// What is to be done with a chunk that arrived.
#[derive(Debug, Clone, PartialEq, Eq)]
pub enum ChunkAction {
    /// Append the chunk to the destination.
    Write,
    /// Write nothing more, delete the destination, and fail with the error.
    Abort(Error),
}

impl UploadView {
    /// Whether the count is within the cap, and only a capped upload is
    /// aborted.
    pub open spec fn within_cap(self) -> bool {
        match self.limit {
            None => !self.aborted,
            Some(max) => self.written <= max,
        }
    }

    /// Whether a chunk of `len` bytes ends the upload: it was ended before,
    /// or the chunk takes it over the cap.
    pub open spec fn aborts_on(self, len: nat) -> bool {
        self.aborted || match self.limit {
            None => false,
            Some(max) => self.written + len > max,
        }
    }

    /// The upload after a chunk of `len` bytes arrived.
    pub open spec fn step(self, len: nat) -> UploadView {
        if self.aborts_on(len) {
            UploadView { aborted: true, ..self }
        } else {
            UploadView { written: self.written + len, ..self }
        }
    }

    /// The upload after the chunks of the given lengths arrived, in order.
    pub open spec fn feed(self, chunks: Seq<nat>) -> UploadView
        decreases chunks.len(),
    {
        if chunks.len() == 0 {
            self
        } else {
            self.step(chunks[0]).feed(chunks.drop_first())
        }
    }
}

/// The sum of the given lengths.
pub open spec fn total(chunks: Seq<nat>) -> nat
    decreases chunks.len(),
{
    if chunks.len() == 0 {
        0
    } else {
        chunks[0] + total(chunks.drop_first())
    }
}

/// An upload is aborted exactly where the chunks together are larger than
/// the cap, however they were cut; one that was not aborted has let every
/// byte through. The destination and the cap never change.
pub proof fn upload_aborts_iff_over_cap(u: UploadView, chunks: Seq<nat>)
    requires
        u.within_cap(),
        !u.aborted,
    ensures
        u.feed(chunks).aborted <==> (u.limit is Some && u.written + total(chunks)
            > u.limit.unwrap()),
        !u.feed(chunks).aborted ==> u.feed(chunks).written == u.written + total(chunks),
        u.feed(chunks).within_cap(),
        u.feed(chunks).file == u.file,
        u.feed(chunks).limit == u.limit,
    decreases chunks.len(),
{
    if chunks.len() > 0 {
        let next = u.step(chunks[0]);
        let rest = chunks.drop_first();
        if next.aborted {
            stays_aborted(next, rest);
        } else {
            upload_aborts_iff_over_cap(next, rest);
        }
    }
}

/// Once aborted, an upload stays so and lets nothing more through.
pub proof fn stays_aborted(u: UploadView, chunks: Seq<nat>)
    requires
        u.aborted,
    ensures
        u.feed(chunks) == u,
    decreases chunks.len(),
{
    if chunks.len() > 0 {
        assert(u.step(chunks[0]) == u);
        stays_aborted(u, chunks.drop_first());
    }
}

impl View for Upload {
    type V = UploadView;

    closed spec fn view(&self) -> UploadView {
        UploadView {
            file: self.file@,
            limit: match self.limit {
                None => None,
                Some(m) => Some(m as nat),
            },
            written: self.written@,
            aborted: self.aborted,
        }
    }
}

impl Upload {
    /// Whether the upload's count is within its cap, as it is for every
    /// upload that [`FileSaver::save_field`] began.
    pub closed spec fn wf(&self) -> bool {
        match self.limit {
            None => !self.aborted,
            Some(max) => self.written@ + self.left == max,
        }
    }

    /// A well-formed upload counts within its cap.
    pub proof fn wf_within_cap(&self)
        requires
            self.wf(),
        ensures
            self@.within_cap(),
    {
    }

    /// The handle of the destination.
    pub fn file(&self) -> (f: &File)
        ensures
            f@ == self@.file,
    {
        &self.file
    }

    /// Decides what is done with a chunk of `len` bytes that arrived.
    /// Chunks are let through in the order in which they arrive, until one
    /// takes the upload over the cap.
    pub fn chunk(&mut self, len: usize) -> (a: ChunkAction)
        requires
            old(self).wf(),
        ensures
            final(self).wf(),
            final(self)@ == old(self)@.step(len as nat),
            match a {
                ChunkAction::Write => !old(self)@.aborts_on(len as nat),
                ChunkAction::Abort(e) => old(self)@.aborts_on(len as nat) && e@
                    == ErrorView::FileTooLarge(old(self)@.limit.unwrap()),
            },
    {
        match self.limit {
            None => {
                self.written = Ghost(self.written@ + len as nat);
                ChunkAction::Write
            },
            Some(max) => {
                if self.aborted || len > self.left {
                    self.aborted = true;
                    ChunkAction::Abort(Error::FileTooLarge(max))
                } else {
                    self.left = self.left - len;
                    self.written = Ghost(self.written@ + len as nat);
                    ChunkAction::Write
                }
            },
        }
    }

    /// Ends the upload when the stream broke off with a fault that
    /// `details` describes: the fault is reported as an `IOError`, and the
    /// destination is left as it is.
    pub fn fault(self, details: String) -> (e: Error)
        ensures
            e@ == ErrorView::IOError(details@),
    {
        Error::IOError(details)
    }

    /// Ends the upload when the stream has ended: the handle of the stored
    /// file, or `FileTooLarge` where the upload was aborted.
    pub fn finish(self) -> (r: Result<File, Error>)
        requires
            self.wf(),
        ensures
            match r {
                Ok(f) => !self@.aborted && f@ == self@.file,
                Err(e) => self@.aborted && e@ == ErrorView::FileTooLarge(self@.limit.unwrap()),
            },
    {
        if self.aborted {
            match self.limit {
                Some(max) => Err(Error::FileTooLarge(max)),
                None => Ok(self.file),
            }
        } else {
            Ok(self.file)
        }
    }
}

} // verus!
