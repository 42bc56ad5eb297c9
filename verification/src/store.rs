//! The file catalog and the credential store.
//!
//! The catalog filters a directory listing down to the files that follow
//! the store's naming convention (a name ending in the literal, lower-case
//! suffix `.kdbx`). The store binds such a file to a master password,
//! decodes the file's bytes through the `keepass` library, and flattens the
//! decoded tree into display records.

use vstd::prelude::*;
use vstd::string::StrSliceExecFns;

use crate::errors::OpenError;
use crate::errors::OpenErrorView;
use crate::tree::EntryNode;
use crate::tree::EntryRecordView;
use crate::tree::GroupNode;
use crate::tree::KeePassEntry;
use crate::tree::find_entries;
use crate::tree::flatten_group;
use crate::tree::views_of;

verus! {

/// What a directory listing shows of one immediate entry: its full path,
/// its file name if it decoded as text, and whether it is a regular file.
#[derive(Debug)]
pub struct DirEntryInfo {
    pub path: String,
    pub filename: Option<String>,
    pub is_file: bool,
}

/// A descriptor of one recognized database file: the path to open it by,
/// and the raw file name under which it is displayed (suffix retained).
#[derive(Debug)]
pub struct KeePassFile {
    pub filepath: String,
    pub filename: String,
}

/// The ghost shape of a [`KeePassFile`].
pub ghost struct KeePassFileView {
    pub filepath: Seq<char>,
    pub filename: Seq<char>,
}

impl View for KeePassFile {
    type V = KeePassFileView;

    open spec fn view(&self) -> KeePassFileView {
        KeePassFileView { filepath: self.filepath@, filename: self.filename@ }
    }
}

/// The views of a sequence of descriptors, element by element.
pub open spec fn file_views_of(s: Seq<KeePassFile>) -> Seq<KeePassFileView> {
    s.map_values(|f: KeePassFile| f@)
}

/// Does the name end in the recognized suffix `.kdbx`, letter for letter
/// and in exactly this case?
pub open spec fn has_kdbx_suffix(s: Seq<char>) -> bool {
    &&& s.len() >= 5
    &&& s[s.len() - 5] == '.'
    &&& s[s.len() - 4] == 'k'
    &&& s[s.len() - 3] == 'd'
    &&& s[s.len() - 2] == 'b'
    &&& s[s.len() - 1] == 'x'
}

/// Whether the scan keeps a directory entry: it must be a regular file,
/// its name must have decoded as text, and the name must carry the suffix.
pub open spec fn scan_keeps(d: DirEntryInfo) -> bool {
    &&& d.is_file
    &&& (d.filename matches Some(name) && has_kdbx_suffix(name@))
}

/// The descriptor made for a kept directory entry.
pub open spec fn descriptor_of(d: DirEntryInfo) -> KeePassFileView {
    KeePassFileView {
        filepath: d.path@,
        filename: match d.filename {
            Some(name) => name@,
            None => Seq::empty(),
        },
    }
}

/// The descriptors of the kept entries of a listing, in listing order.
pub open spec fn scan_spec(s: Seq<DirEntryInfo>) -> Seq<KeePassFileView>
    decreases s.len(),
{
    if s.len() == 0 {
        Seq::empty()
    } else {
        let prefix = scan_spec(s.drop_last());
        if scan_keeps(s.last()) {
            prefix.push(descriptor_of(s.last()))
        } else {
            prefix
        }
    }
}

/// Every descriptor the scan emits carries a name that ends in `.kdbx`:
/// the display-name invariant of the catalog.
pub proof fn lemma_scan_names_keep_suffix(s: Seq<DirEntryInfo>, i: int)
    requires
        0 <= i < scan_spec(s).len(),
    ensures
        has_kdbx_suffix(scan_spec(s)[i].filename),
    decreases s.len(),
{
    if s.len() > 0 {
        let prefix = scan_spec(s.drop_last());
        if i < prefix.len() {
            lemma_scan_names_keep_suffix(s.drop_last(), i);
        }
    }
}

/// Does the name end in the store's recognized suffix?
pub fn ends_with_kdbx(name: &str) -> (b: bool)
    ensures
        b == has_kdbx_suffix(name@),
{
    let n = name.unicode_len();
    if n < 5 {
        return false;
    }
    name.get_char(n - 5) == '.' && name.get_char(n - 4) == 'k' && name.get_char(n - 3) == 'd'
        && name.get_char(n - 2) == 'b' && name.get_char(n - 1) == 'x'
}

/// Filters a directory listing down to the recognized database files: one
/// descriptor per regular file whose decoded name ends in `.kdbx`, in
/// listing order. Entries that are no regular file, or whose name did not
/// decode as text, are skipped silently, as a listing omission rather than
/// an error.
pub fn find_all_keepass_files(listing: &Vec<DirEntryInfo>) -> (r: Vec<KeePassFile>)
    ensures
        file_views_of(r@) == scan_spec(listing@),
{
    let mut r: Vec<KeePassFile> = Vec::new();
    let n = listing.len();
    for j in 0..n
        invariant
            n == listing.len(),
            file_views_of(r@) == scan_spec(listing@.take(j as int)),
    {
        let d = &listing[j];
        if d.is_file {
            match &d.filename {
                Some(name) => {
                    if ends_with_kdbx(name.as_str()) {
                        r.push(
                            KeePassFile { filepath: d.path.clone(), filename: name.clone() },
                        );
                    }
                },
                None => {},
            }
        }
        proof {
            let taken = listing@.take(j as int + 1);
            assert(taken.drop_last() =~= listing@.take(j as int));
            assert(taken.last() == listing@[j as int]);
            assert(file_views_of(r@) =~= scan_spec(taken));
        }
    }
    proof {
        assert(listing@.take(n as int) =~= listing@);
    }
    r
}

/// An immutable reference into a decoded `keepass` database, declared so
/// that the conversion bridge below can name it; opaque to the verifier.
#[verifier::external_type_specification]
#[verifier::external_body]
pub struct ExGroupRef<'a>(keepass::db::GroupRef<'a>);

/// An immutable reference to one decoded `keepass` entry, declared so that
/// the conversion bridge below can name it; opaque to the verifier.
#[verifier::external_type_specification]
#[verifier::external_body]
pub struct ExEntryRef<'a>(keepass::db::EntryRef<'a>);

/// The tree that decrypting and parsing `bytes` with `password` yields, or
/// `None` when the decoder rejects them. Decoding reads nothing but its two
/// arguments, so the outcome is a function of them alone.
pub uninterp spec fn kdbx_decode(bytes: Seq<u8>, password: Seq<char>) -> Option<GroupNode>;

/// Relies on keepass::db::EntryRef: `get_title`, `get_username`,
/// `get_password`, `get_url` and `get("Notes")` each return the attribute's
/// text, or `None` exactly when the entry lacks that attribute. A bridge
/// called only from `decode_database`'s body, so it carries no contract;
/// all trust in the decoded tree rests on `decode_database`.
#[verifier::external_body]
fn convert_entry(e: &keepass::db::EntryRef<'_>) -> EntryNode {
    EntryNode {
        title: e.get_title().map(|s| s.to_string()),
        username: e.get_username().map(|s| s.to_string()),
        password: e.get_password().map(|s| s.to_string()),
        url: e.get_url().map(|s| s.to_string()),
        notes: e.get("Notes").map(|s| s.to_string()),
    }
}

/// Relies on keepass::db::GroupRef: the group's `name` and its `entries()`
/// and `groups()` iterators, which yield the entries and child groups in
/// decoder order. A bridge called only from `decode_database`'s body, so it
/// carries no contract of its own.
#[verifier::external_body]
fn convert_group(g: &keepass::db::GroupRef<'_>) -> GroupNode {
    let mut entries: Vec<EntryNode> = Vec::new();
    for e in g.entries() {
        entries.push(convert_entry(&e));
    }
    let mut child_groups: Vec<GroupNode> = Vec::new();
    for c in g.groups() {
        child_groups.push(convert_group(&c));
    }
    GroupNode { name: g.name.clone(), entries, child_groups }
}

/// Relies on keepass::Database::parse: it decrypts and parses a database
/// from a byte slice and a key made of a password, returning its root group
/// on success and a diagnostic error otherwise; the outcome depends on the
/// bytes and the password alone. The returned tree is the root group as
/// `convert_group` reads it.
#[verifier::external_body]
fn decode_database(bytes: &Vec<u8>, password: &str) -> (r: Result<GroupNode, String>)
    ensures
        r is Ok <==> kdbx_decode(bytes@, password@) is Some,
        r matches Ok(root) ==> kdbx_decode(bytes@, password@) == Some(root),
{
    let key = keepass::DatabaseKey::new().with_password(password);
    match keepass::Database::parse(&bytes[..], key) {
        Ok(db) => Ok(convert_group(&db.root())),
        Err(e) => Err(e.to_string()),
    }
}

/// The view of a file-read outcome handed to `get_entries`: the bytes read,
/// or the reader's diagnostic.
pub open spec fn file_read_view(file_read: Result<Vec<u8>, String>) -> Result<
    Seq<u8>,
    Seq<char>,
> {
    match file_read {
        Ok(b) => Ok(b@),
        Err(m) => Err(m@),
    }
}

/// The outcome one open attempt owes: on readable bytes that the decoder
/// accepts, the flattened records of the decoded tree under the empty
/// prefix; on a read failure, an `Io` failure with the reader's diagnostic;
/// on rejected bytes, an `InvalidCredentials` failure.
pub open spec fn open_entries_spec(
    file_read: Result<Seq<u8>, Seq<char>>,
    password: Seq<char>,
) -> Result<Seq<EntryRecordView>, OpenErrorView> {
    match file_read {
        Ok(bytes) => match kdbx_decode(bytes, password) {
            Some(root) => Ok(flatten_group(Seq::empty(), root)),
            None => Err(OpenErrorView::InvalidCredentials),
        },
        Err(m) => Err(OpenErrorView::Io(m)),
    }
}

/// The view of what `get_entries` returned.
pub open spec fn entries_result_view(r: Result<Vec<KeePassEntry>, OpenError>) -> Result<
    Seq<EntryRecordView>,
    OpenErrorView,
> {
    match r {
        Ok(v) => Ok(views_of(v@)),
        Err(e) => Err(e@),
    }
}

impl KeePassFile {
    /// Binds a path to the display name it is shown under.
    pub fn new(filepath: String, filename: String) -> (f: KeePassFile)
        ensures
            f.filepath == filepath,
            f.filename == filename,
    {
        KeePassFile { filepath, filename }
    }

    /// Opens one database: takes the outcome of reading this file's bytes,
    /// hands the bytes and the master password to the decoder, and returns
    /// the flattened records of the decoded tree, all or nothing. A read
    /// failure surfaces as `Io`; a rejected password or unparseable content
    /// as `InvalidCredentials`; nothing is retried, cached or swallowed.
    pub fn get_entries(&self, file_read: Result<Vec<u8>, String>, master_password: &str) -> (r:
        Result<Vec<KeePassEntry>, OpenError>)
        ensures
            entries_result_view(r) == open_entries_spec(
                file_read_view(file_read),
                master_password@,
            ),
    {
        match file_read {
            Ok(bytes) => match decode_database(&bytes, master_password) {
                Ok(root) => {
                    let records = find_entries("", &root);
                    proof {
                        reveal_strlit("");
                        assert(""@ =~= Seq::<char>::empty());
                    }
                    Ok(records)
                },
                Err(m) => Err(OpenError::InvalidCredentials(m)),
            },
            Err(m) => Err(OpenError::Io(m)),
        }
    }
}

/// Opening the same file contents twice with the same password yields the
/// same outcome: decoding is deterministic and side-effect-free, so two
/// successful openings return equal record lists, and two failing ones
/// fail in the same way.
pub proof fn lemma_open_entries_deterministic(
    file_read: Result<Seq<u8>, Seq<char>>,
    password: Seq<char>,
    r1: Result<Seq<EntryRecordView>, OpenErrorView>,
    r2: Result<Seq<EntryRecordView>, OpenErrorView>,
)
    requires
        r1 == open_entries_spec(file_read, password),
        r2 == open_entries_spec(file_read, password),
    ensures
        r1 == r2,
{
}

/// A missing or unreadable file stays distinguishable from a rejected
/// password: a read failure opens as `Io` and carries the reader's
/// diagnostic, while readable bytes the decoder rejects open as
/// `InvalidCredentials`, never the other way round.
pub proof fn lemma_failure_kinds_distinct(
    file_read: Result<Seq<u8>, Seq<char>>,
    password: Seq<char>,
)
    ensures
        file_read matches Err(m) ==> open_entries_spec(file_read, password) == Result::<
            Seq<EntryRecordView>,
            OpenErrorView,
        >::Err(OpenErrorView::Io(m)),
        (file_read matches Ok(bytes) && kdbx_decode(bytes, password) is None)
            ==> open_entries_spec(file_read, password) == Result::<
            Seq<EntryRecordView>,
            OpenErrorView,
        >::Err(OpenErrorView::InvalidCredentials),
{
}

} // verus!
