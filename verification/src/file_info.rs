//! What identifies an uploaded file.

use vstd::prelude::*;
use vstd::string::*;

verus! {

/// Identifies an uploaded file: its hash, its size and, where known, its SHA256.
#[derive(Debug)]
pub struct XetFileInfo {
    hash: String,
    file_size: u64,
    sha256: Option<String>,
}

/// The contents of an [`XetFileInfo`].
#[verifier::ext_equal]
pub struct FileInfo {
    /// The Merkle hash of the file, in hexadecimal.
    pub hash: Seq<char>,
    /// The size of the file in bytes.
    pub file_size: u64,
    /// The SHA256 hash of the file, if available.
    pub sha256: Option<Seq<char>>,
}

impl View for XetFileInfo {
    type V = FileInfo;

    closed spec fn view(&self) -> FileInfo {
        FileInfo {
            hash: self.hash@,
            file_size: self.file_size,
            sha256: match self.sha256 {
                Some(sha256) => Some(sha256@),
                None => None,
            },
        }
    }
}

impl XetFileInfo {
    /// Creates file information without a SHA256 hash.
    pub fn new(hash: String, file_size: u64) -> (info: Self)
        ensures
            info@ == (FileInfo { hash: hash@, file_size, sha256: None }),
    {
        XetFileInfo { hash, file_size, sha256: None }
    }

    /// Creates file information with a SHA256 hash.
    pub fn with_sha256(hash: String, file_size: u64, sha256: String) -> (info: Self)
        ensures
            info@ == (FileInfo { hash: hash@, file_size, sha256: Some(sha256@) }),
    {
        XetFileInfo { hash, file_size, sha256: Some(sha256) }
    }

    /// Returns the Merkle hash of the file.
    pub fn hash(&self) -> (hash: &str)
        ensures
            hash@ == self@.hash,
    {
        self.hash.as_str()
    }

    /// Returns the size of the file.
    pub fn file_size(&self) -> (size: u64)
        ensures
            size == self@.file_size,
    {
        self.file_size
    }

    /// Returns the SHA256 hash of the file, if available.
    pub fn sha256(&self) -> (sha256: Option<&str>)
        ensures
            sha256 is Some <==> self@.sha256 is Some,
            sha256 matches Some(text) ==> self@.sha256 == Some(text@),
    {
        match &self.sha256 {
            Some(sha256) => Some(sha256.as_str()),
            None => None,
        }
    }
}

impl Clone for XetFileInfo {
    fn clone(&self) -> (copy: Self)
        ensures
            copy@ == self@,
    {
        XetFileInfo {
            hash: self.hash.clone(),
            file_size: self.file_size,
            sha256: match &self.sha256 {
                Some(sha256) => Some(sha256.clone()),
                None => None,
            },
        }
    }
}

impl PartialEq for XetFileInfo {
    fn eq(&self, other: &Self) -> (equal: bool) {
        let same_sha256: bool = match (&self.sha256, &other.sha256) {
            (Some(own), Some(others)) => own.eq(others),
            (None, None) => true,
            _ => false,
        };
        self.hash.eq(&other.hash) && self.file_size == other.file_size && same_sha256
    }
}

impl vstd::std_specs::cmp::PartialEqSpecImpl for XetFileInfo {
    open spec fn obeys_eq_spec() -> bool {
        true
    }

    /// Two values are equal when their contents are.
    open spec fn eq_spec(&self, other: &Self) -> bool {
        self@ == other@
    }
}

impl Eq for XetFileInfo {

}

impl Default for XetFileInfo {
    fn default() -> (info: Self)
        ensures
            info@ == (FileInfo { hash: Seq::empty(), file_size: 0, sha256: None }),
    {
        XetFileInfo { hash: String::new(), file_size: 0, sha256: None }
    }
}

/// File information gives back what it was created with, and no SHA256 hash
/// where it was created without one.
pub proof fn law_new_gives_back(
    hash: String,
    file_size: u64,
    info: XetFileInfo,
    got_hash: &str,
    got_size: u64,
    got_sha256: Option<&str>,
)
    requires
        call_ensures(XetFileInfo::new, (hash, file_size), info),
        call_ensures(XetFileInfo::hash, (&info,), got_hash),
        call_ensures(XetFileInfo::file_size, (&info,), got_size),
        call_ensures(XetFileInfo::sha256, (&info,), got_sha256),
    ensures
        got_hash@ == hash@,
        got_size == file_size,
        got_sha256 is None,
{
}

/// File information gives back what it was created with, its SHA256 hash too.
pub proof fn law_with_sha256_gives_back(
    hash: String,
    file_size: u64,
    sha256: String,
    info: XetFileInfo,
    got_hash: &str,
    got_size: u64,
    got_sha256: Option<&str>,
)
    requires
        call_ensures(XetFileInfo::with_sha256, (hash, file_size, sha256), info),
        call_ensures(XetFileInfo::hash, (&info,), got_hash),
        call_ensures(XetFileInfo::file_size, (&info,), got_size),
        call_ensures(XetFileInfo::sha256, (&info,), got_sha256),
    ensures
        got_hash@ == hash@,
        got_size == file_size,
        got_sha256 matches Some(text) && text@ == sha256@,
{
}

/// Two values are equal exactly when their hashes, their sizes and their SHA256
/// hashes are the same; a clone is equal to its original.
pub proof fn law_equal_when_all_fields_are(
    a: XetFileInfo,
    b: XetFileInfo,
    copy: XetFileInfo,
    equal: bool,
    equal_to_copy: bool,
)
    requires
        call_ensures(XetFileInfo::eq, (&a, &b), equal),
        call_ensures(XetFileInfo::clone, (&a,), copy),
        call_ensures(XetFileInfo::eq, (&a, &copy), equal_to_copy),
    ensures
        equal <==> a@.hash == b@.hash && a@.file_size == b@.file_size && a@.sha256 == b@.sha256,
        equal_to_copy,
{
}

/// The default is without content: no hash, no bytes, no SHA256 hash.
pub proof fn law_default_is_empty(info: XetFileInfo)
    requires
        call_ensures(XetFileInfo::default, (), info),
    ensures
        info@.hash.len() == 0,
        info@.file_size == 0,
        info@.sha256 is None,
{
}

} // verus!
