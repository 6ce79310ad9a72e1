//! Files as the store describes them.

use vstd::prelude::*;

verus! {

/// What the store keeps of a file besides its bytes.
#[derive(Debug)]
pub struct FileMetadata {
    pub id: String,
    /// The user the file belongs to.
    pub userid: String,
    /// The MIME type of the bytes.
    pub filetype: String,
    /// Whether only the owner may know of the file.
    pub is_private: bool,
    /// The hash of the password that protects the file; empty where none does.
    pub password: String,
    /// How often others have read the file.
    pub views: i32,
    /// When the file was uploaded, in seconds since the Unix epoch.
    pub uploaded_at: i64,
}

/// The mathematical content of a `FileMetadata`.
pub struct FileMetadataView {
    pub id: Seq<char>,
    pub userid: Seq<char>,
    pub filetype: Seq<char>,
    pub is_private: bool,
    pub password: Seq<char>,
    pub views: int,
    pub uploaded_at: int,
}

impl View for FileMetadata {
    type V = FileMetadataView;

    open spec fn view(&self) -> FileMetadataView {
        FileMetadataView {
            id: self.id@,
            userid: self.userid@,
            filetype: self.filetype@,
            is_private: self.is_private,
            password: self.password@,
            views: self.views as int,
            uploaded_at: self.uploaded_at as int,
        }
    }
}

impl FileMetadataView {
    /// A file with a password hash is password-protected, whatever its
    /// visibility.
    pub open spec fn is_password_protected(self) -> bool {
        self.password.len() > 0
    }

    /// The file after one more read by another than its owner.
    pub open spec fn viewed_once(self) -> FileMetadataView {
        FileMetadataView { views: self.views + 1, ..self }
    }
}

impl FileMetadata {
    /// Whether a password protects the file.
    pub fn is_password_protected(&self) -> (protected: bool)
        ensures
            protected == self@.is_password_protected(),
    {
        !self.password.as_str().is_empty()
    }

    /// Counts one read. A counter that has reached the largest number the
    /// store can hold stays as it is, and `false` is returned.
    pub fn record_view(&mut self) -> (counted: bool)
        ensures
            counted == (old(self).views < i32::MAX),
            counted ==> final(self)@ == old(self)@.viewed_once(),
            !counted ==> *final(self) == *old(self),
    {
        if self.views < i32::MAX {
            self.views = self.views + 1;
            true
        } else {
            false
        }
    }
}

} // verus!
