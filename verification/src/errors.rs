use vstd::prelude::*;

verus! {

/// Why opening a database failed.
///
/// The two kinds stay distinct so that a caller can present a read failure
/// (the file vanished, the directory was unreadable) differently from an
/// authentication-style failure (wrong password, or bytes that are not a
/// valid database).
#[derive(Debug)]
pub enum OpenError {
    /// The file's bytes could not be read; carries the reader's diagnostic.
    Io(String),
    /// The decoder rejected the password or the bytes; carries its diagnostic.
    InvalidCredentials(String),
}

/// The ghost shape of an [`OpenError`]. The diagnostic text attached to a
/// credential failure comes from the decoder and is not modelled.
pub ghost enum OpenErrorView {
    Io(Seq<char>),
    InvalidCredentials,
}

impl View for OpenError {
    type V = OpenErrorView;

    open spec fn view(&self) -> OpenErrorView {
        match self {
            OpenError::Io(m) => OpenErrorView::Io(m@),
            OpenError::InvalidCredentials(_) => OpenErrorView::InvalidCredentials,
        }
    }
}

impl OpenError {
    /// The diagnostic text carried by either kind of failure.
    pub fn message(&self) -> (m: &String)
        ensures
            self is Io ==> OpenErrorView::Io(m@) == self@,
    {
        match self {
            OpenError::Io(m) => m,
            OpenError::InvalidCredentials(m) => m,
        }
    }
}

} // verus!
