use vstd::prelude::*;

verus! {

/// The error type of the crate.
#[derive(Debug)]
pub enum Error {
    /// Invalid 7z signature found in the file header.
    BadSignature([u8; 6]),
    /// Unsupported 7z format version.
    UnsupportedVersion {
        /// Major version number.
        major: u8,
        /// Minor version number.
        minor: u8,
    },
    /// Checksum verification failed during decompression.
    ChecksumVerificationFailed,
    /// Next header CRC mismatch.
    NextHeaderCrcMismatch,
    /// IO error with optional context message.
    Io(String, String),
    /// Error opening a file.
    FileOpen(String, String),
    /// Other error with description.
    Other(String),
    /// Bad terminated streams info.
    BadTerminatedStreamsInfo(u8),
    /// Bad terminated unpack info.
    BadTerminatedUnpackInfo,
    /// Bad terminated pack info.
    BadTerminatedPackInfo(u8),
    /// Bad terminated sub streams info.
    BadTerminatedSubStreamsInfo,
    /// Bad terminated header.
    BadTerminatedHeader(u8),
    /// External compression method not supported.
    ExternalUnsupported,
    /// Unsupported compression method.
    UnsupportedCompressionMethod(String),
    /// Memory limit exceeded.
    MaxMemLimited {
        /// Maximum allowed memory in KB.
        max_kb: usize,
        /// Actual required memory in KB.
        actaul_kb: usize,
    },
    /// Password required for an encrypted archive.
    PasswordRequired,
    /// Feature or operation not supported.
    Unsupported(String),
    /// Possibly bad password for encrypted content.
    MaybeBadPassword(String),
    /// File not found.
    FileNotFound,
}

impl Error {
    /// Builds an [`Error::Other`] with the given description.
    pub fn other(s: String) -> (r: Error)
        ensures
            r == Error::Other(s),
    {
        Error::Other(s)
    }

    /// Builds an [`Error::Unsupported`] with the given description.
    pub fn unsupported(s: String) -> (r: Error)
        ensures
            r == Error::Unsupported(s),
    {
        Error::Unsupported(s)
    }

    /// Builds an [`Error::Io`] without a context message.
    pub fn io(e: String) -> (r: Error)
        ensures
            (r matches Error::Io(m, c) && m == e && c@.len() == 0),
    {
        Error::io_msg(e, String::new())
    }

    /// Builds an [`Error::Io`] with a context message.
    pub fn io_msg(e: String, msg: String) -> (r: Error)
        ensures
            r == Error::Io(e, msg),
    {
        Error::Io(e, msg)
    }

    /// Tags an IO failure as [`Error::MaybeBadPassword`] when the stream was
    /// encrypted, and as a plain [`Error::Io`] otherwise.
    pub fn bad_password(e: String, encryped: bool) -> (r: Error)
        ensures
            encryped ==> r == Error::MaybeBadPassword(e),
            !encryped ==> (r matches Error::Io(m, c) && m == e && c@.len() == 0),
    {
        if encryped {
            Error::MaybeBadPassword(e)
        } else {
            Error::io(e)
        }
    }

    /// Builds an [`Error::FileOpen`] for the named file.
    pub fn file_open(e: String, filename: String) -> (r: Error)
        ensures
            r == Error::FileOpen(e, filename),
    {
        Error::FileOpen(e, filename)
    }

    /// Re-tags an IO error without context as [`Error::MaybeBadPassword`]
    /// when the data came from an encrypted stream.
    pub fn maybe_bad_password(self, encryped: bool) -> (r: Error)
        ensures
            !encryped ==> r == self,
    {
        if !encryped {
            return self;
        }
        match self {
            Error::Io(e, s) => {
                if s.as_str().unicode_len() == 0 {
                    Error::MaybeBadPassword(e)
                } else {
                    Error::Io(e, s)
                }
            },
            other_err => other_err,
        }
    }
}

} // verus!
