use vstd::prelude::*;

verus! {

/// The kinds of glib's file-error domain (`GFileError`), which this library
/// uses to classify every native failure.
#[derive(Clone, Copy, Debug, PartialEq, Eq, Structural)]
pub enum FileError {
    Exist,
    Isdir,
    Acces,
    Nametoolong,
    Noent,
    Notdir,
    Nxio,
    Nodev,
    Rofs,
    Txtbsy,
    Fault,
    Loop,
    Nospc,
    Nomem,
    Mfile,
    Nfile,
    Badf,
    Inval,
    Pipe,
    Again,
    Intr,
    Io,
    Perm,
    Nosys,
    Failed,
}

/// The code of the last kind of the domain, `Failed`.
pub const FAILED_CODE: i32 = 24;

impl FileError {
    /// The numeric code of each kind, as the C enumeration numbers them.
    pub open spec fn spec_code(self) -> i32 {
        match self {
            FileError::Exist => 0,
            FileError::Isdir => 1,
            FileError::Acces => 2,
            FileError::Nametoolong => 3,
            FileError::Noent => 4,
            FileError::Notdir => 5,
            FileError::Nxio => 6,
            FileError::Nodev => 7,
            FileError::Rofs => 8,
            FileError::Txtbsy => 9,
            FileError::Fault => 10,
            FileError::Loop => 11,
            FileError::Nospc => 12,
            FileError::Nomem => 13,
            FileError::Mfile => 14,
            FileError::Nfile => 15,
            FileError::Badf => 16,
            FileError::Inval => 17,
            FileError::Pipe => 18,
            FileError::Again => 19,
            FileError::Intr => 20,
            FileError::Io => 21,
            FileError::Perm => 22,
            FileError::Nosys => 23,
            FileError::Failed => 24,
        }
    }

    /// The code that a raw native code is read as: a known code stands for
    /// itself, any other for `Failed`.
    pub open spec fn spec_normalized_code(code: i32) -> i32 {
        if 0 <= code <= FAILED_CODE {
            code
        } else {
            FAILED_CODE
        }
    }

    pub fn code(&self) -> (r: i32)
        ensures
            r == self.spec_code(),
    {
        match self {
            FileError::Exist => 0,
            FileError::Isdir => 1,
            FileError::Acces => 2,
            FileError::Nametoolong => 3,
            FileError::Noent => 4,
            FileError::Notdir => 5,
            FileError::Nxio => 6,
            FileError::Nodev => 7,
            FileError::Rofs => 8,
            FileError::Txtbsy => 9,
            FileError::Fault => 10,
            FileError::Loop => 11,
            FileError::Nospc => 12,
            FileError::Nomem => 13,
            FileError::Mfile => 14,
            FileError::Nfile => 15,
            FileError::Badf => 16,
            FileError::Inval => 17,
            FileError::Pipe => 18,
            FileError::Again => 19,
            FileError::Intr => 20,
            FileError::Io => 21,
            FileError::Perm => 22,
            FileError::Nosys => 23,
            FileError::Failed => 24,
        }
    }

    /// The kind that a raw native code denotes; an unknown code is `Failed`.
    pub fn from_code(code: i32) -> (r: FileError)
        ensures
            r.spec_code() == Self::spec_normalized_code(code),
    {
        match code {
            0 => FileError::Exist,
            1 => FileError::Isdir,
            2 => FileError::Acces,
            3 => FileError::Nametoolong,
            4 => FileError::Noent,
            5 => FileError::Notdir,
            6 => FileError::Nxio,
            7 => FileError::Nodev,
            8 => FileError::Rofs,
            9 => FileError::Txtbsy,
            10 => FileError::Fault,
            11 => FileError::Loop,
            12 => FileError::Nospc,
            13 => FileError::Nomem,
            14 => FileError::Mfile,
            15 => FileError::Nfile,
            16 => FileError::Badf,
            17 => FileError::Inval,
            18 => FileError::Pipe,
            19 => FileError::Again,
            20 => FileError::Intr,
            21 => FileError::Io,
            22 => FileError::Perm,
            23 => FileError::Nosys,
            _ => FileError::Failed,
        }
    }
}

/// Distinct kinds have distinct codes, so a kind is known from its code.
pub proof fn lemma_code_injective(a: FileError, b: FileError)
    ensures
        a.spec_code() == b.spec_code() <==> a == b,
{
}

/// A failure reported by the native library, classified in the file-error
/// domain, with a human-readable message.
#[derive(Clone, Debug)]
pub struct GlibError {
    pub kind: FileError,
    pub message: String,
}

impl View for GlibError {
    type V = (FileError, Seq<char>);

    open spec fn view(&self) -> (FileError, Seq<char>) {
        (self.kind, self.message@)
    }
}

/// A string meant for the native side held a zero byte at `position`;
/// `bytes` is the whole string.
#[derive(Clone, Debug)]
pub struct NulError {
    pub position: usize,
    pub bytes: Vec<u8>,
}

/// Why a document could not be opened.
#[derive(Clone, Debug)]
pub enum Error {
    /// The buffer to load from was empty.
    EmptyData,
    /// A password or path held an embedded zero byte.
    NullError(NulError),
    /// The native library, or path resolution, failed.
    GlibError(GlibError),
}

} // verus!
