//! Errors met while loading resource files, and the check on their contents.
use vstd::prelude::*;

verus! {

/// Declares std's `io::Error` as an opaque type, only so that a load error
/// can carry it; nothing is assumed of its contents.
#[verifier::external_type_specification]
#[verifier::external_body]
pub struct ExIoError(std::io::Error);

/// Declares std's `string::FromUtf8Error` as an opaque type, only so that a
/// load error can carry it; nothing is assumed of its contents.
#[verifier::external_type_specification]
#[verifier::external_body]
pub struct ExFromUtf8Error(std::string::FromUtf8Error);

/// Why a resource could not be loaded.
#[derive(Debug)]
pub enum Error {
    Io(std::io::Error),
    FileContainsNil,
    FailedToGetExePath,
    TooLong,
    Utf8Encoding(std::string::FromUtf8Error),
}

/// Accepts file contents meant as text only when they hold no zero byte.
pub fn check_no_nul(buffer: &Vec<u8>) -> (r: Result<(), Error>)
    ensures
        r is Ok <==> !buffer@.contains(0u8),
        r is Err ==> r->Err_0 is FileContainsNil,
{
    let mut i: usize = 0;
    while i < buffer.len()
        invariant
            i <= buffer@.len(),
            forall|j: int| 0 <= j < i ==> buffer@[j] != 0u8,
        decreases buffer@.len() - i,
    {
        if buffer[i] == 0 {
            assert(buffer@[i as int] == 0u8);
            return Err(Error::FileContainsNil);
        }
        i = i + 1;
    }
    Ok(())
}

} // verus!
