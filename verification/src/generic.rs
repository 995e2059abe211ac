//! The engine's failure codes by name, for callers that keep the engine's
//! own vocabulary instead of the layer's error kinds.

use vstd::prelude::*;
use vstd::string::StringExecFns;

verus! {

/// A failure code of the engine, by name.
#[derive(Clone, Copy, Debug, PartialEq, Eq, Structural)]
pub enum GenericErrorCode {
    NoError,
    FileNotFound,
    AccessDenied,
    InvalidHandle,
    NotEnoughMemory,
    NotSupported,
    InvalidParameter,
    DiskFull,
    AlreadyExists,
    InsufficientBuffer,
    BadFormat,
    NoMoreFiles,
    HandleEof,
    CanNotComplete,
    FileCorrupt,
    AviFile,
    UnknownFileKey,
    ChecksumError,
    InternalFile,
    BaseFileMissing,
    MarkedForDelete,
    FileIncomplete,
    UnknownFileNames,
    CantFindPatchPrefix,
}

impl GenericErrorCode {
    /// The number that the engine knows the code by.
    pub open spec fn number(self) -> u32 {
        match self {
            GenericErrorCode::NoError => 0,
            GenericErrorCode::FileNotFound => 2,
            GenericErrorCode::AccessDenied => 1,
            GenericErrorCode::InvalidHandle => 9,
            GenericErrorCode::NotEnoughMemory => 12,
            GenericErrorCode::NotSupported => 95,
            GenericErrorCode::InvalidParameter => 22,
            GenericErrorCode::DiskFull => 28,
            GenericErrorCode::AlreadyExists => 17,
            GenericErrorCode::InsufficientBuffer => 105,
            GenericErrorCode::BadFormat => 1000,
            GenericErrorCode::NoMoreFiles => 1001,
            GenericErrorCode::HandleEof => 1002,
            GenericErrorCode::CanNotComplete => 1003,
            GenericErrorCode::FileCorrupt => 1004,
            GenericErrorCode::AviFile => 10000,
            GenericErrorCode::UnknownFileKey => 10001,
            GenericErrorCode::ChecksumError => 10002,
            GenericErrorCode::InternalFile => 10003,
            GenericErrorCode::BaseFileMissing => 10004,
            GenericErrorCode::MarkedForDelete => 10005,
            GenericErrorCode::FileIncomplete => 10006,
            GenericErrorCode::UnknownFileNames => 10007,
            GenericErrorCode::CantFindPatchPrefix => 10008,
        }
    }

    /// The number that the engine knows the code by.
    pub fn to_u32(&self) -> (n: u32)
        ensures
            n == self.number(),
    {
        match self {
            GenericErrorCode::NoError => 0,
            GenericErrorCode::FileNotFound => 2,
            GenericErrorCode::AccessDenied => 1,
            GenericErrorCode::InvalidHandle => 9,
            GenericErrorCode::NotEnoughMemory => 12,
            GenericErrorCode::NotSupported => 95,
            GenericErrorCode::InvalidParameter => 22,
            GenericErrorCode::DiskFull => 28,
            GenericErrorCode::AlreadyExists => 17,
            GenericErrorCode::InsufficientBuffer => 105,
            GenericErrorCode::BadFormat => 1000,
            GenericErrorCode::NoMoreFiles => 1001,
            GenericErrorCode::HandleEof => 1002,
            GenericErrorCode::CanNotComplete => 1003,
            GenericErrorCode::FileCorrupt => 1004,
            GenericErrorCode::AviFile => 10000,
            GenericErrorCode::UnknownFileKey => 10001,
            GenericErrorCode::ChecksumError => 10002,
            GenericErrorCode::InternalFile => 10003,
            GenericErrorCode::BaseFileMissing => 10004,
            GenericErrorCode::MarkedForDelete => 10005,
            GenericErrorCode::FileIncomplete => 10006,
            GenericErrorCode::UnknownFileNames => 10007,
            GenericErrorCode::CantFindPatchPrefix => 10008,
        }
    }

    /// The code that goes by the number `n`, if there is one.
    pub open spec fn named(n: u32) -> Option<GenericErrorCode> {
        match n {
            0 => Some(GenericErrorCode::NoError),
            2 => Some(GenericErrorCode::FileNotFound),
            1 => Some(GenericErrorCode::AccessDenied),
            9 => Some(GenericErrorCode::InvalidHandle),
            12 => Some(GenericErrorCode::NotEnoughMemory),
            95 => Some(GenericErrorCode::NotSupported),
            22 => Some(GenericErrorCode::InvalidParameter),
            28 => Some(GenericErrorCode::DiskFull),
            17 => Some(GenericErrorCode::AlreadyExists),
            105 => Some(GenericErrorCode::InsufficientBuffer),
            1000 => Some(GenericErrorCode::BadFormat),
            1001 => Some(GenericErrorCode::NoMoreFiles),
            1002 => Some(GenericErrorCode::HandleEof),
            1003 => Some(GenericErrorCode::CanNotComplete),
            1004 => Some(GenericErrorCode::FileCorrupt),
            10000 => Some(GenericErrorCode::AviFile),
            10001 => Some(GenericErrorCode::UnknownFileKey),
            10002 => Some(GenericErrorCode::ChecksumError),
            10003 => Some(GenericErrorCode::InternalFile),
            10004 => Some(GenericErrorCode::BaseFileMissing),
            10005 => Some(GenericErrorCode::MarkedForDelete),
            10006 => Some(GenericErrorCode::FileIncomplete),
            10007 => Some(GenericErrorCode::UnknownFileNames),
            10008 => Some(GenericErrorCode::CantFindPatchPrefix),
            _ => None,
        }
    }

    /// The code that goes by the number `n`, if there is one.
    pub fn from_u32(n: u32) -> (code: Option<GenericErrorCode>)
        ensures
            code == GenericErrorCode::named(n),
    {
        match n {
            0 => Some(GenericErrorCode::NoError),
            2 => Some(GenericErrorCode::FileNotFound),
            1 => Some(GenericErrorCode::AccessDenied),
            9 => Some(GenericErrorCode::InvalidHandle),
            12 => Some(GenericErrorCode::NotEnoughMemory),
            95 => Some(GenericErrorCode::NotSupported),
            22 => Some(GenericErrorCode::InvalidParameter),
            28 => Some(GenericErrorCode::DiskFull),
            17 => Some(GenericErrorCode::AlreadyExists),
            105 => Some(GenericErrorCode::InsufficientBuffer),
            1000 => Some(GenericErrorCode::BadFormat),
            1001 => Some(GenericErrorCode::NoMoreFiles),
            1002 => Some(GenericErrorCode::HandleEof),
            1003 => Some(GenericErrorCode::CanNotComplete),
            1004 => Some(GenericErrorCode::FileCorrupt),
            10000 => Some(GenericErrorCode::AviFile),
            10001 => Some(GenericErrorCode::UnknownFileKey),
            10002 => Some(GenericErrorCode::ChecksumError),
            10003 => Some(GenericErrorCode::InternalFile),
            10004 => Some(GenericErrorCode::BaseFileMissing),
            10005 => Some(GenericErrorCode::MarkedForDelete),
            10006 => Some(GenericErrorCode::FileIncomplete),
            10007 => Some(GenericErrorCode::UnknownFileNames),
            10008 => Some(GenericErrorCode::CantFindPatchPrefix),
            _ => None,
        }
    }
}

/// The character of one decimal digit.
pub open spec fn digit(d: nat) -> char {
    (48 + d) as char
}

/// A number written out in decimal digits, without leading zeros.
pub open spec fn decimal(n: nat) -> Seq<char>
    decreases n,
{
    if n < 10 {
        seq![digit(n)]
    } else {
        decimal(n / 10).push(digit(n % 10))
    }
}

fn digit_text(d: u32) -> (text: &'static str)
    requires
        d < 10,
    ensures
        text@ == seq![digit(d as nat)],
{
    proof {
        reveal_strlit("0");
        reveal_strlit("1");
        reveal_strlit("2");
        reveal_strlit("3");
        reveal_strlit("4");
        reveal_strlit("5");
        reveal_strlit("6");
        reveal_strlit("7");
        reveal_strlit("8");
        reveal_strlit("9");
    }
    let text = match d {
        0 => "0",
        1 => "1",
        2 => "2",
        3 => "3",
        4 => "4",
        5 => "5",
        6 => "6",
        7 => "7",
        8 => "8",
        _ => "9",
    };
    assert(text@ =~= seq![digit(d as nat)]);
    text
}

fn push_decimal(out: &mut String, n: u32)
    ensures
        final(out)@ == old(out)@ + decimal(n as nat),
    decreases n,
{
    if n >= 10 {
        push_decimal(out, n / 10);
    }
    out.append(digit_text(n % 10));
    assert(out@ =~= old(out)@ + decimal(n as nat));
}

impl GenericErrorCode {
    /// The message that [`GenericErrorCode::to_string`] gives.
    pub open spec fn message(self) -> Seq<char> {
        match self {
            GenericErrorCode::NoError => "No error"@,
            GenericErrorCode::FileNotFound => "File not found"@,
            GenericErrorCode::AccessDenied => "Access denied"@,
            _ => "Error Code: "@ + decimal(self.number() as nat),
        }
    }

    /// A message for the code: words for the three most common codes, and
    /// the code's number for the others.
    pub fn to_string(&self) -> (text: String)
        ensures
            text@ == self.message(),
    {
        match self {
            GenericErrorCode::NoError => String::from_str("No error"),
            GenericErrorCode::FileNotFound => String::from_str("File not found"),
            GenericErrorCode::AccessDenied => String::from_str("Access denied"),
            _ => {
                let mut text = String::from_str("Error Code: ");
                push_decimal(&mut text, self.to_u32());
                text
            },
        }
    }
}

/// A number names the code that goes by it and no other: reading a code's
/// number back gives the code, and a number is read as a code only where it
/// is that code's number.
pub proof fn lemma_named_inverts_number(code: GenericErrorCode, n: u32)
    ensures
        GenericErrorCode::named(code.number()) == Some(code),
        GenericErrorCode::named(n) == Some(code) <==> code.number() == n,
{
}

/// What the engine's last-error slot says.
#[derive(Clone, Copy, Debug, PartialEq, Eq, Structural)]
pub enum GenericError {
    /// No failure.
    Success,
    /// A failure the engine has a name for.
    ErrorCode(GenericErrorCode),
    /// A failure the engine has no name for, with the number as it came.
    Unknown(u32),
}

/// What the number `error_code_id` says.
pub open spec fn generic_error(error_code_id: u32) -> GenericError {
    match GenericErrorCode::named(error_code_id) {
        Some(GenericErrorCode::NoError) => GenericError::Success,
        Some(code) => GenericError::ErrorCode(code),
        None => GenericError::Unknown(error_code_id),
    }
}

/// Reads what the engine's last-error slot held, `error_code_id`: success
/// for zero, the named code where the number has a name, and the number
/// itself where it has none.
pub fn get_last_generic_error(error_code_id: u32) -> (error: GenericError)
    ensures
        error == generic_error(error_code_id),
        error is Success <==> error_code_id == 0,
{
    match GenericErrorCode::from_u32(error_code_id) {
        Some(error_code) => match error_code {
            GenericErrorCode::NoError => GenericError::Success,
            error_code => GenericError::ErrorCode(error_code),
        },
        None => GenericError::Unknown(error_code_id),
    }
}

/// Turns what the engine's last-error slot held into a result: `Ok` where
/// it held no failure, and the failure where it held one.
pub fn test_for_generic_error(error_code_id: u32) -> (r: Result<(), GenericError>)
    ensures
        r == (if error_code_id == 0 {
            Ok::<(), GenericError>(())
        } else {
            Err::<(), GenericError>(generic_error(error_code_id))
        }),
        r matches Err(e) ==> !(e is Success),
{
    let error = get_last_generic_error(error_code_id);
    match error {
        GenericError::Success => Ok(()),
        error => Err(error),
    }
}

/// The failure that a failed call left as `error_code_id`. A call that
/// failed has failed whatever it left: where it left no code at all, the
/// failure is one without a name.
pub open spec fn failure(error_code_id: u32) -> GenericError {
    if error_code_id == 0 {
        GenericError::Unknown(0)
    } else {
        generic_error(error_code_id)
    }
}

/// The failure that a failed call left as `error_code_id`.
pub fn failure_of(error_code_id: u32) -> (error: GenericError)
    ensures
        error == failure(error_code_id),
        !(error is Success),
{
    match test_for_generic_error(error_code_id) {
        Ok(_) => GenericError::Unknown(error_code_id),
        Err(error) => error,
    }
}

/// What the engine found when it checked the signature of a container.
#[derive(Clone, Copy, Debug, PartialEq, Eq, Structural)]
pub enum SignatureErrorKind {
    NoSignature,
    VerifyFailed,
    WeakSignatureOk,
    WeakSignatureError,
    StrongSignatureOk,
    StrongSignatureError,
}

impl SignatureErrorKind {
    /// The number that the engine knows the finding by.
    pub open spec fn number(self) -> u32 {
        match self {
            SignatureErrorKind::NoSignature => 0,
            SignatureErrorKind::VerifyFailed => 1,
            SignatureErrorKind::WeakSignatureOk => 2,
            SignatureErrorKind::WeakSignatureError => 3,
            SignatureErrorKind::StrongSignatureOk => 4,
            SignatureErrorKind::StrongSignatureError => 5,
        }
    }

    /// The finding that goes by the number `n`, if there is one.
    pub fn from_u32(n: u32) -> (kind: Option<SignatureErrorKind>)
        ensures
            match kind {
                Some(k) => k.number() == n,
                None => n > 5,
            },
    {
        match n {
            0 => Some(SignatureErrorKind::NoSignature),
            1 => Some(SignatureErrorKind::VerifyFailed),
            2 => Some(SignatureErrorKind::WeakSignatureOk),
            3 => Some(SignatureErrorKind::WeakSignatureError),
            4 => Some(SignatureErrorKind::StrongSignatureOk),
            5 => Some(SignatureErrorKind::StrongSignatureError),
            _ => None,
        }
    }
}

} // verus!
