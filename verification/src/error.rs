//! The program's own errors and the codes the runtime reports them under.
use solana_program::program_error::ProgramError;
use vstd::prelude::*;
use vstd::std_specs::convert::FromSpecImpl;

verus! {

/// The runtime's error type, `solana_program::program_error::ProgramError`,
/// made known to Verus so that contracts can name its variants. Nothing is
/// claimed of it here: Verus reads the variants from the crate itself.
#[verifier::external_type_specification]
pub struct ExProgramError(solana_program::program_error::ProgramError);

/// What the program itself can refuse a request for.
#[allow(non_camel_case_types)]
#[derive(Debug, Copy, Clone, PartialEq, Eq)]
pub enum SB_Error {
    SignatureMissing,
    ExpectedAccount,
    ExpectedMint,
    MathOverflow,
    OverFlow,
}

impl SB_Error {
    /// The number the runtime reports this error under.
    pub open spec fn spec_code(self) -> u32 {
        match self {
            SB_Error::SignatureMissing => 0,
            SB_Error::ExpectedAccount => 1,
            SB_Error::ExpectedMint => 2,
            SB_Error::MathOverflow => 3,
            SB_Error::OverFlow => 4,
        }
    }

    /// The number the runtime reports this error under.
    #[verifier::when_used_as_spec(spec_code)]
    pub fn code(self) -> (c: u32)
        ensures
            c == self.spec_code(),
    {
        match self {
            SB_Error::SignatureMissing => 0,
            SB_Error::ExpectedAccount => 1,
            SB_Error::ExpectedMint => 2,
            SB_Error::MathOverflow => 3,
            SB_Error::OverFlow => 4,
        }
    }

    /// The text this error is shown as.
    pub open spec fn message(self) -> Seq<char> {
        match self {
            SB_Error::SignatureMissing => "SignatureMissing"@,
            SB_Error::ExpectedAccount => "ExpectedAccount"@,
            SB_Error::ExpectedMint => "ExpectedMint"@,
            SB_Error::MathOverflow => "MathOverflow"@,
            SB_Error::OverFlow => "OverFlow"@,
        }
    }

    /// The text this error is shown as.
    pub fn to_string(&self) -> (s: String)
        ensures
            s@ == self.message(),
    {
        match self {
            SB_Error::SignatureMissing => "SignatureMissing".to_owned(),
            SB_Error::ExpectedAccount => "ExpectedAccount".to_owned(),
            SB_Error::ExpectedMint => "ExpectedMint".to_owned(),
            SB_Error::MathOverflow => "MathOverflow".to_owned(),
            SB_Error::OverFlow => "OverFlow".to_owned(),
        }
    }
}

/// No two errors share a code.
pub proof fn lemma_code_injective(a: SB_Error, b: SB_Error)
    requires
        a.spec_code() == b.spec_code(),
    ensures
        a == b,
{
}

impl From<SB_Error> for ProgramError {
    /// A program error reaches the runtime as a custom error with its code.
    fn from(e: SB_Error) -> (r: ProgramError) {
        ProgramError::Custom(e.code())
    }
}

impl FromSpecImpl<SB_Error> for ProgramError {
    open spec fn obeys_from_spec() -> bool {
        true
    }

    open spec fn from_spec(e: SB_Error) -> ProgramError {
        ProgramError::Custom(e.spec_code())
    }
}

} // verus!
