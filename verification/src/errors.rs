use vstd::prelude::*;

verus! {

/// The failure kinds of the pipeline. Every error is fatal to the current
/// call: the caller receives no output at all, never a partial one.
#[derive(Clone, Copy, Debug, PartialEq, Eq, Structural)]
pub enum ConvertError {
    /// The options payload could not be decoded into the expected shape.
    OptionsError,
    /// The encoded stream was unrecognized or corrupt, or a raw pixel
    /// buffer did not match its declared dimensions.
    DecodeError,
    /// The target format's writer rejected the pixel data, or the output
    /// image could not be materialized on this machine.
    EncodeError,
}

impl ConvertError {
    /// The human-readable message for this error kind.
    pub open spec fn spec_message(self) -> Seq<char> {
        match self {
            ConvertError::OptionsError => "malformed options payload"@,
            ConvertError::DecodeError => "could not decode the input image"@,
            ConvertError::EncodeError => "could not encode the output image"@,
        }
    }

    /// A short description of the error, for diagnostics at the call boundary.
    pub fn message(&self) -> (m: &'static str)
        ensures
            m@ == self.spec_message(),
    {
        match self {
            ConvertError::OptionsError => "malformed options payload",
            ConvertError::DecodeError => "could not decode the input image",
            ConvertError::EncodeError => "could not encode the output image",
        }
    }
}

} // verus!
