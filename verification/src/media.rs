use vstd::prelude::*;

verus! {

/// The encodings an asset can leave the pipeline in.
#[derive(Clone, Copy, Debug, PartialEq, Eq, Structural)]
pub enum FormatTag {
    Webp,
    Png,
    Webm,
}

impl FormatTag {
    /// The file extension that belongs to this encoding, as UTF-8 bytes.
    pub open spec fn ext_spec(self) -> Seq<u8> {
        match self {
            FormatTag::Webp => seq![119u8, 101u8, 98u8, 112u8],
            FormatTag::Png => seq![112u8, 110u8, 103u8],
            FormatTag::Webm => seq![119u8, 101u8, 98u8, 109u8],
        }
    }

    pub fn extension(&self) -> (r: Vec<u8>)
        ensures
            r@ == self.ext_spec(),
    {
        match self {
            FormatTag::Webp => {
                let mut v: Vec<u8> = Vec::new();
                v.push(119);
                v.push(101);
                v.push(98);
                v.push(112);
                proof { assert(v@ =~= self.ext_spec()); }
                v
            }
            FormatTag::Png => {
                let mut v: Vec<u8> = Vec::new();
                v.push(112);
                v.push(110);
                v.push(103);
                proof { assert(v@ =~= self.ext_spec()); }
                v
            }
            FormatTag::Webm => {
                let mut v: Vec<u8> = Vec::new();
                v.push(119);
                v.push(101);
                v.push(98);
                v.push(109);
                proof { assert(v@ =~= self.ext_spec()); }
                v
            }
        }
    }
}

/// Why a request failed. Only `NotAnImage` and `TooLarge` carry user-facing
/// text of their own; the operational failures map to one generic message.
#[derive(Clone, Copy, Debug, PartialEq, Eq, Structural)]
pub enum ConversionError {
    /// The input bytes could not be decoded as any known still-image format.
    NotAnImage,
    /// The declared input size exceeds the fixed ceiling.
    TooLarge,
    /// The external transcoding process exited with a non-zero status.
    ExternalToolFailure,
    /// A download or temporary-file operation failed.
    IoFailure,
}

pub open spec fn failure_message_spec(e: ConversionError) -> Seq<char> {
    match e {
        ConversionError::NotAnImage => "File is not an image!"@,
        ConversionError::TooLarge => "File is too big."@,
        ConversionError::ExternalToolFailure => "Something went wrong."@,
        ConversionError::IoFailure => "Something went wrong."@,
    }
}

/// The one short line shown to the user for a failed request: the decode and
/// size-ceiling failures are reported verbatim, everything else generically.
pub fn failure_message(e: &ConversionError) -> (r: &'static str)
    ensures
        r@ == failure_message_spec(*e),
{
    match e {
        ConversionError::NotAnImage => "File is not an image!",
        ConversionError::TooLarge => "File is too big.",
        ConversionError::ExternalToolFailure => "Something went wrong.",
        ConversionError::IoFailure => "Something went wrong.",
    }
}

/// A finished sticker asset: the encoded bytes and the encoding actually used.
pub struct ConversionResult {
    pub bytes: Vec<u8>,
    pub tag: FormatTag,
}

impl ConversionResult {
    /// A finished asset always carries at least one byte.
    pub open spec fn wf(self) -> bool {
        self.bytes@.len() > 0
    }
}

} // verus!
