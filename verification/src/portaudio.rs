use crate::error::Error;
use crate::stream_options::Format;
use vstd::prelude::*;

verus! {

/// A sample encoding under the name that the native host gives it.
///
/// The variants carry the names of the host's own constants, so that the
/// code that talks to the host can hand each on as it is.
#[allow(non_camel_case_types)]
#[derive(Debug, Clone, Copy, PartialEq, Eq, Structural)]
pub enum PaSampleFormat {
    /// 32-bit floating point.
    paFloat32,
    /// 32-bit signed integer.
    paInt32,
    /// 24-bit signed integer, packed.
    paInt24,
    /// 16-bit signed integer.
    paInt16,
    /// 8-bit signed integer.
    paInt8,
    /// 8-bit unsigned integer.
    paUInt8,
}

/// The native constant for a format, where the host has one.
pub open spec fn native_format(format: Format) -> Option<PaSampleFormat> {
    match format {
        Format::F32 => Some(PaSampleFormat::paFloat32),
        Format::I32 => Some(PaSampleFormat::paInt32),
        Format::I24 => Some(PaSampleFormat::paInt24),
        Format::I16 => Some(PaSampleFormat::paInt16),
        Format::I8 => Some(PaSampleFormat::paInt8),
        Format::U8 => Some(PaSampleFormat::paUInt8),
    }
}

impl TryFrom<Format> for PaSampleFormat {
    type Error = Error;

    /// The native constant for `format`. A format without one is refused and
    /// handed back in the error; no other constant takes its place.
    #[allow(unreachable_patterns)]
    fn try_from(format: Format) -> (native: Result<PaSampleFormat, Error>)
        ensures
            native_format(format) matches Some(constant) ==> native == Ok::<PaSampleFormat, Error>(
                constant,
            ),
            native_format(format) is None ==> native == Err::<PaSampleFormat, Error>(
                Error::IncompatibleFormat(format),
            ),
    {
        Ok(
            match format {
                Format::F32 => PaSampleFormat::paFloat32,
                Format::I32 => PaSampleFormat::paInt32,
                Format::I24 => PaSampleFormat::paInt24,
                Format::I16 => PaSampleFormat::paInt16,
                Format::I8 => PaSampleFormat::paInt8,
                Format::U8 => PaSampleFormat::paUInt8,
                _ => return Err(Error::IncompatibleFormat(format)),
            },
        )
    }
}

impl vstd::std_specs::convert::TryFromSpecImpl<Format> for PaSampleFormat {
    open spec fn obeys_try_from_spec() -> bool {
        true
    }

    open spec fn try_from_spec(format: Format) -> Result<PaSampleFormat, Error> {
        match native_format(format) {
            Some(native) => Ok(native),
            None => Err(Error::IncompatibleFormat(format)),
        }
    }
}

/// Every format has a native constant, so the conversion of a format never
/// fails.
pub proof fn every_format_is_native(format: Format)
    ensures
        native_format(format) is Some,
        <PaSampleFormat as vstd::std_specs::convert::TryFromSpec<Format>>::try_from_spec(format)
            == Ok::<PaSampleFormat, Error>(native_format(format)->0),
{
}

/// No two formats share a native constant.
pub proof fn native_format_is_one_to_one(a: Format, b: Format)
    requires
        native_format(a) == native_format(b),
    ensures
        a == b,
{
}

/// Every native constant stands for a format.
pub proof fn every_native_constant_is_used(native: PaSampleFormat)
    ensures
        exists|format: Format| native_format(format) == Some(native),
{
    match native {
        PaSampleFormat::paFloat32 => assert(native_format(Format::F32) == Some(native)),
        PaSampleFormat::paInt32 => assert(native_format(Format::I32) == Some(native)),
        PaSampleFormat::paInt24 => assert(native_format(Format::I24) == Some(native)),
        PaSampleFormat::paInt16 => assert(native_format(Format::I16) == Some(native)),
        PaSampleFormat::paInt8 => assert(native_format(Format::I8) == Some(native)),
        PaSampleFormat::paUInt8 => assert(native_format(Format::U8) == Some(native)),
    }
}

} // verus!
