use audiohal::portaudio::PaSampleFormat;
use audiohal::Error;
use audiohal::Format;

fn all_formats() -> Vec<Format> {
    vec![
        Format::F32,
        Format::I32,
        Format::I24,
        Format::I16,
        Format::I8,
        Format::U8,
    ]
}

#[test]
fn every_format_converts_to_its_native_constant() {
    assert_eq!(PaSampleFormat::try_from(Format::F32), Ok(PaSampleFormat::paFloat32));
    assert_eq!(PaSampleFormat::try_from(Format::I32), Ok(PaSampleFormat::paInt32));
    assert_eq!(PaSampleFormat::try_from(Format::I24), Ok(PaSampleFormat::paInt24));
    assert_eq!(PaSampleFormat::try_from(Format::I16), Ok(PaSampleFormat::paInt16));
    assert_eq!(PaSampleFormat::try_from(Format::I8), Ok(PaSampleFormat::paInt8));
    assert_eq!(PaSampleFormat::try_from(Format::U8), Ok(PaSampleFormat::paUInt8));
}

#[test]
fn conversion_does_not_hand_one_constant_for_all() {
    assert_ne!(PaSampleFormat::try_from(Format::I16), Ok(PaSampleFormat::paFloat32));
    assert_ne!(PaSampleFormat::try_from(Format::F32), Ok(PaSampleFormat::paInt16));
    assert_ne!(PaSampleFormat::try_from(Format::U8), Ok(PaSampleFormat::paInt8));
}

#[test]
fn no_format_is_refused() {
    for format in all_formats() {
        assert!(PaSampleFormat::try_from(format).is_ok());
    }
}

#[test]
fn distinct_formats_have_distinct_native_constants() {
    let formats = all_formats();
    for (i, a) in formats.iter().enumerate() {
        for (j, b) in formats.iter().enumerate() {
            let same = PaSampleFormat::try_from(*a) == PaSampleFormat::try_from(*b);
            assert_eq!(same, i == j);
        }
    }
}

#[test]
fn try_into_agrees_with_try_from() {
    let native: Result<PaSampleFormat, Error> = Format::I24.try_into();
    assert_eq!(native, Ok(PaSampleFormat::paInt24));
}

#[test]
fn incompatible_format_error_names_the_format() {
    let error = Error::IncompatibleFormat(Format::I24);
    assert_eq!(error, Error::IncompatibleFormat(Format::I24));
    assert_ne!(error, Error::IncompatibleFormat(Format::I16));
    assert!(matches!(error, Error::IncompatibleFormat(Format::I24)));
}
