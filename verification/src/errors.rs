//! The error taxonomy of the binding.
//!
//! Every fallible operation of the library returns one of these variants;
//! nothing is swallowed and nothing panics on a documented failure path.

use vstd::prelude::*;

verus! {

/// `std::io::Error` carries the operating-system detail of a failed module
/// load.  The library only stores and moves such a value; it never inspects
/// one.
#[verifier::external_type_specification]
#[verifier::external_body]
pub struct ExIoError(std::io::Error);

/// `std::string::FromUtf16Error` reports malformed UTF-16 found while
/// decoding a wide-character buffer.  The library only stores and moves
/// such a value.
#[verifier::external_type_specification]
#[verifier::external_body]
pub struct ExFromUtf16Error(std::string::FromUtf16Error);

/// Everything that can go wrong across the binding.
///
/// One variant per native operation (the native calls report failure as a
/// bare boolean, which the session layer translates exactly once), plus the
/// marshaling and lifecycle failures of the library itself.
#[derive(Debug)]
pub enum Error {
    Init,
    GetSdkVersion,
    GetConfigOptionNumber,
    GetConfigOptionBool,
    GetConfigOptionColor,
    GetConfigOptionKeyInput,
    SetConfigOptionLabel,
    SetTargetDevice,
    SaveCurrentLighting,
    SetLighting,
    RestoreLighting,
    FlashLighting,
    PulseLighting,
    StopEffects,
    SetLightingFromBitmap,
    SetLightingForKeyWithScanCode,
    SetLightingForKeyWithHidCode,
    SetLightingForKeyWithQuartzCode,
    SetLightingForKeyWithKeyName,
    SaveLightingForKey,
    RestoreLightingForKey,
    ExcludeKeysFromBitmap,
    FlashSingleKey,
    PulseSingleKey,
    StopEffectsOnKey,
    Shutdown,
    /// Unexpected NUL character in a string bound for the native layer, or
    /// no terminator found inside a bounded wide-character buffer.
    NullCharacter,
    /// A duration's millisecond count does not fit the native signed 32-bit
    /// range.
    DurationOverflow,
    /// A second session was opened while one was already live.
    AlreadyInitialized,
    /// A bitmap buffer whose length is not exactly `BITMAP_SIZE`.
    BitmapSize,
    /// The vendor module could not be loaded.
    LoadLibrary(std::io::Error),
    /// A wide-character buffer held malformed UTF-16.
    Utf16(std::string::FromUtf16Error),
}

} // verus!
