//! The live connection to the native subsystem.
//!
//! A session owns one complete function table and the handle of the
//! loaded module, and at most one session is live in a process at a time.
//! Its methods marshal each public operation into the exact values the
//! corresponding native entry point takes; the native call itself is made
//! outside the library and answers with a bare boolean, which is
//! translated back into a named error exactly once, here.

use vstd::prelude::*;

use crate::binder::FunctionTable;
use crate::binder::Handle;
use crate::color::PercentColor;
use crate::duration::encode_duration;
use crate::duration::spec_duration_millis;
use crate::errors::Error;
use crate::keys::DeviceType;
use crate::keys::Key;
use crate::wide::label_to_wchar;
use crate::wide::spec_label_buffer;
use crate::wide::spec_nul_index;
use crate::wide::spec_utf16_units;
use crate::wide::spec_utf16_valid;
use crate::wide::str_to_wchar;
use crate::wide::LABEL_LEN;

verus! {

/// Key columns of the bitmap lighting buffer.
pub const BITMAP_WIDTH: usize = 21;

/// Key rows of the bitmap lighting buffer.
pub const BITMAP_HEIGHT: usize = 6;

/// Bytes per key in the bitmap lighting buffer: one packed
/// blue-green-red-alpha pixel.
pub const BITMAP_BYTES_PER_KEY: usize = 4;

/// The exact byte length of a bitmap lighting buffer.
pub const BITMAP_SIZE: usize = 21 * 6 * 4;

/// The process-wide singleton flag: true while a session is live.
///
/// An open checks and sets it in one step; closing the session clears it.
pub struct SessionFlag {
    live: bool,
}

/// The flag transition of an open attempt: the flag after the attempt,
/// and whether the attempt was accepted.
pub open spec fn spec_acquire(live: bool) -> (bool, bool) {
    if live {
        (true, false)
    } else {
        (true, true)
    }
}

impl SessionFlag {
    /// Whether a session is live.
    pub closed spec fn spec_live(self) -> bool {
        self.live
    }

    /// The flag of a process in which no session has been opened.
    pub fn new() -> (f: SessionFlag)
        ensures
            !f.spec_live(),
    {
        SessionFlag { live: false }
    }

    /// Claim the flag for a new session.  Rejected with
    /// [`Error::AlreadyInitialized`] exactly when a session is already
    /// live; the rejection changes nothing.
    pub fn try_acquire(&mut self) -> (r: Result<(), Error>)
        ensures
            final (self).spec_live() == spec_acquire(old(self).spec_live()).0,
            (r is Ok) == spec_acquire(old(self).spec_live()).1,
            r matches Err(e) ==> e is AlreadyInitialized,
    {
        if self.live {
            Err(Error::AlreadyInitialized)
        } else {
            self.live = true;
            Ok(())
        }
    }

    /// Clear the flag when its session closes.
    pub fn release(&mut self)
        ensures
            !final (self).spec_live(),
    {
        self.live = false;
    }
}

/// Law: the session is a singleton — an accepted open leaves the flag
/// live, and any open attempted on a live flag is rejected, so two
/// sessions cannot be live without a release between their opens.
pub proof fn lemma_session_singleton(live: bool)
    ensures
        spec_acquire(live).1 ==> !live,
        !spec_acquire(spec_acquire(live).0).1,
{
}

/// The live, initialized connection to the native subsystem: one complete
/// function table and the handle that owns the loaded module.
#[derive(Debug)]
pub struct Session {
    pub table: FunctionTable,
    pub handle: Handle,
}

impl Session {
    /// The table is complete and the module is still loaded.
    pub open spec fn valid(self) -> bool {
        &&& self.table.valid()
        &&& !self.handle.spec_released()
    }

    /// Assemble the session once the module is bound and the native
    /// initialize entry point has answered.
    ///
    /// Claims the singleton flag first: a live session rejects the open
    /// with [`Error::AlreadyInitialized`] and changes nothing.  A false
    /// answer from the initialize call rolls the open back — the flag is
    /// cleared again, the handle is released for unloading, and the open
    /// fails with [`Error::Init`].
    pub fn open(flag: &mut SessionFlag, table: FunctionTable, handle: Handle, init_ok: bool) -> (r:
        Result<Session, Error>)
        requires
            table.valid(),
            !handle.spec_released(),
        ensures
            old(flag).spec_live() ==> (r matches Err(e) && e is AlreadyInitialized)
                && final (flag).spec_live(),
            !old(flag).spec_live() && init_ok ==> (r matches Ok(s) && s.valid() && s.table
                == table && s.handle == handle) && final (flag).spec_live(),
            !old(flag).spec_live() && !init_ok ==> (r matches Err(e) && e is Init)
                && !final (flag).spec_live(),
    {
        let mut handle = handle;
        match flag.try_acquire() {
            Err(e) => Err(e),
            Ok(()) => {
                if init_ok {
                    Ok(Session { table, handle })
                } else {
                    handle.release();
                    flag.release();
                    Err(Error::Init)
                }
            },
        }
    }

    /// Close the session: clear the singleton flag and release the
    /// module's handle.  Idempotent — only the first close reports that
    /// the native shutdown call and the platform unload are owed.
    pub fn close(&mut self, flag: &mut SessionFlag) -> (shutdown: bool)
        ensures
            final (self).handle.spec_released(),
            !final (flag).spec_live(),
            final (self).table == old(self).table,
            final (self).handle.spec_module() == old(self).handle.spec_module(),
            shutdown == !old(self).handle.spec_released(),
    {
        flag.release();
        self.handle.release()
    }
}

/// One fully marshaled native call: the exact values the corresponding
/// entry point takes, ready for the dispatch that makes the call.
#[derive(Debug)]
pub enum NativeCall {
    SetTargetDevice { mask: u32 },
    GetConfigOptionNumber { path: Vec<u16> },
    GetConfigOptionBool { path: Vec<u16> },
    GetConfigOptionColor { path: Vec<u16>, default: PercentColor },
    SetConfigOptionLabel { path: Vec<u16>, label: Vec<u16> },
    SetLighting { color: PercentColor },
    SaveCurrentLighting,
    RestoreLighting,
    FlashLighting { color: PercentColor, duration_ms: i32, interval_ms: i32 },
    PulseLighting { color: PercentColor, duration_ms: i32, interval_ms: i32 },
    StopEffects,
    SetLightingFromBitmap { bitmap: Vec<u8> },
    SetLightingForKey { key_code: u32, color: PercentColor },
    SaveLightingForKey { key_code: u32 },
    RestoreLightingForKey { key_code: u32 },
    ExcludeKeysFromBitmap { key_codes: Vec<u32> },
    FlashSingleKey { key_code: u32, color: PercentColor, duration_ms: i32, interval_ms: i32 },
    PulseSingleKey {
        key_code: u32,
        start: PercentColor,
        finish: PercentColor,
        duration_ms: i32,
        infinite: bool,
    },
    StopEffectsOnKey { key_code: u32 },
}

/// Whether an optional duration's millisecond count fits the native
/// range; absence always fits, as the sentinel.
pub open spec fn spec_opt_millis_ok(d: Option<(u64, u32)>) -> bool {
    d matches Some(p) ==> spec_duration_millis(p.0, p.1) <= i32::MAX as int
}

/// The native millisecond value of an optional duration: the sentinel for
/// absence, the truncated count otherwise.
pub open spec fn spec_opt_millis(d: Option<(u64, u32)>) -> int {
    match d {
        None => 0,
        Some(p) => spec_duration_millis(p.0, p.1),
    }
}

impl Session {
    /// Marshal the target-device selection: the device class becomes its
    /// native bit mask.
    pub fn set_type(&self, device_type: DeviceType) -> (c: NativeCall)
        requires
            self.valid(),
        ensures
            c matches NativeCall::SetTargetDevice { mask } && mask == device_type.spec_bits(),
    {
        NativeCall::SetTargetDevice { mask: device_type.bits() }
    }

    /// Marshal a numeric configuration query: the string-keyed option
    /// path becomes a terminated wide buffer.  The default value and the
    /// native answer travel alongside the call, outside the library.
    pub fn config_option_num(&self, config_path: &str) -> (r: Result<NativeCall, Error>)
        requires
            self.valid(),
        ensures
            spec_utf16_units(config_path@).contains(0u16) ==> (r matches Err(e)
                && e is NullCharacter),
            !spec_utf16_units(config_path@).contains(0u16) ==> (r matches Ok(c)
                && c matches NativeCall::GetConfigOptionNumber { path } && path@
                == spec_utf16_units(config_path@).push(0u16)),
    {
        let path = str_to_wchar(config_path)?;
        Ok(NativeCall::GetConfigOptionNumber { path })
    }

    /// Marshal a boolean configuration query, as for the numeric one.
    pub fn config_option_bool(&self, config_path: &str) -> (r: Result<NativeCall, Error>)
        requires
            self.valid(),
        ensures
            spec_utf16_units(config_path@).contains(0u16) ==> (r matches Err(e)
                && e is NullCharacter),
            !spec_utf16_units(config_path@).contains(0u16) ==> (r matches Ok(c)
                && c matches NativeCall::GetConfigOptionBool { path } && path@
                == spec_utf16_units(config_path@).push(0u16)),
    {
        let path = str_to_wchar(config_path)?;
        Ok(NativeCall::GetConfigOptionBool { path })
    }

    /// Marshal a color configuration query: the path becomes a terminated
    /// wide buffer and the default color rides along as the percentage
    /// triplet the native layer reads and may overwrite.
    pub fn config_option_color(&self, config_path: &str, default: PercentColor) -> (r: Result<
        NativeCall,
        Error,
    >)
        requires
            self.valid(),
            default.valid(),
        ensures
            spec_utf16_units(config_path@).contains(0u16) ==> (r matches Err(e)
                && e is NullCharacter),
            !spec_utf16_units(config_path@).contains(0u16) ==> (r matches Ok(c)
                && c matches NativeCall::GetConfigOptionColor { path, default: d } && path@
                == spec_utf16_units(config_path@).push(0u16) && d == default),
    {
        let path = str_to_wchar(config_path)?;
        Ok(NativeCall::GetConfigOptionColor { path, default })
    }

    /// Marshal a label assignment: the option path becomes a terminated
    /// wide buffer and the label a terminated buffer padded out to
    /// [`LABEL_LEN`] units, since the native layer may write its current
    /// label back into it.
    pub fn config_option_label(&self, config_path: &str, label: &str) -> (r: Result<
        NativeCall,
        Error,
    >)
        requires
            self.valid(),
        ensures
            spec_utf16_units(config_path@).contains(0u16) || spec_utf16_units(label@).contains(
                0u16,
            ) ==> (r matches Err(e) && e is NullCharacter),
            !spec_utf16_units(config_path@).contains(0u16) && !spec_utf16_units(label@).contains(
                0u16,
            ) ==> (r matches Ok(c) && c matches NativeCall::SetConfigOptionLabel {
                path,
                label: l,
            } && path@ == spec_utf16_units(config_path@).push(0u16) && l@ == spec_label_buffer(
                spec_utf16_units(label@),
            )),
    {
        let path = str_to_wchar(config_path)?;
        let label = label_to_wchar(label)?;
        Ok(NativeCall::SetConfigOptionLabel { path, label })
    }

    /// Marshal the global lighting set: the color as its percentage
    /// triplet.
    pub fn set_lighting(&self, color: PercentColor) -> (c: NativeCall)
        requires
            self.valid(),
            color.valid(),
        ensures
            c matches NativeCall::SetLighting { color: col } && col == color,
    {
        NativeCall::SetLighting { color }
    }

    /// The parameterless save of the current lighting.
    pub fn save_lighting(&self) -> (c: NativeCall)
        requires
            self.valid(),
        ensures
            c is SaveCurrentLighting,
    {
        NativeCall::SaveCurrentLighting
    }

    /// The parameterless restore of the saved lighting.
    pub fn restore_lighting(&self) -> (c: NativeCall)
        requires
            self.valid(),
        ensures
            c is RestoreLighting,
    {
        NativeCall::RestoreLighting
    }

    /// Marshal the global flash effect: color as percentages, durations
    /// as native milliseconds with the sentinel for "forever".  Fails
    /// with [`Error::DurationOverflow`] exactly when either duration's
    /// millisecond count leaves the native range.
    pub fn flash_lighting(
        &self,
        color: PercentColor,
        duration: Option<(u64, u32)>,
        interval: (u64, u32),
    ) -> (r: Result<NativeCall, Error>)
        requires
            self.valid(),
            color.valid(),
            duration matches Some(p) ==> p.1 < 1_000_000_000,
            interval.1 < 1_000_000_000,
        ensures
            !spec_opt_millis_ok(duration) || spec_duration_millis(interval.0, interval.1)
                > i32::MAX as int ==> (r matches Err(e) && e is DurationOverflow),
            spec_opt_millis_ok(duration) && spec_duration_millis(interval.0, interval.1)
                <= i32::MAX as int ==> (r matches Ok(c) && c matches NativeCall::FlashLighting {
                color: col,
                duration_ms,
                interval_ms,
            } && col == color && duration_ms == spec_opt_millis(duration) && interval_ms
                == spec_duration_millis(interval.0, interval.1)),
    {
        let duration_ms = encode_duration(duration)?;
        let interval_ms = encode_duration(Some(interval))?;
        Ok(NativeCall::FlashLighting { color, duration_ms, interval_ms })
    }

    /// Marshal the global pulse effect, as for the flash effect.
    pub fn pulse_lighting(
        &self,
        color: PercentColor,
        duration: Option<(u64, u32)>,
        interval: (u64, u32),
    ) -> (r: Result<NativeCall, Error>)
        requires
            self.valid(),
            color.valid(),
            duration matches Some(p) ==> p.1 < 1_000_000_000,
            interval.1 < 1_000_000_000,
        ensures
            !spec_opt_millis_ok(duration) || spec_duration_millis(interval.0, interval.1)
                > i32::MAX as int ==> (r matches Err(e) && e is DurationOverflow),
            spec_opt_millis_ok(duration) && spec_duration_millis(interval.0, interval.1)
                <= i32::MAX as int ==> (r matches Ok(c) && c matches NativeCall::PulseLighting {
                color: col,
                duration_ms,
                interval_ms,
            } && col == color && duration_ms == spec_opt_millis(duration) && interval_ms
                == spec_duration_millis(interval.0, interval.1)),
    {
        let duration_ms = encode_duration(duration)?;
        let interval_ms = encode_duration(Some(interval))?;
        Ok(NativeCall::PulseLighting { color, duration_ms, interval_ms })
    }

    /// The parameterless stop of all running effects.
    pub fn stop_effects(&self) -> (c: NativeCall)
        requires
            self.valid(),
        ensures
            c is StopEffects,
    {
        NativeCall::StopEffects
    }

    /// Marshal the bitmap lighting set.  A buffer of any length other
    /// than exactly [`BITMAP_SIZE`] is rejected with
    /// [`Error::BitmapSize`] before any native call exists.
    pub fn set_lighting_from_bitmap(&self, bitmap: &[u8]) -> (r: Result<NativeCall, Error>)
        requires
            self.valid(),
        ensures
            bitmap@.len() != BITMAP_SIZE ==> (r matches Err(e) && e is BitmapSize),
            bitmap@.len() == BITMAP_SIZE ==> (r matches Ok(c)
                && c matches NativeCall::SetLightingFromBitmap { bitmap: b } && b@ == bitmap@),
    {
        if bitmap.len() != BITMAP_SIZE {
            return Err(Error::BitmapSize);
        }
        Ok(NativeCall::SetLightingFromBitmap { bitmap: vstd::slice::slice_to_vec(bitmap) })
    }

    /// Marshal a single-key lighting set: the key as its scan code, the
    /// color as percentages.
    pub fn set_lighting_for_key(&self, key: Key, color: PercentColor) -> (c: NativeCall)
        requires
            self.valid(),
            color.valid(),
        ensures
            c matches NativeCall::SetLightingForKey { key_code, color: col } && key_code
                == key.spec_code() && col == color,
    {
        NativeCall::SetLightingForKey { key_code: key.code(), color }
    }

    /// Marshal the per-key lighting save.
    pub fn save_lighting_for_key(&self, key: Key) -> (c: NativeCall)
        requires
            self.valid(),
        ensures
            c matches NativeCall::SaveLightingForKey { key_code } && key_code == key.spec_code(),
    {
        NativeCall::SaveLightingForKey { key_code: key.code() }
    }

    /// Marshal the per-key lighting restore.  The call contract is
    /// forwarded as it stands; whether the native layer visibly restores
    /// is the vendor's behavior, not this library's.
    pub fn restore_lighting_for_key(&self, key: Key) -> (c: NativeCall)
        requires
            self.valid(),
        ensures
            c matches NativeCall::RestoreLightingForKey { key_code } && key_code
                == key.spec_code(),
    {
        NativeCall::RestoreLightingForKey { key_code: key.code() }
    }

    /// Marshal the bitmap exclusion list: each key as its scan code, in
    /// the given order.
    pub fn exclude_keys_from_bitmap(&self, keys: &[Key]) -> (c: NativeCall)
        requires
            self.valid(),
        ensures
            c matches NativeCall::ExcludeKeysFromBitmap { key_codes } && key_codes@.len()
                == keys@.len() && (forall|i: int|
                0 <= i < keys@.len() ==> key_codes@[i] == keys@[i].spec_code()),
    {
        let mut key_codes: Vec<u32> = Vec::new();
        let mut i: usize = 0;
        while i < keys.len()
            invariant
                i <= keys@.len(),
                key_codes@.len() == i,
                forall|j: int| 0 <= j < i ==> key_codes@[j] == keys@[j].spec_code(),
            decreases keys@.len() - i,
        {
            key_codes.push(keys[i].code());
            i = i + 1;
        }
        NativeCall::ExcludeKeysFromBitmap { key_codes }
    }

    /// Marshal the single-key flash effect, as for the global one.
    pub fn flash_single_key(
        &self,
        key: Key,
        color: PercentColor,
        duration: Option<(u64, u32)>,
        interval: (u64, u32),
    ) -> (r: Result<NativeCall, Error>)
        requires
            self.valid(),
            color.valid(),
            duration matches Some(p) ==> p.1 < 1_000_000_000,
            interval.1 < 1_000_000_000,
        ensures
            !spec_opt_millis_ok(duration) || spec_duration_millis(interval.0, interval.1)
                > i32::MAX as int ==> (r matches Err(e) && e is DurationOverflow),
            spec_opt_millis_ok(duration) && spec_duration_millis(interval.0, interval.1)
                <= i32::MAX as int ==> (r matches Ok(c) && c matches NativeCall::FlashSingleKey {
                key_code,
                color: col,
                duration_ms,
                interval_ms,
            } && key_code == key.spec_code() && col == color && duration_ms == spec_opt_millis(
                duration,
            ) && interval_ms == spec_duration_millis(interval.0, interval.1)),
    {
        let duration_ms = encode_duration(duration)?;
        let interval_ms = encode_duration(Some(interval))?;
        Ok(NativeCall::FlashSingleKey { key_code: key.code(), color, duration_ms, interval_ms })
    }

    /// Marshal the single-key pulse effect: two percentage triplets, the
    /// optional duration, and the native "is infinite" flag.
    pub fn pulse_single_key(
        &self,
        key: Key,
        start: PercentColor,
        finish: PercentColor,
        duration: Option<(u64, u32)>,
        infinite: bool,
    ) -> (r: Result<NativeCall, Error>)
        requires
            self.valid(),
            start.valid(),
            finish.valid(),
            duration matches Some(p) ==> p.1 < 1_000_000_000,
        ensures
            !spec_opt_millis_ok(duration) ==> (r matches Err(e) && e is DurationOverflow),
            spec_opt_millis_ok(duration) ==> (r matches Ok(c)
                && c matches NativeCall::PulseSingleKey {
                key_code,
                start: s,
                finish: f,
                duration_ms,
                infinite: inf,
            } && key_code == key.spec_code() && s == start && f == finish && duration_ms
                == spec_opt_millis(duration) && inf == infinite),
    {
        let duration_ms = encode_duration(duration)?;
        Ok(
            NativeCall::PulseSingleKey {
                key_code: key.code(),
                start,
                finish,
                duration_ms,
                infinite,
            },
        )
    }

    /// Marshal the single-key stop of running effects.
    pub fn stop_effects_on_key(&self, key: Key) -> (c: NativeCall)
        requires
            self.valid(),
        ensures
            c matches NativeCall::StopEffectsOnKey { key_code } && key_code == key.spec_code(),
    {
        NativeCall::StopEffectsOnKey { key_code: key.code() }
    }
}

/// The operations the facade issues through the function table; each is a
/// boolean-returning native call, named for its error translation.
#[derive(Clone, Copy, Debug, PartialEq, Eq, Structural)]
pub enum Op {
    SetTargetDevice,
    GetConfigOptionNumber,
    GetConfigOptionBool,
    GetConfigOptionColor,
    SetConfigOptionLabel,
    SetLighting,
    SaveCurrentLighting,
    RestoreLighting,
    FlashLighting,
    PulseLighting,
    StopEffects,
    SetLightingFromBitmap,
    SetLightingForKeyWithKeyName,
    SaveLightingForKey,
    RestoreLightingForKey,
    ExcludeKeysFromBitmap,
    FlashSingleKey,
    PulseSingleKey,
    StopEffectsOnKey,
}

/// The named failure of each operation.
pub open spec fn spec_error_for(op: Op) -> Error {
    match op {
        Op::SetTargetDevice => Error::SetTargetDevice,
        Op::GetConfigOptionNumber => Error::GetConfigOptionNumber,
        Op::GetConfigOptionBool => Error::GetConfigOptionBool,
        Op::GetConfigOptionColor => Error::GetConfigOptionColor,
        Op::SetConfigOptionLabel => Error::SetConfigOptionLabel,
        Op::SetLighting => Error::SetLighting,
        Op::SaveCurrentLighting => Error::SaveCurrentLighting,
        Op::RestoreLighting => Error::RestoreLighting,
        Op::FlashLighting => Error::FlashLighting,
        Op::PulseLighting => Error::PulseLighting,
        Op::StopEffects => Error::StopEffects,
        Op::SetLightingFromBitmap => Error::SetLightingFromBitmap,
        Op::SetLightingForKeyWithKeyName => Error::SetLightingForKeyWithKeyName,
        Op::SaveLightingForKey => Error::SaveLightingForKey,
        Op::RestoreLightingForKey => Error::RestoreLightingForKey,
        Op::ExcludeKeysFromBitmap => Error::ExcludeKeysFromBitmap,
        Op::FlashSingleKey => Error::FlashSingleKey,
        Op::PulseSingleKey => Error::PulseSingleKey,
        Op::StopEffectsOnKey => Error::StopEffectsOnKey,
    }
}

/// Translate one native call's boolean answer, exactly once for all call
/// sites: success stays success, and a false answer becomes the
/// operation's named error.  A failed call leaves the session usable.
pub fn complete(op: Op, ok: bool) -> (r: Result<(), Error>)
    ensures
        ok <==> r is Ok,
        !ok ==> (r matches Err(e) && e == spec_error_for(op)),
{
    if ok {
        Ok(())
    } else {
        Err(
            match op {
                Op::SetTargetDevice => Error::SetTargetDevice,
                Op::GetConfigOptionNumber => Error::GetConfigOptionNumber,
                Op::GetConfigOptionBool => Error::GetConfigOptionBool,
                Op::GetConfigOptionColor => Error::GetConfigOptionColor,
                Op::SetConfigOptionLabel => Error::SetConfigOptionLabel,
                Op::SetLighting => Error::SetLighting,
                Op::SaveCurrentLighting => Error::SaveCurrentLighting,
                Op::RestoreLighting => Error::RestoreLighting,
                Op::FlashLighting => Error::FlashLighting,
                Op::PulseLighting => Error::PulseLighting,
                Op::StopEffects => Error::StopEffects,
                Op::SetLightingFromBitmap => Error::SetLightingFromBitmap,
                Op::SetLightingForKeyWithKeyName => Error::SetLightingForKeyWithKeyName,
                Op::SaveLightingForKey => Error::SaveLightingForKey,
                Op::RestoreLightingForKey => Error::RestoreLightingForKey,
                Op::ExcludeKeysFromBitmap => Error::ExcludeKeysFromBitmap,
                Op::FlashSingleKey => Error::FlashSingleKey,
                Op::PulseSingleKey => Error::PulseSingleKey,
                Op::StopEffectsOnKey => Error::StopEffectsOnKey,
            },
        )
    }
}

/// Interpret the answer of a color configuration query: a false answer is
/// the query's named failure; a true answer carries the channel values
/// the native layer wrote back, re-clamped into the percentage range.
pub fn complete_config_color(ok: bool, red: i32, green: i32, blue: i32) -> (r: Result<
    PercentColor,
    Error,
>)
    ensures
        !ok ==> (r matches Err(e) && e is GetConfigOptionColor),
        ok ==> (r matches Ok(c) && c == PercentColor {
            r: crate::color::spec_clamp_percent(red as int) as i32,
            g: crate::color::spec_clamp_percent(green as int) as i32,
            b: crate::color::spec_clamp_percent(blue as int) as i32,
        } && c.valid()),
{
    if !ok {
        return Err(Error::GetConfigOptionColor);
    }
    Ok(PercentColor::new(red, green, blue))
}

/// Interpret the answer of a label assignment: a false answer is the
/// operation's named failure; on a true answer the buffer the native
/// layer may have rewritten is scanned for its terminator and decoded, as
/// by [`crate::wide::decode_label`].
pub fn complete_label(ok: bool, buf: &Vec<u16>) -> (r: Result<String, Error>)
    requires
        buf@.len() >= LABEL_LEN,
    ensures
        !ok ==> (r matches Err(e) && e is SetConfigOptionLabel),
        ok ==> {
            &&& spec_nul_index(buf@) >= LABEL_LEN ==> (r matches Err(e) && e is NullCharacter)
            &&& spec_nul_index(buf@) < LABEL_LEN ==> {
                let prefix = buf@.take(spec_nul_index(buf@));
                &&& spec_utf16_valid(prefix) ==> (r matches Ok(s) && spec_utf16_units(s@)
                    == prefix)
                &&& !spec_utf16_valid(prefix) ==> (r matches Err(e) && e is Utf16)
            }
        },
{
    if !ok {
        return Err(Error::SetConfigOptionLabel);
    }
    crate::wide::decode_label(buf)
}

} // verus!
