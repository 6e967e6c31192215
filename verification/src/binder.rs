//! Resolving the vendor module into a complete table of entry points.
//!
//! Loading and symbol lookup are platform calls made outside the library;
//! they hand back the module reference and the resolved addresses as plain
//! numbers, with zero for a name the module does not export.  The binder's
//! decisions live here: which source to load first and when a failed load
//! falls back to the bare module name, and the all-or-nothing rule that a
//! function table exists only when every required entry point resolved.

use vstd::prelude::*;

verus! {

/// How many entry points the vendor module must export.
pub const TABLE_LEN: usize = 25;

/// The exact exported names resolved from the vendor module, in table
/// order.
pub fn entry_point_names() -> (r: Vec<&'static str>)
    ensures
        r@.len() == TABLE_LEN,
        r@[0]@ == "LogiLedInit"@,
        r@[1]@ == "LogiGetConfigOptionNumber"@,
        r@[2]@ == "LogiGetConfigOptionBool"@,
        r@[3]@ == "LogiGetConfigOptionColor"@,
        r@[4]@ == "LogiGetConfigOptionKeyInput"@,
        r@[5]@ == "LogiSetConfigOptionLabel"@,
        r@[6]@ == "LogiLedSetTargetDevice"@,
        r@[7]@ == "LogiLedSaveCurrentLighting"@,
        r@[8]@ == "LogiLedSetLighting"@,
        r@[9]@ == "LogiLedRestoreLighting"@,
        r@[10]@ == "LogiLedFlashLighting"@,
        r@[11]@ == "LogiLedPulseLighting"@,
        r@[12]@ == "LogiLedStopEffects"@,
        r@[13]@ == "LogiLedSetLightingFromBitmap"@,
        r@[14]@ == "LogiLedSetLightingForKeyWithScanCode"@,
        r@[15]@ == "LogiLedSetLightingForKeyWithHidCode"@,
        r@[16]@ == "LogiLedSetLightingForKeyWithQuartzCode"@,
        r@[17]@ == "LogiLedSetLightingForKeyWithKeyName"@,
        r@[18]@ == "LogiLedSaveLightingForKey"@,
        r@[19]@ == "LogiLedRestoreLightingForKey"@,
        r@[20]@ == "LogiLedExcludeKeysFromBitmap"@,
        r@[21]@ == "LogiLedFlashSingleKey"@,
        r@[22]@ == "LogiLedPulseSingleKey"@,
        r@[23]@ == "LogiLedStopEffectsOnKey"@,
        r@[24]@ == "LogiLedShutdown"@,
{
    let mut r: Vec<&'static str> = Vec::new();
    r.push("LogiLedInit");
    r.push("LogiGetConfigOptionNumber");
    r.push("LogiGetConfigOptionBool");
    r.push("LogiGetConfigOptionColor");
    r.push("LogiGetConfigOptionKeyInput");
    r.push("LogiSetConfigOptionLabel");
    r.push("LogiLedSetTargetDevice");
    r.push("LogiLedSaveCurrentLighting");
    r.push("LogiLedSetLighting");
    r.push("LogiLedRestoreLighting");
    r.push("LogiLedFlashLighting");
    r.push("LogiLedPulseLighting");
    r.push("LogiLedStopEffects");
    r.push("LogiLedSetLightingFromBitmap");
    r.push("LogiLedSetLightingForKeyWithScanCode");
    r.push("LogiLedSetLightingForKeyWithHidCode");
    r.push("LogiLedSetLightingForKeyWithQuartzCode");
    r.push("LogiLedSetLightingForKeyWithKeyName");
    r.push("LogiLedSaveLightingForKey");
    r.push("LogiLedRestoreLightingForKey");
    r.push("LogiLedExcludeKeysFromBitmap");
    r.push("LogiLedFlashSingleKey");
    r.push("LogiLedPulseSingleKey");
    r.push("LogiLedStopEffectsOnKey");
    r.push("LogiLedShutdown");
    r
}

/// Where the binder loads the module from.
#[derive(Debug)]
pub enum LoadSource {
    /// An absolute path the locator found in the registry.
    Path(String),
    /// The bare module name, resolved through the default search order.
    Name,
}

/// The first load attempt: the located path when the locator found one,
/// else the bare module name.
pub fn first_load_source(located: Option<String>) -> (r: LoadSource)
    ensures
        located matches Some(p) ==> (r matches LoadSource::Path(q) && q == p),
        located is None ==> r is Name,
{
    match located {
        Some(p) => LoadSource::Path(p),
        None => LoadSource::Name,
    }
}

/// Whether a failed load is tried once more by bare module name: only
/// when a configured path was tried and came back "module not found" —
/// the registry entry was stale but the module may still be reachable
/// through the default search order.  Every other failure is final.
pub fn retry_by_name(tried_path: bool, module_not_found: bool) -> (r: bool)
    ensures
        r == (tried_path && module_not_found),
{
    tried_path && module_not_found
}

/// Why a bind failed.
#[derive(Debug)]
pub enum BindError {
    /// The module was not found by any load strategy.
    NotFound,
    /// The module was found but could not be loaded.
    LoadFailed(std::io::Error),
    /// The named table slot's entry point is missing from the module; the
    /// whole bind fails and the module is unloaded.
    MissingEntryPoint(usize),
}

/// Owns the loaded module for exactly the lifetime of one session.
///
/// The module reference is an opaque number handed over by the platform
/// loader; the handle records whether it has been given back.  A handle
/// moves — it is never copied — so exactly one owner can release it, and
/// release happens at most once.
#[derive(Debug)]
pub struct Handle {
    module: u64,
    released: bool,
}

impl Handle {
    /// The platform loader's reference for the owned module.
    pub closed spec fn spec_module(self) -> u64 {
        self.module
    }

    /// Whether the module has been given back to the platform loader.
    pub closed spec fn spec_released(self) -> bool {
        self.released
    }

    /// Take ownership of a loaded module reference.
    pub fn new(module: u64) -> (h: Handle)
        ensures
            h.spec_module() == module,
            !h.spec_released(),
    {
        Handle { module, released: false }
    }

    /// The module reference, for the platform call that unloads it.
    pub fn module(&self) -> (m: u64)
        ensures
            m == self.spec_module(),
    {
        self.module
    }

    /// Mark the module as given back.  Idempotent: only the first release
    /// reports that the platform unload is owed.
    pub fn release(&mut self) -> (unload: bool)
        ensures
            final (self).spec_released(),
            final (self).spec_module() == old(self).spec_module(),
            unload == !old(self).spec_released(),
    {
        let unload = !self.released;
        self.released = true;
        unload
    }
}

/// The index of the first zero address, or the table length when every
/// slot resolved.
pub open spec fn spec_missing_index(addrs: Seq<u64>) -> int
    decreases addrs.len(),
{
    if addrs.len() == 0 {
        0
    } else if addrs[0] == 0u64 {
        0
    } else {
        1 + spec_missing_index(addrs.drop_first())
    }
}

/// The first-missing index is never negative.
proof fn lemma_missing_index_nonneg(addrs: Seq<u64>)
    ensures
        spec_missing_index(addrs) >= 0,
    decreases addrs.len(),
{
    if addrs.len() > 0 && addrs[0] != 0u64 {
        lemma_missing_index_nonneg(addrs.drop_first());
    }
}

/// A zero address preceded only by resolved slots is the first missing
/// one.
proof fn lemma_missing_index_at(addrs: Seq<u64>, i: int)
    requires
        0 <= i < addrs.len(),
        forall|j: int| 0 <= j < i ==> addrs[j] != 0u64,
        addrs[i] == 0u64,
    ensures
        spec_missing_index(addrs) == i,
    decreases i,
{
    if i > 0 {
        assert(forall|j: int| 0 <= j < i - 1 ==> addrs.drop_first()[j] == addrs[j + 1]);
        lemma_missing_index_at(addrs.drop_first(), i - 1);
    }
}

/// A prefix of resolved slots pushes the first missing one past it.
proof fn lemma_missing_index_past(addrs: Seq<u64>, k: int)
    requires
        0 <= k <= addrs.len(),
        forall|j: int| 0 <= j < k ==> addrs[j] != 0u64,
    ensures
        spec_missing_index(addrs) >= k,
    decreases k,
{
    if k > 0 {
        assert(addrs[0] != 0u64);
        assert(forall|j: int| 0 <= j < k - 1 ==> addrs.drop_first()[j] == addrs[j + 1]);
        lemma_missing_index_past(addrs.drop_first(), k - 1);
    } else {
        lemma_missing_index_nonneg(addrs);
    }
}

/// The complete table of resolved entry points, in the order of
/// [`entry_point_names`].  Exists only as a whole: construction fails if
/// any single slot is missing.
#[derive(Debug)]
pub struct FunctionTable {
    pub addrs: Vec<u64>,
}

impl FunctionTable {
    /// Every slot is present and resolved.
    pub open spec fn valid(self) -> bool {
        &&& self.addrs@.len() == TABLE_LEN
        &&& forall|i: int| 0 <= i < self.addrs@.len() ==> self.addrs@[i] != 0u64
    }

    /// The resolved address in one table slot.
    pub fn entry(&self, i: usize) -> (a: u64)
        requires
            self.valid(),
            i < TABLE_LEN,
        ensures
            a == self.addrs@[i as int],
            a != 0u64,
    {
        self.addrs[i]
    }
}

/// Assemble the function table from the resolved addresses, one per
/// required entry point, with zero marking a name the module lacks.
///
/// All or nothing: the table is returned exactly when every slot
/// resolved; one missing entry point fails the whole bind, naming the
/// first missing slot, and no table exists.
pub fn build_table(addrs: Vec<u64>) -> (r: Result<FunctionTable, BindError>)
    requires
        addrs@.len() == TABLE_LEN,
    ensures
        spec_missing_index(addrs@) >= TABLE_LEN ==> (r matches Ok(t) && t.addrs@ == addrs@
            && t.valid()),
        spec_missing_index(addrs@) < TABLE_LEN ==> (r matches Err(e)
            && e matches BindError::MissingEntryPoint(i) && i == spec_missing_index(addrs@)),
        (forall|i: int| 0 <= i < addrs@.len() ==> addrs@[i] != 0u64) <==> (r matches Ok(t)
            && t.addrs@ == addrs@ && t.valid()),
        (exists|i: int| 0 <= i < addrs@.len() && addrs@[i] == 0u64) ==> (r matches Err(e)
            && e matches BindError::MissingEntryPoint(i) && i < addrs@.len() && addrs@[i as int]
            == 0u64 && (forall|j: int| 0 <= j < i ==> addrs@[j] != 0u64)),
{
    proof {
        if forall|i: int| 0 <= i < addrs@.len() ==> addrs@[i] != 0u64 {
            lemma_missing_index_past(addrs@, TABLE_LEN as int);
        } else {
            let i = choose|i: int| 0 <= i < addrs@.len() && addrs@[i] == 0u64;
            lemma_missing_index_bounded(addrs@, i);
        }
    }
    let mut i: usize = 0;
    while i < TABLE_LEN
        invariant
            i <= TABLE_LEN,
            addrs@.len() == TABLE_LEN,
            forall|j: int| 0 <= j < i ==> addrs@[j] != 0u64,
        decreases TABLE_LEN - i,
    {
        if addrs[i] == 0 {
            proof {
                lemma_missing_index_at(addrs@, i as int);
            }
            return Err(BindError::MissingEntryPoint(i));
        }
        i = i + 1;
    }
    proof {
        lemma_missing_index_past(addrs@, TABLE_LEN as int);
    }
    Ok(FunctionTable { addrs })
}

/// Law: the bind is all or nothing — a module missing any one required
/// entry point yields no function table at all.
pub proof fn lemma_bind_all_or_nothing(addrs: Seq<u64>, i: int)
    requires
        addrs.len() == TABLE_LEN,
        0 <= i < addrs.len(),
        addrs[i] == 0u64,
    ensures
        spec_missing_index(addrs) < TABLE_LEN,
{
    lemma_missing_index_bounded(addrs, i);
}

/// The first missing slot never lies past a known missing slot.
proof fn lemma_missing_index_bounded(addrs: Seq<u64>, i: int)
    requires
        0 <= i < addrs.len(),
        addrs[i] == 0u64,
    ensures
        spec_missing_index(addrs) <= i,
    decreases i,
{
    if addrs[0] != 0u64 {
        assert(i > 0);
        assert(addrs.drop_first()[i - 1] == addrs[i]);
        lemma_missing_index_bounded(addrs.drop_first(), i - 1);
    }
}

} // verus!
