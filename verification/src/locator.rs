//! Locating the vendor module without loading it.
//!
//! The vendor's installer records the module's path in the system
//! configuration registry under its class identifier, in a different view
//! per process architecture.  The locator names the places to probe, in
//! order, and picks the first answer; no answer at all is a valid outcome
//! that means "load by bare module name through the default search order".
//! The probing itself is a read-only platform call made outside the
//! library; the answers come back as plain optional strings.

use vstd::prelude::*;

verus! {

/// The bare file name of the vendor module, used when no configured path
/// is found and after a stale configured path.
pub const MODULE_NAME: &'static str = "LogitechLed.dll";

/// A root of the configuration registry under which a probe's subkey path
/// is opened.
#[derive(Clone, Copy, Debug, PartialEq, Eq, Structural)]
pub enum RegistryRoot {
    ClassesRoot,
    LocalMachine,
}

/// The registry places to probe for the vendor module's path, in the
/// order to try them: the process-architecture-specific key first, then
/// the equivalent fallback views.
///
/// The 64-bit process layout has two views; a 32-bit process reads the
/// redirected (Wow64) views, of which there are three.
pub fn registry_probes(wow64: bool) -> (r: Vec<(RegistryRoot, &'static str)>)
    ensures
        !wow64 ==> r@.len() == 2,
        wow64 ==> r@.len() == 3,
        !wow64 ==> {
            &&& r@[0].0 == RegistryRoot::ClassesRoot
            &&& r@[0].1@ == "CLSID\\{a6519e67-7632-4375-afdf-caa889744403}\\ServerBinary"@
            &&& r@[1].0 == RegistryRoot::LocalMachine
            &&& r@[1].1@
                == "SOFTWARE\\Classes\\CLSID\\{a6519e67-7632-4375-afdf-caa889744403}\\ServerBinary"@
        },
        wow64 ==> {
            &&& r@[0].0 == RegistryRoot::ClassesRoot
            &&& r@[0].1@
                == "Wow6432Node\\CLSID\\{a6519e67-7632-4375-afdf-caa889744403}\\ServerBinary"@
            &&& r@[1].0 == RegistryRoot::LocalMachine
            &&& r@[1].1@
                == "SOFTWARE\\Classes\\Wow6432Node\\CLSID\\{a6519e67-7632-4375-afdf-caa889744403}\\ServerBinary"@
            &&& r@[2].0 == RegistryRoot::LocalMachine
            &&& r@[2].1@
                == "SOFTWARE\\Wow6432Node\\Classes\\CLSID\\{a6519e67-7632-4375-afdf-caa889744403}\\ServerBinary"@
        },
{
    let mut r: Vec<(RegistryRoot, &'static str)> = Vec::new();
    if !wow64 {
        r.push(
            (
                RegistryRoot::ClassesRoot,
                "CLSID\\{a6519e67-7632-4375-afdf-caa889744403}\\ServerBinary",
            ),
        );
        r.push(
            (
                RegistryRoot::LocalMachine,
                "SOFTWARE\\Classes\\CLSID\\{a6519e67-7632-4375-afdf-caa889744403}\\ServerBinary",
            ),
        );
    } else {
        r.push(
            (
                RegistryRoot::ClassesRoot,
                "Wow6432Node\\CLSID\\{a6519e67-7632-4375-afdf-caa889744403}\\ServerBinary",
            ),
        );
        r.push(
            (
                RegistryRoot::LocalMachine,
                "SOFTWARE\\Classes\\Wow6432Node\\CLSID\\{a6519e67-7632-4375-afdf-caa889744403}\\ServerBinary",
            ),
        );
        r.push(
            (
                RegistryRoot::LocalMachine,
                "SOFTWARE\\Wow6432Node\\Classes\\CLSID\\{a6519e67-7632-4375-afdf-caa889744403}\\ServerBinary",
            ),
        );
    }
    r
}

/// The index of the first probe that answered, or the probe count when
/// none did.
pub open spec fn spec_hit_index(s: Seq<Option<String>>) -> int
    decreases s.len(),
{
    if s.len() == 0 {
        0
    } else if s[0] is Some {
        0
    } else {
        1 + spec_hit_index(s.drop_first())
    }
}

/// An answer preceded only by empty probes is the first answer.
proof fn lemma_hit_index_at(s: Seq<Option<String>>, i: int)
    requires
        0 <= i < s.len(),
        forall|j: int| 0 <= j < i ==> s[j] is None,
        s[i] is Some,
    ensures
        spec_hit_index(s) == i,
    decreases i,
{
    if i > 0 {
        assert(forall|j: int| 0 <= j < i - 1 ==> s.drop_first()[j] == s[j + 1]);
        lemma_hit_index_at(s.drop_first(), i - 1);
    }
}

/// A prefix of empty probes pushes the first answer past it.
proof fn lemma_hit_index_past(s: Seq<Option<String>>, k: int)
    requires
        0 <= k <= s.len(),
        forall|j: int| 0 <= j < k ==> s[j] is None,
    ensures
        spec_hit_index(s) >= k,
    decreases k,
{
    if k > 0 {
        assert(forall|j: int| 0 <= j < k - 1 ==> s.drop_first()[j] == s[j + 1]);
        lemma_hit_index_past(s.drop_first(), k - 1);
    } else {
        lemma_hit_index_nonneg(s);
    }
}

/// The first answer never lies past a known answer.
proof fn lemma_hit_index_bounded(s: Seq<Option<String>>, i: int)
    requires
        0 <= i < s.len(),
        s[i] is Some,
    ensures
        spec_hit_index(s) <= i,
    decreases i,
{
    if !(s[0] is Some) {
        assert(i > 0);
        assert(s.drop_first()[i - 1] == s[i]);
        lemma_hit_index_bounded(s.drop_first(), i - 1);
    }
}

/// The first-answer index is never negative.
proof fn lemma_hit_index_nonneg(s: Seq<Option<String>>)
    ensures
        spec_hit_index(s) >= 0,
    decreases s.len(),
{
    if s.len() > 0 && !(s[0] is Some) {
        lemma_hit_index_nonneg(s.drop_first());
    }
}

/// Pick the located path: the first probe answer, in probe order.
///
/// Returns nothing exactly when every probe came back empty — the defined
/// outcome that sends the binder to the default module-name search.
pub fn locate(probes: &Vec<Option<String>>) -> (r: Option<String>)
    ensures
        spec_hit_index(probes@) >= probes@.len() ==> r is None,
        spec_hit_index(probes@) < probes@.len() ==> (r matches Some(p)
            && probes@[spec_hit_index(probes@)] matches Some(q) && p == q),
        (forall|j: int| 0 <= j < probes@.len() ==> probes@[j] is None) <==> r is None,
{
    proof {
        if forall|j: int| 0 <= j < probes@.len() ==> probes@[j] is None {
            lemma_hit_index_past(probes@, probes@.len() as int);
        } else {
            let j = choose|j: int| 0 <= j < probes@.len() && !(probes@[j] is None);
            lemma_hit_index_bounded(probes@, j);
        }
    }
    let mut i: usize = 0;
    while i < probes.len()
        invariant
            i <= probes@.len(),
            forall|j: int| 0 <= j < i ==> probes@[j] is None,
        decreases probes@.len() - i,
    {
        match &probes[i] {
            Some(p) => {
                proof {
                    lemma_hit_index_at(probes@, i as int);
                }
                return Some(p.clone());
            },
            None => {},
        }
        i = i + 1;
    }
    proof {
        lemma_hit_index_past(probes@, probes@.len() as int);
    }
    None
}

/// Law: when every registry probe comes back empty the locator reports no
/// path, and the binder's first load attempt is by bare module name.
pub proof fn lemma_locator_fallback(probes: Seq<Option<String>>)
    requires
        forall|j: int| 0 <= j < probes.len() ==> probes[j] is None,
    ensures
        spec_hit_index(probes) >= probes.len(),
{
    lemma_hit_index_past(probes, probes.len() as int);
}

} // verus!
