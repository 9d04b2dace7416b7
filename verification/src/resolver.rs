//! Two-tier resolution of OpenGL function pointers. The primary query
//! signals "not available through this path" not only with a null address
//! but with four small reserved sentinel words; any of those sends the
//! lookup to the fallback path, a direct symbol lookup in the base OpenGL
//! module. A name that resolves nowhere is a normal miss, not a fault.
//!
//! The platform defines both queries only while a rendering context is
//! active on the calling thread. The functions here are pure over the
//! queries' answers; the bootstrap machine enforces the activity window by
//! asking for resolutions only between activating and deleting the context.
use vstd::prelude::*;

verus! {

/// True of the address words the primary query reserves to mean "not
/// available via this path": null, the three small positive words, and the
/// all-ones word (the machine representation of minus one).
pub open spec fn is_reserved_sentinel(addr: usize) -> bool {
    addr == 0 || addr == 1 || addr == 2 || addr == 3 || addr == usize::MAX
}

/// What the primary query's answer means: a genuine address, or an
/// instruction to try the fallback path.
#[derive(Clone, Copy, Debug, PartialEq, Eq)]
pub enum PrimaryOutcome {
    /// The primary query returned a real address; the fallback path must not
    /// be taken.
    Hit(usize),
    /// The primary query returned null or a reserved sentinel; the fallback
    /// module lookup decides.
    NeedsFallback,
}

/// The result of one full two-tier resolution: whether the fallback path
/// was taken, and the address found, if any.
#[derive(Clone, Copy, Debug, PartialEq, Eq)]
pub struct Resolution {
    /// True exactly when the primary answer was null or a reserved sentinel.
    pub fallback_used: bool,
    /// The resolved address, or a miss.
    pub address: Option<usize>,
}

/// Tier selection: decides, from the primary query's answer alone, whether
/// the address is genuine or the fallback path must be consulted.
pub fn classify_primary(addr: usize) -> (r: PrimaryOutcome)
    ensures
        r == (if is_reserved_sentinel(addr) {
            PrimaryOutcome::NeedsFallback
        } else {
            PrimaryOutcome::Hit(addr)
        }),
{
    if addr == 0 || addr == 1 || addr == 2 || addr == 3 || addr == usize::MAX {
        PrimaryOutcome::NeedsFallback
    } else {
        PrimaryOutcome::Hit(addr)
    }
}

/// Turns the fallback symbol lookup's answer into the overall result: null
/// is a miss, anything else is the resolved address.
pub fn finish_fallback(symbol: usize) -> (r: Option<usize>)
    ensures
        r == (if symbol == 0 {
            Option::<usize>::None
        } else {
            Option::<usize>::Some(symbol)
        }),
{
    if symbol == 0 {
        None
    } else {
        Some(symbol)
    }
}

/// The full two-tier resolution as a function of the platform's answers:
/// the primary query's address word, the handle of the base OpenGL module
/// (null when it could not be loaded), and the module symbol lookup's
/// address word.
pub open spec fn resolve_spec(primary: usize, module: usize, symbol: usize) -> Resolution {
    if !is_reserved_sentinel(primary) {
        Resolution { fallback_used: false, address: Some(primary) }
    } else {
        Resolution {
            fallback_used: true,
            address: if module == 0 || symbol == 0 {
                None
            } else {
                Some(symbol)
            },
        }
    }
}

/// Tier selection is deterministic and exhaustive: the fallback path is
/// taken exactly on the five reserved answers — null and the four sentinel
/// words — and never on any other primary answer.
pub proof fn lemma_tier_selection(primary: usize, module: usize, symbol: usize)
    ensures
        resolve_spec(primary, module, symbol).fallback_used <==> (primary == 0 || primary == 1
            || primary == 2 || primary == 3 || primary == usize::MAX),
        !is_reserved_sentinel(primary) ==> resolve_spec(primary, module, symbol).address == Some(
            primary,
        ),
{
}

/// The answers the platform gives when one name is resolved: the primary
/// query's address word and the fallback symbol lookup's address word.
#[derive(Clone, Copy, Debug, PartialEq, Eq)]
pub struct ProcQuery {
    /// What the primary extension-address query returned.
    pub primary: usize,
    /// What the direct module symbol lookup returned.
    pub symbol: usize,
}

/// Resolves one name from the platform's answers, taking the fallback path
/// exactly when the primary answer is null or a reserved sentinel.
pub fn resolve(q: &ProcQuery, module: usize) -> (r: Resolution)
    ensures
        r == resolve_spec(q.primary, module, q.symbol),
{
    match classify_primary(q.primary) {
        PrimaryOutcome::Hit(addr) => Resolution { fallback_used: false, address: Some(addr) },
        PrimaryOutcome::NeedsFallback => {
            if module == 0 {
                Resolution { fallback_used: true, address: None }
            } else {
                Resolution { fallback_used: true, address: finish_fallback(q.symbol) }
            }
        },
    }
}

} // verus!
