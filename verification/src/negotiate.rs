//! Context negotiation: the fixed, ordered fallback across API tiers.
//!
//! Context creation is attempted for the platform's default core profile
//! first, then for GLES, then for legacy OpenGL 2.1; the first attempt that
//! succeeds decides the driver tier, and exhausting all three fails the
//! negotiation. The unverified shell performs each platform attempt and
//! consults [`next_attempt`] and [`tier_of_attempt`] for the order and the
//! resulting tier; the proofs below pin down that the order is exactly
//! first-success-wins.

use vstd::prelude::*;
use crate::report::GLDriver;

verus! {

/// One context-creation request, in the order the negotiation tries them.
#[derive(Clone, Copy, Debug, PartialEq, Eq, Structural)]
pub enum Attempt {
    /// The platform's default (core OpenGL) profile, no version pinned.
    Core,
    /// The GLES API, no version pinned.
    Gles,
    /// Legacy OpenGL, version 2.1 exactly.
    Legacy,
}

/// How many attempts remain from this one on; the negotiation's measure.
pub open spec fn attempts_left(a: Attempt) -> nat {
    match a {
        Attempt::Core => 3,
        Attempt::Gles => 2,
        Attempt::Legacy => 1,
    }
}

/// The tier a successful attempt records.
pub open spec fn attempt_tier_spec(a: Attempt) -> GLDriver {
    match a {
        Attempt::Core => GLDriver::LibGL,
        Attempt::Gles => GLDriver::LibGLES,
        Attempt::Legacy => GLDriver::LegacyLibGL,
    }
}

/// The attempt tried after `a` fails, if any.
pub open spec fn next_attempt_spec(a: Attempt) -> Option<Attempt> {
    match a {
        Attempt::Core => Some(Attempt::Gles),
        Attempt::Gles => Some(Attempt::Legacy),
        Attempt::Legacy => None,
    }
}

/// The first attempt of every negotiation.
pub fn first_attempt() -> (r: Attempt)
    ensures
        r == Attempt::Core,
{
    Attempt::Core
}

/// The tier a successful attempt records.
pub fn tier_of_attempt(a: Attempt) -> (r: GLDriver)
    ensures
        r == attempt_tier_spec(a),
{
    match a {
        Attempt::Core => GLDriver::LibGL,
        Attempt::Gles => GLDriver::LibGLES,
        Attempt::Legacy => GLDriver::LegacyLibGL,
    }
}

/// The attempt tried after `a` fails; `None` exhausts the negotiation.
pub fn next_attempt(a: Attempt) -> (r: Option<Attempt>)
    ensures
        r == next_attempt_spec(a),
{
    match a {
        Attempt::Core => Some(Attempt::Gles),
        Attempt::Gles => Some(Attempt::Legacy),
        Attempt::Legacy => None,
    }
}

/// Whether the platform grants the request `a`, given which of the three
/// requests it would grant.
pub open spec fn attempt_granted(a: Attempt, core_ok: bool, gles_ok: bool, legacy_ok: bool) -> bool {
    match a {
        Attempt::Core => core_ok,
        Attempt::Gles => gles_ok,
        Attempt::Legacy => legacy_ok,
    }
}

/// The tier the negotiation reaches when started at attempt `a`, given
/// which requests the platform would grant.
pub open spec fn negotiation_from(
    a: Attempt,
    core_ok: bool,
    gles_ok: bool,
    legacy_ok: bool,
) -> Option<GLDriver>
    decreases attempts_left(a),
{
    if attempt_granted(a, core_ok, gles_ok, legacy_ok) {
        Some(attempt_tier_spec(a))
    } else {
        match a {
            Attempt::Core => negotiation_from(Attempt::Gles, core_ok, gles_ok, legacy_ok),
            Attempt::Gles => negotiation_from(Attempt::Legacy, core_ok, gles_ok, legacy_ok),
            Attempt::Legacy => None,
        }
    }
}

/// The negotiation's outcome in closed form: first success wins, in the
/// fixed order core, then GLES, then legacy.
pub open spec fn negotiated(core_ok: bool, gles_ok: bool, legacy_ok: bool) -> Option<GLDriver> {
    if core_ok {
        Some(GLDriver::LibGL)
    } else if gles_ok {
        Some(GLDriver::LibGLES)
    } else if legacy_ok {
        Some(GLDriver::LegacyLibGL)
    } else {
        None
    }
}

/// A full negotiation picks the tier of the first granted request and never
/// a later tier when an earlier request is granted; exhausting all three
/// requests yields no tier at all.
pub proof fn lemma_first_success_wins(core_ok: bool, gles_ok: bool, legacy_ok: bool)
    ensures
        negotiation_from(Attempt::Core, core_ok, gles_ok, legacy_ok) == negotiated(
            core_ok,
            gles_ok,
            legacy_ok,
        ),
        core_ok ==> negotiated(core_ok, gles_ok, legacy_ok) == Some(GLDriver::LibGL),
        !core_ok && gles_ok ==> negotiated(core_ok, gles_ok, legacy_ok) == Some(GLDriver::LibGLES),
        !core_ok && !gles_ok && legacy_ok ==> negotiated(core_ok, gles_ok, legacy_ok) == Some(
            GLDriver::LegacyLibGL,
        ),
        !core_ok && !gles_ok && !legacy_ok ==> negotiated(core_ok, gles_ok, legacy_ok) is None,
{
    reveal_with_fuel(negotiation_from, 4);
}

} // verus!
