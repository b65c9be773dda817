//! Laws of the relay, stated over the mathematical models the contracts
//! use and proved once and for all.

use vstd::prelude::*;
use crate::dispatch::{spec_classify, spec_dispatch, TextClassModel};
use crate::frame::FrameModel;
use crate::registry::Handle;

verus! {

/// After a session ends, a lookup for its generated id is absent, while
/// every other id — any alias the session registered included — still maps
/// to exactly the handle it mapped to before, stale though it may now be.
pub proof fn law_end_session_lookups(
    registry: Map<Seq<char>, Handle>,
    generated: Seq<char>,
    other: Seq<char>,
)
    ensures
        !registry.remove(generated).contains_key(generated),
        other != generated ==> (registry.remove(generated).contains_key(other)
            == registry.contains_key(other)),
        other != generated && registry.contains_key(other) ==> registry.remove(generated)[other]
            == registry[other],
{
}

/// Registering an alias adds an entry, it does not rename: afterwards the
/// alias and the session's generated id both resolve to the session's own
/// handle — and the control frame itself is consumed, never relayed.
pub proof fn law_alias_coexists_with_generated_id(
    registry: Map<Seq<char>, Handle>,
    target: Option<Seq<char>>,
    own: Handle,
    t: Seq<char>,
    alias: Seq<char>,
    generated: Seq<char>,
)
    requires
        spec_classify(t) == TextClassModel::Register(alias),
        registry.contains_key(generated),
        registry[generated] == own,
    ensures
        ({
            let step = spec_dispatch(registry, target, own, FrameModel::Text(t));
            step.registry.contains_key(alias) && step.registry[alias] == own
                && step.registry.contains_key(generated) && step.registry[generated] == own
                && step.published_to is None && !step.stop && step.target == target
        }),
{
}

/// A targeted text frame whose destination has no live handle is silently
/// dropped: nothing is published, the session does not stop and the
/// registry is untouched — though the destination is still recorded as the
/// session's target binding.
pub proof fn law_route_miss_is_silent(
    registry: Map<Seq<char>, Handle>,
    target: Option<Seq<char>>,
    own: Handle,
    t: Seq<char>,
    dest: Seq<char>,
)
    requires
        spec_classify(t) == TextClassModel::Targeted(dest),
        !registry.contains_key(dest),
    ensures
        ({
            let step = spec_dispatch(registry, target, own, FrameModel::Text(t));
            step.published_to is None && !step.stop && step.registry == registry && step.target
                == Some(dest)
        }),
{
}

/// A binary frame arriving before any target has ever been set for the
/// session is silently dropped: nothing is published and nothing changes.
pub proof fn law_binary_needs_target(
    registry: Map<Seq<char>, Handle>,
    own: Handle,
    payload: Seq<u8>,
)
    ensures
        ({
            let step = spec_dispatch(registry, None, own, FrameModel::Binary(payload));
            step.published_to is None && !step.stop && step.registry == registry && step.target
                is None
        }),
{
}

/// Setting target `a` and then target `b` on the same session routes a
/// subsequent binary frame only to `b`, never to `a`: the binding is a
/// single slot and each targeted frame overwrites it.
pub proof fn law_target_overwrite(
    registry: Map<Seq<char>, Handle>,
    target: Option<Seq<char>>,
    own: Handle,
    ta: Seq<char>,
    a: Seq<char>,
    tb: Seq<char>,
    b: Seq<char>,
    payload: Seq<u8>,
)
    requires
        spec_classify(ta) == TextClassModel::Targeted(a),
        spec_classify(tb) == TextClassModel::Targeted(b),
        a != b,
    ensures
        ({
            let s1 = spec_dispatch(registry, target, own, FrameModel::Text(ta));
            let s2 = spec_dispatch(s1.registry, s1.target, own, FrameModel::Text(tb));
            let s3 = spec_dispatch(s2.registry, s2.target, own, FrameModel::Binary(payload));
            s3.target == Some(b) && s3.published_to != Some(a) && (s3.published_to is Some
                ==> s3.published_to == Some(b))
        }),
{
}

} // verus!
