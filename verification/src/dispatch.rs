//! The dispatcher's per-frame decision: classify a frame read from the
//! socket, update the registry and the session's target binding, and route
//! data frames to the addressed session's inbound handle.

use vstd::prelude::*;
use crate::channel::publish_to;
use crate::frame::{Frame, FrameModel};
use crate::json::{json_str_field, lookup_json_str_field};
use crate::registry::{Handle, Registry};

verus! {

/// What a text frame means to the relay.
#[derive(Clone, Debug, PartialEq, Eq)]
pub enum TextClass {
    /// A register control frame carrying the alias to register.
    Register(String),
    /// A register control frame without a usable alias: consumed, no action.
    RegisterNoId,
    /// A data frame naming a routing destination.
    Targeted(String),
    /// Anything else, unparsable text included: no action.
    Plain,
}

/// Mathematical shape of a text frame's classification.
pub enum TextClassModel {
    Register(Seq<char>),
    RegisterNoId,
    Targeted(Seq<char>),
    Plain,
}

impl View for TextClass {
    type V = TextClassModel;

    open spec fn view(&self) -> TextClassModel {
        match self {
            TextClass::Register(id) => TextClassModel::Register(id@),
            TextClass::RegisterNoId => TextClassModel::RegisterNoId,
            TextClass::Targeted(dest) => TextClassModel::Targeted(dest@),
            TextClass::Plain => TextClassModel::Plain,
        }
    }
}

/// How a text payload is classified: a frame whose `type` field is the
/// string `register` is a control frame and is never relayed; otherwise a
/// frame with a `target_id` field is a targeted data frame; everything
/// else is passed over.
pub open spec fn spec_classify(t: Seq<char>) -> TextClassModel {
    if json_str_field(t, "type"@) == Some("register"@) {
        match json_str_field(t, "connectionId"@) {
            Some(id) => TextClassModel::Register(id),
            None => TextClassModel::RegisterNoId,
        }
    } else {
        match json_str_field(t, "target_id"@) {
            Some(dest) => TextClassModel::Targeted(dest),
            None => TextClassModel::Plain,
        }
    }
}

/// Classifies one text payload, exactly as `spec_classify` has it.
pub fn classify_text(t: &String) -> (c: TextClass)
    ensures
        c@ == spec_classify(t@),
{
    let is_register: bool = match lookup_json_str_field(t.as_str(), "type") {
        Some(v) => v == "register".to_owned(),
        None => false,
    };
    if is_register {
        match lookup_json_str_field(t.as_str(), "connectionId") {
            Some(id) => TextClass::Register(id),
            None => TextClass::RegisterNoId,
        }
    } else {
        match lookup_json_str_field(t.as_str(), "target_id") {
            Some(dest) => TextClass::Targeted(dest),
            None => TextClass::Plain,
        }
    }
}

/// What one dispatched frame reports back to the session loop.
#[derive(Clone, Debug, PartialEq, Eq)]
pub struct DispatchResult {
    /// The session is over: a close frame arrived.
    pub stop: bool,
    /// The id whose inbound handle the frame was published to, if any.
    pub published_to: Option<String>,
}

/// Everything one dispatch step decides, at the mathematical level.
pub struct StepModel {
    pub registry: Map<Seq<char>, Handle>,
    pub target: Option<Seq<char>>,
    pub published_to: Option<Seq<char>>,
    pub stop: bool,
}

/// The routing decision for one inbound frame, given the registry, the
/// session's current target binding and its own inbound handle:
/// - a register control frame adds an alias for this session and is not
///   relayed;
/// - a targeted text frame first records its destination as the new target
///   binding, then goes verbatim to that destination's handle if one is
///   live, and is silently dropped otherwise;
/// - a binary frame goes verbatim to the currently bound target's handle if
///   a target is bound and live, and is silently dropped otherwise;
/// - ping and pong are ignored; close stops the session.
pub open spec fn spec_dispatch(
    registry: Map<Seq<char>, Handle>,
    target: Option<Seq<char>>,
    own: Handle,
    frame: FrameModel,
) -> StepModel {
    match frame {
        FrameModel::Text(t) => match spec_classify(t) {
            TextClassModel::Register(id) => StepModel {
                registry: registry.insert(id, own),
                target,
                published_to: None,
                stop: false,
            },
            TextClassModel::RegisterNoId => StepModel {
                registry,
                target,
                published_to: None,
                stop: false,
            },
            TextClassModel::Targeted(dest) => StepModel {
                registry,
                target: Some(dest),
                published_to: if registry.contains_key(dest) {
                    Some(dest)
                } else {
                    None
                },
                stop: false,
            },
            TextClassModel::Plain => StepModel { registry, target, published_to: None, stop: false },
        },
        FrameModel::Binary(_) => StepModel {
            registry,
            target,
            published_to: match target {
                Some(dest) => if registry.contains_key(dest) {
                    Some(dest)
                } else {
                    None
                },
                None => None,
            },
            stop: false,
        },
        FrameModel::Ping(_) => StepModel { registry, target, published_to: None, stop: false },
        FrameModel::Pong(_) => StepModel { registry, target, published_to: None, stop: false },
        FrameModel::Close => StepModel { registry, target, published_to: None, stop: true },
    }
}

/// Dispatches one frame read from this session's socket: performs exactly
/// the step `spec_dispatch` describes, publishing the frame verbatim to the
/// routed handle when one is live.
pub fn dispatch_frame(
    registry: &mut Registry,
    target: &mut Option<String>,
    own: &Handle,
    frame: Frame,
) -> (r: DispatchResult)
    requires
        old(registry).wf(),
    ensures
        final(registry).wf(),
        ({
            let step = spec_dispatch(old(registry)@, old(target).deep_view(), *own, frame@);
            final(registry)@ == step.registry && final(target).deep_view() == step.target
                && r.published_to.deep_view() == step.published_to && r.stop == step.stop
        }),
{
    match frame {
        Frame::Text(text) => {
            let class = classify_text(&text);
            match class {
                TextClass::Register(id) => {
                    registry.register(id, own.clone());
                    DispatchResult { stop: false, published_to: None }
                },
                TextClass::RegisterNoId => DispatchResult { stop: false, published_to: None },
                TextClass::Targeted(dest) => {
                    *target = Some(dest.clone());
                    match registry.lookup(&dest) {
                        Some(h) => {
                            publish_to(h, Frame::Text(text));
                            DispatchResult { stop: false, published_to: Some(dest) }
                        },
                        None => DispatchResult { stop: false, published_to: None },
                    }
                },
                TextClass::Plain => DispatchResult { stop: false, published_to: None },
            }
        },
        Frame::Binary(payload) => {
            match target.as_ref() {
                Some(dest) => match registry.lookup(dest) {
                    Some(h) => {
                        publish_to(h, Frame::Binary(payload));
                        DispatchResult { stop: false, published_to: Some(dest.clone()) }
                    },
                    None => DispatchResult { stop: false, published_to: None },
                },
                None => DispatchResult { stop: false, published_to: None },
            }
        },
        Frame::Ping(_) => DispatchResult { stop: false, published_to: None },
        Frame::Pong(_) => DispatchResult { stop: false, published_to: None },
        Frame::Close => DispatchResult { stop: true, published_to: None },
    }
}

} // verus!
