//! The conversation with a home-automation hub over its websocket: what to
//! answer to each of its messages, and when a change of the tracked device's
//! zone means that the athlete left for the trails or came home.

use vstd::prelude::*;
use vstd::string::StringExecFns;

verus! {

/// The hub asks for a credential.
#[derive(Debug)]
pub struct HAAuthRequired {
    pub ha_version: String,
}

/// The hub accepted the credential.
#[derive(Debug)]
pub struct HAAuthOk {
    pub ha_version: String,
}

/// The hub refused the credential.
#[derive(Debug)]
pub struct HAAuthInvalid {
    pub message: String,
}

/// Who caused an event.
#[derive(Debug)]
pub struct EventContext {
    pub id: String,
    pub parent_id: Option<String>,
    pub user_id: String,
}

/// The credential, as it is sent to the hub.
#[derive(Debug)]
pub struct HAAuthRequest {
    pub type_field: String,
    pub access_token: String,
}

/// What to be told about.
#[derive(Debug)]
pub struct Trigger {
    pub platform: String,
    pub entity_id: String,
}

/// The request to be told about a trigger.
#[derive(Debug)]
pub struct SubscribeTriggerRequest {
    pub id: u64,
    pub type_field: String,
    pub trigger: Trigger,
}

/// A message of the hub, reduced to what the answer depends on.
#[derive(Debug)]
pub enum HAMessage {
    HAAuthRequired(HAAuthRequired),
    HAAuthOk(HAAuthOk),
    HAAuthInvalid(HAAuthInvalid),
    /// The answer to a subscription.
    HAResult { id: u64, success: bool },
    /// The tracked device went from one zone to another.
    HAEvent { from_state: String, to_state: String },
}

/// What a message calls for.
#[derive(Debug)]
pub enum HAAction {
    /// Send the credential.
    Authenticate(HAAuthRequest),
    /// Subscribe to the tracked device's changes of zone.
    Subscribe(SubscribeTriggerRequest),
    /// Record whether the athlete is on the trails.
    SetOnTrails(bool),
    /// Nothing to send and nothing to record.
    Nothing,
}

pub enum HAActionView {
    Authenticate { type_field: Seq<char>, access_token: Seq<char> },
    Subscribe { id: u64, type_field: Seq<char>, platform: Seq<char>, entity_id: Seq<char> },
    SetOnTrails(bool),
    Nothing,
}

impl DeepView for HAAction {
    type V = HAActionView;

    open spec fn deep_view(&self) -> HAActionView {
        match self {
            HAAction::Authenticate(request) => HAActionView::Authenticate {
                type_field: request.type_field@,
                access_token: request.access_token@,
            },
            HAAction::Subscribe(request) => HAActionView::Subscribe {
                id: request.id,
                type_field: request.type_field@,
                platform: request.trigger.platform@,
                entity_id: request.trigger.entity_id@,
            },
            HAAction::SetOnTrails(on) => HAActionView::SetOnTrails(*on),
            HAAction::Nothing => HAActionView::Nothing,
        }
    }
}

/// The number under which the subscription is made.
pub const SUBSCRIPTION_ID: u64 = 2;

/// What a change of zone means: leaving home is leaving for the trails, and
/// arriving home from away ends the outing. Any other change means nothing.
pub open spec fn zone_change(from_state: Seq<char>, to_state: Seq<char>) -> HAActionView {
    if from_state == "home"@ && to_state == "away"@ {
        HAActionView::SetOnTrails(true)
    } else if from_state == "away"@ && to_state == "home"@ {
        HAActionView::SetOnTrails(false)
    } else {
        HAActionView::Nothing
    }
}

/// The answer to a message of the hub, given the credential to present.
pub open spec fn answer_to(message: HAMessage, access_token: Seq<char>) -> HAActionView {
    match message {
        HAMessage::HAAuthRequired(_) => HAActionView::Authenticate {
            type_field: "auth"@,
            access_token,
        },
        HAMessage::HAAuthOk(_) => HAActionView::Subscribe {
            id: SUBSCRIPTION_ID,
            type_field: "subscribe_trigger"@,
            platform: "state"@,
            entity_id: "device_tracker.zacs_iphone_2"@,
        },
        HAMessage::HAAuthInvalid(_) => HAActionView::Nothing,
        HAMessage::HAResult { .. } => HAActionView::Nothing,
        HAMessage::HAEvent { from_state, to_state } => zone_change(from_state@, to_state@),
    }
}

/// Decides what a message of the hub calls for.
pub fn ws_connect(message: &HAMessage, access_token: &str) -> (action: HAAction)
    ensures
        action.deep_view() == answer_to(*message, access_token@),
{
    match message {
        HAMessage::HAAuthRequired(_) => HAAction::Authenticate(
            HAAuthRequest {
                type_field: String::from_str("auth"),
                access_token: String::from_str(access_token),
            },
        ),
        HAMessage::HAAuthOk(_) => HAAction::Subscribe(
            SubscribeTriggerRequest {
                id: SUBSCRIPTION_ID,
                type_field: String::from_str("subscribe_trigger"),
                trigger: Trigger {
                    platform: String::from_str("state"),
                    entity_id: String::from_str("device_tracker.zacs_iphone_2"),
                },
            },
        ),
        HAMessage::HAAuthInvalid(_) => HAAction::Nothing,
        HAMessage::HAResult { .. } => HAAction::Nothing,
        HAMessage::HAEvent { from_state, to_state } => {
            if *from_state.as_str() == *"home" && *to_state.as_str() == *"away" {
                HAAction::SetOnTrails(true)
            } else if *from_state.as_str() == *"away" && *to_state.as_str() == *"home" {
                HAAction::SetOnTrails(false)
            } else {
                HAAction::Nothing
            }
        },
    }
}

} // verus!
