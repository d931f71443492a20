//! The request dispatcher. It routes each decoded request to the service that
//! owns its kind: the subscription and monitored-item requests are served
//! here, against the session; the discovery, session and view requests are
//! handed on to their services, which live outside this library; every other
//! kind of message is refused.

use crate::monitored_item::{Binary64, CreateMonitoredItem, ModifyMonitoredItem};
use crate::session::{
    modify_results, presence_results, removal_results, ServerState, SessionState, SessionView,
};
use crate::status::StatusCode;
use crate::subscription_state::publishing_set;
use vstd::prelude::*;

verus! {

/// A service outside this library that the dispatcher hands requests to.
#[derive(Clone, Copy, Debug, PartialEq, Eq, Structural)]
pub enum Service {
    Discovery,
    Session,
    View,
}

/// A decoded message. The requests that this library serves carry their
/// fields; of the others only the kind is held.
#[derive(Clone, Debug, PartialEq, Eq)]
pub enum SupportedMessage {
    GetEndpointsRequest,
    CreateSessionRequest,
    CloseSessionRequest,
    ActivateSessionRequest,
    BrowseRequest,
    CreateSubscriptionRequest {
        publishing_interval: Binary64,
        lifetime_count: u32,
        max_keep_alive_count: u32,
        max_notifications_per_publish: u32,
        priority: u8,
        publishing_enabled: bool,
    },
    CreateSubscriptionResponse { subscription_id: u32 },
    ModifySubscriptionRequest {
        subscription_id: u32,
        publishing_interval: Binary64,
        lifetime_count: u32,
        max_keep_alive_count: u32,
        max_notifications_per_publish: u32,
        priority: u8,
    },
    ModifySubscriptionResponse,
    DeleteSubscriptionsRequest { subscription_ids: Vec<u32> },
    DeleteSubscriptionsResponse { results: Vec<StatusCode> },
    SetPublishingModeRequest { publishing_enabled: bool, subscription_ids: Vec<u32> },
    SetPublishingModeResponse { results: Vec<StatusCode> },
    CreateMonitoredItemsRequest { subscription_id: u32, items_to_create: Vec<CreateMonitoredItem> },
    CreateMonitoredItemsResponse { results: Vec<StatusCode> },
    ModifyMonitoredItemsRequest { subscription_id: u32, items_to_modify: Vec<ModifyMonitoredItem> },
    ModifyMonitoredItemsResponse { results: Vec<StatusCode> },
    DeleteMonitoredItemsRequest { subscription_id: u32, monitored_item_ids: Vec<u32> },
    DeleteMonitoredItemsResponse { results: Vec<StatusCode> },
    PublishRequest,
    ReadRequest,
    WriteRequest,
}

/// What the dispatcher did with a request.
#[derive(Clone, Debug, PartialEq, Eq)]
pub enum Handled {
    /// The request was served; this is its response.
    Response(SupportedMessage),
    /// The request belongs to this service, which has to be called with it.
    Forward(Service),
    /// The request was queued; a later tick answers it.
    Deferred,
}

impl SupportedMessage {
    /// The outside service that owns this kind of message, if one does.
    pub open spec fn forwarded_to(self) -> Option<Service> {
        match self {
            SupportedMessage::GetEndpointsRequest => Some(Service::Discovery),
            SupportedMessage::CreateSessionRequest => Some(Service::Session),
            SupportedMessage::CloseSessionRequest => Some(Service::Session),
            SupportedMessage::ActivateSessionRequest => Some(Service::Session),
            SupportedMessage::BrowseRequest => Some(Service::View),
            _ => None,
        }
    }

    /// The message is a subscription or monitored-item request.
    pub open spec fn served_here(self) -> bool {
        ||| self is CreateSubscriptionRequest
        ||| self is ModifySubscriptionRequest
        ||| self is DeleteSubscriptionsRequest
        ||| self is SetPublishingModeRequest
        ||| self is CreateMonitoredItemsRequest
        ||| self is ModifyMonitoredItemsRequest
        ||| self is DeleteMonitoredItemsRequest
        ||| self is PublishRequest
    }

    /// Some handler serves this kind of message.
    pub open spec fn supported(self) -> bool {
        self.forwarded_to() is Some || self.served_here()
    }
}

/// Processes and dispatches messages for handling
pub struct MessageHandler {
    /// Server state
    server_state: ServerState,
}

impl MessageHandler {
    pub closed spec fn server(&self) -> ServerState {
        self.server_state
    }

    pub fn new(server_state: &ServerState) -> (handler: MessageHandler)
        ensures
            handler.server() == *server_state,
    {
        MessageHandler { server_state: *server_state }
    }

    pub fn server_state(&self) -> (server_state: &ServerState)
        ensures
            *server_state == self.server(),
    {
        &self.server_state
    }

    /// Routes one message. The caller holds the session's lock for the
    /// length of the call.
    ///
    /// A message of a kind that no handler serves fails with
    /// `BadServiceUnsupported` and leaves the session as it was. A discovery,
    /// session or view request is answered with the service to call and
    /// leaves the session as it was. A subscription or monitored-item request
    /// is served on the session; its result is that of the session's service,
    /// a failure passed on as it came.
    pub fn handle_message(
        &mut self,
        session_state: &mut SessionState,
        message: &SupportedMessage,
    ) -> (outcome: Result<Handled, StatusCode>)
        requires
            old(session_state)@.wf(),
        ensures
            final(session_state)@.wf(),
            final(self).server() == old(self).server(),
            !message.supported() ==> outcome == Err::<Handled, StatusCode>(
                StatusCode::BadServiceUnsupported,
            ) && final(session_state)@ == old(session_state)@,
            message.forwarded_to() matches Some(service) ==> outcome == Ok::<Handled, StatusCode>(
                Handled::Forward(service),
            ) && final(session_state)@ == old(session_state)@,
            *message matches SupportedMessage::CreateSubscriptionRequest {
                publishing_interval,
                lifetime_count,
                max_keep_alive_count,
                max_notifications_per_publish,
                priority,
                publishing_enabled,
            } ==> if old(session_state)@.can_create(old(self).server()) {
                &&& outcome == Ok::<Handled, StatusCode>(
                    Handled::Response(
                        SupportedMessage::CreateSubscriptionResponse {
                            subscription_id: (old(session_state)@.last_subscription_id + 1) as u32,
                        },
                    ),
                )
                &&& final(session_state)@ == old(session_state)@.with_created(
                    publishing_interval,
                    lifetime_count,
                    max_keep_alive_count,
                    max_notifications_per_publish,
                    priority,
                    publishing_enabled,
                )
            } else {
                &&& outcome == Err::<Handled, StatusCode>(StatusCode::BadTooManySubscriptions)
                &&& final(session_state)@ == old(session_state)@
            },
            *message matches SupportedMessage::ModifySubscriptionRequest {
                subscription_id,
                publishing_interval,
                lifetime_count,
                max_keep_alive_count,
                max_notifications_per_publish,
                priority,
            } ==> if old(session_state)@.subscriptions.contains_key(subscription_id) {
                &&& outcome == Ok::<Handled, StatusCode>(
                    Handled::Response(SupportedMessage::ModifySubscriptionResponse),
                )
                &&& final(session_state)@ == old(session_state)@.with_subscription(
                    subscription_id,
                    old(session_state)@.subscriptions[subscription_id].modified(
                        publishing_interval,
                        lifetime_count,
                        max_keep_alive_count,
                        max_notifications_per_publish,
                        priority,
                    ),
                )
            } else {
                &&& outcome == Err::<Handled, StatusCode>(StatusCode::BadSubscriptionIdInvalid)
                &&& final(session_state)@ == old(session_state)@
            },
            *message matches SupportedMessage::DeleteSubscriptionsRequest { subscription_ids } ==> {
                &&& outcome matches Ok(
                    Handled::Response(SupportedMessage::DeleteSubscriptionsResponse { results }),
                )
                &&& results@ == removal_results(
                    old(session_state)@.subscriptions.dom(),
                    subscription_ids@,
                    StatusCode::BadSubscriptionIdInvalid,
                )
                &&& final(session_state)@ == (SessionView {
                    subscriptions: old(session_state)@.subscriptions.remove_keys(
                        subscription_ids@.to_set(),
                    ),
                    ..old(session_state)@
                })
            },
            *message matches SupportedMessage::SetPublishingModeRequest {
                publishing_enabled,
                subscription_ids,
            } ==> {
                &&& outcome matches Ok(
                    Handled::Response(SupportedMessage::SetPublishingModeResponse { results }),
                )
                &&& results@ == presence_results(
                    old(session_state)@.subscriptions.dom(),
                    subscription_ids@,
                    StatusCode::BadSubscriptionIdInvalid,
                )
                &&& final(session_state)@ == (SessionView {
                    subscriptions: publishing_set(
                        old(session_state)@.subscriptions,
                        subscription_ids@,
                        publishing_enabled,
                    ),
                    ..old(session_state)@
                })
            },
            *message matches SupportedMessage::CreateMonitoredItemsRequest {
                subscription_id,
                items_to_create,
            } ==> if old(session_state)@.subscriptions.contains_key(subscription_id) {
                &&& outcome matches Ok(
                    Handled::Response(SupportedMessage::CreateMonitoredItemsResponse { results }),
                )
                &&& results@ == Seq::new(items_to_create@.len(), |i: int| StatusCode::Good)
                &&& final(session_state)@ == old(session_state)@.with_subscription(
                    subscription_id,
                    old(session_state)@.subscriptions[subscription_id].with_items_inserted(
                        items_to_create@,
                    ),
                )
            } else {
                &&& outcome == Err::<Handled, StatusCode>(StatusCode::BadSubscriptionIdInvalid)
                &&& final(session_state)@ == old(session_state)@
            },
            *message matches SupportedMessage::ModifyMonitoredItemsRequest {
                subscription_id,
                items_to_modify,
            } ==> if old(session_state)@.subscriptions.contains_key(subscription_id) {
                &&& outcome matches Ok(
                    Handled::Response(SupportedMessage::ModifyMonitoredItemsResponse { results }),
                )
                &&& results@ == modify_results(
                    old(session_state)@.subscriptions[subscription_id].monitored_items,
                    items_to_modify@,
                )
                &&& final(session_state)@ == old(session_state)@.with_subscription(
                    subscription_id,
                    old(session_state)@.subscriptions[subscription_id].with_items_modified(
                        items_to_modify@,
                    ),
                )
            } else {
                &&& outcome == Err::<Handled, StatusCode>(StatusCode::BadSubscriptionIdInvalid)
                &&& final(session_state)@ == old(session_state)@
            },
            *message matches SupportedMessage::DeleteMonitoredItemsRequest {
                subscription_id,
                monitored_item_ids,
            } ==> if old(session_state)@.subscriptions.contains_key(subscription_id) {
                &&& outcome matches Ok(
                    Handled::Response(SupportedMessage::DeleteMonitoredItemsResponse { results }),
                )
                &&& results@ == removal_results(
                    old(session_state)@.subscriptions[subscription_id].monitored_items.dom(),
                    monitored_item_ids@,
                    StatusCode::BadMonitoredItemIdInvalid,
                )
                &&& final(session_state)@ == old(session_state)@.with_subscription(
                    subscription_id,
                    old(session_state)@.subscriptions[subscription_id].with_items_deleted(
                        monitored_item_ids@,
                    ),
                )
            } else {
                &&& outcome == Err::<Handled, StatusCode>(StatusCode::BadSubscriptionIdInvalid)
                &&& final(session_state)@ == old(session_state)@
            },
            message is PublishRequest ==> if old(session_state)@.subscriptions.dom().is_empty() {
                &&& outcome == Err::<Handled, StatusCode>(StatusCode::BadNoSubscription)
                &&& final(session_state)@ == old(session_state)@
            } else if old(session_state)@.publish_requests == u32::MAX {
                &&& outcome == Err::<Handled, StatusCode>(StatusCode::BadTooManyPublishRequests)
                &&& final(session_state)@ == old(session_state)@
            } else {
                &&& outcome == Ok::<Handled, StatusCode>(Handled::Deferred)
                &&& final(session_state)@ == (SessionView {
                    publish_requests: (old(session_state)@.publish_requests + 1) as u32,
                    ..old(session_state)@
                })
            },
    {
        let response = match message {
            SupportedMessage::GetEndpointsRequest => {
                return Ok(Handled::Forward(Service::Discovery));
            },
            SupportedMessage::CreateSessionRequest => {
                return Ok(Handled::Forward(Service::Session));
            },
            SupportedMessage::CloseSessionRequest => {
                return Ok(Handled::Forward(Service::Session));
            },
            SupportedMessage::ActivateSessionRequest => {
                return Ok(Handled::Forward(Service::Session));
            },
            SupportedMessage::BrowseRequest => {
                return Ok(Handled::Forward(Service::View));
            },
            SupportedMessage::CreateSubscriptionRequest {
                publishing_interval,
                lifetime_count,
                max_keep_alive_count,
                max_notifications_per_publish,
                priority,
                publishing_enabled,
            } => {
                let subscription_id = session_state.create_subscription(
                    &self.server_state,
                    *publishing_interval,
                    *lifetime_count,
                    *max_keep_alive_count,
                    *max_notifications_per_publish,
                    *priority,
                    *publishing_enabled,
                )?;
                SupportedMessage::CreateSubscriptionResponse { subscription_id }
            },
            SupportedMessage::ModifySubscriptionRequest {
                subscription_id,
                publishing_interval,
                lifetime_count,
                max_keep_alive_count,
                max_notifications_per_publish,
                priority,
            } => {
                session_state.modify_subscription(
                    *subscription_id,
                    *publishing_interval,
                    *lifetime_count,
                    *max_keep_alive_count,
                    *max_notifications_per_publish,
                    *priority,
                )?;
                SupportedMessage::ModifySubscriptionResponse
            },
            SupportedMessage::DeleteSubscriptionsRequest { subscription_ids } => {
                let results = session_state.delete_subscriptions(subscription_ids.as_slice());
                SupportedMessage::DeleteSubscriptionsResponse { results }
            },
            SupportedMessage::SetPublishingModeRequest { publishing_enabled, subscription_ids } => {
                let results = session_state.set_publishing_mode(
                    *publishing_enabled,
                    subscription_ids.as_slice(),
                );
                SupportedMessage::SetPublishingModeResponse { results }
            },
            SupportedMessage::CreateMonitoredItemsRequest { subscription_id, items_to_create } => {
                let results = session_state.create_monitored_items(
                    *subscription_id,
                    items_to_create.as_slice(),
                )?;
                SupportedMessage::CreateMonitoredItemsResponse { results }
            },
            SupportedMessage::ModifyMonitoredItemsRequest { subscription_id, items_to_modify } => {
                let results = session_state.modify_monitored_items(
                    *subscription_id,
                    items_to_modify.as_slice(),
                )?;
                SupportedMessage::ModifyMonitoredItemsResponse { results }
            },
            SupportedMessage::DeleteMonitoredItemsRequest { subscription_id, monitored_item_ids } => {
                let results = session_state.delete_monitored_items(
                    *subscription_id,
                    monitored_item_ids.as_slice(),
                )?;
                SupportedMessage::DeleteMonitoredItemsResponse { results }
            },
            SupportedMessage::PublishRequest => {
                session_state.publish()?;
                return Ok(Handled::Deferred);
            },
            _ => {
                return Err(StatusCode::BadServiceUnsupported);
            },
        };
        Ok(Handled::Response(response))
    }
}

} // verus!
