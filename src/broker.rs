//! The broker client: connection lifecycle, queue topology and the
//! consumption loop, as decisions on the events that the I/O side reports.
use vstd::prelude::*;

use lapin::Channel;

use crate::config::{require_config, ConfigKey, StartupError};
use crate::handler::{body_decodes, plan_delivery, HandlerAction};

verus! {

#[verifier::external_type_specification]
#[verifier::external_body]
pub struct ExChannel(Channel);

/// The queue that requests arrive on.
pub open spec fn request_queue() -> Seq<char> {
    "user.request"@
}

/// Where the client stands in its lifecycle.
#[derive(PartialEq, Eq, Structural, Clone, Copy, Debug)]
pub enum ClientPhase {
    /// Created; `connect` not yet called.
    Idle,
    /// The URI was found; the connection and channel are being opened.
    Connecting,
    /// The channel is open; no queue operation yet.
    Connected,
    /// The request queue is being declared.
    Declaring,
    /// The consumer on the request queue is being started.
    Subscribing,
    /// Deliveries are being handled one at a time.
    Consuming,
    /// The broker closed the delivery stream.
    Closed,
    /// Startup was aborted.
    Failed,
}

/// Whether the channel is open in this phase.
pub open spec fn has_channel(p: ClientPhase) -> bool {
    p == ClientPhase::Connected || p == ClientPhase::Declaring || p == ClientPhase::Subscribing
        || p == ClientPhase::Consuming
}

/// The parameters of a queue declaration: the broker's defaults, which
/// declare the queue if it is absent.
#[derive(PartialEq, Eq, Structural, Clone, Copy, Debug)]
pub struct QueueOptions {
    pub passive: bool,
    pub durable: bool,
    pub exclusive: bool,
    pub auto_delete: bool,
    pub nowait: bool,
}

pub open spec fn default_queue_options() -> QueueOptions {
    QueueOptions { passive: false, durable: false, exclusive: false, auto_delete: false, nowait: false }
}

/// A queue declaration to make.
pub struct QueueDeclaration {
    pub queue: String,
    pub options: QueueOptions,
}

/// What the consumption loop does next.
pub enum LoopAction {
    /// Run the handler's decision for the delivery just received, then wait
    /// for the next one.
    Dispatch(HandlerAction),
    /// The stream has ended: leave the loop.
    Stop,
}

/// The broker client. It owns the channel, which exists exactly while the
/// phase says it does.
pub struct AMQPClient {
    phase: ClientPhase,
    channel: Option<Channel>,
}

/// The operations that drive a client from creation to consumption.
pub trait AMQPClientExt: Sized {
    /// The client's internal invariant.
    spec fn well_formed(&self) -> bool;

    spec fn client_phase(&self) -> ClientPhase;

    /// Starts connecting with the URI that the environment held: fails, and
    /// no queue operation can follow, where there was none.
    fn connect(&mut self, uri: Option<String>) -> (r: Result<String, StartupError>)
        requires
            old(self).well_formed(),
            old(self).client_phase() == ClientPhase::Idle,
        ensures
            final(self).well_formed(),
            match uri {
                Some(u) => r is Ok && r->Ok_0@ == u@ && final(self).client_phase()
                    == ClientPhase::Connecting,
                None => r == Err::<String, StartupError>(
                    StartupError::MissingConfig(ConfigKey::AmqpUri),
                ) && final(self).client_phase() == ClientPhase::Failed,
            },
    ;

    /// Starts handling requests: the declaration of the request queue.
    fn handle_user_request(&mut self) -> (r: QueueDeclaration)
        requires
            old(self).well_formed(),
            old(self).client_phase() == ClientPhase::Connected,
        ensures
            final(self).well_formed(),
            r.queue@ == request_queue(),
            r.options == default_queue_options(),
            final(self).client_phase() == ClientPhase::Declaring,
    ;
}

impl AMQPClient {
    /// The channel that the client holds, if any.
    pub closed spec fn spec_channel(&self) -> Option<Channel> {
        self.channel
    }

    pub fn new() -> (r: AMQPClient)
        ensures
            r.well_formed(),
            r.client_phase() == ClientPhase::Idle,
    {
        AMQPClient { phase: ClientPhase::Idle, channel: None }
    }

    pub fn phase(&self) -> (r: ClientPhase)
        ensures
            r == self.client_phase(),
    {
        self.phase
    }

    /// The open channel.
    pub fn get_channel(&self) -> (r: &Channel)
        requires
            self.well_formed(),
            has_channel(self.client_phase()),
        ensures
            self.spec_channel() == Some(*r),
    {
        self.channel.as_ref().unwrap()
    }

    /// The connection and its channel are open.
    pub fn channel_opened(&mut self, channel: Channel)
        requires
            old(self).well_formed(),
            old(self).client_phase() == ClientPhase::Connecting,
        ensures
            final(self).well_formed(),
            final(self).client_phase() == ClientPhase::Connected,
            final(self).spec_channel() == Some(channel),
    {
        self.channel = Some(channel);
        self.phase = ClientPhase::Connected;
    }

    /// Opening the connection or its channel failed.
    pub fn connect_failed(&mut self) -> (r: StartupError)
        requires
            old(self).well_formed(),
            old(self).client_phase() == ClientPhase::Connecting,
        ensures
            final(self).well_formed(),
            final(self).client_phase() == ClientPhase::Failed,
            r == StartupError::BrokerUnreachable,
    {
        self.phase = ClientPhase::Failed;
        StartupError::BrokerUnreachable
    }

    /// The broker's answer to the queue declaration: on success, the queue to
    /// start a consumer on.
    pub fn queue_declared(&mut self, ok: bool) -> (r: Result<String, StartupError>)
        requires
            old(self).well_formed(),
            old(self).client_phase() == ClientPhase::Declaring,
        ensures
            final(self).well_formed(),
            ok ==> r is Ok && r->Ok_0@ == request_queue() && final(self).client_phase()
                == ClientPhase::Subscribing && final(self).spec_channel() == old(self).spec_channel(),
            !ok ==> r == Err::<String, StartupError>(StartupError::QueueDeclareFailed)
                && final(self).client_phase() == ClientPhase::Failed,
    {
        if ok {
            self.phase = ClientPhase::Subscribing;
            Ok(request_queue_name())
        } else {
            self.phase = ClientPhase::Failed;
            self.channel = None;
            Err(StartupError::QueueDeclareFailed)
        }
    }

    /// The broker's answer to starting the consumer.
    pub fn consumer_started(&mut self, ok: bool) -> (r: Result<(), StartupError>)
        requires
            old(self).well_formed(),
            old(self).client_phase() == ClientPhase::Subscribing,
        ensures
            final(self).well_formed(),
            ok ==> r is Ok && final(self).client_phase() == ClientPhase::Consuming
                && final(self).spec_channel() == old(self).spec_channel(),
            !ok ==> r == Err::<(), StartupError>(StartupError::ConsumeFailed)
                && final(self).client_phase() == ClientPhase::Failed,
    {
        if ok {
            self.phase = ClientPhase::Consuming;
            Ok(())
        } else {
            self.phase = ClientPhase::Failed;
            self.channel = None;
            Err(StartupError::ConsumeFailed)
        }
    }

    /// One turn of the consumption loop, given what the stream yielded: a
    /// delivery body is handed to the handler and the loop goes on, whatever
    /// the handler decides; the end of the stream ends the loop.
    pub fn next_delivery(&mut self, delivery: Option<Vec<u8>>) -> (r: LoopAction)
        requires
            old(self).well_formed(),
            old(self).client_phase() == ClientPhase::Consuming,
        ensures
            final(self).well_formed(),
            match delivery {
                Some(body) => final(self).client_phase() == ClientPhase::Consuming
                    && final(self).spec_channel() == old(self).spec_channel() && match body_decodes(body@) {
                    Ok(u) => r is Dispatch && r->Dispatch_0 is Persist && r->Dispatch_0->Persist_0@ == u,
                    Err(e) => r is Dispatch && r->Dispatch_0 is Reject && r->Dispatch_0->Reject_0 == e,
                },
                None => r is Stop && final(self).client_phase() == ClientPhase::Closed,
            },
    {
        match delivery {
            Some(body) => LoopAction::Dispatch(plan_delivery(&body)),
            None => {
                self.phase = ClientPhase::Closed;
                self.channel = None;
                LoopAction::Stop
            },
        }
    }
}

/// The name of the request queue.
pub fn request_queue_name() -> (r: String)
    ensures
        r@ == request_queue(),
{
    String::from_str("user.request")
}

impl AMQPClientExt for AMQPClient {
    /// The channel is held exactly in the phases that have one.
    closed spec fn well_formed(&self) -> bool {
        self.channel is Some <==> has_channel(self.phase)
    }

    closed spec fn client_phase(&self) -> ClientPhase {
        self.phase
    }

    fn connect(&mut self, uri: Option<String>) -> (r: Result<String, StartupError>) {
        let r = require_config(ConfigKey::AmqpUri, uri);
        if r.is_ok() {
            self.phase = ClientPhase::Connecting;
        } else {
            self.phase = ClientPhase::Failed;
        }
        r
    }

    fn handle_user_request(&mut self) -> (r: QueueDeclaration) {
        self.phase = ClientPhase::Declaring;
        QueueDeclaration {
            queue: request_queue_name(),
            options: QueueOptions {
                passive: false,
                durable: false,
                exclusive: false,
                auto_delete: false,
                nowait: false,
            },
        }
    }
}

} // verus!
