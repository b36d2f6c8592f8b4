use vstd::prelude::*;

verus! {

/// The kind of service that a service-style sink delivers events to.
#[derive(Debug, Clone, Copy, PartialEq, Eq, Structural)]
pub enum EventReceiverServiceType {
    VirtualObject,
    Workflow,
    Service,
}

/// The invocation target that an event is turned into.
#[derive(Debug, Clone, PartialEq, Eq)]
pub enum EventInvocationTargetTemplate {
    Service { name: String, handler: String },
    VirtualObject { name: String, handler: String },
    Workflow { name: String, handler: String },
}

impl EventInvocationTargetTemplate {
    /// A copy of this template, equal to it.
    pub fn copied(&self) -> (r: Self)
        ensures
            r == *self,
    {
        match self {
            EventInvocationTargetTemplate::Service { name, handler } => {
                EventInvocationTargetTemplate::Service { name: name.clone(), handler: handler.clone() }
            },
            EventInvocationTargetTemplate::VirtualObject { name, handler } => {
                EventInvocationTargetTemplate::VirtualObject {
                    name: name.clone(),
                    handler: handler.clone(),
                }
            },
            EventInvocationTargetTemplate::Workflow { name, handler } => {
                EventInvocationTargetTemplate::Workflow { name: name.clone(), handler: handler.clone() }
            },
        }
    }
}

/// Where the events of a subscription go.
#[derive(Debug, Clone, PartialEq, Eq)]
pub enum Sink {
    /// The older, service-style sink.
    DeprecatedService { name: String, ty: EventReceiverServiceType },
    /// An invocation built from a target template.
    Invocation { event_invocation_target_template: EventInvocationTargetTemplate },
}

impl Sink {
    /// A copy of this sink, equal to it.
    pub fn copied(&self) -> (r: Self)
        ensures
            r == *self,
    {
        match self {
            Sink::DeprecatedService { name, ty } => Sink::DeprecatedService { name: name.clone(), ty: *ty },
            Sink::Invocation { event_invocation_target_template } => Sink::Invocation {
                event_invocation_target_template: event_invocation_target_template.copied(),
            },
        }
    }
}

/// A subscription: events from a source, delivered to a sink.
#[derive(Debug, Clone)]
pub struct Subscription {
    id: String,
    sink: Sink,
}

impl Subscription {
    pub fn new(id: String, sink: Sink) -> (r: Self)
        ensures
            r.id_view() == id@,
            r.sink_view() == sink,
    {
        Subscription { id, sink }
    }

    pub closed spec fn id_view(&self) -> Seq<char> {
        self.id@
    }

    pub closed spec fn sink_view(&self) -> Sink {
        self.sink
    }

    /// A copy of this subscription, equal to it.
    pub fn copied(&self) -> (r: Self)
        ensures
            r.id_view() == self.id_view(),
            r.sink_view() == self.sink_view(),
    {
        Subscription { id: self.id.clone(), sink: self.sink.copied() }
    }

    pub fn id(&self) -> (r: &String)
        ensures
            r@ == self.id_view(),
    {
        &self.id
    }

    pub fn sink(&self) -> (r: &Sink)
        ensures
            *r == self.sink_view(),
    {
        &self.sink
    }
}

} // verus!
