//! The instrumented callback: a user function with a correlation token, whose
//! registration and every invocation are traced.

use crate::event::{encodable, EventView};
use crate::identity::TracingId;
use crate::rclcpp_tracepoints::{
    trace_callback_end, trace_callback_register, trace_callback_start,
    trace_service_callback_added, trace_subscription_callback_added, trace_timer_callback_added,
};
use crate::sink::Sink;
use crate::stream::{
    invocation, is_start, lemma_registration_precedes_use, registered_before_use,
};
use crate::token::{successor, TokenGenerator};
use std::marker::PhantomData;
use vstd::prelude::*;

verus! {

/// The kinds of entity that own a callback.
#[derive(Clone, Copy, Debug, PartialEq, Eq, Structural)]
pub enum OwnerKind {
    Service,
    Timer,
    Subscription,
}

/// What is recorded of a callback when it is registered.
pub struct CallbackRecord {
    /// The callback's correlation token.
    pub token: usize,
    /// The symbolic name of the function behind the callback.
    pub symbol: Seq<char>,
    /// The kind of the entity that owns the callback.
    pub owner_kind: OwnerKind,
    /// The address of the entity that owns the callback.
    pub owner: usize,
}

impl CallbackRecord {
    /// The event that ties the callback to its owner.
    pub open spec fn added(self) -> EventView {
        match self.owner_kind {
            OwnerKind::Service => EventView::ServiceCallbackAdded {
                service: self.owner,
                callback: self.token,
            },
            OwnerKind::Timer => EventView::TimerCallbackAdded {
                timer: self.owner,
                callback: self.token,
            },
            OwnerKind::Subscription => EventView::SubscriptionCallbackAdded {
                subscription: self.owner,
                callback: self.token,
            },
        }
    }

    /// The event that binds the callback's token to its symbolic name.
    pub open spec fn register(self) -> EventView {
        EventView::CallbackRegister { callback: self.token, symbol: self.symbol }
    }

    /// The events of the callback's registration, in the order in which they
    /// are written.
    pub open spec fn registration(self) -> Seq<EventView> {
        seq![self.added(), self.register()]
    }

    /// Once a callback's registration stands in a stream that has not started
    /// the callback before, every start of it, whatever is written later,
    /// comes after both events of the registration.
    pub proof fn lemma_registered_before_use(self, before: Seq<EventView>, later: Seq<EventView>)
        requires
            forall|i: int| 0 <= i < before.len() ==> !is_start(#[trigger] before[i], self.token),
        ensures
            registered_before_use(before + self.registration() + later, self.token),
    {
        lemma_registration_precedes_use(before, self.added(), self.register(), later, self.token);
    }
}

/// A user function of one message, registered under a token of its own. Each
/// invocation is bracketed by a start and an end event that bear the token.
pub struct Callback<F, M> where F: FnMut(M) {
    func: F,
    id: usize,
    symbol: String,
    owner_kind: OwnerKind,
    owner: TracingId,
    msg_type: PhantomData<M>,
}

impl<F, M> View for Callback<F, M> where F: FnMut(M) {
    type V = CallbackRecord;

    closed spec fn view(&self) -> CallbackRecord {
        CallbackRecord {
            token: self.id,
            symbol: self.symbol@,
            owner_kind: self.owner_kind,
            owner: self.owner@,
        }
    }
}

impl<F, M> Callback<F, M> where F: FnMut(M) {
    /// The wrapped function.
    pub closed spec fn func(&self) -> F {
        self.func
    }

    /// Takes the next token from `tokens`.
    pub fn gen_id(tokens: &mut TokenGenerator) -> (id: usize)
        ensures
            id == old(tokens)@,
            final(tokens)@ == successor(old(tokens)@),
            *final(tokens) == old(tokens).after(1),
    {
        tokens.next()
    }

    /// Binds `id` to `function_symbol` in the trace and wraps `callback`.
    fn new(
        callback: F,
        id: usize,
        function_symbol: &str,
        owner_kind: OwnerKind,
        owner: TracingId,
        sink: &mut Sink,
    ) -> (wrapped: Self)
        requires
            encodable(function_symbol@),
        ensures
            wrapped@ == (CallbackRecord {
                token: id,
                symbol: function_symbol@,
                owner_kind,
                owner: owner@,
            }),
            wrapped.func() == callback,
            final(sink).follows(old(sink), seq![wrapped@.register()]),
    {
        trace_callback_register(sink, id, function_symbol);
        Callback {
            func: callback,
            id,
            symbol: function_symbol.to_owned(),
            owner_kind,
            owner,
            msg_type: PhantomData,
        }
    }

    /// Registers `callback` as the callback of the service at `service`: takes
    /// a new token, ties it to the service and binds it to `function_symbol`.
    pub fn new_service(
        service: TracingId,
        callback: F,
        function_symbol: &str,
        tokens: &mut TokenGenerator,
        sink: &mut Sink,
    ) -> (wrapped: Self)
        requires
            encodable(function_symbol@),
        ensures
            wrapped@ == (CallbackRecord {
                token: old(tokens)@,
                symbol: function_symbol@,
                owner_kind: OwnerKind::Service,
                owner: service@,
            }),
            wrapped.func() == callback,
            final(tokens)@ == successor(old(tokens)@),
            *final(tokens) == old(tokens).after(1),
            final(sink).follows(old(sink), wrapped@.registration()),
    {
        let id: usize = Self::gen_id(tokens);
        trace_service_callback_added(sink, service, id);
        let ghost tied = *sink;
        let wrapped = Self::new(callback, id, function_symbol, OwnerKind::Service, service, sink);
        proof {
            sink.lemma_follows_twice(
                &tied,
                old(sink),
                seq![wrapped@.added()],
                seq![wrapped@.register()],
            );
            assert(seq![wrapped@.added()] + seq![wrapped@.register()]
                =~= wrapped@.registration());
        }
        wrapped
    }

    /// Registers `callback` as the callback of the timer at `timer`: takes a
    /// new token, ties it to the timer and binds it to `function_symbol`.
    pub fn new_timer(
        timer: TracingId,
        callback: F,
        function_symbol: &str,
        tokens: &mut TokenGenerator,
        sink: &mut Sink,
    ) -> (wrapped: Self)
        requires
            encodable(function_symbol@),
        ensures
            wrapped@ == (CallbackRecord {
                token: old(tokens)@,
                symbol: function_symbol@,
                owner_kind: OwnerKind::Timer,
                owner: timer@,
            }),
            wrapped.func() == callback,
            final(tokens)@ == successor(old(tokens)@),
            *final(tokens) == old(tokens).after(1),
            final(sink).follows(old(sink), wrapped@.registration()),
    {
        let id: usize = Self::gen_id(tokens);
        trace_timer_callback_added(sink, timer, id);
        let ghost tied = *sink;
        let wrapped = Self::new(callback, id, function_symbol, OwnerKind::Timer, timer, sink);
        proof {
            sink.lemma_follows_twice(
                &tied,
                old(sink),
                seq![wrapped@.added()],
                seq![wrapped@.register()],
            );
            assert(seq![wrapped@.added()] + seq![wrapped@.register()]
                =~= wrapped@.registration());
        }
        wrapped
    }

    /// Registers `callback` as the callback of the subscription object at
    /// `subscriber`: takes a new token, ties it to the subscription and binds
    /// it to `function_symbol`.
    pub fn new_subscription(
        subscriber: TracingId,
        callback: F,
        function_symbol: &str,
        tokens: &mut TokenGenerator,
        sink: &mut Sink,
    ) -> (wrapped: Self)
        requires
            encodable(function_symbol@),
        ensures
            wrapped@ == (CallbackRecord {
                token: old(tokens)@,
                symbol: function_symbol@,
                owner_kind: OwnerKind::Subscription,
                owner: subscriber@,
            }),
            wrapped.func() == callback,
            final(tokens)@ == successor(old(tokens)@),
            *final(tokens) == old(tokens).after(1),
            final(sink).follows(old(sink), wrapped@.registration()),
    {
        let id: usize = Self::gen_id(tokens);
        trace_subscription_callback_added(sink, subscriber, id);
        let ghost tied = *sink;
        let wrapped = Self::new(
            callback,
            id,
            function_symbol,
            OwnerKind::Subscription,
            subscriber,
            sink,
        );
        proof {
            sink.lemma_follows_twice(
                &tied,
                old(sink),
                seq![wrapped@.added()],
                seq![wrapped@.register()],
            );
            assert(seq![wrapped@.added()] + seq![wrapped@.register()]
                =~= wrapped@.registration());
        }
        wrapped
    }

    /// The callback's correlation token.
    pub fn id(&self) -> (id: usize)
        ensures
            id == self@.token,
    {
        self.id
    }

    /// The symbolic name under which the callback is registered.
    pub fn symbol(&self) -> (symbol: &str)
        ensures
            symbol@ == self@.symbol,
    {
        self.symbol.as_str()
    }

    /// The kind of the entity that owns the callback.
    pub fn owner_kind(&self) -> (kind: OwnerKind)
        ensures
            kind == self@.owner_kind,
    {
        self.owner_kind
    }

    /// The entity that owns the callback.
    pub fn owner(&self) -> (owner: TracingId)
        ensures
            owner@ == self@.owner,
    {
        self.owner
    }

    /// Marks the start of an invocation.
    pub fn start(&self, sink: &mut Sink, is_intra_process: bool)
        ensures
            final(sink).follows(
                old(sink),
                seq![EventView::CallbackStart { callback: self@.token, is_intra_process }],
            ),
    {
        trace_callback_start(sink, self.id, is_intra_process);
    }

    /// Runs the wrapped function on `msg` and writes nothing.
    pub fn invoke(&mut self, msg: M)
        requires
            call_requires(old(self).func(), (msg,)),
        ensures
            call_ensures(old(self).func(), (msg,), ()),
            final(self)@ == old(self)@,
            final(self).func() == old(self).func(),
    {
        (self.func)(msg);
    }

    /// Marks the end of an invocation.
    pub fn end(&self, sink: &mut Sink)
        ensures
            final(sink).follows(old(sink), seq![EventView::CallbackEnd { callback: self@.token }]),
    {
        trace_callback_end(sink, self.id);
    }

    /// Invokes the callback: writes the start event, runs the wrapped function
    /// on `msg`, and writes the end event once the function has returned. The
    /// function runs whether or not the sink is enabled.
    pub fn call(&mut self, msg: M, sink: &mut Sink)
        requires
            call_requires(old(self).func(), (msg,)),
        ensures
            call_ensures(old(self).func(), (msg,), ()),
            final(self)@ == old(self)@,
            final(self).func() == old(self).func(),
            final(sink).follows(old(sink), invocation(old(self)@.token)),
    {
        self.start(sink, false);
        let ghost started = *sink;
        self.invoke(msg);
        self.end(sink);
        proof {
            sink.lemma_follows_twice(
                &started,
                old(sink),
                seq![EventView::CallbackStart { callback: self@.token, is_intra_process: false }],
                seq![EventView::CallbackEnd { callback: self@.token }],
            );
            assert(seq![EventView::CallbackStart { callback: self@.token, is_intra_process: false }]
                + seq![EventView::CallbackEnd { callback: self@.token }] =~= invocation(
                self@.token,
            ));
        }
    }
}

} // verus!
