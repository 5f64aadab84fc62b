//! The event emitter: the one place where events leave for the application.

use vstd::prelude::*;
use vstd::string::*;
use crate::iap::CommandError;
use crate::json::{Json, JsonView};

verus! {

/// One event on its way to the application: a fixed name and a payload.
#[derive(Debug, PartialEq, Eq)]
pub struct Emission {
    pub name: String,
    pub payload: Json,
}

/// The model of an [`Emission`].
pub struct EmissionView {
    pub name: Seq<char>,
    pub payload: JsonView,
}

impl View for Emission {
    type V = EmissionView;

    open spec fn view(&self) -> EmissionView {
        EmissionView { name: self.name@, payload: self.payload@ }
    }
}

/// Holds the sink that takes the events: at most one, set once and kept.
/// It keeps the record of what it has handed to the sink, in order.
pub struct Emitter<S> {
    sink: Option<S>,
    sent: Ghost<Seq<EmissionView>>,
}

impl<S: Fn(Emission)> Emitter<S> {
    /// The sink, if one has been set.
    pub closed spec fn sink(&self) -> Option<S> {
        self.sink
    }

    /// What has been handed to the sink so far, first to last. Nothing but
    /// [`deliver`] reaches the sink, and it hands over one emission a call.
    pub closed spec fn sent(&self) -> Seq<EmissionView> {
        self.sent@
    }

    /// A sink has been set.
    pub open spec fn is_set(&self) -> bool {
        self.sink() is Some
    }

    /// The sink takes every emission.
    pub open spec fn accepts_all(&self) -> bool {
        self.sink() matches Some(sink) ==> forall|emission: Emission|
            call_requires(sink, (emission,))
    }

    /// The sink has been handed an emission of the given content, and has
    /// done with it what it promises of every call.
    pub open spec fn delivered(&self, content: EmissionView) -> bool {
        self.sink() matches Some(sink) && exists|emission: Emission|
            emission@ == content && #[trigger] call_ensures(sink, (emission,), ())
    }

    /// Since `before`, the same sink has been handed exactly one emission,
    /// of the given content, after all that it had been handed until then.
    pub open spec fn sent_one(&self, before: Self, content: EmissionView) -> bool {
        &&& self.sink() == before.sink()
        &&& self.sent() == before.sent().push(content)
        &&& self.delivered(content)
    }

    /// An emitter without a sink, which has sent nothing.
    pub fn new() -> (r: Self)
        ensures
            !r.is_set(),
            r.sent() == Seq::<EmissionView>::empty(),
    {
        Emitter { sink: None, sent: Ghost(Seq::empty()) }
    }

    /// Whether a sink has been set.
    pub fn has_sink(&self) -> (r: bool)
        ensures
            r == self.is_set(),
    {
        self.sink.is_some()
    }
}

impl<S: Fn(Emission) + Copy> Emitter<S> {
    /// A handle on the same sink, to emit through while the shared emitter
    /// is free for others. Its record is its own and starts empty: it tells
    /// what went through this handle.
    pub fn handle(&self) -> (r: Emitter<S>)
        ensures
            r.sink() == self.sink(),
            r.sent() == Seq::<EmissionView>::empty(),
    {
        Emitter { sink: self.sink, sent: Ghost(Seq::empty()) }
    }
}

/// Sets the sink; a second one is refused and the first one stays. Nothing
/// is sent.
pub fn set_emit_handler<S: Fn(Emission)>(emitter: &mut Emitter<S>, handler: S) -> (r: Result<
    (),
    CommandError,
>)
    ensures
        old(emitter).is_set() ==> r == Err::<(), CommandError>(CommandError::SinkAlreadySet)
            && final(emitter).sink() == old(emitter).sink(),
        !old(emitter).is_set() ==> r is Ok && final(emitter).sink() == Some(handler),
        final(emitter).sent() == old(emitter).sent(),
{
    if emitter.sink.is_some() {
        Err(CommandError::SinkAlreadySet)
    } else {
        emitter.sink = Some(handler);
        Ok(())
    }
}

/// Hands one emission to the sink, at once and exactly once.
pub fn deliver<S: Fn(Emission)>(emitter: &mut Emitter<S>, emission: Emission)
    requires
        old(emitter).is_set(),
        old(emitter).accepts_all(),
    ensures
        final(emitter).sent_one(*old(emitter), emission@),
{
    let ghost content = emission@;
    match &emitter.sink {
        Some(sink) => {
            let ghost handed = emission;
            sink(emission);
            assert(call_ensures(*sink, (handed,), ()));
        },
        None => {},
    }
    emitter.sent = Ghost(emitter.sent@.push(content));
}

/// Emits an event of the given name and payload: the sink is handed that
/// one emission.
pub fn emit_event<S: Fn(Emission)>(emitter: &mut Emitter<S>, event: &str, payload: Json)
    requires
        old(emitter).is_set(),
        old(emitter).accepts_all(),
    ensures
        final(emitter).sent_one(*old(emitter), EmissionView { name: event@, payload: payload@ }),
{
    deliver(emitter, Emission { name: String::from_str(event), payload });
}

} // verus!
