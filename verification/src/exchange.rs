//! One call as a sequence of decisions. The library says what is to be done
//! next; the program around it does it over the network and reports what
//! came of it. A call ends in a body that has the expected shape, or in
//! exactly one failure.

use vstd::prelude::*;
use crate::address::{compose, composed_url, parsed_url, sendable};
use crate::error::Error;
use crate::query::QueryParameterSet;
use crate::shape::{check, fault_in, has_shape, lemma_no_fault_iff_shape, Shape, ShapeModel};

verus! {

/// Where a call stands.
#[derive(Debug)]
pub enum Stage {
    /// The request is to be sent, or was sent and nothing has come back yet.
    AwaitingResponse { shape: Shape },
    /// The response has begun and its body is being read.
    AwaitingBody { shape: Shape },
    /// The call is over.
    Finished,
}

/// What the program reports.
#[derive(Debug)]
pub enum Event {
    /// The response has begun.
    Responded,
    /// The body was read in full.
    Body(String),
    /// The exchange broke down; the words say how.
    Failed(String),
}

/// What the program is to do next.
#[derive(Debug)]
pub enum Action {
    /// Send one GET request to this URL.
    Get(String),
    /// Read the body of the response.
    ReadBody,
    /// Hand this body, which has the expected shape, to the caller.
    Deliver(String),
    /// Hand this failure to the caller.
    Fail(Error),
    /// Nothing: the event does not belong to this stage.
    Ignore,
}

/// Whether a stage and an action are the right opening of a call to an
/// address with parameters. A good address is asked with one GET; a bad one
/// ends the call at once with the URL failure, and nothing is sent.
pub open spec fn opens(
    base: Seq<char>,
    pairs: Seq<(Seq<char>, Seq<char>)>,
    shape: ShapeModel,
    stage: Stage,
    action: Action,
) -> bool {
    match composed_url(base, pairs) {
        Ok(url) => {
            &&& action matches Action::Get(u)
            &&& u@ == url
            &&& stage matches Stage::AwaitingResponse { shape: s }
            &&& s.model() == shape
        },
        Err(words) => {
            &&& action matches Action::Fail(Error::Url { message })
            &&& message@ == words
            &&& stage is Finished
        },
    }
}

/// Whether a stage and an action are the right answer to an event.
pub open spec fn follows(before: Stage, event: Event, after: Stage, action: Action) -> bool {
    match (before, event) {
        (Stage::AwaitingResponse { shape }, Event::Responded) => {
            &&& after == (Stage::AwaitingBody { shape })
            &&& action is ReadBody
        },
        (Stage::AwaitingResponse { .. }, Event::Failed(words)) => {
            &&& after is Finished
            &&& action matches Action::Fail(Error::Http { message })
            &&& message@ == words@
        },
        (Stage::AwaitingBody { .. }, Event::Failed(words)) => {
            &&& after is Finished
            &&& action matches Action::Fail(Error::Http { message })
            &&& message@ == words@
        },
        (Stage::AwaitingBody { shape }, Event::Body(body)) => {
            &&& after is Finished
            &&& match fault_in(body@, shape.model()) {
                None => action matches Action::Deliver(b) && b@ == body@,
                Some(fault) => action matches Action::Fail(Error::Json { failure }) && failure@
                    == fault,
            }
        },
        _ => after == before && action is Ignore,
    }
}

/// Opens a call: validates the address, attaches the parameters and says
/// what to send.
pub fn begin(base: &str, set: &QueryParameterSet, shape: Shape) -> (r: (Stage, Action))
    ensures
        opens(base@, set@, shape.model(), r.0, r.1),
        r.1 is Get <==> sendable(base@, set@),
        r.1 is Get || r.1 is Fail,
{
    match compose(base, set) {
        Ok(url) => (Stage::AwaitingResponse { shape }, Action::Get(url)),
        Err(e) => (Stage::Finished, Action::Fail(e)),
    }
}

/// Takes a call one step on.
pub fn step(stage: Stage, event: Event) -> (r: (Stage, Action))
    ensures
        follows(stage, event, r.0, r.1),
{
    match stage {
        Stage::AwaitingResponse { shape } => match event {
            Event::Responded => (Stage::AwaitingBody { shape }, Action::ReadBody),
            Event::Failed(words) => (Stage::Finished, Action::Fail(Error::Http { message: words })),
            Event::Body(body) => (Stage::AwaitingResponse { shape }, Action::Ignore),
        },
        Stage::AwaitingBody { shape } => match event {
            Event::Body(body) => match check(body.as_str(), &shape) {
                None => (Stage::Finished, Action::Deliver(body)),
                Some(failure) => (Stage::Finished, Action::Fail(Error::Json { failure })),
            },
            Event::Failed(words) => (Stage::Finished, Action::Fail(Error::Http { message: words })),
            Event::Responded => (Stage::AwaitingBody { shape }, Action::Ignore),
        },
        Stage::Finished => (Stage::Finished, Action::Ignore),
    }
}

/// A call that has failed has failed in exactly one way, and which way is
/// decided by where it stood: a URL failure can only open a call, a broken
/// exchange can only come while something is awaited, and a body of the wrong
/// shape can only come when the body was read.
pub proof fn lemma_one_failure(before: Stage, event: Event, after: Stage, action: Action)
    requires
        follows(before, event, after, action),
        action is Fail,
    ensures
        after is Finished,
        !(action->Fail_0 is Url),
        action->Fail_0 is Http <==> event is Failed,
        action->Fail_0 is Json <==> event is Body,
        action->Fail_0 is Json ==> before is AwaitingBody && fault_in(
            event->Body_0@,
            before->AwaitingBody_shape.model(),
        ) == Some(action->Fail_0->Json_failure@),
{
}

/// A body is handed to the caller only when it was read and has the shape
/// that the call expects, and it is the body that was read.
pub proof fn lemma_delivery(before: Stage, event: Event, after: Stage, action: Action)
    requires
        follows(before, event, after, action),
        action is Deliver,
    ensures
        after is Finished,
        before is AwaitingBody,
        event is Body,
        action->Deliver_0@ == event->Body_0@,
        has_shape(event->Body_0@, before->AwaitingBody_shape.model()),
{
    lemma_no_fault_iff_shape(event->Body_0@, before->AwaitingBody_shape.model());
}

/// An address that is no absolute URL ends the call before it begins: the
/// only action is to hand over the URL failure, and there is nothing to send.
pub proof fn lemma_bad_address_sends_nothing(
    base: Seq<char>,
    pairs: Seq<(Seq<char>, Seq<char>)>,
    shape: ShapeModel,
    stage: Stage,
    action: Action,
)
    requires
        parsed_url(base) is Err,
        opens(base, pairs, shape, stage, action),
    ensures
        stage is Finished,
        !(action is Get),
        action is Fail,
        action->Fail_0 is Url,
        action->Fail_0->Url_message@ == parsed_url(base)->Err_0,
{
}

/// An address that is an absolute URL and has no parameters is asked with
/// one GET, in its normal form.
pub proof fn lemma_good_address_is_asked(
    base: Seq<char>,
    pairs: Seq<(Seq<char>, Seq<char>)>,
    shape: ShapeModel,
    stage: Stage,
    action: Action,
)
    requires
        parsed_url(base) is Ok,
        pairs.len() == 0,
        opens(base, pairs, shape, stage, action),
    ensures
        stage is AwaitingResponse,
        action is Get,
        action->Get_0@ == parsed_url(base)->Ok_0,
{
}

} // verus!
