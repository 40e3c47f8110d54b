//! The core shared by every remote-backed component.
//!
//! A remote-backed component fills its state from one query issued when it
//! is created, and from then on changes state only through messages. The
//! core gives such a component a slot for the one error it displays, turns
//! the outcome of the query into a value for the component's reducer, and
//! dispatches messages: a failure that the reducer reports is stored in the
//! slot and shown, never propagated.

use crate::infra::error::{with_context, ErrorValue};
use vstd::prelude::*;

verus! {

/// The part of a component's state that the core owns.
#[derive(Clone, Debug, PartialEq, Eq)]
pub struct CommonComponentParts {
    /// The error on display, if any. Nothing clears it.
    pub error: Option<ErrorValue>,
}

impl View for CommonComponentParts {
    type V = Option<Seq<char>>;

    /// The message of the error on display.
    open spec fn view(&self) -> Option<Seq<char>> {
        self.error.deep_view()
    }
}

/// What a reducer makes of one message: the next state, and either whether
/// the component must be rendered again or the message of a failure.
pub struct Reduction<S> {
    pub state: S,
    pub outcome: Result<bool, Seq<char>>,
}

/// A component on top of the core. It supplies its messages and its reducer;
/// the core supplies `update`.
pub trait CommonComponent: Sized {
    /// The messages that the component reacts to.
    type Message: View;

    /// The component's state as a mathematical value.
    type Model;

    spec fn model(&self) -> Self::Model;

    /// Whether the reducer takes `msg` in `state`. Sending a message that is
    /// not accepted is a defect of the sender.
    spec fn accepts(state: Self::Model, msg: <Self::Message as View>::V) -> bool;

    /// The reducer: what `msg` makes of `state`.
    spec fn reduce(state: Self::Model, msg: <Self::Message as View>::V) -> Reduction<Self::Model>;

    /// The error slot of `state`.
    spec fn error(state: Self::Model) -> Option<Seq<char>>;

    /// `state` with `error` in its error slot.
    spec fn with_error(state: Self::Model, error: Option<Seq<char>>) -> Self::Model;

    /// Applies one message to the component, as `reduce` says.
    fn handle_msg(&mut self, msg: Self::Message) -> (outcome: Result<bool, ErrorValue>)
        requires
            Self::accepts(old(self).model(), msg@),
        ensures
            final(self).model() == Self::reduce(old(self).model(), msg@).state,
            match outcome {
                Ok(rerender) => Self::reduce(old(self).model(), msg@).outcome == Ok::<
                    bool,
                    Seq<char>,
                >(rerender),
                Err(e) => Self::reduce(old(self).model(), msg@).outcome == Err::<bool, Seq<char>>(
                    e@,
                ),
            },
    ;

    /// Lends the core its part of the component. Whatever the borrower
    /// leaves there becomes the error slot; nothing else changes.
    fn mut_common(&mut self) -> (common: &mut CommonComponentParts)
        ensures
            common@ == Self::error(old(self).model()),
            final(self).model() == Self::with_error(old(self).model(), final(common)@),
    ;
}

/// One dispatch step: the reducer's next state and answer, or, where the
/// reducer fails, its next state with the failure in the error slot and a
/// request to render again.
pub open spec fn dispatch<C: CommonComponent>(state: C::Model, msg: <C::Message as View>::V) -> (
    C::Model,
    bool,
) {
    let reduction = C::reduce(state, msg);
    match reduction.outcome {
        Ok(rerender) => (reduction.state, rerender),
        Err(e) => (C::with_error(reduction.state, Some(e)), true),
    }
}

/// A query that has been issued and not yet resolved. The value is handed
/// out once per query and used up by `resolve`, so each query yields one
/// resolution.
#[derive(Debug, PartialEq, Eq)]
pub struct QueryRequest {
    /// What to say went wrong if the query fails.
    pub error_message: String,
}

impl View for QueryRequest {
    type V = Seq<char>;

    /// The context for a failure.
    open spec fn view(&self) -> Seq<char> {
        self.error_message@
    }
}

impl QueryRequest {
    /// Turns the outcome of the query into what the component is told: the
    /// response as it came, or the failure qualified by the request's
    /// context.
    pub fn resolve<R>(self, outcome: Result<R, ErrorValue>) -> (resolved: Result<R, ErrorValue>)
        ensures
            match outcome {
                Ok(response) => resolved == Ok::<R, ErrorValue>(response),
                Err(cause) => resolved matches Err(error) && error@ == with_context(
                    self@,
                    cause@,
                ),
            },
    {
        match outcome {
            Ok(response) => Ok(response),
            Err(cause) => Err(cause.context(self.error_message.as_str())),
        }
    }
}

impl CommonComponentParts {
    /// The core's part of a new component: no error.
    pub fn create() -> (common: CommonComponentParts)
        ensures
            common@ is None,
    {
        CommonComponentParts { error: None }
    }

    /// Issues the component's query. `error_message` is the context given to
    /// a failure of the query. The core's state is left as it is.
    pub fn call_graphql(&self, error_message: &str) -> (request: QueryRequest)
        ensures
            request@ == error_message@,
    {
        QueryRequest { error_message: String::from_str(error_message) }
    }

    /// Dispatches `msg` to the component `com`.
    pub fn update<C: CommonComponent>(com: &mut C, msg: C::Message) -> (rerender: bool)
        requires
            C::accepts(old(com).model(), msg@),
        ensures
            (final(com).model(), rerender) == dispatch::<C>(old(com).model(), msg@),
    {
        match com.handle_msg(msg) {
            Ok(rerender) => rerender,
            Err(e) => {
                let common = com.mut_common();
                common.error = Some(e);
                true
            },
        }
    }
}

} // verus!
