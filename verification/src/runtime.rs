//! The contract between a page and the loop that drives it.
//!
//! A page never performs an operation itself.  Its transition returns an
//! [`Effect`]: whether to paint again, and at most one [`Command`] for the
//! runtime to carry out.  Every command bears the generation it was issued
//! under, and the message that reports its result bears the same number, so
//! that a page can tell the answer to its newest request from a late one.

use crate::api::{Request, RequestModel};
use vstd::prelude::*;

verus! {

/// The states a page with remote data passes through.  A phase is computed
/// from the page's model and never stored.
#[derive(Clone, Copy, Debug, PartialEq, Eq)]
pub enum Phase {
    /// Nothing to show and nothing in flight.
    Empty,
    /// An operation is in flight.
    Loading,
    /// Data is on display and nothing is in flight.
    Loaded,
    /// The last operation that settled failed.
    Failed,
}

/// Token of the one operation a page has in flight.  Storing a new handle
/// abandons the operation of the old one.
#[derive(Debug, PartialEq, Eq)]
pub struct RequestHandle {
    generation: u64,
}

impl View for RequestHandle {
    type V = nat;

    /// The generation the operation was issued under.
    closed spec fn view(&self) -> nat {
        self.generation as nat
    }
}

impl RequestHandle {
    pub(crate) fn new(generation: u64) -> (handle: RequestHandle)
        ensures
            handle@ == generation,
    {
        RequestHandle { generation }
    }

    pub fn generation(&self) -> (generation: u64)
        ensures
            generation == self@,
    {
        self.generation
    }
}

/// The largest generation a page can tag a request with.  A page whose
/// counter stands here issues no further command.
pub open spec fn last_generation() -> nat {
    u64::MAX as nat
}

/// The value of an optional handle.
pub open spec fn handle_model(handle: Option<RequestHandle>) -> Option<nat> {
    match handle {
        Some(handle) => Some(handle@),
        None => None,
    }
}

/// The value of optional text.
pub open spec fn text_model(text: Option<String>) -> Option<Seq<char>> {
    match text {
        Some(text) => Some(text@),
        None => None,
    }
}

/// Mathematical value of a [`Command`].
pub struct CommandModel {
    pub generation: nat,
    pub request: RequestModel,
    pub token: Option<Seq<char>>,
}

/// One network operation for the runtime to carry out.
#[derive(Debug, PartialEq, Eq)]
pub struct Command {
    /// Tag to hand back with the result.
    pub generation: u64,
    pub request: Request,
    /// The caller's authorization token, present exactly when the page was
    /// configured to attach it.
    pub token: Option<String>,
}

impl View for Command {
    type V = CommandModel;

    open spec fn view(&self) -> CommandModel {
        CommandModel {
            generation: self.generation as nat,
            request: self.request@,
            token: text_model(self.token),
        }
    }
}

/// Mathematical value of an [`Effect`].
pub struct EffectModel {
    pub render: bool,
    pub command: Option<CommandModel>,
}

impl EffectModel {
    /// Nothing changed and nothing is asked of the runtime.
    pub open spec fn idle() -> EffectModel {
        EffectModel { render: false, command: None }
    }

    /// Paint again; nothing else is asked of the runtime.
    pub open spec fn repaint() -> EffectModel {
        EffectModel { render: true, command: None }
    }

    /// Paint again and carry out `command`.
    pub open spec fn run(command: CommandModel) -> EffectModel {
        EffectModel { render: true, command: Some(command) }
    }
}

/// What a transition asks of the runtime.
#[derive(Debug, PartialEq, Eq)]
pub struct Effect {
    /// Whether the page should be painted again.
    pub render: bool,
    pub command: Option<Command>,
}

impl View for Effect {
    type V = EffectModel;

    open spec fn view(&self) -> EffectModel {
        EffectModel {
            render: self.render,
            command: match self.command {
                Some(command) => Some(command@),
                None => None,
            },
        }
    }
}

} // verus!
