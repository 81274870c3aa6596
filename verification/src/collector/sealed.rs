//! The marker that closes the set of collectable kinds.

use vstd::prelude::*;
use crate::collector::ReactionAction;
use crate::model::application::interaction::{ComponentInteraction, ModalSubmitInteraction};
use crate::model::channel::message::Message;
use crate::model::event::Event;

verus! {

/// Implemented for the five collectable kinds and for nothing else.
pub trait Sealed {

}

impl Sealed for Event {

}

impl Sealed for Message {

}

impl Sealed for ReactionAction {

}

impl Sealed for ModalSubmitInteraction {

}

impl Sealed for ComponentInteraction {

}

} // verus!
