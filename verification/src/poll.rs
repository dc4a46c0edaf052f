//! What the bot remembers about a language poll it sent, and how a step of a
//! search for the first result is decided.

use vstd::prelude::*;

use crate::kvstore::UserId;

verus! {

/// The chat a poll was sent to and the user who asked for it.
#[derive(Clone, Copy, Debug, PartialEq, Eq, Structural)]
pub struct PollContext {
    pub original_chat_id: i64,
    pub issuer_id: UserId,
}

/// What to do after one item of a search for the first result.
#[derive(Debug)]
pub enum Flow<O, E> {
    /// Go on with the next item.
    Continue,
    /// Stop with this outcome.
    Stop(Result<Option<O>, E>),
}

/// Decides one step of a search that stops at the first item giving a value
/// or an error; an item giving nothing lets the search go on. A search that
/// runs out of items ends with nothing.
pub fn first_some_step<O, E>(item: Result<Option<O>, E>) -> (r: Flow<O, E>)
    ensures
        match item {
            Ok(None) => r is Continue,
            Ok(Some(o)) => r matches Flow::Stop(Ok(Some(x))) && x == o,
            Err(e) => r matches Flow::Stop(Err(x)) && x == e,
        },
{
    match item {
        Ok(None) => Flow::Continue,
        Ok(Some(o)) => Flow::Stop(Ok(Some(o))),
        Err(e) => Flow::Stop(Err(e)),
    }
}

} // verus!
