//! Per-user storage of small byte strings, keyed by Telegram user id.

use vstd::prelude::*;

pub mod aes;
pub mod lmdb;

verus! {

/// A Telegram user, by id.
#[derive(Clone, Copy, Debug, PartialEq, Eq, Structural, Hash)]
pub struct UserId(pub u64);

/// The errors that a store may report.
pub trait KVError {}

/// A store of one byte string per user.
///
/// Each store says, through its spec functions, what a read, a write and a
/// removal mean for it: `read_of` holds of what a read of a user's value may
/// give, `written` of a value that a successful write stored for a user, and
/// `removal_of` of what a removal of a user's value may give, and
/// `presence_read` of what asking whether a user has a value may give.
pub trait KVStore {
    type Err: KVError;

    /// Whether `r` is what a read of the value of `user_id` may give.
    spec fn read_of(&self, user_id: UserId, r: Result<Option<Vec<u8>>, Self::Err>) -> bool;

    /// Whether `value` was stored for `user_id` by a write that succeeded.
    spec fn written(&self, user_id: UserId, value: Seq<u8>) -> bool;

    /// Whether `r` is what a removal of the value of `user_id` may give.
    spec fn removal_of(&self, user_id: UserId, r: Result<Option<Vec<u8>>, Self::Err>) -> bool;

    /// Whether `r` is what asking whether `user_id` has a value may give.
    spec fn presence_read(&self, user_id: UserId, r: Result<bool, Self::Err>) -> bool;

    /// The value stored for a user, or `None` if unset.
    fn get(&self, user_id: UserId) -> (r: Result<Option<Vec<u8>>, Self::Err>)
        ensures
            self.read_of(user_id, r),
    ;

    /// Stores the value for a user.
    fn set(&self, user_id: UserId, value: &[u8]) -> (r: Result<(), Self::Err>)
        ensures
            r is Ok ==> self.written(user_id, value@),
    ;

    /// Removes the value of a user, handing back what was stored, or `None`
    /// if unset.
    fn remove(&self, user_id: UserId) -> (r: Result<Option<Vec<u8>>, Self::Err>)
        ensures
            self.removal_of(user_id, r),
    ;

    /// Whether a value is stored for a user. A store that has nothing
    /// quicker answers with `presence` of a read of the user's value.
    fn contains(&self, user_id: UserId) -> (r: Result<bool, Self::Err>)
        ensures
            self.presence_read(user_id, r),
    ;
}

/// Whether a read found a value: `true` for a value, `false` for none, and
/// the read's failure as it is.
pub open spec fn presence_of<E>(read: Result<Option<Vec<u8>>, E>) -> Result<bool, E> {
    match read {
        Ok(Some(_)) => Ok(true),
        Ok(None) => Ok(false),
        Err(e) => Err(e),
    }
}

/// Whether a read found a value, as `presence_of` says.
pub fn presence<E>(read: Result<Option<Vec<u8>>, E>) -> (r: Result<bool, E>)
    ensures
        r == presence_of(read),
{
    match read {
        Ok(Some(_)) => Ok(true),
        Ok(None) => Ok(false),
        Err(e) => Err(e),
    }
}

} // verus!
