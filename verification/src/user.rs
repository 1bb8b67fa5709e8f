//! A user of the service, as far as a group channel needs to know one.

use crate::id::UserId;
use vstd::prelude::*;

verus! {

/// A user who can take part in a group channel.
#[derive(Clone, Debug)]
pub struct User {
    /// The Id of the user.
    pub id: UserId,
    /// The name under which the user is shown.
    pub name: String,
}

} // verus!
