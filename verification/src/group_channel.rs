//! The group channel record, the name under which it is shown, and its
//! deletion.

use crate::id::{ChannelId, MessageId, UserId};
use crate::timestamp::Timestamp;
use crate::user::User;
use std::borrow::Cow;
use vstd::prelude::*;

verus! {

/// A group channel: a conversation among several users outside any guild.
#[derive(Clone, Debug)]
pub struct GroupChannel {
    /// The Id of the group channel.
    pub id: ChannelId,
    /// The optional icon of the group channel.
    pub icon: Option<String>,
    /// The Id of the last message sent.
    pub last_message_id: Option<MessageId>,
    /// Timestamp of the latest pinned message.
    pub last_pin_timestamp: Option<Timestamp>,
    /// The name of the group channel.
    pub name: Option<String>,
    /// The Id of the group owner.
    pub owner_id: UserId,
    /// A list of the group's recipients, in the order the service gave.
    pub recipients: Vec<User>,
}

/// The names of `recipients`, in order, with `", "` between each two
/// neighbours. An empty name still takes its place. Of no recipients this
/// is the empty text.
pub open spec fn joined_names(recipients: Seq<User>) -> Seq<char>
    decreases recipients.len(),
{
    if recipients.len() == 0 {
        Seq::empty()
    } else if recipients.len() == 1 {
        recipients[0].name@
    } else {
        joined_names(recipients.drop_last()) + ", "@ + recipients.last().name@
    }
}

impl GroupChannel {
    /// The name under which the group is shown: its own name where it has
    /// one; else `"Empty Group"` where nobody is in it; else the names of
    /// its recipients, joined.
    pub open spec fn display_name(&self) -> Seq<char> {
        match self.name {
            Some(name) => name@,
            None => if self.recipients@.len() == 0 {
                "Empty Group"@
            } else {
                joined_names(self.recipients@)
            },
        }
    }

    /// Deletes the channel through `remote`, the caller's way of asking the
    /// service to delete a channel by its Id. This does not delete the
    /// contents of the channel, and a channel closed this way can be
    /// re-opened.
    ///
    /// `remote` is called once, with this channel's Id, and what it answers
    /// is returned as it is, record or error.
    pub fn delete<R, E, F>(&self, remote: F) -> (result: Result<R, E>)
        where
            F: FnOnce(ChannelId) -> Result<R, E>,
        requires
            remote.requires((self.id,)),
        ensures
            remote.ensures((self.id,), result),
    {
        remote(self.id)
    }

    /// Generates a name for the group.
    ///
    /// If the group has a name of its own, that is the name. Otherwise, if
    /// there are no recipients in the group, the name is "Empty Group".
    /// Otherwise, the name is the list of the recipients' names, such as
    /// "person 1, person 2, person 3".
    ///
    /// Only a joined list is built anew; the other two are borrowed.
    pub fn name(&self) -> (result: Cow<'_, str>)
        ensures
            result@ == self.display_name(),
            result is Owned <==> self.name is None && self.recipients@.len() > 0,
    {
        match self.name {
            Some(ref name) => Cow::Borrowed(name.as_str()),
            None => {
                let count: usize = self.recipients.len();
                if count == 0 {
                    return Cow::Borrowed("Empty Group");
                }
                let mut name: String = self.recipients[0].name.clone();
                let mut i: usize = 1;
                while i < count
                    invariant
                        count == self.recipients@.len(),
                        1 <= i <= count,
                        name@ == joined_names(self.recipients@.take(i as int)),
                    decreases count - i,
                {
                    name.append(", ");
                    name.append(self.recipients[i].name.as_str());
                    i += 1;
                    proof {
                        let upto = self.recipients@.take(i as int);
                        assert(upto.drop_last() == self.recipients@.take(i - 1));
                    }
                }
                assert(self.recipients@.take(count as int) == self.recipients@);
                Cow::Owned(name)
            },
        }
    }
}

} // verus!
