//! What holds of the name under which a group channel is shown.
//!
//! Each lemma speaks of `GroupChannel::display_name`, the text that
//! `GroupChannel::name` is proved to return, or of `joined_names`, the list
//! that it is made of.

use crate::group_channel::{joined_names, GroupChannel};
use crate::user::User;
use std::borrow::Cow;
use vstd::prelude::*;

verus! {

/// The separator between two names is a comma followed by one space.
pub proof fn lemma_separator()
    ensures
        ", "@ == seq![',', ' '],
{
    reveal_strlit(", ");
}

/// A group that has a name of its own is shown under exactly that name,
/// whoever is in it.
pub proof fn lemma_own_name_wins(channel: GroupChannel)
    requires
        channel.name is Some,
    ensures
        channel.display_name() == channel.name->Some_0@,
{
}

/// A group without a name and without recipients is shown as
/// "Empty Group".
pub proof fn lemma_empty_group(channel: GroupChannel)
    requires
        channel.name is None,
        channel.recipients@.len() == 0,
    ensures
        channel.display_name() == "Empty Group"@,
        channel.display_name() == seq!['E', 'm', 'p', 't', 'y', ' ', 'G', 'r', 'o', 'u', 'p'],
{
    reveal_strlit("Empty Group");
}

/// A group without a name and with one recipient is shown under that
/// recipient's name, be it empty or not.
pub proof fn lemma_single_recipient(channel: GroupChannel)
    requires
        channel.name is None,
        channel.recipients@.len() == 1,
    ensures
        channel.display_name() == channel.recipients@[0].name@,
{
}

/// A group without a name and with three recipients is shown under their
/// three names in the order in which they are stored, with `", "` between
/// the first and the second and between the second and the third.
pub proof fn lemma_three_recipients(channel: GroupChannel)
    requires
        channel.name is None,
        channel.recipients@.len() == 3,
    ensures
        channel.display_name() == channel.recipients@[0].name@ + ", "@
            + channel.recipients@[1].name@ + ", "@ + channel.recipients@[2].name@,
{
    let all = channel.recipients@;
    let two = all.drop_last();
    let one = two.drop_last();
    assert(joined_names(two) == joined_names(one) + ", "@ + all[1].name@);
}

/// Joining is done from left to right and forgets nothing: the joined names
/// of two lists put one behind the other are the joined names of the first,
/// then `", "`, then the joined names of the second.
pub proof fn lemma_joined_names_concat(front: Seq<User>, back: Seq<User>)
    requires
        front.len() > 0,
        back.len() > 0,
    ensures
        joined_names(front + back) == joined_names(front) + ", "@ + joined_names(back),
    decreases back.len(),
{
    let whole = front + back;
    if back.len() == 1 {
        assert(whole.drop_last() =~= front);
    } else {
        assert(whole.drop_last() =~= front + back.drop_last());
        lemma_joined_names_concat(front, back.drop_last());
    }
}

/// The joined names begin with the first recipient's name, which is followed
/// by `", "` and the joined names of the others, where there are others.
pub proof fn lemma_joined_names_first(recipients: Seq<User>)
    requires
        recipients.len() > 0,
    ensures
        joined_names(recipients) == if recipients.len() == 1 {
            recipients[0].name@
        } else {
            recipients[0].name@ + ", "@ + joined_names(recipients.subrange(1, recipients.len() as int))
        },
{
    if recipients.len() > 1 {
        let head = recipients.subrange(0, 1);
        let rest = recipients.subrange(1, recipients.len() as int);
        assert(recipients =~= head + rest);
        lemma_joined_names_concat(head, rest);
    }
}

/// The number of characters in the names of `recipients`, separators not
/// counted.
pub open spec fn names_len(recipients: Seq<User>) -> nat
    decreases recipients.len(),
{
    if recipients.len() == 0 {
        0
    } else {
        names_len(recipients.drop_last()) + recipients.last().name@.len()
    }
}

/// The joined names are as long as all the names together and two
/// characters more for each recipient after the first: no name is cut short
/// and no separator is left out.
pub proof fn lemma_joined_names_len(recipients: Seq<User>)
    requires
        recipients.len() > 0,
    ensures
        joined_names(recipients).len() == names_len(recipients) + 2 * (recipients.len() - 1),
    decreases recipients.len(),
{
    lemma_separator();
    if recipients.len() == 1 {
        assert(names_len(recipients.drop_last()) == 0);
    } else {
        lemma_joined_names_len(recipients.drop_last());
    }
}

/// The name made for a group without a name of its own is empty in one case
/// only: there is a single recipient, and that recipient's name is empty.
pub proof fn lemma_made_name_is_seldom_empty(channel: GroupChannel)
    requires
        channel.name is None,
    ensures
        channel.display_name().len() == 0 <==> channel.recipients@.len() == 1
            && channel.recipients@[0].name@.len() == 0,
{
    if channel.recipients@.len() == 0 {
        reveal_strlit("Empty Group");
    } else {
        lemma_joined_names_len(channel.recipients@);
    }
}

/// The name depends on the group's own name and on its recipients' names and
/// on nothing else: two groups that agree in these are shown alike.
pub proof fn lemma_display_name_reads_names_only(one: GroupChannel, other: GroupChannel)
    requires
        one.name is Some <==> other.name is Some,
        one.name is Some ==> one.name->Some_0@ == other.name->Some_0@,
        one.recipients@.len() == other.recipients@.len(),
        forall|i: int|
            0 <= i < one.recipients@.len() ==> one.recipients@[i].name@
                == other.recipients@[i].name@,
    ensures
        one.display_name() == other.display_name(),
{
    if one.name is None && one.recipients@.len() > 0 {
        lemma_joined_names_agree(one.recipients@, other.recipients@);
    }
}

/// Two lists of recipients with the same names in the same places have the
/// same joined names.
pub proof fn lemma_joined_names_agree(one: Seq<User>, other: Seq<User>)
    requires
        one.len() == other.len(),
        forall|i: int| 0 <= i < one.len() ==> one[i].name@ == other[i].name@,
    ensures
        joined_names(one) == joined_names(other),
    decreases one.len(),
{
    if one.len() >= 2 {
        lemma_joined_names_agree(one.drop_last(), other.drop_last());
    }
}

/// Asking twice gives the same answer: whatever `GroupChannel::name` returns
/// on two calls for one unchanged group, both are the same text, and both
/// are borrowed or both are built anew.
pub proof fn lemma_name_is_repeatable(channel: GroupChannel, first: Cow<str>, second: Cow<str>)
    requires
        first@ == channel.display_name(),
        first is Owned <==> channel.name is None && channel.recipients@.len() > 0,
        second@ == channel.display_name(),
        second is Owned <==> channel.name is None && channel.recipients@.len() > 0,
    ensures
        first@ == second@,
        first is Owned <==> second is Owned,
{
}

} // verus!
