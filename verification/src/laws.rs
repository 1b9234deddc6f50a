//! What holds of the directory over any run of events.

use crate::directory::{
    occupants_of, occupies, populated, registered, ChannelId, DirectoryView, UserId,
};
use crate::reconciler::{
    after_creation, after_event, enters_lobby, resolves, vacated, MembershipEvent,
};
use vstd::prelude::*;

verus! {

/// `dir` after the events `events` were handled one after the other, the
/// user of `events[i]` taken to have come from `origins[i]`.
pub open spec fn after_events(
    dir: DirectoryView,
    events: Seq<MembershipEvent>,
    origins: Seq<Option<ChannelId>>,
) -> DirectoryView
    decreases events.len(),
{
    if events.len() == 0 || origins.len() != events.len() {
        dir
    } else {
        let earlier = after_events(dir, events.drop_last(), origins.drop_last());
        after_event(earlier, events.last().user, origins.last(), events.last().new_channel)
    }
}

/// Where every managed channel has an occupant, the channels without
/// occupants are exactly those that are not managed.
pub proof fn lemma_empty_exactly_when_unmanaged(dir: DirectoryView, channel: ChannelId)
    requires
        populated(dir),
    ensures
        occupants_of(dir, channel).is_empty() <==> !dir.contains_key(channel),
{
}

/// A membership event leaves no managed channel without occupants, and
/// makes no channel managed that was not.
pub proof fn lemma_event_keeps_channels_populated(
    dir: DirectoryView,
    user: UserId,
    previous: Option<ChannelId>,
    current: Option<ChannelId>,
)
    requires
        populated(dir),
    ensures
        populated(after_event(dir, user, previous, current)),
        after_event(dir, user, previous, current).dom().subset_of(dir.dom()),
{
}

/// Over any run of membership events, whatever channel each user is taken
/// to have come from: a channel is without occupants exactly if it is not
/// managed, and no channel becomes managed. A channel that was retired is
/// managed again only after it was registered anew.
pub proof fn lemma_events_keep_channels_populated(
    dir: DirectoryView,
    events: Seq<MembershipEvent>,
    origins: Seq<Option<ChannelId>>,
)
    requires
        populated(dir),
    ensures
        populated(after_events(dir, events, origins)),
        forall|channel: ChannelId|
            occupants_of(after_events(dir, events, origins), channel).is_empty()
                <==> !#[trigger] after_events(dir, events, origins).contains_key(channel),
        after_events(dir, events, origins).dom().subset_of(dir.dom()),
    decreases events.len(),
{
    if events.len() != 0 && origins.len() == events.len() {
        lemma_events_keep_channels_populated(dir, events.drop_last(), origins.drop_last());
        lemma_event_keeps_channels_populated(
            after_events(dir, events.drop_last(), origins.drop_last()),
            events.last().user,
            origins.last(),
            events.last().new_channel,
        );
    }
}

/// The answer to a request to create a channel leaves no managed channel
/// without occupants.
pub proof fn lemma_creation_keeps_channels_populated(
    dir: DirectoryView,
    user: UserId,
    created: Option<ChannelId>,
)
    requires
        populated(dir),
    ensures
        populated(after_creation(dir, user, created)),
{
}

/// An arrival of a user in a channel that has them on record leaves the
/// occupants of that channel as they were, wherever the user is taken to
/// have come from.
pub proof fn lemma_arrival_of_an_occupant_changes_nothing(
    dir: DirectoryView,
    user: UserId,
    previous: Option<ChannelId>,
    target: ChannelId,
)
    requires
        occupies(dir, user, target),
    ensures
        after_event(dir, user, previous, Some(target)).contains_key(target),
        after_event(dir, user, previous, Some(target))[target] == dir[target],
{
}

/// An arrival event that is delivered twice changes the occupants of its
/// channel no further the second time.
pub proof fn lemma_repeated_arrival_is_idempotent(
    dir: DirectoryView,
    user: UserId,
    first_origin: Option<ChannelId>,
    second_origin: Option<ChannelId>,
    target: ChannelId,
)
    ensures
        ({
            let once = after_event(dir, user, first_origin, Some(target));
            let twice = after_event(once, user, second_origin, Some(target));
            occupants_of(twice, target) == occupants_of(once, target)
        }),
{
    let once = after_event(dir, user, first_origin, Some(target));
    if once.contains_key(target) {
        lemma_arrival_of_an_occupant_changes_nothing(once, user, second_origin, target);
    } else {
        lemma_event_keeps_unmanaged(once, user, second_origin, Some(target), target);
    }
}

/// A membership event does not make a channel managed.
pub proof fn lemma_event_keeps_unmanaged(
    dir: DirectoryView,
    user: UserId,
    previous: Option<ChannelId>,
    current: Option<ChannelId>,
    channel: ChannelId,
)
    requires
        !dir.contains_key(channel),
    ensures
        !after_event(dir, user, previous, current).contains_key(channel),
{
}

/// Where an event does not say which channel its user came from, and
/// exactly one managed channel has the user on record, that channel is the
/// one the user is taken to have come from.
pub proof fn lemma_fallback_finds_the_only_channel(
    dir: DirectoryView,
    event: MembershipEvent,
    effective: Option<ChannelId>,
    channel: ChannelId,
)
    requires
        event.previous_channel is None,
        occupies(dir, event.user, channel),
        forall|other: ChannelId| occupies(dir, event.user, other) ==> other == channel,
        resolves(dir, event, effective),
    ensures
        effective == Some(channel),
{
}

/// Once the last occupant has left a channel, the channel is no longer
/// managed and has nobody on record, so that no later departure, by
/// whomever and from wherever they are taken to have come, leaves it
/// without occupants a second time: its deletion is asked for once.
pub proof fn lemma_channel_is_vacated_once(
    dir: DirectoryView,
    user: UserId,
    previous: Option<ChannelId>,
    current: Option<ChannelId>,
    channel: ChannelId,
)
    requires
        vacated(dir, user, previous, current) == Some(channel),
    ensures
        !after_event(dir, user, previous, current).contains_key(channel),
        forall|other: UserId| !occupies(after_event(dir, user, previous, current), other, channel),
        forall|other: UserId, origin: Option<ChannelId>, target: Option<ChannelId>|
            #[trigger] vacated(after_event(dir, user, previous, current), other, origin, target)
                != Some(channel),
{
}

/// An event whose user stays in the channel they are taken to have come
/// from changes nothing, if that channel is not managed or has the user on
/// record; and it is no entry into the lobby.
pub proof fn lemma_staying_put_changes_nothing(
    dir: DirectoryView,
    lobby: ChannelId,
    user: UserId,
    channel: Option<ChannelId>,
)
    requires
        channel matches Some(held) ==> !dir.contains_key(held) || dir[held].contains(user),
    ensures
        after_event(dir, user, channel, channel) == dir,
        vacated(dir, user, channel, channel) is None,
        !enters_lobby(lobby, channel, channel),
{
    if channel is Some && dir.contains_key(channel->0) {
        let held = channel->0;
        assert(dir[held].insert(user) =~= dir[held]);
    }
}

/// A channel that was registered for a user is managed, and the user is its
/// only occupant.
pub proof fn lemma_registration_installs_sole_occupant(
    dir: DirectoryView,
    channel: ChannelId,
    user: UserId,
)
    ensures
        registered(dir, channel, user).contains_key(channel),
        registered(dir, channel, user)[channel] == set![user],
        forall|other: ChannelId|
            other != channel ==> occupants_of(registered(dir, channel, user), other)
                == occupants_of(dir, other),
{
}

} // verus!
