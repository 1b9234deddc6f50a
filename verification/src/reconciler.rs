//! Turns one membership event into directory updates and the platform calls
//! that the event makes necessary.

use crate::directory::{
    occupies, populated, registered, with_occupant, ChannelDirectory, ChannelId, DirectoryView,
    GuildId, UserId,
};
use crate::names::NameProvider;
use vstd::prelude::*;

verus! {

/// A change of a user's voice channel, as the gateway reports it. The
/// gateway may leave out the channel that the user came from.
#[derive(Clone, Copy, Debug, PartialEq, Eq)]
pub struct MembershipEvent {
    pub user: UserId,
    pub previous_channel: Option<ChannelId>,
    pub new_channel: Option<ChannelId>,
}

/// A call to make against the platform.
#[derive(Debug, PartialEq, Eq)]
pub enum Action {
    /// Create a voice channel named `name` in `guild`, on behalf of `user`.
    CreateChannel { guild: GuildId, name: String, user: UserId },
    /// Delete `channel`.
    DeleteChannel { channel: ChannelId },
    /// Move `user` into `channel` of `guild`.
    MoveMember { guild: GuildId, user: UserId, channel: ChannelId },
}

/// An [`Action`] with its name as a sequence of characters.
pub enum ActionView {
    CreateChannel { guild: GuildId, name: Seq<char>, user: UserId },
    DeleteChannel { channel: ChannelId },
    MoveMember { guild: GuildId, user: UserId, channel: ChannelId },
}

impl View for Action {
    type V = ActionView;

    open spec fn view(&self) -> ActionView {
        match *self {
            Action::CreateChannel { guild, name, user } => ActionView::CreateChannel {
                guild,
                name: name@,
                user,
            },
            Action::DeleteChannel { channel } => ActionView::DeleteChannel { channel },
            Action::MoveMember { guild, user, channel } => ActionView::MoveMember {
                guild,
                user,
                channel,
            },
        }
    }
}

/// The views of a list of actions, in the same order.
pub open spec fn action_views(actions: Seq<Action>) -> Seq<ActionView> {
    actions.map_values(|action: Action| action@)
}

/// What handling one event came to.
#[derive(Debug, PartialEq, Eq)]
pub struct Reconciliation {
    /// The channel that the user was taken to have come from.
    pub effective_previous: Option<ChannelId>,
    /// The platform calls to make, in this order.
    pub actions: Vec<Action>,
}

/// Whether `effective` may stand for the channel that the user of `event`
/// came from: the channel that the event names, or else a managed channel
/// that counts the user among its occupants, or nothing when no managed
/// channel does.
pub open spec fn resolves(dir: DirectoryView, event: MembershipEvent, effective: Option<ChannelId>)
    -> bool {
    match event.previous_channel {
        Some(previous) => effective == Some(previous),
        None => match effective {
            Some(channel) => occupies(dir, event.user, channel),
            None => forall|channel: ChannelId| !occupies(dir, event.user, channel),
        },
    }
}

/// Whether a user who goes from `previous` to `current` leaves a managed
/// channel.
pub open spec fn departs(
    dir: DirectoryView,
    previous: Option<ChannelId>,
    current: Option<ChannelId>,
) -> bool {
    previous is Some && current != previous && dir.contains_key(previous->0)
}

/// The channel that `user` leaves without occupants by going from
/// `previous` to `current`, if any.
pub open spec fn vacated(
    dir: DirectoryView,
    user: UserId,
    previous: Option<ChannelId>,
    current: Option<ChannelId>,
) -> Option<ChannelId> {
    if departs(dir, previous, current) && dir[previous->0].remove(user).is_empty() {
        previous
    } else {
        None
    }
}

/// `dir` after `user` has left `previous` for `current`: the user is out of
/// the channel's occupants, and the channel is gone if nobody is left.
pub open spec fn after_departure(
    dir: DirectoryView,
    user: UserId,
    previous: Option<ChannelId>,
    current: Option<ChannelId>,
) -> DirectoryView {
    if departs(dir, previous, current) {
        let left = previous->0;
        if dir[left].remove(user).is_empty() {
            dir.remove(left)
        } else {
            dir.insert(left, dir[left].remove(user))
        }
    } else {
        dir
    }
}

/// `dir` after `user` has arrived in `current`: one of its occupants, if
/// the channel is managed.
pub open spec fn after_arrival(dir: DirectoryView, user: UserId, current: Option<ChannelId>)
    -> DirectoryView {
    match current {
        Some(joined) => if dir.contains_key(joined) {
            with_occupant(dir, joined, user)
        } else {
            dir
        },
        None => dir,
    }
}

/// `dir` after `user` has gone from `previous` to `current`.
pub open spec fn after_event(
    dir: DirectoryView,
    user: UserId,
    previous: Option<ChannelId>,
    current: Option<ChannelId>,
) -> DirectoryView {
    after_arrival(after_departure(dir, user, previous, current), user, current)
}

/// Whether going from `previous` to `current` is an entry into `lobby`.
pub open spec fn enters_lobby(
    lobby: ChannelId,
    previous: Option<ChannelId>,
    current: Option<ChannelId>,
) -> bool {
    previous != Some(lobby) && current == Some(lobby)
}

/// The characters of a name, if there is one.
pub open spec fn label_of(name: Option<String>) -> Option<Seq<char>> {
    match name {
        Some(name) => Some(name@),
        None => None,
    }
}

/// The calls that follow from an event: the deletion of the channel that
/// was left without occupants, then the creation of a channel under `name`.
pub open spec fn planned(
    guild: GuildId,
    user: UserId,
    vacated: Option<ChannelId>,
    name: Option<Seq<char>>,
) -> Seq<ActionView> {
    let deletion = match vacated {
        Some(channel) => seq![ActionView::DeleteChannel { channel }],
        None => Seq::empty(),
    };
    let creation = match name {
        Some(name) => seq![ActionView::CreateChannel { guild, name, user }],
        None => Seq::empty(),
    };
    deletion + creation
}

/// `dir` after the platform has answered a request to create a channel for
/// `user`: with the channel `created`, or with a failure.
pub open spec fn after_creation(dir: DirectoryView, user: UserId, created: Option<ChannelId>)
    -> DirectoryView {
    match created {
        Some(channel) => registered(dir, channel, user),
        None => dir,
    }
}

/// The calls that follow a request to create a channel for `user`: one move
/// of the user into the channel `created`, and none after a failure.
pub open spec fn moves_after_creation(guild: GuildId, user: UserId, created: Option<ChannelId>)
    -> Seq<ActionView> {
    match created {
        Some(channel) => seq![ActionView::MoveMember { guild, user, channel }],
        None => Seq::empty(),
    }
}

/// The rules by which membership events change the directory of one guild,
/// whose users enter through the channel `lobby`.
#[derive(Clone, Copy, Debug, PartialEq, Eq)]
pub struct OccupancyReconciler {
    pub lobby: ChannelId,
    pub guild: GuildId,
}

impl OccupancyReconciler {
    /// The channel from which the user of `event` is taken to have come:
    /// the one that the event names; else a managed channel that has the
    /// user on record, if there is one.
    pub fn effective_previous(&self, dir: &ChannelDirectory, event: &MembershipEvent) -> (effective:
        Option<ChannelId>)
        ensures
            resolves(dir@, *event, effective),
    {
        match event.previous_channel {
            Some(previous) => Some(previous),
            None => dir.channel_of(event.user),
        }
    }

    /// Takes `user` out of `previous` if that is a managed channel other
    /// than `current`, and retires the channel if nobody is left in it.
    /// Returns the channel that was retired, which is to be deleted.
    pub fn depart(
        &self,
        dir: &mut ChannelDirectory,
        user: UserId,
        previous: Option<ChannelId>,
        current: Option<ChannelId>,
    ) -> (retired: Option<ChannelId>)
        requires
            old(dir).wf(),
        ensures
            final(dir).wf(),
            final(dir)@ == after_departure(old(dir)@, user, previous, current),
            retired == vacated(old(dir)@, user, previous, current),
    {
        match previous {
            Some(left) => {
                if !same_channel(current, left) && dir.is_managed(left) {
                    if dir.remove_occupant(left, user) {
                        dir.retire(left);
                        Some(left)
                    } else {
                        None
                    }
                } else {
                    None
                }
            },
            None => None,
        }
    }

    /// Adds `user` to the occupants of `current` if that is a managed
    /// channel.
    pub fn arrive(&self, dir: &mut ChannelDirectory, user: UserId, current: Option<ChannelId>)
        requires
            old(dir).wf(),
        ensures
            final(dir).wf(),
            final(dir)@ == after_arrival(old(dir)@, user, current),
    {
        match current {
            Some(joined) => {
                if dir.is_managed(joined) {
                    dir.add_occupant(joined, user);
                }
            },
            None => {},
        }
    }

    /// Whether going from `previous` to `current` is an entry into the
    /// lobby.
    pub fn enters_lobby(&self, previous: Option<ChannelId>, current: Option<ChannelId>) -> (entry:
        bool)
        ensures
            entry == enters_lobby(self.lobby, previous, current),
    {
        !same_channel(previous, self.lobby) && same_channel(current, self.lobby)
    }

    /// The calls to make after an event of `user`: the deletion of
    /// `retired`, then the creation of a channel under `name`.
    pub fn plan(&self, user: UserId, retired: Option<ChannelId>, name: Option<String>) -> (actions:
        Vec<Action>)
        ensures
            action_views(actions@) == planned(self.guild, user, retired, label_of(name)),
    {
        let mut actions: Vec<Action> = Vec::new();
        match retired {
            Some(channel) => {
                actions.push(Action::DeleteChannel { channel });
            },
            None => {},
        }
        match name {
            Some(name) => {
                actions.push(Action::CreateChannel { guild: self.guild, name, user });
            },
            None => {},
        }
        actions
    }

    /// Handles one membership event. The user leaves the channel they are
    /// taken to have come from, which is retired and its deletion planned if
    /// nobody is left in it; the user is recorded in the channel they have
    /// joined, if it is managed; and on an entry into the lobby the creation
    /// of a channel is planned, under a name that `names` picks. No channel
    /// becomes managed by this, and none is left managed without occupants
    /// if none was before.
    pub fn reconcile(
        &self,
        dir: &mut ChannelDirectory,
        names: &NameProvider,
        event: MembershipEvent,
    ) -> (outcome: Reconciliation)
        requires
            old(dir).wf(),
        ensures
            final(dir).wf(),
            resolves(old(dir)@, event, outcome.effective_previous),
            final(dir)@ == after_event(
                old(dir)@,
                event.user,
                outcome.effective_previous,
                event.new_channel,
            ),
            populated(old(dir)@) ==> populated(final(dir)@),
            final(dir)@.dom().subset_of(old(dir)@.dom()),
            exists|name: Option<Seq<char>>|
                {
                    &&& name is Some <==> enters_lobby(
                        self.lobby,
                        outcome.effective_previous,
                        event.new_channel,
                    )
                    &&& name matches Some(label) ==> names@.contains(label)
                    &&& action_views(outcome.actions@) == #[trigger] planned(
                        self.guild,
                        event.user,
                        vacated(
                            old(dir)@,
                            event.user,
                            outcome.effective_previous,
                            event.new_channel,
                        ),
                        name,
                    )
                },
    {
        let effective = self.effective_previous(dir, &event);
        let retired = self.depart(dir, event.user, effective, event.new_channel);
        self.arrive(dir, event.user, event.new_channel);
        let name = if self.enters_lobby(effective, event.new_channel) {
            Some(names.next_name())
        } else {
            None
        };
        let actions = self.plan(event.user, retired, name);
        Reconciliation { effective_previous: effective, actions }
    }

    /// Takes in the platform's answer to a request to create a channel for
    /// `user`. After a success the channel `created` is registered with the
    /// user as its only occupant, and one move of the user into it is
    /// planned. After a failure nothing is registered and nothing planned.
    pub fn settle_creation(
        &self,
        dir: &mut ChannelDirectory,
        user: UserId,
        created: Option<ChannelId>,
    ) -> (follow_up: Vec<Action>)
        requires
            old(dir).wf(),
        ensures
            final(dir).wf(),
            final(dir)@ == after_creation(old(dir)@, user, created),
            populated(old(dir)@) ==> populated(final(dir)@),
            action_views(follow_up@) == moves_after_creation(self.guild, user, created),
    {
        let mut follow_up: Vec<Action> = Vec::new();
        match created {
            Some(channel) => {
                dir.register_created(channel, user);
                follow_up.push(Action::MoveMember { guild: self.guild, user, channel });
            },
            None => {},
        }
        follow_up
    }
}

/// Whether `slot` holds `channel`.
fn same_channel(slot: Option<ChannelId>, channel: ChannelId) -> (same: bool)
    ensures
        same == (slot == Some(channel)),
{
    match slot {
        Some(held) => held == channel,
        None => false,
    }
}

} // verus!
