//! The state of one guild's voice channels, driven by what the platform
//! reports: membership events, and the outcomes of the calls made for them.

use crate::directory::{populated, ChannelDirectory, ChannelId, DirectoryView, GuildId, UserId};
use crate::laws::{lemma_creation_keeps_channels_populated, lemma_event_keeps_channels_populated};
use crate::names::NameProvider;
use crate::reconciler::{
    action_views, after_creation, after_event, enters_lobby, moves_after_creation, planned,
    resolves, vacated, Action, ActionView, MembershipEvent, OccupancyReconciler, Reconciliation,
};
use vstd::prelude::*;

verus! {

/// How a call against the platform ended.
#[derive(Debug, PartialEq, Eq)]
pub enum Outcome {
    /// A channel was created, and the platform named it `channel`.
    Created { channel: ChannelId },
    /// The call succeeded, with nothing to report.
    Completed,
    /// The call failed, for the given reason.
    Failed { reason: String },
}

/// Whether `outcome` answers `action` with a created channel, and if so for
/// which user and which channel; `None` for any other pair, in particular
/// for every failure.
pub open spec fn creation_reported(action: ActionView, outcome: Outcome) -> Option<
    (UserId, ChannelId),
> {
    match (action, outcome) {
        (ActionView::CreateChannel { user, .. }, Outcome::Created { channel }) => Some(
            (user, channel),
        ),
        _ => None,
    }
}

/// `dir` after `outcome` was reported for `action`. Only a created channel
/// changes it.
pub open spec fn after_outcome(dir: DirectoryView, action: ActionView, outcome: Outcome)
    -> DirectoryView {
    match creation_reported(action, outcome) {
        Some((user, channel)) => after_creation(dir, user, Some(channel)),
        None => dir,
    }
}

/// The calls that follow once `outcome` was reported for `action`. Only a
/// created channel has a call follow, the move of its user into it.
pub open spec fn follow_up(guild: GuildId, action: ActionView, outcome: Outcome) -> Seq<
    ActionView,
> {
    match creation_reported(action, outcome) {
        Some((user, channel)) => moves_after_creation(guild, user, Some(channel)),
        None => Seq::empty(),
    }
}

/// The directory of one guild together with the rules and the names that
/// govern it. Every channel it manages has at least one occupant.
#[derive(Debug)]
pub struct LifecycleDriver {
    rules: OccupancyReconciler,
    directory: ChannelDirectory,
    names: NameProvider,
}

impl View for LifecycleDriver {
    type V = DirectoryView;

    closed spec fn view(&self) -> DirectoryView {
        self.directory@
    }
}

impl LifecycleDriver {
    /// The directory is consistent, and none of its channels is without
    /// occupants.
    pub closed spec fn wf(&self) -> bool {
        self.directory.wf() && populated(self.directory@)
    }

    /// The lobby and the guild that this driver was made for.
    pub closed spec fn rules(&self) -> OccupancyReconciler {
        self.rules
    }

    /// The labels from which names of new channels are picked.
    pub closed spec fn labels(&self) -> Seq<Seq<char>> {
        self.names@
    }

    /// A driver for `guild` that manages no channel yet. Users enter
    /// through `lobby`, and new channels get their names from `names`.
    pub fn new(lobby: ChannelId, guild: GuildId, names: NameProvider) -> (driver: LifecycleDriver)
        ensures
            driver.wf(),
            driver@ == DirectoryView::empty(),
            driver.rules() == (OccupancyReconciler { lobby, guild }),
            driver.labels() == names@,
    {
        LifecycleDriver {
            rules: OccupancyReconciler { lobby, guild },
            directory: ChannelDirectory::new(),
            names,
        }
    }

    /// The lobby channel.
    pub fn lobby(&self) -> (lobby: ChannelId)
        ensures
            lobby == self.rules().lobby,
    {
        self.rules.lobby
    }

    /// The guild.
    pub fn guild(&self) -> (guild: GuildId)
        ensures
            guild == self.rules().guild,
    {
        self.rules.guild
    }

    /// The directory, to look things up in.
    pub fn directory(&self) -> (dir: &ChannelDirectory)
        requires
            self.wf(),
        ensures
            dir.wf(),
            dir@ == self@,
            populated(dir@),
    {
        &self.directory
    }

    /// Handles one membership event and returns the calls to make for it,
    /// in the order in which they are to be made: the deletion of the
    /// channel that the user has left without occupants, then the creation
    /// of a channel if the user has entered the lobby.
    pub fn handle_event(&mut self, event: MembershipEvent) -> (outcome: Reconciliation)
        requires
            old(self).wf(),
        ensures
            final(self).wf(),
            final(self).rules() == old(self).rules(),
            final(self).labels() == old(self).labels(),
            resolves(old(self)@, event, outcome.effective_previous),
            final(self)@ == after_event(
                old(self)@,
                event.user,
                outcome.effective_previous,
                event.new_channel,
            ),
            populated(final(self)@),
            final(self)@.dom().subset_of(old(self)@.dom()),
            exists|name: Option<Seq<char>>|
                {
                    &&& name is Some <==> enters_lobby(
                        old(self).rules().lobby,
                        outcome.effective_previous,
                        event.new_channel,
                    )
                    &&& name matches Some(label) ==> old(self).labels().contains(label)
                    &&& action_views(outcome.actions@) == #[trigger] planned(
                        old(self).rules().guild,
                        event.user,
                        vacated(
                            old(self)@,
                            event.user,
                            outcome.effective_previous,
                            event.new_channel,
                        ),
                        name,
                    )
                },
    {
        let outcome = self.rules.reconcile(&mut self.directory, &self.names, event);
        proof {
            lemma_event_keeps_channels_populated(
                old(self)@,
                event.user,
                outcome.effective_previous,
                event.new_channel,
            );
        }
        outcome
    }

    /// Takes in how the call `action` ended and returns the calls that
    /// follow from it. A channel that was created for a user is registered
    /// with the user as its only occupant, and the user's move into it
    /// follows. Any other outcome, a failure above all, changes nothing and
    /// has nothing follow.
    pub fn handle_outcome(&mut self, action: &Action, outcome: &Outcome) -> (next: Vec<Action>)
        requires
            old(self).wf(),
        ensures
            final(self).wf(),
            final(self).rules() == old(self).rules(),
            final(self).labels() == old(self).labels(),
            final(self)@ == after_outcome(old(self)@, action@, *outcome),
            populated(final(self)@),
            action_views(next@) == follow_up(old(self).rules().guild, action@, *outcome),
    {
        match (action, outcome) {
            (Action::CreateChannel { user, .. }, Outcome::Created { channel }) => {
                proof {
                    lemma_creation_keeps_channels_populated(old(self)@, *user, Some(*channel));
                }
                self.rules.settle_creation(&mut self.directory, *user, Some(*channel))
            },
            _ => Vec::new(),
        }
    }
}

} // verus!
