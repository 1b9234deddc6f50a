//! The in-memory mirror of the channels this system created and of who
//! occupies each of them.

use std::collections::hash_map::Entry;
use std::collections::{HashMap, HashSet};
use vstd::prelude::*;
use vstd::std_specs::hash::*;
use vstd::std_specs::iter::IteratorSpec;

verus! {

/// Identifier of a channel, issued by the platform.
pub type ChannelId = u64;

/// Identifier of a user, issued by the platform.
pub type UserId = u64;

/// Identifier of a guild, issued by the platform.
pub type GuildId = u64;

/// What a directory knows: each managed channel with its occupant set.
pub type DirectoryView = Map<ChannelId, Set<UserId>>;

/// The occupants of `channel`; nobody, when the channel is not managed.
pub open spec fn occupants_of(dir: DirectoryView, channel: ChannelId) -> Set<UserId> {
    if dir.contains_key(channel) {
        dir[channel]
    } else {
        Set::empty()
    }
}

/// Whether `dir` counts `user` among the occupants of `channel`.
pub open spec fn occupies(dir: DirectoryView, user: UserId, channel: ChannelId) -> bool {
    dir.contains_key(channel) && dir[channel].contains(user)
}

/// `dir` after `user` was added to `channel`, which becomes managed if it
/// was not.
pub open spec fn with_occupant(dir: DirectoryView, channel: ChannelId, user: UserId)
    -> DirectoryView {
    dir.insert(channel, occupants_of(dir, channel).insert(user))
}

/// `dir` after `user` was taken out of `channel`. The channel stays managed
/// even when nobody is left in it.
pub open spec fn without_occupant(dir: DirectoryView, channel: ChannelId, user: UserId)
    -> DirectoryView {
    if dir.contains_key(channel) {
        dir.insert(channel, dir[channel].remove(user))
    } else {
        dir
    }
}

/// `dir` after `channel` was registered with `user` as its only occupant.
pub open spec fn registered(dir: DirectoryView, channel: ChannelId, user: UserId)
    -> DirectoryView {
    dir.insert(channel, set![user])
}

/// Whether every channel of `dir` has at least one occupant.
pub open spec fn populated(dir: DirectoryView) -> bool {
    forall|channel: ChannelId| #[trigger] dir.contains_key(channel) ==> !dir[channel].is_empty()
}

/// The managed channels and their occupants.
///
/// Two collections are kept in lockstep: the set of channels that were
/// created here, and the occupants of each of them. A channel is in one
/// exactly if it is in the other.
#[derive(Debug)]
pub struct ChannelDirectory {
    created: HashSet<ChannelId>,
    occupants: HashMap<ChannelId, HashSet<UserId>>,
}

impl View for ChannelDirectory {
    type V = DirectoryView;

    closed spec fn view(&self) -> DirectoryView {
        self.occupants@.map_values(|users: HashSet<UserId>| users@)
    }
}

impl ChannelDirectory {
    /// The two collections hold the same channels.
    pub closed spec fn wf(&self) -> bool {
        self.created@ == self.occupants@.dom()
    }

    /// A directory without channels.
    pub fn new() -> (dir: ChannelDirectory)
        ensures
            dir.wf(),
            dir@ == DirectoryView::empty(),
    {
        let dir = ChannelDirectory { created: HashSet::new(), occupants: HashMap::new() };
        dir
    }

    /// Whether `channel` was created here and not retired since.
    pub fn is_managed(&self, channel: ChannelId) -> (managed: bool)
        requires
            self.wf(),
        ensures
            managed == self@.contains_key(channel),
    {
        broadcast use group_hash_axioms;

        self.created.contains(&channel)
    }

    /// The number of managed channels.
    pub fn len(&self) -> (n: usize)
        ensures
            n == self@.len(),
    {
        broadcast use group_hash_axioms;

        assert(self@.dom() =~= self.occupants@.dom());
        self.occupants.len()
    }

    /// A copy of the occupant set of `channel`, empty when the channel is
    /// not managed.
    pub fn occupants(&self, channel: ChannelId) -> (users: HashSet<UserId>)
        ensures
            users@ == occupants_of(self@, channel),
    {
        broadcast use group_hash_axioms;

        let mut users: HashSet<UserId> = HashSet::new();
        match self.occupants.get(&channel) {
            Some(recorded) => {
                let ghost order: Seq<UserId> = recorded.iter().remaining().unref();
                for user in iter: recorded.iter()
                    invariant
                        iter.seq().unref() == order,
                        users@ == order.take(iter.index()).to_set(),
                {
                    users.insert(*user);
                    proof {
                        let seen = order.take(iter.index());
                        assert(order.take(iter.index() + 1) =~= seen.push(*user));
                        seen.lemma_push_to_set_commute(*user);
                    }
                }
                assert(order.take(order.len() as int) =~= order);
            },
            None => {},
        }
        users
    }

    /// A managed channel that counts `user` among its occupants, or `None`
    /// when there is none. Where the user is recorded in several channels,
    /// any of them may come back.
    pub fn channel_of(&self, user: UserId) -> (found: Option<ChannelId>)
        ensures
            match found {
                Some(channel) => occupies(self@, user, channel),
                None => forall|channel: ChannelId| !occupies(self@, user, channel),
            },
    {
        broadcast use group_hash_axioms;

        let ghost order: Seq<(&ChannelId, &HashSet<UserId>)> = self.occupants.iter().remaining();
        for entry in iter: self.occupants.iter()
            invariant
                iter.seq() == order,
                forall|k: int| 0 <= k < iter.index() ==> !(#[trigger] order[k]).1@.contains(user),
        {
            let (channel, users) = entry;
            if users.contains(&user) {
                return Some(*channel);
            }
        }
        None
    }

    /// Adds `user` to the occupants of `channel`. Adding an occupant twice
    /// changes nothing; a channel that was not managed becomes so.
    pub fn add_occupant(&mut self, channel: ChannelId, user: UserId)
        requires
            old(self).wf(),
        ensures
            final(self).wf(),
            final(self)@ == with_occupant(old(self)@, channel, user),
    {
        broadcast use group_hash_axioms;

        self.created.insert(channel);
        let users = self.occupants.entry(channel).or_insert(HashSet::new());
        users.insert(user);
    }

    /// Takes `user` out of the occupants of `channel` and tells whether the
    /// channel is now without occupants, as a channel that is not managed
    /// always is. A managed channel stays so until it is retired.
    pub fn remove_occupant(&mut self, channel: ChannelId, user: UserId) -> (now_empty: bool)
        requires
            old(self).wf(),
        ensures
            final(self).wf(),
            final(self)@ == without_occupant(old(self)@, channel, user),
            now_empty == occupants_of(final(self)@, channel).is_empty(),
    {
        broadcast use group_hash_axioms;

        let now_empty = match self.occupants.entry(channel) {
            Entry::Occupied(mut slot) => {
                let users = slot.get_mut();
                users.remove(&user);
                users.is_empty()
            },
            Entry::Vacant(_) => true,
        };
        assert(self.occupants@.dom() =~= old(self).occupants@.dom());
        now_empty
    }

    /// Records `channel` as created here, with `initial_occupant` as its
    /// only occupant.
    pub fn register_created(&mut self, channel: ChannelId, initial_occupant: UserId)
        requires
            old(self).wf(),
        ensures
            final(self).wf(),
            final(self)@ == registered(old(self)@, channel, initial_occupant),
    {
        broadcast use group_hash_axioms;

        let mut users: HashSet<UserId> = HashSet::new();
        users.insert(initial_occupant);
        self.created.insert(channel);
        self.occupants.insert(channel, users);
    }

    /// Forgets `channel` and its occupants.
    pub fn retire(&mut self, channel: ChannelId)
        requires
            old(self).wf(),
        ensures
            final(self).wf(),
            final(self)@ == old(self)@.remove(channel),
    {
        broadcast use group_hash_axioms;

        self.occupants.remove(&channel);
        self.created.remove(&channel);
    }
}

} // verus!
