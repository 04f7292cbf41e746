//! Spreading profiles evenly over the nodes.

use crate::fryer::structures::fried::{NodeRole, NodeRoleView};
use crate::fryer::structures::raw::{ProfileRefTrait, ProfileTrait};
use crate::search::{first_where, lemma_first_where_found};
use vstd::prelude::*;

verus! {

/// The condition "is called `name`" on profiles.
pub open spec fn profile_named<P: ProfileTrait>(name: Seq<char>) -> spec_fn(P) -> bool {
    |p: P| p.pname() == name
}

/// Whether the list holds a profile called `name`.
pub open spec fn has_profile<P: ProfileTrait>(list: Seq<P>, name: Seq<char>) -> bool {
    first_where(list, profile_named::<P>(name)) is Some
}

/// The first profile of the list called `name`.
pub open spec fn profile_of<P: ProfileTrait>(list: Seq<P>, name: Seq<char>) -> P {
    list[first_where(list, profile_named::<P>(name)).unwrap()]
}

/// A list of profiles in which profiles are looked up by name.
pub struct ProfileList<'a, P: ProfileTrait> {
    pub list: &'a Vec<P>,
}

impl<'a, P: ProfileTrait> ProfileList<'a, P> {
    /// Tells whether the list holds a profile of that name.
    pub fn has_profile(&self, profile_name: &str) -> (res: bool)
        ensures
            res == has_profile(self.list@, profile_name@),
    {
        self.position(profile_name).is_some()
    }

    /// Gets the first profile called `profile_name`. The list must hold one.
    pub fn get_profile(&self, profile_name: &str) -> (res: &'a P)
        requires
            has_profile(self.list@, profile_name@),
        ensures
            *res == profile_of(self.list@, profile_name@),
    {
        let list: &'a Vec<P> = self.list;
        match self.position(profile_name) {
            Some(i) => &list[i],
            None => {
                assert(false);
                &list[0]
            },
        }
    }

    /// Position of the first profile called `profile_name`.
    fn position(&self, profile_name: &str) -> (res: Option<usize>)
        ensures
            match res {
                Some(i) => first_where(self.list@, profile_named::<P>(profile_name@)) == Some(
                    i as int,
                ) && i < self.list.len(),
                None => first_where(self.list@, profile_named::<P>(profile_name@)) is None,
            },
    {
        let name = profile_name.to_string();
        let mut i: usize = 0;
        while i < self.list.len()
            invariant
                i <= self.list.len(),
                name@ == profile_name@,
                forall|k: int|
                    0 <= k < i ==> !profile_named::<P>(profile_name@)(#[trigger] self.list@[k]),
            decreases self.list.len() - i,
        {
            if *self.list[i].get_pname() == name {
                proof {
                    lemma_first_where_found(
                        self.list@,
                        profile_named::<P>(profile_name@),
                        i as int,
                    );
                }
                return Some(i);
            }
            i += 1;
        }
        proof {
            crate::search::lemma_first_where_absent(self.list@, profile_named::<P>(profile_name@));
        }
        None
    }
}

/// The position after `position` in a cycle of `len` positions.
pub open spec fn next_in_cycle(position: int, len: int) -> int {
    if position + 1 >= len {
        0
    } else {
        position + 1
    }
}

/// Hands out profiles in turn: the trainers take theirs from one cycle of
/// references, the aggregators from another.
pub struct ProfilesCycler<'a, P: ProfileTrait, R: ProfileRefTrait> {
    pub profiles_trainers: &'a Vec<R>,
    pub profiles_aggregators: &'a Vec<R>,
    /// Position of the reference that the next trainer gets.
    pub next_trainer: usize,
    /// Position of the reference that the next aggregator gets.
    pub next_aggregator: usize,
    pub profiles_list: ProfileList<'a, P>,
}

impl<'a, P: ProfileTrait, R: ProfileRefTrait> ProfilesCycler<'a, P, R> {
    /// Both positions lie in their cycles.
    pub open spec fn wf(&self) -> bool {
        &&& self.next_trainer < self.profiles_trainers.len() || self.next_trainer == 0
        &&& self.next_aggregator < self.profiles_aggregators.len() || self.next_aggregator == 0
    }

    /// The references that a node of the given role may get.
    pub open spec fn refs_for(&self, role: NodeRoleView) -> Seq<R> {
        match role {
            NodeRoleView::Trainer(_) => self.profiles_trainers@,
            NodeRoleView::Aggregator(_) => self.profiles_aggregators@,
        }
    }

    /// Position of the reference that the next node of the given role gets.
    pub open spec fn next_for(&self, role: NodeRoleView) -> int {
        match role {
            NodeRoleView::Trainer(_) => self.next_trainer as int,
            NodeRoleView::Aggregator(_) => self.next_aggregator as int,
        }
    }

    /// Whether a node of the given role can be served: there is a reference
    /// for it, and the profile it names exists.
    pub open spec fn can_pick(&self, role: NodeRoleView) -> bool {
        &&& self.refs_for(role).len() > 0
        &&& has_profile(
            self.profiles_list.list@,
            self.refs_for(role)[self.next_for(role)].rname(),
        )
    }

    /// Creates a cycler over the references for trainers and for
    /// aggregators, which name profiles of `profiles_list`.
    pub fn new(
        profiles_trainers: &'a Vec<R>,
        profiles_aggregators: &'a Vec<R>,
        profiles_list: ProfileList<'a, P>,
    ) -> (res: ProfilesCycler<'a, P, R>)
        ensures
            res.profiles_trainers == profiles_trainers,
            res.profiles_aggregators == profiles_aggregators,
            res.profiles_list.list == profiles_list.list,
            res.next_trainer == 0,
            res.next_aggregator == 0,
            res.wf(),
    {
        ProfilesCycler {
            profiles_trainers,
            profiles_aggregators,
            next_trainer: 0,
            next_aggregator: 0,
            profiles_list,
        }
    }

    /// Picks the profile for a node of the given role: the profile named by
    /// the next reference in the cycle of that role, which then moves on.
    pub fn pick_profile(&mut self, node_role: &NodeRole) -> (res: &'a P)
        requires
            old(self).wf(),
            old(self).can_pick(node_role@),
        ensures
            *res == profile_of(
                old(self).profiles_list.list@,
                old(self).refs_for(node_role@)[old(self).next_for(node_role@)].rname(),
            ),
            final(self).wf(),
            final(self).profiles_trainers == old(self).profiles_trainers,
            final(self).profiles_aggregators == old(self).profiles_aggregators,
            final(self).profiles_list.list == old(self).profiles_list.list,
            final(self).next_for(node_role@) == next_in_cycle(
                old(self).next_for(node_role@),
                old(self).refs_for(node_role@).len() as int,
            ),
            node_role@ is Trainer ==> final(self).next_aggregator == old(self).next_aggregator,
            node_role@ is Aggregator ==> final(self).next_trainer == old(self).next_trainer,
    {
        match node_role {
            NodeRole::Trainer(_) => {
                let refs: &'a Vec<R> = self.profiles_trainers;
                let profile_name = refs[self.next_trainer].get_rname();
                self.next_trainer = if self.next_trainer + 1 >= refs.len() {
                    0
                } else {
                    self.next_trainer + 1
                };
                self.profiles_list.get_profile(profile_name.as_str())
            },
            NodeRole::Aggregator(_) => {
                let refs: &'a Vec<R> = self.profiles_aggregators;
                let profile_name = refs[self.next_aggregator].get_rname();
                self.next_aggregator = if self.next_aggregator + 1 >= refs.len() {
                    0
                } else {
                    self.next_aggregator + 1
                };
                self.profiles_list.get_profile(profile_name.as_str())
            },
        }
    }
}

} // verus!
