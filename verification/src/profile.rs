//! The operating profiles and the one in use.

use vstd::prelude::*;

use crate::config::{DEFAULT_PROFILE_INDEX, PROFILE_COUNT};

verus! {

/// A profile: its place in the order, its name and its display label.
#[derive(Debug, Clone, Copy, PartialEq, Eq)]
pub struct Profile {
    pub index: usize,
    pub name: &'static str,
    pub label: &'static str,
}

/// Name of the profile at `index` in the profile order.
pub open spec fn profile_name(index: int) -> Seq<char> {
    if index == 0 {
        "linux"@
    } else if index == 1 {
        "mac"@
    } else {
        "landscape"@
    }
}

/// Display label of the profile at `index` in the profile order.
pub open spec fn profile_label(index: int) -> Seq<char> {
    if index == 0 {
        "Linux"@
    } else if index == 1 {
        "Mac"@
    } else {
        "Landscape"@
    }
}

/// The profile that follows `index`, wrapping after the last one.
pub open spec fn next_index(index: int) -> int {
    (index + 1) % PROFILE_COUNT as int
}

/// Keeps track of the selected profile.
#[derive(Debug, Clone, Copy, PartialEq, Eq)]
pub struct ProfileManager {
    selected_index: usize,
}

impl View for ProfileManager {
    type V = int;

    /// Index of the selected profile.
    closed spec fn view(&self) -> int {
        self.selected_index as int
    }
}

impl ProfileManager {
    #[verifier::type_invariant]
    spec fn well_formed(self) -> bool {
        self.selected_index < PROFILE_COUNT
    }

    /// Starts at the default profile.
    pub fn new() -> (r: Self)
        ensures
            r@ == DEFAULT_PROFILE_INDEX,
    {
        Self { selected_index: DEFAULT_PROFILE_INDEX }
    }

    /// The selected profile.
    pub fn current(&self) -> (r: Profile)
        ensures
            r.index == self@,
            0 <= self@ < PROFILE_COUNT,
            r.name@ == profile_name(self@),
            r.label@ == profile_label(self@),
    {
        proof {
            use_type_invariant(self);
        }
        profile_at(self.selected_index)
    }

    /// Selects the next profile in the order and returns it.
    pub fn next(&mut self) -> (r: Profile)
        ensures
            final(self)@ == next_index(old(self)@),
            0 <= final(self)@ < PROFILE_COUNT,
            r.index == final(self)@,
            r.name@ == profile_name(final(self)@),
            r.label@ == profile_label(final(self)@),
    {
        proof {
            use_type_invariant(&*self);
        }
        self.selected_index = (self.selected_index + 1) % PROFILE_COUNT;
        self.current()
    }
}

fn profile_at(index: usize) -> (r: Profile)
    requires
        index < PROFILE_COUNT,
    ensures
        r.index == index,
        r.name@ == profile_name(index as int),
        r.label@ == profile_label(index as int),
{
    let (name, label) = if index == 0 {
        ("linux", "Linux")
    } else if index == 1 {
        ("mac", "Mac")
    } else {
        ("landscape", "Landscape")
    };
    Profile { index, name, label }
}


/// Walking through the profiles comes back to the start after one round,
/// and every step lands on a profile.
pub proof fn lemma_next_cycles(index: int)
    requires
        0 <= index < PROFILE_COUNT,
    ensures
        0 <= next_index(index) < PROFILE_COUNT,
        next_index(next_index(next_index(index))) == index,
{
}

} // verus!
