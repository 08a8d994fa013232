//! The roster: the display profile that stands for each connected user.

use crate::text::texts;
use vstd::prelude::*;

verus! {

/// A profile as a mathematical value.
pub struct ProfileView {
    pub name: Seq<char>,
    pub avatar: Seq<char>,
}

/// The address of the avatar that is shown for a name.
pub open spec fn avatar_url(name: Seq<char>) -> Seq<char> {
    "https://avatars.dicebear.com/api/adventurer-neutral/"@ + name + ".svg"@
}

/// The profile that is derived from a name.
pub open spec fn profile_of(name: Seq<char>) -> ProfileView {
    ProfileView { name, avatar: avatar_url(name) }
}

/// The roster for a list of names: the profile of each name, in the order of
/// the names. A name that is listed twice has two profiles.
pub open spec fn roster_of(names: Seq<Seq<char>>) -> Seq<ProfileView> {
    Seq::new(names.len(), |i: int| profile_of(names[i]))
}

/// How a user is shown: the name and the address of the avatar. A profile is
/// always derived from its name.
#[derive(Debug, PartialEq, Eq)]
pub struct UserProfile {
    name: String,
    avatar: String,
}

impl View for UserProfile {
    type V = ProfileView;

    closed spec fn view(&self) -> ProfileView {
        ProfileView { name: self.name@, avatar: self.avatar@ }
    }
}

/// The profiles that a sequence holds, in order.
pub open spec fn profiles(roster: Seq<UserProfile>) -> Seq<ProfileView> {
    Seq::new(roster.len(), |i: int| roster[i]@)
}

impl UserProfile {
    #[verifier::type_invariant]
    spec fn derived(self) -> bool {
        self.avatar@ == avatar_url(self.name@)
    }

    /// The profile of a name.
    pub fn new(name: &str) -> (r: UserProfile)
        ensures
            r@ == profile_of(name@),
    {
        let mut avatar = "https://avatars.dicebear.com/api/adventurer-neutral/".to_owned();
        avatar.append(name);
        avatar.append(".svg");
        UserProfile { name: name.to_owned(), avatar }
    }

    /// The name of the user.
    pub fn name(&self) -> (r: &String)
        ensures
            r@ == self@.name,
    {
        &self.name
    }

    /// The address of the user's avatar.
    pub fn avatar(&self) -> (r: &String)
        ensures
            r@ == self@.avatar,
            r@ == avatar_url(self@.name),
    {
        proof {
            use_type_invariant(self);
        }
        &self.avatar
    }
}

impl Clone for UserProfile {
    /// A copy of the profile. Like every profile it is the one derived from
    /// its name.
    fn clone(&self) -> (r: UserProfile)
        ensures
            r@ == self@,
            r@ == profile_of(self@.name),
    {
        proof {
            use_type_invariant(self);
        }
        UserProfile { name: self.name.clone(), avatar: self.avatar.clone() }
    }
}

/// The roster for the names that a `Users` envelope lists.
pub fn build_roster(usernames: &Vec<String>) -> (r: Vec<UserProfile>)
    ensures
        profiles(r@) == roster_of(texts(usernames@)),
{
    let mut roster: Vec<UserProfile> = Vec::new();
    let mut i: usize = 0;
    while i < usernames.len()
        invariant
            i <= usernames.len(),
            roster.len() == i,
            forall|j: int| 0 <= j < i ==> (#[trigger] roster@[j])@ == profile_of(usernames@[j]@),
        decreases usernames.len() - i,
    {
        roster.push(UserProfile::new(usernames[i].as_str()));
        i += 1;
    }
    assert(profiles(roster@) =~= roster_of(texts(usernames@)));
    roster
}

/// The roster follows the names: as many profiles as names, the profile at
/// each place derived from the name at that place, whether or not names
/// repeat.
pub proof fn lemma_roster_keeps_order(names: Seq<Seq<char>>)
    ensures
        roster_of(names).len() == names.len(),
        forall|i: int|
            0 <= i < names.len() ==> (#[trigger] roster_of(names)[i]).name == names[i]
                && roster_of(names)[i].avatar == avatar_url(names[i]),
        names.len() == 0 ==> roster_of(names) == Seq::<ProfileView>::empty(),
{
    if names.len() == 0 {
        assert(roster_of(names) =~= Seq::<ProfileView>::empty());
    }
}

} // verus!
