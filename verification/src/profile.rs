//! The player's login and the win and loss counts that are shown with it.

use vstd::prelude::*;

verus! {

/// What a login hands over.
#[derive(Clone, Debug)]
pub struct AuthPayload {
    pub public_key: String,
    pub username: String,
}

/// The player as the client knows it.
#[derive(Clone, Debug)]
pub struct ProfileData {
    pub logged_in: bool,
    pub public_key: String,
    pub username: String,
}

/// The profile with its texts as sequences of characters.
pub struct ProfileView {
    pub logged_in: bool,
    pub public_key: Seq<char>,
    pub username: Seq<char>,
}

impl View for ProfileData {
    type V = ProfileView;

    open spec fn view(&self) -> ProfileView {
        ProfileView {
            logged_in: self.logged_in,
            public_key: self.public_key@,
            username: self.username@,
        }
    }
}

impl ProfileView {
    /// A login counts when it names both a key and a user.
    pub open spec fn is_login(public_key: Seq<char>, username: Seq<char>) -> bool {
        public_key.len() > 0 && username.len() > 0
    }

    /// The profile after a look at what the last login handed over: a
    /// profile that is logged in stays as it is; else it takes the login if
    /// it counts, and is emptied if it does not.
    pub open spec fn polled(self, public_key: Seq<char>, username: Seq<char>) -> ProfileView {
        if self.logged_in {
            self
        } else if Self::is_login(public_key, username) {
            ProfileView { logged_in: true, public_key, username }
        } else {
            ProfileView { logged_in: false, public_key: Seq::empty(), username: Seq::empty() }
        }
    }
}

impl Default for ProfileData {
    fn default() -> (profile: ProfileData)
        ensures
            profile@ == (ProfileView {
                logged_in: false,
                public_key: Seq::empty(),
                username: Seq::empty(),
            }),
    {
        ProfileData { logged_in: false, public_key: String::new(), username: String::new() }
    }
}

/// Looks at what the last login handed over and says whether the player has
/// become logged in by it.
pub fn poll_auth_state(profile: &mut ProfileData, public_key: &str, username: &str) -> (logged_in_now: bool)
    ensures
        final(profile)@ == old(profile)@.polled(public_key@, username@),
        logged_in_now == (!old(profile).logged_in && ProfileView::is_login(
            public_key@,
            username@,
        )),
{
    if profile.logged_in {
        return false;
    }
    if public_key.unicode_len() > 0 && username.unicode_len() > 0 {
        profile.logged_in = true;
        profile.public_key = public_key.to_owned();
        profile.username = username.to_owned();
        true
    } else {
        profile.logged_in = false;
        profile.public_key = String::new();
        profile.username = String::new();
        false
    }
}

/// The player's wins and losses.
#[derive(Clone, Copy, Debug, PartialEq, Eq, Structural)]
pub struct StatsData {
    pub win: u32,
    pub loss: u32,
}

impl Default for StatsData {
    fn default() -> (stats: StatsData)
        ensures
            stats == (StatsData { win: 0, loss: 0 }),
    {
        StatsData { win: 0, loss: 0 }
    }
}

/// Wins and losses as they are reported to the client.
#[derive(Clone, Copy, Debug, PartialEq, Eq, Structural)]
pub struct StatsPayload {
    pub win: u32,
    pub loss: u32,
}

/// Wins and losses as the client reports them.
#[derive(Clone, Copy, Debug, PartialEq, Eq, Structural)]
pub struct StatsResponse {
    pub win: u32,
    pub loss: u32,
}

/// Takes over the counts that were reported last, for a player who is logged
/// in, and says whether they differ from what was shown.
pub fn poll_stats_state(stats: &mut StatsData, profile: &ProfileData, reported: StatsPayload) -> (changed: bool)
    ensures
        changed == (profile.logged_in && (reported.win != old(stats).win || reported.loss != old(
            stats,
        ).loss)),
        *final(stats) == if profile.logged_in {
            StatsData { win: reported.win, loss: reported.loss }
        } else {
            *old(stats)
        },
{
    if !profile.logged_in {
        return false;
    }
    if reported.win != stats.win || reported.loss != stats.loss {
        stats.win = reported.win;
        stats.loss = reported.loss;
        true
    } else {
        false
    }
}

} // verus!
