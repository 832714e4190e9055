//! Process configuration, as plain values.

use vstd::prelude::*;

verus! {

/// The whole configuration.
pub struct Config {
    pub database: Database,
    pub moodle: Moodle,
    pub moodle_extender: MoodleExtender,
    pub updater: Updater,
    pub bot: Bot,
}

/// Where the dialogue store lives.
pub struct Database {
    pub path: String,
}

/// How to reach Moodle, and how fast.
pub struct Moodle {
    pub base_url: String,
    pub rpm: u32,
    pub max_burst: u32,
    pub user_agent: String,
    pub activity_id: u32,
}

/// How to reach the service that holds the delegated sessions.
pub struct MoodleExtender {
    pub base_url: String,
}

/// How often the updater runs.
#[derive(Debug)]
pub struct Updater {
    pub interval: std::time::Duration,
}

/// The channels that the bot listens to, and the chats that may use the
/// commands for super users.
pub struct Bot {
    pub update_channels: Vec<BotChannel>,
    pub super_users: Vec<i64>,
}

/// A channel and the attendance activity that it announces passwords for.
#[derive(Clone, Copy, Debug, PartialEq, Eq, Structural)]
pub struct BotChannel {
    pub id: i64,
    pub activity_id: u32,
}

/// The activity of the first channel with the given id.
pub open spec fn activity_of(channels: Seq<BotChannel>, chat_id: i64) -> Option<u32>
    decreases channels.len(),
{
    if channels.len() == 0 {
        None
    } else if channels.first().id == chat_id {
        Some(channels.first().activity_id)
    } else {
        activity_of(channels.drop_first(), chat_id)
    }
}

impl Bot {
    /// Tells whether a chat may use the commands for super users.
    pub fn is_super_user(&self, chat_id: i64) -> (listed: bool)
        ensures
            listed == self.super_users@.contains(chat_id),
    {
        let mut i: usize = 0;
        while i < self.super_users.len()
            invariant
                i <= self.super_users.len(),
                forall|k: int| 0 <= k < i ==> self.super_users@[k] != chat_id,
            decreases self.super_users.len() - i,
        {
            if self.super_users[i] == chat_id {
                return true;
            }
            i += 1;
        }
        false
    }

    /// Finds the activity that a channel announces passwords for.
    pub fn activity_for(&self, chat_id: i64) -> (activity: Option<u32>)
        ensures
            activity == activity_of(self.update_channels@, chat_id),
    {
        let ghost all = self.update_channels@;
        let mut i: usize = 0;
        assert(all.skip(0) =~= all);
        while i < self.update_channels.len()
            invariant
                i <= self.update_channels.len(),
                all == self.update_channels@,
                activity_of(all, chat_id) == activity_of(all.skip(i as int), chat_id),
            decreases self.update_channels.len() - i,
        {
            if self.update_channels[i].id == chat_id {
                return Some(self.update_channels[i].activity_id);
            }
            assert(all.skip(i as int).drop_first() =~= all.skip(i + 1));
            i += 1;
        }
        None
    }
}

} // verus!
