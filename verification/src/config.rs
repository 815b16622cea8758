//! Static configuration of the relay: which channel is monitored, where the
//! relayed copies go, and the byte budget for re-uploaded attachments.

use vstd::prelude::*;

verus! {

/// Identifier of the moderated source channel whose messages can be approved.
pub const DEFAULT_MONITORED_CHANNEL_ID: u64 = 1456366697865941054;

/// Identifier of the category under which the destination channel lives.
pub const DEFAULT_PUBLIC_CATEGORY_ID: u64 = 1456067853374586970;

/// Identifier of the guild the relay operates in.
pub const DEFAULT_GUILD_ID: u64 = 1451378473858895884;

/// Byte budget for attachments re-uploaded to the destination channel.
pub const DEFAULT_FILE_UPLOAD_LIMIT: u32 = 95_000_000;

/// Settings the relay runs with. The token is filled in by the caller; the
/// defaults below describe the deployment the relay was written for.
pub struct BotConfig {
    pub discord_token: String,
    pub sent_channel_name: String,
    pub main_posting_channel_id: u64,
    pub public_category_id: u64,
    pub guild_id: u64,
    pub file_upload_limit: u32,
    pub prune_role: u64,
}

/// The default configuration: no token, the well-known channel, category and
/// guild identifiers, and the standard upload budget.
pub fn get_config() -> (c: BotConfig)
    ensures
        c.discord_token@ == Seq::<char>::empty(),
        c.sent_channel_name@ == "leaks"@,
        c.main_posting_channel_id == DEFAULT_MONITORED_CHANNEL_ID,
        c.public_category_id == DEFAULT_PUBLIC_CATEGORY_ID,
        c.guild_id == DEFAULT_GUILD_ID,
        c.file_upload_limit == DEFAULT_FILE_UPLOAD_LIMIT,
        c.prune_role == 0,
{
    BotConfig {
        discord_token: String::new(),
        sent_channel_name: "leaks".to_owned(),
        main_posting_channel_id: DEFAULT_MONITORED_CHANNEL_ID,
        public_category_id: DEFAULT_PUBLIC_CATEGORY_ID,
        guild_id: DEFAULT_GUILD_ID,
        file_upload_limit: DEFAULT_FILE_UPLOAD_LIMIT,
        prune_role: 0,
    }
}

} // verus!
