//! Event-driven decisions of the relay.
//!
//! Each inbound platform event (a reaction added, a message edited, a
//! message deleted) is reduced to a decision over plain values: whether the
//! reaction approves its message, and which mutation — if any — to apply to
//! the destination channel. The caller performs the fetches and hands the
//! results in; everything decided here is verified.

use crate::attachments::files_view;
use crate::attachments::DownloadedAttachment;
use crate::attachments::FileModel;
use crate::cloner::clone_message;
use crate::cloner::clone_model;
use crate::cloner::MessageModel;
use crate::cloner::SourceMessage;
use crate::resolve::hist_view;
use crate::resolve::resolve_anchor;
use crate::resolve::resolve_by_deleted_source;
use crate::resolve::resolve_by_destination_anchor;
use crate::resolve::resolve_deleted;
use crate::resolve::HistoryMessage;
use crate::resolve::HistoryModel;
use vstd::prelude::*;

verus! {

/// A reaction event as the dispatcher sees it: where it happened, on which
/// message, who reacted, who wrote the message, and the emoji used.
pub struct ReactionEvent {
    pub channel_id: u64,
    pub message_id: u64,
    pub user_id: Option<u64>,
    pub message_author_id: Option<u64>,
    pub emoji: String,
}

/// Mathematical image of a reaction event.
#[verifier::ext_equal]
pub struct ReactionModel {
    pub channel_id: u64,
    pub message_id: u64,
    pub user_id: Option<u64>,
    pub message_author_id: Option<u64>,
    pub emoji: Seq<char>,
}

impl View for ReactionEvent {
    type V = ReactionModel;

    open spec fn view(&self) -> ReactionModel {
        ReactionModel {
            channel_id: self.channel_id,
            message_id: self.message_id,
            user_id: self.user_id,
            message_author_id: self.message_author_id,
            emoji: self.emoji@,
        }
    }
}

/// A reaction approves its message exactly when it happened in the
/// monitored channel, uses the approval emoji, and comes from the message's
/// own author.
pub open spec fn approval_model(ev: ReactionModel, monitored_channel_id: u64, emoji: Seq<char>)
    -> bool {
    &&& ev.channel_id == monitored_channel_id
    &&& ev.emoji == emoji
    &&& ev.message_author_id == ev.user_id
}

/// Decide whether `ev` is an approval signal. Reactions in other channels,
/// with other emojis, or by anyone but the message's author are ignored.
pub fn reaction_is_approval(ev: &ReactionEvent, monitored_channel_id: u64, approval_emoji: &String)
    -> (b: bool)
    ensures
        b == approval_model(ev@, monitored_channel_id, approval_emoji@),
{
    let same_actor = match (ev.user_id, ev.message_author_id) {
        (Some(u), Some(a)) => u == a,
        (None, None) => true,
        _ => false,
    };
    ev.channel_id == monitored_channel_id && ev.emoji == *approval_emoji && same_actor
}

/// The edit to apply to the destination copy of an edited source message.
pub struct EditSync {
    pub destination_message_id: u64,
    pub content: String,
    pub files: Vec<DownloadedAttachment>,
}

/// Mathematical image of a planned edit.
#[verifier::ext_equal]
pub struct EditSyncModel {
    pub destination_message_id: u64,
    pub content: Seq<char>,
    pub files: Seq<FileModel>,
}

impl View for EditSync {
    type V = EditSyncModel;

    open spec fn view(&self) -> EditSyncModel {
        EditSyncModel {
            destination_message_id: self.destination_message_id,
            content: self.content@,
            files: files_view(self.files@),
        }
    }
}

/// What edit handling must do: nothing for another channel, nothing when no
/// link record is found (the message was never approved), and otherwise a
/// wholesale rewrite of the destination copy from the fresh source content.
pub open spec fn edit_sync_model(
    event_channel_id: u64,
    monitored_channel_id: u64,
    hist: Seq<HistoryModel>,
    bot_id: u64,
    fresh: MessageModel,
    limit: u32,
) -> Option<EditSyncModel> {
    if event_channel_id != monitored_channel_id {
        None
    } else {
        match resolve_anchor(hist, bot_id, fresh.id) {
            None => None,
            Some(dest_id) => Some(
                EditSyncModel {
                    destination_message_id: dest_id,
                    content: clone_model(fresh, limit).content,
                    files: clone_model(fresh, limit).files,
                },
            ),
        }
    }
}

/// Plan the synchronization of an edit: `fresh` is the edited source
/// message re-fetched by id (download outcomes included), `history` the
/// source channel's history, most recent first.
pub fn plan_edit_sync(
    event_channel_id: u64,
    monitored_channel_id: u64,
    history: &Vec<HistoryMessage>,
    bot_id: u64,
    fresh: &SourceMessage,
    limit: u32,
) -> (r: Option<EditSync>)
    ensures
        r is Some <==> edit_sync_model(
            event_channel_id,
            monitored_channel_id,
            hist_view(history@),
            bot_id,
            fresh@,
            limit,
        ) is Some,
        r is Some ==> r->0@ == edit_sync_model(
            event_channel_id,
            monitored_channel_id,
            hist_view(history@),
            bot_id,
            fresh@,
            limit,
        )->0,
{
    if event_channel_id != monitored_channel_id {
        return None;
    }
    match resolve_by_destination_anchor(history, bot_id, fresh.id) {
        None => None,
        Some(dest_id) => {
            let clone = clone_message(fresh, limit);
            Some(
                EditSync {
                    destination_message_id: dest_id,
                    content: clone.content,
                    files: clone.files,
                },
            )
        },
    }
}

/// The deletion to apply to the destination copy of a deleted source
/// message: which destination message to delete, and the id of the link
/// record that named it (the record itself is left in place).
#[derive(Clone, Copy, Debug, PartialEq, Eq, Structural)]
pub struct DeleteSync {
    pub destination_message_id: u64,
    pub link_message_id: u64,
}

/// What delete handling must do: nothing for another channel, nothing when
/// no link record names the deleted id, and otherwise the deletion of the
/// recorded destination copy.
pub open spec fn delete_sync_model(
    event_channel_id: u64,
    monitored_channel_id: u64,
    hist: Seq<HistoryModel>,
    bot_id: u64,
    deleted_id: u64,
) -> Option<DeleteSync> {
    if event_channel_id != monitored_channel_id {
        None
    } else {
        match resolve_deleted(hist, bot_id, deleted_id) {
            None => None,
            Some(pair) => Some(
                DeleteSync { destination_message_id: pair.0, link_message_id: pair.1 },
            ),
        }
    }
}

/// Plan the synchronization of a deletion: `history` is the source
/// channel's history, most recent first, `deleted_id` the id of the source
/// message that was deleted.
pub fn plan_delete_sync(
    event_channel_id: u64,
    monitored_channel_id: u64,
    history: &Vec<HistoryMessage>,
    bot_id: u64,
    deleted_id: u64,
) -> (r: Option<DeleteSync>)
    ensures
        r == delete_sync_model(
            event_channel_id,
            monitored_channel_id,
            hist_view(history@),
            bot_id,
            deleted_id,
        ),
{
    if event_channel_id != monitored_channel_id {
        return None;
    }
    match resolve_by_deleted_source(history, bot_id, deleted_id) {
        None => None,
        Some(pair) => Some(
            DeleteSync { destination_message_id: pair.0, link_message_id: pair.1 },
        ),
    }
}

/// Edit synchronization is idempotent: with the source content unchanged
/// and the channel history unchanged (an edit sync posts no new message in
/// the source channel, so it leaves the history's link records as they
/// were), two consecutive edit syncs plan structurally identical edits —
/// and an edit sync never plans a new link record at all.
pub proof fn lemma_edit_sync_idempotent(
    event_channel_id: u64,
    monitored_channel_id: u64,
    hist: Seq<HistoryModel>,
    bot_id: u64,
    first_fetch: MessageModel,
    second_fetch: MessageModel,
    limit: u32,
)
    requires
        first_fetch == second_fetch,
    ensures
        edit_sync_model(event_channel_id, monitored_channel_id, hist, bot_id, first_fetch, limit)
            == edit_sync_model(
            event_channel_id,
            monitored_channel_id,
            hist,
            bot_id,
            second_fetch,
            limit,
        ),
{
}

} // verus!
