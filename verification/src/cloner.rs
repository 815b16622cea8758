//! Re-materializing a source message for the destination channel.
//!
//! A message that is itself a reply is relayed as a bare reference to the
//! message it replies to, with no body of its own. Any other message is
//! rebuilt wholesale: its text plus one URL line per attachment that fell
//! back under the byte budget, the re-uploaded attachments, and its stickers
//! copied verbatim.

use crate::attachments::atts_view;
use crate::attachments::fallback_suffix;
use crate::attachments::files_view;
use crate::attachments::kept_files;
use crate::attachments::materialize;
use crate::attachments::AttachmentModel;
use crate::attachments::DownloadedAttachment;
use crate::attachments::FileModel;
use crate::attachments::SourceAttachment;
use crate::util::copy_vec;
use vstd::prelude::*;
use vstd::string::StringExecFns;

verus! {

/// A reference to another message, as carried by a reply.
#[derive(Clone, Copy, Debug, PartialEq, Eq, Structural)]
pub struct MessageRef {
    pub channel_id: u64,
    pub message_id: u64,
}

/// A source message as the cloner sees it, download outcomes included.
pub struct SourceMessage {
    pub id: u64,
    pub channel_id: u64,
    pub author_id: u64,
    pub content: String,
    pub reference: Option<MessageRef>,
    pub attachments: Vec<SourceAttachment>,
    pub stickers: Vec<u64>,
}

/// Everything needed to (re)send one message: a bare reply reference, or a
/// body of text, re-uploaded files and stickers.
pub struct CloneMessage {
    pub reference: Option<MessageRef>,
    pub content: String,
    pub files: Vec<DownloadedAttachment>,
    pub stickers: Vec<u64>,
}

/// Mathematical image of a source message.
#[verifier::ext_equal]
pub struct MessageModel {
    pub id: u64,
    pub channel_id: u64,
    pub author_id: u64,
    pub content: Seq<char>,
    pub reference: Option<MessageRef>,
    pub attachments: Seq<AttachmentModel>,
    pub stickers: Seq<u64>,
}

/// Mathematical image of a rebuilt message.
#[verifier::ext_equal]
pub struct CloneModel {
    pub reference: Option<MessageRef>,
    pub content: Seq<char>,
    pub files: Seq<FileModel>,
    pub stickers: Seq<u64>,
}

impl View for SourceMessage {
    type V = MessageModel;

    open spec fn view(&self) -> MessageModel {
        MessageModel {
            id: self.id,
            channel_id: self.channel_id,
            author_id: self.author_id,
            content: self.content@,
            reference: self.reference,
            attachments: atts_view(self.attachments@),
            stickers: self.stickers@,
        }
    }
}

impl View for CloneMessage {
    type V = CloneModel;

    open spec fn view(&self) -> CloneModel {
        CloneModel {
            reference: self.reference,
            content: self.content@,
            files: files_view(self.files@),
            stickers: self.stickers@,
        }
    }
}

/// What the rebuilt message must be: a bare reference for a reply, the
/// augmented body otherwise.
pub open spec fn clone_model(m: MessageModel, limit: u32) -> CloneModel {
    if m.reference is Some {
        CloneModel {
            reference: m.reference,
            content: Seq::empty(),
            files: Seq::empty(),
            stickers: Seq::empty(),
        }
    } else {
        CloneModel {
            reference: None,
            content: m.content + fallback_suffix(m.attachments, limit),
            files: kept_files(m.attachments, limit),
            stickers: m.stickers,
        }
    }
}

/// Rebuild `msg` for the destination channel under the byte budget `limit`.
///
/// A reply short-circuits to a bare reference: its content, files and
/// stickers come back empty. Otherwise the content is the source text plus
/// the URL fallback lines, the files are the re-uploads chosen by the
/// budget policy, and the stickers are copied in order.
pub fn clone_message(msg: &SourceMessage, limit: u32) -> (c: CloneMessage)
    ensures
        c@ == clone_model(msg@, limit),
{
    if let Some(r) = &msg.reference {
        let c = CloneMessage {
            reference: Some(*r),
            content: String::new(),
            files: Vec::new(),
            stickers: Vec::new(),
        };
        proof {
            assert(c@ =~= clone_model(msg@, limit));
        }
        return c;
    }
    let (suffix, files) = materialize(&msg.attachments, limit);
    let mut content = msg.content.clone();
    content.append(suffix.as_str());
    let c = CloneMessage { reference: None, content, files, stickers: copy_vec(&msg.stickers) };
    proof {
        assert(c@ =~= clone_model(msg@, limit));
    }
    c
}

} // verus!
