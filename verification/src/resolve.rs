//! Recovering the link between a source message and its relayed copy.
//!
//! The link lives as the text of a bot-authored reply in the source channel
//! (see `crate::link`). These scans walk the channel history, most recent
//! first, and return the first message that carries the link looked for.
//! Finding nothing is a legitimate outcome, not an error: it means the
//! source message was never approved (or the record is out of the window).

use crate::link::link_of;
use crate::link::link_repr;
use crate::link::lemma_link_round_trip;
use crate::link::parse_link;
use vstd::prelude::*;

verus! {

/// A message of the scanned channel history, as the resolvers see it.
pub struct HistoryMessage {
    pub id: u64,
    pub author_id: u64,
    pub content: String,
    pub referenced_message_id: Option<u64>,
}

/// Mathematical image of a history message.
#[verifier::ext_equal]
pub struct HistoryModel {
    pub id: u64,
    pub author_id: u64,
    pub content: Seq<char>,
    pub referenced_message_id: Option<u64>,
}

impl View for HistoryMessage {
    type V = HistoryModel;

    open spec fn view(&self) -> HistoryModel {
        HistoryModel {
            id: self.id,
            author_id: self.author_id,
            content: self.content@,
            referenced_message_id: self.referenced_message_id,
        }
    }
}

/// The images of a sequence of history messages.
pub open spec fn hist_view(v: Seq<HistoryMessage>) -> Seq<HistoryModel> {
    v.map_values(|m: HistoryMessage| m@)
}

/// Is `m` the link record for the anchor message `anchor_id`: authored by
/// the bot, a reply to the anchor, and carrying a link text?
pub open spec fn is_anchor_link(m: HistoryModel, bot_id: u64, anchor_id: u64) -> bool {
    &&& m.author_id == bot_id
    &&& m.referenced_message_id == Some(anchor_id)
    &&& link_of(m.content) is Some
}

/// Is `m` the link record whose source side is `src_id`: authored by the
/// bot and carrying a link text that names `src_id` as the source?
pub open spec fn is_source_link(m: HistoryModel, bot_id: u64, src_id: u64) -> bool {
    &&& m.author_id == bot_id
    &&& link_of(m.content) is Some
    &&& (link_of(m.content)->0).1 == src_id
}

/// The destination id recovered for an anchor: from the first link record
/// in `hist` that replies to the anchor.
pub open spec fn resolve_anchor(hist: Seq<HistoryModel>, bot_id: u64, anchor_id: u64) -> Option<
    u64,
>
    decreases hist.len(),
{
    if hist.len() == 0 {
        None
    } else if is_anchor_link(hist[0], bot_id, anchor_id) {
        Some((link_of(hist[0].content)->0).0)
    } else {
        resolve_anchor(hist.drop_first(), bot_id, anchor_id)
    }
}

/// The destination id and link-record id recovered for a deleted source
/// message: from the first link record in `hist` whose source side is the
/// deleted id.
pub open spec fn resolve_deleted(hist: Seq<HistoryModel>, bot_id: u64, src_id: u64) -> Option<
    (u64, u64),
>
    decreases hist.len(),
{
    if hist.len() == 0 {
        None
    } else if is_source_link(hist[0], bot_id, src_id) {
        Some(((link_of(hist[0].content)->0).0, hist[0].id))
    } else {
        resolve_deleted(hist.drop_first(), bot_id, src_id)
    }
}

/// Scan `history` (most recent first) for the link record that replies to
/// the edited message `anchor_id`, and return the destination id it names.
pub fn resolve_by_destination_anchor(history: &Vec<HistoryMessage>, bot_id: u64, anchor_id: u64)
    -> (r: Option<u64>)
    ensures
        r == resolve_anchor(hist_view(history@), bot_id, anchor_id),
{
    let ghost hv = hist_view(history@);
    proof {
        assert(hv.skip(0) =~= hv);
    }
    let mut i: usize = 0;
    while i < history.len()
        invariant
            i <= history@.len(),
            hv == hist_view(history@),
            resolve_anchor(hv, bot_id, anchor_id) == resolve_anchor(
                hv.skip(i as int),
                bot_id,
                anchor_id,
            ),
        decreases history@.len() - i,
    {
        let ghost rest = hv.skip(i as int);
        proof {
            assert(rest[0] == hv[i as int]);
            assert(rest.drop_first() =~= hv.skip(i as int + 1));
        }
        let m = &history[i];
        let is_reply_to_anchor = match m.referenced_message_id {
            Some(x) => x == anchor_id,
            None => false,
        };
        if m.author_id == bot_id && is_reply_to_anchor {
            if let Some(pair) = parse_link(m.content.as_str()) {
                return Some(pair.0);
            }
        }
        proof {
            assert(!is_anchor_link(hv[i as int], bot_id, anchor_id));
        }
        i = i + 1;
    }
    proof {
        assert(hv.skip(i as int) =~= Seq::<HistoryModel>::empty());
    }
    None
}

/// Scan `history` (most recent first) for the link record whose source side
/// is the deleted message `deleted_id`, and return the destination id it
/// names together with the record's own id.
pub fn resolve_by_deleted_source(history: &Vec<HistoryMessage>, bot_id: u64, deleted_id: u64) -> (r:
    Option<(u64, u64)>)
    ensures
        r == resolve_deleted(hist_view(history@), bot_id, deleted_id),
{
    let ghost hv = hist_view(history@);
    proof {
        assert(hv.skip(0) =~= hv);
    }
    let mut i: usize = 0;
    while i < history.len()
        invariant
            i <= history@.len(),
            hv == hist_view(history@),
            resolve_deleted(hv, bot_id, deleted_id) == resolve_deleted(
                hv.skip(i as int),
                bot_id,
                deleted_id,
            ),
        decreases history@.len() - i,
    {
        let ghost rest = hv.skip(i as int);
        proof {
            assert(rest[0] == hv[i as int]);
            assert(rest.drop_first() =~= hv.skip(i as int + 1));
        }
        let m = &history[i];
        if m.author_id == bot_id {
            if let Some(pair) = parse_link(m.content.as_str()) {
                if pair.1 == deleted_id {
                    return Some((pair.0, m.id));
                }
            }
        }
        proof {
            assert(!is_source_link(hv[i as int], bot_id, deleted_id));
        }
        i = i + 1;
    }
    proof {
        assert(hv.skip(i as int) =~= Seq::<HistoryModel>::empty());
    }
    None
}

/// Recording then resolving by anchor round-trips: if the most recent
/// message is the link record the bot just posted for `(dest_id, src_id)`
/// as a reply to the source message, resolving with the source message as
/// anchor returns the destination id.
pub proof fn lemma_record_then_resolve_anchor(
    hist: Seq<HistoryModel>,
    bot_id: u64,
    dest_id: u64,
    src_id: u64,
)
    requires
        hist.len() > 0,
        hist[0].author_id == bot_id,
        hist[0].referenced_message_id == Some(src_id),
        hist[0].content == link_repr(dest_id, src_id),
    ensures
        resolve_anchor(hist, bot_id, src_id) == Some(dest_id),
{
    lemma_link_round_trip(dest_id, src_id);
}

/// Recording then resolving by deleted source round-trips: if the most
/// recent message is the link record the bot just posted for
/// `(dest_id, src_id)`, resolving for the deleted source id returns the
/// destination id and the record's own id.
pub proof fn lemma_record_then_resolve_deleted(
    hist: Seq<HistoryModel>,
    bot_id: u64,
    dest_id: u64,
    src_id: u64,
)
    requires
        hist.len() > 0,
        hist[0].author_id == bot_id,
        hist[0].content == link_repr(dest_id, src_id),
    ensures
        resolve_deleted(hist, bot_id, src_id) == Some((dest_id, hist[0].id)),
{
    lemma_link_round_trip(dest_id, src_id);
}

} // verus!
