//! The attachment budget policy.
//!
//! A relayed message may re-upload attachments only up to a byte budget.
//! Attachments are considered in source order, with a running total of the
//! bytes downloaded so far: one that is larger than the budget on its own
//! falls back to its URL at once; one whose download failed is dropped
//! silently; one that was downloaded is re-uploaded if the running total
//! still fits, and falls back to its URL from the moment the total exceeds
//! the budget. The order is part of the policy: reordering the attachments
//! changes which are re-uploaded.

use vstd::prelude::*;
use vstd::string::StringExecFns;

verus! {

/// A source attachment as the policy sees it: its URL, its declared byte
/// size, and the outcome of the download the caller attempted for it
/// (`None` when the download failed or was never attempted because the
/// attachment exceeds the budget on its own).
pub struct SourceAttachment {
    pub url: String,
    pub filename: String,
    pub size: u32,
    pub data: Option<Vec<u8>>,
}

/// An attachment chosen for re-upload: the bytes to send under a filename.
pub struct DownloadedAttachment {
    pub filename: String,
    pub bytes: Vec<u8>,
}

/// Mathematical image of a source attachment.
pub struct AttachmentModel {
    pub url: Seq<char>,
    pub filename: Seq<char>,
    pub size: u32,
    pub data: Option<Seq<u8>>,
}

/// Mathematical image of a re-uploaded attachment.
pub struct FileModel {
    pub filename: Seq<char>,
    pub bytes: Seq<u8>,
}

impl View for SourceAttachment {
    type V = AttachmentModel;

    open spec fn view(&self) -> AttachmentModel {
        AttachmentModel {
            url: self.url@,
            filename: self.filename@,
            size: self.size,
            data: match self.data {
                Some(v) => Some(v@),
                None => None,
            },
        }
    }
}

impl View for DownloadedAttachment {
    type V = FileModel;

    open spec fn view(&self) -> FileModel {
        FileModel { filename: self.filename@, bytes: self.bytes@ }
    }
}

/// The images of a sequence of source attachments.
pub open spec fn atts_view(v: Seq<SourceAttachment>) -> Seq<AttachmentModel> {
    v.map_values(|a: SourceAttachment| a@)
}

/// The images of a sequence of re-uploaded attachments.
pub open spec fn files_view(v: Seq<DownloadedAttachment>) -> Seq<FileModel> {
    v.map_values(|d: DownloadedAttachment| d@)
}

/// How many bytes attachment `a` adds to the running total: its size if it
/// was downloaded (only attachments within the budget are), nothing
/// otherwise.
pub open spec fn att_spend(a: AttachmentModel, limit: u32) -> nat {
    if a.size <= limit && a.data is Some {
        a.size as nat
    } else {
        0
    }
}

/// The running total of downloaded bytes over the first `k` attachments.
pub open spec fn used_bytes(atts: Seq<AttachmentModel>, limit: u32, k: int) -> nat
    decreases k,
{
    if k <= 0 {
        0
    } else {
        used_bytes(atts, limit, k - 1) + att_spend(atts[k - 1], limit)
    }
}

/// Attachment `i` is re-uploaded: it fits the budget on its own, its
/// download succeeded, and the running total through it still fits.
pub open spec fn att_kept(atts: Seq<AttachmentModel>, limit: u32, i: int) -> bool {
    &&& atts[i].size <= limit
    &&& atts[i].data is Some
    &&& used_bytes(atts, limit, i + 1) <= limit
}

/// Attachment `i` falls back to a URL line: it exceeds the budget on its
/// own, or it was downloaded but the running total through it no longer
/// fits. (A failed download is neither kept nor linked.)
pub open spec fn att_fallback(atts: Seq<AttachmentModel>, limit: u32, i: int) -> bool {
    ||| atts[i].size > limit
    ||| (atts[i].data is Some && used_bytes(atts, limit, i + 1) > limit)
}

/// The re-upload built from attachment `a`.
pub open spec fn kept_file(a: AttachmentModel) -> FileModel {
    FileModel { filename: a.filename, bytes: a.data->0 }
}

/// The re-uploads among the first `k` attachments, in source order.
pub open spec fn kept_upto(atts: Seq<AttachmentModel>, limit: u32, k: int) -> Seq<FileModel>
    decreases k,
{
    if k <= 0 {
        Seq::empty()
    } else {
        kept_upto(atts, limit, k - 1) + if att_kept(atts, limit, k - 1) {
            seq![kept_file(atts[k - 1])]
        } else {
            Seq::empty()
        }
    }
}

/// The URL fallback lines for the first `k` attachments, in source order:
/// one newline-prefixed URL per fallback attachment.
pub open spec fn fallback_suffix_upto(atts: Seq<AttachmentModel>, limit: u32, k: int) -> Seq<char>
    decreases k,
{
    if k <= 0 {
        Seq::empty()
    } else {
        fallback_suffix_upto(atts, limit, k - 1) + if att_fallback(atts, limit, k - 1) {
            seq!['\n'] + atts[k - 1].url
        } else {
            Seq::empty()
        }
    }
}

/// All re-uploads of an attachment sequence.
pub open spec fn kept_files(atts: Seq<AttachmentModel>, limit: u32) -> Seq<FileModel> {
    kept_upto(atts, limit, atts.len() as int)
}

/// The whole URL fallback suffix of an attachment sequence.
pub open spec fn fallback_suffix(atts: Seq<AttachmentModel>, limit: u32) -> Seq<char> {
    fallback_suffix_upto(atts, limit, atts.len() as int)
}

/// A verified copy of a byte vector.
fn copy_bytes(v: &Vec<u8>) -> (r: Vec<u8>)
    ensures
        r@ == v@,
{
    let mut r: Vec<u8> = Vec::new();
    let mut i: usize = 0;
    while i < v.len()
        invariant
            i <= v@.len(),
            r@ =~= v@.take(i as int),
        decreases v@.len() - i,
    {
        r.push(v[i]);
        i = i + 1;
        proof {
            assert(r@ =~= v@.take(i as int));
        }
    }
    proof {
        assert(r@ =~= v@);
    }
    r
}

/// Decide, in source order and under the byte budget, which attachments are
/// re-uploaded and which fall back to URL lines.
pub fn materialize(attachments: &Vec<SourceAttachment>, limit: u32) -> (r: (
    String,
    Vec<DownloadedAttachment>,
))
    ensures
        r.0@ == fallback_suffix(atts_view(attachments@), limit),
        files_view(r.1@) == kept_files(atts_view(attachments@), limit),
{
    let ghost am = atts_view(attachments@);
    let mut suffix = String::new();
    let mut files: Vec<DownloadedAttachment> = Vec::new();
    let mut used: u64 = 0;
    let mut i: usize = 0;
    while i < attachments.len()
        invariant
            i <= attachments@.len(),
            am == atts_view(attachments@),
            used == if used_bytes(am, limit, i as int) > limit as nat {
                limit as nat + 1
            } else {
                used_bytes(am, limit, i as int)
            },
            suffix@ == fallback_suffix_upto(am, limit, i as int),
            files_view(files@) == kept_upto(am, limit, i as int),
        decreases attachments@.len() - i,
    {
        let ghost i0 = i as int;
        let a = &attachments[i];
        proof {
            assert(am[i0] == attachments@[i0]@);
        }
        if a.size <= limit {
            match &a.data {
                Some(bytes) => {
                    let mut new_used: u64 = used + a.size as u64;
                    if new_used > limit as u64 {
                        new_used = limit as u64 + 1;
                    }
                    used = new_used;
                    proof {
                        assert(att_spend(am[i0], limit) == am[i0].size as nat);
                        assert(used_bytes(am, limit, i0 + 1) == used_bytes(am, limit, i0)
                            + att_spend(am[i0], limit));
                    }
                    if used > limit as u64 {
                        suffix.append("\n");
                        suffix.append(a.url.as_str());
                        proof {
                            reveal_strlit("\n");
                            assert(att_fallback(am, limit, i0));
                            assert(!att_kept(am, limit, i0));
                            assert(suffix@ =~= fallback_suffix_upto(am, limit, i0 + 1));
                            assert(files_view(files@) =~= kept_upto(am, limit, i0 + 1));
                        }
                    } else {
                        let kept = DownloadedAttachment {
                            filename: a.filename.clone(),
                            bytes: copy_bytes(bytes),
                        };
                        files.push(kept);
                        proof {
                            assert(att_kept(am, limit, i0));
                            assert(!att_fallback(am, limit, i0));
                            assert(files@.last()@ == kept_file(am[i0]));
                            assert(files_view(files@) =~= kept_upto(am, limit, i0 + 1));
                            assert(suffix@ =~= fallback_suffix_upto(am, limit, i0 + 1));
                        }
                    }
                },
                None => {
                    proof {
                        assert(att_spend(am[i0], limit) == 0);
                        assert(!att_kept(am, limit, i0));
                        assert(!att_fallback(am, limit, i0));
                        assert(suffix@ =~= fallback_suffix_upto(am, limit, i0 + 1));
                        assert(files_view(files@) =~= kept_upto(am, limit, i0 + 1));
                    }
                },
            }
        } else {
            suffix.append("\n");
            suffix.append(a.url.as_str());
            proof {
                reveal_strlit("\n");
                assert(att_spend(am[i0], limit) == 0);
                assert(att_fallback(am, limit, i0));
                assert(!att_kept(am, limit, i0));
                assert(suffix@ =~= fallback_suffix_upto(am, limit, i0 + 1));
                assert(files_view(files@) =~= kept_upto(am, limit, i0 + 1));
            }
        }
        i = i + 1;
    }
    (suffix, files)
}

/// The successful outcomes among the first `k` optional downloads, in
/// order.
pub open spec fn successful_upto(results: Seq<Option<DownloadedAttachment>>, k: int) -> Seq<
    FileModel,
>
    decreases k,
{
    if k <= 0 {
        Seq::empty()
    } else {
        successful_upto(results, k - 1) + match results[k - 1] {
            Some(d) => seq![d@],
            None => Seq::empty(),
        }
    }
}

/// Keep the downloads that succeeded, in their original order. Used by the
/// administrative send command, whose optional attachments may each have
/// failed to download.
pub fn collect_downloads(results: &Vec<Option<DownloadedAttachment>>) -> (r: Vec<
    DownloadedAttachment,
>)
    ensures
        files_view(r@) == successful_upto(results@, results@.len() as int),
{
    let ghost rs = results@;
    let mut r: Vec<DownloadedAttachment> = Vec::new();
    let mut i: usize = 0;
    while i < results.len()
        invariant
            i <= rs.len(),
            rs == results@,
            files_view(r@) == successful_upto(rs, i as int),
        decreases rs.len() - i,
    {
        match &results[i] {
            Some(d) => {
                let copy = DownloadedAttachment {
                    filename: d.filename.clone(),
                    bytes: copy_bytes(&d.bytes),
                };
                proof {
                    assert(copy@ == d@);
                }
                r.push(copy);
            },
            None => {},
        }
        i = i + 1;
        proof {
            assert(files_view(r@) =~= successful_upto(rs, i as int));
        }
    }
    r
}

/// The total size of the re-uploads among the first `k` attachments.
pub open spec fn kept_total(atts: Seq<AttachmentModel>, limit: u32, k: int) -> nat
    decreases k,
{
    if k <= 0 {
        0
    } else {
        kept_total(atts, limit, k - 1) + if att_kept(atts, limit, k - 1) {
            atts[k - 1].size as nat
        } else {
            0
        }
    }
}

proof fn lemma_kept_total_bound(atts: Seq<AttachmentModel>, limit: u32, k: int)
    ensures
        kept_total(atts, limit, k) <= limit,
        kept_total(atts, limit, k) <= used_bytes(atts, limit, k),
    decreases k,
{
    if k > 0 {
        lemma_kept_total_bound(atts, limit, k - 1);
    }
}

/// The budget is respected: the re-uploaded sizes sum to at most the limit,
/// and an attachment larger than the limit on its own is never re-uploaded
/// but always linked.
pub proof fn lemma_kept_within_budget(atts: Seq<AttachmentModel>, limit: u32)
    ensures
        kept_total(atts, limit, atts.len() as int) <= limit,
        forall|i: int|
            0 <= i < atts.len() && atts[i].size > limit ==> !att_kept(atts, limit, i)
                && att_fallback(atts, limit, i),
{
    lemma_kept_total_bound(atts, limit, atts.len() as int);
}

/// The total number of bytes carried by a sequence of re-uploads.
pub open spec fn bytes_total(files: Seq<FileModel>) -> nat
    decreases files.len(),
{
    if files.len() == 0 {
        0
    } else {
        bytes_total(files.drop_last()) + files.last().bytes.len()
    }
}

proof fn lemma_kept_bytes_eq_sizes(atts: Seq<AttachmentModel>, limit: u32, k: int)
    requires
        forall|i: int|
            0 <= i < atts.len() && #[trigger] atts[i].data is Some ==> atts[i].data->0.len()
                == atts[i].size,
        k <= atts.len(),
    ensures
        bytes_total(kept_upto(atts, limit, k)) == kept_total(atts, limit, k),
    decreases k,
{
    if k > 0 {
        lemma_kept_bytes_eq_sizes(atts, limit, k - 1);
        if att_kept(atts, limit, k - 1) {
            let files = kept_upto(atts, limit, k);
            assert(files.drop_last() =~= kept_upto(atts, limit, k - 1));
            assert(files.last() == kept_file(atts[k - 1]));
        } else {
            assert(kept_upto(atts, limit, k) =~= kept_upto(atts, limit, k - 1));
        }
    }
}

/// When every download delivers exactly its declared size, the bytes of the
/// re-uploaded attachments sum to at most the limit.
pub proof fn lemma_kept_bytes_within_budget(atts: Seq<AttachmentModel>, limit: u32)
    requires
        forall|i: int|
            0 <= i < atts.len() && #[trigger] atts[i].data is Some ==> atts[i].data->0.len()
                == atts[i].size,
    ensures
        bytes_total(kept_files(atts, limit)) <= limit,
{
    lemma_kept_total_bound(atts, limit, atts.len() as int);
    lemma_kept_bytes_eq_sizes(atts, limit, atts.len() as int);
}

} // verus!
