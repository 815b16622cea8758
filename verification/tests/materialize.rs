use relay_bot::attachments::collect_downloads;
use relay_bot::attachments::materialize;
use relay_bot::attachments::DownloadedAttachment;
use relay_bot::attachments::SourceAttachment;
use relay_bot::cloner::clone_message;
use relay_bot::cloner::MessageRef;
use relay_bot::cloner::SourceMessage;

fn attachment(url: &str, size: u32, data: Option<Vec<u8>>) -> SourceAttachment {
    SourceAttachment {
        url: url.to_string(),
        filename: format!("file-{size}"),
        size,
        data,
    }
}

fn message(content: &str, attachments: Vec<SourceAttachment>) -> SourceMessage {
    SourceMessage {
        id: 1,
        channel_id: 2,
        author_id: 3,
        content: content.to_string(),
        reference: None,
        attachments,
        stickers: vec![],
    }
}

const MB: u32 = 1_000_000;

#[test]
fn scenario_budget_cutoff() {
    // 10 MB, 50 MB, 50 MB under a 95 MB limit: the first two are kept as
    // bytes, the third falls back to exactly one URL line
    let atts = vec![
        attachment("https://cdn.example/a", 10 * MB, Some(vec![1])),
        attachment("https://cdn.example/b", 50 * MB, Some(vec![2])),
        attachment("https://cdn.example/c", 50 * MB, Some(vec![3])),
    ];
    let (suffix, kept) = materialize(&atts, 95 * MB);
    assert_eq!(kept.len(), 2);
    assert_eq!(kept[0].bytes, vec![1]);
    assert_eq!(kept[1].bytes, vec![2]);
    assert_eq!(suffix, "\nhttps://cdn.example/c");
    assert_eq!(suffix.matches("https://").count(), 1);
}

#[test]
fn empty_attachments_produce_nothing() {
    let (suffix, kept) = materialize(&vec![], 95 * MB);
    assert_eq!(suffix, "");
    assert!(kept.is_empty());
}

#[test]
fn oversized_attachment_always_falls_back() {
    // larger than the limit on its own: linked, never kept, and it does
    // not count against the budget
    let atts = vec![
        attachment("https://cdn.example/huge", 96 * MB, None),
        attachment("https://cdn.example/ok", 90 * MB, Some(vec![9])),
    ];
    let (suffix, kept) = materialize(&atts, 95 * MB);
    assert_eq!(suffix, "\nhttps://cdn.example/huge");
    assert_eq!(kept.len(), 1);
    assert_eq!(kept[0].bytes, vec![9]);
}

#[test]
fn failed_download_is_dropped_silently() {
    // a failed download is unavailable, not too big: no bytes and no URL
    let atts = vec![
        attachment("https://cdn.example/lost", 10 * MB, None),
        attachment("https://cdn.example/kept", 10 * MB, Some(vec![4])),
    ];
    let (suffix, kept) = materialize(&atts, 95 * MB);
    assert_eq!(suffix, "");
    assert_eq!(kept.len(), 1);
    assert_eq!(kept[0].bytes, vec![4]);
}

#[test]
fn running_total_is_order_sensitive() {
    // 50, 60, 30 under 95: the 60 MB download pushes the running total to
    // 110, so it and everything downloaded after it falls back, even the
    // 30 MB attachment that would still have fit on its own
    let atts = vec![
        attachment("https://cdn.example/a", 50 * MB, Some(vec![1])),
        attachment("https://cdn.example/b", 60 * MB, Some(vec![2])),
        attachment("https://cdn.example/c", 30 * MB, Some(vec![3])),
    ];
    let (suffix, kept) = materialize(&atts, 95 * MB);
    assert_eq!(kept.len(), 1);
    assert_eq!(kept[0].bytes, vec![1]);
    assert_eq!(suffix, "\nhttps://cdn.example/b\nhttps://cdn.example/c");
}

#[test]
fn fallback_lines_keep_source_order() {
    let atts = vec![
        attachment("https://cdn.example/first", 96 * MB, None),
        attachment("https://cdn.example/second", 97 * MB, None),
        attachment("https://cdn.example/third", 98 * MB, None),
    ];
    let (suffix, kept) = materialize(&atts, 95 * MB);
    assert!(kept.is_empty());
    assert_eq!(
        suffix,
        "\nhttps://cdn.example/first\nhttps://cdn.example/second\nhttps://cdn.example/third"
    );
}

#[test]
fn exact_budget_is_kept() {
    let atts = vec![
        attachment("https://cdn.example/a", 95 * MB, Some(vec![7])),
    ];
    let (suffix, kept) = materialize(&atts, 95 * MB);
    assert_eq!(suffix, "");
    assert_eq!(kept.len(), 1);
}

#[test]
fn clone_builds_augmented_content() {
    let msg = message(
        "hello",
        vec![
            attachment("https://cdn.example/a", 10 * MB, Some(vec![1])),
            attachment("https://cdn.example/big", 96 * MB, None),
        ],
    );
    let clone = clone_message(&msg, 95 * MB);
    assert!(clone.reference.is_none());
    assert_eq!(clone.content, "hello\nhttps://cdn.example/big");
    assert_eq!(clone.files.len(), 1);
    assert_eq!(clone.files[0].filename, "file-10000000");
    assert_eq!(clone.files[0].bytes, vec![1]);
    assert!(clone.stickers.is_empty());
}

#[test]
fn clone_copies_stickers_in_order() {
    let mut msg = message("", vec![]);
    msg.stickers = vec![11, 22, 33];
    let clone = clone_message(&msg, 95 * MB);
    assert_eq!(clone.stickers, vec![11, 22, 33]);
}

#[test]
fn reply_short_circuits_to_bare_reference() {
    // a reply is relayed as a reference alone, whatever else it carries
    let mut msg = message(
        "body text",
        vec![attachment("https://cdn.example/a", 10 * MB, Some(vec![1]))],
    );
    msg.stickers = vec![5];
    msg.reference = Some(MessageRef { channel_id: 42, message_id: 43 });
    let clone = clone_message(&msg, 95 * MB);
    assert_eq!(
        clone.reference,
        Some(MessageRef { channel_id: 42, message_id: 43 })
    );
    assert_eq!(clone.content, "");
    assert!(clone.files.is_empty());
    assert!(clone.stickers.is_empty());
}

#[test]
fn collect_downloads_keeps_successes_in_order() {
    let results = vec![
        Some(DownloadedAttachment { filename: "a".to_string(), bytes: vec![1] }),
        None,
        Some(DownloadedAttachment { filename: "b".to_string(), bytes: vec![2] }),
        None,
    ];
    let collected = collect_downloads(&results);
    assert_eq!(collected.len(), 2);
    assert_eq!(collected[0].filename, "a");
    assert_eq!(collected[1].filename, "b");
}
