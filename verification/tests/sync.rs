use relay_bot::channels::find_destination_channel;
use relay_bot::channels::ChannelInfo;
use relay_bot::config::get_config;
use relay_bot::dispatch::plan_delete_sync;
use relay_bot::dispatch::plan_edit_sync;
use relay_bot::dispatch::reaction_is_approval;
use relay_bot::dispatch::DeleteSync;
use relay_bot::dispatch::ReactionEvent;
use relay_bot::link::encode_link;
use relay_bot::presence::plan_activity;
use relay_bot::presence::ActivityTypeChoice;
use relay_bot::prune::member_is_prunable;
use relay_bot::prune::prune_decision;
use relay_bot::resolve::resolve_by_deleted_source;
use relay_bot::resolve::resolve_by_destination_anchor;
use relay_bot::resolve::HistoryMessage;
use relay_bot::cloner::SourceMessage;

const MONITORED: u64 = 100;
const BOT: u64 = 77;

fn reaction(channel_id: u64, user_id: u64, author_id: u64, emoji: &str) -> ReactionEvent {
    ReactionEvent {
        channel_id,
        message_id: 5,
        user_id: Some(user_id),
        message_author_id: Some(author_id),
        emoji: emoji.to_string(),
    }
}

fn history_message(id: u64, author_id: u64, content: String, reply_to: Option<u64>) -> HistoryMessage {
    HistoryMessage {
        id,
        author_id,
        content,
        referenced_message_id: reply_to,
    }
}

fn source_message(id: u64, content: &str) -> SourceMessage {
    SourceMessage {
        id,
        channel_id: MONITORED,
        author_id: 3,
        content: content.to_string(),
        reference: None,
        attachments: vec![],
        stickers: vec![],
    }
}

#[test]
fn reaction_by_other_user_is_ignored() {
    // user 2 reacting on user 1's message approves nothing
    let ev = reaction(MONITORED, 2, 1, "\u{2705}");
    assert!(!reaction_is_approval(&ev, MONITORED, &"\u{2705}".to_string()));
}

#[test]
fn reaction_by_author_with_right_emoji_approves() {
    let ev = reaction(MONITORED, 1, 1, "\u{2705}");
    assert!(reaction_is_approval(&ev, MONITORED, &"\u{2705}".to_string()));
}

#[test]
fn reaction_with_wrong_emoji_or_channel_is_ignored() {
    let wrong_emoji = reaction(MONITORED, 1, 1, "\u{274c}");
    assert!(!reaction_is_approval(&wrong_emoji, MONITORED, &"\u{2705}".to_string()));
    let wrong_channel = reaction(MONITORED + 1, 1, 1, "\u{2705}");
    assert!(!reaction_is_approval(&wrong_channel, MONITORED, &"\u{2705}".to_string()));
}

#[test]
fn scenario_approval_publishes_once_and_records_once() {
    // author approves their own message in the monitored channel: exactly
    // one publication is planned, and the single recorded link resolves in
    // both directions afterwards
    let ev = reaction(MONITORED, 3, 3, "\u{2705}");
    assert!(reaction_is_approval(&ev, MONITORED, &"\u{2705}".to_string()));

    let source = source_message(444, "the announcement");
    let clone = relay_bot::cloner::clone_message(&source, 95_000_000);
    assert_eq!(clone.content, "the announcement");

    // the platform assigned 555 to the published copy; the bot replies to
    // the source message with the link record
    let record = encode_link(555, 444);
    assert_eq!(record, "555:444");
    let history = vec![history_message(900, BOT, record, Some(444))];
    assert_eq!(resolve_by_destination_anchor(&history, BOT, 444), Some(555));
    assert_eq!(resolve_by_deleted_source(&history, BOT, 444), Some((555, 900)));
}

#[test]
fn record_then_resolve_by_anchor() {
    // the link record the bot just posted is the most recent message
    let history = vec![
        history_message(900, BOT, encode_link(555, 444), Some(444)),
        history_message(444, 3, "the approved message".to_string(), None),
    ];
    assert_eq!(resolve_by_destination_anchor(&history, BOT, 444), Some(555));
}

#[test]
fn record_then_resolve_by_deleted_source() {
    let history = vec![
        history_message(900, BOT, encode_link(555, 444), Some(444)),
        history_message(444, 3, "the approved message".to_string(), None),
    ];
    assert_eq!(resolve_by_deleted_source(&history, BOT, 444), Some((555, 900)));
}

#[test]
fn resolver_ignores_non_bot_authors_and_other_anchors() {
    let history = vec![
        history_message(901, 3, encode_link(555, 444), Some(444)),
        history_message(902, BOT, encode_link(555, 444), Some(999)),
        history_message(903, BOT, "not a link".to_string(), Some(444)),
    ];
    assert_eq!(resolve_by_destination_anchor(&history, BOT, 444), None);
    assert_eq!(resolve_by_deleted_source(&history, BOT, 123), None);
}

#[test]
fn edit_of_unapproved_message_is_a_no_op() {
    // no link record anywhere: the edit must not touch the destination
    let history = vec![
        history_message(444, 3, "chatter".to_string(), None),
    ];
    let fresh = source_message(444, "edited text");
    let plan = plan_edit_sync(MONITORED, MONITORED, &history, BOT, &fresh, 95_000_000);
    assert!(plan.is_none());
}

#[test]
fn edit_of_approved_message_rewrites_destination() {
    let history = vec![
        history_message(900, BOT, encode_link(555, 444), Some(444)),
    ];
    let fresh = source_message(444, "edited text");
    let plan = plan_edit_sync(MONITORED, MONITORED, &history, BOT, &fresh, 95_000_000)
        .expect("the link record must be found");
    assert_eq!(plan.destination_message_id, 555);
    assert_eq!(plan.content, "edited text");
    assert!(plan.files.is_empty());
}

#[test]
fn edit_in_another_channel_is_ignored() {
    let history = vec![
        history_message(900, BOT, encode_link(555, 444), Some(444)),
    ];
    let fresh = source_message(444, "edited text");
    let plan = plan_edit_sync(MONITORED + 1, MONITORED, &history, BOT, &fresh, 95_000_000);
    assert!(plan.is_none());
}

#[test]
fn edit_sync_twice_plans_identical_edits() {
    // unchanged source content, unchanged history: both passes plan the
    // same edit, and neither plans a new link record
    let history = vec![
        history_message(900, BOT, encode_link(555, 444), Some(444)),
    ];
    let fresh = source_message(444, "same text");
    let first = plan_edit_sync(MONITORED, MONITORED, &history, BOT, &fresh, 95_000_000).unwrap();
    let second = plan_edit_sync(MONITORED, MONITORED, &history, BOT, &fresh, 95_000_000).unwrap();
    assert_eq!(first.destination_message_id, second.destination_message_id);
    assert_eq!(first.content, second.content);
    assert_eq!(first.files.len(), second.files.len());
}

#[test]
fn delete_of_approved_message_deletes_destination_once() {
    let history = vec![
        history_message(900, BOT, encode_link(555, 444), Some(444)),
        history_message(445, 3, "unrelated".to_string(), None),
    ];
    let plan = plan_delete_sync(MONITORED, MONITORED, &history, BOT, 444);
    assert_eq!(
        plan,
        Some(DeleteSync { destination_message_id: 555, link_message_id: 900 })
    );
}

#[test]
fn delete_of_unapproved_message_is_a_no_op() {
    let history = vec![
        history_message(445, 3, "unrelated".to_string(), None),
    ];
    assert_eq!(plan_delete_sync(MONITORED, MONITORED, &history, BOT, 444), None);
    assert_eq!(plan_delete_sync(MONITORED + 1, MONITORED, &history, BOT, 444), None);
}

#[test]
fn finds_destination_channel_by_name_and_category() {
    let channels = vec![
        ChannelInfo { id: 1, name: "general".to_string(), parent_id: Some(10) },
        ChannelInfo { id: 2, name: "leaks".to_string(), parent_id: Some(99) },
        ChannelInfo { id: 3, name: "leaks".to_string(), parent_id: Some(10) },
    ];
    let found = find_destination_channel(&channels, &"leaks".to_string(), 10);
    assert_eq!(found, Some(3));
}

#[test]
fn missing_destination_channel_reports_none() {
    let channels = vec![
        ChannelInfo { id: 1, name: "general".to_string(), parent_id: Some(10) },
        ChannelInfo { id: 2, name: "leaks".to_string(), parent_id: None },
    ];
    assert_eq!(find_destination_channel(&channels, &"leaks".to_string(), 10), None);
}

#[test]
fn activity_plan_uses_name_for_plain_kinds() {
    let (text, url) = plan_activity(
        ActivityTypeChoice::Playing,
        "a game".to_string(),
        None,
        None,
    );
    assert_eq!(text, "a game");
    assert!(url.is_none());
}

#[test]
fn activity_plan_streaming_defaults_url() {
    let (text, url) = plan_activity(
        ActivityTypeChoice::Streaming,
        "a stream".to_string(),
        None,
        Some("https://stream.example".to_string()),
    );
    assert_eq!(text, "a stream");
    assert_eq!(url, Some("https://stream.example".to_string()));
    let (_, empty_url) = plan_activity(
        ActivityTypeChoice::Streaming,
        "a stream".to_string(),
        None,
        None,
    );
    assert_eq!(empty_url, Some(String::new()));
}

#[test]
fn activity_plan_custom_uses_state() {
    let (text, url) = plan_activity(
        ActivityTypeChoice::Custom,
        "ignored".to_string(),
        Some("the state".to_string()),
        None,
    );
    assert_eq!(text, "the state");
    assert!(url.is_none());
    let (fallback, _) = plan_activity(
        ActivityTypeChoice::Custom,
        "ignored".to_string(),
        None,
        None,
    );
    assert_eq!(fallback, "");
}

#[test]
fn member_past_grace_period_is_pruned() {
    // joined at epoch, three days and one second later
    assert!(member_is_prunable(&vec![42], 42, Some(0), 3 * 86400 + 1));
}

#[test]
fn member_within_grace_period_is_kept() {
    // the grace deadline lies in the future: the calendar arithmetic must
    // actually move the join time forward by three days
    assert!(!member_is_prunable(&vec![42], 42, Some(0), 100_000));
}

#[test]
fn member_with_other_roles_is_kept() {
    assert!(!member_is_prunable(&vec![42, 43], 42, Some(0), 3 * 86400 + 1));
    assert!(!member_is_prunable(&vec![], 42, Some(0), 3 * 86400 + 1));
    assert!(!member_is_prunable(&vec![43], 42, Some(0), 3 * 86400 + 1));
}

#[test]
fn member_without_join_time_is_kept() {
    assert!(!member_is_prunable(&vec![42], 42, None, i64::MAX));
}

#[test]
fn prune_decision_is_exact() {
    assert!(prune_decision(&vec![42], 42, Some(10), 11));
    assert!(!prune_decision(&vec![42], 42, Some(11), 11));
    assert!(!prune_decision(&vec![42], 42, None, 11));
    assert!(!prune_decision(&vec![41], 42, Some(10), 11));
}

#[test]
fn default_config_values() {
    let config = get_config();
    assert_eq!(config.discord_token, "");
    assert_eq!(config.sent_channel_name, "leaks");
    assert_eq!(config.main_posting_channel_id, 1456366697865941054);
    assert_eq!(config.public_category_id, 1456067853374586970);
    assert_eq!(config.guild_id, 1451378473858895884);
    assert_eq!(config.file_upload_limit, 95_000_000);
    assert_eq!(config.prune_role, 0);
}
