//! Choices for the bot's presence, and the text each choice displays.
//!
//! Setting the presence is a platform call; what is decided here is which
//! text (and, for streaming, which URL) the chosen activity carries,
//! including the fallbacks to an empty string when an optional field was
//! not given.

use crate::util::opt_str_view;
use vstd::prelude::*;

verus! {

/// The online status the bot can be switched to.
#[derive(Clone, Copy, Debug, PartialEq, Eq, Structural)]
pub enum OnlineStatusChoice {
    Online,
    Idle,
    DoNotDisturb,
    Invisible,
    Offline,
}

/// The kind of activity shown in the bot's rich presence.
#[derive(Clone, Copy, Debug, PartialEq, Eq, Structural)]
pub enum ActivityTypeChoice {
    Playing,
    Streaming,
    Listening,
    Watching,
    Custom,
    Competing,
}

/// The text and URL an activity displays: the name for most kinds, the
/// state (or empty) for a custom status, and for streaming additionally
/// the URL (or empty).
pub open spec fn activity_model(
    kind: ActivityTypeChoice,
    name: Seq<char>,
    state: Option<Seq<char>>,
    url: Option<Seq<char>>,
) -> (Seq<char>, Option<Seq<char>>) {
    match kind {
        ActivityTypeChoice::Streaming => (
            name,
            Some(
                match url {
                    Some(u) => u,
                    None => Seq::empty(),
                },
            ),
        ),
        ActivityTypeChoice::Custom => (
            match state {
                Some(s) => s,
                None => Seq::empty(),
            },
            None,
        ),
        _ => (name, None),
    }
}

/// Pick the text and URL for the requested activity.
pub fn plan_activity(
    kind: ActivityTypeChoice,
    name: String,
    state: Option<String>,
    url: Option<String>,
) -> (r: (String, Option<String>))
    ensures
        (r.0@, opt_str_view(r.1)) == activity_model(kind, name@, opt_str_view(state), opt_str_view(
            url,
        )),
{
    match kind {
        ActivityTypeChoice::Streaming => {
            let u = match url {
                Some(u) => u,
                None => String::new(),
            };
            (name, Some(u))
        },
        ActivityTypeChoice::Custom => {
            let s = match state {
                Some(s) => s,
                None => String::new(),
            };
            (s, None)
        },
        _ => (name, None),
    }
}

} // verus!
