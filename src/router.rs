use vstd::prelude::*;

use crate::catalog::{index_of, names_of, TrackCatalog};
use crate::text::{
    chars_of, contains_chars, contains_seq, lower_of, lowercase, remove_all, remove_all_chars,
    same_chars,
};

verus! {

/// Asks for a liveness reply; compared in lower case.
pub const PING: &'static str = "!ping";

/// Asks the bot to join the author's voice channel; compared in lower case.
pub const SUMMON: &'static str = "бот я призываю тебя";

/// Asks the bot to leave the voice channel; compared in lower case.
pub const DISMISS: &'static str = "бот ты свободен";

/// Asks for a track when it occurs anywhere in the lower-cased message.
pub const PLAY_TRIGGER: &'static str = "бот вруби";

/// Taken out of the message, as written, to leave the track's name.
pub const PLAY_PREFIX: &'static str = "бот вруби ";

/// What a message asks of the bot.
#[derive(PartialEq, Eq, Structural, Clone, Copy, Debug)]
pub enum Command {
    Ping,
    Summon,
    Dismiss,
    Play,
    Ignore,
}

/// The command in a message with text `content`, whose lower-case form is
/// `lowered`. The phrases are compared with `lowered`; the first rule that
/// fits wins. The text as written matters only to the track name, see `plan_of`.
pub open spec fn command_of(content: Seq<char>, lowered: Seq<char>) -> Command {
    if lowered == PING@ {
        Command::Ping
    } else if lowered == SUMMON@ {
        Command::Summon
    } else if lowered == DISMISS@ {
        Command::Dismiss
    } else if contains_seq(lowered, PLAY_TRIGGER@) {
        Command::Play
    } else {
        Command::Ignore
    }
}

/// Where a reply goes.
#[derive(PartialEq, Eq, Structural, Clone, Copy, Debug)]
pub enum Target {
    /// The fixed channel for status notes.
    LogChannel,
    /// The channel the message came from.
    SameChannel,
    /// A reply to the message itself.
    ReplyToAuthor,
}

/// A fixed text the bot sends.
#[derive(PartialEq, Eq, Structural, Clone, Copy, Debug)]
pub enum Notice {
    Pong,
    NotInVoice,
    Connected,
    JoinFailed,
    LeftVoice,
    LeaveFailed,
    UnknownTrack,
    PlayingSong,
    NoSessionToPlay,
}

/// The text of each notice. The one for a failed leave is followed by a
/// description of the failure.
pub open spec fn notice_text(n: Notice) -> Seq<char> {
    match n {
        Notice::Pong => "Pong!"@,
        Notice::NotInVoice => "Not in a voice channel"@,
        Notice::Connected => "Connected to VC"@,
        Notice::JoinFailed => "Could not join the voice channel"@,
        Notice::LeftVoice => "Left voice channel"@,
        Notice::LeaveFailed => "Failed: "@,
        Notice::UnknownTrack => "Не знаю я такого бля"@,
        Notice::PlayingSong => "Playing song"@,
        Notice::NoSessionToPlay => "Not in a voice channel to play in"@,
    }
}

impl Notice {
    /// The text that is sent for this notice.
    pub fn text(&self) -> (r: &'static str)
        ensures
            r@ == notice_text(*self),
    {
        match self {
            Notice::Pong => "Pong!",
            Notice::NotInVoice => "Not in a voice channel",
            Notice::Connected => "Connected to VC",
            Notice::JoinFailed => "Could not join the voice channel",
            Notice::LeftVoice => "Left voice channel",
            Notice::LeaveFailed => "Failed: ",
            Notice::UnknownTrack => "Не знаю я такого бля",
            Notice::PlayingSong => "Playing song",
            Notice::NoSessionToPlay => "Not in a voice channel to play in",
        }
    }
}

/// One thing for the platform client to do.
#[derive(PartialEq, Eq, Structural, Clone, Copy, Debug)]
pub enum Action {
    /// Send a notice.
    Say { target: Target, notice: Notice },
    /// Join voice channel `channel` of server `guild`.
    Join { guild: u64, channel: u64 },
    /// End the voice session of server `guild`.
    Leave { guild: u64 },
    /// Log the track errors of the voice session of server `guild`.
    WatchTrackErrors { guild: u64 },
    /// Stop what the voice session of server `guild` plays.
    Stop { guild: u64 },
    /// Play catalog entry `track` in the voice session of server `guild`.
    Play { guild: u64, track: usize },
}

/// What the platform client knows about a message besides its text.
#[derive(Clone, Copy, Debug)]
pub struct Situation {
    /// The server the message came from; none for a direct message.
    pub guild: Option<u64>,
    /// The voice channel that the author is in, if any.
    pub author_voice: Option<u64>,
    /// Whether the bot has a voice session in that server.
    pub has_session: bool,
}

/// The actions for a message with text `content`, lower-cased `lowered`, in
/// situation `s`, with a catalog of entries `entries`. A message that asks for
/// server work but came from no server gets none.
pub open spec fn plan_of(
    content: Seq<char>,
    lowered: Seq<char>,
    s: Situation,
    entries: Seq<(Seq<char>, Seq<char>)>,
) -> Seq<Action> {
    match command_of(content, lowered) {
        Command::Ping => seq![Action::Say { target: Target::LogChannel, notice: Notice::Pong }],
        Command::Summon => match s.guild {
            None => Seq::empty(),
            Some(g) => match s.author_voice {
                None => seq![
                    Action::Say { target: Target::ReplyToAuthor, notice: Notice::NotInVoice },
                ],
                Some(v) => seq![Action::Join { guild: g, channel: v }],
            },
        },
        Command::Dismiss => match s.guild {
            None => Seq::empty(),
            Some(g) => if s.has_session {
                seq![Action::Leave { guild: g }]
            } else {
                seq![Action::Say { target: Target::ReplyToAuthor, notice: Notice::NotInVoice }]
            },
        },
        Command::Play => match s.guild {
            None => Seq::empty(),
            Some(g) => match index_of(names_of(entries), remove_all(content, PLAY_PREFIX@)) {
                None => seq![
                    Action::Say { target: Target::SameChannel, notice: Notice::UnknownTrack },
                ],
                Some(i) => if s.has_session {
                    seq![
                        Action::Stop { guild: g },
                        Action::Play { guild: g, track: i as usize },
                        Action::Say { target: Target::SameChannel, notice: Notice::PlayingSong },
                    ]
                } else {
                    seq![
                        Action::Say {
                            target: Target::SameChannel,
                            notice: Notice::NoSessionToPlay,
                        },
                    ]
                },
            },
        },
        Command::Ignore => Seq::empty(),
    }
}

/// The actions once a join that `plan_of` asked for in server `guild` has
/// ended, with `joined` telling whether it succeeded. A failure is reported to
/// the author.
pub open spec fn join_followup(guild: u64, joined: bool) -> Seq<Action> {
    if joined {
        seq![
            Action::WatchTrackErrors { guild },
            Action::Say { target: Target::LogChannel, notice: Notice::Connected },
        ]
    } else {
        seq![Action::Say { target: Target::ReplyToAuthor, notice: Notice::JoinFailed }]
    }
}

/// The actions once a leave that `plan_of` asked for has ended, with `left`
/// telling whether it succeeded.
pub open spec fn leave_followup(left: bool) -> Seq<Action> {
    if left {
        seq![Action::Say { target: Target::SameChannel, notice: Notice::LeftVoice }]
    } else {
        seq![
            Action::Say { target: Target::SameChannel, notice: Notice::LeaveFailed },
            Action::Say { target: Target::SameChannel, notice: Notice::LeftVoice },
        ]
    }
}

/// The command in a message with text `content`, given its lower-case form
/// `lowered`.
pub fn classify_lowered(content: &str, lowered: &str) -> (r: Command)
    ensures
        r == command_of(content@, lowered@),
{
    let low = chars_of(lowered);
    if same_chars(&low, &chars_of(PING)) {
        Command::Ping
    } else if same_chars(&low, &chars_of(SUMMON)) {
        Command::Summon
    } else if same_chars(&low, &chars_of(DISMISS)) {
        Command::Dismiss
    } else if contains_chars(&low, &chars_of(PLAY_TRIGGER)) {
        Command::Play
    } else {
        Command::Ignore
    }
}

/// The command in a message with text `content`.
pub fn classify(content: &str) -> (r: Command)
    ensures
        r == command_of(content@, lower_of(content@)),
{
    let lowered = lowercase(content);
    classify_lowered(content, lowered.as_str())
}

/// The actions for a message with text `content`, given its lower-case form
/// `lowered`.
pub fn route_lowered(content: &str, lowered: &str, s: Situation, catalog: &TrackCatalog) -> (r:
    Vec<Action>)
    requires
        catalog.wf(),
    ensures
        r@ == plan_of(content@, lowered@, s, catalog@),
{
    let command = classify_lowered(content, lowered);
    match command {
        Command::Ping => vec![Action::Say { target: Target::LogChannel, notice: Notice::Pong }],
        Command::Summon => match s.guild {
            None => Vec::new(),
            Some(g) => match s.author_voice {
                None => vec![
                    Action::Say { target: Target::ReplyToAuthor, notice: Notice::NotInVoice },
                ],
                Some(v) => vec![Action::Join { guild: g, channel: v }],
            },
        },
        Command::Dismiss => match s.guild {
            None => Vec::new(),
            Some(g) => if s.has_session {
                vec![Action::Leave { guild: g }]
            } else {
                vec![Action::Say { target: Target::ReplyToAuthor, notice: Notice::NotInVoice }]
            },
        },
        Command::Play => match s.guild {
            None => Vec::new(),
            Some(g) => {
                let name = remove_all_chars(&chars_of(content), &chars_of(PLAY_PREFIX));
                match catalog.lookup_chars(&name) {
                    None => vec![
                        Action::Say { target: Target::SameChannel, notice: Notice::UnknownTrack },
                    ],
                    Some(i) => if s.has_session {
                        vec![
                            Action::Stop { guild: g },
                            Action::Play { guild: g, track: i },
                            Action::Say {
                                target: Target::SameChannel,
                                notice: Notice::PlayingSong,
                            },
                        ]
                    } else {
                        vec![
                            Action::Say {
                                target: Target::SameChannel,
                                notice: Notice::NoSessionToPlay,
                            },
                        ]
                    },
                }
            },
        },
        Command::Ignore => Vec::new(),
    }
}

/// The actions for a message with text `content` in situation `s`.
pub fn route(content: &str, s: Situation, catalog: &TrackCatalog) -> (r: Vec<Action>)
    requires
        catalog.wf(),
    ensures
        r@ == plan_of(content@, lower_of(content@), s, catalog@),
{
    let lowered = lowercase(content);
    route_lowered(content, lowered.as_str(), s, catalog)
}

/// The actions once a join in server `guild` has ended; `joined` tells whether
/// it succeeded. A failure is reported to the author.
pub fn after_join(guild: u64, joined: bool) -> (r: Vec<Action>)
    ensures
        r@ == join_followup(guild, joined),
{
    if joined {
        vec![
            Action::WatchTrackErrors { guild },
            Action::Say { target: Target::LogChannel, notice: Notice::Connected },
        ]
    } else {
        vec![Action::Say { target: Target::ReplyToAuthor, notice: Notice::JoinFailed }]
    }
}

/// The actions once a leave has ended; `left` tells whether it succeeded.
pub fn after_leave(left: bool) -> (r: Vec<Action>)
    ensures
        r@ == leave_followup(left),
{
    if left {
        vec![Action::Say { target: Target::SameChannel, notice: Notice::LeftVoice }]
    } else {
        vec![
            Action::Say { target: Target::SameChannel, notice: Notice::LeaveFailed },
            Action::Say { target: Target::SameChannel, notice: Notice::LeftVoice },
        ]
    }
}

} // verus!
