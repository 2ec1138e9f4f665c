use vstd::prelude::*;

use crate::catalog::{index_of, names_of, standard_tracks};
use crate::router::{
    command_of, join_followup, plan_of, Action, Command, Notice, Situation, Target, DISMISS, PING,
    PLAY_PREFIX, PLAY_TRIGGER, SUMMON,
};
use crate::text::{contains_seq, remove_all};

verus! {

/// A message whose lower-case form is none of the phrases and holds no play
/// trigger leads to no action at all: no reply and no voice work.
pub proof fn unmatched_message_is_silent(
    content: Seq<char>,
    lowered: Seq<char>,
    s: Situation,
    entries: Seq<(Seq<char>, Seq<char>)>,
)
    requires
        lowered != PING@,
        lowered != SUMMON@,
        lowered != DISMISS@,
        !contains_seq(lowered, PLAY_TRIGGER@),
    ensures
        plan_of(content, lowered, s, entries) == Seq::<Action>::empty(),
{
}

/// A message whose lower-case form is the ping phrase leads to exactly one
/// action, "Pong!" in the status channel, wherever the message came from.
pub proof fn ping_answers_in_log_channel(
    content: Seq<char>,
    s: Situation,
    entries: Seq<(Seq<char>, Seq<char>)>,
)
    ensures
        plan_of(content, PING@, s, entries) == seq![
            Action::Say { target: Target::LogChannel, notice: Notice::Pong },
        ],
{
}

/// A summons from an author in no voice channel only replies that they are in
/// none.
pub proof fn summon_without_voice_only_replies(
    content: Seq<char>,
    lowered: Seq<char>,
    s: Situation,
    entries: Seq<(Seq<char>, Seq<char>)>,
)
    requires
        command_of(content, lowered) == Command::Summon,
        s.guild is Some,
        s.author_voice is None,
    ensures
        plan_of(content, lowered, s, entries) == seq![
            Action::Say { target: Target::ReplyToAuthor, notice: Notice::NotInVoice },
        ],
{
}

/// A summons from an author in voice channel `v` asks once to join `v`; the
/// confirmation follows if and only if the join succeeded, and a failed join
/// is reported to the author in one reply.
pub proof fn summon_joins_author_channel_once(
    content: Seq<char>,
    lowered: Seq<char>,
    s: Situation,
    entries: Seq<(Seq<char>, Seq<char>)>,
    joined: bool,
)
    requires
        command_of(content, lowered) == Command::Summon,
        s.guild is Some,
        s.author_voice is Some,
    ensures
        plan_of(content, lowered, s, entries) == seq![
            Action::Join { guild: s.guild->0, channel: s.author_voice->0 },
        ],
        join_followup(s.guild->0, joined).contains(
            Action::Say { target: Target::LogChannel, notice: Notice::Connected },
        ) <==> joined,
        !joined ==> join_followup(s.guild->0, joined) == seq![
            Action::Say { target: Target::ReplyToAuthor, notice: Notice::JoinFailed },
        ],
{
    let confirm = Action::Say { target: Target::LogChannel, notice: Notice::Connected };
    if joined {
        assert(join_followup(s.guild->0, joined)[1] == confirm);
    } else {
        assert(join_followup(s.guild->0, joined)[0] != confirm);
    }
}

/// A request for a catalogued track, with a voice session, stops what plays,
/// plays that entry, and says so, in that order.
pub proof fn play_known_track_stops_then_plays(
    content: Seq<char>,
    lowered: Seq<char>,
    s: Situation,
    entries: Seq<(Seq<char>, Seq<char>)>,
)
    requires
        command_of(content, lowered) == Command::Play,
        s.guild is Some,
        s.has_session,
        index_of(names_of(entries), remove_all(content, PLAY_PREFIX@)) is Some,
    ensures
        ({
            let i = index_of(names_of(entries), remove_all(content, PLAY_PREFIX@))->0;
            plan_of(content, lowered, s, entries) == seq![
                Action::Stop { guild: s.guild->0 },
                Action::Play { guild: s.guild->0, track: i as usize },
                Action::Say { target: Target::SameChannel, notice: Notice::PlayingSong },
            ]
        }),
{
}

/// "бот вруби Летова", with a voice session, names the track "Летова", which the
/// standard catalog resolves to its first entry and that entry's file; the
/// session stops what plays, plays that file, and says so.
pub proof fn letov_request_plays_its_configured_file(
    lowered: Seq<char>,
    s: Situation,
)
    requires
        command_of("бот вруби Летова"@, lowered) == Command::Play,
        s.guild is Some,
        s.has_session,
    ensures
        remove_all("бот вруби Летова"@, PLAY_PREFIX@) == "Летова"@,
        index_of(names_of(standard_tracks()), "Летова"@) == Some(0int),
        standard_tracks()[0].1 == "D:/bot-rs/assets/letov1.mp3"@,
        plan_of("бот вруби Летова"@, lowered, s, standard_tracks()) == seq![
            Action::Stop { guild: s.guild->0 },
            Action::Play { guild: s.guild->0, track: 0 },
            Action::Say { target: Target::SameChannel, notice: Notice::PlayingSong },
        ],
{
    reveal_strlit("бот вруби Летова");
    reveal_strlit("бот вруби ");
    reveal_strlit("Летова");
    reveal_with_fuel(index_of, 4);
    let content = "бот вруби Летова"@;
    let prefix = PLAY_PREFIX@;
    assert(content.subrange(0, 10) =~= prefix);
    assert(content.subrange(10, 16) =~= "Летова"@);
    assert(remove_all("Летова"@, prefix) == "Летова"@);
    let names = names_of(standard_tracks());
    assert(names.drop_last().drop_last() =~= seq!["Летова"@]);
    assert(names.drop_last().drop_last().drop_last() =~= Seq::<Seq<char>>::empty());
}

/// A request for a track that the catalog lacks plays nothing and sends
/// exactly one "not found" notice.
pub proof fn play_unknown_track_only_replies(
    content: Seq<char>,
    lowered: Seq<char>,
    s: Situation,
    entries: Seq<(Seq<char>, Seq<char>)>,
)
    requires
        command_of(content, lowered) == Command::Play,
        s.guild is Some,
        index_of(names_of(entries), remove_all(content, PLAY_PREFIX@)) is None,
    ensures
        plan_of(content, lowered, s, entries) == seq![
            Action::Say { target: Target::SameChannel, notice: Notice::UnknownTrack },
        ],
        forall|k: int|
            0 <= k < plan_of(content, lowered, s, entries).len() ==> !(plan_of(
                content,
                lowered,
                s,
                entries,
            )[k] is Play),
{
}

/// A dismissal with no voice session ends nothing and only replies that the
/// bot is in no voice channel.
pub proof fn dismiss_without_session_only_replies(
    content: Seq<char>,
    lowered: Seq<char>,
    s: Situation,
    entries: Seq<(Seq<char>, Seq<char>)>,
)
    requires
        command_of(content, lowered) == Command::Dismiss,
        s.guild is Some,
        !s.has_session,
    ensures
        plan_of(content, lowered, s, entries) == seq![
            Action::Say { target: Target::ReplyToAuthor, notice: Notice::NotInVoice },
        ],
{
}

} // verus!
