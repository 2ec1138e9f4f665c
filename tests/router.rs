use voice_bot::catalog::TrackCatalog;
use voice_bot::router::{
    after_join, after_leave, classify, classify_lowered, route, route_lowered, Action, Command,
    Notice, Situation, Target,
};

fn tracks() -> TrackCatalog {
    TrackCatalog::standard()
}

fn in_server(author_voice: Option<u64>, has_session: bool) -> Situation {
    Situation { guild: Some(7), author_voice, has_session }
}

#[test]
fn unmatched_messages_do_nothing() {
    let catalog = tracks();
    for text in ["hello", "", "бот", "ping", "!pingg", "бот я призываю", "вруби Летова"] {
        assert!(route(text, in_server(Some(3), true), &catalog).is_empty(), "{}", text);
    }
    assert_eq!(classify("hello"), Command::Ignore);
}

#[test]
fn ping_replies_pong_in_log_channel() {
    let catalog = tracks();
    let expected = vec![Action::Say { target: Target::LogChannel, notice: Notice::Pong }];
    assert_eq!(route("!ping", in_server(None, false), &catalog), expected);
    let direct = Situation { guild: None, author_voice: None, has_session: false };
    assert_eq!(route("!ping", direct, &catalog), expected);
    assert_eq!(Notice::Pong.text(), "Pong!");
}

#[test]
fn ping_is_matched_in_lower_case() {
    assert_eq!(classify("!PING"), Command::Ping);
    let catalog = tracks();
    let direct = Situation { guild: None, author_voice: None, has_session: false };
    assert_eq!(
        route("!PiNg", direct, &catalog),
        vec![Action::Say { target: Target::LogChannel, notice: Notice::Pong }]
    );
}

#[test]
fn summon_without_voice_replies_not_in_voice() {
    let catalog = tracks();
    let r = route("бот я призываю тебя", in_server(None, false), &catalog);
    assert_eq!(
        r,
        vec![Action::Say { target: Target::ReplyToAuthor, notice: Notice::NotInVoice }]
    );
    assert_eq!(Notice::NotInVoice.text(), "Not in a voice channel");
}

#[test]
fn summon_joins_author_channel() {
    let catalog = tracks();
    let r = route("Бот Я Призываю Тебя", in_server(Some(42), false), &catalog);
    assert_eq!(r, vec![Action::Join { guild: 7, channel: 42 }]);
    assert_eq!(
        after_join(7, true),
        vec![
            Action::WatchTrackErrors { guild: 7 },
            Action::Say { target: Target::LogChannel, notice: Notice::Connected },
        ]
    );
    assert_eq!(
        after_join(7, false),
        vec![Action::Say { target: Target::ReplyToAuthor, notice: Notice::JoinFailed }]
    );
    assert_eq!(Notice::JoinFailed.text(), "Could not join the voice channel");
    assert_eq!(Notice::Connected.text(), "Connected to VC");
}

#[test]
fn summon_from_direct_message_does_nothing() {
    let catalog = tracks();
    let direct = Situation { guild: None, author_voice: Some(1), has_session: true };
    assert!(route("бот я призываю тебя", direct, &catalog).is_empty());
}

#[test]
fn standard_catalog_holds_three_tracks() {
    let catalog = tracks();
    assert_eq!(catalog.len(), 3);
    assert_eq!(catalog.name(0), "Летова");
    assert_eq!(catalog.name(1), "генгаозо");
    assert_eq!(catalog.path(1), "D:/bot-rs/assets/G e n g a o z o -Noize of Nocent-.mp3");
    assert_eq!(catalog.name(2), "че-нить пушистое");
    assert_eq!(catalog.lookup("Цоя"), None);
}

#[test]
fn play_known_track_with_session() {
    let catalog = tracks();
    assert_eq!(catalog.lookup("Летова"), Some(0));
    assert_eq!(catalog.path(0), "D:/bot-rs/assets/letov1.mp3");
    let r = route("бот вруби Летова", in_server(None, true), &catalog);
    assert_eq!(
        r,
        vec![
            Action::Stop { guild: 7 },
            Action::Play { guild: 7, track: 0 },
            Action::Say { target: Target::SameChannel, notice: Notice::PlayingSong },
        ]
    );
}

#[test]
fn play_other_tracks() {
    let catalog = tracks();
    let r = route("бот вруби че-нить пушистое", in_server(None, true), &catalog);
    assert_eq!(r[1], Action::Play { guild: 7, track: 2 });
    assert_eq!(catalog.path(2), "D:/bot-rs/assets/fluff.mp3");
    let r = route("бот вруби генгаозо", in_server(None, true), &catalog);
    assert_eq!(r[1], Action::Play { guild: 7, track: 1 });
}

#[test]
fn play_known_track_without_session() {
    let catalog = tracks();
    let r = route("бот вруби Летова", in_server(None, false), &catalog);
    assert_eq!(
        r,
        vec![Action::Say { target: Target::SameChannel, notice: Notice::NoSessionToPlay }]
    );
    assert_eq!(Notice::NoSessionToPlay.text(), "Not in a voice channel to play in");
}

#[test]
fn play_unknown_track_replies_not_found() {
    let catalog = tracks();
    let r = route("бот вруби Цоя", in_server(None, true), &catalog);
    assert_eq!(
        r,
        vec![Action::Say { target: Target::SameChannel, notice: Notice::UnknownTrack }]
    );
    assert_eq!(Notice::UnknownTrack.text(), "Не знаю я такого бля");
}

#[test]
fn play_prefix_is_removed_as_written() {
    let catalog = tracks();
    // The trigger is found in lower case, but the prefix is taken out of the text
    // as written, so a capital letter leaves the name unrecognised.
    let r = route("Бот вруби Летова", in_server(None, true), &catalog);
    assert_eq!(
        r,
        vec![Action::Say { target: Target::SameChannel, notice: Notice::UnknownTrack }]
    );
    // Every occurrence of the prefix is taken out.
    let r = route("бот вруби Летобот вруби ва", in_server(None, true), &catalog);
    assert_eq!(r[1], Action::Play { guild: 7, track: 0 });
}

#[test]
fn dismiss_without_session_replies_not_in_voice() {
    let catalog = tracks();
    let r = route("бот ты свободен", in_server(Some(1), false), &catalog);
    assert_eq!(
        r,
        vec![Action::Say { target: Target::ReplyToAuthor, notice: Notice::NotInVoice }]
    );
}

#[test]
fn dismiss_with_session_leaves() {
    let catalog = tracks();
    let r = route("БОТ ТЫ СВОБОДЕН", in_server(None, true), &catalog);
    assert_eq!(r, vec![Action::Leave { guild: 7 }]);
    assert_eq!(
        after_leave(true),
        vec![Action::Say { target: Target::SameChannel, notice: Notice::LeftVoice }]
    );
    assert_eq!(
        after_leave(false),
        vec![
            Action::Say { target: Target::SameChannel, notice: Notice::LeaveFailed },
            Action::Say { target: Target::SameChannel, notice: Notice::LeftVoice },
        ]
    );
    assert_eq!(Notice::LeftVoice.text(), "Left voice channel");
    assert_eq!(Notice::LeaveFailed.text(), "Failed: ");
}

#[test]
fn classification_uses_lower_case_form() {
    assert_eq!(classify("БОТ Я ПРИЗЫВАЮ ТЕБЯ"), Command::Summon);
    assert_eq!(classify("эй, БОТ ВРУБИ что-нибудь"), Command::Play);
    assert_eq!(classify_lowered("X", "бот ты свободен"), Command::Dismiss);
    assert_eq!(classify_lowered("!ping", "бот ты свободен"), Command::Dismiss);
    assert_eq!(classify_lowered("X", "!ping"), Command::Ping);
}

#[test]
fn route_lowered_takes_given_lower_case() {
    let catalog = tracks();
    let r = route_lowered("anything", "бот ты свободен", in_server(None, true), &catalog);
    assert_eq!(r, vec![Action::Leave { guild: 7 }]);
}
