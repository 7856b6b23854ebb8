use jester_voice::ciphers::{decoded_description, decoded_message, encoded_message, CipherError};
use jester_voice::config::{BotId, Credentials, PrefixMap, PubCreds};
use jester_voice::display::{now_playing_line, upcoming_listing};
use jester_voice::error::MusicError;
use jester_voice::groups::{CommandNameMap, Japan, Master, Music, Voice};
use jester_voice::player::GuildPlayer;
use jester_voice::reactions::{
    eq_ignore_ascii_case, extract_recipient, pick_gif, reaction_message, reaction_search,
    GifResult, Reaction, ReactionImageCache, Recipient,
};
use jester_voice::resolve::{classify, first_result, spotify_query, Query, SpotifyTrack};
use jester_voice::text::decimal_text;
use jester_voice::track::Track;
use jester_voice::voice::JoinStep;

fn track(title: &str, length_ms: u64) -> Track {
    Track {
        title: title.to_string(),
        uri: format!("https://example.com/{}", title),
        source: "youtube".to_string(),
        length_ms,
        author: "someone".to_string(),
    }
}

#[test]
fn track_length_is_shown_as_clock_time() {
    assert_eq!(track("a", 185_000).length_text(), "00:03:05");
    assert_eq!(track("a", 0).length_text(), "00:00:00");
    assert_eq!(track("a", 3_723_000).length_text(), "01:02:03");
    assert_eq!(track("a", 86_400_000 + 61_000).length_text(), "00:01:01");
}

#[test]
fn decimal_text_has_no_leading_zeros() {
    assert_eq!(decimal_text(0), "0");
    assert_eq!(decimal_text(7), "7");
    assert_eq!(decimal_text(120), "120");
    assert_eq!(decimal_text(u64::MAX), "18446744073709551615");
}

#[test]
fn now_playing_line_links_the_track() {
    assert_eq!(
        now_playing_line(&track("song", 61_000)),
        "[song](https://example.com/song) | `00:01:01`"
    );
}

#[test]
fn upcoming_list_is_numbered_from_one() {
    let list = upcoming_listing(&vec![track("b", 1_000), track("c", 2_000)]);
    assert_eq!(
        list,
        "1. [b](https://example.com/b) | `00:00:01` \n\n2. [c](https://example.com/c) | `00:00:02` \n\n"
    );
    assert_eq!(upcoming_listing(&vec![]), "");
}

#[test]
fn queue_text_shows_current_then_upcoming() {
    let mut g = GuildPlayer::new();
    assert!(g.queue_text().is_none());
    g.finish_join(1, JoinStep::Connected);
    assert!(g.queue_text().is_none());
    g.enqueue(track("a", 1_000)).unwrap();
    let q = g.queue_text().unwrap();
    assert_eq!(q.now_playing.unwrap(), "[a](https://example.com/a) | `00:00:01`");
    assert!(q.next_songs.is_none());
    g.enqueue(track("b", 2_000)).unwrap();
    let q = g.queue_text().unwrap();
    assert_eq!(q.next_songs.unwrap(), "1. [b](https://example.com/b) | `00:00:02` \n\n");
}

#[test]
fn classify_reads_share_links_urls_and_text() {
    match classify("https://open.spotify.com/track/4uLU6hMCjMI75M1A2tKUQC") {
        Query::Spotify(id) => assert_eq!(id, "4uLU6hMCjMI75M1A2tKUQC"),
        other => panic!("unexpected {:?}", other),
    }
    match classify("listen: https://open.spotify.com/track/") {
        Query::Spotify(id) => assert_eq!(id, ""),
        other => panic!("unexpected {:?}", other),
    }
    match classify("https://www.youtube.com/watch?v=dQw4w9WgXcQ") {
        Query::Direct(u) => assert_eq!(u, "https://www.youtube.com/watch?v=dQw4w9WgXcQ"),
        other => panic!("unexpected {:?}", other),
    }
    match classify("http://example.com/a.mp3") {
        Query::Direct(u) => assert_eq!(u, "http://example.com/a.mp3"),
        other => panic!("unexpected {:?}", other),
    }
    match classify("never gonna give you up") {
        Query::Search(t) => assert_eq!(t, "never gonna give you up"),
        other => panic!("unexpected {:?}", other),
    }
    match classify("") {
        Query::Search(t) => assert_eq!(t, ""),
        other => panic!("unexpected {:?}", other),
    }
}

#[test]
fn spotify_lookup_becomes_search_text() {
    let found = SpotifyTrack {
        name: "Song".to_string(),
        artists: vec!["Band".to_string(), "Guest".to_string()],
    };
    assert_eq!(spotify_query(Some(found)), Ok("Song Band".to_string()));
    assert_eq!(spotify_query(None), Err(MusicError::TrackNotFound));
    let nobody = SpotifyTrack { name: "Song".to_string(), artists: vec![] };
    assert_eq!(spotify_query(Some(nobody)), Err(MusicError::TrackNotFound));
}

#[test]
fn first_result_takes_the_first_candidate() {
    assert!(matches!(first_result(vec![]), Err(MusicError::NoResults)));
    let t = first_result(vec![track("x", 1), track("y", 2)]).unwrap();
    assert_eq!(t.title, "x");
}

#[test]
fn base64_messages() {
    assert_eq!(encoded_message("hello"), "Encoded Message: `aGVsbG8=`");
    assert_eq!(encoded_message(""), "Encoded Message: ``");
    assert_eq!(decoded_message("aGVsbG8="), Ok("Decoded Message: `hello`".to_string()));
    assert_eq!(decoded_message("not base64!"), Err(CipherError::InvalidBase64));
    assert_eq!(decoded_message("/w=="), Err(CipherError::NotText));
    assert_eq!(decoded_description("x"), "Decoded Message: `x`");
}

#[test]
fn recipients_are_read_from_argument_and_mentions() {
    assert!(matches!(extract_recipient("EveryOne", None, 1), Some(Recipient::Everyone)));
    assert!(matches!(
        extract_recipient("<@1>", Some((1, "me".to_string())), 1),
        Some(Recipient::Yourself)
    ));
    match extract_recipient("<@2>", Some((2, "friend".to_string())), 1) {
        Some(Recipient::SomeoneElse(n)) => assert_eq!(n, "friend"),
        other => panic!("unexpected {:?}", other),
    }
    assert!(extract_recipient("nobody", None, 1).is_none());
    assert!(eq_ignore_ascii_case("ÉvERYone", "Éveryone"));
    assert!(!eq_ignore_ascii_case("every", "everyone"));
}

#[test]
fn reaction_messages() {
    assert_eq!(reaction_message(Reaction::Hug, "ann", Recipient::Everyone), "Group hug!");
    assert_eq!(
        reaction_message(Reaction::Pat, "ann", Recipient::Yourself),
        "You gave yourself a pat on the back!"
    );
    assert_eq!(
        reaction_message(Reaction::Kiss, "ann", Recipient::SomeoneElse("bob".to_string())),
        "ann kisses bob"
    );
    assert_eq!(
        reaction_message(Reaction::Slap, "ann", Recipient::SomeoneElse("bob".to_string())),
        "ann slaps bob"
    );
    assert_eq!(reaction_search(Reaction::Hug), ("hug", "anime hug"));
}

fn gif(url: &str) -> GifResult {
    GifResult { url: url.to_string(), gif_url: format!("{}.gif", url) }
}

#[test]
fn image_cache_skips_the_last_gif_shown() {
    let mut cache = ReactionImageCache::new();
    assert_eq!(cache.get(1, "hug"), None);
    let gifs = cache.check_image_cache(1, "hug", vec![gif("a"), gif("b")]);
    assert_eq!(gifs.len(), 2);
    cache.add_to_cache(1, "hug".to_string(), "b".to_string());
    cache.add_to_cache(2, "hug".to_string(), "a".to_string());
    assert_eq!(cache.get(1, "hug"), Some("b".to_string()));
    let gifs = cache.check_image_cache(1, "hug", vec![gif("a"), gif("b"), gif("b")]);
    let urls: Vec<String> = gifs.into_iter().map(|g| g.url).collect();
    assert_eq!(urls, vec!["a".to_string(), "b".to_string()]);
    cache.add_to_cache(1, "hug".to_string(), "c".to_string());
    assert_eq!(cache.get(1, "hug"), Some("c".to_string()));
    assert_eq!(cache.get(2, "hug"), Some("a".to_string()));
    assert_eq!(cache.get(1, "pat"), None);
}

#[test]
fn pick_gif_stays_in_range() {
    assert_eq!(pick_gif(&vec![]), None);
    let gifs = vec![gif("a"), gif("b"), gif("c")];
    for _ in 0..50 {
        assert!(pick_gif(&gifs).unwrap() < 3);
    }
}

#[test]
fn command_groups_and_names() {
    let music = Music::group();
    assert_eq!(music.name, "Music");
    assert_eq!(
        music.commands,
        vec!["play", "pause", "resume", "stop", "skip", "queue", "clear", "remove", "seek"]
    );
    assert_eq!(Voice::group().commands, vec!["summon", "disconnect"]);
    assert_eq!(Japan::group().commands, vec!["anime", "manga"]);
    let names = CommandNameMap::from_groups(&Master::sub_groups());
    assert_eq!(
        names.names,
        vec![
            "prefix", "command", "resetprefix", "starboard", "summon", "disconnect", "play",
            "pause", "resume", "stop", "skip", "queue", "clear", "remove", "seek"
        ]
    );
    assert!(names.contains("skip"));
    assert!(!names.contains("anime"));
}

fn creds() -> Credentials {
    Credentials {
        bot_token: "SECRET-REDACTED".to_string(),
        default_prefix: "j!".to_string(),
        db_connection: String::new(),
        lavalink_host: "localhost".to_string(),
        lavalink_auth: "pass".to_string(),
        tenor_key: "tenor-key".to_string(),
        spotify_client_id: "id".to_string(),
        spotify_client_secret: "secret".to_string(),
    }
}

#[test]
fn credentials_and_public_values() {
    let c = creds().with_db_connection("postgres://db".to_string());
    assert_eq!(c.db_connection, "postgres://db");
    assert_eq!(c.default_prefix, "j!");
    let p = PubCreds::from_credentials(&c);
    assert_eq!(p.get("tenor"), Some("tenor-key".to_string()));
    assert_eq!(p.get("default prefix"), Some("j!".to_string()));
    assert_eq!(p.get("bot token"), None);
    assert_eq!(BotId(5), BotId(5));
}

#[test]
fn guild_prefixes_fall_back_to_default() {
    let mut m = PrefixMap::new();
    assert_eq!(m.prefix_for(1, "j!"), "j!");
    m.set(1, "?".to_string());
    assert_eq!(m.prefix_for(1, "j!"), "?");
    assert_eq!(m.prefix_for(2, "j!"), "j!");
    m.reset(1);
    assert_eq!(m.prefix_for(1, "j!"), "j!");
}
