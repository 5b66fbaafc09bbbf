use tunequeue::controls::{
    create_invite_link, loop_command_message, loop_toggle_command, LoopCommand,
};
use tunequeue::link::{classify_url_parts, is_youtube_link, ParseYtLink, UrlParts};
use tunequeue::sources::{
    needs_search, plan_for_kind, plan_request, playlist_lines, suggestions, ResolveError,
    SourcePlan,
};
use tunequeue::track::LoopMode;

#[test]
fn youtube_links_are_classified() {
    assert_eq!(is_youtube_link("https://www.youtube.com/watch?v=dQw4w9WgXcQ"), ParseYtLink::Song);
    assert_eq!(
        is_youtube_link("https://www.youtube.com/watch?v=a&list=PL1"),
        ParseYtLink::Song
    );
    assert_eq!(is_youtube_link("https://www.youtube.com/watch?list=PL1"), ParseYtLink::Playlist);
    assert_eq!(
        is_youtube_link("https://youtube.com/playlist?list=PL1"),
        ParseYtLink::Playlist
    );
    assert_eq!(is_youtube_link("https://www.youtube.com/channel/UC1"), ParseYtLink::Channel);
    assert_eq!(is_youtube_link("https://www.youtube.com/user/bob"), ParseYtLink::User);
    assert_eq!(is_youtube_link("https://www.youtube.com/c/bob"), ParseYtLink::Channel);
    assert_eq!(is_youtube_link("https://www.youtube.com/live/xyz"), ParseYtLink::Live);
    assert_eq!(is_youtube_link("https://www.youtube.com/"), ParseYtLink::Song);
    assert_eq!(is_youtube_link("https://youtu.be/dQw4w9WgXcQ"), ParseYtLink::Song);
    assert_eq!(is_youtube_link("https://youtu.be/live/xyz"), ParseYtLink::Live);
}

#[test]
fn other_text_is_classified() {
    assert_eq!(is_youtube_link("https://example.com/watch?v=1"), ParseYtLink::NotYoutube);
    assert_eq!(is_youtube_link("never gonna give you up"), ParseYtLink::Search);
    assert_eq!(is_youtube_link("mailto:someone@example.com"), ParseYtLink::Search);
    assert_eq!(is_youtube_link(""), ParseYtLink::Search);
}

#[test]
fn parsed_parts_are_classified() {
    let parts = UrlParts {
        host: Some("youtu.be".to_string()),
        path: "/shorts/{}".to_string(),
        query_keys: vec![],
    };
    assert_eq!(classify_url_parts(&parts), ParseYtLink::Shorts);
    let parts = UrlParts {
        host: Some("m.youtube.com".to_string()),
        path: "/watch".to_string(),
        query_keys: vec!["t".to_string(), "list".to_string()],
    };
    assert_eq!(classify_url_parts(&parts), ParseYtLink::Playlist);
    let parts = UrlParts { host: None, path: "x".to_string(), query_keys: vec![] };
    assert_eq!(classify_url_parts(&parts), ParseYtLink::Search);
}

#[test]
fn request_plans() {
    assert_eq!(plan_request("lofi beats"), Ok(SourcePlan::Search { limit: 5 }));
    assert_eq!(
        plan_request("https://www.youtube.com/playlist?list=PL1"),
        Ok(SourcePlan::Playlist)
    );
    assert_eq!(plan_request("https://youtu.be/abc"), Ok(SourcePlan::Single));
    assert_eq!(
        plan_request("https://www.youtube.com/channel/UC1"),
        Err(ResolveError::UnsupportedLink)
    );
    assert_eq!(plan_for_kind(ParseYtLink::NotYoutube), Err(ResolveError::UnsupportedLink));
}

#[test]
fn playlist_output_is_split_into_entries() {
    let out = b"{\"a\":1}\n\n{\"b\":2}\n";
    assert_eq!(playlist_lines(out), vec![b"{\"a\":1}".to_vec(), b"{\"b\":2}".to_vec()]);
    assert_eq!(playlist_lines(b"x\ny"), vec![b"x".to_vec(), b"y".to_vec()]);
    assert!(playlist_lines(b"").is_empty());
    assert!(playlist_lines(b"\n\n").is_empty());
}

#[test]
fn autocomplete_suggestions() {
    assert!(!needs_search("ab"));
    assert!(needs_search("abc"));
    assert_eq!(suggestions(None), vec!["music".to_string()]);
    assert_eq!(
        suggestions(Some(vec![Some("One".to_string()), None])),
        vec!["One".to_string(), "No suggestion".to_string()]
    );
    assert!(suggestions(Some(vec![])).is_empty());
}

#[test]
fn loop_toggle_decisions() {
    assert_eq!(loop_toggle_command(Some(3), LoopMode::Infinite), LoopCommand::LoopFor(3));
    assert_eq!(loop_toggle_command(None, LoopMode::Finite(0)), LoopCommand::Enable);
    assert_eq!(loop_toggle_command(None, LoopMode::Infinite), LoopCommand::Disable);
    assert_eq!(loop_toggle_command(None, LoopMode::Finite(2)), LoopCommand::Disable);
    assert_eq!(loop_command_message(LoopCommand::LoopFor(3)), "song looped for 3 times");
    assert_eq!(loop_command_message(LoopCommand::Enable), "song looped");
    assert_eq!(loop_command_message(LoopCommand::Disable), "song loop disabled");
}

#[test]
fn invite_link_encodes_its_pairs() {
    assert_eq!(
        create_invite_link("123", 36700160),
        "https://discord.com/oauth2/authorize?client_id=123&permissions=36700160&scope=bot+applications.commands"
    );
    assert_eq!(
        create_invite_link("a b&c", 0),
        "https://discord.com/oauth2/authorize?client_id=a+b%26c&permissions=0&scope=bot+applications.commands"
    );
}
