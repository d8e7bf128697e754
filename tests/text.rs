use woman_bot::chat::{
    now_playing_description, now_playing_message, queue_listing, split_message, HELP_MESSAGE,
    MESSAGE_PART_LEN,
};
use woman_bot::command::{choose_backend, parse_command, BackendChoice, CommandKind};
use woman_bot::duration::{parse_duration, DurationError};
use woman_bot::links::{
    extract_youtube_url, is_valid_youtube_url, search_argument, url_from_search_output, LinkError,
};
use woman_bot::repeat::{
    loop_announcement, parse_loop_count, parse_loop_request, LoopBound, LoopRequestError,
};
use woman_bot::tracker::{
    filled_segments, progress_bar, progress_field, tick_interval, Tracker, PROGRESS_SEGMENTS,
};

#[test]
fn tick_interval_never_below_one() {
    assert_eq!(tick_interval(0), 1);
    assert_eq!(tick_interval(10), 1);
    assert_eq!(tick_interval(48), 1);
    assert_eq!(tick_interval(49), 1);
    assert_eq!(tick_interval(98), 2);
    assert_eq!(tick_interval(490), 10);
}

#[test]
fn bar_always_has_full_width() {
    for total in [1u64, 2, 7, 49, 100, 3600] {
        for elapsed in 0..=total {
            let bar = progress_bar(elapsed, total);
            assert_eq!(bar.chars().count(), PROGRESS_SEGMENTS as usize);
            let filled = bar.chars().filter(|c| *c == '█').count();
            let empty = bar.chars().filter(|c| *c == '░').count();
            assert_eq!(filled + empty, 49);
            assert_eq!(filled as u64, elapsed * 49 / total);
        }
    }
    assert_eq!(filled_segments(500, 100), 49);
    assert_eq!(filled_segments(0, 0), 49);
}

#[test]
fn progress_field_exact() {
    let field = progress_field(65, 200);
    let bar: String = "█".repeat(15) + &"░".repeat(34);
    assert_eq!(field, format!("1:05 / 3:20\n{}", bar));
    assert_eq!(progress_field(0, 9), format!("0:00 / 0:09\n{}", "░".repeat(49)));
    assert_eq!(
        progress_field(3725, 3725),
        format!("62:05 / 62:05\n{}", "█".repeat(49))
    );
}

#[test]
fn tracker_advances_by_ticks_until_done() {
    let mut t = Tracker::new(100);
    assert_eq!(t.tick_secs(), 2);
    let mut frames = 0;
    while !t.finished() {
        let f = t.advance();
        assert!(f.ends_with('░') || f.ends_with('█'));
        frames += 1;
    }
    assert_eq!(frames, 50);
    assert_eq!(t.elapsed_secs(), 100);
    let mut short = Tracker::new(3);
    assert_eq!(short.tick_secs(), 1);
    assert_eq!(short.advance(), format!("0:01 / 0:03\n{}{}", "█".repeat(16), "░".repeat(33)));
    assert!(Tracker::new(0).finished());
}

#[test]
fn extracts_link_from_message() {
    assert_eq!(
        extract_youtube_url(" https://www.youtube.com/watch?v=dQw4w9WgXcQ").unwrap(),
        "https://www.youtube.com/watch?v=dQw4w9WgXcQ"
    );
    assert_eq!(
        extract_youtube_url("!loop 2 https://www.youtube.com/watch?v=a_b-1 tail").unwrap(),
        "https://www.youtube.com/watch?v=a_b-1 tail"
    );
    assert_eq!(
        extract_youtube_url("https://youtube.com/watch?v=abc").unwrap_err(),
        LinkError::NotFound
    );
    assert_eq!(
        extract_youtube_url("https://www.youtube.com/watch?v=").unwrap_err(),
        LinkError::NotFound
    );
    assert_eq!(
        extract_youtube_url("https://www.youtube.com/watch?v=! http://youtube.com/watch?v=Z")
            .unwrap(),
        "https://www.youtube.com/watch?v=! http://youtube.com/watch?v=Z"
    );
    assert_eq!(LinkError::NotFound.message(), "No valid YouTube URL found");
}

#[test]
fn link_pattern_is_matched() {
    assert!(is_valid_youtube_url("http://youtube.com/watch?v=a"));
    assert!(is_valid_youtube_url("see https://www.youtube.com/watch?v=Z9"));
    assert!(!is_valid_youtube_url("https://youtube.com/watch?v="));
    assert!(!is_valid_youtube_url("https://www.youtube.com/watch?x=abc"));
    assert!(!is_valid_youtube_url(""));
}

#[test]
fn duration_text_is_read() {
    assert_eq!(parse_duration("3:25\n"), Ok(205));
    assert_eq!(parse_duration("1:02:03"), Ok(3723));
    assert_eq!(parse_duration(" 42 "), Ok(42));
    assert_eq!(parse_duration("+1:00"), Ok(60));
    assert_eq!(parse_duration("1:2:3:4"), Err(DurationError::WrongShape));
    assert_eq!(parse_duration("a:10"), Err(DurationError::BadNumber));
    assert_eq!(parse_duration(""), Err(DurationError::BadNumber));
    assert_eq!(parse_duration("1::2"), Err(DurationError::BadNumber));
    assert_eq!(
        parse_duration("18446744073709551615:0"),
        Err(DurationError::TooLong)
    );
    assert_eq!(
        parse_duration("18446744073709551616"),
        Err(DurationError::BadNumber)
    );
    assert_eq!(
        parse_duration("18446744073709551615"),
        Ok(18446744073709551615)
    );
}

#[test]
fn long_reply_is_split() {
    assert!(split_message("").is_empty());
    assert_eq!(split_message("hi"), vec!["hi"]);
    let exact = "x".repeat(MESSAGE_PART_LEN);
    assert_eq!(split_message(&exact), vec![exact.clone()]);
    let long = format!("{}{}", "a".repeat(1950), "bc");
    let parts = split_message(&long);
    assert_eq!(parts.len(), 2);
    assert_eq!(parts[0], "a".repeat(1950));
    assert_eq!(parts[1], "bc");
    let two_byte = "é".repeat(1950);
    let parts = split_message(&two_byte);
    assert_eq!(parts, vec!["é".repeat(975), "é".repeat(975)]);
    let wide = "é".repeat(4000);
    let parts = split_message(&wide);
    assert_eq!(
        parts.iter().map(|p| p.len()).collect::<Vec<_>>(),
        vec![1950, 1950, 1950, 1950, 200]
    );
    let mixed = format!("{}{}{}", "a".repeat(1949), "é", "b");
    let parts = split_message(&mixed);
    assert_eq!(parts, vec!["a".repeat(1949), "éb".to_string()]);
    let emoji = "🎵".repeat(500);
    let parts = split_message(&emoji);
    assert_eq!(
        parts.iter().map(|p| p.len()).collect::<Vec<_>>(),
        vec![1948, 52]
    );
    assert_eq!(parts.concat(), emoji);
}

#[test]
fn queue_listing_text() {
    assert_eq!(queue_listing(&vec![]), "🪹 **Queue Empty** 🪹");
    let titles = vec!["First song\n".to_string(), "  Second ".to_string()];
    assert_eq!(
        queue_listing(&titles),
        "🎵 **Queue** 🎵\n```markdown\n1: First song\n2: Second\n```"
    );
}

#[test]
fn now_playing_text() {
    assert_eq!(now_playing_message("Song\nName\n"), "Playing: ```SongName```");
    assert_eq!(now_playing_description("Song\n"), " ```Song```");
}

#[test]
fn commands_are_classified() {
    let c = parse_command("  !https://www.youtube.com/watch?v=x ");
    assert_eq!(c.kind, CommandKind::Enqueue);
    assert_eq!(c.text, "https://www.youtube.com/watch?v=x");
    let c = parse_command("! https://www.youtube.com/watch?v=x");
    assert_eq!(c.kind, CommandKind::Enqueue);
    assert_eq!(c.text, " https://www.youtube.com/watch?v=x");
    assert_eq!(parse_command("!q").kind, CommandKind::ShowQueue);
    assert_eq!(parse_command("! skip").kind, CommandKind::Skip);
    assert_eq!(parse_command("!leave").kind, CommandKind::Leave);
    assert_eq!(parse_command("!help").kind, CommandKind::Help);
    let c = parse_command("!loop 3 https://www.youtube.com/watch?v=x");
    assert_eq!(c.kind, CommandKind::Loop);
    assert_eq!(c.text, "!loop 3 https://www.youtube.com/watch?v=x");
    let c = parse_command("!play never gonna");
    assert_eq!(c.kind, CommandKind::Play);
    assert_eq!(c.text, " never gonna");
    let c = parse_command("!image a cat");
    assert_eq!(c.kind, CommandKind::Image);
    assert_eq!(c.text, "e a cat");
    let c = parse_command("! what is rust");
    assert_eq!(c.kind, CommandKind::Prompt);
    assert_eq!(c.text, "what is rust");
    assert_eq!(parse_command("!xy").text, "y");
    assert_eq!(parse_command("!").text, "");
    assert_eq!(parse_command("hello").kind, CommandKind::Ignore);
    assert_eq!(parse_command("!loop").kind, CommandKind::Prompt);
}

#[test]
fn backend_choice() {
    assert_eq!(choose_backend(Some(true), Some(false)), BackendChoice::First);
    assert_eq!(choose_backend(Some(false), Some(true)), BackendChoice::Second);
    assert_eq!(choose_backend(Some(true), Some(true)), BackendChoice::Ambiguous);
    assert_eq!(choose_backend(Some(false), Some(false)), BackendChoice::Ambiguous);
    assert_eq!(choose_backend(None, Some(true)), BackendChoice::Unconfigured);
}

#[test]
fn search_helpers() {
    assert_eq!(search_argument("lofi beats"), "ytsearch1:lofi beats");
    assert_eq!(
        url_from_search_output("abc123\n"),
        "https://www.youtube.com/watch?v=abc123"
    );
    assert_eq!(
        url_from_search_output("id1\r\nid2\n"),
        "https://www.youtube.com/watch?v=id1"
    );
    assert_eq!(url_from_search_output(""), "https://www.youtube.com/watch?v=");
}

#[test]
fn loop_counts() {
    assert_eq!(parse_loop_count("3"), LoopBound::Times(3));
    assert_eq!(parse_loop_count("+5"), LoopBound::Times(5));
    assert_eq!(parse_loop_count("-3"), LoopBound::Unbounded);
    assert_eq!(parse_loop_count("99999999999999999999999"), LoopBound::Unbounded);
    assert_eq!(parse_loop_count("٣"), LoopBound::Unbounded);
    assert_eq!(parse_loop_count(""), LoopBound::Unbounded);
}

#[test]
fn loop_requests() {
    let r = parse_loop_request("!loop 3 https://www.youtube.com/watch?v=abc").unwrap();
    assert_eq!(r.url, "https://www.youtube.com/watch?v=abc");
    assert_eq!(r.bound, LoopBound::Times(3));
    let r = parse_loop_request("!loop x٣ https://www.youtube.com/watch?v=abc").unwrap();
    assert_eq!(r.bound, LoopBound::Unbounded);
    assert_eq!(
        parse_loop_request("!loop https://www.youtube.com/watch?v=abc 4").unwrap_err(),
        LoopRequestError::MissingCount
    );
    assert_eq!(
        parse_loop_request("!loop 3 https://example.com").unwrap_err(),
        LoopRequestError::BadUrl
    );
    assert_eq!(LoopRequestError::BadUrl.message(), "Bad URL");
    assert_eq!(
        LoopRequestError::MissingCount.message(),
        "No loop count specified. Expected format '!loop <count> <url>'"
    );
}

#[test]
fn loop_announcement_text() {
    assert_eq!(
        loop_announcement(LoopBound::Times(12), "<@7>"),
        "looping 12 times for my king <@7>"
    );
    assert_eq!(
        loop_announcement(LoopBound::Unbounded, "<@7>"),
        "looping until skipped for my king <@7>"
    );
}

#[test]
fn help_text_lists_commands() {
    assert!(HELP_MESSAGE.contains("!skip"));
    assert!(HELP_MESSAGE.starts_with("💅🏻 **Woman Commands** ☕\n```markdown\n1. !<URL>"));
}
