use sitch::present::{
    compose_brief, compose_failure, compose_heading, compose_summary, elapsed_text, Delivery,
};
use sitch::report::{Event, Mode};
use sitch::sources::anime::{Anime, AnimeList};
use sitch::sources::bandcamp::{BandcampArtist, BandcampArtists};
use sitch::sources::manga::{Manga, MangaList};
use sitch::sources::rss::{RssSource, RssSources};
use sitch::sources::youtube::{YouTubeChannel, YouTubeChannels};
use sitch::sources::{CheckError, ErrorKind, Platform, Sources};
use sitch::text::{plain_text, Span, Tint};
use sitch::time::{DatePattern, Timestamp};
use sitch::update::SourceUpdate;

fn found_event(count: usize, seconds: u64) -> Event {
    Event::Found {
        platform: "RSS".to_string(),
        source: "News".to_string(),
        count,
        earliest: SourceUpdate {
            title: "Title".to_string(),
            link: "https://l".to_string(),
            published_date: Timestamp::new(1_709_654_829, 0).unwrap(),
        },
        seconds,
    }
}

fn failed_event() -> Event {
    Event::Failed {
        platform: "Manga".to_string(),
        source: "Book".to_string(),
        error: CheckError { kind: ErrorKind::NetworkUnavailable, message: "Couldn't access u".to_string() },
        seconds: 1,
    }
}

fn text_of(delivery: &Delivery) -> String {
    match delivery {
        Delivery::Stdout(line) => format!("out:{}", plain_text(line)),
        Delivery::Stderr(line) => format!("err:{}", plain_text(line)),
        Delivery::Interactive { summary, body, link } => format!("ask:{}|{}|{}", summary, body, link),
        Delivery::Alert { summary, body } => format!("tell:{}|{}", summary, body),
    }
}

fn tints_of(delivery: &Delivery) -> Vec<Tint> {
    match delivery {
        Delivery::Stdout(line) | Delivery::Stderr(line) => line.iter().map(|s| s.tint).collect(),
        _ => Vec::new(),
    }
}

#[test]
fn seconds_are_shown_with_their_number() {
    assert_eq!(elapsed_text(0), "[0 seconds]");
    assert_eq!(elapsed_text(1), "[1 second]");
    assert_eq!(elapsed_text(2), "[2 seconds]");
    assert_eq!(elapsed_text(75), "[75 seconds]");
}

#[test]
fn heading_names_the_checkpoint_where_there_is_one() {
    assert_eq!(
        plain_text(&compose_heading(Some("January 10, 2024 at 9:00 AM"))),
        "The following sources have updated since January 10, 2024 at 9:00 AM:"
    );
    assert_eq!(plain_text(&compose_heading(None)), "The following sources have updates:");
    let since = Timestamp::new(1_704_877_200, 0).unwrap();
    let event = Event::Heading(Some(since));
    assert_eq!(
        text_of(&event.present_with("D", Mode::Verbose, true, true)),
        "out:The following sources have updated since D:"
    );
    assert_eq!(
        text_of(&Event::Heading(None).present_with("D", Mode::Verbose, true, true)),
        "out:The following sources have updates:"
    );
    let shown = chrono::DateTime::from_timestamp(1_704_877_200, 0)
        .unwrap()
        .with_timezone(&chrono::Local)
        .format("%B %d, %Y at %-l:%M %p")
        .to_string();
    assert_eq!(
        text_of(&event.present(Mode::Verbose, false, false)),
        format!("out:The following sources have updated since {}:", shown)
    );
    assert_eq!(since.local_text(DatePattern::Since), shown);
}

#[test]
fn dates_are_written_after_their_patterns() {
    let instant = Timestamp::new(1_709_654_829, 0).unwrap();
    let local = chrono::DateTime::from_timestamp(1_709_654_829, 0).unwrap().with_timezone(&chrono::Local);
    assert_eq!(instant.local_text(DatePattern::Release), local.format("%B %-e, %Y at %-l:%M %p").to_string());
    assert_eq!(instant.local_text(DatePattern::Stamp), local.format("%T %D").to_string());
    assert_eq!(DatePattern::Since.as_str(), "%B %d, %Y at %-l:%M %p");
}

#[test]
fn verbose_line_for_a_source_with_updates() {
    let delivery = found_event(1, 1).present_with("March 5, 2024 at 4:07 PM", Mode::Verbose, false, false);
    assert_eq!(
        text_of(&delivery),
        "out:RSS - News: There has been 1 update, it was \"Title\" released on March 5, 2024 at 4:07 PM, found here: https://l [1 second]"
    );
    assert!(tints_of(&delivery).iter().all(|tint| *tint == Tint::Plain));
    let on_terminal = found_event(4, 12).present_with("D", Mode::Verbose, true, true);
    assert_eq!(
        text_of(&on_terminal),
        "out:RSS - News: There have been 4 updates, the earliest was \"Title\" released on D, found here: https://l [12 seconds]"
    );
    assert_eq!(
        tints_of(&on_terminal),
        vec![
            Tint::Green,
            Tint::Plain,
            Tint::Green,
            Tint::Plain,
            Tint::Plain,
            Tint::BrightBlue,
            Tint::Plain,
            Tint::Purple,
        ]
    );
    assert_eq!(
        compose_summary("P", "S", 2, "T", "D", "L", 0, true),
        match on_terminal {
            Delivery::Stdout(_) => compose_summary("P", "S", 2, "T", "D", "L", 0, true),
            _ => Vec::new(),
        }
    );
    let released = chrono::DateTime::from_timestamp(1_709_654_829, 0)
        .unwrap()
        .with_timezone(&chrono::Local)
        .format("%B %-e, %Y at %-l:%M %p")
        .to_string();
    assert_eq!(
        text_of(&found_event(1, 0).present(Mode::Verbose, false, false)),
        format!(
            "out:RSS - News: There has been 1 update, it was \"Title\" released on {}, found here: https://l [0 seconds]",
            released
        )
    );
}

#[test]
fn quiet_line_for_a_source_with_updates() {
    let delivery = found_event(3, 1).present_with("D", Mode::Quiet, true, true);
    assert_eq!(text_of(&delivery), "out:News: \"Title\" https://l");
    assert_eq!(tints_of(&delivery), vec![Tint::Green, Tint::Plain, Tint::BrightBlue]);
    assert_eq!(
        compose_brief("S", "T", "L", false),
        vec![
            Span { text: "S".into(), tint: Tint::Plain },
            Span { text: ": \"T\" ".into(), tint: Tint::Plain },
            Span { text: "L".into(), tint: Tint::Plain },
        ]
    );
}

#[test]
fn notification_for_a_source_with_updates_offers_its_link() {
    assert_eq!(
        found_event(3, 1).present(Mode::Notify, false, false),
        Delivery::Interactive {
            summary: "Sitch - News".into(),
            body: "Title".into(),
            link: "https://l".into(),
        }
    );
}

#[test]
fn failure_is_a_line_or_a_notification() {
    let line = failed_event().present(Mode::Verbose, true, true);
    assert_eq!(text_of(&line), "err:Manga - Book: Couldn't access u [1 second]");
    assert_eq!(tints_of(&line), vec![Tint::Red, Tint::Plain, Tint::Red, Tint::Plain, Tint::Purple]);
    assert_eq!(
        plain_text(&compose_failure("P", "S", "went wrong", 2, false)),
        "P - S: went wrong [2 seconds]"
    );
    assert_eq!(
        failed_event().present(Mode::Notify, true, true),
        Delivery::Alert { summary: "Sitch Error - Book".into(), body: "Couldn't access u".into() }
    );
    assert_eq!(
        text_of(&failed_event().present(Mode::Quiet, false, false)),
        "err:Manga - Book: Couldn't access u [1 second]"
    );
    let only_out = failed_event().present(Mode::Verbose, true, false);
    assert!(tints_of(&only_out).iter().all(|tint| *tint == Tint::Plain));
    let only_err = found_event(1, 1).present(Mode::Quiet, false, true);
    assert!(tints_of(&only_err).iter().all(|tint| *tint == Tint::Plain));
}

#[test]
fn closing_lines_go_to_the_standard_error() {
    assert_eq!(text_of(&Event::NoUpdates.present(Mode::Verbose, true, true)), "err:No updates at this time.");
    assert_eq!(
        text_of(&Event::ErrorsHeading.present(Mode::Verbose, true, true)),
        "err:\nThe following errors occurred:"
    );
}

#[test]
fn items_are_listed_as_their_platform_shows_them() {
    let sources = Sources {
        last_checked: None,
        rss: RssSources(vec![
            (RssSource { name: "News".into(), feed: "https://n/feed".into() }, None),
            (RssSource { name: "Blog".into(), feed: "https://b/feed".into() }, None),
        ]),
        youtube: YouTubeChannels {
            api_key: None,
            channels: vec![(YouTubeChannel { name: "Chan".into(), channel_id: "UC1".into() }, None)],
        },
        anime: AnimeList(vec![(Anime { name: "Show".into(), id: "21".into() }, None)]),
        manga: MangaList(vec![(Manga { name: "Book".into(), id: "abc".into() }, None)]),
        bandcamp: BandcampArtists(vec![(BandcampArtist { name: "Band".into(), url: "https://band".into() }, None)]),
    };
    let texts = |platform: Platform| -> Vec<String> {
        sources.listing(platform, true).iter().map(plain_text).collect()
    };
    assert_eq!(texts(Platform::Rss), vec!["News: https://n/feed", "Blog: https://b/feed"]);
    assert_eq!(texts(Platform::Bandcamp), vec!["Band: https://band"]);
    assert_eq!(texts(Platform::YouTube), vec!["Chan: UC1"]);
    assert_eq!(texts(Platform::Anime), vec!["Show"]);
    assert_eq!(texts(Platform::Manga), vec!["Book"]);
    let tints = |platform: Platform, tty: bool| -> Vec<Tint> {
        sources.listing(platform, tty)[0].iter().map(|span| span.tint).collect()
    };
    assert_eq!(tints(Platform::Rss, true), vec![Tint::Green, Tint::Plain, Tint::BrightBlue]);
    assert_eq!(tints(Platform::Rss, false), vec![Tint::Plain, Tint::Plain, Tint::Plain]);
    assert_eq!(tints(Platform::YouTube, true), vec![Tint::Green, Tint::Plain, Tint::Plain]);
    assert_eq!(tints(Platform::Anime, true), vec![Tint::Plain]);
}

#[test]
fn events_and_lists_are_shown_for_the_outputs_at_hand() {
    let out_tty = atty::is(atty::Stream::Stdout);
    let err_tty = atty::is(atty::Stream::Stderr);
    assert_eq!(
        found_event(2, 3).show(Mode::Verbose),
        found_event(2, 3).present(Mode::Verbose, out_tty, err_tty)
    );
    assert_eq!(failed_event().show(Mode::Verbose), failed_event().present(Mode::Verbose, out_tty, err_tty));
    let sources = Sources {
        last_checked: None,
        rss: RssSources(vec![(RssSource { name: "News".into(), feed: "https://n/feed".into() }, None)]),
        youtube: YouTubeChannels { api_key: None, channels: vec![] },
        anime: AnimeList(vec![]),
        manga: MangaList(vec![]),
        bandcamp: BandcampArtists(vec![]),
    };
    assert_eq!(sources.show_listing(Platform::Rss), sources.listing(Platform::Rss, out_tty));
}
