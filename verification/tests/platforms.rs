use sitch::sources::anime::{update_from_episode, Anime, Episode};
use sitch::sources::bandcamp::{
    album_date, outcome_of_album, AlbumPage, ArtistPage, BandcampArtist,
};
use sitch::sources::manga::{update_from_chapter, Chapter, Manga, MangaPage};
use sitch::sources::rss::{update_from_item, FeedItem, RssSource};
use sitch::sources::youtube::{compose_query, update_from_video, Video, YouTubeChannel};
use sitch::sources::{CheckError, ErrorKind, FetchError};
use sitch::time::Timestamp;
use sitch::update::SourceUpdate;

fn day_of(year: i32, month: u32, day: u32) -> Timestamp {
    let secs = chrono::NaiveDate::from_ymd_opt(year, month, day)
        .unwrap()
        .and_hms_opt(0, 0, 0)
        .unwrap()
        .and_utc()
        .timestamp();
    Timestamp::new(secs, 0).unwrap()
}

fn some(text: &str) -> Option<String> {
    Some(text.to_string())
}

fn feed_item(title: Option<&str>, link: Option<&str>, pub_date: Option<&str>) -> FeedItem {
    FeedItem {
        title: title.map(str::to_string),
        link: link.map(str::to_string),
        pub_date: pub_date.map(str::to_string),
    }
}

fn feed() -> RssSource {
    RssSource { name: "News".to_string(), feed: "https://example.org/feed.xml".to_string() }
}

#[test]
fn feed_reports_what_was_published_after_the_checkpoint_in_order() {
    let items = vec![
        feed_item(Some("third"), Some("l3"), Some("Sun, 03 Mar 2024 00:00:00 GMT")),
        feed_item(Some("first"), Some("l1"), Some("Fri, 01 Mar 2024 00:00:00 GMT")),
        feed_item(Some("old"), Some("l0"), Some("Thu, 01 Feb 2024 00:00:00 GMT")),
        feed_item(Some("second"), Some("l2"), Some("Sat, 02 Mar 2024 00:00:00 +0000")),
    ];
    let since = Some(day_of(2024, 2, 15));
    let updates = feed().check_for_updates(&since, Ok(items)).unwrap();
    assert_eq!(
        updates,
        vec![
            SourceUpdate { title: "first".into(), link: "l1".into(), published_date: day_of(2024, 3, 1) },
            SourceUpdate { title: "second".into(), link: "l2".into(), published_date: day_of(2024, 3, 2) },
            SourceUpdate { title: "third".into(), link: "l3".into(), published_date: day_of(2024, 3, 3) },
        ]
    );
}

#[test]
fn feed_without_checkpoint_reports_every_dated_entry() {
    let items = vec![
        feed_item(None, None, Some("Fri, 01 Mar 2024 00:00:00 GMT")),
        feed_item(Some("undated"), Some("l"), None),
        feed_item(Some("bad date"), Some("l"), Some("2024-03-01")),
    ];
    let updates = feed().check_for_updates(&None, Ok(items)).unwrap();
    assert_eq!(
        updates,
        vec![SourceUpdate {
            title: "<unnamed>".into(),
            link: "<no link>".into(),
            published_date: day_of(2024, 3, 1),
        }]
    );
}

#[test]
fn feed_entry_published_at_the_checkpoint_is_not_new() {
    let at = day_of(2024, 3, 1);
    let item = feed_item(Some("t"), Some("l"), Some("Fri, 01 Mar 2024 00:00:00 GMT"));
    assert_eq!(update_from_item(&item, Some(at), &Some(at)), None);
    assert_eq!(update_from_item(&item, Some(at), &Some(day_of(2024, 3, 2))), None);
    assert_eq!(update_from_item(&item, None, &None), None);
    assert_eq!(
        update_from_item(&item, Some(at), &Some(day_of(2024, 2, 29))),
        Some(SourceUpdate { title: "t".into(), link: "l".into(), published_date: at })
    );
    assert!(feed().check_for_updates(&Some(at), Ok(vec![item])).unwrap().is_empty());
}

#[test]
fn feed_that_does_not_load_is_an_error_of_its_kind() {
    let unreachable = feed().check_for_updates(&None, Err(FetchError::Unreachable("timed out".into())));
    assert_eq!(
        unreachable,
        Err(CheckError {
            kind: ErrorKind::NetworkUnavailable,
            message: "Couldn't load RSS feed from https://example.org/feed.xml: timed out".into(),
        })
    );
    let unreadable = feed().check_for_updates(&None, Err(FetchError::Unreadable("not xml".into())));
    assert_eq!(
        unreadable,
        Err(CheckError {
            kind: ErrorKind::MalformedResponse,
            message: "Couldn't load RSS feed from https://example.org/feed.xml: not xml".into(),
        })
    );
}

fn channel() -> YouTubeChannel {
    YouTubeChannel { name: "Chan".to_string(), channel_id: "UC123".to_string() }
}

#[test]
fn channel_query_names_the_start_of_time_without_checkpoint() {
    assert_eq!(
        channel().query_url("KEY", &None),
        "https://www.googleapis.com/youtube/v3/search?part=snippet&channelId=UC123&maxResults=25&order=date&type=video&key=KEY&publishedAfter=1970-01-01T00:00:00Z"
    );
    assert_eq!(
        compose_query("c", "k", "s"),
        "https://www.googleapis.com/youtube/v3/search?part=snippet&channelId=c&maxResults=25&order=date&type=video&key=k&publishedAfter=s"
    );
}

#[test]
fn channel_query_names_the_checkpoint_in_local_time() {
    let since = day_of(2024, 1, 5);
    let stamp = chrono::DateTime::from_timestamp(since.secs(), 0)
        .unwrap()
        .with_timezone(&chrono::Local)
        .to_rfc3339();
    assert_eq!(channel().query_url("KEY", &Some(since)), compose_query("UC123", "KEY", &stamp));
}

#[test]
fn channel_reports_its_videos_in_order_of_publication() {
    let videos = vec![
        Video { published_at: some("2024-03-02T10:00:00Z"), title: some("newer"), video_id: some("b") },
        Video { published_at: some("2024-03-01T12:00:00+02:00"), title: None, video_id: None },
        Video { published_at: None, title: some("undated"), video_id: some("c") },
        Video { published_at: some("soon"), title: some("bad date"), video_id: some("d") },
    ];
    let updates = channel().check_for_updates("q", Ok(Some(videos))).unwrap();
    assert_eq!(
        updates,
        vec![
            SourceUpdate {
                title: "<unnamed>".into(),
                link: "<no link>".into(),
                published_date: Timestamp::new(day_of(2024, 3, 1).secs() + 10 * 3600, 0).unwrap(),
            },
            SourceUpdate {
                title: "newer".into(),
                link: "https://www.youtube.com/watch?v=b".into(),
                published_date: Timestamp::new(day_of(2024, 3, 2).secs() + 10 * 3600, 0).unwrap(),
            },
        ]
    );
    let video = Video { published_at: None, title: some("t"), video_id: some("v") };
    assert_eq!(update_from_video(&video, None), None);
}

#[test]
fn channel_listing_that_fails_is_an_error_of_its_kind() {
    assert_eq!(
        channel().check_for_updates("https://q", Ok(None)),
        Err(CheckError {
            kind: ErrorKind::MissingField,
            message: "YouTube API JSON data wasn't an object".into(),
        })
    );
    assert_eq!(
        channel().check_for_updates("https://q", Err(FetchError::Unreachable("x".into()))),
        Err(CheckError {
            kind: ErrorKind::NetworkUnavailable,
            message: "Couldn't access https://q".into(),
        })
    );
    assert_eq!(
        channel().check_for_updates("https://q", Err(FetchError::Unreadable("x".into()))),
        Err(CheckError {
            kind: ErrorKind::MalformedResponse,
            message: "Couldn't parse request data as JSON".into(),
        })
    );
}

fn anime() -> Anime {
    Anime { name: "Show".to_string(), id: "21".to_string() }
}

fn episode(aired: Option<&str>, episode_id: Option<u64>, title: Option<&str>, video_url: Option<&str>) -> Episode {
    Episode {
        aired: aired.map(str::to_string),
        episode_id,
        title: title.map(str::to_string),
        video_url: video_url.map(str::to_string),
    }
}

#[test]
fn anime_reports_complete_episodes_aired_after_the_checkpoint() {
    assert_eq!(anime().episodes_url(), "https://api.jikan.moe/v3/anime/21/episodes/1");
    let episodes = vec![
        episode(Some("2024-03-03T00:00:00+00:00"), Some(12), Some("Finale"), Some("v12")),
        episode(Some("2024-03-01T00:00:00+00:00"), Some(10), Some("Start"), Some("v10")),
        episode(Some("2024-02-01T00:00:00+00:00"), Some(9), Some("Old"), Some("v9")),
        episode(Some("2024-03-02T00:00:00+00:00"), None, Some("No number"), Some("v")),
        episode(Some("2024-03-02T00:00:00+00:00"), Some(11), None, Some("v")),
        episode(Some("2024-03-02T00:00:00+00:00"), Some(11), Some("No link"), None),
        episode(None, Some(13), Some("Not aired"), Some("v13")),
    ];
    let updates = anime().check_for_updates(&Some(day_of(2024, 2, 15)), Ok(Some(episodes))).unwrap();
    assert_eq!(
        updates,
        vec![
            SourceUpdate { title: "Episode 10 - Start".into(), link: "v10".into(), published_date: day_of(2024, 3, 1) },
            SourceUpdate { title: "Episode 12 - Finale".into(), link: "v12".into(), published_date: day_of(2024, 3, 3) },
        ]
    );
    let one = episode(Some("2024-03-03T00:00:00+00:00"), Some(1), Some("T"), Some("v"));
    assert_eq!(update_from_episode(&one, Some(day_of(2024, 3, 3)), &Some(day_of(2024, 3, 3))), None);
}

#[test]
fn anime_listing_that_fails_is_an_error_of_its_kind() {
    assert_eq!(
        anime().check_for_updates(&None, Ok(None)),
        Err(CheckError {
            kind: ErrorKind::MissingField,
            message: "Could not find episodes in received JSON".into(),
        })
    );
    assert_eq!(
        anime().check_for_updates(&None, Err(FetchError::Unreachable("x".into()))),
        Err(CheckError {
            kind: ErrorKind::NetworkUnavailable,
            message: "Couldn't access https://api.jikan.moe/v3/anime/21/episodes/1".into(),
        })
    );
    assert_eq!(
        anime().check_for_updates(&None, Err(FetchError::Unreadable("x".into()))),
        Err(CheckError {
            kind: ErrorKind::MalformedResponse,
            message: "Couldn't parse request data as JSON".into(),
        })
    );
}

fn manga() -> Manga {
    Manga { name: "Book".to_string(), id: "abc".to_string() }
}

#[test]
fn manga_reports_complete_chapters_published_after_the_checkpoint() {
    assert_eq!(manga().manga_url(), "https://www.mangaeden.com/api/manga/abc/");
    let page = MangaPage {
        chapters: Some(vec![
            Chapter { number: Some(42), timestamp: Some(1_543_476_046), title: some("Later") },
            Chapter { number: Some(41), timestamp: Some(1_543_389_646), title: some("A Spiritually Transmitted Cold") },
            Chapter { number: Some(40), timestamp: Some(1_500_000_000), title: some("Old") },
            Chapter { number: None, timestamp: Some(1_543_389_647), title: some("No number") },
            Chapter { number: Some(43), timestamp: Some(1_543_389_648), title: None },
            Chapter { number: Some(44), timestamp: None, title: some("No time") },
            Chapter { number: Some(45), timestamp: Some(i64::MAX), title: some("Beyond the calendar") },
        ]),
        url: some("https://www.mangaeden.com/en/en-manga/book"),
    };
    let since = Timestamp::new(1_543_000_000, 0);
    let updates = manga().check_for_updates(&since, Ok(page)).unwrap();
    assert_eq!(
        updates,
        vec![
            SourceUpdate {
                title: "Chapter 41 - A Spiritually Transmitted Cold".into(),
                link: "https://www.mangaeden.com/en/en-manga/book/41".into(),
                published_date: Timestamp::new(1_543_389_646, 0).unwrap(),
            },
            SourceUpdate {
                title: "Chapter 42 - Later".into(),
                link: "https://www.mangaeden.com/en/en-manga/book/42".into(),
                published_date: Timestamp::new(1_543_476_046, 0).unwrap(),
            },
        ]
    );
}

#[test]
fn manga_chapter_without_address_has_no_link() {
    let chapter = Chapter { number: Some(7), timestamp: Some(100), title: some("T") };
    assert_eq!(
        update_from_chapter(&chapter, &None, &None),
        Some(SourceUpdate {
            title: "Chapter 7 - T".into(),
            link: "<no link>".into(),
            published_date: Timestamp::new(100, 0).unwrap(),
        })
    );
    assert_eq!(update_from_chapter(&chapter, &None, &Timestamp::new(100, 0)), None);
}

#[test]
fn manga_page_that_fails_is_an_error_of_its_kind() {
    assert_eq!(
        manga().check_for_updates(&None, Ok(MangaPage { chapters: None, url: some("u") })),
        Err(CheckError {
            kind: ErrorKind::MissingField,
            message: "Could not find chapters in received JSON".into(),
        })
    );
    assert_eq!(
        manga().check_for_updates(&None, Err(FetchError::Unreachable("x".into()))),
        Err(CheckError {
            kind: ErrorKind::NetworkUnavailable,
            message: "Couldn't access https://www.mangaeden.com/api/manga/abc/".into(),
        })
    );
}

fn artist() -> BandcampArtist {
    BandcampArtist { name: "Band".to_string(), url: "https://band.bandcamp.com".to_string() }
}

fn album(name: Option<&str>, by: Option<&str>, date: Option<&str>) -> AlbumPage {
    AlbumPage {
        name: name.map(str::to_string),
        artist: by.map(str::to_string),
        date_published: date.map(str::to_string),
    }
}

#[test]
fn artist_page_gives_the_first_albums_of_its_grid() {
    let grid: Vec<Option<String>> = (0..12)
        .map(|i| if i == 3 { None } else { Some(format!("/album/{}", i)) })
        .collect();
    let page = ArtistPage { grid, discography: vec![some("/album/other")] };
    let links = artist().album_links(&page);
    let expected: Vec<String> = [0, 1, 2, 4, 5, 6, 7, 8, 9, 10]
        .iter()
        .map(|i| format!("https://band.bandcamp.com/album/{}", i))
        .collect();
    assert_eq!(links, expected);
}

#[test]
fn artist_page_without_grid_links_gives_its_discography() {
    let page = ArtistPage {
        grid: vec![None, None],
        discography: vec![some("/album/a"), None, some("/track/b")],
    };
    assert_eq!(
        artist().album_links(&page),
        vec!["https://band.bandcamp.com/album/a", "https://band.bandcamp.com/track/b"]
    );
    let empty = ArtistPage { grid: vec![], discography: vec![] };
    assert!(artist().album_links(&empty).is_empty());
}

#[test]
fn album_is_reported_under_its_trimmed_name_and_its_artist() {
    let published = day_of(2019, 4, 26);
    let page = Ok(album(Some("\n   Meat Machine EP \t\n"), Some("Band"), Some("20190426")));
    assert_eq!(
        outcome_of_album("https://l", &page, Some(published), &None),
        Ok(Some(SourceUpdate {
            title: "Meat Machine EP by Band".into(),
            link: "https://l".into(),
            published_date: published,
        }))
    );
    let bare = Ok(album(None, None, Some("20190426")));
    assert_eq!(
        outcome_of_album("https://l", &bare, Some(published), &Some(day_of(2019, 4, 25))),
        Ok(Some(SourceUpdate {
            title: "<no album name> by <no artist>".into(),
            link: "https://l".into(),
            published_date: published,
        }))
    );
    assert_eq!(outcome_of_album("https://l", &bare, Some(published), &Some(published)), Ok(None));
}

#[test]
fn album_that_fails_is_an_error_of_its_kind() {
    let page = Ok(album(Some("A"), Some("B"), None));
    assert_eq!(
        outcome_of_album("https://l", &page, None, &None),
        Err(CheckError {
            kind: ErrorKind::MissingField,
            message: "No published date on album at https://l".into(),
        })
    );
    assert_eq!(
        outcome_of_album("https://l", &Err(FetchError::Unreachable("refused".into())), None, &None),
        Err(CheckError {
            kind: ErrorKind::NetworkUnavailable,
            message: "Could not fetch album page: refused".into(),
        })
    );
    assert_eq!(
        outcome_of_album("https://l", &Err(FetchError::Unreadable("x".into())), None, &None),
        Err(CheckError {
            kind: ErrorKind::MalformedResponse,
            message: "No html found on album page".into(),
        })
    );
}

#[test]
fn album_date_is_midnight_of_the_day_in_local_time() {
    let local = chrono::NaiveDate::from_ymd_opt(2019, 4, 26)
        .unwrap()
        .and_hms_opt(0, 0, 0)
        .unwrap()
        .and_local_timezone(chrono::Local)
        .single()
        .unwrap();
    let date = album_date(&album(None, None, Some("20190426"))).unwrap();
    assert_eq!(date.secs(), local.timestamp());
    assert_eq!(date.nanos(), 0);
    assert!((date.secs() - day_of(2019, 4, 26).secs()).abs() < 86_400);
    assert_eq!(album_date(&album(None, None, None)), None);
    assert_eq!(album_date(&album(None, None, Some("April"))), None);
    assert_eq!(album_date(&album(None, None, Some("20190230"))), None);
    assert_eq!(album_date(&album(None, None, Some(""))), None);
}

#[test]
fn artist_reports_new_albums_in_order_of_publication() {
    let albums = vec![
        ("l2".to_string(), Ok(album(Some("Two"), Some("Band"), Some("20240302")))),
        ("l0".to_string(), Ok(album(Some("Old"), Some("Band"), Some("20230101")))),
        ("l1".to_string(), Ok(album(Some("One"), Some("Band"), Some("20240301")))),
    ];
    let updates = artist().check_for_updates(&Some(day_of(2024, 1, 1)), Ok(albums)).unwrap();
    let titles: Vec<&str> = updates.iter().map(|u| u.title.as_str()).collect();
    assert_eq!(titles, vec!["One by Band", "Two by Band"]);
    assert_eq!(updates[0].link, "l1");
    assert!(updates[0].published_date.is_before(&updates[1].published_date));
    assert_eq!(artist().check_for_updates(&None, Ok(Vec::new())), Ok(Vec::new()));
}

#[test]
fn artist_check_fails_with_the_first_album_that_fails() {
    let albums = vec![
        ("l1".to_string(), Ok(album(Some("One"), Some("Band"), Some("20240301")))),
        ("l2".to_string(), Ok(album(Some("Two"), Some("Band"), None))),
        ("l3".to_string(), Err(FetchError::Unreachable("refused".into()))),
    ];
    assert_eq!(
        artist().check_for_updates(&None, Ok(albums)),
        Err(CheckError {
            kind: ErrorKind::MissingField,
            message: "No published date on album at l2".into(),
        })
    );
}

#[test]
fn artist_page_that_fails_is_an_error_of_its_kind() {
    assert_eq!(
        artist().check_for_updates(&None, Err(FetchError::Unreachable("refused".into()))),
        Err(CheckError {
            kind: ErrorKind::NetworkUnavailable,
            message: "Could not fetch artist page: refused".into(),
        })
    );
    assert_eq!(
        artist().check_for_updates(&None, Err(FetchError::Unreadable("x".into()))),
        Err(CheckError {
            kind: ErrorKind::MalformedResponse,
            message: "No html found on artist page".into(),
        })
    );
}

#[test]
fn feed_is_summed_up_by_its_earliest_new_entry() {
    let items = vec![
        feed_item(Some("later"), Some("l2"), Some("Sat, 02 Mar 2024 00:00:00 GMT")),
        feed_item(Some("earlier"), Some("l1"), Some("Fri, 01 Mar 2024 00:00:00 GMT")),
    ];
    let released = chrono::DateTime::from_timestamp(day_of(2024, 3, 1).secs(), 0)
        .unwrap()
        .with_timezone(&chrono::Local)
        .format("%B %-e, %Y at %-l:%M %p")
        .to_string();
    let line = feed().check_for_update(&None, Ok(items), true).unwrap().unwrap();
    assert_eq!(
        sitch::text::plain_text(&line),
        format!(
            "There have been 2 updates, the earliest was \"earlier\" released on {}, found here: l1",
            released
        )
    );
    assert_eq!(line[1].tint, sitch::text::Tint::BrightBlue);
    assert_eq!(feed().check_for_update(&None, Ok(Vec::new()), true), Ok(None));
    assert_eq!(
        feed().check_for_update(&None, Err(FetchError::Unreachable("x".into())), true),
        Err(CheckError {
            kind: ErrorKind::NetworkUnavailable,
            message: "Couldn't load RSS feed from https://example.org/feed.xml: x".into(),
        })
    );
}

#[test]
fn channel_is_summed_up_by_its_earliest_video() {
    let videos = vec![
        Video { published_at: some("2024-03-02T00:00:00Z"), title: some("newer"), video_id: some("b") },
        Video { published_at: some("2024-03-01T00:00:00Z"), title: some("older"), video_id: some("a") },
        Video { published_at: some("2024-03-03T00:00:00Z"), title: some("newest"), video_id: some("c") },
    ];
    let line = channel().check_for_update("q", Ok(Some(videos)), false).unwrap().unwrap();
    let text = sitch::text::plain_text(&line);
    assert!(text.starts_with("There have been 3 updates, the earliest was \"older\" released on "));
    assert!(text.ends_with(", found here: https://www.youtube.com/watch?v=a"));
    assert_eq!(channel().check_for_update("q", Ok(Some(Vec::new())), false), Ok(None));
    assert_eq!(
        channel().check_for_update("q", Ok(None), false),
        Err(CheckError {
            kind: ErrorKind::MissingField,
            message: "YouTube API JSON data wasn't an object".into(),
        })
    );
    assert_eq!(SourceUpdate::summary(&Vec::new(), true), None);
}
