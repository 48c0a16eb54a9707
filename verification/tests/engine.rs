use sitch::report::{aggregate, mode, Event, Mode};
use sitch::run::{Occurrence, Phase, Run};
use sitch::sources::anime::{Anime, AnimeList};
use sitch::sources::bandcamp::{BandcampArtist, BandcampArtists};
use sitch::sources::manga::{Manga, MangaList};
use sitch::sources::rss::{RssSource, RssSources};
use sitch::sources::youtube::{YouTubeChannel, YouTubeChannels};
use sitch::sources::{
    CheckError, CheckForUpdates, CheckResult, Checked, ErrorKind, Outcomes, Sources,
};
use sitch::time::Timestamp;
use sitch::update::SourceUpdate;

fn date(year: i32, month: u32, day: u32) -> Timestamp {
    let secs = chrono::NaiveDate::from_ymd_opt(year, month, day)
        .unwrap()
        .and_hms_opt(0, 0, 0)
        .unwrap()
        .and_utc()
        .timestamp();
    Timestamp::new(secs, 0).unwrap()
}

fn news(title: &str, published_date: Timestamp) -> SourceUpdate {
    SourceUpdate { title: title.to_string(), link: format!("https://{}", title), published_date }
}

fn with_updates(updates: Vec<SourceUpdate>, checked_at: Timestamp, seconds: u64) -> Checked {
    Checked { result: Ok(updates), checked_at, seconds }
}

fn unreachable(checked_at: Timestamp) -> Checked {
    Checked {
        result: Err(CheckError { kind: ErrorKind::NetworkUnavailable, message: "down".to_string() }),
        checked_at,
        seconds: 3,
    }
}

fn rss_item(name: &str, checkpoint: Option<Timestamp>) -> (RssSource, Option<Timestamp>) {
    (RssSource { name: name.to_string(), feed: format!("https://{}/feed", name) }, checkpoint)
}

fn channel_item(name: &str, checkpoint: Option<Timestamp>) -> (YouTubeChannel, Option<Timestamp>) {
    (YouTubeChannel { name: name.to_string(), channel_id: format!("UC{}", name) }, checkpoint)
}

fn followed(api_key: Option<&str>) -> Sources {
    Sources {
        last_checked: Some(date(2024, 1, 10)),
        rss: RssSources(vec![rss_item("a", Some(date(2024, 1, 5))), rss_item("b", None)]),
        youtube: YouTubeChannels {
            api_key: api_key.map(str::to_string),
            channels: vec![channel_item("c", Some(date(2024, 1, 20)))],
        },
        anime: AnimeList(vec![(Anime { name: "d".into(), id: "1".into() }, None)]),
        manga: MangaList(vec![(Manga { name: "e".into(), id: "2".into() }, None)]),
        bandcamp: BandcampArtists(vec![(
            BandcampArtist { name: "f".into(), url: "https://f".into() },
            Some(date(2024, 1, 1)),
        )]),
    }
}

fn nothing_found(at: Timestamp) -> Outcomes {
    Outcomes {
        rss: vec![with_updates(vec![], at, 0), with_updates(vec![], at, 0)],
        youtube: vec![with_updates(vec![], at, 0)],
        anime: vec![with_updates(vec![], at, 0)],
        manga: vec![with_updates(vec![], at, 0)],
        bandcamp: vec![with_updates(vec![], at, 0)],
    }
}

#[test]
fn platform_names_are_those_shown_to_the_user() {
    let sources = followed(Some("key"));
    assert_eq!(sources.rss.platform_name(), "RSS");
    assert_eq!(sources.youtube.platform_name(), "YouTube");
    assert_eq!(sources.anime.platform_name(), "Anime");
    assert_eq!(sources.manga.platform_name(), "Manga");
    assert_eq!(sources.bandcamp.platform_name(), "Bandcamp");
}

#[test]
fn plan_holds_the_effective_checkpoint_of_every_item() {
    let sources = followed(Some("key"));
    let plan = sources.plan();
    assert_eq!(plan.rss, vec![Some(date(2024, 1, 5)), Some(date(2024, 1, 10))]);
    assert_eq!(plan.youtube, vec![Some(date(2024, 1, 10))]);
    assert_eq!(plan.anime, vec![Some(date(2024, 1, 10))]);
    assert_eq!(plan.manga, vec![Some(date(2024, 1, 10))]);
    assert_eq!(plan.bandcamp, vec![Some(date(2024, 1, 1))]);
    assert_eq!(sources.rss.plan(&None), vec![Some(date(2024, 1, 5)), None]);
}

#[test]
fn platform_without_credential_has_no_check_and_no_result() {
    let mut sources = followed(None);
    assert!(sources.youtube.plan(&sources.last_checked).is_empty());
    let at = date(2024, 2, 1);
    let results = sources.youtube.check_for_all_updates(
        &Some(date(2024, 1, 10)),
        vec![with_updates(vec![news("v", date(2024, 1, 30))], at, 1)],
    );
    assert!(results.is_empty());
    assert_eq!(sources.youtube.channels, vec![channel_item("c", Some(date(2024, 1, 20)))]);

    let report = sources.check_for_updates(false, false, nothing_found(at), at);
    assert!(report.events.iter().all(|event| !matches!(event, Event::Failed { .. })));
    assert_eq!(report.events, vec![Event::NoUpdates]);
    assert_eq!(sources.youtube.channels, vec![channel_item("c", Some(date(2024, 1, 20)))]);
}

#[test]
fn outcomes_are_recorded_item_by_item() {
    let mut feeds = RssSources(vec![
        rss_item("found", Some(date(2024, 1, 5))),
        rss_item("fresh", None),
        rss_item("kept", Some(date(2024, 1, 7))),
        rss_item("failed", None),
        rss_item("left out", None),
    ]);
    let global = Some(date(2024, 2, 1));
    let update = news("n", date(2024, 2, 10));
    let results = feeds.check_for_all_updates(
        &global,
        vec![
            with_updates(vec![update.clone()], date(2024, 2, 20), 1),
            with_updates(vec![], date(2024, 2, 21), 2),
            with_updates(vec![], date(2024, 2, 22), 3),
            unreachable(date(2024, 2, 23)),
        ],
    );
    let checkpoints: Vec<Option<Timestamp>> = feeds.0.iter().map(|item| item.1).collect();
    assert_eq!(
        checkpoints,
        vec![Some(date(2024, 2, 20)), global, Some(date(2024, 1, 7)), global, None]
    );
    assert_eq!(
        results,
        vec![
            CheckResult { platform: "RSS".into(), source: "found".into(), result: Ok(vec![update]), seconds: 1 },
            CheckResult { platform: "RSS".into(), source: "fresh".into(), result: Ok(vec![]), seconds: 2 },
            CheckResult { platform: "RSS".into(), source: "kept".into(), result: Ok(vec![]), seconds: 3 },
            CheckResult {
                platform: "RSS".into(),
                source: "failed".into(),
                result: Err(CheckError { kind: ErrorKind::NetworkUnavailable, message: "down".into() }),
                seconds: 3,
            },
        ]
    );
    assert_eq!(feeds.0[4].0.name, "left out");
}

#[test]
fn checkpoint_moves_to_the_time_of_the_check_not_of_the_update() {
    let mut feeds = RssSources(vec![rss_item("a", None)]);
    let published = date(2024, 2, 10);
    let checked_at = date(2024, 2, 20);
    feeds.check_for_all_updates(&None, vec![with_updates(vec![news("n", published)], checked_at, 0)]);
    assert_eq!(feeds.0[0].1, Some(checked_at));
}

#[test]
fn outcomes_beyond_the_items_are_passed_over() {
    let mut feeds = RssSources(vec![rss_item("a", None)]);
    let at = date(2024, 2, 20);
    let results = feeds.check_for_all_updates(
        &None,
        vec![with_updates(vec![], at, 0), with_updates(vec![news("n", at)], at, 0)],
    );
    assert_eq!(results.len(), 1);
    assert_eq!(feeds.0, vec![rss_item("a", None)]);
}

#[test]
fn failure_of_one_item_leaves_the_others_their_updates() {
    let mut sources = followed(Some("key"));
    let at = date(2024, 2, 20);
    let first = news("from-b", date(2024, 2, 1));
    let second = news("from-f", date(2024, 2, 2));
    let outcomes = Outcomes {
        rss: vec![unreachable(at), with_updates(vec![first.clone()], at, 1)],
        youtube: vec![unreachable(at)],
        anime: vec![with_updates(vec![], at, 0)],
        manga: vec![unreachable(at)],
        bandcamp: vec![with_updates(vec![second.clone()], at, 2)],
    };
    let report = sources.check_for_updates(false, false, outcomes, at);
    let found: Vec<(&str, &str, &SourceUpdate)> = report
        .events
        .iter()
        .filter_map(|event| match event {
            Event::Found { platform, source, earliest, .. } => {
                Some((platform.as_str(), source.as_str(), earliest))
            }
            _ => None,
        })
        .collect();
    assert_eq!(found, vec![("RSS", "b", &first), ("Bandcamp", "f", &second)]);
    let failed: Vec<(&str, &str)> = report
        .events
        .iter()
        .filter_map(|event| match event {
            Event::Failed { platform, source, .. } => Some((platform.as_str(), source.as_str())),
            _ => None,
        })
        .collect();
    assert_eq!(failed, vec![("RSS", "a"), ("YouTube", "c"), ("Manga", "e")]);
    assert_eq!(sources.rss.0[0].1, Some(date(2024, 1, 5)));
    assert_eq!(sources.rss.0[1].1, Some(at));
    assert_eq!(sources.bandcamp.0[0].1, Some(at));
    assert_eq!(sources.manga.0[0].1, Some(date(2024, 1, 10)));
}

#[test]
fn run_without_update_leaves_the_checkpoint_and_says_so() {
    let mut sources = followed(Some("key"));
    let at = date(2024, 2, 20);
    let report = sources.check_for_updates(false, false, nothing_found(at), at);
    assert_eq!(sources.last_checked, Some(date(2024, 1, 10)));
    assert!(!report.update_occurred);
    assert_eq!(report.events, vec![Event::NoUpdates]);
    assert_eq!(report.mode, Mode::Verbose);
}

#[test]
fn run_with_one_update_moves_the_checkpoint_to_the_time_of_the_run() {
    let mut sources = followed(Some("key"));
    let at = date(2024, 2, 20);
    let now = date(2024, 2, 21);
    let mut outcomes = nothing_found(at);
    outcomes.manga = vec![with_updates(vec![news("chapter", date(2024, 2, 1))], at, 4)];
    let report = sources.check_for_updates(false, false, outcomes, now);
    assert_eq!(sources.last_checked, Some(now));
    assert!(report.update_occurred);
    assert_eq!(
        report.events,
        vec![
            Event::Heading(Some(date(2024, 1, 10))),
            Event::Found {
                platform: "Manga".into(),
                source: "e".into(),
                count: 1,
                earliest: news("chapter", date(2024, 2, 1)),
                seconds: 4,
            },
        ]
    );
    assert_eq!(sources.manga.0[0].1, Some(at));
}

#[test]
fn quiet_run_tells_of_updates_only() {
    let mut sources = followed(Some("key"));
    let at = date(2024, 2, 20);
    let mut outcomes = nothing_found(at);
    outcomes.rss = vec![unreachable(at), with_updates(vec![news("n", at), news("m", at)], at, 1)];
    let report = sources.check_for_updates(true, false, outcomes, at);
    assert_eq!(report.mode, Mode::Quiet);
    assert_eq!(
        report.events,
        vec![Event::Found {
            platform: "RSS".into(),
            source: "b".into(),
            count: 2,
            earliest: news("n", at),
            seconds: 1,
        }]
    );
    let mut silent = followed(Some("key"));
    let report = silent.check_for_updates(true, false, nothing_found(at), at);
    assert!(report.events.is_empty());
    assert!(!report.update_occurred);
    assert_eq!(silent.last_checked, Some(date(2024, 1, 10)));
}

#[test]
fn verbose_run_tells_of_failures_at_the_end() {
    let at = date(2024, 2, 20);
    let failure = CheckError { kind: ErrorKind::MissingField, message: "no date".into() };
    let results = vec![
        CheckResult { platform: "RSS".into(), source: "a".into(), result: Err(failure.clone()), seconds: 1 },
        CheckResult { platform: "RSS".into(), source: "b".into(), result: Ok(vec![news("n", at)]), seconds: 2 },
        CheckResult { platform: "Anime".into(), source: "c".into(), result: Ok(vec![]), seconds: 3 },
        CheckResult { platform: "Manga".into(), source: "d".into(), result: Ok(vec![news("m", at)]), seconds: 4 },
    ];
    let report = aggregate(&results, &None, Mode::Verbose);
    assert_eq!(
        report.events,
        vec![
            Event::Heading(None),
            Event::Found { platform: "RSS".into(), source: "b".into(), count: 1, earliest: news("n", at), seconds: 2 },
            Event::Found { platform: "Manga".into(), source: "d".into(), count: 1, earliest: news("m", at), seconds: 4 },
            Event::ErrorsHeading,
            Event::Failed { platform: "RSS".into(), source: "a".into(), error: failure.clone(), seconds: 1 },
        ]
    );
    assert_eq!(report.notifications(), 0);
    let mut results = results;
    results.truncate(1);
    let only_failure = aggregate(&results, &None, Mode::Verbose);
    assert_eq!(
        only_failure.events,
        vec![
            Event::NoUpdates,
            Event::ErrorsHeading,
            Event::Failed { platform: "RSS".into(), source: "a".into(), error: failure, seconds: 1 },
        ]
    );
    assert!(aggregate(&Vec::new(), &None, Mode::Notify).events.is_empty());
}

#[test]
fn notifying_run_waits_for_a_notification_for_each_item_with_updates() {
    let mut sources = followed(Some("key"));
    let at = date(2024, 2, 20);
    let mut outcomes = nothing_found(at);
    outcomes.rss = vec![with_updates(vec![news("r", at)], at, 0), unreachable(at)];
    outcomes.youtube = vec![with_updates(vec![news("y", at), news("z", at)], at, 0)];
    outcomes.bandcamp = vec![with_updates(vec![news("b", at)], at, 0)];
    let report = sources.check_for_updates(true, true, outcomes, at);
    assert_eq!(report.mode, Mode::Notify);
    assert_eq!(report.notifications(), 3);
    let kinds: Vec<&str> = report
        .events
        .iter()
        .map(|event| match event {
            Event::Found { .. } => "found",
            Event::Failed { .. } => "failed",
            _ => "other",
        })
        .collect();
    assert_eq!(kinds, vec!["found", "failed", "found", "found"]);

    let mut run = Run::new();
    assert!(run.record(Occurrence::Started));
    assert!(run.record(Occurrence::Collected));
    assert!(run.record(Occurrence::Aggregated { notifications: report.notifications() }));
    for answered in 0..3 {
        assert_eq!(run.phase(), Phase::NotifyingAndWaiting);
        assert_eq!(run.outstanding(), 3 - answered);
        assert!(!run.record(Occurrence::Recorded));
        assert!(!run.is_done());
        assert!(run.record(Occurrence::Acknowledged));
    }
    assert_eq!(run.phase(), Phase::CheckpointAdvance);
    assert_eq!(run.outstanding(), 0);
    assert!(!run.record(Occurrence::Acknowledged));
    assert!(run.record(Occurrence::Recorded));
    assert!(run.is_done());
}

#[test]
fn run_without_notifications_goes_on_at_once() {
    let mut run = Run::new();
    assert_eq!(run.phase(), Phase::Idle);
    assert!(!run.record(Occurrence::Collected));
    assert!(!run.record(Occurrence::Aggregated { notifications: 2 }));
    assert_eq!(run.phase(), Phase::Idle);
    assert!(run.record(Occurrence::Started));
    assert!(!run.record(Occurrence::Started));
    assert_eq!(run.phase(), Phase::FanOut);
    assert!(run.record(Occurrence::Collected));
    assert_eq!(run.phase(), Phase::Aggregating);
    assert!(run.record(Occurrence::Aggregated { notifications: 0 }));
    assert_eq!(run.phase(), Phase::CheckpointAdvance);
    assert!(run.record(Occurrence::Recorded));
    assert_eq!(run.phase(), Phase::Done);
    assert!(!run.record(Occurrence::Started));
    assert!(run.is_done());
}

#[test]
fn to_notify_overrides_to_be_quiet() {
    assert_eq!(mode(false, false), Mode::Verbose);
    assert_eq!(mode(true, false), Mode::Quiet);
    assert_eq!(mode(false, true), Mode::Notify);
    assert_eq!(mode(true, true), Mode::Notify);
}
