//! What the user asks for on the command line, and what that comes to.

use crate::sources::{Platform, Sources};
use crate::text::same_text;
use crate::time::{
    date_day, local_day, naive_instant, read_naive, representable, shown_at, zone_offset,
    Timestamp,
};
use vstd::prelude::*;

verus! {

/// What the user asks for.
#[derive(Debug, PartialEq, Eq)]
pub struct Args {
    /// The location of the file that holds what is followed, where it is
    /// not the usual one.
    pub config: Option<String>,
    /// The instant to check for updates from, in place of the checkpoint of
    /// the last run.
    pub since_time: Option<Timestamp>,
    /// Send the output as clickable notifications instead.
    pub notify: bool,
    /// Run in quiet mode, or simplify the output.
    pub quiet: bool,
    /// Only output the last time a run found an update.
    pub last_checked: bool,
    /// The optional subcommands for editing the source list.
    pub command: Option<Command>,
}

#[derive(Debug, PartialEq, Eq)]
pub enum Command {
    /// Manage your RSS feeds.
    Rss(RssCommand),
    /// Manage your Bandcamp artists.
    Bandcamp(BandcampCommand),
    /// Manage your YouTube channels.
    YouTube(YouTubeCommand),
    /// Manage the manga you follow.
    Manga(MangaCommand),
    /// Manage the anime you follow.
    Anime(AnimeCommand),
}

#[derive(Debug, PartialEq, Eq)]
pub enum RssCommand {
    /// Add an RSS feed, by your name for the feed and the URL of the feed.
    Add { name: Option<String>, feed: Option<String> },
    /// List your RSS feeds.
    List,
    /// Edit your current RSS feeds in your favorite editor.
    Edit,
}

#[derive(Debug, PartialEq, Eq)]
pub enum BandcampCommand {
    /// Add a Bandcamp artist, by your name for the artist and the URL of the
    /// artist's page.
    Add { name: Option<String>, url: Option<String> },
    /// List your Bandcamp artists.
    List,
    /// Edit your current Bandcamp artists in your favorite editor.
    Edit,
}

#[derive(Debug, PartialEq, Eq)]
pub enum YouTubeCommand {
    /// Add a YouTube channel, by its name and its channel ID.
    Add { name: Option<String>, channel_id: Option<String> },
    /// List your YouTube channels.
    List,
    /// Edit your current YouTube channels in your favorite editor.
    Edit,
    /// Interactively search for YouTube channels and add the one you want.
    Search,
    /// Manage the YouTube API key, without which no channel is checked.
    ApiKey(YouTubeApiCommand),
}

#[derive(Debug, PartialEq, Eq)]
pub enum YouTubeApiCommand {
    /// Set the API key.
    SetKey { new_key: String },
    /// Clear the existing key.
    Clear,
    /// Show your current key if it is set.
    Show,
}

#[derive(Debug, PartialEq, Eq)]
pub enum GmailCommand {
    /// Add a Gmail search filter.
    Add { filter: String },
    /// List your Gmail filters.
    List,
    /// Edit your current Gmail filters in your favorite editor.
    Edit,
    /// Manage the client ID, without which no filter is checked.
    ApiKey(GmailOauthCommand),
}

#[derive(Debug, PartialEq, Eq)]
pub enum GmailOauthCommand {
    /// Set the client ID from the file at the given location.
    SetId { location: Option<String> },
    /// Clear the existing client ID.
    Clear,
    /// Show your current client ID if it is set.
    Show,
}

#[derive(Debug, PartialEq, Eq)]
pub enum AnimeCommand {
    /// Add an anime, by its name and its id.
    Add { name: Option<String>, id: Option<String> },
    /// List the anime you follow.
    List,
    /// Edit your currently followed anime in your favorite editor.
    Edit,
    /// Interactively search for anime and add the one you want.
    Search,
}

#[derive(Debug, PartialEq, Eq)]
pub enum MangaCommand {
    /// Add a manga, by its name and its id.
    Add { name: Option<String>, id: Option<String> },
    /// List the manga you follow.
    List,
    /// Edit your currently followed manga in your favorite editor.
    Edit,
    /// Interactively search for manga and add the one you want.
    Search,
}

/// What a command asks for, whatever platform it is given to.
#[derive(Debug, PartialEq, Eq)]
pub enum Request {
    /// Add an item with the given name and what else describes it.
    Add { platform: Platform, name: Option<String>, detail: Option<String> },
    /// List the items.
    List(Platform),
    /// Edit the items in an editor.
    Edit(Platform),
    /// Search for an item to add.
    Search(Platform),
    /// Set the key of the YouTube platform.
    SetKey(String),
    /// Clear the key of the YouTube platform.
    ClearKey,
    /// Show the key of the YouTube platform.
    ShowKey,
}

/// What is to be done for the user.
#[derive(Debug, PartialEq, Eq)]
pub enum Action {
    /// Show the checkpoint of the last run that found an update, or that no
    /// run has found one, and do nothing else.
    ShowLastChecked(Option<Timestamp>),
    /// Check everything that is followed for updates, then save.
    Check { quiet: bool, notify: bool },
    /// Say this, where there is something to say, and save.
    Say(Option<String>),
    /// Let the user fill in what is missing of a new item, add it, and save.
    Compose { platform: Platform, name: Option<String>, detail: Option<String> },
    /// Show the items of the platform, and save.
    List(Platform),
    /// Let the user edit the items of the platform, and save.
    EditAll(Platform),
    /// Let the user search for an item of the platform, add it, and save.
    Search(Platform),
    /// Show the key, where there is one, and save.
    ShowKey(Option<String>),
}

/// What a text that stands for an instant names.
#[derive(Clone, Copy, Debug, PartialEq, Eq, Structural)]
pub enum NamedTime {
    /// The start of the current day.
    Today,
    /// The start of the day before the current one.
    Yesterday,
    /// The date and time that lies so many seconds and nanoseconds after the
    /// start of 1970 on the clocks of the machine's time zone.
    Local(i64, u32),
    /// No instant.
    Nothing,
}

impl Command {
    /// What the command asks for.
    pub open spec fn spec_request(self) -> Request {
        match self {
            Command::Rss(RssCommand::Add { name, feed }) => Request::Add {
                platform: Platform::Rss,
                name,
                detail: feed,
            },
            Command::Rss(RssCommand::List) => Request::List(Platform::Rss),
            Command::Rss(RssCommand::Edit) => Request::Edit(Platform::Rss),
            Command::Bandcamp(BandcampCommand::Add { name, url }) => Request::Add {
                platform: Platform::Bandcamp,
                name,
                detail: url,
            },
            Command::Bandcamp(BandcampCommand::List) => Request::List(Platform::Bandcamp),
            Command::Bandcamp(BandcampCommand::Edit) => Request::Edit(Platform::Bandcamp),
            Command::YouTube(YouTubeCommand::Add { name, channel_id }) => Request::Add {
                platform: Platform::YouTube,
                name,
                detail: channel_id,
            },
            Command::YouTube(YouTubeCommand::List) => Request::List(Platform::YouTube),
            Command::YouTube(YouTubeCommand::Edit) => Request::Edit(Platform::YouTube),
            Command::YouTube(YouTubeCommand::Search) => Request::Search(Platform::YouTube),
            Command::YouTube(YouTubeCommand::ApiKey(YouTubeApiCommand::SetKey { new_key })) => {
                Request::SetKey(new_key)
            },
            Command::YouTube(YouTubeCommand::ApiKey(YouTubeApiCommand::Clear)) => {
                Request::ClearKey
            },
            Command::YouTube(YouTubeCommand::ApiKey(YouTubeApiCommand::Show)) => Request::ShowKey,
            Command::Anime(AnimeCommand::Add { name, id }) => Request::Add {
                platform: Platform::Anime,
                name,
                detail: id,
            },
            Command::Anime(AnimeCommand::List) => Request::List(Platform::Anime),
            Command::Anime(AnimeCommand::Edit) => Request::Edit(Platform::Anime),
            Command::Anime(AnimeCommand::Search) => Request::Search(Platform::Anime),
            Command::Manga(MangaCommand::Add { name, id }) => Request::Add {
                platform: Platform::Manga,
                name,
                detail: id,
            },
            Command::Manga(MangaCommand::List) => Request::List(Platform::Manga),
            Command::Manga(MangaCommand::Edit) => Request::Edit(Platform::Manga),
            Command::Manga(MangaCommand::Search) => Request::Search(Platform::Manga),
        }
    }

    /// What the command asks for.
    pub fn request(self) -> (request: Request)
        ensures
            request == self.spec_request(),
    {
        match self {
            Command::Rss(RssCommand::Add { name, feed }) => Request::Add {
                platform: Platform::Rss,
                name,
                detail: feed,
            },
            Command::Rss(RssCommand::List) => Request::List(Platform::Rss),
            Command::Rss(RssCommand::Edit) => Request::Edit(Platform::Rss),
            Command::Bandcamp(BandcampCommand::Add { name, url }) => Request::Add {
                platform: Platform::Bandcamp,
                name,
                detail: url,
            },
            Command::Bandcamp(BandcampCommand::List) => Request::List(Platform::Bandcamp),
            Command::Bandcamp(BandcampCommand::Edit) => Request::Edit(Platform::Bandcamp),
            Command::YouTube(YouTubeCommand::Add { name, channel_id }) => Request::Add {
                platform: Platform::YouTube,
                name,
                detail: channel_id,
            },
            Command::YouTube(YouTubeCommand::List) => Request::List(Platform::YouTube),
            Command::YouTube(YouTubeCommand::Edit) => Request::Edit(Platform::YouTube),
            Command::YouTube(YouTubeCommand::Search) => Request::Search(Platform::YouTube),
            Command::YouTube(YouTubeCommand::ApiKey(YouTubeApiCommand::SetKey { new_key })) => {
                Request::SetKey(new_key)
            },
            Command::YouTube(YouTubeCommand::ApiKey(YouTubeApiCommand::Clear)) => {
                Request::ClearKey
            },
            Command::YouTube(YouTubeCommand::ApiKey(YouTubeApiCommand::Show)) => Request::ShowKey,
            Command::Anime(AnimeCommand::Add { name, id }) => Request::Add {
                platform: Platform::Anime,
                name,
                detail: id,
            },
            Command::Anime(AnimeCommand::List) => Request::List(Platform::Anime),
            Command::Anime(AnimeCommand::Edit) => Request::Edit(Platform::Anime),
            Command::Anime(AnimeCommand::Search) => Request::Search(Platform::Anime),
            Command::Manga(MangaCommand::Add { name, id }) => Request::Add {
                platform: Platform::Manga,
                name,
                detail: id,
            },
            Command::Manga(MangaCommand::List) => Request::List(Platform::Manga),
            Command::Manga(MangaCommand::Edit) => Request::Edit(Platform::Manga),
            Command::Manga(MangaCommand::Search) => Request::Search(Platform::Manga),
        }
    }
}

/// The pattern of a date on the command line, as in "3/ 5/2024".
pub open spec fn date_notation() -> Seq<char> {
    "%-m/%e/%Y"@
}

/// The pattern of a date and time on the command line, as in
/// "4:07 PM 3/ 5/2024".
pub open spec fn moment_notation() -> Seq<char> {
    "%-l:%M %p %-m/%e/%Y"@
}

/// What a text names, given the day and the date and time that it names
/// after the patterns of the command line: the words "today" and "yesterday"
/// come first, then a date, which stands for its first second, then a date
/// and time.
pub open spec fn named_by(text: Seq<char>, day: Option<i64>, moment: Option<(i64, u32)>) -> NamedTime {
    if text == "today"@ {
        NamedTime::Today
    } else if text == "yesterday"@ {
        NamedTime::Yesterday
    } else if day is Some {
        NamedTime::Local(day->0, 0)
    } else {
        match moment {
            Some((secs, nanos)) => NamedTime::Local(secs, nanos),
            None => NamedTime::Nothing,
        }
    }
}

/// What a text of the command line names.
pub open spec fn named_time(text: Seq<char>) -> NamedTime {
    named_by(
        text,
        match date_day(text, date_notation()) {
            Some(day) => Some(Timestamp::day_start(day) as i64),
            None => None,
        },
        naive_instant(text, moment_notation()),
    )
}

/// The words for a text that names no instant.
pub open spec fn unreadable_time() -> Seq<char> {
    "Could not parse the provided time. Make sure it is one of the allowed formats."@
}

/// The words for a time that the clocks of the machine's time zone never show.
pub open spec fn no_such_time() -> Seq<char> {
    "Couldn't find timezone"@
}

/// The instant that a named time comes to, given the instant at which the
/// current day began and the instant at which the clocks show the date and
/// time that is named, each where there is one.
pub open spec fn settled(named: NamedTime, today: Option<Timestamp>, shown: Option<Timestamp>) -> Result<
    Timestamp,
    Seq<char>,
> {
    match named {
        NamedTime::Today => match today {
            Some(start) => Ok(start),
            None => Err(no_such_time()),
        },
        NamedTime::Yesterday => match today {
            Some(start) => match start.spec_day_before() {
                Some(earlier) => Ok(earlier),
                None => Err(no_such_time()),
            },
            None => Err(no_such_time()),
        },
        NamedTime::Local(_, _) => match shown {
            Some(instant) => Ok(instant),
            None => Err(no_such_time()),
        },
        NamedTime::Nothing => Err(unreadable_time()),
    }
}

/// Whether `today` and `shown` can be, in some time zone, what a named time
/// is settled by: `today` the instant at which the clocks of the zone showed
/// the start of a day that holds an instant not before 1970, and `shown` an
/// instant at which they show the date and time that is named, which the
/// calendar can represent.
pub open spec fn in_zone(named: NamedTime, today: Option<Timestamp>, shown: Option<Timestamp>) -> bool {
    &&& today matches Some(start) ==> exists|now: int, offset: int|
        0 <= now && zone_offset(offset) && #[trigger] shown_at(local_day(now, offset), 0, start@)
    &&& shown matches Some(instant) ==> (named matches NamedTime::Local(secs, nanos)
        && representable(secs as int, nanos as int) && shown_at(
        secs as int,
        nanos as int,
        instant@,
    ))
}

/// What a text names, given the day and the date and time that it names
/// after the patterns of the command line.
pub fn name_time(date_str: &str, day: Option<i64>, moment: Option<(i64, u32)>) -> (named: NamedTime)
    ensures
        named == named_by(date_str@, day, moment),
{
    if same_text(date_str, "today") {
        NamedTime::Today
    } else if same_text(date_str, "yesterday") {
        NamedTime::Yesterday
    } else {
        match (day, moment) {
            (Some(start), _) => NamedTime::Local(start, 0),
            (None, Some((secs, nanos))) => NamedTime::Local(secs, nanos),
            (None, None) => NamedTime::Nothing,
        }
    }
}

/// The instant that a named time comes to, given the instant at which the
/// current day began and the instant at which the clocks show the date and
/// time that is named.
pub fn settle_time(named: NamedTime, today: Option<Timestamp>, shown: Option<Timestamp>) -> (instant:
    Result<Timestamp, String>)
    ensures
        match instant {
            Ok(time) => Ok(time),
            Err(words) => Err(words@),
        } == settled(named, today, shown),
{
    match named {
        NamedTime::Today => match today {
            Some(start) => Ok(start),
            None => Err("Couldn't find timezone".to_owned()),
        },
        NamedTime::Yesterday => match today {
            Some(start) => match start.day_before() {
                Some(earlier) => Ok(earlier),
                None => Err("Couldn't find timezone".to_owned()),
            },
            None => Err("Couldn't find timezone".to_owned()),
        },
        NamedTime::Local(_, _) => match shown {
            Some(instant) => Ok(instant),
            None => Err("Couldn't find timezone".to_owned()),
        },
        NamedTime::Nothing => Err(
            "Could not parse the provided time. Make sure it is one of the allowed formats.".to_owned(),
        ),
    }
}

/// Attempts to read the instant that the user wants to check from.
///
/// The possible formats are:
/// - The literal strings "today" or "yesterday"
/// - A date in the format "MM/DD/YYYY"
/// - A date and time in the format "HH:MM (AM|PM) MM/DD/YYYY"
///
/// What the text names is settled in the machine's time zone, and "today"
/// by the machine's clock, so the contract leaves open which instant that
/// is: it says what holds in every zone and at every time.
pub fn parse_arg_time(date_str: &str) -> (instant: Result<Timestamp, String>)
    ensures
        exists|today: Option<Timestamp>, shown: Option<Timestamp>|
            match instant {
                Ok(time) => Ok(time),
                Err(words) => Err(words@),
            } == #[trigger] settled(named_time(date_str@), today, shown) && in_zone(
                named_time(date_str@),
                today,
                shown,
            ),
{
    let day = Timestamp::parse_day(date_str, "%-m/%e/%Y");
    let moment = read_naive(date_str, "%-l:%M %p %-m/%e/%Y");
    let named = name_time(date_str, day, moment);
    let today = match named {
        NamedTime::Today => Timestamp::local_midnight(),
        NamedTime::Yesterday => Timestamp::local_midnight(),
        _ => None,
    };
    let shown = match named {
        NamedTime::Local(secs, nanos) => Timestamp::first_local(secs, nanos),
        _ => None,
    };
    let instant = settle_time(named, today, shown);
    instant
}

/// How an item came to be added.
#[derive(Clone, Copy, Debug, PartialEq, Eq, Structural)]
pub enum Added {
    /// The command named all of it.
    Directly,
    /// The user filled in what was missing.
    Composed,
    /// The user found it in a search.
    Found,
}

/// What is said once an item of a platform is added, where anything is: an
/// anime or a manga that the command named all of is added without a word.
pub open spec fn notice(platform: Platform, how: Added) -> Option<Seq<char>> {
    match (platform, how) {
        (Platform::Rss, _) => Some("Added a new RSS feed."@),
        (Platform::Bandcamp, _) => Some("Added a new Bandcamp artist."@),
        (Platform::YouTube, Added::Found) => Some("Added a new channel."@),
        (Platform::YouTube, _) => Some("Added a new YouTube channel."@),
        (Platform::Anime, Added::Directly) => None,
        (Platform::Anime, _) => Some("Added a new anime."@),
        (Platform::Manga, Added::Directly) => None,
        (Platform::Manga, _) => Some("Added a new manga."@),
    }
}

/// What is said once an item of a platform is added, where anything is.
pub fn added_notice(platform: Platform, how: Added) -> (said: Option<String>)
    ensures
        match said {
            Some(words) => Some(words@),
            None => None,
        } == notice(platform, how),
{
    match (platform, how) {
        (Platform::Rss, _) => Some("Added a new RSS feed.".to_owned()),
        (Platform::Bandcamp, _) => Some("Added a new Bandcamp artist.".to_owned()),
        (Platform::YouTube, Added::Found) => Some("Added a new channel.".to_owned()),
        (Platform::YouTube, _) => Some("Added a new YouTube channel.".to_owned()),
        (Platform::Anime, Added::Directly) => None,
        (Platform::Anime, _) => Some("Added a new anime.".to_owned()),
        (Platform::Manga, Added::Directly) => None,
        (Platform::Manga, _) => Some("Added a new manga.".to_owned()),
    }
}

/// Whether doing what `request` asks for on `before` gives `after` and
/// leaves `action` to be done: a request to add an item that names all of
/// it is done at once, and so is one to set or clear the key; any other
/// leaves what is followed as it is.
pub open spec fn requested(before: Sources, request: Request, after: Sources, action: Action) -> bool {
    match request {
        Request::Add { platform, name: Some(name), detail: Some(detail) } => {
            &&& before.with_item(platform, name, detail, after)
            &&& action matches Action::Say(said)
            &&& match said {
                Some(words) => Some(words@),
                None => None,
            } == notice(platform, Added::Directly)
        },
        Request::Add { platform, name, detail } => {
            &&& after == before
            &&& action == (Action::Compose { platform, name, detail })
        },
        Request::List(platform) => after == before && action == Action::List(platform),
        Request::Edit(platform) => after == before && action == Action::EditAll(platform),
        Request::Search(platform) => after == before && action == Action::Search(platform),
        Request::SetKey(key) => {
            &&& after == before.with_key(Some(key))
            &&& action == Action::Say(None)
        },
        Request::ClearKey => {
            &&& after == before.with_key(None)
            &&& action == Action::Say(None)
        },
        Request::ShowKey => after == before && action == Action::ShowKey(before.youtube.api_key),
    }
}

/// Whether a start with `args` on `before` gives `after` and leaves `action`
/// to be done. Asked only for the checkpoint of the last run, it shows that
/// and changes nothing. Else the run takes its checkpoint from `args` where
/// they name one, and then does what the command asks for, or checks for
/// updates where there is no command.
pub open spec fn begun(before: Sources, args: Args, after: Sources, action: Action) -> bool {
    if args.last_checked {
        after == before && action == Action::ShowLastChecked(before.last_checked)
    } else {
        let ready = before.since(args.since_time);
        match args.command {
            Some(command) => requested(ready, command.spec_request(), after, action),
            None => after == ready && action == (Action::Check {
                quiet: args.quiet,
                notify: args.notify,
            }),
        }
    }
}

/// Does what `request` asks for, as far as that can be done at once, and
/// says what is left to be done.
pub fn perform(sources: &mut Sources, request: Request) -> (action: Action)
    ensures
        requested(*old(sources), request, *final(sources), action),
{
    match request {
        Request::Add { platform, name: Some(name), detail: Some(detail) } => {
            sources.add(platform, name, detail);
            Action::Say(added_notice(platform, Added::Directly))
        },
        Request::Add { platform, name, detail } => Action::Compose { platform, name, detail },
        Request::List(platform) => Action::List(platform),
        Request::Edit(platform) => Action::EditAll(platform),
        Request::Search(platform) => Action::Search(platform),
        Request::SetKey(key) => {
            sources.youtube.api_key = Some(key);
            Action::Say(None)
        },
        Request::ClearKey => {
            sources.youtube.api_key = None;
            Action::Say(None)
        },
        Request::ShowKey => {
            let key = match &sources.youtube.api_key {
                Some(key) => Some(key.clone()),
                None => None,
            };
            Action::ShowKey(key)
        },
    }
}

/// Starts on what the user asks for: does what can be done at once, and
/// says what is left to be done.
pub fn begin(sources: &mut Sources, args: Args) -> (action: Action)
    ensures
        begun(*old(sources), args, *final(sources), action),
{
    if args.last_checked {
        return Action::ShowLastChecked(sources.last_checked);
    }
    sources.override_checkpoint(args.since_time);
    match args.command {
        Some(command) => perform(sources, command.request()),
        None => Action::Check { quiet: args.quiet, notify: args.notify },
    }
}

} // verus!
