//! The Bandcamp platform for update checking.

use crate::sources::{
    entries_of, is_new, owned_or, plan_items, published_after, record_items, result_view,
    text_or, CheckError, CheckForUpdates, CheckResult, Checked, ErrorKind, FetchError, Named,
};
use crate::text::{texts, trim, trimmed};
use crate::time::{naive_instant, representable, shown_at, Timestamp};
use crate::update::{
    ascending, sort_by_date, sorted_by_date, update_views, SourceUpdate, UpdateView,
};
use vstd::prelude::*;
use vstd::string::StringExecFns;

verus! {

/// The most albums of an artist that one check looks at.
pub const ALBUMS_PER_CHECK: usize = 10;

/// A Bandcamp artist struct.
#[derive(Debug, PartialEq, Eq)]
pub struct BandcampArtist {
    pub name: String,
    pub url: String,
}

/// The Bandcamp artists that are followed, each with its checkpoint.
#[derive(Debug, PartialEq, Eq)]
pub struct BandcampArtists(pub Vec<(BandcampArtist, Option<Timestamp>)>);

/// The page of an artist, as far as a check reads it: for each album of its
/// grid, and for each title of its discography, where that one links to.
#[derive(Debug, PartialEq, Eq)]
pub struct ArtistPage {
    pub grid: Vec<Option<String>>,
    pub discography: Vec<Option<String>>,
}

/// The page of an album, as far as a check reads it.
#[derive(Debug, PartialEq, Eq)]
pub struct AlbumPage {
    pub name: Option<String>,
    pub artist: Option<String>,
    pub date_published: Option<String>,
}

impl Named for BandcampArtist {
    open spec fn label(&self) -> Seq<char> {
        self.name@
    }

    open spec fn handle(&self) -> Seq<char> {
        self.url@
    }

    fn name(&self) -> (name: String) {
        self.name.clone()
    }

    fn detail(&self) -> (detail: String) {
        self.url.clone()
    }
}

impl CheckForUpdates for BandcampArtists {
    open spec fn entries(&self) -> Seq<(Seq<char>, Option<Timestamp>)> {
        entries_of(self.0@)
    }

    open spec fn ready(&self) -> bool {
        true
    }

    open spec fn platform(&self) -> Seq<char> {
        "Bandcamp"@
    }

    fn platform_name(&self) -> (name: &'static str) {
        "Bandcamp"
    }

    fn plan(&self, last_checked: &Option<Timestamp>) -> (since: Vec<Option<Timestamp>>) {
        plan_items(&self.0, last_checked)
    }

    fn check_for_all_updates(&mut self, last_checked: &Option<Timestamp>, outcomes: Vec<Checked>) -> (results: Vec<CheckResult>)
        ensures
            final(self).0@.len() == old(self).0@.len(),
            forall|i: int| 0 <= i < old(self).0@.len() ==> final(self).0@[i].0 == old(self).0@[i].0,
    {
        record_items(&mut self.0, "Bandcamp", last_checked, outcomes)
    }
}

/// The addresses that a list of links stands for on the page at `base`: each
/// link that is present, behind the address of the page.
pub open spec fn linked(base: Seq<char>, links: Seq<Option<String>>) -> Seq<Seq<char>>
    decreases links.len(),
{
    if links.len() == 0 {
        Seq::empty()
    } else {
        let earlier = linked(base, links.drop_last());
        match links.last() {
            Some(link) => earlier.push(base + link@),
            None => earlier,
        }
    }
}

/// The first addresses of a list, as many as one check looks at.
pub open spec fn first_few(addresses: Seq<Seq<char>>) -> Seq<Seq<char>> {
    if addresses.len() > ALBUMS_PER_CHECK {
        addresses.take(ALBUMS_PER_CHECK as int)
    } else {
        addresses
    }
}

/// The addresses of the albums that a check of an artist looks at: the first
/// of the grid, or where the grid links to none, the first of the discography.
pub open spec fn album_addresses(base: Seq<char>, page: ArtistPage) -> Seq<Seq<char>> {
    if linked(base, page.grid@).len() == 0 {
        first_few(linked(base, page.discography@))
    } else {
        first_few(linked(base, page.grid@))
    }
}

/// The failure of a check that could not read the page of the artist.
pub open spec fn artist_failure(failure: FetchError) -> (ErrorKind, Seq<char>) {
    match failure {
        FetchError::Unreachable(detail) => (
            ErrorKind::NetworkUnavailable,
            "Could not fetch artist page: "@ + detail@,
        ),
        FetchError::Unreadable(_) => (
            ErrorKind::MalformedResponse,
            "No html found on artist page"@,
        ),
    }
}

/// The title under which an album is reported.
pub open spec fn album_title(page: AlbumPage) -> Seq<char> {
    (match page.name {
        Some(name) => trimmed(name@),
        None => "<no album name>"@,
    }) + " by "@ + text_or(page.artist, "<no artist>"@)
}

/// What the page of the album at `link` gives a check from `since`, given the
/// instant that its date of publication denotes: the update it stands for,
/// none where it is not new, or the failure to read the page or its date.
pub open spec fn album_outcome(
    link: Seq<char>,
    fetched: Result<AlbumPage, FetchError>,
    published: Option<Timestamp>,
    since: Option<Timestamp>,
) -> Result<Option<UpdateView>, (ErrorKind, Seq<char>)> {
    match fetched {
        Err(FetchError::Unreachable(detail)) => Err(
            (ErrorKind::NetworkUnavailable, "Could not fetch album page: "@ + detail@),
        ),
        Err(FetchError::Unreadable(_)) => Err(
            (ErrorKind::MalformedResponse, "No html found on album page"@),
        ),
        Ok(page) => match published {
            None => Err((ErrorKind::MissingField, "No published date on album at "@ + link)),
            Some(date) => Ok(
                if is_new(since, date) {
                    Some(UpdateView { title: album_title(page), link, published_date: date })
                } else {
                    None
                },
            ),
        },
    }
}

/// What the pages of the albums give a check from `since`, given for each
/// album the instant that its date of publication denotes: the updates they
/// stand for, in the order of the albums, or the failure of the first album
/// that has one.
pub open spec fn albums_outcome(
    albums: Seq<(String, Result<AlbumPage, FetchError>)>,
    dates: Seq<Option<Timestamp>>,
    since: Option<Timestamp>,
) -> Result<Seq<UpdateView>, (ErrorKind, Seq<char>)>
    decreases albums.len(),
{
    if albums.len() == 0 {
        Ok(Seq::empty())
    } else {
        match albums_outcome(albums.drop_last(), dates.drop_last(), since) {
            Err(error) => Err(error),
            Ok(earlier) => match album_outcome(
                albums.last().0@,
                albums.last().1,
                dates.last(),
                since,
            ) {
                Err(error) => Err(error),
                Ok(Some(update)) => Ok(earlier.push(update)),
                Ok(None) => Ok(earlier),
            },
        }
    }
}

/// Whether the dates can be, in some time zone, those of the albums: an
/// album has one only where its page was read, and the date is then one
/// that this page can have.
pub open spec fn dates_of(
    albums: Seq<(String, Result<AlbumPage, FetchError>)>,
    dates: Seq<Option<Timestamp>>,
) -> bool {
    forall|i: int|
        0 <= i < albums.len() && i < dates.len() && (#[trigger] dates[i]) is Some ==> albums[i].1 is Ok
            && dated(albums[i].1->Ok_0, dates[i]->0)
}

/// The updates of a check in order of publication, or its failure.
pub open spec fn in_order(outcome: Result<Seq<UpdateView>, (ErrorKind, Seq<char>)>) -> Result<
    Seq<UpdateView>,
    (ErrorKind, Seq<char>),
> {
    match outcome {
        Ok(updates) => Ok(sorted_by_date(updates)),
        Err(error) => Err(error),
    }
}

/// What the page of the album at `link` gives a check from `last_checked`,
/// given the instant that its date of publication denotes.
pub fn outcome_of_album(
    link: &str,
    fetched: &Result<AlbumPage, FetchError>,
    published: Option<Timestamp>,
    last_checked: &Option<Timestamp>,
) -> (outcome: Result<Option<SourceUpdate>, CheckError>)
    ensures
        match outcome {
            Ok(Some(update)) => Ok(Some(update@)),
            Ok(None) => Ok(None),
            Err(error) => Err(error@),
        } == album_outcome(link@, *fetched, published, *last_checked),
{
    match fetched {
        Err(FetchError::Unreachable(detail)) => {
            let mut message = "Could not fetch album page: ".to_owned();
            message.append(detail.as_str());
            Err(CheckError { kind: ErrorKind::NetworkUnavailable, message })
        },
        Err(FetchError::Unreadable(_)) => Err(
            CheckError {
                kind: ErrorKind::MalformedResponse,
                message: "No html found on album page".to_owned(),
            },
        ),
        Ok(page) => match published {
            None => {
                let mut message = "No published date on album at ".to_owned();
                message.append(link);
                Err(CheckError { kind: ErrorKind::MissingField, message })
            },
            Some(date) => {
                if published_after(last_checked, &date) {
                    let mut title = match &page.name {
                        Some(name) => trim(name.as_str()),
                        None => "<no album name>".to_owned(),
                    };
                    title.append(" by ");
                    title.append(owned_or(&page.artist, "<no artist>").as_str());
                    Ok(Some(SourceUpdate { title, link: link.to_owned(), published_date: date }))
                } else {
                    Ok(None)
                }
            },
        },
    }
}

/// The date and time that the page of an album gives for its publication:
/// the start of the day that it names by year, month and day, as seconds
/// since the start of 1970 and nanoseconds.
pub open spec fn album_day(page: AlbumPage) -> Option<(i64, u32)> {
    match page.date_published {
        Some(day) => naive_instant(day@ + "00:00:00"@, "%Y%m%d%T"@),
        None => None,
    }
}

/// Whether `date` can be, in some time zone, the instant that the date of
/// publication of an album denotes: the page names a day that the calendar
/// can represent, and `date` is an instant at which the clocks of the zone
/// show the start of that day.
pub open spec fn dated(page: AlbumPage, date: Timestamp) -> bool {
    album_day(page) matches Some(given) && representable(given.0 as int, given.1 as int)
        && shown_at(given.0 as int, given.1 as int, date@)
}

/// The instant that the date of publication of an album denotes: the
/// instant at which the clocks of the machine's time zone showed the start of
/// that day. There is one only where the page names a day that the calendar
/// can represent; which instant it is depends on the zone, and in every zone
/// it lies less than a day from where Greenwich has the start of that day.
pub fn album_date(page: &AlbumPage) -> (published: Option<Timestamp>)
    ensures
        page.date_published is None ==> published is None,
        published matches Some(instant) ==> dated(*page, instant),
{
    match &page.date_published {
        Some(day) => {
            let mut text = day.clone();
            text.append("00:00:00");
            Timestamp::parse_local(text.as_str(), "%Y%m%d%T")
        },
        None => None,
    }
}

impl BandcampArtist {
    /// The addresses of the albums that a check of this artist looks at,
    /// given the page of the artist.
    pub fn album_links(&self, page: &ArtistPage) -> (links: Vec<String>)
        ensures
            texts(links@) == album_addresses(self.url@, *page),
    {
        let mut links = self.present_links(&page.grid);
        if links.len() == 0 {
            links = self.present_links(&page.discography);
        }
        if links.len() > ALBUMS_PER_CHECK {
            links.truncate(ALBUMS_PER_CHECK);
        }
        links
    }

    fn present_links(&self, hrefs: &Vec<Option<String>>) -> (links: Vec<String>)
        ensures
            texts(links@) == linked(self.url@, hrefs@),
    {
        let mut links: Vec<String> = Vec::new();
        let mut i: usize = 0;
        while i < hrefs.len()
            invariant
                i <= hrefs.len(),
                texts(links@) == linked(self.url@, hrefs@.take(i as int)),
            decreases hrefs.len() - i,
        {
            proof {
                assert(hrefs@.take(i + 1).drop_last() =~= hrefs@.take(i as int));
            }
            match &hrefs[i] {
                Some(href) => {
                    let mut link = self.url.clone();
                    link.append(href.as_str());
                    links.push(link);
                },
                None => {},
            }
            i += 1;
        }
        proof {
            assert(hrefs@.take(i as int) =~= hrefs@);
        }
        links
    }

    /// Checks the artist for updates since `last_checked`, given what reading
    /// the pages gave: for each album that was looked at, its address and its
    /// page. The result holds the albums that were published after the
    /// checkpoint, in order of publication, or the failure of the first page
    /// that has one. The dates of the albums are read in the machine's time
    /// zone, so the contract leaves the instants open, and says what holds of
    /// them in every zone.
    pub fn check_for_updates(
        &self,
        last_checked: &Option<Timestamp>,
        response: Result<Vec<(String, Result<AlbumPage, FetchError>)>, FetchError>,
    ) -> (result: Result<Vec<SourceUpdate>, CheckError>)
        ensures
            response matches Err(failure) ==> result_view(result) == Err::<
                Seq<UpdateView>,
                (ErrorKind, Seq<char>),
            >(artist_failure(failure)),
            response matches Ok(albums) ==> exists|dates: Seq<Option<Timestamp>>|
                dates.len() == albums@.len() && dates_of(albums@, dates) && result_view(
                    result,
                ) == in_order(#[trigger] albums_outcome(albums@, dates, *last_checked)),
            result matches Ok(updates) ==> ascending(update_views(updates@)),
    {
        match response {
            Err(FetchError::Unreachable(detail)) => {
                let mut message = "Could not fetch artist page: ".to_owned();
                message.append(detail.as_str());
                Err(CheckError { kind: ErrorKind::NetworkUnavailable, message })
            },
            Err(FetchError::Unreadable(_)) => Err(
                CheckError {
                    kind: ErrorKind::MalformedResponse,
                    message: "No html found on artist page".to_owned(),
                },
            ),
            Ok(albums) => {
                let mut found: Result<Vec<SourceUpdate>, CheckError> = Ok(Vec::new());
                let ghost mut dates: Seq<Option<Timestamp>> = Seq::empty();
                let mut i: usize = 0;
                proof {
                    assert(update_views(Seq::<SourceUpdate>::empty()) =~= Seq::<
                        UpdateView,
                    >::empty());
                }
                while i < albums.len()
                    invariant
                        i <= albums.len(),
                        dates.len() == i,
                        dates_of(albums@, dates),
                        result_view(found) == albums_outcome(
                            albums@.take(i as int),
                            dates,
                            *last_checked,
                        ),
                    decreases albums.len() - i,
                {
                    let ghost earlier_dates = dates;
                    proof {
                        assert(albums@.take(i + 1).drop_last() =~= albums@.take(i as int));
                    }
                    match found {
                        Ok(mut updates) => {
                            let album = &albums[i];
                            let published = match &album.1 {
                                Ok(page) => album_date(page),
                                Err(_) => None,
                            };
                            proof {
                                dates = dates.push(published);
                                assert(dates.drop_last() =~= earlier_dates);
                            }
                            let ghost before = update_views(updates@);
                            match outcome_of_album(
                                album.0.as_str(),
                                &album.1,
                                published,
                                last_checked,
                            ) {
                                Ok(Some(update)) => {
                                    updates.push(update);
                                    proof {
                                        assert(update_views(updates@) =~= before.push(update@));
                                    }
                                    found = Ok(updates);
                                },
                                Ok(None) => {
                                    found = Ok(updates);
                                },
                                Err(error) => {
                                    found = Err(error);
                                },
                            }
                        },
                        Err(error) => {
                            proof {
                                dates = dates.push(None);
                                assert(dates.drop_last() =~= earlier_dates);
                            }
                            found = Err(error);
                        },
                    }
                    i += 1;
                }
                proof {
                    assert(albums@.take(i as int) =~= albums@);
                }
                match found {
                    Ok(updates) => Ok(sort_by_date(updates)),
                    Err(error) => Err(error),
                }
            },
        }
    }
}

} // verus!
