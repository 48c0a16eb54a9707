//! The Manga platform for update checking.

use crate::sources::{
    entries_of, failed_request, is_new, missing_field, plan_items, published_after,
    record_items, request_failure, result_view, CheckError, CheckForUpdates, CheckResult,
    Checked, ErrorKind, FetchError, Named,
};
use crate::text::{decimal, decimal_text};
use crate::time::Timestamp;
use crate::update::{
    ascending, sort_by_date, sorted_by_date, update_views, SourceUpdate, UpdateView,
};
use vstd::prelude::*;
use vstd::string::StringExecFns;

verus! {

/// A manga source struct.
#[derive(Debug, PartialEq, Eq)]
pub struct Manga {
    pub name: String,
    pub id: String,
}

/// The manga that are followed, each with its checkpoint.
#[derive(Debug, PartialEq, Eq)]
pub struct MangaList(pub Vec<(Manga, Option<Timestamp>)>);

/// A chapter of a manga's listing, as far as a check reads it: its number,
/// the second of the Unix epoch at which it was published, and its title.
#[derive(Debug, PartialEq, Eq)]
pub struct Chapter {
    pub number: Option<u64>,
    pub timestamp: Option<i64>,
    pub title: Option<String>,
}

/// What asking for a manga gave, as far as a check reads it: its chapters,
/// and the address under which its chapters are read.
#[derive(Debug, PartialEq, Eq)]
pub struct MangaPage {
    pub chapters: Option<Vec<Chapter>>,
    pub url: Option<String>,
}

impl Named for Manga {
    open spec fn label(&self) -> Seq<char> {
        self.name@
    }

    open spec fn handle(&self) -> Seq<char> {
        self.id@
    }

    fn name(&self) -> (name: String) {
        self.name.clone()
    }

    fn detail(&self) -> (detail: String) {
        self.id.clone()
    }
}

impl CheckForUpdates for MangaList {
    open spec fn entries(&self) -> Seq<(Seq<char>, Option<Timestamp>)> {
        entries_of(self.0@)
    }

    open spec fn ready(&self) -> bool {
        true
    }

    open spec fn platform(&self) -> Seq<char> {
        "Manga"@
    }

    fn platform_name(&self) -> (name: &'static str) {
        "Manga"
    }

    fn plan(&self, last_checked: &Option<Timestamp>) -> (since: Vec<Option<Timestamp>>) {
        plan_items(&self.0, last_checked)
    }

    fn check_for_all_updates(&mut self, last_checked: &Option<Timestamp>, outcomes: Vec<Checked>) -> (results: Vec<CheckResult>)
        ensures
            final(self).0@.len() == old(self).0@.len(),
            forall|i: int| 0 <= i < old(self).0@.len() ==> final(self).0@[i].0 == old(self).0@[i].0,
    {
        record_items(&mut self.0, "Manga", last_checked, outcomes)
    }
}

/// The address at which the manga with the given id is described.
pub open spec fn manga_address(id: Seq<char>) -> Seq<char> {
    "https://www.mangaeden.com/api/manga/"@ + id + "/"@
}

/// The title under which a chapter is reported.
pub open spec fn chapter_title(number: u64, title: Seq<char>) -> Seq<char> {
    "Chapter "@ + decimal(number as nat) + " - "@ + title
}

/// The link under which a chapter is reported.
pub open spec fn chapter_link(base: Option<String>, number: u64) -> Seq<char> {
    match base {
        Some(url) => url@ + "/"@ + decimal(number as nat),
        None => "<no link>"@,
    }
}

/// The instant at which a chapter was published: the start of the second
/// that its listing names, where the calendar can represent it.
pub open spec fn chapter_date(chapter: Chapter) -> Option<Timestamp> {
    match chapter.timestamp {
        Some(second) => Timestamp::of_parts(Some((second, 0u32))),
        None => None,
    }
}

/// The update that a chapter stands for: none where it has no instant of
/// publication, where it is not new to a check from `since`, or where its
/// number or its title is missing.
pub open spec fn chapter_update(chapter: Chapter, base: Option<String>, since: Option<Timestamp>) -> Option<
    UpdateView,
> {
    let published = chapter_date(chapter);
    if published is Some && is_new(since, published->0) && chapter.number is Some
        && chapter.title is Some {
        Some(
            UpdateView {
                title: chapter_title(chapter.number->0, chapter.title->0@),
                link: chapter_link(base, chapter.number->0),
                published_date: published->0,
            },
        )
    } else {
        None
    }
}

/// The updates that the chapters of a listing stand for, in the order of the listing.
pub open spec fn chapter_updates(
    chapters: Seq<Chapter>,
    base: Option<String>,
    since: Option<Timestamp>,
) -> Seq<UpdateView>
    decreases chapters.len(),
{
    if chapters.len() == 0 {
        Seq::empty()
    } else {
        let earlier = chapter_updates(chapters.drop_last(), base, since);
        match chapter_update(chapters.last(), base, since) {
            Some(update) => earlier.push(update),
            None => earlier,
        }
    }
}

/// The update that a chapter stands for.
pub fn update_from_chapter(
    chapter: &Chapter,
    base: &Option<String>,
    last_checked: &Option<Timestamp>,
) -> (update: Option<SourceUpdate>)
    ensures
        match update {
            Some(made) => Some(made@),
            None => None,
        } == chapter_update(*chapter, *base, *last_checked),
{
    let published = match chapter.timestamp {
        Some(second) => Timestamp::new(second, 0),
        None => None,
    };
    let date = match published {
        Some(date) => date,
        None => {
            return None;
        },
    };
    if !published_after(last_checked, &date) {
        return None;
    }
    match (&chapter.number, &chapter.title) {
        (Some(number), Some(name)) => {
            let numeral = decimal_text(*number);
            let mut title = "Chapter ".to_owned();
            title.append(numeral.as_str());
            title.append(" - ");
            title.append(name.as_str());
            let link = match base {
                Some(url) => {
                    let mut link = url.clone();
                    link.append("/");
                    link.append(numeral.as_str());
                    link
                },
                None => "<no link>".to_owned(),
            };
            Some(SourceUpdate { title, link, published_date: date })
        },
        _ => None,
    }
}

impl Manga {
    /// The address at which this manga is described.
    pub fn manga_url(&self) -> (url: String)
        ensures
            url@ == manga_address(self.id@),
    {
        let mut url = "https://www.mangaeden.com/api/manga/".to_owned();
        url.append(self.id.as_str());
        url.append("/");
        url
    }

    /// Checks the manga for updates since `last_checked`, given what asking
    /// for it gave: the chapters that were published after the checkpoint,
    /// in order of publication, or the failure to get them.
    pub fn check_for_updates(
        &self,
        last_checked: &Option<Timestamp>,
        response: Result<MangaPage, FetchError>,
    ) -> (result: Result<Vec<SourceUpdate>, CheckError>)
        ensures
            result_view(result) == match response {
                Ok(page) => match page.chapters {
                    Some(chapters) => Ok(
                        sorted_by_date(chapter_updates(chapters@, page.url, *last_checked)),
                    ),
                    None => Err(
                        (ErrorKind::MissingField, "Could not find chapters in received JSON"@),
                    ),
                },
                Err(failure) => Err(request_failure(manga_address(self.id@), failure)),
            },
            result matches Ok(updates) ==> ascending(update_views(updates@)),
    {
        match response {
            Ok(page) => {
                let chapters = match &page.chapters {
                    Some(chapters) => chapters,
                    None => {
                        return Err(missing_field("Could not find chapters in received JSON"));
                    },
                };
                let mut updates: Vec<SourceUpdate> = Vec::new();
                let mut i: usize = 0;
                while i < chapters.len()
                    invariant
                        i <= chapters.len(),
                        update_views(updates@) == chapter_updates(
                            chapters@.take(i as int),
                            page.url,
                            *last_checked,
                        ),
                    decreases chapters.len() - i,
                {
                    proof {
                        assert(chapters@.take(i + 1).drop_last() =~= chapters@.take(i as int));
                    }
                    match update_from_chapter(&chapters[i], &page.url, last_checked) {
                        Some(update) => {
                            updates.push(update);
                        },
                        None => {},
                    }
                    i += 1;
                }
                proof {
                    assert(chapters@.take(i as int) =~= chapters@);
                }
                Ok(sort_by_date(updates))
            },
            Err(failure) => {
                let url = self.manga_url();
                Err(failed_request(url.as_str(), &failure))
            },
        }
    }
}

} // verus!
