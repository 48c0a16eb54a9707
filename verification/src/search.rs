//! Searching a platform for something to follow: where to ask, what the
//! answer offers, and what to put before the user.

use crate::sources::line_views;
use crate::sources::youtube::YouTubeChannels;
use crate::text::{
    contains, decimal, decimal_text, holds, line_view, lower, lowered, span, Span, Tint,
};
use vstd::prelude::*;
use vstd::string::StringExecFns;

verus! {

/// The most results of a search that are put before the user.
pub const RESULTS_SHOWN: usize = 5;

/// Something that a search found: its name, and what the platform knows it by.
#[derive(Debug, PartialEq, Eq)]
pub struct Candidate {
    pub name: String,
    pub id: String,
}

impl View for Candidate {
    type V = (Seq<char>, Seq<char>);

    open spec fn view(&self) -> (Seq<char>, Seq<char>) {
        (self.name@, self.id@)
    }
}

/// What is done with the results of a search.
#[derive(Debug, PartialEq, Eq)]
pub enum SearchStep {
    /// Nothing was found: say so, and ask for another term.
    Retry,
    /// One thing was found: ask whether to follow it.
    Confirm(Candidate),
    /// More was found: let the user pick one.
    Choose(Vec<Candidate>),
}

/// A channel that a search of YouTube found, as far as the search reads it.
#[derive(Debug, PartialEq, Eq)]
pub struct ChannelHit {
    pub channel_id: Option<String>,
    pub channel_title: Option<String>,
}

/// An anime that a search found, as far as the search reads it.
#[derive(Debug, PartialEq, Eq)]
pub struct AnimeHit {
    pub mal_id: Option<u64>,
    pub title: Option<String>,
}

/// A manga of the list of all manga, as far as the search reads it.
#[derive(Debug, PartialEq, Eq)]
pub struct MangaHit {
    pub id: Option<String>,
    pub title: Option<String>,
}

/// The candidates of a list, each as the contracts speak of it.
pub open spec fn candidate_views(found: Seq<Candidate>) -> Seq<(Seq<char>, Seq<char>)> {
    Seq::new(found.len(), |i: int| found[i]@)
}

/// What a list of results comes to.
pub open spec fn outcome_view(outcome: Result<Vec<Candidate>, String>) -> Result<
    Seq<(Seq<char>, Seq<char>)>,
    Seq<char>,
> {
    match outcome {
        Ok(found) => Ok(candidate_views(found@)),
        Err(words) => Err(words@),
    }
}

/// The words for a result without an id.
pub open spec fn no_id() -> Seq<char> {
    "No id found in search result"@
}

/// The words for a result without a title.
pub open spec fn no_title() -> Seq<char> {
    "No title found for search result"@
}

/// The address at which YouTube is asked for the channels that match `term`.
pub open spec fn channel_search_address(api_key: Seq<char>, term: Seq<char>) -> Seq<char> {
    "https://content.googleapis.com/youtube/v3/search"@ + "?"@ + "part=snippet"@
        + "&maxResults=5"@ + "&type=channel"@ + "&key="@ + api_key + "&q="@ + term
}

/// The address at which the anime that match `term` are asked for.
pub open spec fn anime_search_address(term: Seq<char>) -> Seq<char> {
    "https://api.jikan.moe/v3/search/anime?q="@ + term + "&limit=5"@
}

/// The address at which the list of all manga is asked for.
pub open spec fn manga_list_address() -> Seq<char> {
    "https://www.mangaeden.com/api/list/0/"@
}

/// The candidate that a channel stands for, or why it stands for none.
pub open spec fn channel_candidate(hit: ChannelHit) -> Result<(Seq<char>, Seq<char>), Seq<char>> {
    match (hit.channel_id, hit.channel_title) {
        (None, _) => Err(no_id()),
        (Some(_), None) => Err(no_title()),
        (Some(id), Some(title)) => Ok((title@, id@)),
    }
}

/// The candidate that an anime stands for, or why it stands for none.
pub open spec fn anime_candidate(hit: AnimeHit) -> Result<(Seq<char>, Seq<char>), Seq<char>> {
    match (hit.mal_id, hit.title) {
        (None, _) => Err(no_id()),
        (Some(_), None) => Err(no_title()),
        (Some(id), Some(title)) => Ok((title@, decimal(id as nat))),
    }
}

/// The candidate that a manga stands for, or why it stands for none.
pub open spec fn manga_candidate(hit: MangaHit) -> Result<(Seq<char>, Seq<char>), Seq<char>> {
    match (hit.id, hit.title) {
        (None, _) => Err(no_id()),
        (Some(_), None) => Err(no_title()),
        (Some(id), Some(title)) => Ok((title@, id@)),
    }
}

/// The candidates that the channels stand for, in their order, or why the
/// first channel that stands for none does so.
pub open spec fn channel_candidates(hits: Seq<ChannelHit>) -> Result<
    Seq<(Seq<char>, Seq<char>)>,
    Seq<char>,
>
    decreases hits.len(),
{
    if hits.len() == 0 {
        Ok(Seq::empty())
    } else {
        match channel_candidates(hits.drop_last()) {
            Err(words) => Err(words),
            Ok(earlier) => match channel_candidate(hits.last()) {
                Err(words) => Err(words),
                Ok(candidate) => Ok(earlier.push(candidate)),
            },
        }
    }
}

/// The candidates that the anime stand for, in their order, or why the first
/// anime that stands for none does so.
pub open spec fn anime_candidates(hits: Seq<AnimeHit>) -> Result<
    Seq<(Seq<char>, Seq<char>)>,
    Seq<char>,
>
    decreases hits.len(),
{
    if hits.len() == 0 {
        Ok(Seq::empty())
    } else {
        match anime_candidates(hits.drop_last()) {
            Err(words) => Err(words),
            Ok(earlier) => match anime_candidate(hits.last()) {
                Err(words) => Err(words),
                Ok(candidate) => Ok(earlier.push(candidate)),
            },
        }
    }
}

/// What goes before what the rest of a list comes to.
pub open spec fn behind(
    first: Seq<(Seq<char>, Seq<char>)>,
    rest: Result<Seq<(Seq<char>, Seq<char>)>, Seq<char>>,
) -> Result<Seq<(Seq<char>, Seq<char>)>, Seq<char>> {
    match rest {
        Ok(more) => Ok(first + more),
        Err(words) => Err(words),
    }
}

/// The first manga of the list whose title in lower case holds `term`, as
/// many as there is `room` for, or why a manga that is come to before the
/// room is used up stands for no candidate.
pub open spec fn manga_candidates(hits: Seq<MangaHit>, term: Seq<char>, room: nat) -> Result<
    Seq<(Seq<char>, Seq<char>)>,
    Seq<char>,
>
    decreases hits.len(),
{
    if room == 0 || hits.len() == 0 {
        Ok(Seq::empty())
    } else {
        match manga_candidate(hits.first()) {
            Err(words) => Err(words),
            Ok(candidate) => if holds(lowered(candidate.0), term) {
                behind(
                    seq![candidate],
                    manga_candidates(hits.drop_first(), term, (room - 1) as nat),
                )
            } else {
                manga_candidates(hits.drop_first(), term, room)
            },
        }
    }
}

/// The line that offers the result at the given place of a list, counted
/// from nought, under the number that the user picks it by.
pub open spec fn choice_line(place: nat, candidate: (Seq<char>, Seq<char>)) -> Seq<
    (Seq<char>, Tint),
> {
    seq![
        (decimal(place + 1), Tint::Yellow),
        (": \""@, Tint::Plain),
        (candidate.0, Tint::Green),
        ("\" (id = "@ + candidate.1 + ")"@, Tint::Plain),
    ]
}

/// The line that tells of the one result of a search.
pub open spec fn single_line(candidate: (Seq<char>, Seq<char>)) -> Seq<(Seq<char>, Tint)> {
    seq![
        (
            "Found 1 result: \""@ + candidate.0 + "\" (id = "@ + candidate.1 + ")"@,
            Tint::Plain,
        ),
    ]
}

/// The line that tells how many results a search has.
pub open spec fn count_line(count: nat) -> Seq<(Seq<char>, Tint)> {
    seq![("Found "@ + decimal(count) + " results:"@, Tint::Plain)]
}

/// The lines that tell the user what a search found: that it found
/// nothing, the one thing it found, or how many it found and each of them.
pub open spec fn announcement(step: SearchStep) -> Seq<Seq<(Seq<char>, Tint)>> {
    match step {
        SearchStep::Retry => seq![seq![("No results found, please try again."@, Tint::Plain)]],
        SearchStep::Confirm(candidate) => seq![single_line(candidate@)],
        SearchStep::Choose(found) => seq![count_line(found@.len())] + Seq::new(
            found@.len(),
            |i: int| choice_line(i as nat, found@[i]@),
        ),
    }
}

/// What the user is asked once the results are announced, where anything.
pub open spec fn question(step: SearchStep) -> Option<Seq<char>> {
    match step {
        SearchStep::Retry => None,
        SearchStep::Confirm(_) => Some("Add it to sitch? [Y/n]"@),
        SearchStep::Choose(found) => Some(
            "Pick a result to add [1 to "@ + decimal(found@.len()) + "]: "@,
        ),
    }
}

/// The lines that tell the user what a search found.
pub fn announce(step: &SearchStep) -> (lines: Vec<Vec<Span>>)
    ensures
        line_views(lines@) == announcement(*step),
{
    let mut lines: Vec<Vec<Span>> = Vec::new();
    match step {
        SearchStep::Retry => {
            let mut line: Vec<Span> = Vec::new();
            line.push(span("No results found, please try again.", Tint::Plain));
            lines.push(line);
            proof {
                assert(line_view(lines@[0]@) =~= seq![
                    ("No results found, please try again."@, Tint::Plain),
                ]);
            }
        },
        SearchStep::Confirm(candidate) => {
            let mut text = "Found 1 result: \"".to_owned();
            text.append(candidate.name.as_str());
            text.append("\" (id = ");
            text.append(candidate.id.as_str());
            text.append(")");
            let mut line: Vec<Span> = Vec::new();
            line.push(span(text.as_str(), Tint::Plain));
            lines.push(line);
            proof {
                assert(line_view(lines@[0]@) =~= single_line(candidate@));
            }
        },
        SearchStep::Choose(found) => {
            let mut text = "Found ".to_owned();
            text.append(decimal_text(found.len() as u64).as_str());
            text.append(" results:");
            let mut line: Vec<Span> = Vec::new();
            line.push(span(text.as_str(), Tint::Plain));
            lines.push(line);
            let mut i: usize = 0;
            while i < found.len()
                invariant
                    i <= found.len(),
                    lines@.len() == i + 1,
                    line_view(lines@[0]@) == count_line(found@.len()),
                    forall|j: int|
                        0 <= j < i ==> line_view((#[trigger] lines@[j + 1])@) == choice_line(
                            j as nat,
                            found@[j]@,
                        ),
                decreases found.len() - i,
            {
                let mut tail = "\" (id = ".to_owned();
                tail.append(found[i].id.as_str());
                tail.append(")");
                let mut line: Vec<Span> = Vec::new();
                line.push(span(decimal_text((i + 1) as u64).as_str(), Tint::Yellow));
                line.push(span(": \"", Tint::Plain));
                line.push(span(found[i].name.as_str(), Tint::Green));
                line.push(span(tail.as_str(), Tint::Plain));
                lines.push(line);
                i += 1;
            }
        },
    }
    lines
}

/// What the user is asked once the results are announced, where anything.
pub fn ask(step: &SearchStep) -> (words: Option<String>)
    ensures
        match words {
            Some(text) => Some(text@),
            None => None,
        } == question(*step),
{
    match step {
        SearchStep::Retry => None,
        SearchStep::Confirm(_) => Some("Add it to sitch? [Y/n]".to_owned()),
        SearchStep::Choose(found) => {
            let mut text = "Pick a result to add [1 to ".to_owned();
            text.append(decimal_text(found.len() as u64).as_str());
            text.append("]: ");
            Some(text)
        },
    }
}

/// What is done with the results of a search.
pub fn next_step(found: Vec<Candidate>) -> (step: SearchStep)
    ensures
        found@.len() == 0 ==> step == SearchStep::Retry,
        found@.len() == 1 ==> step == SearchStep::Confirm(found@[0]),
        found@.len() > 1 ==> (step matches SearchStep::Choose(all) && all@ == found@),
{
    let mut found = found;
    if found.len() == 0 {
        SearchStep::Retry
    } else if found.len() == 1 {
        SearchStep::Confirm(found.remove(0))
    } else {
        SearchStep::Choose(found)
    }
}

/// The result at the given place of the list, counted from nought.
pub fn choose_at(found: Vec<Candidate>, place: usize) -> (chosen: Option<Candidate>)
    ensures
        chosen == if place < found@.len() {
            Some(found@[place as int])
        } else {
            None
        },
{
    let mut found = found;
    if place < found.len() {
        Some(found.remove(place))
    } else {
        None
    }
}

/// The address at which YouTube is asked for the channels that match `term`.
pub fn channel_search_url(api_key: &str, term: &str) -> (url: String)
    ensures
        url@ == channel_search_address(api_key@, term@),
{
    let mut url = "https://content.googleapis.com/youtube/v3/search".to_owned();
    url.append("?");
    url.append("part=snippet");
    url.append("&maxResults=5");
    url.append("&type=channel");
    url.append("&key=");
    url.append(api_key);
    url.append("&q=");
    url.append(term);
    url
}

/// The address at which the anime that match `term` are asked for.
pub fn anime_search_url(term: &str) -> (url: String)
    ensures
        url@ == anime_search_address(term@),
{
    let mut url = "https://api.jikan.moe/v3/search/anime?q=".to_owned();
    url.append(term);
    url.append("&limit=5");
    url
}

/// The address at which the list of all manga is asked for.
pub fn manga_list_url() -> (url: &'static str)
    ensures
        url@ == manga_list_address(),
{
    "https://www.mangaeden.com/api/list/0/"
}

/// The channels that a search of YouTube found, given the results that the
/// answer holds, where it holds any.
pub fn found_channels(hits: Option<Vec<ChannelHit>>) -> (found: Result<Vec<Candidate>, String>)
    ensures
        outcome_view(found) == match hits {
            Some(list) => channel_candidates(list@),
            None => Err("Couldn't parse results as JSON array"@),
        },
{
    let list = match hits {
        Some(list) => list,
        None => {
            return Err("Couldn't parse results as JSON array".to_owned());
        },
    };
    let mut found: Vec<Candidate> = Vec::new();
    let mut i: usize = 0;
    proof {
        assert(candidate_views(found@) =~= Seq::<(Seq<char>, Seq<char>)>::empty());
    }
    while i < list.len()
        invariant
            i <= list.len(),
            hits == Some(list),
            channel_candidates(list@.take(i as int)) == Ok::<
                Seq<(Seq<char>, Seq<char>)>,
                Seq<char>,
            >(candidate_views(found@)),
        decreases list.len() - i,
    {
        let ghost before = candidate_views(found@);
        proof {
            assert(list@.take(i + 1).drop_last() =~= list@.take(i as int));
        }
        match (&list[i].channel_id, &list[i].channel_title) {
            (None, _) => {
                proof {
                    lemma_channel_failure_stays(list@, i + 1);
                }
                return Err("No id found in search result".to_owned());
            },
            (Some(_), None) => {
                proof {
                    lemma_channel_failure_stays(list@, i + 1);
                }
                return Err("No title found for search result".to_owned());
            },
            (Some(id), Some(title)) => {
                found.push(Candidate { name: title.clone(), id: id.clone() });
                proof {
                    assert(candidate_views(found@) =~= before.push((title@, id@)));
                }
            },
        }
        i += 1;
    }
    proof {
        assert(list@.take(i as int) =~= list@);
    }
    Ok(found)
}

/// The anime that a search found, given the results that the answer holds,
/// where it holds any.
pub fn found_anime(hits: Option<Vec<AnimeHit>>) -> (found: Result<Vec<Candidate>, String>)
    ensures
        outcome_view(found) == match hits {
            Some(list) => anime_candidates(list@),
            None => Err("Couldn't parse results as JSON array"@),
        },
{
    let list = match hits {
        Some(list) => list,
        None => {
            return Err("Couldn't parse results as JSON array".to_owned());
        },
    };
    let mut found: Vec<Candidate> = Vec::new();
    let mut i: usize = 0;
    proof {
        assert(candidate_views(found@) =~= Seq::<(Seq<char>, Seq<char>)>::empty());
    }
    while i < list.len()
        invariant
            i <= list.len(),
            hits == Some(list),
            anime_candidates(list@.take(i as int)) == Ok::<Seq<(Seq<char>, Seq<char>)>, Seq<char>>(
                candidate_views(found@),
            ),
        decreases list.len() - i,
    {
        let ghost before = candidate_views(found@);
        proof {
            assert(list@.take(i + 1).drop_last() =~= list@.take(i as int));
        }
        match (&list[i].mal_id, &list[i].title) {
            (None, _) => {
                proof {
                    lemma_anime_failure_stays(list@, i + 1);
                }
                return Err("No id found in search result".to_owned());
            },
            (Some(_), None) => {
                proof {
                    lemma_anime_failure_stays(list@, i + 1);
                }
                return Err("No title found for search result".to_owned());
            },
            (Some(id), Some(title)) => {
                found.push(Candidate { name: title.clone(), id: decimal_text(*id) });
                proof {
                    assert(candidate_views(found@) =~= before.push(
                        (title@, decimal(*id as nat)),
                    ));
                }
            },
        }
        i += 1;
    }
    proof {
        assert(list@.take(i as int) =~= list@);
    }
    Ok(found)
}

/// The manga that a search for `term` found, given the list of all manga
/// that the answer holds, where it holds one.
pub fn found_manga(hits: Option<Vec<MangaHit>>, term: &str) -> (found: Result<Vec<Candidate>, String>)
    ensures
        outcome_view(found) == match hits {
            Some(list) => manga_candidates(list@, term@, RESULTS_SHOWN as nat),
            None => Err("Couldn't parse received manga as JSON array"@),
        },
{
    let list = match hits {
        Some(list) => list,
        None => {
            return Err("Couldn't parse received manga as JSON array".to_owned());
        },
    };
    let mut found: Vec<Candidate> = Vec::new();
    let mut i: usize = 0;
    proof {
        assert(list@.skip(0) =~= list@);
    }
    while i < list.len() && found.len() < RESULTS_SHOWN
        invariant
            i <= list.len(),
            hits == Some(list),
            found@.len() <= RESULTS_SHOWN,
            manga_candidates(list@, term@, RESULTS_SHOWN as nat) == behind(
                candidate_views(found@),
                manga_candidates(
                    list@.skip(i as int),
                    term@,
                    (RESULTS_SHOWN - found@.len()) as nat,
                ),
            ),
        decreases list.len() - i,
    {
        let ghost before = candidate_views(found@);
        let ghost left = list@.skip(i as int);
        proof {
            assert(left.drop_first() =~= list@.skip(i + 1));
        }
        match (&list[i].id, &list[i].title) {
            (None, _) => {
                return Err("No id found in search result".to_owned());
            },
            (Some(_), None) => {
                return Err("No title found for search result".to_owned());
            },
            (Some(id), Some(title)) => {
                let small = lower(title.as_str());
                if contains(small.as_str(), term) {
                    found.push(Candidate { name: title.clone(), id: id.clone() });
                    proof {
                        let candidate = (title@, id@);
                        assert(candidate_views(found@) =~= before.push(candidate));
                        let rest = manga_candidates(
                            list@.skip(i + 1),
                            term@,
                            (RESULTS_SHOWN - found@.len()) as nat,
                        );
                        if rest is Ok {
                            assert(before + (seq![candidate] + rest->Ok_0) =~= before.push(
                                candidate,
                            ) + rest->Ok_0);
                        }
                    }
                }
            },
        }
        i += 1;
    }
    Ok(found)
}

proof fn lemma_channel_failure_stays(hits: Seq<ChannelHit>, upto: int)
    requires
        0 <= upto <= hits.len(),
        channel_candidates(hits.take(upto)) is Err,
    ensures
        channel_candidates(hits) == channel_candidates(hits.take(upto)),
    decreases hits.len() - upto,
{
    if upto == hits.len() {
        assert(hits.take(upto) =~= hits);
    } else {
        assert(hits.take(upto + 1).drop_last() =~= hits.take(upto));
        lemma_channel_failure_stays(hits, upto + 1);
    }
}

proof fn lemma_anime_failure_stays(hits: Seq<AnimeHit>, upto: int)
    requires
        0 <= upto <= hits.len(),
        anime_candidates(hits.take(upto)) is Err,
    ensures
        anime_candidates(hits) == anime_candidates(hits.take(upto)),
    decreases hits.len() - upto,
{
    if upto == hits.len() {
        assert(hits.take(upto) =~= hits);
    } else {
        assert(hits.take(upto + 1).drop_last() =~= hits.take(upto));
        lemma_anime_failure_stays(hits, upto + 1);
    }
}

impl YouTubeChannels {
    /// The key with which YouTube is searched, which there has to be.
    pub fn search_key(&self) -> (key: Result<String, String>)
        ensures
            match self.api_key {
                Some(present) => key == Ok::<String, String>(present),
                None => (key matches Err(words) && words@
                    == "Must have API key set to search for YouTube channels."@),
            },
    {
        match &self.api_key {
            Some(key) => Ok(key.clone()),
            None => Err("Must have API key set to search for YouTube channels.".to_owned()),
        }
    }
}

} // verus!
