use sitch::search::{
    anime_search_url, announce, ask, channel_search_url, choose_at, found_anime, found_channels,
    found_manga, manga_list_url, next_step, AnimeHit, Candidate, ChannelHit, MangaHit,
    SearchStep,
};
use sitch::text::{plain_text, Tint};
use sitch::sources::youtube::YouTubeChannels;
use sitch::util::{confirmation, pick, pick_place, read_line, search_term, Reading};

fn some(text: &str) -> Option<String> {
    Some(text.to_string())
}

fn candidate(name: &str, id: &str) -> Candidate {
    Candidate { name: name.to_string(), id: id.to_string() }
}

fn manga(id: &str, title: &str) -> MangaHit {
    MangaHit { id: some(id), title: some(title) }
}

#[test]
fn prompt_leaves_on_q_and_quit_and_at_the_end_of_the_input() {
    assert_eq!(read_line(None), Reading::Ended);
    assert_eq!(read_line(some("q")), Reading::Quit);
    assert_eq!(read_line(some("quit")), Reading::Quit);
    assert_eq!(read_line(some("")), Reading::Answer("".to_string()));
    assert_eq!(read_line(some("Q")), Reading::Answer("Q".to_string()));
    assert_eq!(read_line(some("quit ")), Reading::Answer("quit ".to_string()));
}

#[test]
fn search_term_has_to_be_longer_than_three_bytes() {
    assert_eq!(search_term("naru".to_string()), Ok("naru".to_string()));
    assert_eq!(
        search_term("nar".to_string()),
        Err("Search term must be longer than 3 characters.".to_string())
    );
    assert_eq!(
        search_term("".to_string()),
        Err("Search term must be longer than 3 characters.".to_string())
    );
    assert_eq!(search_term("日本".to_string()), Ok("日本".to_string()));
    assert_eq!(
        search_term("é".to_string()),
        Err("Search term must be longer than 3 characters.".to_string())
    );
}

#[test]
fn yes_and_no_are_understood() {
    for yes in ["", "y", "Y", "yes"] {
        assert_eq!(confirmation(yes), Ok(true));
    }
    for no in ["n", "N", "no"] {
        assert_eq!(confirmation(no), Ok(false));
    }
    for unclear in ["Yes", "NO", "maybe", " ", "yes "] {
        assert_eq!(confirmation(unclear), Err("Please respond with a yes or no.".to_string()));
    }
}

#[test]
fn pick_counts_from_one() {
    assert_eq!(pick("1", 3), Ok(0));
    assert_eq!(pick("3", 3), Ok(2));
    assert_eq!(pick("+2", 3), Ok(1));
    assert_eq!(pick("0", 3), Err("The specified index was out of bounds.".to_string()));
    assert_eq!(pick("4", 3), Err("The specified index was out of bounds.".to_string()));
    assert_eq!(pick("two", 3), Err("The value wasn't an integer.".to_string()));
    assert_eq!(pick("", 3), Err("The value wasn't an integer.".to_string()));
    assert_eq!(pick("-1", 3), Err("The value wasn't an integer.".to_string()));
    assert_eq!(pick(" 2", 3), Err("The value wasn't an integer.".to_string()));
    assert_eq!(pick_place(Some(2), 2), Ok(1));
    assert_eq!(pick_place(Some(u64::MAX), 2), Err("The specified index was out of bounds.".to_string()));
    assert_eq!(pick_place(None, 2), Err("The value wasn't an integer.".to_string()));
}

#[test]
fn results_are_retried_confirmed_or_chosen_from() {
    assert_eq!(next_step(vec![]), SearchStep::Retry);
    assert_eq!(next_step(vec![candidate("a", "1")]), SearchStep::Confirm(candidate("a", "1")));
    assert_eq!(
        next_step(vec![candidate("a", "1"), candidate("b", "2")]),
        SearchStep::Choose(vec![candidate("a", "1"), candidate("b", "2")])
    );
    let found = vec![candidate("a", "1"), candidate("b", "2"), candidate("c", "3")];
    assert_eq!(choose_at(found, 1), Some(candidate("b", "2")));
    assert_eq!(choose_at(vec![candidate("a", "1")], 1), None);
}

#[test]
fn searches_ask_at_the_addresses_of_the_platforms() {
    assert_eq!(
        channel_search_url("KEY", "term"),
        "https://content.googleapis.com/youtube/v3/search?part=snippet&maxResults=5&type=channel&key=KEY&q=term"
    );
    assert_eq!(anime_search_url("naruto"), "https://api.jikan.moe/v3/search/anime?q=naruto&limit=5");
    assert_eq!(manga_list_url(), "https://www.mangaeden.com/api/list/0/");
}

#[test]
fn youtube_is_searched_with_a_key_only() {
    let with_key = YouTubeChannels { api_key: some("k"), channels: vec![] };
    assert_eq!(with_key.search_key(), Ok("k".to_string()));
    let without = YouTubeChannels { api_key: None, channels: vec![] };
    assert_eq!(
        without.search_key(),
        Err("Must have API key set to search for YouTube channels.".to_string())
    );
}

#[test]
fn channels_are_found_with_id_and_title() {
    let hits = vec![
        ChannelHit { channel_id: some("UC1"), channel_title: some("One") },
        ChannelHit { channel_id: some("UC2"), channel_title: some("Two") },
    ];
    assert_eq!(found_channels(Some(hits)), Ok(vec![candidate("One", "UC1"), candidate("Two", "UC2")]));
    assert_eq!(found_channels(Some(vec![])), Ok(vec![]));
    assert_eq!(found_channels(None), Err("Couldn't parse results as JSON array".to_string()));
    let no_id = vec![
        ChannelHit { channel_id: some("UC1"), channel_title: some("One") },
        ChannelHit { channel_id: None, channel_title: None },
        ChannelHit { channel_id: some("UC3"), channel_title: None },
    ];
    assert_eq!(found_channels(Some(no_id)), Err("No id found in search result".to_string()));
    let no_title = vec![
        ChannelHit { channel_id: some("UC3"), channel_title: None },
        ChannelHit { channel_id: None, channel_title: some("x") },
    ];
    assert_eq!(found_channels(Some(no_title)), Err("No title found for search result".to_string()));
}

#[test]
fn anime_are_found_with_their_number_as_id() {
    let hits = vec![
        AnimeHit { mal_id: Some(20), title: some("Naruto") },
        AnimeHit { mal_id: Some(1735), title: some("Naruto: Shippuuden") },
    ];
    assert_eq!(
        found_anime(Some(hits)),
        Ok(vec![candidate("Naruto", "20"), candidate("Naruto: Shippuuden", "1735")])
    );
    assert_eq!(found_anime(None), Err("Couldn't parse results as JSON array".to_string()));
    assert_eq!(
        found_anime(Some(vec![AnimeHit { mal_id: None, title: some("x") }])),
        Err("No id found in search result".to_string())
    );
    assert_eq!(
        found_anime(Some(vec![AnimeHit { mal_id: Some(1), title: None }])),
        Err("No title found for search result".to_string())
    );
}

#[test]
fn manga_are_found_by_their_title_in_lower_case() {
    let hits = vec![
        manga("1", "One Piece"),
        manga("2", "Naruto"),
        manga("3", "ONE PUNCH MAN"),
        manga("4", "Someone"),
    ];
    assert_eq!(
        found_manga(Some(hits), "one"),
        Ok(vec![candidate("One Piece", "1"), candidate("ONE PUNCH MAN", "3"), candidate("Someone", "4")])
    );
    assert_eq!(found_manga(Some(vec![manga("1", "One Piece")]), "One"), Ok(vec![]));
    assert_eq!(found_manga(Some(vec![manga("1", "One Piece")]), ""), Ok(vec![candidate("One Piece", "1")]));
    assert_eq!(found_manga(None, "one"), Err("Couldn't parse received manga as JSON array".to_string()));
}

#[test]
fn manga_search_stops_at_five_results() {
    let mut hits: Vec<MangaHit> = (0..8).map(|i| manga(&i.to_string(), &format!("Tome {}", i))).collect();
    hits.insert(2, manga("x", "Other"));
    hits.push(MangaHit { id: None, title: None });
    let found = found_manga(Some(hits), "tome").unwrap();
    let ids: Vec<&str> = found.iter().map(|c| c.id.as_str()).collect();
    assert_eq!(ids, vec!["0", "1", "2", "3", "4"]);
}

#[test]
fn manga_search_fails_at_an_entry_that_lacks_something() {
    let hits = vec![
        manga("1", "Tome 1"),
        MangaHit { id: None, title: some("Tome 2") },
        manga("3", "Tome 3"),
    ];
    assert_eq!(found_manga(Some(hits), "tome"), Err("No id found in search result".to_string()));
    let hits = vec![manga("1", "Other"), MangaHit { id: some("2"), title: None }];
    assert_eq!(found_manga(Some(hits), "tome"), Err("No title found for search result".to_string()));
}

#[test]
fn results_are_announced_and_asked_about() {
    let texts = |step: &SearchStep| -> Vec<String> { announce(step).iter().map(plain_text).collect() };
    assert_eq!(texts(&SearchStep::Retry), vec!["No results found, please try again."]);
    assert_eq!(ask(&SearchStep::Retry), None);
    let one = SearchStep::Confirm(candidate("Naruto", "20"));
    assert_eq!(texts(&one), vec!["Found 1 result: \"Naruto\" (id = 20)"]);
    assert_eq!(ask(&one), some("Add it to sitch? [Y/n]"));
    let many: Vec<Candidate> = (1..=11).map(|i| candidate(&format!("T{}", i), &format!("id{}", i))).collect();
    let many = SearchStep::Choose(many);
    let lines = texts(&many);
    assert_eq!(lines.len(), 12);
    assert_eq!(lines[0], "Found 11 results:");
    assert_eq!(lines[1], "1: \"T1\" (id = id1)");
    assert_eq!(lines[11], "11: \"T11\" (id = id11)");
    assert_eq!(ask(&many), some("Pick a result to add [1 to 11]: "));
    let tints: Vec<Tint> = announce(&many)[1].iter().map(|span| span.tint).collect();
    assert_eq!(tints, vec![Tint::Yellow, Tint::Plain, Tint::Green, Tint::Plain]);
}
