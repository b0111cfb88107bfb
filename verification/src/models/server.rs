//! The video servers of an episode, extracted from the episode's page.

use vstd::prelude::*;

use crate::error::ScrapeError;
use crate::html::{attributes_view, css_select_attribute, select_attribute, Html};
use crate::urls::{
    pairs_view, parse_query_pairs, percent_decode_utf8, percent_decoded, url_query_pairs,
};

verus! {

/// A server that hosts an episode's video; `episode_id` is 0 until the
/// episode is stored.
pub struct Server {
    pub episode_id: i64,
    pub name: String,
    pub url: String,
}

/// What a `Server` holds, as characters.
pub struct ServerView {
    pub episode_id: i64,
    pub name: Seq<char>,
    pub url: Seq<char>,
}

impl View for Server {
    type V = ServerView;

    open spec fn view(&self) -> ServerView {
        ServerView { episode_id: self.episode_id, name: self.name@, url: self.url@ }
    }
}

/// The views of each server.
pub open spec fn servers_view(v: Seq<Server>) -> Seq<ServerView> {
    v.map_values(|s: Server| s@)
}

/// The view of an extraction's outcome.
pub open spec fn servers_outcome_view(r: Option<Result<Vec<Server>, ScrapeError>>) -> Option<
    Result<Seq<ServerView>, ScrapeError>,
> {
    match r {
        None => None,
        Some(Ok(v)) => Some(Ok(servers_view(v@))),
        Some(Err(e)) => Some(Err(e)),
    }
}

/// The value of the first pair of `pairs` from index `i` on whose key is
/// `key`.
pub open spec fn first_value_from(pairs: Seq<(Seq<char>, Seq<char>)>, key: Seq<char>, i: int) -> Option<
    Seq<char>,
>
    decreases pairs.len() - i,
{
    if i < 0 || i >= pairs.len() {
        None
    } else if pairs[i].0 == key {
        Some(pairs[i].1)
    } else {
        first_value_from(pairs, key, i + 1)
    }
}

/// The video URL that the query pairs of a player's address carry: the
/// percent-decoded value of the first `url` pair, if there is one.
pub open spec fn video_url_in_pairs(pairs: Seq<(Seq<char>, Seq<char>)>) -> Result<
    Option<Seq<char>>,
    ScrapeError,
> {
    match first_value_from(pairs, "url"@, 0) {
        None => Ok(None),
        Some(v) => match percent_decoded(v) {
            None => Err(ScrapeError::InvalidUtf8),
            Some(u) => Ok(Some(u)),
        },
    }
}

/// The video URL that a player's address carries: the percent-decoded
/// value of its first `url` query parameter, if it has one.
pub open spec fn player_video_url(src: Seq<char>) -> Result<Option<Seq<char>>, ScrapeError> {
    match url_query_pairs(src) {
        None => Err(ScrapeError::InvalidUrl),
        Some(pairs) => video_url_in_pairs(pairs),
    }
}

/// The view of a found video URL.
pub open spec fn video_url_view(r: Result<Option<String>, ScrapeError>) -> Result<
    Option<Seq<char>>,
    ScrapeError,
> {
    match r {
        Ok(Some(u)) => Ok(Some(u@)),
        Ok(None) => Ok(None),
        Err(e) => Err(e),
    }
}

/// `r` with the servers `done` in front of the ones it found.
pub open spec fn prepend_servers(
    done: Seq<ServerView>,
    r: Option<Result<Seq<ServerView>, ScrapeError>>,
) -> Option<Result<Seq<ServerView>, ScrapeError>> {
    match r {
        Some(Ok(rest)) => Some(Ok(done + rest)),
        _ => r,
    }
}

/// The video URL that the pair at index `j` yields: the decoded `url`
/// parameter of its player address, where there is one.
pub open spec fn found_url(sources: Seq<Option<Seq<char>>>, j: int) -> Option<Seq<char>> {
    if 0 <= j < sources.len() && sources[j] is Some {
        match player_video_url(sources[j].unwrap()) {
            Ok(Some(u)) => Some(u),
            _ => None,
        }
    } else {
        None
    }
}

/// The number of pairs before index `n` that yield a video URL.
pub open spec fn found_before(sources: Seq<Option<Seq<char>>>, n: int) -> nat
    decreases n,
{
    if n <= 0 {
        0
    } else {
        found_before(sources, n - 1) + if found_url(sources, n - 1) is Some {
            1nat
        } else {
            0nat
        }
    }
}

proof fn lemma_found_before_monotone(sources: Seq<Option<Seq<char>>>, i: int, j: int)
    requires
        0 <= i <= j,
    ensures
        found_before(sources, i) <= found_before(sources, j),
    decreases j - i,
{
    if i < j {
        lemma_found_before_monotone(sources, i, j - 1);
    }
}

proof fn lemma_servers_from_found(
    titles: Seq<Option<Seq<char>>>,
    sources: Seq<Option<Seq<char>>>,
    i: int,
)
    requires
        0 <= i,
        servers_from(titles, sources, i) is Some,
        servers_from(titles, sources, i).unwrap() is Ok,
    ensures
        ({
            let m = if titles.len() < sources.len() {
                titles.len() as int
            } else {
                sources.len() as int
            };
            let w = servers_from(titles, sources, i).unwrap()->Ok_0;
            &&& i <= m ==> w.len() == found_before(sources, m) - found_before(sources, i)
            &&& forall|j: int|
                i <= j < m ==> {
                    &&& titles[j] is Some
                    &&& sources[j] is Some
                    &&& player_video_url(sources[j].unwrap()) is Ok
                    &&& (#[trigger] found_url(sources, j)) matches Some(u) ==> w[found_before(
                        sources,
                        j,
                    ) - found_before(sources, i)] == ServerView {
                        episode_id: 0,
                        name: titles[j].unwrap(),
                        url: u,
                    }
                }
        }),
    decreases titles.len() - i,
{
    let m = if titles.len() < sources.len() {
        titles.len() as int
    } else {
        sources.len() as int
    };
    if i < m {
        lemma_servers_from_found(titles, sources, i + 1);
        let w = servers_from(titles, sources, i).unwrap()->Ok_0;
        let w2 = servers_from(titles, sources, i + 1).unwrap()->Ok_0;
        let here = match found_url(sources, i) {
            Some(u) => seq![ServerView { episode_id: 0, name: titles[i].unwrap(), url: u }],
            None => Seq::<ServerView>::empty(),
        };
        assert(w == here + w2);
        assert forall|j: int|
            i <= j < m && (#[trigger] found_url(sources, j)) is Some implies w[found_before(
                sources,
                j,
            ) - found_before(sources, i)] == (ServerView {
                episode_id: 0,
                name: titles[j].unwrap(),
                url: found_url(sources, j).unwrap(),
            }) by {
            if j > i {
                lemma_found_before_monotone(sources, i + 1, j);
                lemma_found_before_monotone(sources, j + 1, m);
            }
        }
    }
}

/// The servers of an episode page, where the extraction succeeds, are one
/// server for each pair of option title and player address (as far as
/// both lists go) whose player carries a decodable `url` parameter, in the
/// order of the pairs, named by the title and holding that URL; every pair
/// has a title and a parsable address.
pub proof fn lemma_servers_one_per_found_pair(
    titles: Seq<Option<Seq<char>>>,
    sources: Seq<Option<Seq<char>>>,
)
    requires
        servers_from(titles, sources, 0) is Some,
        servers_from(titles, sources, 0).unwrap() is Ok,
    ensures
        ({
            let m = if titles.len() < sources.len() {
                titles.len() as int
            } else {
                sources.len() as int
            };
            let v = servers_from(titles, sources, 0).unwrap()->Ok_0;
            &&& v.len() == found_before(sources, m)
            &&& forall|j: int|
                0 <= j < m ==> {
                    &&& titles[j] is Some
                    &&& sources[j] is Some
                    &&& player_video_url(sources[j].unwrap()) is Ok
                    &&& (#[trigger] found_url(sources, j)) matches Some(u) ==> v[found_before(
                        sources,
                        j,
                    ) as int] == ServerView { episode_id: 0, name: titles[j].unwrap(), url: u }
                }
        }),
{
    lemma_servers_from_found(titles, sources, 0);
}

/// What `Server::extract_many` gives from the pair at index `i` on: the
/// option titles (server names) and the player addresses are paired in
/// order, as far as both go. For each pair the title and the address must
/// be there (else `None`: the page is not of the shape the extraction
/// reads), the address must parse, and where it carries a `url` parameter
/// that decodes, a server with that name and URL is found.
pub open spec fn servers_from(
    titles: Seq<Option<Seq<char>>>,
    sources: Seq<Option<Seq<char>>>,
    i: int,
) -> Option<Result<Seq<ServerView>, ScrapeError>>
    decreases titles.len() - i,
{
    if i < 0 || i >= titles.len() || i >= sources.len() {
        Some(Ok(seq![]))
    } else if titles[i] is None || sources[i] is None {
        None
    } else {
        match player_video_url(sources[i].unwrap()) {
            Err(e) => Some(Err(e)),
            Ok(found) => {
                let here = match found {
                    Some(url) => seq![ServerView { episode_id: 0, name: titles[i].unwrap(), url }],
                    None => seq![],
                };
                prepend_servers(here, servers_from(titles, sources, i + 1))
            },
        }
    }
}

/// What `Server::extract_many` gives for the two selections of an episode
/// page; a selection is `None` where its selector is invalid, and then so
/// is the result.
pub open spec fn extract_servers_spec(
    titles: Option<Seq<Option<Seq<char>>>>,
    sources: Option<Seq<Option<Seq<char>>>>,
) -> Option<Result<Seq<ServerView>, ScrapeError>> {
    match (titles, sources) {
        (Some(t), Some(s)) => servers_from(t, s, 0),
        _ => None,
    }
}

proof fn lemma_prepend_servers(a: Seq<ServerView>, b: Seq<ServerView>, r: Option<Result<Seq<ServerView>, ScrapeError>>)
    ensures
        prepend_servers(a, prepend_servers(b, r)) == prepend_servers(a + b, r),
{
    match r {
        Some(Ok(rest)) => {
            assert(a + (b + rest) =~= (a + b) + rest);
        },
        _ => {},
    }
}

/// The video URL that the query pairs of a player's address carry (see
/// `video_url_in_pairs`).
pub fn video_url_from_pairs(pairs: &Vec<(String, String)>) -> (r: Result<Option<String>, ScrapeError>)
    ensures
        video_url_view(r) == video_url_in_pairs(pairs_view(pairs@)),
{
    let ghost pv = pairs_view(pairs@);
    let key = "url".to_owned();
    let mut k: usize = 0;
    while k < pairs.len()
        invariant
            k <= pairs.len(),
            pv == pairs_view(pairs@),
            key@ == "url"@,
            first_value_from(pv, "url"@, 0) == first_value_from(pv, "url"@, k as int),
        decreases pairs.len() - k,
    {
        if pairs[k].0 == key {
            assert(pv[k as int] == (pairs@[k as int].0@, pairs@[k as int].1@));
            assert(pv[k as int].0 == "url"@);
            assert(first_value_from(pv, "url"@, k as int) == Some(pv[k as int].1));
            return match percent_decode_utf8(pairs[k].1.as_str()) {
                Ok(u) => Ok(Some(u)),
                Err(_) => Err(ScrapeError::InvalidUtf8),
            };
        }
        k = k + 1;
    }
    Ok(None)
}

/// The video URL that the player address `src` carries (see
/// `player_video_url`).
pub fn video_url_of_player(src: &str) -> (r: Result<Option<String>, ScrapeError>)
    ensures
        video_url_view(r) == player_video_url(src@),
{
    match parse_query_pairs(src) {
        Ok(pairs) => video_url_from_pairs(&pairs),
        Err(_) => Err(ScrapeError::InvalidUrl),
    }
}

impl Server {
    /// Pairs the option titles with the player addresses of an episode page
    /// (see `servers_from`).
    pub fn from_selections(titles: &Vec<Option<String>>, sources: &Vec<Option<String>>) -> (r: Option<
        Result<Vec<Server>, ScrapeError>,
    >)
        ensures
            servers_outcome_view(r) == servers_from(
                attributes_view(titles@),
                attributes_view(sources@),
                0,
            ),
    {
        let ghost t = attributes_view(titles@);
        let ghost s = attributes_view(sources@);
        let mut servers: Vec<Server> = Vec::new();
        let mut i: usize = 0;
        while i < titles.len() && i < sources.len()
            invariant
                i <= titles.len(),
                i <= sources.len(),
                t == attributes_view(titles@),
                s == attributes_view(sources@),
                servers_from(t, s, 0) == prepend_servers(servers_view(servers@), servers_from(t, s, i as int)),
            decreases titles.len() - i,
        {
            let name = match &titles[i] {
                Some(n) => n.clone(),
                None => return None,
            };
            let src = match &sources[i] {
                Some(u) => u,
                None => return None,
            };
            let found = video_url_of_player(src.as_str());
            let ghost old_servers = servers_view(servers@);
            match found {
                Err(e) => {
                    return Some(Err(e));
                },
                Ok(Some(url)) => {
                    let ghost here = seq![ServerView { episode_id: 0, name: name@, url: url@ }];
                    servers.push(Server { episode_id: 0, name, url });
                    proof {
                        assert(servers_view(servers@) =~= old_servers + here);
                        lemma_prepend_servers(old_servers, here, servers_from(t, s, i + 1));
                    }
                },
                Ok(None) => {
                    proof {
                        assert(old_servers + seq![] =~= old_servers);
                        lemma_prepend_servers(old_servers, seq![], servers_from(t, s, i + 1));
                    }
                },
            }
            i = i + 1;
        }
        assert(servers_view(servers@) + seq![] =~= servers_view(servers@));
        Some(Ok(servers))
    }

    /// Extracts the servers of an episode page: the titles of
    /// `ul.TPlayerNv li` paired with the sources of `div.TPlayer iframe`.
    pub fn extract_many(doc: &Html) -> (r: Option<Result<Vec<Server>, ScrapeError>>)
        ensures
            servers_outcome_view(r) == extract_servers_spec(
                css_select_attribute(doc.source@, "ul.TPlayerNv li"@, "title"@),
                css_select_attribute(doc.source@, "div.TPlayer iframe"@, "src"@),
            ),
    {
        let source = doc.source.as_str();
        let titles = select_attribute(source, "ul.TPlayerNv li", "title");
        let sources = select_attribute(source, "div.TPlayer iframe", "src");
        match (titles, sources) {
            (Some(t), Some(s)) => Server::from_selections(&t, &s),
            _ => None,
        }
    }
}

} // verus!
