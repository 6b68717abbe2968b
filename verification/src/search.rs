//! Podcast directory search results.
use crate::text::owned;
use vstd::prelude::*;

verus! {

/// A podcast found by a directory search.
#[derive(Debug, Clone)]
pub struct PodcastSearchResult {
    pub title: String,
    pub author: String,
    pub feed_url: String,
    pub artwork_url: Option<String>,
    pub description: Option<String>,
    pub genres: Vec<String>,
}

/// One raw result of the iTunes Search API, as decoded from its JSON.
#[derive(Debug, Clone)]
pub struct ITunesResult {
    pub collection_name: Option<String>,
    pub artist_name: Option<String>,
    pub feed_url: Option<String>,
    pub artwork_url_600: Option<String>,
    pub artwork_url_100: Option<String>,
    pub genres: Option<Vec<String>>,
}

pub open spec fn opt_view(o: Option<String>) -> Option<Seq<char>> {
    match o {
        Some(s) => Some(s@),
        None => None,
    }
}

pub open spec fn strings_view(v: Seq<String>) -> Seq<Seq<char>> {
    v.map_values(|s: String| s@)
}

/// The text content of a search result.
pub struct SearchResultView {
    pub title: Seq<char>,
    pub author: Seq<char>,
    pub feed_url: Seq<char>,
    pub artwork_url: Option<Seq<char>>,
    pub description: Option<Seq<char>>,
    pub genres: Seq<Seq<char>>,
}

impl View for PodcastSearchResult {
    type V = SearchResultView;

    open spec fn view(&self) -> SearchResultView {
        SearchResultView {
            title: self.title@,
            author: self.author@,
            feed_url: self.feed_url@,
            artwork_url: opt_view(self.artwork_url),
            description: opt_view(self.description),
            genres: strings_view(self.genres@),
        }
    }
}

/// What a raw result becomes: nothing without a feed URL; otherwise missing
/// names read "Unknown", the 600px artwork is preferred over the 100px one,
/// there is no description, and missing genres are none.
pub open spec fn converted(r: ITunesResult) -> Option<SearchResultView> {
    match r.feed_url {
        None => None,
        Some(url) => Some(
            SearchResultView {
                title: match r.collection_name {
                    Some(t) => t@,
                    None => "Unknown"@,
                },
                author: match r.artist_name {
                    Some(a) => a@,
                    None => "Unknown"@,
                },
                feed_url: url@,
                artwork_url: match r.artwork_url_600 {
                    Some(a) => Some(a@),
                    None => opt_view(r.artwork_url_100),
                },
                description: None,
                genres: match r.genres {
                    Some(g) => strings_view(g@),
                    None => Seq::empty(),
                },
            },
        ),
    }
}

/// The converted results of `rs`, in order, skipping those without a feed.
pub open spec fn converted_all(rs: Seq<ITunesResult>) -> Seq<SearchResultView>
    decreases rs.len(),
{
    if rs.len() == 0 {
        Seq::empty()
    } else {
        let prev = converted_all(rs.drop_last());
        match converted(rs.last()) {
            Some(v) => prev.push(v),
            None => prev,
        }
    }
}

fn convert_one(r: ITunesResult) -> (out: Option<PodcastSearchResult>)
    ensures
        match out {
            Some(x) => converted(r) == Some(x@),
            None => converted(r) is None,
        },
{
    let ITunesResult { collection_name, artist_name, feed_url, artwork_url_600, artwork_url_100, genres } = r;
    let feed_url = match feed_url {
        Some(u) => u,
        None => return None,
    };
    let title = match collection_name {
        Some(t) => t,
        None => owned("Unknown"),
    };
    let author = match artist_name {
        Some(a) => a,
        None => owned("Unknown"),
    };
    let artwork_url = match artwork_url_600 {
        Some(a) => Some(a),
        None => artwork_url_100,
    };
    let genres = match genres {
        Some(g) => g,
        None => {
            let g: Vec<String> = Vec::new();
            assert(strings_view(g@) =~= Seq::<Seq<char>>::empty());
            g
        },
    };
    Some(PodcastSearchResult { title, author, feed_url, artwork_url, description: None, genres })
}

/// The search results for a decoded API reply: only results with a feed URL
/// are kept, in the order the reply lists them.
pub fn results_from_itunes(results: Vec<ITunesResult>) -> (out: Vec<PodcastSearchResult>)
    ensures
        out@.map_values(|x: PodcastSearchResult| x@) == converted_all(results@),
{
    let n = results.len();
    let mut rest = results;
    let ghost all = rest@;
    let mut out: Vec<PodcastSearchResult> = Vec::new();
    let mut i: usize = 0;
    while rest.len() > 0
        invariant
            i + rest@.len() == all.len(),
            all.len() == n,
            rest@ == all.skip(i as int),
            out@.map_values(|x: PodcastSearchResult| x@) == converted_all(all.take(i as int)),
        decreases rest@.len(),
    {
        let r = rest.remove(0);
        assert(all.take(i + 1).drop_last() == all.take(i as int));
        assert(all.take(i + 1).last() == r);
        let ghost before = out@;
        match convert_one(r) {
            Some(x) => {
                out.push(x);
                assert(out@.map_values(|x: PodcastSearchResult| x@) == before.map_values(|x: PodcastSearchResult| x@).push(x@));
            },
            None => {},
        }
        i = i + 1;
        assert(rest@ == all.skip(i as int));
    }
    assert(all.take(i as int) == all);
    out
}

} // verus!
