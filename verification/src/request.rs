//! What a fetch asks of the network.
use vstd::prelude::*;

verus! {

/// One HTTP GET: the address, and what is put on top of it.
#[derive(Debug)]
pub struct HttpGet {
    /// The address to start from.
    pub url: String,
    /// The path that replaces the one of `url`, where there is one.
    pub path: Option<String>,
    /// The pairs of the query string, in their order.
    pub query: Vec<(String, String)>,
    /// The request headers, in their order.
    pub headers: Vec<(String, String)>,
}

/// The mathematical value of an [`HttpGet`].
pub struct HttpGetView {
    pub url: Seq<char>,
    pub path: Option<Seq<char>>,
    pub query: Seq<(Seq<char>, Seq<char>)>,
    pub headers: Seq<(Seq<char>, Seq<char>)>,
}

/// The characters of each pair of a list.
pub open spec fn pair_texts(pairs: Seq<(String, String)>) -> Seq<(Seq<char>, Seq<char>)> {
    pairs.map_values(|pair: (String, String)| (pair.0@, pair.1@))
}

impl HttpGetView {
    /// The request for `url` as it stands.
    pub open spec fn plain(url: Seq<char>) -> HttpGetView {
        HttpGetView { url, path: None, query: Seq::empty(), headers: Seq::empty() }
    }
}

impl View for HttpGet {
    type V = HttpGetView;

    open spec fn view(&self) -> HttpGetView {
        HttpGetView {
            url: self.url@,
            path: crate::text::opt_text(self.path),
            query: pair_texts(self.query@),
            headers: pair_texts(self.headers@),
        }
    }
}

impl HttpGet {
    /// The request for `url` as it stands.
    pub fn plain(url: String) -> (request: HttpGet)
        ensures
            request@ == HttpGetView::plain(url@),
    {
        let request = HttpGet { url, path: None, query: Vec::new(), headers: Vec::new() };
        assert(request@.query =~= Seq::empty());
        assert(request@.headers =~= Seq::empty());
        request
    }
}

/// Adds the pair of `name` and `value` to `pairs`.
pub(crate) fn add_pair(pairs: &mut Vec<(String, String)>, name: &str, value: String)
    ensures
        pair_texts(final(pairs)@) == pair_texts(old(pairs)@).push((name@, value@)),
{
    pairs.push((name.to_owned(), value));
    assert(pair_texts(pairs@) =~= pair_texts(old(pairs)@).push((name@, value@)));
}

} // verus!
