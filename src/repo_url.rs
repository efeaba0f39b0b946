use vstd::prelude::*;

verus! {

#[verifier::external_type_specification]
#[verifier::external_body]
pub struct ExParseError(url::ParseError);

/// What `Url::parse` makes of a string, as plain values: the scheme, the
/// host, the path segments (`None` for a URL that cannot be a base) and the
/// serialized URL.
pub uninterp spec fn url_parse_of(s: Seq<char>) -> Option<
    (Seq<char>, Option<Seq<char>>, Option<Seq<Seq<char>>>, Seq<char>),
>;

/// A parsed URL, reduced to the parts that the directory layout reads.
#[derive(Clone, Debug)]
pub struct RepoUrl {
    pub scheme: String,
    pub host: Option<String>,
    pub segments: Option<Vec<String>>,
    pub text: String,
}

/// The views of a list of strings.
pub open spec fn texts(v: Seq<String>) -> Seq<Seq<char>> {
    v.map_values(|s: String| s@)
}

impl RepoUrl {
    pub open spec fn host_view(&self) -> Option<Seq<char>> {
        match self.host {
            Some(h) => Some(h@),
            None => None,
        }
    }

    pub open spec fn segments_view(&self) -> Option<Seq<Seq<char>>> {
        match self.segments {
            Some(v) => Some(texts(v@)),
            None => None,
        }
    }

    /// The URL as plain values, in the shape that `url_parse_of` gives.
    pub open spec fn parts(&self) -> (Seq<char>, Option<Seq<char>>, Option<Seq<Seq<char>>>, Seq<char>) {
        (self.scheme@, self.host_view(), self.segments_view(), self.text@)
    }
}

/// Relies on `url::Url::parse`, and on `Url::scheme`, `Url::host_str`,
/// `Url::path_segments` and `Url::as_str` to read the result back.
#[verifier::external_body]
fn url_parse(src: &str) -> (r: Result<RepoUrl, url::ParseError>)
    ensures
        r is Ok <==> url_parse_of(src@) is Some,
        r is Ok ==> url_parse_of(src@) == Some(r->Ok_0.parts()),
{
    let u = url::Url::parse(src)?;
    Ok(RepoUrl {
        scheme: u.scheme().to_string(),
        host: u.host_str().map(|h| h.to_string()),
        segments: u.path_segments().map(|it| it.map(|s| s.to_string()).collect()),
        text: u.as_str().to_string(),
    })
}

/// Why a repository reference could not be turned into a clone target.
#[derive(Debug)]
pub enum CloneError {
    /// The text is not a URL.
    Parse(url::ParseError),
    /// The URL has no path segments to read (it cannot be a base).
    NoPathSegments,
}

/// Parses `src` as an absolute URL.
pub fn parse_url(src: &str) -> (r: Result<RepoUrl, CloneError>)
    ensures
        r is Ok <==> url_parse_of(src@) is Some,
        r is Ok ==> url_parse_of(src@) == Some(r->Ok_0.parts()),
        r is Err ==> r->Err_0 is Parse,
{
    match url_parse(src) {
        Ok(u) => Ok(u),
        Err(e) => Err(CloneError::Parse(e)),
    }
}

} // verus!
