//! Destination locator: from a URL of the form `s3://bucket/prefix` to the
//! bucket and the key prefix under which the files are stored.

use vstd::prelude::*;
use vstd::string::*;
use crate::errors::{TransferError, TransferErrorView};
use crate::file::opt_text;
use crate::text::same_text;

verus! {

#[verifier::external_type_specification]
#[verifier::external_body]
pub struct ExParseError(url::ParseError);

/// The components of a parsed URL that the locator reads.
#[derive(Debug, PartialEq, Eq)]
pub struct UrlParts {
    /// The scheme, without the `:` that ends it.
    pub scheme: String,
    /// The host as the URL spells it, where it has one.
    pub host: Option<String>,
    /// The path, with its leading `/` where it has one.
    pub path: String,
}

/// Mathematical model of [`UrlParts`].
pub struct UrlPartsView {
    pub scheme: Seq<char>,
    pub host: Option<Seq<char>>,
    pub path: Seq<char>,
}

impl View for UrlParts {
    type V = UrlPartsView;

    open spec fn view(&self) -> UrlPartsView {
        UrlPartsView { scheme: self.scheme@, host: opt_text(self.host), path: self.path@ }
    }
}

/// The components that the URL parser finds in a text, or `None` where the
/// text is no absolute URL. The parser is the `url` crate's; what it accepts
/// and how it normalizes is not restated here.
pub uninterp spec fn url_parts(input: Seq<char>) -> Option<UrlPartsView>;

/// Parses `input` with `url::Url::parse` and reads off the scheme
/// (`Url::scheme`), the host (`Url::host_str`) and the path (`Url::path`).
/// Trusted: the outcome is a function of the text alone, named
/// [`url_parts`]; nothing more is claimed of it.
#[verifier::external_body]
fn split_url(input: &str) -> (r: Result<UrlParts, url::ParseError>)
    ensures
        match r {
            Ok(parts) => url_parts(input@) == Some(parts@),
            Err(_) => url_parts(input@) is None,
        },
{
    let parsed = url::Url::parse(input)?;
    let host = match parsed.host_str() {
        Some(h) => Some(h.to_string()),
        None => None,
    };
    Ok(UrlParts { scheme: parsed.scheme().to_string(), host, path: parsed.path().to_string() })
}

/// The scheme that a destination must have.
pub open spec fn storage_scheme() -> Seq<char> {
    "s3"@
}

/// A path without its first character where that is a `/`; any other path
/// unchanged. Only one separator is taken off, and none at the end.
pub open spec fn strip_leading_slash(path: Seq<char>) -> Seq<char> {
    if path.len() > 0 && path[0] == '/' {
        path.skip(1)
    } else {
        path
    }
}

/// Bucket and key prefix of a destination, given the components that the
/// URL parser found in it: the host and the path without its leading
/// separator, for a URL of the storage scheme that has a host.
pub open spec fn destination_of(url: Seq<char>, parts: Option<UrlPartsView>) -> Result<
    (Seq<char>, Seq<char>),
    TransferErrorView,
> {
    match parts {
        Some(p) => if p.scheme == storage_scheme() && p.host is Some {
            Ok((p.host.unwrap(), strip_leading_slash(p.path)))
        } else {
            Err(TransferErrorView::InvalidDestination { url })
        },
        None => Err(TransferErrorView::InvalidDestination { url }),
    }
}

/// Whether an outcome of the locator is the one that the model gives.
pub open spec fn is_destination(
    r: Result<(String, String), TransferError>,
    expected: Result<(Seq<char>, Seq<char>), TransferErrorView>,
) -> bool {
    match r {
        Ok((bucket, prefix)) => expected == Ok::<(Seq<char>, Seq<char>), TransferErrorView>(
            (bucket@, prefix@),
        ),
        Err(e) => expected == Err::<(Seq<char>, Seq<char>), TransferErrorView>(e@),
    }
}

/// Takes one leading `/` off a path.
pub fn without_leading_slash(path: &str) -> (r: String)
    ensures
        r@ == strip_leading_slash(path@),
{
    let n = path.unicode_len();
    if n > 0 && path.get_char(0) == '/' {
        let rest = path.substring_char(1, n);
        assert(path@.subrange(1, n as int) == path@.skip(1));
        String::from_str(rest)
    } else {
        String::from_str(path)
    }
}

/// Bucket and key prefix for the URL `url`, whose parsed components are
/// `parts` (`None` where it did not parse).
pub fn locate(url: &str, parts: Option<UrlParts>) -> (r: Result<(String, String), TransferError>)
    ensures
        is_destination(
            r,
            destination_of(
                url@,
                match parts {
                    Some(p) => Some(p@),
                    None => None,
                },
            ),
        ),
{
    match parts {
        Some(p) => {
            if same_text(p.scheme.as_str(), "s3") {
                match p.host {
                    Some(host) => Ok((host, without_leading_slash(p.path.as_str()))),
                    None => Err(TransferError::InvalidDestination { url: String::from_str(url) }),
                }
            } else {
                Err(TransferError::InvalidDestination { url: String::from_str(url) })
            }
        },
        None => Err(TransferError::InvalidDestination { url: String::from_str(url) }),
    }
}

/// Splits a destination URL into the bucket name and the key prefix.
///
/// The URL must have the scheme `s3` and a host, which is the bucket. The
/// prefix is the URL's path without its leading `/`; a `/` at its end stays.
/// Anything else is an invalid destination.
pub fn parse_s3_url(u: &str) -> (r: Result<(String, String), TransferError>)
    ensures
        is_destination(r, destination_of(u@, url_parts(u@))),
{
    let parts = match split_url(u) {
        Ok(p) => Some(p),
        Err(_) => None,
    };
    locate(u, parts)
}

/// Where the objects of one run are stored.
#[derive(Debug, PartialEq, Eq)]
pub struct S3Destination {
    pub bucket: String,
    /// Prepended to each file name as it is; may be empty.
    pub prefix: String,
}

/// Mathematical model of an [`S3Destination`].
pub struct S3DestinationView {
    pub bucket: Seq<char>,
    pub prefix: Seq<char>,
}

impl View for S3Destination {
    type V = S3DestinationView;

    open spec fn view(&self) -> S3DestinationView {
        S3DestinationView { bucket: self.bucket@, prefix: self.prefix@ }
    }
}

impl Clone for S3Destination {
    fn clone(&self) -> (r: Self)
        ensures
            r@ == self@,
    {
        S3Destination { bucket: self.bucket.clone(), prefix: self.prefix.clone() }
    }
}

impl S3DestinationView {
    /// The key under which a file of this name is stored: the prefix, then
    /// the name, with nothing between them.
    pub open spec fn object_key(self, filename: Seq<char>) -> Seq<char> {
        self.prefix + filename
    }
}

impl S3Destination {
    /// The key under which a file of this name is stored.
    pub fn object_key(&self, filename: &str) -> (key: String)
        ensures
            key@ == self@.object_key(filename@),
    {
        self.prefix.clone().concat(filename)
    }
}

/// A prefix without a separator at its start comes from a path with exactly
/// one, and the separators at the end of a path are all kept.
pub proof fn lemma_strip_takes_one_separator(path: Seq<char>)
    ensures
        strip_leading_slash(path).len() == if path.len() > 0 && path[0] == '/' {
            path.len() - 1
        } else {
            path.len() as int
        },
        strip_leading_slash(seq!['/'] + path) == path,
        path.len() > 1 ==> strip_leading_slash(path).last() == path.last(),
{
    assert((seq!['/'] + path).skip(1) =~= path);
}

/// A destination is located exactly for a URL that parses, has the storage
/// scheme and names a host. The bucket is then the host, and the prefix
/// depends on the path alone.
pub proof fn lemma_located_exactly_for_storage_urls(url: Seq<char>, parts: Option<UrlPartsView>)
    ensures
        destination_of(url, parts) is Ok <==> (parts matches Some(p) && p.scheme
            == storage_scheme() && p.host is Some),
        destination_of(url, parts) matches Ok(located) ==> located.0 == parts.unwrap().host.unwrap()
            && located.1 == strip_leading_slash(parts.unwrap().path),
        destination_of(url, parts) matches Err(e) ==> e == (
        TransferErrorView::InvalidDestination { url }),
{
}

/// Files of different names are stored under different keys, so that a run
/// writes one object for each name, and a second run to the same
/// destination writes to the keys of the first.
pub proof fn lemma_object_key_is_injective(
    destination: S3DestinationView,
    first: Seq<char>,
    second: Seq<char>,
)
    ensures
        destination.object_key(first) == destination.object_key(second) <==> first == second,
        destination.object_key(first).len() == destination.prefix.len() + first.len(),
{
    let a = destination.object_key(first);
    let b = destination.object_key(second);
    if a == b {
        assert(first.len() == second.len()) by {
            assert(a.len() == destination.prefix.len() + first.len());
            assert(b.len() == destination.prefix.len() + second.len());
        }
        assert forall|i: int| 0 <= i < first.len() implies first[i] == second[i] by {
            assert(a[destination.prefix.len() + i] == first[i]);
            assert(b[destination.prefix.len() + i] == second[i]);
        }
        assert(first =~= second);
    }
}

/// The keys of a batch: where no two files of a batch have the same name,
/// no two of them are stored under the same key, so that the destination
/// ends up with one object for each file, however often the batch is run.
pub proof fn lemma_one_key_for_each_name(destination: S3DestinationView, names: Seq<Seq<char>>)
    requires
        names.no_duplicates(),
    ensures
        names.map_values(|name: Seq<char>| destination.object_key(name)).no_duplicates(),
        names.map_values(|name: Seq<char>| destination.object_key(name)).len() == names.len(),
{
    let keys = names.map_values(|name: Seq<char>| destination.object_key(name));
    assert forall|i: int, j: int| 0 <= i < keys.len() && 0 <= j < keys.len() && i != j implies keys[i]
        != keys[j] by {
        lemma_object_key_is_injective(destination, names[i], names[j]);
    }
}

} // verus!
