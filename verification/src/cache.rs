//! The asset cache's rules: under which file name the image behind a URL is
//! kept, and whether it has to be downloaded.

use vstd::prelude::*;
use vstd::utf8::encode_utf8;
use crate::error::AssetError;
use crate::models::string_views;
use crate::text::{ends_with, is_suffix, lowercase_of, to_lowercase};

verus! {

/// The path of the URL that `reqwest::Url::parse` reads out of `url`, or
/// `None` where it reads none.
pub uninterp spec fn url_path_of(url: Seq<char>) -> Option<Seq<char>>;

/// `reqwest::Url::parse`, and `Url::path` of what it gives: the path of an
/// absolute URL, `None` where the text is no such URL. The result is only
/// named.
#[verifier::external_body]
fn url_path(url: &str) -> (r: Option<String>)
    ensures
        crate::models::opt_view(r) == url_path_of(url@),
{
    match reqwest::Url::parse(url) {
        Ok(u) => Some(u.path().to_string()),
        Err(_) => None,
    }
}

/// The MD5 digest of a byte string.
pub uninterp spec fn md5_of(data: Seq<u8>) -> Seq<u8>;

/// `md5::compute`: the digest of `data`, which has sixteen bytes.
#[verifier::external_body]
fn md5_digest(data: &[u8]) -> (r: Vec<u8>)
    ensures
        r@ == md5_of(data@),
        r@.len() == 16,
{
    md5::compute(data).0.to_vec()
}

/// The lower-case hexadecimal digit of a value below sixteen.
pub open spec fn hex_digit(n: int) -> char {
    if n == 0 {
        '0'
    } else if n == 1 {
        '1'
    } else if n == 2 {
        '2'
    } else if n == 3 {
        '3'
    } else if n == 4 {
        '4'
    } else if n == 5 {
        '5'
    } else if n == 6 {
        '6'
    } else if n == 7 {
        '7'
    } else if n == 8 {
        '8'
    } else if n == 9 {
        '9'
    } else if n == 10 {
        'a'
    } else if n == 11 {
        'b'
    } else if n == 12 {
        'c'
    } else if n == 13 {
        'd'
    } else if n == 14 {
        'e'
    } else {
        'f'
    }
}

/// Two lower-case hexadecimal digits for each byte, high digit first.
pub open spec fn hex_lower(bytes: Seq<u8>) -> Seq<char>
    decreases bytes.len(),
{
    if bytes.len() == 0 {
        Seq::empty()
    } else {
        hex_lower(bytes.drop_last()) + seq![
            hex_digit(bytes.last() as int / 16),
            hex_digit(bytes.last() as int % 16),
        ]
    }
}

fn hex_digit_str(n: u8) -> (r: &'static str)
    requires
        n < 16,
    ensures
        r@ == seq![hex_digit(n as int)],
{
    proof {
        reveal_strlit("0");
        reveal_strlit("1");
        reveal_strlit("2");
        reveal_strlit("3");
        reveal_strlit("4");
        reveal_strlit("5");
        reveal_strlit("6");
        reveal_strlit("7");
        reveal_strlit("8");
        reveal_strlit("9");
        reveal_strlit("a");
        reveal_strlit("b");
        reveal_strlit("c");
        reveal_strlit("d");
        reveal_strlit("e");
        reveal_strlit("f");
    }
    let r = if n == 0 {
        "0"
    } else if n == 1 {
        "1"
    } else if n == 2 {
        "2"
    } else if n == 3 {
        "3"
    } else if n == 4 {
        "4"
    } else if n == 5 {
        "5"
    } else if n == 6 {
        "6"
    } else if n == 7 {
        "7"
    } else if n == 8 {
        "8"
    } else if n == 9 {
        "9"
    } else if n == 10 {
        "a"
    } else if n == 11 {
        "b"
    } else if n == 12 {
        "c"
    } else if n == 13 {
        "d"
    } else if n == 14 {
        "e"
    } else {
        "f"
    };
    assert(r@ =~= seq![hex_digit(n as int)]);
    r
}

/// Writes bytes as lower-case hexadecimal text.
pub fn to_hex(bytes: &Vec<u8>) -> (r: String)
    ensures
        r@ == hex_lower(bytes@),
{
    let mut out = String::new();
    let mut i: usize = 0;
    assert(bytes@.take(0) =~= Seq::<u8>::empty());
    while i < bytes.len()
        invariant
            i <= bytes.len(),
            out@ == hex_lower(bytes@.take(i as int)),
        decreases bytes.len() - i,
    {
        let b = bytes[i];
        let ghost before = out@;
        out.append(hex_digit_str(b / 16));
        out.append(hex_digit_str(b % 16));
        proof {
            let t = bytes@.take(i + 1);
            assert(t.drop_last() =~= bytes@.take(i as int));
            assert(t.last() == b);
            assert(out@ =~= before + seq![hex_digit(b as int / 16), hex_digit(b as int % 16)]);
        }
        i += 1;
    }
    assert(bytes@.take(bytes.len() as int) =~= bytes@);
    out
}

/// The pieces of `s` between the occurrences of `sep`. There is always at
/// least one piece; a piece may be empty.
pub open spec fn split(s: Seq<char>, sep: char) -> Seq<Seq<char>>
    decreases s.len(),
{
    if s.len() == 0 {
        seq![Seq::empty()]
    } else {
        let init = split(s.drop_last(), sep);
        if s.last() == sep {
            init.push(Seq::empty())
        } else {
            init.update(init.len() - 1, init.last().push(s.last()))
        }
    }
}

pub proof fn lemma_split_nonempty(s: Seq<char>, sep: char)
    ensures
        split(s, sep).len() >= 1,
    decreases s.len(),
{
    if s.len() > 0 {
        lemma_split_nonempty(s.drop_last(), sep);
    }
}

/// Cuts `s` at every `sep`.
pub fn split_on(s: &str, sep: char) -> (r: Vec<String>)
    ensures
        string_views(r@) == split(s@, sep),
{
    let n = s.unicode_len();
    let mut out: Vec<String> = Vec::new();
    let mut start: usize = 0;
    let mut i: usize = 0;
    assert(s@.subrange(0, 0) =~= Seq::<char>::empty());
    assert(s@.take(0) =~= Seq::<char>::empty());
    assert(string_views(out@).push(s@.subrange(0, 0)) =~= seq![Seq::<char>::empty()]);
    while i < n
        invariant
            n == s@.len(),
            start <= i <= n,
            string_views(out@).push(s@.subrange(start as int, i as int)) == split(
                s@.take(i as int),
                sep,
            ),
        decreases n - i,
    {
        let c = s.get_char(i);
        let ghost done = string_views(out@);
        let ghost open = s@.subrange(start as int, i as int);
        proof {
            let t = s@.take(i + 1);
            assert(t.drop_last() =~= s@.take(i as int));
            assert(t.last() == c);
            lemma_split_nonempty(s@.take(i as int), sep);
        }
        if c == sep {
            let piece = s.substring_char(start, i).to_owned();
            out.push(piece);
            start = i + 1;
            assert(s@.subrange(start as int, i + 1) =~= Seq::<char>::empty());
            assert(string_views(out@) =~= done.push(open));
        } else {
            assert(s@.subrange(start as int, i + 1) =~= open.push(c));
            assert(done.push(open.push(c)) =~= done.push(open).update(
                done.len() as int,
                open.push(c),
            ));
        }
        i += 1;
    }
    let piece = s.substring_char(start, n).to_owned();
    let ghost done = string_views(out@);
    out.push(piece);
    assert(s@.take(n as int) =~= s@);
    assert(string_views(out@) =~= done.push(s@.subrange(start as int, n as int)));
    out
}

/// The segments of a URL's path: what lies between the slashes after the
/// leading one. A path that does not begin with a slash has none.
pub open spec fn segments_of(path: Seq<char>) -> Option<Seq<Seq<char>>> {
    if path.len() > 0 && path[0] == '/' {
        Some(split(path.skip(1), '/'))
    } else {
        None
    }
}

/// Cuts a URL's path into its segments.
pub fn path_segments(path: &str) -> (r: Option<Vec<String>>)
    ensures
        match r {
            Some(v) => segments_of(path@) == Some(string_views(v@)),
            None => segments_of(path@) is None,
        },
{
    let n = path.unicode_len();
    if n == 0 {
        return None;
    }
    if path.get_char(0) != '/' {
        return None;
    }
    let rest = path.substring_char(1, n);
    assert(rest@ =~= path@.skip(1));
    Some(split_on(rest, '/'))
}

/// A name that, in lower case, ends like a picture file the cache knows.
pub open spec fn is_image_name(name: Seq<char>) -> bool {
    let l = lowercase_of(name);
    is_suffix(l, ".jpg"@) || is_suffix(l, ".png"@) || is_suffix(l, ".avif"@)
}

/// A name that, in lower case, ends in `.avif`: a container the display
/// layer cannot draw.
pub open spec fn is_avif_name(name: Seq<char>) -> bool {
    is_suffix(lowercase_of(name), ".avif"@)
}

/// The last of `segs` that is an image name.
pub open spec fn last_image(segs: Seq<Seq<char>>) -> Option<Seq<char>>
    decreases segs.len(),
{
    if segs.len() == 0 {
        None
    } else if is_image_name(segs.last()) {
        Some(segs.last())
    } else {
        last_image(segs.drop_last())
    }
}

/// The file name under which the image at `url`, whose path is `path`, is
/// cached: the last path segment that is an image name, with `.png` added
/// where it is an AVIF name; where no segment is an image name, the MD5
/// digest of the URL's text in hexadecimal, and `.png`. A path without
/// segments has no name.
pub open spec fn name_for_path(url: Seq<char>, path: Seq<char>) -> Option<Seq<char>> {
    match segments_of(path) {
        None => None,
        Some(segs) => Some(
            match last_image(segs) {
                Some(seg) => if is_avif_name(seg) {
                    seg + ".png"@
                } else {
                    seg
                },
                None => hex_lower(md5_of(encode_utf8(url))) + ".png"@,
            },
        ),
    }
}

/// The file name under which the image at `url` is cached, or the reason
/// why it has none.
pub open spec fn cache_name(url: Seq<char>) -> Result<Seq<char>, AssetError> {
    match url_path_of(url) {
        None => Err(AssetError::BadUrl),
        Some(path) => match name_for_path(url, path) {
            None => Err(AssetError::NoPathSegments),
            Some(name) => Ok(name),
        },
    }
}

fn find_last_image(segs: &Vec<String>) -> (r: Option<usize>)
    ensures
        match r {
            Some(i) => i < segs.len() && last_image(string_views(segs@)) == Some(segs[i as int]@),
            None => last_image(string_views(segs@)) is None,
        },
{
    let ghost all = string_views(segs@);
    let mut i: usize = segs.len();
    assert(all.take(i as int) =~= all);
    while i > 0
        invariant
            i <= segs.len(),
            all == string_views(segs@),
            last_image(all) == last_image(all.take(i as int)),
        decreases i,
    {
        let low = to_lowercase(segs[i - 1].as_str());
        proof {
            let t = all.take(i as int);
            assert(t.last() == segs[i - 1]@);
            assert(t.drop_last() =~= all.take(i - 1));
        }
        if ends_with(low.as_str(), ".jpg") || ends_with(low.as_str(), ".png") || ends_with(
            low.as_str(),
            ".avif",
        ) {
            return Some(i - 1);
        }
        i -= 1;
    }
    None
}

/// Derives the cache file name of a URL from its text and its path.
pub fn file_name_for_path(url: &str, path: &str) -> (r: Result<String, AssetError>)
    ensures
        match r {
            Ok(name) => name_for_path(url@, path@) == Some(name@),
            Err(e) => e == AssetError::NoPathSegments && name_for_path(url@, path@) is None,
        },
{
    let segs = match path_segments(path) {
        Some(v) => v,
        None => {
            return Err(AssetError::NoPathSegments);
        },
    };
    match find_last_image(&segs) {
        Some(i) => {
            let mut name = segs[i].clone();
            let low = to_lowercase(name.as_str());
            if ends_with(low.as_str(), ".avif") {
                name.append(".png");
            }
            Ok(name)
        },
        None => {
            let digest = md5_digest(url.as_bytes());
            let mut name = to_hex(&digest);
            name.append(".png");
            Ok(name)
        },
    }
}

/// Derives the cache file name from a URL.
pub fn cache_file_name(url: &str) -> (r: Result<String, AssetError>)
    ensures
        match r {
            Ok(name) => cache_name(url@) == Ok::<Seq<char>, AssetError>(name@),
            Err(e) => cache_name(url@) == Err::<Seq<char>, AssetError>(e),
        },
{
    match url_path(url) {
        None => Err(AssetError::BadUrl),
        Some(path) => file_name_for_path(url, path.as_str()),
    }
}

/// What to do for an image: it lies in the cache under this name, or it has
/// to be fetched and stored under this name.
#[derive(Debug, PartialEq, Eq)]
pub enum CacheStep {
    Cached(String),
    Fetch(String),
}

pub enum CacheStepView {
    Cached(Seq<char>),
    Fetch(Seq<char>),
}

impl View for CacheStep {
    type V = CacheStepView;

    open spec fn view(&self) -> CacheStepView {
        match self {
            CacheStep::Cached(n) => CacheStepView::Cached(n@),
            CacheStep::Fetch(n) => CacheStepView::Fetch(n@),
        }
    }
}

/// The step for `url` when the cache directory holds `files`: no download
/// where a file of the URL's cache name is there.
pub open spec fn cache_step(url: Seq<char>, files: Seq<Seq<char>>) -> Result<
    CacheStepView,
    AssetError,
> {
    match cache_name(url) {
        Err(e) => Err(e),
        Ok(name) => if files.contains(name) {
            Ok(CacheStepView::Cached(name))
        } else {
            Ok(CacheStepView::Fetch(name))
        },
    }
}

fn contains_name(files: &Vec<String>, name: &String) -> (r: bool)
    ensures
        r == string_views(files@).contains(name@),
{
    let mut i: usize = 0;
    while i < files.len()
        invariant
            i <= files.len(),
            forall|j: int| 0 <= j < i ==> files[j]@ != name@,
        decreases files.len() - i,
    {
        if files[i] == *name {
            assert(string_views(files@)[i as int] == name@);
            return true;
        }
        i += 1;
    }
    assert forall|j: int| 0 <= j < string_views(files@).len() implies string_views(files@)[j]
        != name@ by {}
    false
}

/// Decides how the image at `url` comes into the cache, given the names of
/// the files that the cache directory holds. The directory is the only
/// record of what was fetched before.
pub fn download_img_to_cache(url: &str, cached: &Vec<String>) -> (r: Result<CacheStep, AssetError>)
    ensures
        match r {
            Ok(step) => cache_step(url@, string_views(cached@)) == Ok::<CacheStepView, AssetError>(
                step@,
            ),
            Err(e) => cache_step(url@, string_views(cached@)) == Err::<CacheStepView, AssetError>(
                e,
            ),
        },
{
    let name = match cache_file_name(url) {
        Ok(n) => n,
        Err(e) => {
            return Err(e);
        },
    };
    if contains_name(cached, &name) {
        Ok(CacheStep::Cached(name))
    } else {
        Ok(CacheStep::Fetch(name))
    }
}

/// Once the image of a URL was stored under its cache name, asking again
/// for the same URL finds it there, under the same name, whatever else the
/// directory has come to hold.
pub proof fn lemma_second_resolve_is_cached(
    url: Seq<char>,
    files: Seq<Seq<char>>,
    later: Seq<Seq<char>>,
)
    requires
        cache_step(url, files) is Ok,
        forall|n: Seq<char>| files.contains(n) ==> later.contains(n),
        cache_step(url, files) matches Ok(CacheStepView::Fetch(name)) ==> later.contains(name),
    ensures
        cache_name(url) is Ok,
        cache_step(url, later) == Ok::<CacheStepView, AssetError>(
            CacheStepView::Cached(cache_name(url)->Ok_0),
        ),
{
}

/// The image of an AVIF segment is kept under another name than the
/// segment's: the segment with `.png` behind it.
pub proof fn lemma_avif_is_renamed(url: Seq<char>, path: Seq<char>)
    requires
        segments_of(path) matches Some(segs) && last_image(segs) matches Some(seg) && is_avif_name(
            seg,
        ),
    ensures
        name_for_path(url, path) == Some(last_image(segments_of(path)->0)->0 + ".png"@),
        is_suffix(name_for_path(url, path)->0, ".png"@),
        name_for_path(url, path)->0 != last_image(segments_of(path)->0)->0,
{
    let seg = last_image(segments_of(path)->0)->0;
    let name = seg + ".png"@;
    reveal_strlit(".png");
    assert(name.subrange(name.len() - 4, name.len() as int) =~= ".png"@);
    assert(name.len() != seg.len());
}

/// A name made from the digest of the URL ends in `.png`.
pub proof fn lemma_digest_name_is_png(url: Seq<char>, path: Seq<char>)
    requires
        segments_of(path) matches Some(segs) && last_image(segs) is None,
    ensures
        name_for_path(url, path) == Some(hex_lower(md5_of(encode_utf8(url))) + ".png"@),
        is_suffix(name_for_path(url, path)->0, ".png"@),
{
    let name = hex_lower(md5_of(encode_utf8(url))) + ".png"@;
    reveal_strlit(".png");
    assert(name.subrange(name.len() - 4, name.len() as int) =~= ".png"@);
}

} // verus!
