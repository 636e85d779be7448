use vstd::prelude::*;
use std::collections::VecDeque;
use crate::error::{Error, ExtractionError, extraction_kind};
use crate::source::{SourceUrl, opt_view, same_text, has_prefix, starts_with, last_segment, last_segment_of};

verus! {

/// An image record of a decoded response: only its link is read.
pub struct ImageRecord {
    pub link: Option<String>,
}

/// A gallery record of a decoded response: its images, if it listed any.
pub struct GalleryRecord {
    pub images: Option<Vec<ImageRecord>>,
}

/// The `data` payload of a decoded response, in the shape that was decoded.
pub enum PageData {
    Image(ImageRecord),
    Images(Vec<ImageRecord>),
    Gallery(GalleryRecord),
}

/// The source shape that a fetch strategy serves.
#[derive(Debug, Clone, Copy, PartialEq, Eq, Structural)]
pub enum Shape {
    SingleImage,
    Album,
    Gallery,
}

/// The state of a fetch strategy: its shape, the identifier of its remote
/// collection, and whether its page has been fetched.
pub ghost struct StrategyModel {
    pub shape: Shape,
    pub id: Seq<char>,
    pub complete: bool,
}

/// The view of a queue of locations.
pub open spec fn deque_view(v: VecDeque<String>) -> Seq<Seq<char>> {
    v@.map_values(|s: String| s@)
}

/// The API endpoint that serves the page of a strategy.
pub open spec fn endpoint_of(shape: Shape, id: Seq<char>) -> Seq<char> {
    match shape {
        Shape::SingleImage => "https://api.imgur.com/3/image/"@ + id,
        Shape::Album => "https://api.imgur.com/3/album/"@ + id + "/images"@,
        Shape::Gallery => "https://api.imgur.com/3/gallery/album/"@ + id,
    }
}

/// Whether every record has a link.
pub open spec fn all_linked(recs: Seq<ImageRecord>) -> bool {
    forall|i: int| 0 <= i < recs.len() ==> (#[trigger] recs[i]).link is Some
}

/// The links of the records, in order.
pub open spec fn links_of(recs: Seq<ImageRecord>) -> Seq<Seq<char>> {
    recs.map_values(|r: ImageRecord| opt_view(r.link)->Some_0)
}

/// The links of a list of records, or an image failure when one lacks its link.
pub open spec fn record_links(recs: Seq<ImageRecord>) -> Result<Seq<Seq<char>>, ExtractionError> {
    if all_linked(recs) {
        Ok(links_of(recs))
    } else {
        Err(ExtractionError::Image)
    }
}

/// The locations that a decoded payload holds for a strategy of the given shape.
/// A missing payload, or one of another shape, lacks metadata; a missing image
/// list or link lacks image data.
pub open spec fn extract_spec(shape: Shape, data: Option<PageData>) -> Result<
    Seq<Seq<char>>,
    ExtractionError,
> {
    match data {
        None => Err(ExtractionError::Metadata),
        Some(PageData::Image(rec)) => if shape == Shape::SingleImage {
            record_links(seq![rec])
        } else {
            Err(ExtractionError::Metadata)
        },
        Some(PageData::Images(recs)) => if shape == Shape::Album {
            record_links(recs@)
        } else {
            Err(ExtractionError::Metadata)
        },
        Some(PageData::Gallery(g)) => if shape == Shape::Gallery {
            match g.images {
                Some(recs) => record_links(recs@),
                None => Err(ExtractionError::Image),
            }
        } else {
            Err(ExtractionError::Metadata)
        },
    }
}

/// How one `next_page` call relates the strategy before (`s`), the fetched
/// response, the result and the strategy after (`t`).
pub open spec fn next_page_spec(
    s: StrategyModel,
    fetched: Result<Option<PageData>, Error>,
    r: Result<VecDeque<String>, Error>,
    t: StrategyModel,
) -> bool {
    if s.complete {
        r is Ok && deque_view(r->Ok_0) == Seq::<Seq<char>>::empty() && t == s
    } else {
        match fetched {
            Err(e) => r == Err::<VecDeque<String>, Error>(e) && t == s,
            Ok(d) => match extract_spec(s.shape, d) {
                Ok(links) => r is Ok && deque_view(r->Ok_0) == links && t == (StrategyModel {
                    complete: true,
                    ..s
                }),
                Err(k) => r is Err && extraction_kind(r->Err_0) == Some(k) && t == s,
            },
        }
    }
}

/// The location of the next page of a strategy: none once it is complete.
pub open spec fn page_location_of(s: StrategyModel) -> Option<Seq<char>> {
    if s.complete {
        None
    } else {
        Some(endpoint_of(s.shape, s.id))
    }
}

/// The endpoint that serves the page of a strategy.
fn endpoint(shape: Shape, id: &String) -> (r: String)
    ensures
        r@ == endpoint_of(shape, id@),
{
    match shape {
        Shape::SingleImage => {
            let mut s = String::from_str("https://api.imgur.com/3/image/");
            s.append(id.as_str());
            s
        },
        Shape::Album => {
            let mut s = String::from_str("https://api.imgur.com/3/album/");
            s.append(id.as_str());
            s.append("/images");
            s
        },
        Shape::Gallery => {
            let mut s = String::from_str("https://api.imgur.com/3/gallery/album/");
            s.append(id.as_str());
            s
        },
    }
}

/// The links of a list of records, in order.
fn links_from(recs: &Vec<ImageRecord>) -> (r: Result<VecDeque<String>, Error>)
    ensures
        match record_links(recs@) {
            Ok(links) => r is Ok && deque_view(r->Ok_0) == links,
            Err(k) => r is Err && extraction_kind(r->Err_0) == Some(k),
        },
{
    let mut out: VecDeque<String> = VecDeque::new();
    let mut i: usize = 0;
    while i < recs.len()
        invariant
            i <= recs@.len(),
            all_linked(recs@.subrange(0, i as int)),
            deque_view(out) =~= links_of(recs@.subrange(0, i as int)),
        decreases recs@.len() - i,
    {
        match &recs[i] {
            ImageRecord { link: Some(l) } => {
                let ghost before = out;
                out.push_back(l.clone());
                proof {
                    let prev = recs@.subrange(0, i as int);
                    let next = recs@.subrange(0, i + 1);
                    assert(next =~= prev.push(recs@[i as int]));
                    assert(opt_view(recs@[i as int].link) == Some(l@));
                    assert(deque_view(out) =~= deque_view(before).push(l@));
                    assert(links_of(next) =~= links_of(prev).push(l@));
                    assert forall|j: int| 0 <= j < next.len() implies (#[trigger] next[j]).link is Some by {
                        if j < i {
                            assert(next[j] == prev[j]);
                        }
                    }
                }
            },
            ImageRecord { link: None } => {
                assert(!all_linked(recs@));
                return Err(Error::Extraction(ExtractionError::Image, "an image lacks its link"));
            },
        }
        i = i + 1;
    }
    assert(recs@.subrange(0, i as int) =~= recs@);
    Ok(out)
}

/// The locations that a decoded payload holds for a strategy of the given shape.
pub fn extract_links(shape: Shape, data: Option<PageData>) -> (r: Result<VecDeque<String>, Error>)
    ensures
        match extract_spec(shape, data) {
            Ok(links) => r is Ok && deque_view(r->Ok_0) == links,
            Err(k) => r is Err && extraction_kind(r->Err_0) == Some(k),
        },
{
    let missing = Error::Extraction(ExtractionError::Metadata, "the response lacks the expected data");
    match data {
        None => Err(missing),
        Some(PageData::Image(rec)) => {
            if shape == Shape::SingleImage {
                let recs = vec![rec];
                assert(recs@ =~= seq![rec]);
                links_from(&recs)
            } else {
                Err(missing)
            }
        },
        Some(PageData::Images(recs)) => {
            if shape == Shape::Album {
                links_from(&recs)
            } else {
                Err(missing)
            }
        },
        Some(PageData::Gallery(g)) => {
            if shape == Shape::Gallery {
                match g.images {
                    Some(recs) => links_from(&recs),
                    None => Err(Error::Extraction(ExtractionError::Image, "the gallery lists no images")),
                }
            } else {
                Err(missing)
            }
        },
    }
}

/// One page step shared by the strategies: nothing once complete; otherwise
/// the fetched response is decoded and, on success, the strategy completes.
fn page_step(
    shape: Shape,
    id: &String,
    is_complete: &mut bool,
    fetched: Result<Option<PageData>, Error>,
) -> (r: Result<VecDeque<String>, Error>)
    ensures
        next_page_spec(
            StrategyModel { shape, id: id@, complete: *old(is_complete) },
            fetched,
            r,
            StrategyModel { shape, id: id@, complete: *final(is_complete) },
        ),
{
    if *is_complete {
        let v: VecDeque<String> = VecDeque::new();
        assert(deque_view(v) =~= Seq::<Seq<char>>::empty());
        return Ok(v);
    }
    match fetched {
        Err(e) => Err(e),
        Ok(d) => {
            let r = extract_links(shape, d);
            if r.is_ok() {
                *is_complete = true;
            }
            r
        },
    }
}

/// Fetches a single image: its page holds one location.
pub struct ImgurSingleImageAccessor {
    id: String,
    is_complete: bool,
}

impl ImgurSingleImageAccessor {
    /// The state of this strategy.
    pub closed spec fn view(&self) -> StrategyModel {
        StrategyModel { shape: Shape::SingleImage, id: self.id@, complete: self.is_complete }
    }

    /// A strategy for the collection `id` that has fetched nothing yet.
    pub fn new(id: String) -> (r: Self)
        ensures
            r.view() == (StrategyModel { shape: Shape::SingleImage, id: id@, complete: false }),
    {
        ImgurSingleImageAccessor { id, is_complete: false }
    }

    /// Where the next page must be fetched from; none once complete.
    pub fn page_location(&self) -> (r: Option<String>)
        ensures
            opt_view(r) == page_location_of(self.view()),
    {
        if self.is_complete {
            None
        } else {
            Some(endpoint(Shape::SingleImage, &self.id))
        }
    }

    /// The next page of locations, given the response fetched from
    /// `page_location`: empty, and nothing changed, once complete.
    pub fn next_page(&mut self, fetched: Result<Option<PageData>, Error>) -> (r: Result<
        VecDeque<String>,
        Error,
    >)
        ensures
            next_page_spec(old(self).view(), fetched, r, final(self).view()),
    {
        page_step(Shape::SingleImage, &self.id, &mut self.is_complete, fetched)
    }
}

/// Fetches an album: its page holds the album's images, in order.
pub struct ImgurAlbumAccessor {
    id: String,
    is_complete: bool,
}

impl ImgurAlbumAccessor {
    /// The state of this strategy.
    pub closed spec fn view(&self) -> StrategyModel {
        StrategyModel { shape: Shape::Album, id: self.id@, complete: self.is_complete }
    }

    /// A strategy for the collection `id` that has fetched nothing yet.
    pub fn new(id: String) -> (r: Self)
        ensures
            r.view() == (StrategyModel { shape: Shape::Album, id: id@, complete: false }),
    {
        ImgurAlbumAccessor { id, is_complete: false }
    }

    /// Where the next page must be fetched from; none once complete.
    pub fn page_location(&self) -> (r: Option<String>)
        ensures
            opt_view(r) == page_location_of(self.view()),
    {
        if self.is_complete {
            None
        } else {
            Some(endpoint(Shape::Album, &self.id))
        }
    }

    /// The next page of locations, given the response fetched from
    /// `page_location`: empty, and nothing changed, once complete.
    pub fn next_page(&mut self, fetched: Result<Option<PageData>, Error>) -> (r: Result<
        VecDeque<String>,
        Error,
    >)
        ensures
            next_page_spec(old(self).view(), fetched, r, final(self).view()),
    {
        page_step(Shape::Album, &self.id, &mut self.is_complete, fetched)
    }
}

/// Fetches a gallery album: its page holds the images listed under the gallery.
pub struct ImgurGalleryAccessor {
    id: String,
    is_complete: bool,
}

impl ImgurGalleryAccessor {
    /// The state of this strategy.
    pub closed spec fn view(&self) -> StrategyModel {
        StrategyModel { shape: Shape::Gallery, id: self.id@, complete: self.is_complete }
    }

    /// A strategy for the collection `id` that has fetched nothing yet.
    pub fn new(id: String) -> (r: Self)
        ensures
            r.view() == (StrategyModel { shape: Shape::Gallery, id: id@, complete: false }),
    {
        ImgurGalleryAccessor { id, is_complete: false }
    }

    /// Where the next page must be fetched from; none once complete.
    pub fn page_location(&self) -> (r: Option<String>)
        ensures
            opt_view(r) == page_location_of(self.view()),
    {
        if self.is_complete {
            None
        } else {
            Some(endpoint(Shape::Gallery, &self.id))
        }
    }

    /// The next page of locations, given the response fetched from
    /// `page_location`: empty, and nothing changed, once complete.
    pub fn next_page(&mut self, fetched: Result<Option<PageData>, Error>) -> (r: Result<
        VecDeque<String>,
        Error,
    >)
        ensures
            next_page_spec(old(self).view(), fetched, r, final(self).view()),
    {
        page_step(Shape::Gallery, &self.id, &mut self.is_complete, fetched)
    }
}

/// A fetch strategy, selected once when a URL is resolved.
pub enum Accessor {
    SingleImage(ImgurSingleImageAccessor),
    Album(ImgurAlbumAccessor),
    Gallery(ImgurGalleryAccessor),
}

impl Accessor {
    /// The state of this strategy.
    pub open spec fn view(&self) -> StrategyModel {
        match self {
            Accessor::SingleImage(a) => a.view(),
            Accessor::Album(a) => a.view(),
            Accessor::Gallery(a) => a.view(),
        }
    }

    /// The source shape this strategy serves, which fixes the shape of its payload.
    pub fn shape(&self) -> (r: Shape)
        ensures
            r == self.view().shape,
    {
        match self {
            Accessor::SingleImage(_) => Shape::SingleImage,
            Accessor::Album(_) => Shape::Album,
            Accessor::Gallery(_) => Shape::Gallery,
        }
    }

    /// Where the next page must be fetched from; none once complete.
    pub fn page_location(&self) -> (r: Option<String>)
        ensures
            opt_view(r) == page_location_of(self.view()),
    {
        match self {
            Accessor::SingleImage(a) => a.page_location(),
            Accessor::Album(a) => a.page_location(),
            Accessor::Gallery(a) => a.page_location(),
        }
    }

    /// The next page of locations, given the response fetched from
    /// `page_location`: empty, and nothing changed, once complete.
    pub fn next_page(&mut self, fetched: Result<Option<PageData>, Error>) -> (r: Result<
        VecDeque<String>,
        Error,
    >)
        ensures
            next_page_spec(old(self).view(), fetched, r, final(self).view()),
    {
        match self {
            Accessor::SingleImage(a) => a.next_page(fetched),
            Accessor::Album(a) => a.next_page(fetched),
            Accessor::Gallery(a) => a.next_page(fetched),
        }
    }
}

/// The shape and collection identifier that a URL designates, if it is an
/// imgur URL: `/a/...` is an album, `/gallery/...` a gallery, anything else on
/// the domain a single image; the identifier is the path's last segment.
pub open spec fn resolve_spec(domain: Option<Seq<char>>, path: Seq<char>) -> Option<(Shape, Seq<char>)> {
    match domain {
        Some(d) => if d == "imgur.com"@ {
            match last_segment_of(path) {
                Some(id) => if starts_with(path, "/a/"@) {
                    Some((Shape::Album, id))
                } else if starts_with(path, "/gallery/"@) {
                    Some((Shape::Gallery, id))
                } else {
                    Some((Shape::SingleImage, id))
                },
                None => None,
            }
        } else {
            None
        },
        None => None,
    }
}

/// The source resolver for imgur URLs.
pub struct ImgurProvider;

impl ImgurProvider {
    /// The fetch strategy for `url`, if it is an imgur URL. Resolution is a local
    /// decision: nothing is fetched, and the strategy starts incomplete.
    pub fn try_get_accessor(&self, url: &SourceUrl) -> (r: Option<Accessor>)
        ensures
            match (r, resolve_spec(opt_view(url.domain), url.path@)) {
                (Some(a), Some((shape, id))) => a.view() == (StrategyModel {
                    shape,
                    id,
                    complete: false,
                }),
                (None, None) => true,
                _ => false,
            },
    {
        let domain = match &url.domain {
            Some(d) => d,
            None => return None,
        };
        if !same_text(domain.as_str(), "imgur.com") {
            return None;
        }
        let id = match last_segment(url.path.as_str()) {
            Some(id) => id,
            None => return None,
        };
        if has_prefix(url.path.as_str(), "/a/") {
            Some(Accessor::Album(ImgurAlbumAccessor::new(id)))
        } else if has_prefix(url.path.as_str(), "/gallery/") {
            Some(Accessor::Gallery(ImgurGalleryAccessor::new(id)))
        } else {
            Some(Accessor::SingleImage(ImgurSingleImageAccessor::new(id)))
        }
    }

    /// The value of the authorization header that identifies this client to
    /// the imgur API.
    pub fn authorization(&self, client_id: &str) -> (r: String)
        ensures
            r@ == "Client-ID "@ + client_id@,
    {
        let mut s = String::from_str("Client-ID ");
        s.append(client_id);
        s
    }
}

/// Whether a URL has the shape of an imgur source: its domain is `imgur.com`
/// and its path starts with `/`.
pub open spec fn registered_shape(domain: Option<Seq<char>>, path: Seq<char>) -> bool {
    domain == Some("imgur.com"@) && path.len() > 0 && path[0] == '/'
}

/// Resolution succeeds exactly on URLs of a registered shape, and yields an
/// album for `/a/` paths, a gallery for `/gallery/` paths and a single image
/// otherwise, keyed by the path's last segment.
pub proof fn lemma_resolution_by_shape(domain: Option<Seq<char>>, path: Seq<char>)
    ensures
        resolve_spec(domain, path) is Some <==> registered_shape(domain, path),
        registered_shape(domain, path) ==> resolve_spec(domain, path) == Some((
            if starts_with(path, "/a/"@) {
                Shape::Album
            } else if starts_with(path, "/gallery/"@) {
                Shape::Gallery
            } else {
                Shape::SingleImage
            },
            last_segment_of(path)->Some_0,
        )),
{
}

/// A single-image strategy yields exactly one location on its first successful
/// page, and from then on no page location and an empty page on every call,
/// whatever response is handed in.
pub proof fn lemma_single_image_one_then_empty(
    s: StrategyModel,
    fetched: Result<Option<PageData>, Error>,
    r: Result<VecDeque<String>, Error>,
    t: StrategyModel,
    later: Result<Option<PageData>, Error>,
    r2: Result<VecDeque<String>, Error>,
    t2: StrategyModel,
)
    requires
        s.shape == Shape::SingleImage,
        !s.complete,
        next_page_spec(s, fetched, r, t),
        r is Ok,
        next_page_spec(t, later, r2, t2),
    ensures
        deque_view(r->Ok_0).len() == 1,
        t.complete,
        page_location_of(t) is None,
        r2 is Ok,
        deque_view(r2->Ok_0).len() == 0,
        t2 == t,
{
    let d = fetched->Ok_0;
    match d {
        Some(PageData::Image(rec)) => {
            assert(links_of(seq![rec]).len() == 1);
        },
        _ => {},
    }
}

} // verus!
