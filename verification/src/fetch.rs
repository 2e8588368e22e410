//! From "which image is wanted" to an image: the choice of a service, the
//! request to it, and what is made of its answer. The request itself is sent
//! by the caller, who hands back what came of it.
//!
//! A failure of the request, or of reading the answer, is reported to the
//! caller as a [`FetchError`]. Nothing is tried a second time and no image is
//! made up in place of the one that could not be had.

use vstd::prelude::*;
use rand::Rng;
use crate::image::{Builder, Extension, Field, Image, ImageView, Size, Source, UNKNOWN};
use crate::images::waifu_im;

verus! {

/// Which images a request asks for, by their suitability for work.
#[derive(Clone, Copy, Debug, PartialEq, Eq, Structural)]
pub enum Filter {
    /// Any image.
    Random,
    /// Only images that are safe for work.
    Sfw,
    /// Only images that are not safe for work.
    Nsfw,
}

/// Why no image came of a request.
#[derive(Clone, Copy, Debug, PartialEq, Eq, Structural)]
pub enum FetchError {
    /// The service could not be reached, or it answered with a failure.
    Transport,
    /// The answer is not JSON.
    NotJson,
    /// The answer does not hold what the given field is filled from.
    Missing(Field),
}

/// What a service says of one image, in the service's own terms.
#[derive(Debug)]
pub struct Reply {
    /// Link to the image at full resolution.
    pub url: String,
    /// Link to a smaller version of the image.
    pub preview: String,
    /// Link to the page where the image was found.
    pub source: String,
    pub width: u64,
    pub height: u64,
    /// Whether the image is not suitable for work.
    pub nsfw: bool,
    /// The file format, as free text.
    pub ext: String,
}

/// What a [`Reply`] holds, as mathematical values.
pub struct ReplyView {
    pub url: Seq<char>,
    pub preview: Seq<char>,
    pub source: Seq<char>,
    pub width: u64,
    pub height: u64,
    pub nsfw: bool,
    pub ext: Seq<char>,
}

impl View for Reply {
    type V = ReplyView;

    open spec fn view(&self) -> ReplyView {
        ReplyView {
            url: self.url@,
            preview: self.preview@,
            source: self.source@,
            width: self.width,
            height: self.height,
            nsfw: self.nsfw,
            ext: self.ext@,
        }
    }
}

/// What came of sending a request.
#[derive(Debug)]
pub enum Response {
    /// The service answered, with this text.
    Body(String),
    /// The service could not be reached, or it answered with a failure.
    Failed,
}

impl View for Response {
    type V = Option<Seq<char>>;

    open spec fn view(&self) -> Option<Seq<char>> {
        match self {
            Response::Body(body) => Some(body@),
            Response::Failed => None,
        }
    }
}

/// A request for one image that is yet to be sent.
#[derive(Debug)]
pub struct Request {
    /// The service to ask.
    pub source: Source,
    /// Which images are asked for.
    pub filter: Filter,
    /// The address to get.
    pub url: String,
}

/// What is left to do to have an image.
#[derive(Debug)]
pub enum Fetch {
    /// Nothing: this is the image.
    Ready(Image),
    /// This request is to be sent, and what comes of it handed to
    /// [`Request::complete`].
    Pending(Request),
}

impl ReplyView {
    /// The image that the reply describes, as fetched from `source`: the
    /// links, the flag and the size are taken over, the format is the one
    /// that the reply's text names, and what a reply does not tell holds its
    /// default.
    pub open spec fn image(self, source: Source) -> ImageView {
        ImageView {
            source,
            artist: UNKNOWN@,
            character: UNKNOWN@,
            series: UNKNOWN@,
            post_url: self.source,
            img_url: self.url,
            preview_url: self.preview,
            extension: match Extension::named_by(self.ext) {
                Some(format) => format,
                None => Extension::Unknown,
            },
            is_nsfw: self.nsfw,
            size: Size { width: self.width, height: self.height },
        }
    }

    /// Whether the reply is one that a service may give to a request with
    /// `filter`.
    pub open spec fn honours(self, filter: Filter) -> bool {
        match filter {
            Filter::Random => true,
            Filter::Sfw => !self.nsfw,
            Filter::Nsfw => self.nsfw,
        }
    }
}

/// The services that images can be fetched from, each once. A random choice
/// is made among these, with equal weight.
pub open spec fn provider_list() -> Seq<Source> {
    seq![Source::WaifuIm]
}

/// The address at which `source` is asked for one image under `filter`. The
/// synthetic source is not asked and has none.
pub open spec fn address(source: Source, filter: Filter) -> Option<Seq<char>> {
    match source {
        Source::Synthetic => None,
        Source::WaifuIm => Some(waifu_im::address(filter)),
    }
}

/// What the text of an answer from `source` says of the image, or why it says
/// nothing. The synthetic source gives no answers, so no text is one of its.
pub open spec fn reply_in(source: Source, body: Seq<char>) -> Result<ReplyView, FetchError> {
    match source {
        Source::Synthetic => Err(FetchError::Transport),
        Source::WaifuIm => waifu_im::answer(body),
    }
}

/// The image that comes of asking `source`, given what came of the request:
/// the text of the answer, or nothing. The synthetic source is not asked and
/// always gives the image in which nothing is known.
pub open spec fn outcome(source: Source, response: Option<Seq<char>>) -> Result<
    ImageView,
    FetchError,
> {
    if !source.is_provider() {
        Ok(ImageView::defaults())
    } else {
        match response {
            None => Err(FetchError::Transport),
            Some(body) => match reply_in(source, body) {
                Ok(reply) => Ok(reply.image(source)),
                Err(error) => Err(error),
            },
        }
    }
}

/// `Rng::gen_range` on the generator that `rand::thread_rng` hands out, over
/// the numbers from zero up to `bound`, `bound` left out. The number returned
/// lies in that range, and that is all that holds of every call. An empty
/// range makes `gen_range` panic, so `bound` must not be zero.
#[verifier::external_body]
fn random_below(bound: usize) -> (index: usize)
    requires
        bound > 0,
    ensures
        index < bound,
{
    rand::thread_rng().gen_range(0..bound)
}

impl Source {
    /// The services that images can be fetched from.
    pub fn providers() -> (list: Vec<Source>)
        ensures
            list@ == provider_list(),
    {
        let mut list: Vec<Source> = Vec::new();
        list.push(Source::WaifuIm);
        list
    }

    /// The service at place `index` of the list of services, if the list is
    /// that long.
    pub fn provider(index: usize) -> (source: Option<Source>)
        ensures
            source == if index < provider_list().len() {
                Some(provider_list()[index as int])
            } else {
                None
            },
    {
        let list = Source::providers();
        if index < list.len() {
            Some(list[index])
        } else {
            None
        }
    }

    /// One of the services that images can be fetched from, chosen at random.
    /// It is never the synthetic source.
    pub fn random() -> (source: Source)
        ensures
            provider_list().contains(source),
            source.is_provider(),
    {
        let list = Source::providers();
        let index = random_below(list.len());
        proof {
            lemma_provider_list_is_exact();
        }
        list[index]
    }

    /// The address at which this source is asked for one image under
    /// `filter`, if it is a service.
    pub fn request_url(self, filter: Filter) -> (url: Option<String>)
        ensures
            match url {
                Some(url) => address(self, filter) == Some(url@),
                None => address(self, filter) is None,
            },
    {
        match self {
            Source::Synthetic => None,
            Source::WaifuIm => Some(waifu_im::request_url(filter)),
        }
    }

    /// Reads the text of an answer from this source.
    pub fn read_reply(self, body: &str) -> (outcome: Result<Reply, FetchError>)
        ensures
            match outcome {
                Ok(reply) => reply_in(self, body@) == Ok::<ReplyView, FetchError>(reply@),
                Err(error) => reply_in(self, body@) == Err::<ReplyView, FetchError>(error),
            },
    {
        match self {
            Source::Synthetic => Err(FetchError::Transport),
            Source::WaifuIm => waifu_im::read_reply(body),
        }
    }
}

impl Request {
    /// The image that comes of this request, given what came of sending it.
    pub fn complete(self, response: Response) -> (image: Result<Image, FetchError>)
        ensures
            match image {
                Ok(image) => outcome(self.source, response@) == Ok::<ImageView, FetchError>(
                    image@,
                ),
                Err(error) => outcome(self.source, response@) == Err::<ImageView, FetchError>(
                    error,
                ),
            },
    {
        Image::from_response(self.source, response)
    }
}

impl Image {
    /// What is left to do to have an image from `src` under `filter`. For the
    /// synthetic source that is nothing: the image is the one in which nothing
    /// is known. For a service it is a request to that service.
    pub fn fetch_image(src: Source, filter: Filter) -> (step: Fetch)
        ensures
            match step {
                Fetch::Ready(image) => !src.is_provider() && image@ == ImageView::defaults(),
                Fetch::Pending(request) => src.is_provider() && request.source == src
                    && request.filter == filter && address(src, filter) == Some(request.url@),
            },
    {
        match src.request_url(filter) {
            None => Fetch::Ready(Image::default()),
            Some(url) => Fetch::Pending(Request { source: src, filter, url }),
        }
    }

    /// What is left to do to have any image from `src`.
    pub fn new(src: Source) -> (step: Fetch)
        ensures
            match step {
                Fetch::Ready(image) => !src.is_provider() && image@ == ImageView::defaults(),
                Fetch::Pending(request) => src.is_provider() && request.source == src
                    && request.filter == Filter::Random && address(src, Filter::Random) == Some(
                    request.url@,
                ),
            },
    {
        Self::fetch_image(src, Filter::Random)
    }

    /// A request for any image to a service chosen at random.
    pub fn random() -> (step: Fetch)
        ensures
            step matches Fetch::Pending(request) && request.source.is_provider() && request.filter
                == Filter::Random && address(request.source, Filter::Random) == Some(
                request.url@,
            ),
    {
        Self::fetch_image(Source::random(), Filter::Random)
    }

    /// A request for an image that is safe for work to a service chosen at
    /// random.
    pub fn fetch_sfw() -> (step: Fetch)
        ensures
            step matches Fetch::Pending(request) && request.source.is_provider() && request.filter
                == Filter::Sfw && address(request.source, Filter::Sfw) == Some(request.url@),
    {
        Self::fetch_image(Source::random(), Filter::Sfw)
    }

    /// A request for an image that is not safe for work to a service chosen
    /// at random.
    pub fn fetch_nsfw() -> (step: Fetch)
        ensures
            step matches Fetch::Pending(request) && request.source.is_provider() && request.filter
                == Filter::Nsfw && address(request.source, Filter::Nsfw) == Some(request.url@),
    {
        Self::fetch_image(Source::random(), Filter::Nsfw)
    }

    /// The image that comes of asking `source`, given what came of the
    /// request. A failure of the request or of reading the answer is handed
    /// on as it is.
    pub fn from_response(source: Source, response: Response) -> (image: Result<Image, FetchError>)
        ensures
            match image {
                Ok(image) => outcome(source, response@) == Ok::<ImageView, FetchError>(image@),
                Err(error) => outcome(source, response@) == Err::<ImageView, FetchError>(error),
            },
    {
        if source == Source::Synthetic {
            return Ok(Image::default());
        }
        match response {
            Response::Failed => Err(FetchError::Transport),
            Response::Body(body) => match source.read_reply(body.as_str()) {
                Ok(reply) => Ok(Image::from_reply(source, reply)),
                Err(error) => Err(error),
            },
        }
    }

    /// The image that `reply` describes, as fetched from `source`.
    pub fn from_reply(source: Source, reply: Reply) -> (image: Image)
        ensures
            image@ == reply@.image(source),
    {
        Builder::new().source(source).post_url(reply.source).img_url(reply.url).preview_url(
            reply.preview,
        ).extension(reply.ext).is_nsfw(reply.nsfw).size(reply.width, reply.height).build()
    }
}

/// The list of services holds every source but the synthetic one, and each
/// once.
pub proof fn lemma_provider_list_is_exact()
    ensures
        forall|source: Source| source.is_provider() <==> provider_list().contains(source),
        provider_list().no_duplicates(),
{
    assert(provider_list()[0] == Source::WaifuIm);
}

/// The synthetic source is never asked, under no filter, and gives the image
/// in which nothing is known, whatever is handed in as the outcome of a
/// request.
pub proof fn lemma_synthetic_gives_defaults(filter: Filter, response: Option<Seq<char>>)
    ensures
        address(Source::Synthetic, filter) is None,
        outcome(Source::Synthetic, response) == Ok::<ImageView, FetchError>(
            ImageView::defaults(),
        ),
{
}

/// An image is always marked with the source that was asked for it. With a
/// source chosen at random, that is never the synthetic one.
pub proof fn lemma_image_keeps_source(source: Source, response: Option<Seq<char>>)
    ensures
        outcome(source, response) matches Ok(image) ==> image.source == source,
{
}

/// Where the service honours the filter of a request in its reply, the image
/// that comes of the request is safe for work if that was asked for, and not
/// safe for work if that was asked for.
pub proof fn lemma_filter_shows_in_image(source: Source, filter: Filter, body: Seq<char>)
    requires
        source.is_provider(),
        reply_in(source, body) matches Ok(reply) ==> reply.honours(filter),
    ensures
        outcome(source, Some(body)) matches Ok(image) ==> {
            &&& filter == Filter::Sfw ==> !image.is_nsfw
            &&& filter == Filter::Nsfw ==> image.is_nsfw
        },
{
}

} // verus!
