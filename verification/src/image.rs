//! The canonical image record, the value types it is made of, and the builder
//! that fills it field by field.

use vstd::prelude::*;
use crate::text::{characters, decimal, decimal_text, lowercase, spells, trim, trimmed};

verus! {

/// Attribution text of an image whose artist, character or series is not known.
pub const UNKNOWN: &'static str = "Unknown";

/// Link text of an image that has no such link.
pub const NOT_AVAILABLE: &'static str = "N/A";

/// The service an image came from.
#[derive(Clone, Copy, Debug, PartialEq, Eq, Structural)]
#[non_exhaustive]
pub enum Source {
    /// No service: the image was put together by hand and nothing is fetched.
    Synthetic,
    /// Images from waifu.im.
    WaifuIm,
}

/// The file format of an image.
#[derive(Clone, Copy, Debug, PartialEq, Eq, Structural)]
#[non_exhaustive]
pub enum Extension {
    /// Nothing is known of the format.
    Unknown,
    Png,
    Jpg,
    Gif,
    Svg,
}

/// The dimensions of an image in pixels.
#[derive(Clone, Copy, Debug, PartialEq, Eq, Structural)]
pub struct Size {
    pub width: u64,
    pub height: u64,
}

/// One image with its metadata. Every field always holds a value: what is not
/// known holds its default.
#[derive(Debug)]
#[non_exhaustive]
pub struct Image {
    /// The service the image came from.
    pub source: Source,
    /// Name of the artist who made the image.
    pub artist: String,
    /// Name of the main character in the image.
    pub character: String,
    /// Name of the source material.
    pub series: String,
    /// Link to the page where the image was found.
    pub post_url: String,
    /// Link to the image at full resolution.
    pub img_url: String,
    /// Link to a smaller version of the image.
    pub preview_url: String,
    /// The file format of the image.
    pub extension: Extension,
    /// Whether the image is not suitable for work.
    pub is_nsfw: bool,
    /// The size of the image in pixels.
    pub size: Size,
}

/// Collects the fields of an [`Image`] one by one. A field that is never set
/// keeps its default.
#[derive(Debug)]
#[non_exhaustive]
pub struct Builder {
    pub source: Source,
    pub artist: String,
    pub character: String,
    pub series: String,
    pub post_url: String,
    pub img_url: String,
    pub preview_url: String,
    pub extension: Extension,
    pub is_nsfw: bool,
    pub size: Size,
}

/// What an [`Image`] or a [`Builder`] holds, as mathematical values.
pub struct ImageView {
    pub source: Source,
    pub artist: Seq<char>,
    pub character: Seq<char>,
    pub series: Seq<char>,
    pub post_url: Seq<char>,
    pub img_url: Seq<char>,
    pub preview_url: Seq<char>,
    pub extension: Extension,
    pub is_nsfw: bool,
    pub size: Size,
}

impl View for Image {
    type V = ImageView;

    open spec fn view(&self) -> ImageView {
        ImageView {
            source: self.source,
            artist: self.artist@,
            character: self.character@,
            series: self.series@,
            post_url: self.post_url@,
            img_url: self.img_url@,
            preview_url: self.preview_url@,
            extension: self.extension,
            is_nsfw: self.is_nsfw,
            size: self.size,
        }
    }
}

impl View for Builder {
    type V = ImageView;

    open spec fn view(&self) -> ImageView {
        ImageView {
            source: self.source,
            artist: self.artist@,
            character: self.character@,
            series: self.series@,
            post_url: self.post_url@,
            img_url: self.img_url@,
            preview_url: self.preview_url@,
            extension: self.extension,
            is_nsfw: self.is_nsfw,
            size: self.size,
        }
    }
}

impl Source {
    /// Whether this is a real service, one that images can be fetched from.
    pub open spec fn is_provider(self) -> bool {
        self != Source::Synthetic
    }

    /// The name under which the source is rendered.
    pub open spec fn label(self) -> Seq<char> {
        match self {
            Source::Synthetic => "None"@,
            Source::WaifuIm => "WaifuIm"@,
        }
    }

    /// The name under which the source is rendered.
    pub fn name(self) -> (name: &'static str)
        ensures
            name@ == self.label(),
    {
        match self {
            Source::Synthetic => "None",
            Source::WaifuIm => "WaifuIm",
        }
    }
}

impl Size {
    /// Width and height in base ten with an `x` between them.
    pub open spec fn rendering(self) -> Seq<char> {
        decimal(self.width as nat) + "x"@ + decimal(self.height as nat)
    }

    /// The size as text, such as `1920x1080`.
    pub fn render(&self) -> (text: String)
        ensures
            text@ == self.rendering(),
    {
        let mut text = decimal_text(self.width);
        text.append("x");
        text.append(decimal_text(self.height).as_str());
        text
    }
}

/// A flag as text.
pub open spec fn flag_label(flag: bool) -> Seq<char> {
    if flag {
        "true"@
    } else {
        "false"@
    }
}

impl Extension {
    /// The name under which the format is rendered.
    pub open spec fn label(self) -> Seq<char> {
        match self {
            Extension::Unknown => "Unknown"@,
            Extension::Png => "Png"@,
            Extension::Jpg => "Jpg"@,
            Extension::Gif => "Gif"@,
            Extension::Svg => "Svg"@,
        }
    }

    /// The name under which the format is rendered.
    pub fn name(self) -> (name: &'static str)
        ensures
            name@ == self.label(),
    {
        match self {
            Extension::Unknown => "Unknown",
            Extension::Png => "Png",
            Extension::Jpg => "Jpg",
            Extension::Gif => "Gif",
            Extension::Svg => "Svg",
        }
    }

    /// The format that the bare lowercase word `word` names.
    pub open spec fn of_word(word: Seq<char>) -> Option<Extension> {
        if word == "jpg"@ || word == "jpeg"@ {
            Some(Extension::Jpg)
        } else if word == "png"@ {
            Some(Extension::Png)
        } else if word == "gif"@ {
            Some(Extension::Gif)
        } else {
            None
        }
    }

    /// `text` without the dot it may begin with.
    pub open spec fn undotted(text: Seq<char>) -> Seq<char> {
        if text.len() > 0 && text.first() == '.' {
            text.drop_first()
        } else {
            text
        }
    }

    /// The format that free text names: the white space at its ends does not
    /// count, nor the case of its letters, nor one leading dot.
    pub open spec fn named_by(text: Seq<char>) -> Option<Extension> {
        Self::of_word(Self::undotted(lowercase(trimmed(text))))
    }

    /// The format named by `lower`, a text already trimmed and in lowercase:
    /// `jpg` or `jpeg`, `png`, `gif`, each with or without one leading dot.
    /// Any other text names none.
    pub fn from_lowercase(lower: &str) -> (format: Option<Extension>)
        ensures
            format == Self::of_word(Self::undotted(lower@)),
    {
        let chars = characters(lower);
        let from: usize = if chars.len() > 0 && chars[0] == '.' {
            1
        } else {
            0
        };
        assert(chars@.skip(from as int) =~= Self::undotted(lower@));
        if spells(&chars, from, "jpg") || spells(&chars, from, "jpeg") {
            Some(Extension::Jpg)
        } else if spells(&chars, from, "png") {
            Some(Extension::Png)
        } else if spells(&chars, from, "gif") {
            Some(Extension::Gif)
        } else {
            None
        }
    }

    /// The format that `text` names, if it names one.
    pub fn parse(text: &str) -> (format: Option<Extension>)
        ensures
            format == Self::named_by(text@),
    {
        let lower = trim(text).to_lowercase();
        Self::from_lowercase(lower.as_str())
    }
}

/// The fields of an image.
#[derive(Clone, Copy, Debug, PartialEq, Eq, Structural)]
pub enum Field {
    Source,
    Artist,
    Character,
    Series,
    PostUrl,
    ImgUrl,
    PreviewUrl,
    Extension,
    IsNsfw,
    Size,
}

/// One call of a setter of the [`Builder`], with the value it was given.
pub enum Setting {
    Source(Source),
    Artist(Seq<char>),
    Character(Seq<char>),
    Series(Seq<char>),
    PostUrl(Seq<char>),
    ImgUrl(Seq<char>),
    PreviewUrl(Seq<char>),
    /// The extension is set from free text.
    Extension(Seq<char>),
    IsNsfw(bool),
    Size(u64, u64),
}

impl Setting {
    /// The field that the setter writes.
    pub open spec fn field(self) -> Field {
        match self {
            Setting::Source(_) => Field::Source,
            Setting::Artist(_) => Field::Artist,
            Setting::Character(_) => Field::Character,
            Setting::Series(_) => Field::Series,
            Setting::PostUrl(_) => Field::PostUrl,
            Setting::ImgUrl(_) => Field::ImgUrl,
            Setting::PreviewUrl(_) => Field::PreviewUrl,
            Setting::Extension(_) => Field::Extension,
            Setting::IsNsfw(_) => Field::IsNsfw,
            Setting::Size(_, _) => Field::Size,
        }
    }

    /// Whether the setter writes at all. Only an extension text that names no
    /// format does not.
    pub open spec fn takes_effect(self) -> bool {
        match self {
            Setting::Extension(text) => Extension::named_by(text) is Some,
            _ => true,
        }
    }

    /// Whether `record` holds in this setter's field what the setter writes
    /// there.
    pub open spec fn holds_in(self, record: ImageView) -> bool {
        match self {
            Setting::Source(source) => record.source == source,
            Setting::Artist(artist) => record.artist == artist,
            Setting::Character(character) => record.character == character,
            Setting::Series(series) => record.series == series,
            Setting::PostUrl(url) => record.post_url == url,
            Setting::ImgUrl(url) => record.img_url == url,
            Setting::PreviewUrl(url) => record.preview_url == url,
            Setting::Extension(text) => Extension::named_by(text) == Some(record.extension),
            Setting::IsNsfw(is_nsfw) => record.is_nsfw == is_nsfw,
            Setting::Size(width, height) => record.size == (Size { width, height }),
        }
    }
}

impl ImageView {
    /// The record after one setter call: the value is stored as it is given,
    /// but for the extension, which is set to the format that the text names
    /// and left as it is where the text names none.
    pub open spec fn apply(self, setting: Setting) -> ImageView {
        match setting {
            Setting::Source(source) => ImageView { source, ..self },
            Setting::Artist(artist) => ImageView { artist, ..self },
            Setting::Character(character) => ImageView { character, ..self },
            Setting::Series(series) => ImageView { series, ..self },
            Setting::PostUrl(post_url) => ImageView { post_url, ..self },
            Setting::ImgUrl(img_url) => ImageView { img_url, ..self },
            Setting::PreviewUrl(preview_url) => ImageView { preview_url, ..self },
            Setting::Extension(text) => match Extension::named_by(text) {
                Some(extension) => ImageView { extension, ..self },
                None => self,
            },
            Setting::IsNsfw(is_nsfw) => ImageView { is_nsfw, ..self },
            Setting::Size(width, height) => ImageView { size: Size { width, height }, ..self },
        }
    }

    /// The record after the setter calls of `settings`, made from first to
    /// last.
    pub open spec fn apply_all(self, settings: Seq<Setting>) -> ImageView
        decreases settings.len(),
    {
        if settings.len() == 0 {
            self
        } else {
            self.apply_all(settings.drop_last()).apply(settings.last())
        }
    }

    /// Whether this record and `other` hold the same in `field`.
    pub open spec fn agrees_on(self, other: ImageView, field: Field) -> bool {
        match field {
            Field::Source => self.source == other.source,
            Field::Artist => self.artist == other.artist,
            Field::Character => self.character == other.character,
            Field::Series => self.series == other.series,
            Field::PostUrl => self.post_url == other.post_url,
            Field::ImgUrl => self.img_url == other.img_url,
            Field::PreviewUrl => self.preview_url == other.preview_url,
            Field::Extension => self.extension == other.extension,
            Field::IsNsfw => self.is_nsfw == other.is_nsfw,
            Field::Size => self.size == other.size,
        }
    }

    /// Every field in a fixed order, each behind its caption.
    pub open spec fn rendering(self) -> Seq<char> {
        "Image fetched from: "@ + self.source.label() + ", Artist: "@ + self.artist
            + ", Character: "@ + self.character + ", Series: "@ + self.series + ", Post URL: "@
            + self.post_url + ", Image URL: "@ + self.img_url + ", Preview URL: "@
            + self.preview_url + ", File type: "@ + self.extension.label() + ", Is NSFW: "@
            + flag_label(self.is_nsfw) + ", Size: "@ + self.size.rendering()
    }

    /// The record in which nothing is known.
    pub open spec fn defaults() -> ImageView {
        ImageView {
            source: Source::Synthetic,
            artist: UNKNOWN@,
            character: UNKNOWN@,
            series: UNKNOWN@,
            post_url: NOT_AVAILABLE@,
            img_url: NOT_AVAILABLE@,
            preview_url: NOT_AVAILABLE@,
            extension: Extension::Unknown,
            is_nsfw: false,
            size: Size { width: 0, height: 0 },
        }
    }
}

impl Default for Source {
    fn default() -> (source: Self)
        ensures
            source == Source::Synthetic,
    {
        Source::Synthetic
    }
}

impl Default for Extension {
    fn default() -> (format: Self)
        ensures
            format == Extension::Unknown,
    {
        Extension::Unknown
    }
}

impl Default for Size {
    fn default() -> (size: Self)
        ensures
            size == (Size { width: 0, height: 0 }),
    {
        Size { width: 0, height: 0 }
    }
}

impl Default for Builder {
    fn default() -> (builder: Self)
        ensures
            builder@ == ImageView::defaults(),
    {
        Builder {
            source: Source::Synthetic,
            artist: String::from_str(UNKNOWN),
            character: String::from_str(UNKNOWN),
            series: String::from_str(UNKNOWN),
            post_url: String::from_str(NOT_AVAILABLE),
            img_url: String::from_str(NOT_AVAILABLE),
            preview_url: String::from_str(NOT_AVAILABLE),
            extension: Extension::Unknown,
            is_nsfw: false,
            size: Size { width: 0, height: 0 },
        }
    }
}

impl Default for Image {
    fn default() -> (image: Self)
        ensures
            image@ == ImageView::defaults(),
    {
        Builder::new().build()
    }
}

impl Image {
    /// The image as one line of text for people to read: every field in a
    /// fixed order, each behind its caption.
    pub fn render(&self) -> (text: String)
        ensures
            text@ == self@.rendering(),
    {
        let mut text = String::from_str("Image fetched from: ");
        text.append(self.source.name());
        text.append(", Artist: ");
        text.append(self.artist.as_str());
        text.append(", Character: ");
        text.append(self.character.as_str());
        text.append(", Series: ");
        text.append(self.series.as_str());
        text.append(", Post URL: ");
        text.append(self.post_url.as_str());
        text.append(", Image URL: ");
        text.append(self.img_url.as_str());
        text.append(", Preview URL: ");
        text.append(self.preview_url.as_str());
        text.append(", File type: ");
        text.append(self.extension.name());
        text.append(", Is NSFW: ");
        text.append(if self.is_nsfw { "true" } else { "false" });
        text.append(", Size: ");
        text.append(self.size.render().as_str());
        text
    }
}

impl Clone for Image {
    fn clone(&self) -> (copy: Self)
        ensures
            copy@ == self@,
    {
        Image {
            source: self.source,
            artist: self.artist.clone(),
            character: self.character.clone(),
            series: self.series.clone(),
            post_url: self.post_url.clone(),
            img_url: self.img_url.clone(),
            preview_url: self.preview_url.clone(),
            extension: self.extension,
            is_nsfw: self.is_nsfw,
            size: self.size,
        }
    }
}

impl PartialEq for Image {
    fn eq(&self, other: &Self) -> (same: bool) {
        self.source == other.source && self.artist == other.artist && self.character
            == other.character && self.series == other.series && self.post_url == other.post_url
            && self.img_url == other.img_url && self.preview_url == other.preview_url
            && self.extension == other.extension && self.is_nsfw == other.is_nsfw && self.size
            == other.size
    }
}

impl vstd::std_specs::cmp::PartialEqSpecImpl for Image {
    open spec fn obeys_eq_spec() -> bool {
        true
    }

    open spec fn eq_spec(&self, other: &Self) -> bool {
        self@ == other@
    }
}

impl Eq for Image {}

impl Builder {
    /// A builder in which every field holds its default.
    #[must_use]
    pub fn new() -> (builder: Self)
        ensures
            builder@ == ImageView::defaults(),
    {
        Builder::default()
    }

    /// Sets the service the image came from.
    #[must_use]
    pub fn source(self, src: Source) -> (builder: Self)
        ensures
            builder@ == self@.apply(Setting::Source(src)),
    {
        Builder { source: src, ..self }
    }

    /// Sets the name of the artist.
    #[must_use]
    pub fn artist(self, artist: String) -> (builder: Self)
        ensures
            builder@ == self@.apply(Setting::Artist(artist@)),
    {
        Builder { artist, ..self }
    }

    /// Sets the name of the main character.
    #[must_use]
    pub fn character(self, character: String) -> (builder: Self)
        ensures
            builder@ == self@.apply(Setting::Character(character@)),
    {
        Builder { character, ..self }
    }

    /// Sets the name of the source material.
    #[must_use]
    pub fn series(self, series: String) -> (builder: Self)
        ensures
            builder@ == self@.apply(Setting::Series(series@)),
    {
        Builder { series, ..self }
    }

    /// Sets the link to the page where the image was found.
    #[must_use]
    pub fn post_url(self, url: String) -> (builder: Self)
        ensures
            builder@ == self@.apply(Setting::PostUrl(url@)),
    {
        Builder { post_url: url, ..self }
    }

    /// Sets the link to the image at full resolution.
    #[must_use]
    pub fn img_url(self, url: String) -> (builder: Self)
        ensures
            builder@ == self@.apply(Setting::ImgUrl(url@)),
    {
        Builder { img_url: url, ..self }
    }

    /// Sets the link to a smaller version of the image.
    #[must_use]
    pub fn preview_url(self, url: String) -> (builder: Self)
        ensures
            builder@ == self@.apply(Setting::PreviewUrl(url@)),
    {
        Builder { preview_url: url, ..self }
    }

    /// Sets the file format to the one that `ext` names. A text that names
    /// none is passed over in silence and the format stays as it is.
    #[must_use]
    pub fn extension(self, ext: String) -> (builder: Self)
        ensures
            builder@ == self@.apply(Setting::Extension(ext@)),
    {
        match Extension::parse(ext.as_str()) {
            Some(extension) => Builder { extension, ..self },
            None => self,
        }
    }

    /// Sets whether the image is not suitable for work.
    #[must_use]
    pub fn is_nsfw(self, is_nsfw: bool) -> (builder: Self)
        ensures
            builder@ == self@.apply(Setting::IsNsfw(is_nsfw)),
    {
        Builder { is_nsfw, ..self }
    }

    /// Sets the size in pixels.
    #[must_use]
    pub fn size(self, width: u64, height: u64) -> (builder: Self)
        ensures
            builder@ == self@.apply(Setting::Size(width, height)),
    {
        Builder { size: Size { width, height }, ..self }
    }

    /// The image made of the fields as they stand.
    #[must_use]
    pub fn build(self) -> (image: Image)
        ensures
            image@ == self@,
    {
        Image {
            source: self.source,
            artist: self.artist,
            character: self.character,
            series: self.series,
            post_url: self.post_url,
            img_url: self.img_url,
            preview_url: self.preview_url,
            extension: self.extension,
            is_nsfw: self.is_nsfw,
            size: self.size,
        }
    }
}

/// The last call among `settings` that writes `field`, if any does.
pub open spec fn last_write(settings: Seq<Setting>, field: Field) -> Option<Setting>
    decreases settings.len(),
{
    if settings.len() == 0 {
        None
    } else if settings.last().takes_effect() && settings.last().field() == field {
        Some(settings.last())
    } else {
        last_write(settings.drop_last(), field)
    }
}

/// A setter call writes its own field, and only where it takes effect; every
/// other field stays as it is.
pub proof fn lemma_setter_writes_its_field(record: ImageView, setting: Setting, field: Field)
    ensures
        setting.takes_effect() ==> setting.holds_in(record.apply(setting)),
        !setting.takes_effect() ==> record.apply(setting) == record,
        field != setting.field() ==> record.apply(setting).agrees_on(record, field),
{
}

/// Setter calls on two different fields commute.
pub proof fn lemma_setters_commute(record: ImageView, first: Setting, second: Setting)
    requires
        first.field() != second.field(),
    ensures
        record.apply(first).apply(second) == record.apply(second).apply(first),
{
}

/// Of two setter calls on one field the later one wins.
pub proof fn lemma_later_setter_wins(record: ImageView, first: Setting, second: Setting)
    requires
        first.field() == second.field(),
        second.takes_effect(),
    ensures
        record.apply(first).apply(second) == record.apply(second),
{
}

/// After any run of setter calls, each field holds what the last call that
/// wrote it gave, and a field that no call wrote holds what it held before.
pub proof fn lemma_last_writes_hold(record: ImageView, settings: Seq<Setting>, field: Field)
    ensures
        match last_write(settings, field) {
            Some(setting) => setting.field() == field && setting.holds_in(
                record.apply_all(settings),
            ),
            None => record.apply_all(settings).agrees_on(record, field),
        },
    decreases settings.len(),
{
    if settings.len() > 0 {
        lemma_last_writes_hold(record, settings.drop_last(), field);
    }
}

/// The order of the setter calls is immaterial as long as each field has the
/// same last write: two runs that agree in that give the same record.
pub proof fn lemma_order_is_immaterial(
    record: ImageView,
    first: Seq<Setting>,
    second: Seq<Setting>,
)
    requires
        forall|field: Field| last_write(first, field) == last_write(second, field),
    ensures
        record.apply_all(first) == record.apply_all(second),
{
    let a = record.apply_all(first);
    let b = record.apply_all(second);
    assert forall|field: Field| a.agrees_on(b, field) by {
        lemma_last_writes_hold(record, first, field);
        lemma_last_writes_hold(record, second, field);
    }
    assert(a.agrees_on(b, Field::Source));
    assert(a.agrees_on(b, Field::Artist));
    assert(a.agrees_on(b, Field::Character));
    assert(a.agrees_on(b, Field::Series));
    assert(a.agrees_on(b, Field::PostUrl));
    assert(a.agrees_on(b, Field::ImgUrl));
    assert(a.agrees_on(b, Field::PreviewUrl));
    assert(a.agrees_on(b, Field::Extension));
    assert(a.agrees_on(b, Field::IsNsfw));
    assert(a.agrees_on(b, Field::Size));
}

} // verus!
