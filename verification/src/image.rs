//! Images that are posted to the gallery: where they come from, how they are
//! named, and which of the sizes that Telegram offers is taken.

use vstd::prelude::*;

use crate::text::{opt_view, owned, rsplit_once, spec_rsplit_once};

verus! {

/// The identifiers under which Telegram serves a file.
#[derive(Clone, Debug, PartialEq, Eq)]
pub struct FileMeta {
    pub id: String,
    pub unique_id: String,
}

/// One of the sizes in which a photo is available.
#[derive(Clone, Debug, PartialEq, Eq)]
pub struct PhotoSize {
    pub file: FileMeta,
    pub width: u32,
    pub height: u32,
}

/// A photo message: every size Telegram offers, and its caption.
#[derive(Clone, Debug, PartialEq, Eq)]
pub struct MediaPhoto {
    pub photo: Vec<PhotoSize>,
    pub caption: Option<String>,
}

/// A document message (an image sent as a file) and its caption.
#[derive(Clone, Debug, PartialEq, Eq)]
pub struct MediaDocument {
    pub file: FileMeta,
    pub caption: Option<String>,
}

/// Where the bytes of an image are found.
#[derive(Clone, Debug, PartialEq, Eq)]
pub enum ImageSource {
    /// A file on local disk, by its path.
    LocalFile(String),
    /// A resource on the web.
    Url(String),
}

/// An image together with the text that describes it.
#[derive(Clone, Debug)]
pub struct Image {
    pub source: ImageSource,
    pub alt_text: String,
}

/// Why an image could not be obtained.
#[derive(Clone, Debug, PartialEq, Eq)]
pub enum ImageError {
    /// Neither the user nor the message gave a description of the image.
    MissingAltText,
    /// A photo message that holds no size at all.
    EmptyMedia,
    /// Telegram did not hand out the file; the message says why.
    MissingMedia(String),
    /// Reading or writing the local copy failed; the message says why.
    IOError(String),
    /// Downloading the file failed; the message says why.
    DownloadError(String),
}

/// The final component of a file system path, as `std::path::Path::file_name`
/// gives it (`None` for a path that ends in `..` or has no component).
pub uninterp spec fn path_file_name(path: Seq<char>) -> Option<Seq<char>>;

/// Calls `std::path::Path::file_name` on `path`. Claims only that the result
/// is the one `path_file_name` names for this path.
#[verifier::external_body]
fn std_path_file_name(path: &str) -> (r: Option<String>)
    ensures
        match r {
            Some(s) => path_file_name(path@) == Some(s@),
            None => path_file_name(path@) is None,
        },
{
    std::path::Path::new(path).file_name().and_then(|n| n.to_str()).map(|n| n.to_string())
}

/// The name that `filename` gives to a web address: the text before the last
/// slash when it is not empty, otherwise the text after it when that is not
/// empty.
pub open spec fn spec_url_filename(url: Seq<char>) -> Option<Seq<char>> {
    match spec_rsplit_once(url, '/') {
        Some((l, r)) => if l.len() > 0 {
            Some(l)
        } else if r.len() > 0 {
            Some(r)
        } else {
            None
        },
        None => None,
    }
}

/// The name under which an image source is uploaded.
pub open spec fn spec_filename(source: ImageSource) -> Option<Seq<char>> {
    match source {
        ImageSource::LocalFile(path) => path_file_name(path@),
        ImageSource::Url(url) => spec_url_filename(url@),
    }
}

impl ImageSource {
    /// The name under which the image is uploaded, if it has one.
    pub fn filename(&self) -> (r: Option<String>)
        ensures
            match r {
                Some(s) => spec_filename(*self) == Some(s@),
                None => spec_filename(*self) is None,
            },
    {
        match self {
            ImageSource::LocalFile(path) => std_path_file_name(path.as_str()),
            ImageSource::Url(url) => match rsplit_once(url.as_str(), '/') {
                Some((l, r)) => {
                    if l.unicode_len() > 0 {
                        Some(owned(l))
                    } else if r.unicode_len() > 0 {
                        Some(owned(r))
                    } else {
                        None
                    }
                },
                None => None,
            },
        }
    }
}

/// The number of pixels of a photo size.
pub open spec fn area(p: PhotoSize) -> int {
    p.width as int * p.height as int
}

/// The size that the largest pixel count picks, the last one among equals.
pub open spec fn best_size_index(sizes: Seq<PhotoSize>) -> Option<int>
    decreases sizes.len(),
{
    if sizes.len() == 0 {
        None
    } else {
        match best_size_index(sizes.drop_last()) {
            None => Some(sizes.len() - 1),
            Some(b) => if area(sizes.last()) >= area(sizes[b]) {
                Some(sizes.len() - 1)
            } else {
                Some(b)
            },
        }
    }
}

/// The chosen size has the largest pixel count, and every later size has
/// fewer pixels.
pub proof fn lemma_best_size_index(sizes: Seq<PhotoSize>)
    ensures
        match best_size_index(sizes) {
            Some(b) => {
                &&& 0 <= b < sizes.len()
                &&& forall|j: int| 0 <= j < sizes.len() ==> area(#[trigger] sizes[j]) <= area(sizes[b])
                &&& forall|j: int| b < j < sizes.len() ==> area(#[trigger] sizes[j]) < area(sizes[b])
            },
            None => sizes.len() == 0,
        },
    decreases sizes.len(),
{
    if sizes.len() > 0 {
        let p = sizes.drop_last();
        lemma_best_size_index(p);
        assert forall|j: int| 0 <= j < p.len() implies #[trigger] p[j] == sizes[j] by {}
        let last = sizes.len() - 1;
        match best_size_index(p) {
            None => {
                assert forall|j: int| 0 <= j < sizes.len() implies area(#[trigger] sizes[j]) <= area(sizes[last]) by {
                    assert(j == last);
                }
            },
            Some(b) => {
                if area(sizes.last()) >= area(sizes[b]) {
                    assert forall|j: int| 0 <= j < sizes.len() implies area(#[trigger] sizes[j]) <= area(sizes[last]) by {
                        if j < last {
                            assert(area(p[j]) <= area(p[b]));
                        }
                    }
                } else {
                    assert forall|j: int| 0 <= j < sizes.len() implies area(#[trigger] sizes[j]) <= area(sizes[b]) by {
                        if j < last {
                            assert(area(p[j]) <= area(p[b]));
                        }
                    }
                    assert forall|j: int| b < j < sizes.len() implies area(#[trigger] sizes[j]) < area(sizes[b]) by {
                        if j < last {
                            assert(area(p[j]) < area(p[b]));
                        }
                    }
                }
            },
        }
    }
}

/// Picks the photo size with the largest pixel count (the last one among
/// equals), as the largest version of a photo.
pub fn best_size(sizes: &Vec<PhotoSize>) -> (r: Option<usize>)
    ensures
        match r {
            Some(i) => best_size_index(sizes@) == Some(i as int),
            None => best_size_index(sizes@) is None,
        },
{
    let n = sizes.len();
    let mut best: Option<usize> = None;
    let mut best_area: u64 = 0;
    let mut i: usize = 0;
    while i < n
        invariant
            n == sizes@.len(),
            i <= n,
            match best {
                Some(b) => best_size_index(sizes@.take(i as int)) == Some(b as int) && b < i
                    && best_area == area(sizes@[b as int]),
                None => best_size_index(sizes@.take(i as int)) is None && i == 0,
            },
        decreases n - i,
    {
        let ghost prefix = sizes@.take(i as int + 1);
        assert(prefix.drop_last() =~= sizes@.take(i as int));
        assert(prefix.last() == sizes@[i as int]);
        let w: u64 = sizes[i].width as u64;
        let h: u64 = sizes[i].height as u64;
        assert(w * h <= u32::MAX as int * u32::MAX as int) by (nonlinear_arith)
            requires
                w <= u32::MAX,
                h <= u32::MAX,
        ;
        let a: u64 = w * h;
        match best {
            None => {
                best = Some(i);
                best_area = a;
            },
            Some(b) => {
                assert(prefix[b as int] == sizes@[b as int]);
                if a >= best_area {
                    best = Some(i);
                    best_area = a;
                }
            },
        }
        i = i + 1;
    }
    assert(sizes@.take(n as int) =~= sizes@);
    best
}

/// The description of an image: the one the user gave, else the caption.
pub open spec fn spec_alt_text(given: Option<Seq<char>>, caption: Option<Seq<char>>) -> Result<Seq<char>, ImageError> {
    match given {
        Some(t) => Ok(t),
        None => match caption {
            Some(c) => Ok(c),
            None => Err(ImageError::MissingAltText),
        },
    }
}

/// Chooses the description of an image: the one the user gave, else the
/// message's caption; without either the image cannot be posted.
pub fn resolve_alt_text(given: &Option<String>, caption: &Option<String>) -> (r: Result<String, ImageError>)
    ensures
        match r {
            Ok(s) => spec_alt_text(opt_view(*given), opt_view(*caption)) == Ok::<Seq<char>, ImageError>(s@),
            Err(e) => spec_alt_text(opt_view(*given), opt_view(*caption)) == Err::<Seq<char>, ImageError>(e),
        },
{
    match given {
        Some(t) => Ok(t.clone()),
        None => match caption {
            Some(c) => Ok(c.clone()),
            None => Err(ImageError::MissingAltText),
        },
    }
}


/// The file of the largest size of a photo, as its identifiers.
pub open spec fn spec_photo_file(p: MediaPhoto) -> Result<(Seq<char>, Seq<char>), ImageError> {
    match best_size_index(p.photo@) {
        None => Err(ImageError::EmptyMedia),
        Some(b) => Ok((p.photo@[b].file.id@, p.photo@[b].file.unique_id@)),
    }
}

/// A copy of file identifiers.
pub fn copy_meta(f: &FileMeta) -> (r: FileMeta)
    ensures
        r.id@ == f.id@,
        r.unique_id@ == f.unique_id@,
{
    FileMeta { id: f.id.clone(), unique_id: f.unique_id.clone() }
}

impl ImageSource {
    /// The file to download for a photo: its largest size. A photo without
    /// any size cannot be downloaded.
    pub fn from_media_photo(media: &MediaPhoto) -> (r: Result<FileMeta, ImageError>)
        ensures
            match r {
                Ok(f) => spec_photo_file(*media) == Ok::<(Seq<char>, Seq<char>), ImageError>((f.id@, f.unique_id@)),
                Err(e) => spec_photo_file(*media) == Err::<(Seq<char>, Seq<char>), ImageError>(e),
            },
    {
        proof {
            lemma_best_size_index(media.photo@);
        }
        match best_size(&media.photo) {
            None => Err(ImageError::EmptyMedia),
            Some(b) => Ok(copy_meta(&media.photo[b].file)),
        }
    }

    /// The file to download for a document.
    pub fn from_media_document(media: &MediaDocument) -> (r: FileMeta)
        ensures
            r.id@ == media.file.id@,
            r.unique_id@ == media.file.unique_id@,
    {
        copy_meta(&media.file)
    }
}

/// What a photo or document message needs to become an image: the file to
/// download and its description.
pub open spec fn spec_parse_photo(media: MediaPhoto, given: Option<Seq<char>>) -> Result<(Seq<char>, Seq<char>, Seq<char>), ImageError> {
    match spec_alt_text(given, opt_view(media.caption)) {
        Err(e) => Err(e),
        Ok(a) => match spec_photo_file(media) {
            Err(e) => Err(e),
            Ok((id, uid)) => Ok((id, uid, a)),
        },
    }
}

impl Image {
    /// What a photo message needs to become an image: the description (the
    /// one given, else the caption) and the file of its largest size. A
    /// missing description is reported before an empty photo.
    pub fn parse_media_photo(media: &MediaPhoto, alt_text: &Option<String>) -> (r: Result<(FileMeta, String), ImageError>)
        ensures
            match r {
                Ok((f, a)) => spec_parse_photo(*media, opt_view(*alt_text))
                    == Ok::<(Seq<char>, Seq<char>, Seq<char>), ImageError>((f.id@, f.unique_id@, a@)),
                Err(e) => spec_parse_photo(*media, opt_view(*alt_text))
                    == Err::<(Seq<char>, Seq<char>, Seq<char>), ImageError>(e),
            },
    {
        let a = match resolve_alt_text(alt_text, &media.caption) {
            Ok(a) => a,
            Err(e) => return Err(e),
        };
        match ImageSource::from_media_photo(media) {
            Ok(f) => Ok((f, a)),
            Err(e) => Err(e),
        }
    }

    /// What a document message needs to become an image: the description
    /// (the one given, else the caption) and its file.
    pub fn parse_media_document(media: &MediaDocument, alt_text: &Option<String>) -> (r: Result<(FileMeta, String), ImageError>)
        ensures
            match r {
                Ok((f, a)) => f.id@ == media.file.id@ && f.unique_id@ == media.file.unique_id@
                    && spec_alt_text(opt_view(*alt_text), opt_view(media.caption)) == Ok::<Seq<char>, ImageError>(a@),
                Err(e) => spec_alt_text(opt_view(*alt_text), opt_view(media.caption)) == Err::<Seq<char>, ImageError>(e),
            },
    {
        let a = match resolve_alt_text(alt_text, &media.caption) {
            Ok(a) => a,
            Err(e) => return Err(e),
        };
        Ok((ImageSource::from_media_document(media), a))
    }
}

/// How an image error reads.
pub open spec fn spec_image_error_text(e: ImageError) -> Seq<char> {
    match e {
        ImageError::MissingAltText => "missing alt text"@,
        ImageError::EmptyMedia => "empty media"@,
        ImageError::MissingMedia(_) => "media missing"@,
        ImageError::IOError(m) => m@,
        ImageError::DownloadError(m) => m@,
    }
}

impl ImageError {
    /// How the error reads.
    pub fn text(&self) -> (r: String)
        ensures
            r@ == spec_image_error_text(*self),
    {
        match self {
            ImageError::MissingAltText => owned("missing alt text"),
            ImageError::EmptyMedia => owned("empty media"),
            ImageError::MissingMedia(_) => owned("media missing"),
            ImageError::IOError(m) => m.clone(),
            ImageError::DownloadError(m) => m.clone(),
        }
    }
}

} // verus!
