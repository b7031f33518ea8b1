//! Where frontend files come from: a directory on disk, a bundle compiled
//! into the program, or nowhere. The choice is made once, at startup.

use vstd::prelude::*;

use crate::text::lemma_without_leading_slashes;
use crate::text::same_text;
use crate::text::trim_leading_slashes;
use crate::text::without_leading_slashes;

verus! {

/// The name of the document that stands in for a path that names no file.
pub open spec fn index_document() -> Seq<char> {
    "index.html"@
}

/// One file of a bundle: its path relative to the bundle's root, with `/`
/// between segments and none in front, and its bytes.
#[derive(Debug)]
pub struct BundledFile {
    pub path: String,
    pub data: Vec<u8>,
}

/// A read-only set of frontend files.
#[derive(Debug)]
pub struct AssetBundle {
    pub files: Vec<BundledFile>,
}

impl View for AssetBundle {
    type V = Seq<(Seq<char>, Seq<u8>)>;

    open spec fn view(&self) -> Seq<(Seq<char>, Seq<u8>)> {
        Seq::new(self.files@.len(), |i: int| (self.files@[i].path@, self.files@[i].data@))
    }
}

/// The bytes of the first file of `files` whose path is `path`.
pub open spec fn lookup(files: Seq<(Seq<char>, Seq<u8>)>, path: Seq<char>) -> Option<Seq<u8>>
    decreases files.len(),
{
    if files.len() == 0 {
        None
    } else if files[0].0 == path {
        Some(files[0].1)
    } else {
        lookup(files.drop_first(), path)
    }
}

/// The file that a request path asks for: the path without the slashes in
/// front, and the index document where nothing is left.
pub open spec fn candidate_of(request_path: Seq<char>) -> Seq<char> {
    let trimmed = without_leading_slashes(request_path);
    if trimmed.len() == 0 {
        index_document()
    } else {
        trimmed
    }
}

/// The bytes served for a candidate: the candidate's own where the bundle
/// has it, else those of the index document, else none.
pub open spec fn lookup_with_fallback(
    files: Seq<(Seq<char>, Seq<u8>)>,
    candidate: Seq<char>,
) -> Option<Seq<u8>> {
    match lookup(files, candidate) {
        Some(data) => Some(data),
        None => lookup(files, index_document()),
    }
}

/// The media type that `mime_guess` gives for a path. It depends on the
/// path's extension alone; a path without a known extension gets
/// `application/octet-stream`.
pub uninterp spec fn media_type_of(path: Seq<char>) -> Seq<char>;

/// The answer to a request for a frontend file.
#[derive(Debug)]
pub enum AssetReply {
    /// These bytes, with this media type.
    Content { body: Vec<u8>, content_type: String },
    /// Left to the file server of the frontend directory, which serves the
    /// file that the path names, or the directory's index document where it
    /// names none.
    FromDirectory,
    /// There is no such file and no index document.
    NotFound,
}

/// An asset reply as the contracts see it.
pub enum AssetReplyView {
    Content { body: Seq<u8>, content_type: Seq<char> },
    FromDirectory,
    NotFound,
}

impl View for AssetReply {
    type V = AssetReplyView;

    open spec fn view(&self) -> AssetReplyView {
        match self {
            AssetReply::Content { body, content_type } => AssetReplyView::Content {
                body: body@,
                content_type: content_type@,
            },
            AssetReply::FromDirectory => AssetReplyView::FromDirectory,
            AssetReply::NotFound => AssetReplyView::NotFound,
        }
    }
}

/// The reply for what a lookup found, under a given media type.
pub open spec fn reply_for(found: Option<Seq<u8>>, content_type: Seq<char>) -> AssetReplyView {
    match found {
        Some(body) => AssetReplyView::Content { body, content_type },
        None => AssetReplyView::NotFound,
    }
}

/// What a bundle answers to a request path. The media type goes by the
/// candidate, also where the index document stands in for it.
pub open spec fn embedded_reply(
    files: Seq<(Seq<char>, Seq<u8>)>,
    request_path: Seq<char>,
) -> AssetReplyView {
    let candidate = candidate_of(request_path);
    reply_for(lookup_with_fallback(files, candidate), media_type_of(candidate))
}

impl AssetBundle {
    /// A copy of the bytes of the first file whose path is `path`.
    pub fn get(&self, path: &str) -> (data: Option<Vec<u8>>)
        ensures
            match data {
                Some(bytes) => lookup(self@, path@) == Some(bytes@),
                None => lookup(self@, path@) is None,
            },
    {
        let n = self.files.len();
        let mut i: usize = 0;
        assert(self@.skip(0) =~= self@);
        while i < n
            invariant
                n == self.files.len(),
                i <= n,
                lookup(self@, path@) == lookup(self@.skip(i as int), path@),
            decreases n - i,
        {
            let file = &self.files[i];
            assert(self@.skip(i as int)[0] == (file.path@, file.data@));
            if same_text(file.path.as_str(), path) {
                let bytes = file.data.clone();
                assert(bytes@ =~= file.data@);
                return Some(bytes);
            }
            assert(self@.skip(i as int).drop_first() =~= self@.skip(i + 1));
            i += 1;
        }
        None
    }

    /// The bytes for `candidate`, or those of the index document where the
    /// bundle has no such file.
    pub fn get_or_index(&self, candidate: &str) -> (data: Option<Vec<u8>>)
        ensures
            match data {
                Some(bytes) => lookup_with_fallback(self@, candidate@) == Some(bytes@),
                None => lookup_with_fallback(self@, candidate@) is None,
            },
    {
        match self.get(candidate) {
            Some(bytes) => Some(bytes),
            None => self.get("index.html"),
        }
    }
}

/// The file that a request path asks for.
pub fn candidate_for(request_path: &str) -> (candidate: &str)
    ensures
        candidate@ == candidate_of(request_path@),
{
    let trimmed = trim_leading_slashes(request_path);
    if trimmed.is_empty() {
        "index.html"
    } else {
        trimmed
    }
}

/// The reply that carries what a lookup found, under the given media type.
pub fn asset_reply(found: Option<Vec<u8>>, content_type: String) -> (reply: AssetReply)
    ensures
        reply@ == reply_for(
            match found {
                Some(body) => Some(body@),
                None => None,
            },
            content_type@,
        ),
{
    match found {
        Some(body) => AssetReply::Content { body, content_type },
        None => AssetReply::NotFound,
    }
}

/// Serves a request path from a bundle: the file it names, else the index
/// document, else nothing.
pub fn embedded_frontend_handler(bundle: &AssetBundle, request_path: &str) -> (reply: AssetReply)
    ensures
        reply@ == embedded_reply(bundle@, request_path@),
{
    let candidate = candidate_for(request_path);
    let found = bundle.get_or_index(candidate);
    let content_type = guess_media_type(candidate);
    asset_reply(found, content_type)
}

/// Where non-API paths are served from.
#[derive(Debug)]
pub enum AssetResolver {
    /// From the frontend directory on disk.
    Directory,
    /// From the bundle compiled into the program.
    Embedded(AssetBundle),
    /// From nowhere: every non-API path is not found.
    Unavailable,
}

impl AssetResolver {
    /// The source that the startup rule picks: the directory where it
    /// exists, else the bundle where there is one, else none.
    pub open spec fn chosen(directory_exists: bool, bundle: Option<AssetBundle>) -> AssetResolver {
        if directory_exists {
            AssetResolver::Directory
        } else {
            match bundle {
                Some(files) => AssetResolver::Embedded(files),
                None => AssetResolver::Unavailable,
            }
        }
    }

    /// What this source answers to a request path.
    pub open spec fn answer(&self, request_path: Seq<char>) -> AssetReplyView {
        match self {
            AssetResolver::Directory => AssetReplyView::FromDirectory,
            AssetResolver::Embedded(bundle) => embedded_reply(bundle@, request_path),
            AssetResolver::Unavailable => AssetReplyView::NotFound,
        }
    }

    /// Picks the source, once, from what is there at startup.
    pub fn at_startup(directory_exists: bool, bundle: Option<AssetBundle>) -> (resolver:
        AssetResolver)
        ensures
            resolver == AssetResolver::chosen(directory_exists, bundle),
    {
        if directory_exists {
            AssetResolver::Directory
        } else {
            match bundle {
                Some(files) => AssetResolver::Embedded(files),
                None => AssetResolver::Unavailable,
            }
        }
    }

    /// Answers a request for a non-API path.
    pub fn resolve(&self, request_path: &str) -> (reply: AssetReply)
        ensures
            reply@ == self.answer(request_path@),
    {
        match self {
            AssetResolver::Directory => AssetReply::FromDirectory,
            AssetResolver::Embedded(bundle) => embedded_frontend_handler(bundle, request_path),
            AssetResolver::Unavailable => AssetReply::NotFound,
        }
    }
}

/// The directory comes first: where it exists, it serves every non-API
/// path, whether or not a bundle is there too.
pub proof fn lemma_directory_takes_precedence(bundle: Option<AssetBundle>, request_path: Seq<char>)
    ensures
        AssetResolver::chosen(true, bundle) == AssetResolver::Directory,
        AssetResolver::chosen(true, bundle).answer(request_path) == AssetReplyView::FromDirectory,
{
}

/// With the bundle alone, a path that names no file of it gets the index
/// document, and is not found only where the bundle has no index document
/// either.
pub proof fn lemma_unmatched_path_gets_index(bundle: AssetBundle, request_path: Seq<char>)
    requires
        lookup(bundle@, candidate_of(request_path)) is None,
    ensures
        AssetResolver::chosen(false, Some(bundle)) == AssetResolver::Embedded(bundle),
        lookup(bundle@, index_document()) matches Some(index) ==> AssetResolver::chosen(
            false,
            Some(bundle),
        ).answer(request_path) == (AssetReplyView::Content {
            body: index,
            content_type: media_type_of(candidate_of(request_path)),
        }),
        lookup(bundle@, index_document()) is None <==> AssetResolver::chosen(
            false,
            Some(bundle),
        ).answer(request_path) == AssetReplyView::NotFound,
{
}

/// A candidate is a relative path: it is not empty and starts with no
/// slash, as the paths of a bundle's files do.
pub proof fn lemma_candidate_is_relative(request_path: Seq<char>)
    ensures
        candidate_of(request_path).len() > 0,
        candidate_of(request_path)[0] != '/',
{
    lemma_without_leading_slashes(request_path);
    reveal_strlit("index.html");
}

/// With neither directory nor bundle, every path is not found.
pub proof fn lemma_no_source_finds_nothing(request_path: Seq<char>)
    ensures
        AssetResolver::chosen(false, None).answer(request_path) == AssetReplyView::NotFound,
{
}

/// Calls `mime_guess::from_path` on the path and takes
/// `MimeGuess::first_or_octet_stream` of the guess, as text.
///
/// The guess reads the path's text only, never the disk, so the result is
/// named as a function of the path.
#[verifier::external_body]
fn guess_media_type(path: &str) -> (media_type: String)
    ensures
        media_type@ == media_type_of(path@),
{
    let guessed = mime_guess::from_path(path).first_or_octet_stream();
    let text: &str = guessed.as_ref();
    text.to_owned()
}

} // verus!
