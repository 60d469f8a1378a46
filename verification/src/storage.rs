//! Media uploads: which files are accepted, under which name they are kept,
//! and how they are described and addressed.
use vstd::prelude::*;
use crate::snapshots::{join, join_path};
use crate::text::{
    after_last_char, after_last_char_str, chars_of, has_prefix, is_alphanumeric_char, lowercase_of,
    push_char, push_signed_decimal, push_str, signed_decimal, starts_with_str, str_eq,
    to_lowercase_string, to_owned_string, alnum_char, is_ascii_alphanumeric,
};

verus! {

broadcast use vstd::string::group_string_axioms;

/// Why an upload was refused or a file operation failed.
#[derive(Debug)]
pub enum StorageError {
    FileTooLarge(usize, usize),
    InvalidFileType(String),
    IoError(String),
    InvalidFilename(String),
}

/// Where media is kept and what is accepted.
pub struct StorageConfig {
    pub base_path: String,
    pub max_file_size: usize,
    pub allowed_types: Vec<String>,
}

/// The media types accepted by default.
pub open spec fn default_allowed_types() -> Seq<Seq<char>> {
    seq![
        "image/jpeg"@, "image/png"@, "image/gif"@, "image/webp"@,
        "video/mp4"@, "video/webm"@, "audio/mpeg"@, "audio/wav"@,
    ]
}

impl Default for StorageConfig {
    /// Media under `/opt/lillpepe/storage`, at most 10 MiB per file, common
    /// image, video and audio types.
    fn default() -> (res: StorageConfig)
        ensures
            res.base_path@ == "/opt/lillpepe/storage"@,
            res.max_file_size == 10 * 1024 * 1024,
            res.allowed_types@.len() == 8,
            forall|i: int| 0 <= i < 8 ==> #[trigger] res.allowed_types@[i]@ == default_allowed_types()[i],
    {
        let mut allowed: Vec<String> = Vec::new();
        allowed.push(to_owned_string("image/jpeg"));
        allowed.push(to_owned_string("image/png"));
        allowed.push(to_owned_string("image/gif"));
        allowed.push(to_owned_string("image/webp"));
        allowed.push(to_owned_string("video/mp4"));
        allowed.push(to_owned_string("video/webm"));
        allowed.push(to_owned_string("audio/mpeg"));
        allowed.push(to_owned_string("audio/wav"));
        StorageConfig {
            base_path: to_owned_string("/opt/lillpepe/storage"),
            max_file_size: 10 * 1024 * 1024,
            allowed_types: allowed,
        }
    }
}

/// Whether `mime` is one of `allowed`.
pub open spec fn type_allowed(allowed: Seq<String>, mime: Seq<char>) -> bool {
    exists|i: int| 0 <= i < allowed.len() && #[trigger] allowed[i]@ == mime
}

/// The storage service.
pub struct StorageService {
    config: StorageConfig,
}

/// Where an accepted upload goes: the name it is stored under in the site's
/// `media` directory, and the URL it is served at.
pub struct StoredUpload {
    pub unique_filename: String,
    pub url: String,
}

/// The URL of a stored media file: `/media/<site>/<file>`.
pub open spec fn media_url(white_label_id: Seq<char>, filename: Seq<char>) -> Seq<char> {
    "/media/"@ + white_label_id + "/"@ + filename
}

/// The stored name of an upload: `<timestamp>_<sanitized name>`.
pub open spec fn unique_filename(timestamp: int, filename: Seq<char>) -> Seq<char> {
    signed_decimal(timestamp) + "_"@ + sanitized(filename)
}

impl StorageService {
    pub closed spec fn config_view(&self) -> (int, Seq<String>) {
        (self.config.max_file_size as int, self.config.allowed_types@)
    }

    /// The directory under which all media is kept.
    pub closed spec fn base_path_view(&self) -> Seq<char> {
        self.config.base_path@
    }

    pub fn new(config: StorageConfig) -> (res: StorageService)
        ensures
            res.config_view() == (config.max_file_size as int, config.allowed_types@),
            res.base_path_view() == config.base_path@,
    {
        StorageService { config }
    }

    /// The directory under which all media is kept.
    pub fn base_path(&self) -> (res: &str)
        ensures
            res@ == self.base_path_view(),
    {
        self.config.base_path.as_str()
    }

    /// The media directory of a site: `<base>/<site>/media`.
    pub fn media_dir(&self, white_label_id: &str) -> (res: String)
        ensures
            res@ == join_path(join_path(self.base_path_view(), white_label_id@), "media"@),
    {
        let site = join(self.config.base_path.as_str(), white_label_id);
        join(site.as_str(), "media")
    }

    /// The stored file of a site: `<base>/<site>/media/<file>`.
    pub fn media_file(&self, white_label_id: &str, filename: &str) -> (res: String)
        ensures
            res@ == join_path(join_path(join_path(self.base_path_view(), white_label_id@), "media"@), filename@),
    {
        let dir = self.media_dir(white_label_id);
        join(dir.as_str(), filename)
    }

    fn type_is_allowed(&self, mime: &str) -> (res: bool)
        ensures
            res == type_allowed(self.config_view().1, mime@),
    {
        let mut i: usize = 0;
        while i < self.config.allowed_types.len()
            invariant
                i <= self.config.allowed_types@.len(),
                forall|k: int| 0 <= k < i ==> self.config.allowed_types@[k]@ != mime@,
            decreases self.config.allowed_types@.len() - i,
        {
            if str_eq(self.config.allowed_types[i].as_str(), mime) {
                return true;
            }
            i += 1;
        }
        false
    }

    /// The checks and naming of `save_file`: a file larger than the limit is
    /// `FileTooLarge(size, limit)`, a type that is not allowed is
    /// `InvalidFileType(type)`; otherwise the file is stored as
    /// `<timestamp>_<sanitized name>` and served under `/media/<site>/...`.
    pub fn plan_upload(
        &self,
        white_label_id: &str,
        filename: &str,
        mime_type: &str,
        size: usize,
        timestamp: i64,
    ) -> (res: Result<StoredUpload, StorageError>)
        ensures
            size > self.config_view().0 ==> (res matches Err(StorageError::FileTooLarge(a, b))
                && a == size && b == self.config_view().0),
            size <= self.config_view().0 && !type_allowed(self.config_view().1, mime_type@)
                ==> (res matches Err(StorageError::InvalidFileType(t)) && t@ == mime_type@),
            size <= self.config_view().0 && type_allowed(self.config_view().1, mime_type@)
                ==> (res matches Ok(u) && u.unique_filename@ == unique_filename(timestamp as int, filename@)
                    && u.url@ == media_url(white_label_id@, u.unique_filename@)),
    {
        if size > self.config.max_file_size {
            return Err(StorageError::FileTooLarge(size, self.config.max_file_size));
        }
        if !self.type_is_allowed(mime_type) {
            return Err(StorageError::InvalidFileType(to_owned_string(mime_type)));
        }
        let safe = sanitize_filename(filename);
        let mut unique = String::new();
        push_signed_decimal(&mut unique, timestamp);
        push_str(&mut unique, "_");
        push_str(&mut unique, safe.as_str());
        assert(unique@ =~= unique_filename(timestamp as int, filename@));
        let url = media_url_text(white_label_id, unique.as_str());
        Ok(StoredUpload { unique_filename: unique, url })
    }
}

/// `/media/<site>/<file>`.
pub fn media_url_text(white_label_id: &str, filename: &str) -> (res: String)
    ensures
        res@ == media_url(white_label_id@, filename@),
{
    let mut url = String::new();
    push_str(&mut url, "/media/");
    push_str(&mut url, white_label_id);
    push_str(&mut url, "/");
    push_str(&mut url, filename);
    url
}

/// The stored file name that a media URL refers to: the part after its last
/// `/`.
pub fn filename_of_url(url: &str) -> (res: String)
    ensures
        res@ == after_last_char(url@, '/'),
{
    after_last_char_str(url, '/')
}

/// A file in a site's media directory.
pub struct FileInfo {
    pub filename: String,
    pub size: u64,
    pub url: String,
    pub mime_type: String,
}

/// The listing entry of a stored file.
pub fn file_info(white_label_id: &str, filename: &str, size: u64) -> (res: FileInfo)
    ensures
        res.filename@ == filename@,
        res.size == size,
        res.url@ == media_url(white_label_id@, filename@),
        res.mime_type@ == mime_for_extension(lowercase_of(after_last_char(filename@, '.'))),
{
    FileInfo {
        filename: to_owned_string(filename),
        size,
        url: media_url_text(white_label_id, filename),
        mime_type: guess_mime_type(filename),
    }
}

// ---------------------------------------------------------------------------
// Names and types
// ---------------------------------------------------------------------------

/// A character is kept in a stored file name when it is alphanumeric
/// (Unicode) or one of `.`, `-`, `_`; any other becomes `_`.
pub open spec fn sanitize_char(c: char) -> char {
    if alnum_char(c) || c == '.' || c == '-' || c == '_' {
        c
    } else {
        '_'
    }
}

/// The name an upload is stored under, character by character.
pub open spec fn sanitized(filename: Seq<char>) -> Seq<char> {
    Seq::new(filename.len(), |i: int| sanitize_char(filename[i]))
}

/// A stored file name never holds a `/`, a space or any other ASCII
/// character but letters, digits, `.`, `-` and `_`.
pub proof fn law_sanitized_name_is_safe(filename: Seq<char>, i: int)
    requires
        0 <= i < filename.len(),
    ensures
        sanitized(filename)[i] <= '\u{7f}' ==> (is_ascii_alphanumeric(sanitized(filename)[i])
            || sanitized(filename)[i] == '.' || sanitized(filename)[i] == '-' || sanitized(filename)[i] == '_'),
        sanitized(filename)[i] != '/',
        sanitized(filename)[i] != ' ',
{
}

/// Replace every character of a file name that is not alphanumeric, `.`,
/// `-` or `_` by `_`.
pub fn sanitize_filename(filename: &str) -> (res: String)
    ensures
        res@ == sanitized(filename@),
{
    let cs = chars_of(filename);
    let mut out = String::new();
    let mut i: usize = 0;
    while i < cs.len()
        invariant
            cs@ == filename@,
            i <= cs@.len(),
            out@ == sanitized(cs@.take(i as int)),
        decreases cs@.len() - i,
    {
        let c = cs[i];
        if is_alphanumeric_char(c) || c == '.' || c == '-' || c == '_' {
            push_char(&mut out, c);
        } else {
            push_char(&mut out, '_');
        }
        assert(out@ =~= sanitized(cs@.take(i + 1)));
        i += 1;
    }
    assert(cs@.take(cs@.len() as int) =~= cs@);
    out
}

/// The media type served for a (lower-cased) file extension.
pub open spec fn mime_for_extension(ext: Seq<char>) -> Seq<char> {
    if ext == "jpg"@ || ext == "jpeg"@ {
        "image/jpeg"@
    } else if ext == "png"@ {
        "image/png"@
    } else if ext == "gif"@ {
        "image/gif"@
    } else if ext == "webp"@ {
        "image/webp"@
    } else if ext == "mp4"@ {
        "video/mp4"@
    } else if ext == "webm"@ {
        "video/webm"@
    } else if ext == "mp3"@ {
        "audio/mpeg"@
    } else if ext == "wav"@ {
        "audio/wav"@
    } else {
        "application/octet-stream"@
    }
}

/// The media type of an extension agrees with the accepted upload types:
/// `jpg` and `jpeg` are JPEG images, `png`, `gif` and `webp` images of those
/// formats, `mp4` and `webm` videos, `mp3` MPEG audio and `wav` WAV audio;
/// each type comes from exactly those extensions, and every other extension
/// is `application/octet-stream`.
pub proof fn law_mime_types(ext: Seq<char>)
    ensures
        mime_for_extension(ext) == "image/jpeg"@ <==> (ext == "jpg"@ || ext == "jpeg"@),
        mime_for_extension(ext) == "image/png"@ <==> ext == "png"@,
        mime_for_extension(ext) == "image/gif"@ <==> ext == "gif"@,
        mime_for_extension(ext) == "image/webp"@ <==> ext == "webp"@,
        mime_for_extension(ext) == "video/mp4"@ <==> ext == "mp4"@,
        mime_for_extension(ext) == "video/webm"@ <==> ext == "webm"@,
        mime_for_extension(ext) == "audio/mpeg"@ <==> ext == "mp3"@,
        mime_for_extension(ext) == "audio/wav"@ <==> ext == "wav"@,
        mime_for_extension(ext) == "application/octet-stream"@ <==> !(ext == "jpg"@ || ext == "jpeg"@ || ext == "png"@ || ext == "gif"@ || ext == "webp"@ || ext == "mp4"@ || ext == "webm"@ || ext == "mp3"@ || ext == "wav"@),
{
    reveal_strlit("jpg");
    reveal_strlit("jpeg");
    reveal_strlit("png");
    reveal_strlit("gif");
    reveal_strlit("webp");
    reveal_strlit("mp4");
    reveal_strlit("webm");
    reveal_strlit("mp3");
    reveal_strlit("wav");
    reveal_strlit("audio/mpeg");
    reveal_strlit("audio/wav");
    reveal_strlit("image/gif");
    reveal_strlit("image/jpeg");
    reveal_strlit("image/png");
    reveal_strlit("image/webp");
    reveal_strlit("video/mp4");
    reveal_strlit("video/webm");
    reveal_strlit("application/octet-stream");
    assert("image/jpeg"@ != "image/png"@ && "image/jpeg"@ != "image/gif"@ && "image/jpeg"@ != "image/webp"@) by {
        assert("image/jpeg"@[6] != "image/png"@[6] && "image/jpeg"@[6] != "image/gif"@[6]);
        assert("image/jpeg"@[6] != "image/webp"@[6]);
    }
    assert("image/jpeg"@ != "image/png"@) by {
        assert("image/jpeg"@.len() != "image/png"@.len());
    }
    assert("image/jpeg"@ != "image/gif"@) by {
        assert("image/jpeg"@.len() != "image/gif"@.len());
    }
    assert("image/jpeg"@ != "image/webp"@) by {
        assert("image/jpeg"@[6] != "image/webp"@[6]);
    }
    assert("image/jpeg"@ != "video/mp4"@) by {
        assert("image/jpeg"@.len() != "video/mp4"@.len());
    }
    assert("image/jpeg"@ != "video/webm"@) by {
        assert("image/jpeg"@[0] != "video/webm"@[0]);
    }
    assert("image/jpeg"@ != "audio/mpeg"@) by {
        assert("image/jpeg"@[0] != "audio/mpeg"@[0]);
    }
    assert("image/jpeg"@ != "audio/wav"@) by {
        assert("image/jpeg"@.len() != "audio/wav"@.len());
    }
    assert("image/jpeg"@ != "application/octet-stream"@) by {
        assert("image/jpeg"@.len() != "application/octet-stream"@.len());
    }
    assert("image/png"@ != "image/gif"@) by {
        assert("image/png"@[6] != "image/gif"@[6]);
    }
    assert("image/png"@ != "image/webp"@) by {
        assert("image/png"@.len() != "image/webp"@.len());
    }
    assert("image/png"@ != "video/mp4"@) by {
        assert("image/png"@[0] != "video/mp4"@[0]);
    }
    assert("image/png"@ != "video/webm"@) by {
        assert("image/png"@.len() != "video/webm"@.len());
    }
    assert("image/png"@ != "audio/mpeg"@) by {
        assert("image/png"@.len() != "audio/mpeg"@.len());
    }
    assert("image/png"@ != "audio/wav"@) by {
        assert("image/png"@[0] != "audio/wav"@[0]);
    }
    assert("image/png"@ != "application/octet-stream"@) by {
        assert("image/png"@.len() != "application/octet-stream"@.len());
    }
    assert("image/gif"@ != "image/webp"@) by {
        assert("image/gif"@.len() != "image/webp"@.len());
    }
    assert("image/gif"@ != "video/mp4"@) by {
        assert("image/gif"@[0] != "video/mp4"@[0]);
    }
    assert("image/gif"@ != "video/webm"@) by {
        assert("image/gif"@.len() != "video/webm"@.len());
    }
    assert("image/gif"@ != "audio/mpeg"@) by {
        assert("image/gif"@.len() != "audio/mpeg"@.len());
    }
    assert("image/gif"@ != "audio/wav"@) by {
        assert("image/gif"@[0] != "audio/wav"@[0]);
    }
    assert("image/gif"@ != "application/octet-stream"@) by {
        assert("image/gif"@.len() != "application/octet-stream"@.len());
    }
    assert("image/webp"@ != "video/mp4"@) by {
        assert("image/webp"@.len() != "video/mp4"@.len());
    }
    assert("image/webp"@ != "video/webm"@) by {
        assert("image/webp"@[0] != "video/webm"@[0]);
    }
    assert("image/webp"@ != "audio/mpeg"@) by {
        assert("image/webp"@[0] != "audio/mpeg"@[0]);
    }
    assert("image/webp"@ != "audio/wav"@) by {
        assert("image/webp"@.len() != "audio/wav"@.len());
    }
    assert("image/webp"@ != "application/octet-stream"@) by {
        assert("image/webp"@.len() != "application/octet-stream"@.len());
    }
    assert("video/mp4"@ != "video/webm"@) by {
        assert("video/mp4"@.len() != "video/webm"@.len());
    }
    assert("video/mp4"@ != "audio/mpeg"@) by {
        assert("video/mp4"@.len() != "audio/mpeg"@.len());
    }
    assert("video/mp4"@ != "audio/wav"@) by {
        assert("video/mp4"@[0] != "audio/wav"@[0]);
    }
    assert("video/mp4"@ != "application/octet-stream"@) by {
        assert("video/mp4"@.len() != "application/octet-stream"@.len());
    }
    assert("video/webm"@ != "audio/mpeg"@) by {
        assert("video/webm"@[0] != "audio/mpeg"@[0]);
    }
    assert("video/webm"@ != "audio/wav"@) by {
        assert("video/webm"@.len() != "audio/wav"@.len());
    }
    assert("video/webm"@ != "application/octet-stream"@) by {
        assert("video/webm"@.len() != "application/octet-stream"@.len());
    }
    assert("audio/mpeg"@ != "audio/wav"@) by {
        assert("audio/mpeg"@.len() != "audio/wav"@.len());
    }
    assert("audio/mpeg"@ != "application/octet-stream"@) by {
        assert("audio/mpeg"@.len() != "application/octet-stream"@.len());
    }
    assert("audio/wav"@ != "application/octet-stream"@) by {
        assert("audio/wav"@.len() != "application/octet-stream"@.len());
    }
    assert("jpg"@ != "jpeg"@) by {
        assert("jpg"@.len() != "jpeg"@.len());
    }
    assert("jpg"@ != "png"@) by {
        assert("jpg"@[0] != "png"@[0]);
    }
    assert("jpg"@ != "gif"@) by {
        assert("jpg"@[0] != "gif"@[0]);
    }
    assert("jpg"@ != "webp"@) by {
        assert("jpg"@.len() != "webp"@.len());
    }
    assert("jpg"@ != "mp4"@) by {
        assert("jpg"@[0] != "mp4"@[0]);
    }
    assert("jpg"@ != "webm"@) by {
        assert("jpg"@.len() != "webm"@.len());
    }
    assert("jpg"@ != "mp3"@) by {
        assert("jpg"@[0] != "mp3"@[0]);
    }
    assert("jpg"@ != "wav"@) by {
        assert("jpg"@[0] != "wav"@[0]);
    }
    assert("jpeg"@ != "png"@) by {
        assert("jpeg"@.len() != "png"@.len());
    }
    assert("jpeg"@ != "gif"@) by {
        assert("jpeg"@.len() != "gif"@.len());
    }
    assert("jpeg"@ != "webp"@) by {
        assert("jpeg"@[0] != "webp"@[0]);
    }
    assert("jpeg"@ != "mp4"@) by {
        assert("jpeg"@.len() != "mp4"@.len());
    }
    assert("jpeg"@ != "webm"@) by {
        assert("jpeg"@[0] != "webm"@[0]);
    }
    assert("jpeg"@ != "mp3"@) by {
        assert("jpeg"@.len() != "mp3"@.len());
    }
    assert("jpeg"@ != "wav"@) by {
        assert("jpeg"@.len() != "wav"@.len());
    }
    assert("png"@ != "gif"@) by {
        assert("png"@[0] != "gif"@[0]);
    }
    assert("png"@ != "webp"@) by {
        assert("png"@.len() != "webp"@.len());
    }
    assert("png"@ != "mp4"@) by {
        assert("png"@[0] != "mp4"@[0]);
    }
    assert("png"@ != "webm"@) by {
        assert("png"@.len() != "webm"@.len());
    }
    assert("png"@ != "mp3"@) by {
        assert("png"@[0] != "mp3"@[0]);
    }
    assert("png"@ != "wav"@) by {
        assert("png"@[0] != "wav"@[0]);
    }
    assert("gif"@ != "webp"@) by {
        assert("gif"@.len() != "webp"@.len());
    }
    assert("gif"@ != "mp4"@) by {
        assert("gif"@[0] != "mp4"@[0]);
    }
    assert("gif"@ != "webm"@) by {
        assert("gif"@.len() != "webm"@.len());
    }
    assert("gif"@ != "mp3"@) by {
        assert("gif"@[0] != "mp3"@[0]);
    }
    assert("gif"@ != "wav"@) by {
        assert("gif"@[0] != "wav"@[0]);
    }
    assert("webp"@ != "mp4"@) by {
        assert("webp"@.len() != "mp4"@.len());
    }
    assert("webp"@ != "webm"@) by {
        assert("webp"@[3] != "webm"@[3]);
    }
    assert("webp"@ != "mp3"@) by {
        assert("webp"@.len() != "mp3"@.len());
    }
    assert("webp"@ != "wav"@) by {
        assert("webp"@.len() != "wav"@.len());
    }
    assert("mp4"@ != "webm"@) by {
        assert("mp4"@.len() != "webm"@.len());
    }
    assert("mp4"@ != "mp3"@) by {
        assert("mp4"@[2] != "mp3"@[2]);
    }
    assert("mp4"@ != "wav"@) by {
        assert("mp4"@[0] != "wav"@[0]);
    }
    assert("webm"@ != "mp3"@) by {
        assert("webm"@.len() != "mp3"@.len());
    }
    assert("webm"@ != "wav"@) by {
        assert("webm"@.len() != "wav"@.len());
    }
    assert("mp3"@ != "wav"@) by {
        assert("mp3"@[0] != "wav"@[0]);
    }
}

/// The media type of a file, from the lower-cased text after its last `.`
/// (the whole name when it has none).
pub fn guess_mime_type(filename: &str) -> (res: String)
    ensures
        res@ == mime_for_extension(lowercase_of(after_last_char(filename@, '.'))),
{
    let last = after_last_char_str(filename, '.');
    let ext = to_lowercase_string(last.as_str());
    let e = ext.as_str();
    let mime = if str_eq(e, "jpg") || str_eq(e, "jpeg") {
        "image/jpeg"
    } else if str_eq(e, "png") {
        "image/png"
    } else if str_eq(e, "gif") {
        "image/gif"
    } else if str_eq(e, "webp") {
        "image/webp"
    } else if str_eq(e, "mp4") {
        "video/mp4"
    } else if str_eq(e, "webm") {
        "video/webm"
    } else if str_eq(e, "mp3") {
        "audio/mpeg"
    } else if str_eq(e, "wav") {
        "audio/wav"
    } else {
        "application/octet-stream"
    };
    to_owned_string(mime)
}

/// The kind of media recorded for a media type.
pub open spec fn media_kind(mime: Seq<char>) -> Seq<char> {
    if has_prefix(mime, "image/"@) {
        "image"@
    } else if has_prefix(mime, "video/"@) {
        "video"@
    } else if has_prefix(mime, "audio/"@) {
        "audio"@
    } else {
        "other"@
    }
}

/// The kind recorded for a media type follows its top-level type: every
/// `image/...` is an image, every `video/...` a video, every `audio/...`
/// audio, and anything else `other`; so each type guessed for an image,
/// video or audio extension is recorded under that kind.
pub proof fn law_media_kinds(mime: Seq<char>, ext: Seq<char>)
    ensures
        has_prefix(mime, "image/"@) ==> media_kind(mime) == "image"@,
        has_prefix(mime, "video/"@) ==> media_kind(mime) == "video"@,
        has_prefix(mime, "audio/"@) ==> media_kind(mime) == "audio"@,
        !(has_prefix(mime, "image/"@) || has_prefix(mime, "video/"@) || has_prefix(mime, "audio/"@))
            ==> media_kind(mime) == "other"@,
        (ext == "jpg"@ || ext == "jpeg"@ || ext == "png"@ || ext == "gif"@ || ext == "webp"@) ==> media_kind(
            mime_for_extension(ext),
        ) == "image"@,
        (ext == "mp4"@ || ext == "webm"@) ==> media_kind(mime_for_extension(ext)) == "video"@,
        (ext == "mp3"@ || ext == "wav"@) ==> media_kind(mime_for_extension(ext)) == "audio"@,
{
    reveal_strlit("image/");
    reveal_strlit("video/");
    reveal_strlit("audio/");
    if mime.len() >= 6 {
        assert(mime.take(6)[0] == mime[0]);
    }
    law_mime_types(ext);
    reveal_strlit("image/jpeg");
    reveal_strlit("image/png");
    reveal_strlit("image/gif");
    reveal_strlit("image/webp");
    reveal_strlit("video/mp4");
    reveal_strlit("video/webm");
    reveal_strlit("audio/mpeg");
    reveal_strlit("audio/wav");
    assert("image/jpeg"@.take(6) =~= "image/"@);
    assert("image/png"@.take(6) =~= "image/"@);
    assert("image/gif"@.take(6) =~= "image/"@);
    assert("image/webp"@.take(6) =~= "image/"@);
    assert("video/mp4"@.take(6) =~= "video/"@);
    assert("video/webm"@.take(6) =~= "video/"@);
    assert("audio/mpeg"@.take(6) =~= "audio/"@);
    assert("audio/wav"@.take(6) =~= "audio/"@);
    assert(!has_prefix("video/mp4"@, "image/"@) && !has_prefix("video/webm"@, "image/"@)) by {
        assert("video/mp4"@.take(6)[0] != "image/"@[0]);
        assert("video/webm"@.take(6)[0] != "image/"@[0]);
    }
    assert(!has_prefix("audio/mpeg"@, "image/"@) && !has_prefix("audio/wav"@, "image/"@)) by {
        assert("audio/mpeg"@.take(6)[0] != "image/"@[0]);
        assert("audio/wav"@.take(6)[0] != "image/"@[0]);
    }
    assert(!has_prefix("audio/mpeg"@, "video/"@) && !has_prefix("audio/wav"@, "video/"@)) by {
        assert("audio/mpeg"@.take(6)[0] != "video/"@[0]);
        assert("audio/wav"@.take(6)[0] != "video/"@[0]);
    }
}

/// `image`, `video`, `audio` or `other`, by the media type's prefix.
pub fn detect_media_type(mime_type: &str) -> (res: String)
    ensures
        res@ == media_kind(mime_type@),
{
    let kind = if starts_with_str(mime_type, "image/") {
        "image"
    } else if starts_with_str(mime_type, "video/") {
        "video"
    } else if starts_with_str(mime_type, "audio/") {
        "audio"
    } else {
        "other"
    };
    to_owned_string(kind)
}

// ---------------------------------------------------------------------------
// The upload request
// ---------------------------------------------------------------------------

/// The name and media type of the uploaded `file` field: its declared file
/// name, `unnamed` without one; its declared content type,
/// `application/octet-stream` without one.
pub fn upload_field(filename: Option<&str>, content_type: Option<&str>) -> (res: (String, String))
    ensures
        res.0@ == match filename {
            Some(f) => f@,
            None => "unnamed"@,
        },
        res.1@ == match content_type {
            Some(c) => c@,
            None => "application/octet-stream"@,
        },
{
    let name = match filename {
        Some(f) => to_owned_string(f),
        None => to_owned_string("unnamed"),
    };
    let mime = match content_type {
        Some(c) => to_owned_string(c),
        None => to_owned_string("application/octet-stream"),
    };
    (name, mime)
}

/// The media record written for a stored upload.
pub struct NewMedia {
    /// `white_labels:<site>`.
    pub white_label_id: String,
    pub filename: String,
    pub media_type: String,
    pub mime_type: String,
    pub size_bytes: i64,
    pub url: String,
}

/// The media record of an upload stored at `url`: the site's record id,
/// the declared name, the media kind of its type, its type and its size.
pub fn new_media_record(white_label_id: &str, filename: &str, mime_type: &str, size: usize, url: &str) -> (res: NewMedia)
    requires
        size <= i64::MAX,
    ensures
        res.white_label_id@ == "white_labels:"@ + white_label_id@,
        res.filename@ == filename@,
        res.media_type@ == media_kind(mime_type@),
        res.mime_type@ == mime_type@,
        res.size_bytes == size,
        res.url@ == url@,
{
    let mut wl = to_owned_string("white_labels:");
    push_str(&mut wl, white_label_id);
    NewMedia {
        white_label_id: wl,
        filename: to_owned_string(filename),
        media_type: detect_media_type(mime_type),
        mime_type: to_owned_string(mime_type),
        size_bytes: size as i64,
        url: to_owned_string(url),
    }
}

} // verus!
