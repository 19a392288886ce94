//! The client for media files.

use crate::client::request::{
    DeleteMediaParams, Params, Reply, ReplyKind, RetrieveMediaParams, StoreMediaFileParams,
};
use crate::error::{AnkiError, AnkiErrorView};
use crate::http::{
    expect_nothing, expect_text, expect_texts, reads_nothing, reads_text, reads_texts,
    RequestSender,
};
use crate::models::media::{MediaSource, MediaSourceView};
use vstd::prelude::*;

verus! {

/// The view of an optional string.
pub open spec fn optional_text(s: Option<String>) -> Option<Seq<char>> {
    match s {
        Some(s) => Some(s@),
        None => None,
    }
}

/// The path of a source, where it is one.
pub open spec fn path_of(source: MediaSourceView) -> Option<Seq<char>> {
    match source {
        MediaSourceView::Path(p) => Some(p),
        _ => None,
    }
}

/// The address of a source, where it is one.
pub open spec fn url_of(source: MediaSourceView) -> Option<Seq<char>> {
    match source {
        MediaSourceView::Url(u) => Some(u),
        _ => None,
    }
}

/// The base64 content of a source, where it is one.
pub open spec fn data_of(source: MediaSourceView) -> Option<Seq<char>> {
    match source {
        MediaSourceView::Base64(d) => Some(d),
        _ => None,
    }
}

/// A copy of the path of a source, where it is one.
pub fn path_part(source: &MediaSource) -> (r: Option<String>)
    ensures
        optional_text(r) == path_of(source@),
{
    match source {
        MediaSource::Path(path) => Some(path.clone()),
        _ => None,
    }
}

/// A copy of the address of a source, where it is one.
pub fn url_part(source: &MediaSource) -> (r: Option<String>)
    ensures
        optional_text(r) == url_of(source@),
{
    match source {
        MediaSource::Url(url) => Some(url.clone()),
        _ => None,
    }
}

/// A copy of the base64 content of a source, where it is one.
pub fn data_part(source: &MediaSource) -> (r: Option<String>)
    ensures
        optional_text(r) == data_of(source@),
{
    match source {
        MediaSource::Base64(data) => Some(data.clone()),
        _ => None,
    }
}

/// What is sent to store a media file: the one part of the source that is
/// given, the file name and whether a file of that name is replaced. An
/// empty file name is refused.
pub fn store_file_params(source: &MediaSource, filename: &str, overwrite: bool) -> (r: Result<
    StoreMediaFileParams,
    AnkiError,
>)
    ensures
        r is Ok <==> filename@.len() > 0,
        r matches Ok(p) ==> {
            &&& optional_text(p.path) == path_of(source@)
            &&& optional_text(p.url) == url_of(source@)
            &&& optional_text(p.data) == data_of(source@)
            &&& p.filename@ == filename@
            &&& p.delete_existing == overwrite
        },
        r matches Err(e) ==> e@ == AnkiErrorView::ValidationError("Filename cannot be empty"@),
{
    if filename.is_empty() {
        return Err(AnkiError::validation("Filename cannot be empty"));
    }
    Ok(
        StoreMediaFileParams {
            path: path_part(source),
            url: url_part(source),
            data: data_part(source),
            filename: String::from_str(filename),
            delete_existing: overwrite,
        },
    )
}

/// The source for a file at `path`. A file that does not exist is refused,
/// and the error names the path.
pub fn path_source(path: &str, present: bool) -> (r: Result<MediaSource, AnkiError>)
    ensures
        r is Ok <==> present,
        r matches Ok(s) ==> s@ == MediaSourceView::Path(path@),
        r matches Err(e) ==> e@ == AnkiErrorView::ValidationError(
            "File does not exist: "@ + path@,
        ),
{
    if !present {
        let mut text = String::from_str("File does not exist: ");
        text.append(path);
        return Err(AnkiError::ValidationError(text));
    }
    Ok(MediaSource::Path(String::from_str(path)))
}

/// The source for a file at the address `url`. An empty address is refused.
pub fn url_source(url: &str) -> (r: Result<MediaSource, AnkiError>)
    ensures
        r is Ok <==> url@.len() > 0,
        r matches Ok(s) ==> s@ == MediaSourceView::Url(url@),
        r matches Err(e) ==> e@ == AnkiErrorView::ValidationError("URL cannot be empty"@),
{
    if url.is_empty() {
        return Err(AnkiError::validation("URL cannot be empty"));
    }
    Ok(MediaSource::Url(String::from_str(url)))
}

/// The source for a file given as base64 data. Empty data is refused.
pub fn base64_source(data: &str) -> (r: Result<MediaSource, AnkiError>)
    ensures
        r is Ok <==> data@.len() > 0,
        r matches Ok(s) ==> s@ == MediaSourceView::Base64(data@),
        r matches Err(e) ==> e@ == AnkiErrorView::ValidationError(
            "Base64 data cannot be empty"@,
        ),
{
    if data.is_empty() {
        return Err(AnkiError::validation("Base64 data cannot be empty"));
    }
    Ok(MediaSource::Base64(String::from_str(data)))
}

/// The name of a media file to fetch or delete. An empty name is refused.
pub fn checked_filename(filename: &str) -> (r: Result<String, AnkiError>)
    ensures
        r is Ok <==> filename@.len() > 0,
        r matches Ok(s) ==> s@ == filename@,
        r matches Err(e) ==> e@ == AnkiErrorView::ValidationError("Filename cannot be empty"@),
{
    if filename.is_empty() {
        return Err(AnkiError::validation("Filename cannot be empty"));
    }
    Ok(String::from_str(filename))
}

/// What is sent is a media file to store under `filename`, given by the
/// parts `path`, `url` and `data`, and whether a file of that name is
/// replaced.
pub open spec fn sends_file(
    params: Option<Params>,
    path: Option<Seq<char>>,
    url: Option<Seq<char>>,
    data: Option<Seq<char>>,
    filename: Seq<char>,
    overwrite: bool,
) -> bool {
    match params {
        Some(Params::StoreMediaFile(p)) => {
            &&& optional_text(p.path) == path
            &&& optional_text(p.url) == url
            &&& optional_text(p.data) == data
            &&& p.filename@ == filename
            &&& p.delete_existing == overwrite
        },
        _ => false,
    }
}

/// What is sent is the name `filename` of a media file to fetch.
pub open spec fn sends_fetched(params: Option<Params>, filename: Seq<char>) -> bool {
    match params {
        Some(Params::RetrieveMedia(p)) => p.filename@ == filename,
        _ => false,
    }
}

/// What is sent is the name `filename` of a media file to delete.
pub open spec fn sends_removed(params: Option<Params>, filename: Seq<char>) -> bool {
    match params {
        Some(Params::DeleteMedia(p)) => p.filename@ == filename,
        _ => false,
    }
}

/// The failure for an empty file name.
pub open spec fn no_filename() -> AnkiErrorView {
    AnkiErrorView::ValidationError("Filename cannot be empty"@)
}

/// The client for media files.
pub struct MediaClient<S: RequestSender> {
    sender: S,
}

impl<S: RequestSender> MediaClient<S> {
    /// The sender through which the client talks.
    pub closed spec fn sender(self) -> S {
        self.sender
    }

    /// The client's sender hands back `answer` for the action named
    /// `action` with `params`, asked for in the shape `expect`.
    pub open spec fn asked(
        &self,
        action: Seq<char>,
        params: Option<Params>,
        expect: ReplyKind,
        answer: Result<Reply, AnkiError>,
    ) -> bool {
        self.sender().answers(action, params, expect, answer)
    }

    /// `r` is what storing a media file from `source` under `filename`
    /// gives: an empty file name is refused; otherwise the sender is asked
    /// for `storeMediaFile` with the one part of the source that is given,
    /// the file name and whether a file of that name is replaced, and the
    /// text that it answers is the name that was used.
    pub open spec fn stored(
        &self,
        source: MediaSourceView,
        filename: Seq<char>,
        overwrite: bool,
        r: Result<String, AnkiError>,
    ) -> bool {
        if filename.len() == 0 {
            r matches Err(e) && e@ == no_filename()
        } else {
            exists|params: Option<Params>, answer: Result<Reply, AnkiError>|
                #[trigger] self.asked("storeMediaFile"@, params, ReplyKind::Text, answer)
                    && sends_file(
                    params,
                    path_of(source),
                    url_of(source),
                    data_of(source),
                    filename,
                    overwrite,
                ) && reads_text(answer, r)
        }
    }

    /// The client that talks through `sender`.
    pub fn new(sender: S) -> (r: MediaClient<S>)
        ensures
            r.sender() == sender,
    {
        MediaClient { sender }
    }

    /// Hands a request to the sender and gives what it answers.
    fn ask(&self, action: &str, params: Option<Params>, expect: ReplyKind) -> (r: Result<
        Reply,
        AnkiError,
    >)
        ensures
            self.asked(action@, params, expect, r),
    {
        self.sender.send(action, params, expect)
    }

    /// Stores a media file under `filename` and gives the name that was
    /// used. An empty file name is refused before anything is sent;
    /// otherwise the sender is asked for `storeMediaFile` with what
    /// [`store_file_params`] makes, and the text that it answers is the
    /// name.
    pub fn store_file(&self, source: &MediaSource, filename: &str, overwrite: bool) -> (r: Result<
        String,
        AnkiError,
    >)
        ensures
            self.stored(source@, filename@, overwrite, r),
            filename@.len() == 0 ==> (r matches Err(e) && e@ == AnkiErrorView::ValidationError(
                "Filename cannot be empty"@,
            )),
    {
        let params = store_file_params(source, filename, overwrite)?;
        let reply = self.ask(
            "storeMediaFile",
            Some(Params::StoreMediaFile(params)),
            ReplyKind::Text,
        );
        expect_text(reply)
    }

    /// Stores the file at `path`; `present` says whether there is such a
    /// file. A file that does not exist is refused before anything is sent,
    /// and so is an empty file name.
    pub fn store_from_path(&self, path: &str, present: bool, filename: &str, overwrite: bool) -> (r:
        Result<String, AnkiError>)
        ensures
            present ==> self.stored(MediaSourceView::Path(path@), filename@, overwrite, r),
            !present ==> (r matches Err(e) && e@ == AnkiErrorView::ValidationError(
                "File does not exist: "@ + path@,
            )),
            present && filename@.len() == 0 ==> (r matches Err(e) && e@
                == AnkiErrorView::ValidationError("Filename cannot be empty"@)),
    {
        let source = path_source(path, present)?;
        self.store_file(&source, filename, overwrite)
    }

    /// Stores the file at the address `url`. An empty address is refused
    /// before anything is sent, and so is an empty file name.
    pub fn store_from_url(&self, url: &str, filename: &str, overwrite: bool) -> (r: Result<
        String,
        AnkiError,
    >)
        ensures
            url@.len() > 0 ==> self.stored(MediaSourceView::Url(url@), filename@, overwrite, r),
            url@.len() == 0 ==> (r matches Err(e) && e@ == AnkiErrorView::ValidationError(
                "URL cannot be empty"@,
            )),
            url@.len() > 0 && filename@.len() == 0 ==> (r matches Err(e) && e@
                == AnkiErrorView::ValidationError("Filename cannot be empty"@)),
    {
        let source = url_source(url)?;
        self.store_file(&source, filename, overwrite)
    }

    /// Stores the file given as base64 data. Empty data is refused before
    /// anything is sent, and so is an empty file name.
    pub fn store_from_base64(&self, data: &str, filename: &str, overwrite: bool) -> (r: Result<
        String,
        AnkiError,
    >)
        ensures
            data@.len() > 0 ==> self.stored(
                MediaSourceView::Base64(data@),
                filename@,
                overwrite,
                r,
            ),
            data@.len() == 0 ==> (r matches Err(e) && e@ == AnkiErrorView::ValidationError(
                "Base64 data cannot be empty"@,
            )),
            data@.len() > 0 && filename@.len() == 0 ==> (r matches Err(e) && e@
                == AnkiErrorView::ValidationError("Filename cannot be empty"@)),
    {
        let source = base64_source(data)?;
        self.store_file(&source, filename, overwrite)
    }

    /// The content of a media file, in base64. An empty file name is
    /// refused before anything is sent; otherwise the sender is asked for
    /// `retrieveMediaFile` with the file name, and the text that it answers
    /// is given as it came.
    pub fn retrieve_file(&self, filename: &str) -> (r: Result<String, AnkiError>)
        ensures
            filename@.len() == 0 ==> (r matches Err(e) && e@ == AnkiErrorView::ValidationError(
                "Filename cannot be empty"@,
            )),
            filename@.len() > 0 ==> exists|params: Option<Params>, answer: Result<Reply, AnkiError>|
                #[trigger] self.asked("retrieveMediaFile"@, params, ReplyKind::Text, answer)
                    && sends_fetched(params, filename@) && reads_text(answer, r),
    {
        let name = checked_filename(filename)?;
        let reply = self.ask(
            "retrieveMediaFile",
            Some(Params::RetrieveMedia(RetrieveMediaParams { filename: name })),
            ReplyKind::Text,
        );
        expect_text(reply)
    }

    /// Deletes a media file. An empty file name is refused before anything
    /// is sent; otherwise the sender is asked for `deleteMediaFile` with
    /// the file name, and succeeds where it answers no result.
    pub fn delete_file(&self, filename: &str) -> (r: Result<(), AnkiError>)
        ensures
            filename@.len() == 0 ==> (r matches Err(e) && e@ == AnkiErrorView::ValidationError(
                "Filename cannot be empty"@,
            )),
            filename@.len() > 0 ==> exists|params: Option<Params>, answer: Result<Reply, AnkiError>|
                #[trigger] self.asked("deleteMediaFile"@, params, ReplyKind::Nothing, answer)
                    && sends_removed(params, filename@) && reads_nothing(answer, r),
    {
        let name = checked_filename(filename)?;
        let reply = self.ask(
            "deleteMediaFile",
            Some(Params::DeleteMedia(DeleteMediaParams { filename: name })),
            ReplyKind::Nothing,
        );
        expect_nothing(reply)
    }

    /// The directory in which the collection keeps its media files: the
    /// sender is asked for `getMediaDirPath` without parameters, and the
    /// text that it answers is given as it came.
    pub fn get_directory(&self) -> (r: Result<String, AnkiError>)
        ensures
            exists|answer: Result<Reply, AnkiError>|
                #[trigger] self.asked("getMediaDirPath"@, None, ReplyKind::Text, answer)
                    && reads_text(answer, r),
    {
        let reply = self.ask("getMediaDirPath", None, ReplyKind::Text);
        expect_text(reply)
    }

    /// The names of the media files that notes refer to and that are
    /// missing: the sender is asked for `checkMediaDatabase` without
    /// parameters, and the texts that it answers are given as they came.
    pub fn get_missing_files(&self) -> (r: Result<Vec<String>, AnkiError>)
        ensures
            exists|answer: Result<Reply, AnkiError>|
                #[trigger] self.asked("checkMediaDatabase"@, None, ReplyKind::Texts, answer)
                    && reads_texts(answer, r),
    {
        let reply = self.ask("checkMediaDatabase", None, ReplyKind::Texts);
        expect_texts(reply)
    }

    /// The picture that is shown for a sound, in base64: the sender is
    /// asked for `getMediaFilesNames` without parameters, and the text that
    /// it answers is given as it came.
    pub fn get_sound_icon(&self) -> (r: Result<String, AnkiError>)
        ensures
            exists|answer: Result<Reply, AnkiError>|
                #[trigger] self.asked("getMediaFilesNames"@, None, ReplyKind::Text, answer)
                    && reads_text(answer, r),
    {
        let reply = self.ask("getMediaFilesNames", None, ReplyKind::Text);
        expect_text(reply)
    }
}

} // verus!
