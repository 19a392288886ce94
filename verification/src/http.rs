//! The boundary to the transport: what a sender of requests has to offer,
//! and what an answer of the remote service means.

use crate::client::request::{
    DeckConfigsResult, DeckStatsDto, DeckTreeNode, ModelDetails, NoteInfo, Params, Reply,
    ReplyKind,
};
use crate::error::{
    classify, parse_anki_connect_error, AnkiConnectError, AnkiConnectErrorView, AnkiError,
    AnkiErrorView,
};
use crate::text::{decimal, push_decimal};
use vstd::prelude::*;

verus! {

/// Something that can deliver a request to the remote service.
///
/// `send` delivers the action named `action` with `params` and hands back
/// the result that the service answered, decoded in the shape `expect`, or
/// the failure. Nothing is promised of what comes back: `answers` is the
/// sender's own account of what it hands back, and a sender that says
/// nothing of it lets every answer pass. The clients of this crate state
/// what they return over this account: which request they hand to their
/// sender, and how they read what it answered.
pub trait RequestSender {
    /// Whether `answer` is something that this sender hands back for the
    /// action named `action` with `params`, asked for in the shape `expect`.
    open spec fn answers(
        &self,
        action: Seq<char>,
        params: Option<Params>,
        expect: ReplyKind,
        answer: Result<Reply, AnkiError>,
    ) -> bool {
        true
    }

    fn send(&self, action: &str, params: Option<Params>, expect: ReplyKind) -> (r: Result<
        Reply,
        AnkiError,
    >)
        ensures
            self.answers(action@, params, expect, r),
    ;
}

/// Where the remote service listens, and which version of its interface is
/// spoken.
#[derive(Debug, PartialEq, Eq)]
pub struct HttpRequestSender {
    url: String,
    api_version: u8,
}

/// What an [`HttpRequestSender`] is.
pub struct HttpRequestSenderView {
    pub url: Seq<char>,
    pub api_version: u8,
}

impl View for HttpRequestSender {
    type V = HttpRequestSenderView;

    closed spec fn view(&self) -> HttpRequestSenderView {
        HttpRequestSenderView { url: self.url@, api_version: self.api_version }
    }
}

impl Clone for HttpRequestSender {
    fn clone(&self) -> (r: HttpRequestSender)
        ensures
            r@ == self@,
    {
        HttpRequestSender { url: self.url.clone(), api_version: self.api_version }
    }
}

/// The address of the service on `host` at `port`.
pub open spec fn service_url(host: Seq<char>, port: nat) -> Seq<char> {
    "http://"@ + host + ":"@ + decimal(port)
}

impl HttpRequestSender {
    /// The sender for the service on `host` at `port`, speaking version 6 of
    /// the interface.
    pub fn new(host: &str, port: u16) -> (r: HttpRequestSender)
        ensures
            r@ == (HttpRequestSenderView { url: service_url(host@, port as nat), api_version: 6 }),
    {
        let mut url = String::from_str("http://");
        url.append(host);
        url.append(":");
        push_decimal(&mut url, port as u64);
        HttpRequestSender { url, api_version: 6 }
    }

    /// The address of the service.
    pub fn url(&self) -> (r: &str)
        ensures
            r@ == self@.url,
    {
        self.url.as_str()
    }

    /// The version of the interface that is spoken.
    pub fn api_version(&self) -> (r: u8)
        ensures
            r == self@.api_version,
    {
        self.api_version
    }
}

/// The error for an answer that holds neither a result nor an error.
pub open spec fn empty_response() -> AnkiErrorView {
    AnkiErrorView::AnkiConnectError(
        AnkiConnectErrorView::Other(
            "Empty response from AnkiConnect (both result and error are null)"@,
        ),
    )
}

/// The error for a result that does not have the shape that was asked for.
pub open spec fn unexpected_shape() -> AnkiErrorView {
    AnkiErrorView::JsonError("The result does not have the expected shape"@)
}

/// What an answer without result and without error means: success where no
/// result was expected, a failure otherwise.
pub fn handle_empty_response(expect: ReplyKind) -> (r: Result<Reply, AnkiError>)
    ensures
        expect is Nothing ==> (r matches Ok(reply) && reply is Nothing),
        !(expect is Nothing) ==> (r matches Err(e) && e@ == empty_response()),
{
    match expect {
        ReplyKind::Nothing => Ok(Reply::Nothing),
        _ => Err(
            AnkiError::AnkiConnectError(
                AnkiConnectError::Other(
                    String::from_str(
                        "Empty response from AnkiConnect (both result and error are null)",
                    ),
                ),
            ),
        ),
    }
}

/// What an answer of the service means.
///
/// An answer with an error is a failure, classified by its message, whatever
/// result stands beside it. An answer with a result and no error is that
/// result. An answer with neither is judged by [`handle_empty_response`].
pub fn interpret_response(result: Option<Reply>, error: Option<String>, expect: ReplyKind) -> (r:
    Result<Reply, AnkiError>)
    ensures
        error matches Some(msg) ==> (r matches Err(e) && e@ == AnkiErrorView::AnkiConnectError(
            classify(msg@),
        )),
        error is None ==> match result {
            Some(reply) => r matches Ok(got) && got == reply,
            None => if expect is Nothing {
                r matches Ok(got) && got is Nothing
            } else {
                r matches Err(e) && e@ == empty_response()
            },
        },
{
    match error {
        Some(msg) => Err(AnkiError::AnkiConnectError(parse_anki_connect_error(msg.as_str()))),
        None => match result {
            Some(reply) => Ok(reply),
            None => handle_empty_response(expect),
        },
    }
}

/// `r` is what an answer gives that is read as no result: the result where it
/// has that shape, a failure where it has another, and the failure of the
/// sender as it came.
pub open spec fn reads_nothing(answer: Result<Reply, AnkiError>, r: Result<(), AnkiError>) -> bool {
    match answer {
        Ok(Reply::Nothing) => r is Ok,
        Ok(_) => r matches Err(e) && e@ == unexpected_shape(),
        Err(err) => r matches Err(e) && e == err,
    }
}

/// `r` is what an answer gives that is read as one number: the result where it
/// has that shape, a failure where it has another, and the failure of the
/// sender as it came.
pub open spec fn reads_number(answer: Result<Reply, AnkiError>, r: Result<u64, AnkiError>) -> bool {
    match answer {
        Ok(Reply::Number(n)) => r matches Ok(got) && got == n,
        Ok(_) => r matches Err(e) && e@ == unexpected_shape(),
        Err(err) => r matches Err(e) && e == err,
    }
}

/// `r` is what an answer gives that is read as a list of numbers: the result where it
/// has that shape, a failure where it has another, and the failure of the
/// sender as it came.
pub open spec fn reads_numbers(
    answer: Result<Reply, AnkiError>,
    r: Result<Vec<u64>, AnkiError>,
) -> bool {
    match answer {
        Ok(Reply::Numbers(v)) => r matches Ok(got) && got == v,
        Ok(_) => r matches Err(e) && e@ == unexpected_shape(),
        Err(err) => r matches Err(e) && e == err,
    }
}

/// `r` is what an answer gives that is read as one text: the result where it
/// has that shape, a failure where it has another, and the failure of the
/// sender as it came.
pub open spec fn reads_text(
    answer: Result<Reply, AnkiError>,
    r: Result<String, AnkiError>,
) -> bool {
    match answer {
        Ok(Reply::Text(s)) => r matches Ok(got) && got == s,
        Ok(_) => r matches Err(e) && e@ == unexpected_shape(),
        Err(err) => r matches Err(e) && e == err,
    }
}

/// `r` is what an answer gives that is read as a list of texts: the result where it
/// has that shape, a failure where it has another, and the failure of the
/// sender as it came.
pub open spec fn reads_texts(
    answer: Result<Reply, AnkiError>,
    r: Result<Vec<String>, AnkiError>,
) -> bool {
    match answer {
        Ok(Reply::Texts(v)) => r matches Ok(got) && got == v,
        Ok(_) => r matches Err(e) && e@ == unexpected_shape(),
        Err(err) => r matches Err(e) && e == err,
    }
}

/// `r` is what an answer gives that is read as names with identifiers: the result where it
/// has that shape, a failure where it has another, and the failure of the
/// sender as it came.
pub open spec fn reads_names_and_ids(
    answer: Result<Reply, AnkiError>,
    r: Result<Vec<(String, u64)>, AnkiError>,
) -> bool {
    match answer {
        Ok(Reply::NamesAndIds(v)) => r matches Ok(got) && got == v,
        Ok(_) => r matches Err(e) && e@ == unexpected_shape(),
        Err(err) => r matches Err(e) && e == err,
    }
}

/// `r` is what an answer gives that is read as what is known of a note: the result where it
/// has that shape, a failure where it has another, and the failure of the
/// sender as it came.
pub open spec fn reads_note(
    answer: Result<Reply, AnkiError>,
    r: Result<NoteInfo, AnkiError>,
) -> bool {
    match answer {
        Ok(Reply::Note(n)) => r matches Ok(got) && got == n,
        Ok(_) => r matches Err(e) && e@ == unexpected_shape(),
        Err(err) => r matches Err(e) && e == err,
    }
}

/// `r` is what an answer gives that is read as the option groups: the result where it
/// has that shape, a failure where it has another, and the failure of the
/// sender as it came.
pub open spec fn reads_deck_configs(
    answer: Result<Reply, AnkiError>,
    r: Result<DeckConfigsResult, AnkiError>,
) -> bool {
    match answer {
        Ok(Reply::DeckConfigs(c)) => r matches Ok(got) && got == c,
        Ok(_) => r matches Err(e) && e@ == unexpected_shape(),
        Err(err) => r matches Err(e) && e == err,
    }
}

/// `r` is what an answer gives that is read as the tree of decks: the result where it
/// has that shape, a failure where it has another, and the failure of the
/// sender as it came.
pub open spec fn reads_deck_tree(
    answer: Result<Reply, AnkiError>,
    r: Result<Vec<DeckTreeNode>, AnkiError>,
) -> bool {
    match answer {
        Ok(Reply::DeckTree(t)) => r matches Ok(got) && got == t,
        Ok(_) => r matches Err(e) && e@ == unexpected_shape(),
        Err(err) => r matches Err(e) && e == err,
    }
}

/// `r` is what an answer gives that is read as counts by deck: the result where it
/// has that shape, a failure where it has another, and the failure of the
/// sender as it came.
pub open spec fn reads_deck_stats(
    answer: Result<Reply, AnkiError>,
    r: Result<Vec<(String, DeckStatsDto)>, AnkiError>,
) -> bool {
    match answer {
        Ok(Reply::DeckStats(s)) => r matches Ok(got) && got == s,
        Ok(_) => r matches Err(e) && e@ == unexpected_shape(),
        Err(err) => r matches Err(e) && e == err,
    }
}

/// `r` is what an answer gives that is read as models in full: the result where it
/// has that shape, a failure where it has another, and the failure of the
/// sender as it came.
pub open spec fn reads_models(
    answer: Result<Reply, AnkiError>,
    r: Result<Vec<ModelDetails>, AnkiError>,
) -> bool {
    match answer {
        Ok(Reply::Models(m)) => r matches Ok(got) && got == m,
        Ok(_) => r matches Err(e) && e@ == unexpected_shape(),
        Err(err) => r matches Err(e) && e == err,
    }
}

/// The error for a result of another shape than the one asked for.
fn unexpected() -> (e: AnkiError)
    ensures
        e@ == unexpected_shape(),
{
    AnkiError::JsonError(String::from_str("The result does not have the expected shape"))
}

/// An answer that is expected to carry no result.
pub fn expect_nothing(reply: Result<Reply, AnkiError>) -> (r: Result<(), AnkiError>)
    ensures
        reads_nothing(reply, r),
{
    match reply {
        Ok(Reply::Nothing) => Ok(()),
        Ok(_) => Err(unexpected()),
        Err(e) => Err(e),
    }
}

/// An answer that is expected to carry one number.
pub fn expect_number(reply: Result<Reply, AnkiError>) -> (r: Result<u64, AnkiError>)
    ensures
        reads_number(reply, r),
{
    match reply {
        Ok(Reply::Number(n)) => Ok(n),
        Ok(_) => Err(unexpected()),
        Err(e) => Err(e),
    }
}

/// An answer that is expected to carry a list of numbers.
pub fn expect_numbers(reply: Result<Reply, AnkiError>) -> (r: Result<Vec<u64>, AnkiError>)
    ensures
        reads_numbers(reply, r),
{
    match reply {
        Ok(Reply::Numbers(v)) => Ok(v),
        Ok(_) => Err(unexpected()),
        Err(e) => Err(e),
    }
}

/// An answer that is expected to carry one text.
pub fn expect_text(reply: Result<Reply, AnkiError>) -> (r: Result<String, AnkiError>)
    ensures
        reads_text(reply, r),
{
    match reply {
        Ok(Reply::Text(s)) => Ok(s),
        Ok(_) => Err(unexpected()),
        Err(e) => Err(e),
    }
}

/// An answer that is expected to carry a list of texts.
pub fn expect_texts(reply: Result<Reply, AnkiError>) -> (r: Result<Vec<String>, AnkiError>)
    ensures
        reads_texts(reply, r),
{
    match reply {
        Ok(Reply::Texts(v)) => Ok(v),
        Ok(_) => Err(unexpected()),
        Err(e) => Err(e),
    }
}

/// An answer that is expected to carry names with identifiers.
pub fn expect_names_and_ids(reply: Result<Reply, AnkiError>) -> (r: Result<
    Vec<(String, u64)>,
    AnkiError,
>)
    ensures
        reads_names_and_ids(reply, r),
{
    match reply {
        Ok(Reply::NamesAndIds(v)) => Ok(v),
        Ok(_) => Err(unexpected()),
        Err(e) => Err(e),
    }
}

/// An answer that is expected to carry what is known of a note.
pub fn expect_note(reply: Result<Reply, AnkiError>) -> (r: Result<NoteInfo, AnkiError>)
    ensures
        reads_note(reply, r),
{
    match reply {
        Ok(Reply::Note(n)) => Ok(n),
        Ok(_) => Err(unexpected()),
        Err(e) => Err(e),
    }
}

/// An answer that is expected to carry the option groups.
pub fn expect_deck_configs(reply: Result<Reply, AnkiError>) -> (r: Result<
    DeckConfigsResult,
    AnkiError,
>)
    ensures
        reads_deck_configs(reply, r),
{
    match reply {
        Ok(Reply::DeckConfigs(c)) => Ok(c),
        Ok(_) => Err(unexpected()),
        Err(e) => Err(e),
    }
}

/// An answer that is expected to carry the tree of decks.
pub fn expect_deck_tree(reply: Result<Reply, AnkiError>) -> (r: Result<
    Vec<DeckTreeNode>,
    AnkiError,
>)
    ensures
        reads_deck_tree(reply, r),
{
    match reply {
        Ok(Reply::DeckTree(t)) => Ok(t),
        Ok(_) => Err(unexpected()),
        Err(e) => Err(e),
    }
}

/// An answer that is expected to carry counts by deck.
pub fn expect_deck_stats(reply: Result<Reply, AnkiError>) -> (r: Result<
    Vec<(String, DeckStatsDto)>,
    AnkiError,
>)
    ensures
        reads_deck_stats(reply, r),
{
    match reply {
        Ok(Reply::DeckStats(s)) => Ok(s),
        Ok(_) => Err(unexpected()),
        Err(e) => Err(e),
    }
}

/// An answer that is expected to carry models in full.
pub fn expect_models(reply: Result<Reply, AnkiError>) -> (r: Result<Vec<ModelDetails>, AnkiError>)
    ensures
        reads_models(reply, r),
{
    match reply {
        Ok(Reply::Models(m)) => Ok(m),
        Ok(_) => Err(unexpected()),
        Err(e) => Err(e),
    }
}

} // verus!
