//! Senders of requests: what one has to offer, and where the remote
//! service listens.

use crate::anki_connect_client::AnkiConnectResponse;
use crate::anki_connect_request::AnkiConnectRequest;
use crate::client::request::Reply;
use crate::error::AnkiRequestError;
use crate::text::{decimal, push_decimal};
use vstd::prelude::*;

verus! {

/// Something that can deliver a request to the remote service.
///
/// `send_request` delivers the request and hands back the answer as it
/// came, with its result decoded in the shape that the request expects, or
/// the failure of the delivery. Nothing is promised of what comes back:
/// `answers` is the sender's own account of what it hands back, and a
/// sender that says nothing of it lets every answer pass. The client of
/// this crate states what it returns over this account: which request it
/// hands to its sender, and how it reads what the sender answered.
pub trait AnkiConnectRequestSender {
    /// Whether `answer` is something that this sender hands back for
    /// `request`.
    open spec fn answers(
        &self,
        request: AnkiConnectRequest,
        answer: Result<AnkiConnectResponse<Reply>, AnkiRequestError>,
    ) -> bool {
        true
    }

    fn send_request(&self, request: AnkiConnectRequest) -> (r: Result<
        AnkiConnectResponse<Reply>,
        AnkiRequestError,
    >)
        ensures
            self.answers(request, r),
    ;
}

/// The host and the port of the remote service.
#[derive(Debug, PartialEq, Eq)]
pub struct HttpAnkiConnectRequestSender {
    port: u16,
    url: String,
}

/// What an [`HttpAnkiConnectRequestSender`] is.
pub struct HttpAnkiConnectRequestSenderView {
    pub port: u16,
    pub url: Seq<char>,
}

impl View for HttpAnkiConnectRequestSender {
    type V = HttpAnkiConnectRequestSenderView;

    closed spec fn view(&self) -> HttpAnkiConnectRequestSenderView {
        HttpAnkiConnectRequestSenderView { port: self.port, url: self.url@ }
    }
}

impl HttpAnkiConnectRequestSender {
    /// The sender for the service on the host `url` at `port`.
    pub fn new(url: &str, port: u16) -> (r: HttpAnkiConnectRequestSender)
        ensures
            r@ == (HttpAnkiConnectRequestSenderView { port, url: url@ }),
    {
        HttpAnkiConnectRequestSender { port, url: String::from_str(url) }
    }

    /// The address to which requests are sent.
    pub fn get_url_with_port(&self) -> (r: String)
        ensures
            r@ == "http://"@ + self@.url + ":"@ + decimal(self@.port as nat),
    {
        let mut r = String::from_str("http://");
        r.append(self.url.as_str());
        r.append(":");
        push_decimal(&mut r, self.port as u64);
        r
    }
}

} // verus!
