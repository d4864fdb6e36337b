//! What the loops read and write of the sliding sync protocol.
use vstd::prelude::*;

verus! {

/// The text held by an optional string.
pub open spec fn text(s: Option<String>) -> Option<Seq<char>> {
    match s {
        Some(s) => Some(s@),
        None => None,
    }
}

/// Settings of the end-to-end encryption extension.
#[derive(Debug)]
pub struct E2EEConfig {
    /// Whether the extension is switched on; `None` leaves it as it is.
    pub enabled: Option<bool>,
}

/// Settings of the to-device extension.
#[derive(Debug)]
pub struct ToDeviceConfig {
    /// Whether the extension is switched on; `None` leaves it as it is.
    pub enabled: Option<bool>,
    /// Ask only for what is newer than this token.
    pub since: Option<String>,
}

/// Settings of the extensions in a request.
#[derive(Debug)]
pub struct ExtensionsConfig {
    pub to_device: ToDeviceConfig,
    pub e2ee: E2EEConfig,
}

/// A sliding sync request. Whatever is not mentioned here is left at its default:
/// no lists, no room subscriptions, no other extension.
#[derive(Debug)]
pub struct Request {
    /// The position marker of the previous response.
    pub pos: Option<String>,
    /// The identifier of the connection.
    pub conn_id: Option<String>,
    /// How long the server may hold the request back, in seconds.
    pub timeout_secs: Option<u64>,
    pub extensions: ExtensionsConfig,
}

/// What a [`Request`] says.
pub struct RequestView {
    pub pos: Option<Seq<char>>,
    pub conn_id: Option<Seq<char>>,
    pub timeout_secs: Option<u64>,
    pub to_device_enabled: Option<bool>,
    pub to_device_since: Option<Seq<char>>,
    pub e2ee_enabled: Option<bool>,
}

impl View for Request {
    type V = RequestView;

    open spec fn view(&self) -> RequestView {
        RequestView {
            pos: text(self.pos),
            conn_id: text(self.conn_id),
            timeout_secs: self.timeout_secs,
            to_device_enabled: self.extensions.to_device.enabled,
            to_device_since: text(self.extensions.to_device.since),
            e2ee_enabled: self.extensions.e2ee.enabled,
        }
    }
}

/// The to-device part of a response.
#[derive(Debug)]
pub struct ToDevice {
    /// The token from which the next messages are to be asked for.
    pub next_batch: String,
}

/// The extensions part of a response.
#[derive(Debug)]
pub struct Extensions {
    pub to_device: Option<ToDevice>,
}

/// A sliding sync response, as far as the loops read it themselves.
#[derive(Debug)]
pub struct Response {
    /// The position marker to send with the next request.
    pub pos: String,
    pub extensions: Extensions,
}

/// What a [`Response`] says.
pub struct ResponseView {
    pub pos: Seq<char>,
    pub next_batch: Option<Seq<char>>,
}

impl View for Response {
    type V = ResponseView;

    open spec fn view(&self) -> ResponseView {
        ResponseView {
            pos: self.pos@,
            next_batch: match self.extensions.to_device {
                Some(to_device) => Some(to_device.next_batch@),
                None => None,
            },
        }
    }
}

/// What changed with a response: the names of the lists and the identifiers of the
/// rooms that were updated.
#[derive(Debug)]
pub struct UpdateSummary {
    pub lists: Vec<String>,
    pub rooms: Vec<String>,
}

} // verus!
