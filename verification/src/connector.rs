//! The connector to a Bob storage node: the requests it sends for `get`,
//! `put`, `delete` and `exist`, and what it makes of the replies.
//!
//! Sending a request and awaiting the reply is left to the caller; the
//! functions here build each request from plain values and interpret each
//! reply.
use vstd::prelude::*;

verus! {

/// `std::time::SystemTime`, a reading of the system clock; opaque.
#[verifier::external_type_specification]
#[verifier::external_body]
pub struct ExSystemTime(std::time::SystemTime);

/// Why a request to the storage failed.
#[derive(Clone, Copy, Debug, PartialEq, Eq, Structural)]
pub enum ConnectorError {
    GetError,
    PutError,
    DeleteError,
    ExistError,
}

/// What caused a request to fail.
#[derive(Clone, Debug, PartialEq, Eq)]
pub enum ConnectorCause {
    /// No reply came: the status the transport gave.
    Transport(TransportError),
    /// The node replied with this error code.
    Node(ErrorCode),
    /// The system clock read before the Unix epoch.
    Clock,
}

/// A failed request: which operation failed, and why.
#[derive(Clone, Debug, PartialEq, Eq)]
pub struct ConnectorReport {
    pub context: ConnectorError,
    pub cause: ConnectorCause,
}

impl ConnectorReport {
    /// Which operation failed.
    pub fn current_context(&self) -> (res: &ConnectorError)
        ensures
            *res == self.context,
    {
        &self.context
    }
}

/// The key of a blob.
#[derive(Clone, Debug, PartialEq, Eq)]
pub struct BlobKey {
    pub key: Vec<u8>,
}

/// Where a read looks for a blob.
#[derive(Clone, Copy, Debug, PartialEq, Eq, Structural)]
pub enum GetSource {
    All,
    Normal,
    Alien,
}

/// A request to read the blob stored under `key`.
#[derive(Clone, Debug, PartialEq, Eq)]
pub struct GetRequest {
    pub key: BlobKey,
    pub force_node: bool,
    pub source: GetSource,
}

/// A request to store `data` under `key`.
#[derive(Clone, Debug, PartialEq, Eq)]
pub struct PutRequest {
    pub key: BlobKey,
    pub data: Vec<u8>,
    /// Seconds since the Unix epoch.
    pub timestamp: u64,
    pub remote_nodes: Vec<String>,
    pub force_node: bool,
    pub overwrite: bool,
}

/// A request to delete the blob stored under `key`.
#[derive(Clone, Debug, PartialEq, Eq)]
pub struct DeleteRequest {
    pub key: BlobKey,
    /// Seconds since the Unix epoch.
    pub timestamp: u64,
    pub force_alien_nodes: Vec<String>,
    pub force_node: bool,
    pub is_alien: bool,
}

/// A request to tell which of `keys` are stored.
#[derive(Clone, Debug, PartialEq, Eq)]
pub struct ExistRequest {
    pub keys: Vec<BlobKey>,
    pub force_node: bool,
    pub source: GetSource,
}

/// The error a storage node reports in its reply.
#[derive(Clone, Debug, PartialEq, Eq)]
pub struct ErrorCode {
    pub code: i32,
    pub desc: String,
}

/// A failure to get a reply at all: the status the transport gave.
#[derive(Clone, Debug, PartialEq, Eq)]
pub struct TransportError {
    pub code: i32,
    pub message: String,
}

/// The request that reads the blob under `key`, from this node's normal
/// storage.
pub fn get_request(key: BlobKey) -> (req: GetRequest)
    ensures
        req.key == key,
        req.force_node,
        req.source == GetSource::Normal,
{
    GetRequest { key, force_node: true, source: GetSource::Normal }
}

/// What a `get` gives back for `reply`: the blob's data, or `GetError`
/// caused by the transport failure if no reply came.
pub fn get_outcome(reply: Result<Vec<u8>, TransportError>) -> (res: Result<Vec<u8>, ConnectorReport>)
    ensures
        match reply {
            Ok(d) => res == Ok::<Vec<u8>, ConnectorReport>(d),
            Err(t) => res == Err::<Vec<u8>, ConnectorReport>(
                ConnectorReport { context: ConnectorError::GetError, cause: ConnectorCause::Transport(t) },
            ),
        },
{
    match reply {
        Ok(data) => Ok(data),
        Err(t) => Err(ConnectorReport { context: ConnectorError::GetError, cause: ConnectorCause::Transport(t) }),
    }
}

/// The request that stores `data` under `key` on this node, overwriting
/// what is there, stamped with `timestamp`.
pub fn put_request(key: BlobKey, data: Vec<u8>, timestamp: u64) -> (req: PutRequest)
    ensures
        req.key == key,
        req.data@ == data@,
        req.timestamp == timestamp,
        req.remote_nodes@.len() == 0,
        req.force_node,
        req.overwrite,
{
    PutRequest { key, data, timestamp, remote_nodes: Vec::new(), force_node: true, overwrite: true }
}

/// What a `put` gives back for `reply`: success only when a reply came
/// and it reports no error; otherwise `PutError`, caused by the error code the
/// node reported or by the transport failure.
pub fn put_outcome(reply: Result<Option<ErrorCode>, TransportError>) -> (res: Result<(), ConnectorReport>)
    ensures
        match reply {
            Ok(None) => res == Ok::<(), ConnectorReport>(()),
            Ok(Some(c)) => res == Err::<(), ConnectorReport>(
                ConnectorReport { context: ConnectorError::PutError, cause: ConnectorCause::Node(c) },
            ),
            Err(t) => res == Err::<(), ConnectorReport>(
                ConnectorReport { context: ConnectorError::PutError, cause: ConnectorCause::Transport(t) },
            ),
        },
{
    match reply {
        Ok(None) => Ok(()),
        Ok(Some(code)) => Err(ConnectorReport { context: ConnectorError::PutError, cause: ConnectorCause::Node(code) }),
        Err(t) => Err(ConnectorReport { context: ConnectorError::PutError, cause: ConnectorCause::Transport(t) }),
    }
}

/// The request that deletes the blob under `key` on this node, stamped with
/// `timestamp`.
pub fn delete_request(key: BlobKey, timestamp: u64) -> (req: DeleteRequest)
    ensures
        req.key == key,
        req.timestamp == timestamp,
        req.force_alien_nodes@.len() == 0,
        req.force_node,
        !req.is_alien,
{
    DeleteRequest { key, timestamp, force_alien_nodes: Vec::new(), force_node: true, is_alien: false }
}

/// What a `delete` gives back for `reply`: success only when a reply came
/// and it reports no error; otherwise `DeleteError`, caused by the error code the
/// node reported or by the transport failure.
pub fn delete_outcome(reply: Result<Option<ErrorCode>, TransportError>) -> (res: Result<(), ConnectorReport>)
    ensures
        match reply {
            Ok(None) => res == Ok::<(), ConnectorReport>(()),
            Ok(Some(c)) => res == Err::<(), ConnectorReport>(
                ConnectorReport { context: ConnectorError::DeleteError, cause: ConnectorCause::Node(c) },
            ),
            Err(t) => res == Err::<(), ConnectorReport>(
                ConnectorReport { context: ConnectorError::DeleteError, cause: ConnectorCause::Transport(t) },
            ),
        },
{
    match reply {
        Ok(None) => Ok(()),
        Ok(Some(code)) => Err(ConnectorReport { context: ConnectorError::DeleteError, cause: ConnectorCause::Node(code) }),
        Err(t) => Err(ConnectorReport { context: ConnectorError::DeleteError, cause: ConnectorCause::Transport(t) }),
    }
}

/// The request that asks which of `keys` are stored, in this node's normal
/// storage.
pub fn exist_request(keys: Vec<BlobKey>) -> (req: ExistRequest)
    ensures
        req.keys@ == keys@,
        req.force_node,
        req.source == GetSource::Normal,
{
    ExistRequest { keys, force_node: true, source: GetSource::Normal }
}

/// What an `exist` gives back for `reply`: for each key, whether it is
/// stored; a missing reply gives `DeleteError`, caused by the transport
/// failure.
pub fn exist_outcome(reply: Result<Vec<bool>, TransportError>) -> (res: Result<Vec<bool>, ConnectorReport>)
    ensures
        match reply {
            Ok(v) => res == Ok::<Vec<bool>, ConnectorReport>(v),
            Err(t) => res == Err::<Vec<bool>, ConnectorReport>(
                ConnectorReport { context: ConnectorError::DeleteError, cause: ConnectorCause::Transport(t) },
            ),
        },
{
    match reply {
        Ok(v) => Ok(v),
        Err(t) => Err(ConnectorReport { context: ConnectorError::DeleteError, cause: ConnectorCause::Transport(t) }),
    }
}

/// `std::time::SystemTime::now`: the current reading of the system clock.
/// It depends on the time, so nothing is stated of it.
#[verifier::external_body]
fn system_time_now() -> std::time::SystemTime {
    std::time::SystemTime::now()
}

/// `SystemTime::duration_since(UNIX_EPOCH)`: the time from the Unix epoch
/// to `t`, or `None` where `t` is before the epoch. Nothing is stated of
/// it, as `t` is a clock reading.
#[verifier::external_body]
fn duration_since_unix_epoch(t: std::time::SystemTime) -> Option<core::time::Duration> {
    t.duration_since(std::time::UNIX_EPOCH).ok()
}

/// `Duration::as_secs`: the whole seconds of `d`. Nothing is stated of it,
/// as the durations here come from clock readings.
#[verifier::external_body]
fn duration_as_secs(d: core::time::Duration) -> u64 {
    d.as_secs()
}

/// The timestamp of a `put` or `delete` request: the seconds since the Unix
/// epoch now. A clock that reads before the epoch gives `PutError` caused by
/// the clock, for a `delete` as well as for a `put`.
pub fn request_timestamp() -> (res: Result<u64, ConnectorReport>)
    ensures
        res is Err ==> res == Err::<u64, ConnectorReport>(
            ConnectorReport { context: ConnectorError::PutError, cause: ConnectorCause::Clock },
        ),
{
    let now = system_time_now();
    match duration_since_unix_epoch(now) {
        Some(elapsed) => Ok(duration_as_secs(elapsed)),
        None => Err(ConnectorReport { context: ConnectorError::PutError, cause: ConnectorCause::Clock }),
    }
}

/// A connector that sends requests to the storage through `client`.
#[derive(Clone, Default)]
pub struct DBConnector<Client> {
    client: Client,
}

impl<Client> DBConnector<Client> {
    pub fn new(client: Client) -> (res: Self)
        ensures
            res.client() == client,
    {
        Self { client }
    }

    /// The client the requests go through.
    pub closed spec fn client(&self) -> Client {
        self.client
    }

    /// The client the requests go through, to send them.
    pub fn client_mut(&mut self) -> (res: &mut Client)
        ensures
            *res == old(self).client(),
            final(self).client() == *final(res),
    {
        &mut self.client
    }
}

} // verus!
