//! The per-connection state machine: registration, heartbeat liveness,
//! inbound frames and change notifications. The surrounding runtime performs
//! the returned actions and feeds back what happened.

use crate::error::PROTOBUF_ERROR_WRONG_FORMAT_ERROR_CODE;
use crate::paths::{parent_dir, parent_spec, real_path, real_path_spec};
use crate::wire::{
    decode_incoming, encode_outgoing, outgoing_bytes, outgoing_fits, parse_incoming,
    BasicOutcomingMessage, IncomingContent, ListDirectoryResponse, OutgoingContent,
    PROTOCOL_VERSION,
};
use vstd::prelude::*;
use vstd::string::*;

verus! {

/// How often a ping is sent to the client, in milliseconds.
pub const HEARTBEAT_INTERVAL_MS: u64 = 5000;

/// Silence after which the client is considered gone, in milliseconds.
pub const CLIENT_TIMEOUT_MS: u64 = 10000;

#[derive(Debug, Clone, Copy, PartialEq, Eq, Structural)]
pub enum SessionPhase {
    /// Waiting for the registry to hand out a session id.
    Connecting,
    /// Holding a session id; frames and notifications are processed.
    Registered,
    /// Shutting down; the session id, if any, is given back.
    Closing,
}

/// What the heartbeat timer asks for.
#[derive(Debug, Clone, Copy, PartialEq, Eq, Structural)]
pub enum HeartbeatAction {
    Ping,
    Stop,
}

/// What an inbound binary frame asks for.
pub enum FrameOutcome {
    /// Send these bytes back; the connection stays open.
    Reply(Vec<u8>),
    /// List this user-visible directory and send the listing.
    ListDirectory(String),
}

/// One client connection.
pub struct UserSession {
    pub session_id: Option<u64>,
    pub user_id: u128,
    /// Millisecond time of the last ping or pong from the client.
    pub heartbeat: u64,
    pub watched_path: Option<String>,
    pub phase: SessionPhase,
}

pub open spec fn elapsed_since(last: u64, now: u64) -> int {
    if now >= last {
        now - last
    } else {
        0
    }
}

/// The envelope of a general error with `code`.
pub open spec fn error_envelope(code: u64) -> BasicOutcomingMessage {
    BasicOutcomingMessage { version: PROTOCOL_VERSION, content: OutgoingContent::GeneralError(code) }
}

/// An envelope carrying a general error with `code`, as bytes.
pub fn error_frame(code: u64) -> (r: Vec<u8>)
    ensures
        r@ == outgoing_bytes(error_envelope(code)),
{
    let m = BasicOutcomingMessage {
        version: PROTOCOL_VERSION,
        content: OutgoingContent::GeneralError(code),
    };
    match encode_outgoing(&m) {
        Some(b) => b,
        None => Vec::new(),
    }
}

/// The envelope that answers a listing request with `resp`.
pub open spec fn listing_envelope(resp: ListDirectoryResponse) -> BasicOutcomingMessage {
    BasicOutcomingMessage {
        version: PROTOCOL_VERSION,
        content: OutgoingContent::ListDirectory(resp),
    }
}

/// The frame that answers a listing request with `resp`; empty when the
/// listing is too large to frame.
pub fn listing_frame(resp: ListDirectoryResponse) -> (r: Vec<u8>)
    ensures
        outgoing_fits(listing_envelope(resp)) ==> r@ == outgoing_bytes(listing_envelope(resp)),
        !outgoing_fits(listing_envelope(resp)) ==> r@.len() == 0,
{
    let m = BasicOutcomingMessage {
        version: PROTOCOL_VERSION,
        content: OutgoingContent::ListDirectory(resp),
    };
    match encode_outgoing(&m) {
        Some(b) => b,
        None => Vec::new(),
    }
}

impl UserSession {
    /// A connection of `user_id` whose heartbeat clock starts at `now`.
    pub fn new(user_id: u128, now: u64) -> (r: Self)
        ensures
            r.session_id is None,
            r.user_id == user_id,
            r.heartbeat == now,
            r.watched_path is None,
            r.phase == SessionPhase::Connecting,
    {
        UserSession {
            session_id: None,
            user_id,
            heartbeat: now,
            watched_path: None,
            phase: SessionPhase::Connecting,
        }
    }

    /// The registry's answer to `Connect`: an id registers the connection,
    /// no answer closes it. Answers `false` when the connection must stop.
    pub fn started(&mut self, registered: Option<u64>) -> (r: bool)
        ensures
            final(self).user_id == old(self).user_id,
            final(self).heartbeat == old(self).heartbeat,
            final(self).watched_path == old(self).watched_path,
            match registered {
                Some(id) => r && final(self).session_id == Some(id) && final(self).phase
                    == SessionPhase::Registered,
                None => !r && final(self).session_id == old(self).session_id && final(self).phase
                    == SessionPhase::Closing,
            },
    {
        match registered {
            Some(id) => {
                self.session_id = Some(id);
                self.phase = SessionPhase::Registered;
                true
            },
            None => {
                self.phase = SessionPhase::Closing;
                false
            },
        }
    }

    /// The heartbeat timer fired at `now`: more than the client timeout of
    /// silence since the last ping or pong stops the connection without a
    /// further ping; otherwise a ping goes out.
    pub fn heartbeat_tick(&mut self, now: u64) -> (r: HeartbeatAction)
        ensures
            final(self).session_id == old(self).session_id,
            final(self).user_id == old(self).user_id,
            final(self).heartbeat == old(self).heartbeat,
            final(self).watched_path == old(self).watched_path,
            elapsed_since(old(self).heartbeat, now) > CLIENT_TIMEOUT_MS ==> r == HeartbeatAction::Stop
                && final(self).phase == SessionPhase::Closing,
            elapsed_since(old(self).heartbeat, now) <= CLIENT_TIMEOUT_MS ==> r
                == HeartbeatAction::Ping && final(self).phase == old(self).phase,
    {
        if now >= self.heartbeat && now - self.heartbeat > CLIENT_TIMEOUT_MS {
            self.phase = SessionPhase::Closing;
            HeartbeatAction::Stop
        } else {
            HeartbeatAction::Ping
        }
    }

    /// A ping or pong from the client arrived at `now`.
    pub fn client_alive(&mut self, now: u64)
        ensures
            final(self).heartbeat == now,
            final(self).session_id == old(self).session_id,
            final(self).user_id == old(self).user_id,
            final(self).watched_path == old(self).watched_path,
            final(self).phase == old(self).phase,
    {
        self.heartbeat = now;
    }

    /// An inbound binary frame. A malformed frame or one of another protocol
    /// version is answered with a `WrongFormat` general error and changes
    /// nothing, so the connection stays open; a listing request becomes the
    /// watched directory and is to be answered with its listing.
    pub fn handle_frame(&mut self, frame: &Vec<u8>) -> (r: FrameOutcome)
        ensures
            final(self).session_id == old(self).session_id,
            final(self).user_id == old(self).user_id,
            final(self).heartbeat == old(self).heartbeat,
            final(self).phase == old(self).phase,
            match parse_incoming(frame@) {
                Some(m) if m.version == PROTOCOL_VERSION => {
                    &&& r matches FrameOutcome::ListDirectory(p) && p@ == m.path
                    &&& final(self).watched_path matches Some(w) && w@ == m.path
                },
                _ => {
                    &&& r matches FrameOutcome::Reply(b) && b@ == outgoing_bytes(
                        error_envelope(PROTOBUF_ERROR_WRONG_FORMAT_ERROR_CODE),
                    )
                    &&& final(self).watched_path == old(self).watched_path
                },
            },
    {
        let request = match decode_incoming(frame) {
            Some(m) => m,
            None => return FrameOutcome::Reply(error_frame(PROTOBUF_ERROR_WRONG_FORMAT_ERROR_CODE)),
        };
        if request.version != PROTOCOL_VERSION {
            return FrameOutcome::Reply(error_frame(PROTOBUF_ERROR_WRONG_FORMAT_ERROR_CODE));
        }
        match request.content {
            IncomingContent::ListDirectory { path } => {
                self.watched_path = Some(path.clone());
                FrameOutcome::ListDirectory(path)
            },
        }
    }

    /// A change batch from the registry: answers the watched directory when
    /// some changed path's parent is that directory's real path, so that it
    /// is listed and pushed once, however many paths matched.
    pub fn handle_refresh(&self, root_path: &str, file_paths: &Vec<String>) -> (r: Option<String>)
        ensures
            match self.watched_path {
                None => r is None,
                Some(w) => {
                    &&& r is Some <==> exists|i: int|
                        0 <= i < file_paths@.len() && parent_spec(#[trigger] file_paths@[i]@)
                            == Some(real_path_spec(root_path@, w@))
                    &&& r matches Some(p) ==> p@ == w@
                },
            },
    {
        match &self.watched_path {
            None => None,
            Some(w) => {
                let watched = real_path(root_path, w.as_str());
                let n = file_paths.len();
                let mut i: usize = 0;
                while i < n
                    invariant
                        n == file_paths@.len(),
                        i <= n,
                        watched@ == real_path_spec(root_path@, w@),
                        self.watched_path == Some(*w),
                        forall|j: int|
                            0 <= j < i ==> parent_spec(#[trigger] file_paths@[j]@) != Some(
                                watched@,
                            ),
                    decreases n - i,
                {
                    match parent_dir(file_paths[i].as_str()) {
                        Some(p) => {
                            if p == watched {
                                return Some(w.clone());
                            }
                        },
                        None => {},
                    }
                    i = i + 1;
                }
                None
            },
        }
    }

    /// The connection is stopping: gives back the session id to deregister,
    /// if it ever got one.
    pub fn stopping(&mut self) -> (r: Option<u64>)
        ensures
            r == old(self).session_id,
            final(self).phase == SessionPhase::Closing,
            final(self).session_id == old(self).session_id,
            final(self).user_id == old(self).user_id,
            final(self).heartbeat == old(self).heartbeat,
            final(self).watched_path == old(self).watched_path,
    {
        self.phase = SessionPhase::Closing;
        self.session_id
    }
}

} // verus!
