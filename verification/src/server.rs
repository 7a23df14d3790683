//! Decisions of the HTTP and WebSocket server: what each request is answered,
//! given what the store and the password hasher returned.

use vstd::prelude::*;
use vstd::string::*;
use vstd::utf8::*;
use crate::types::{ApiResponse, Device, DeviceStatus, RegisterRequest, TokenResponse, User, WsMessage};

verus! {

/// A storage operation failed; what went wrong is not carried further.
#[derive(Debug, Clone, Copy, PartialEq, Eq, Structural)]
pub struct StoreFailure;

// ---------------------------------------------------------------------------
// Password hashing (bcrypt)
// ---------------------------------------------------------------------------

/// What `bcrypt::verify(password, hash)` returns for a password and a stored hash:
/// `Some(matches)`, or `None` where the stored hash cannot be read.
pub uninterp spec fn bcrypt_verify_outcome(password: Seq<char>, hash: Seq<char>) -> Option<bool>;

/// Calls `bcrypt::verify`. Its result depends on its two arguments alone (the salt
/// and cost are read from the hash), so it is named by `bcrypt_verify_outcome`;
/// an error of the crate becomes `None`.
#[verifier::external_body]
fn bcrypt_verify(password: &str, hash: &str) -> (r: Option<bool>)
    ensures
        r == bcrypt_verify_outcome(password@, hash@),
{
    bcrypt::verify(password, hash).ok()
}

/// Calls `bcrypt::hash` with `bcrypt::DEFAULT_COST`. The salt comes from the
/// operating system's random source, so nothing fixes the hash itself; what the
/// crate's source shows of every outcome is stated: verifying the same password
/// against a produced hash answers `Some(true)` (`verify` re-hashes the password
/// with the salt and cost written in the hash). A failure of the random source
/// becomes `None`.
#[verifier::external_body]
fn bcrypt_hash(password: &str) -> (r: Option<String>)
    ensures
        r matches Some(h) ==> bcrypt_verify_outcome(password@, h@) == Some(true),
{
    bcrypt::hash(password, bcrypt::DEFAULT_COST).ok()
}

/// The token handed out for a signing result: the token, or empty text where
/// signing failed.
pub open spec fn token_text(token: Option<String>) -> Seq<char> {
    match token {
        Some(s) => s@,
        None => Seq::<char>::empty(),
    }
}

/// The token handed out is the signing result itself, whole: signing that gave
/// `s` hands out exactly `s`, and failed signing hands out the empty text.
pub proof fn lemma_token_text_is_signing_result(token: Option<String>)
    ensures
        token matches Some(s) ==> token_text(token) == s@,
        token is None ==> token_text(token).len() == 0,
{
}

// ---------------------------------------------------------------------------
// Registration
// ---------------------------------------------------------------------------

/// Whether a lookup by name found a user.
pub open spec fn lookup_found(lookup: Result<Option<User>, StoreFailure>) -> bool {
    lookup matches Ok(Some(_))
}

/// Given the hasher's result, either the hash to store or the answer
/// "Password hash failed" (code 2).
pub fn register_after_hash(hashed: Option<String>) -> (r: Result<String, ApiResponse<TokenResponse>>)
    ensures
        match hashed {
            Some(h) => r == Ok::<String, ApiResponse<TokenResponse>>(h),
            None => r matches Err(resp) && resp.code == 2 && resp.message@
                == "Password hash failed"@ && resp.data is None,
        },
{
    match hashed {
        Some(h) => Ok(h),
        None => Err(ApiResponse::error(2, "Password hash failed")),
    }
}

/// First step of a registration: refuses a name that is taken (code 1,
/// "Username already exists"), else hashes the password. A failed lookup counts
/// as a free name. On `Ok(hash)` the caller stores the user with that hash.
pub fn register_check(req: &RegisterRequest, lookup: &Result<Option<User>, StoreFailure>) -> (r: Result<String, ApiResponse<TokenResponse>>)
    ensures
        lookup_found(*lookup) ==> (r matches Err(resp) && resp.code == 1 && resp.message@
            == "Username already exists"@ && resp.data is None),
        !lookup_found(*lookup) ==> match r {
            Ok(h) => bcrypt_verify_outcome(req.password@, h@) == Some(true),
            Err(resp) => resp.code == 2 && resp.message@ == "Password hash failed"@ && resp.data is None,
        },
{
    if let Ok(Some(_)) = lookup {
        return Err(ApiResponse::error(1, "Username already exists"));
    }
    let hashed = bcrypt_hash(req.password.as_str());
    register_after_hash(hashed)
}

/// Last step of a registration: `created` is `Err` when storing the user failed
/// (code 3, "Registration failed"), else the result of signing the new user's
/// token, where a failed signing gives an empty token.
pub fn registration_reply(username: String, created: Result<Option<String>, StoreFailure>) -> (r: ApiResponse<TokenResponse>)
    ensures
        match created {
            Ok(token) => {
                &&& r.code == 0
                &&& r.message@ == "ok"@
                &&& r.data matches Some(t) && t.username == username && t.token@ == token_text(token)
            },
            Err(_) => r.code == 3 && r.message@ == "Registration failed"@ && r.data is None,
        },
        created matches Ok(Some(s)) ==> (r.data matches Some(t) && t.token == s),
        created matches Ok(None) ==> (r.data matches Some(t) && t.token@.len() == 0),
{
    match created {
        Ok(token) => {
            let token = match token {
                Some(s) => s,
                None => String::new(),
            };
            ApiResponse::success(TokenResponse { token, username })
        },
        Err(_) => ApiResponse::error(3, "Registration failed"),
    }
}

// ---------------------------------------------------------------------------
// Login
// ---------------------------------------------------------------------------

/// Whether a login with `password` is accepted, given the lookup of its user name.
pub open spec fn login_accepts(lookup: Result<Option<User>, StoreFailure>, password: Seq<char>) -> bool {
    lookup matches Ok(Some(u)) && bcrypt_verify_outcome(password, u.password_hash@) == Some(true)
}

/// The one answer to every refused login, whichever part was wrong.
pub open spec fn is_login_refusal(resp: ApiResponse<TokenResponse>) -> bool {
    resp.code == 1 && resp.message@ == "Invalid username or password"@ && resp.data is None
}

/// Given a found user and the outcome of checking the password against the
/// stored hash, the user when it matched; an unreadable hash counts as a mismatch.
pub fn login_decide(user: User, verified: Option<bool>) -> (r: Result<User, ApiResponse<TokenResponse>>)
    ensures
        verified == Some(true) ==> r == Ok::<User, ApiResponse<TokenResponse>>(user),
        verified != Some(true) ==> (r matches Err(resp) && is_login_refusal(resp)),
{
    match verified {
        Some(true) => Ok(user),
        _ => Err(ApiResponse::error(1, "Invalid username or password")),
    }
}

/// Checks a login: the user must have been found and the password must match its
/// stored hash; otherwise the login is refused with the same answer.
pub fn login_check(lookup: Result<Option<User>, StoreFailure>, password: &str) -> (r: Result<User, ApiResponse<TokenResponse>>)
    ensures
        login_accepts(lookup, password@) ==> r == Ok::<User, ApiResponse<TokenResponse>>(lookup->Ok_0->Some_0),
        !login_accepts(lookup, password@) ==> (r matches Err(resp) && is_login_refusal(resp)),
{
    match lookup {
        Ok(Some(user)) => {
            let verified = bcrypt_verify(password, user.password_hash.as_str());
            login_decide(user, verified)
        },
        _ => Err(ApiResponse::error(1, "Invalid username or password")),
    }
}

/// The answer to an accepted login: the signed token (empty where signing
/// failed) and the user's name.
pub fn login_reply(user: User, token: Option<String>) -> (r: ApiResponse<TokenResponse>)
    ensures
        r.code == 0,
        r.message@ == "ok"@,
        r.data matches Some(t) && t.username == user.username && t.token@ == token_text(token),
        token matches Some(s) ==> (r.data matches Some(t) && t.token == s),
        token is None ==> (r.data matches Some(t) && t.token@.len() == 0),
{
    let token = match token {
        Some(s) => s,
        None => String::new(),
    };
    ApiResponse::success(TokenResponse { token, username: user.username })
}

/// A password that registration hashed logs in: when the user found by name
/// holds a hash that `register_check` produced for `password`, the login with
/// `password` is accepted.
pub proof fn lemma_registered_password_logs_in(password: Seq<char>, user: User)
    requires
        bcrypt_verify_outcome(password, user.password_hash@) == Some(true),
    ensures
        login_accepts(Ok(Some(user)), password),
{
}

// ---------------------------------------------------------------------------
// Devices
// ---------------------------------------------------------------------------

/// Answer to listing the devices: the list, or code 1 "Failed to get devices".
pub fn list_devices_reply(listed: Result<Vec<Device>, StoreFailure>) -> (r: ApiResponse<Vec<Device>>)
    ensures
        match listed {
            Ok(v) => r.code == 0 && r.message@ == "ok"@ && r.data == Some(v),
            Err(_) => r.code == 1 && r.message@ == "Failed to get devices"@ && r.data is None,
        },
{
    match listed {
        Ok(devices) => ApiResponse::success(devices),
        Err(_) => ApiResponse::error(1, "Failed to get devices"),
    }
}

/// Answer to reading one device: the device, code 1 "Device not found", or
/// code 2 "Query failed".
pub fn get_device_reply(found: Result<Option<Device>, StoreFailure>) -> (r: ApiResponse<Device>)
    ensures
        match found {
            Ok(Some(d)) => r.code == 0 && r.message@ == "ok"@ && r.data == Some(d),
            Ok(None) => r.code == 1 && r.message@ == "Device not found"@ && r.data is None,
            Err(_) => r.code == 2 && r.message@ == "Query failed"@ && r.data is None,
        },
{
    match found {
        Ok(Some(device)) => ApiResponse::success(device),
        Ok(None) => ApiResponse::error(1, "Device not found"),
        Err(_) => ApiResponse::error(2, "Query failed"),
    }
}

/// Answer to adding a device: "Device added", or code 1 "Add failed".
pub fn add_device_reply(added: Result<i64, StoreFailure>) -> (r: ApiResponse<String>)
    ensures
        match added {
            Ok(_) => r.code == 0 && r.message@ == "ok"@ && (r.data matches Some(m) && m@ == "Device added"@),
            Err(_) => r.code == 1 && r.message@ == "Add failed"@ && r.data is None,
        },
{
    match added {
        Ok(_) => ApiResponse::success(String::from_str("Device added")),
        Err(_) => ApiResponse::error(1, "Add failed"),
    }
}

/// Answer to deleting a device: "Device deleted", or code 1 "Delete failed".
pub fn delete_device_reply(deleted: Result<(), StoreFailure>) -> (r: ApiResponse<String>)
    ensures
        match deleted {
            Ok(_) => r.code == 0 && r.message@ == "ok"@ && (r.data matches Some(m) && m@ == "Device deleted"@),
            Err(_) => r.code == 1 && r.message@ == "Delete failed"@ && r.data is None,
        },
{
    match deleted {
        Ok(_) => ApiResponse::success(String::from_str("Device deleted")),
        Err(_) => ApiResponse::error(1, "Delete failed"),
    }
}

/// Answer to a command once it has been handed to the broadcast channel,
/// whether or not anyone listened.
pub fn command_sent_reply() -> (r: ApiResponse<String>)
    ensures
        r.code == 0,
        r.message@ == "ok"@,
        r.data matches Some(m) && m@ == "Command sent"@,
{
    ApiResponse::success(String::from_str("Command sent"))
}

// ---------------------------------------------------------------------------
// WebSocket
// ---------------------------------------------------------------------------

/// The fields of a JSON text frame that is no `WsMessage`: its "type" and
/// "device_id" where they are strings, and its "state" member written back as
/// compact JSON text.
#[derive(Debug)]
pub struct UntypedReport {
    pub msg_type: Option<String>,
    pub device_id: Option<String>,
    pub state: Option<String>,
}

/// The text of an optional string.
pub open spec fn opt_text(s: Option<String>) -> Option<Seq<char>> {
    match s {
        Some(t) => Some(t@),
        None => None,
    }
}

/// What parsing `text` as JSON with `serde_json` gives: `None` where it is not
/// JSON, else the "type" and "device_id" members where they are strings, and
/// the "state" member written back as compact JSON text (`Value`'s `to_string`).
pub uninterp spec fn json_report_fields(text: Seq<char>) -> Option<(Option<Seq<char>>, Option<Seq<char>>, Option<Seq<char>>)>;

/// Calls `serde_json::from_str::<serde_json::Value>` on `text` and picks the
/// "type" and "device_id" members (where they are strings) and the "state"
/// member, written back with `to_string`. Parsing and writing back depend on the
/// text alone (an object keeps the last of repeated keys, and its members are
/// kept in key order), so the outcome is named by `json_report_fields`.
#[verifier::external_body]
fn parse_untyped_report(text: &str) -> (r: Option<UntypedReport>)
    ensures
        r is None <==> json_report_fields(text@) is None,
        r matches Some(u) ==> json_report_fields(text@) == Some(
            (opt_text(u.msg_type), opt_text(u.device_id), opt_text(u.state)),
        ),
{
    serde_json::from_str::<serde_json::Value>(text).ok().map(|v| UntypedReport {
        msg_type: v.get("type").and_then(|t| t.as_str()).map(str::to_string),
        device_id: v.get("device_id").and_then(|t| t.as_str()).map(str::to_string),
        state: v.get("state").map(|st| st.to_string()),
    })
}

/// What arrived on a WebSocket connection, as the connection loop read it.
pub enum WsInbound {
    /// A text frame that parsed as a `WsMessage`.
    Typed(WsMessage),
    /// A text frame that is JSON but no `WsMessage`.
    Untyped(UntypedReport),
    /// A text frame that is not JSON.
    NotJson,
    /// The peer closed the connection.
    Closed,
    /// Reading from the connection failed.
    Failed,
    /// A binary, ping or pong frame.
    OtherFrame,
}

/// What the connection loop does with what arrived.
pub enum WsReaction {
    /// Nothing.
    Ignore,
    /// Send `Pong` to this client.
    SendPong,
    /// Store the state, mark the device online, and broadcast
    /// `{"type": "status", "device_id": .., "state": ..}`.
    RecordStatus(DeviceStatus),
    /// Store `state` (JSON text) for `device_id`, mark the device online, and
    /// broadcast the frame's text unchanged.
    RecordAndForward { device_id: String, state: String },
    /// Broadcast the frame's text unchanged.
    Forward,
    /// Stop reading from this connection.
    Stop,
}

/// The reaction of the connection loop to each kind of inbound frame.
pub open spec fn ws_reaction_matches(event: WsInbound, r: WsReaction) -> bool {
    match event {
        WsInbound::Typed(WsMessage::Ping) => r is SendPong,
        WsInbound::Typed(WsMessage::DeviceStatusUpdate(st)) => r == WsReaction::RecordStatus(st),
        WsInbound::Typed(WsMessage::DeviceCommand(_)) => r is Forward,
        WsInbound::Typed(_) => r is Ignore,
        WsInbound::Untyped(rep) => match rep.msg_type {
            None => r is Ignore,
            Some(t) => if t@ == "status"@ {
                match (rep.device_id, rep.state) {
                    (Some(id), Some(st)) => r == WsReaction::RecordAndForward { device_id: id, state: st },
                    _ => r is Ignore,
                }
            } else {
                r is Forward
            },
        },
        WsInbound::NotJson => r is Ignore,
        WsInbound::Closed => r is Stop,
        WsInbound::Failed => r is Stop,
        WsInbound::OtherFrame => r is Ignore,
    }
}

/// Decides what the connection loop does with one inbound frame: answers pings,
/// records and broadcasts status reports, relays commands and other typed JSON
/// messages, and stops on close or error.
pub fn ws_react(event: WsInbound) -> (r: WsReaction)
    ensures
        ws_reaction_matches(event, r),
        event matches WsInbound::Typed(WsMessage::Ping) ==> r is SendPong,
        event matches WsInbound::Typed(WsMessage::DeviceCommand(_)) ==> r is Forward,
        event matches WsInbound::Typed(WsMessage::DeviceStatusUpdate(st)) ==> r
            == WsReaction::RecordStatus(st),
        event matches WsInbound::Typed(WsMessage::Pong) ==> r is Ignore,
        event matches WsInbound::Untyped(rep) ==> (r is Forward <==> (rep.msg_type matches Some(t)
            && t@ != "status"@)),
        event matches WsInbound::Untyped(rep) ==> (r matches WsReaction::RecordAndForward {
            device_id: d,
            state: x,
        } ==> (rep.msg_type matches Some(t) && t@ == "status"@ && rep.device_id == Some(d)
            && rep.state == Some(x))),
        event matches WsInbound::Untyped(rep) ==> ((rep.msg_type matches Some(t) && t@ == "status"@
            && rep.device_id is Some && rep.state is Some) ==> r == WsReaction::RecordAndForward {
            device_id: rep.device_id->Some_0,
            state: rep.state->Some_0,
        }),
        event is Closed || event is Failed ==> r is Stop,
        event is NotJson || event is OtherFrame ==> r is Ignore,
{
    match event {
        WsInbound::Typed(msg) => match msg {
            WsMessage::Ping => WsReaction::SendPong,
            WsMessage::DeviceStatusUpdate(status) => WsReaction::RecordStatus(status),
            WsMessage::DeviceCommand(_) => WsReaction::Forward,
            _ => WsReaction::Ignore,
        },
        WsInbound::Untyped(rep) => match rep.msg_type {
            None => WsReaction::Ignore,
            Some(t) => {
                let status = String::from_str("status");
                if t == status {
                    match (rep.device_id, rep.state) {
                        (Some(id), Some(st)) => WsReaction::RecordAndForward { device_id: id, state: st },
                        _ => WsReaction::Ignore,
                    }
                } else {
                    WsReaction::Forward
                }
            },
        },
        WsInbound::NotJson => WsReaction::Ignore,
        WsInbound::Closed => WsReaction::Stop,
        WsInbound::Failed => WsReaction::Stop,
        WsInbound::OtherFrame => WsReaction::Ignore,
    }
}

/// What the connection loop does with each frame: a ping is answered with a
/// pong, every typed command is broadcast unchanged, a typed status update is
/// recorded as it came, untyped JSON with a string "type" other than "status"
/// is broadcast, an untyped status report with a string "device_id" and a
/// "state" is recorded under that id with that state, and the loop stops when
/// the connection closes or fails.
pub proof fn lemma_ws_reactions(event: WsInbound, r: WsReaction)
    requires
        ws_reaction_matches(event, r),
    ensures
        event matches WsInbound::Typed(WsMessage::Ping) ==> r is SendPong,
        event matches WsInbound::Typed(WsMessage::DeviceCommand(_)) ==> r is Forward,
        event matches WsInbound::Typed(WsMessage::DeviceStatusUpdate(st)) ==> r
            == WsReaction::RecordStatus(st),
        event matches WsInbound::Typed(WsMessage::Pong) ==> r is Ignore,
        event matches WsInbound::Untyped(rep) ==> (r is Forward <==> (rep.msg_type matches Some(t)
            && t@ != "status"@)),
        event matches WsInbound::Untyped(rep) ==> (r matches WsReaction::RecordAndForward {
            device_id: d,
            state: x,
        } ==> (rep.msg_type matches Some(t) && t@ == "status"@ && rep.device_id == Some(d)
            && rep.state == Some(x))),
        event matches WsInbound::Untyped(rep) ==> ((rep.msg_type matches Some(t) && t@ == "status"@
            && rep.device_id is Some && rep.state is Some) ==> r == WsReaction::RecordAndForward {
            device_id: rep.device_id->Some_0,
            state: rep.state->Some_0,
        }),
        event is Closed || event is Failed ==> r is Stop,
        event is NotJson || event is OtherFrame ==> r is Ignore,
{
}

/// The reaction to a text frame that is no `WsMessage`, given what parsing it
/// as JSON gave: a status report ("type" is "status", with a string
/// "device_id" and a "state") has that state recorded for that device and is
/// forwarded, other typed JSON is
/// forwarded, and JSON without a string "type", or text that is no JSON, is ignored.
pub open spec fn report_reaction_matches(
    fields: Option<(Option<Seq<char>>, Option<Seq<char>>, Option<Seq<char>>)>,
    r: WsReaction,
) -> bool {
    match fields {
        None => r is Ignore,
        Some((msg_type, device_id, state)) => match msg_type {
            None => r is Ignore,
            Some(t) => if t == "status"@ {
                match (device_id, state) {
                    (Some(id), Some(st)) => r matches WsReaction::RecordAndForward {
                        device_id: d,
                        state: x,
                    } && d@ == id && x@ == st,
                    _ => r is Ignore,
                }
            } else {
                r is Forward
            },
        },
    }
}

/// Decides what the connection loop does with a text frame: `typed` is the
/// frame read as a `WsMessage`, where it is one; otherwise the text is read as
/// JSON and judged by its "type", "device_id" and "state" members.
pub fn ws_react_text(typed: Option<WsMessage>, text: &str) -> (r: WsReaction)
    ensures
        typed matches Some(m) ==> ws_reaction_matches(WsInbound::Typed(m), r),
        typed is None ==> report_reaction_matches(json_report_fields(text@), r),
        typed matches Some(WsMessage::Ping) ==> r is SendPong,
        typed matches Some(WsMessage::DeviceCommand(_)) ==> r is Forward,
        typed matches Some(WsMessage::DeviceStatusUpdate(st)) ==> r == WsReaction::RecordStatus(st),
        typed is None ==> (r matches WsReaction::RecordAndForward { device_id: d, state: x }
            ==> json_report_fields(text@) == Some((Some("status"@), Some(d@), Some(x@)))),
        typed is None ==> ({
            let f = json_report_fields(text@);
            (f is Some && f->Some_0.0 == Some("status"@) && f->Some_0.1 is Some && f->Some_0.2 is Some)
                ==> (r is RecordAndForward && r->device_id@ == f->Some_0.1->Some_0 && r->state@
                == f->Some_0.2->Some_0)
        }),
        typed is None ==> (r is Forward <==> (json_report_fields(text@) matches Some((Some(t), _, _))
            && t != "status"@)),
{
    match typed {
        Some(m) => ws_react(WsInbound::Typed(m)),
        None => match parse_untyped_report(text) {
            Some(rep) => ws_react(WsInbound::Untyped(rep)),
            None => ws_react(WsInbound::NotJson),
        },
    }
}

/// What the task that forwards the broadcast channel to one client sees.
pub enum BroadcastEvent {
    /// A message was published on the channel.
    Message(String),
    /// The client fell behind and this many messages were dropped for it.
    Lagged(u64),
    /// The channel was closed.
    Closed,
    /// The client's outgoing queue is gone.
    ClientGone,
}

/// What the forwarding task does next.
pub enum ForwardAction {
    /// Queue this message for the client, then go on.
    Deliver(String),
    /// Go on with the next message.
    Continue,
    /// Stop forwarding.
    Stop,
}

/// One step of forwarding the broadcast channel to a client: every message is
/// delivered, a lag does not end the forwarding (the client goes on receiving
/// what comes next), and forwarding stops when the channel closes or the client
/// is gone.
pub fn forward_step(event: BroadcastEvent) -> (a: ForwardAction)
    ensures
        match event {
            BroadcastEvent::Message(m) => a == ForwardAction::Deliver(m),
            BroadcastEvent::Lagged(_) => a is Continue,
            BroadcastEvent::Closed => a is Stop,
            BroadcastEvent::ClientGone => a is Stop,
        },
{
    match event {
        BroadcastEvent::Message(m) => ForwardAction::Deliver(m),
        BroadcastEvent::Lagged(_) => ForwardAction::Continue,
        BroadcastEvent::Closed => ForwardAction::Stop,
        BroadcastEvent::ClientGone => ForwardAction::Stop,
    }
}

// ---------------------------------------------------------------------------
// Provisioning
// ---------------------------------------------------------------------------

/// The text before the first '-' of `s` (all of `s` where it has none).
pub open spec fn first_segment(s: Seq<char>) -> Seq<char>
    decreases s.len(),
{
    if s.len() == 0 {
        s
    } else if s[0] == '-' {
        Seq::empty()
    } else {
        seq![s[0]] + first_segment(s.drop_first())
    }
}

/// The segment before the first '-' is the prefix up to the first '-'.
proof fn lemma_first_segment_prefix(s: Seq<char>, k: int)
    requires
        0 <= k <= s.len(),
        forall|i: int| 0 <= i < k ==> s[i] != '-',
        k < s.len() ==> s[k] == '-',
    ensures
        first_segment(s) == s.take(k),
    decreases s.len(),
{
    if s.len() > 0 && k > 0 {
        lemma_first_segment_prefix(s.drop_first(), k - 1);
        assert(seq![s[0]] + s.drop_first().take(k - 1) =~= s.take(k));
    } else {
        assert(s.take(k) =~= Seq::<char>::empty());
    }
}

/// No byte of the UTF-8 encoding of a character other than '-' is the byte of '-'.
proof fn lemma_encoding_has_no_dash(c: char)
    requires
        c != '-',
    ensures
        forall|i: int| 0 <= i < encode_scalar(c as u32).len() ==> #[trigger] encode_scalar(c as u32)[i] != 0x2Du8,
{
    let v = c as u32;
    assert(('-' as u32) == 0x2Du32);
    if has_width_1_encoding(v) {
        assert(v <= 0x7F && v != 0x2D ==> (v & 0x7F) as u8 != 0x2Du8) by (bit_vector);
    } else {
        assert(forall|y: u8| #[trigger] (0x80u8 | y) != 0x2Du8) by (bit_vector);
        assert(forall|y: u8| #[trigger] (0xC0u8 | y) != 0x2Du8) by (bit_vector);
        assert(forall|y: u8| #[trigger] (0xE0u8 | y) != 0x2Du8) by (bit_vector);
        assert(forall|y: u8| #[trigger] (0xF0u8 | y) != 0x2Du8) by (bit_vector);
    }
}

/// The encoding of the segment before the first '-' is the encoding of the whole
/// text up to the first byte of '-'.
proof fn lemma_first_segment_encoding(chars: Seq<char>, k: int)
    requires
        0 <= k <= encode_utf8(chars).len(),
        forall|i: int| 0 <= i < k ==> encode_utf8(chars)[i] != 0x2Du8,
        k < encode_utf8(chars).len() ==> encode_utf8(chars)[k] == 0x2Du8,
    ensures
        encode_utf8(first_segment(chars)) == encode_utf8(chars).subrange(0, k),
    decreases chars.len(),
{
    let b = encode_utf8(chars);
    if chars.len() == 0 {
        assert(b.subrange(0, k) =~= Seq::<u8>::empty());
    } else {
        let c = chars[0];
        let e = encode_scalar(c as u32);
        let rest = chars.drop_first();
        assert(b == e + encode_utf8(rest));
        if c == '-' {
            assert(('-' as u32) == 0x2Du32);
            assert(e == seq![0x2Du8]) by {
                assert((0x2Du32 & 0x7Fu32) as u8 == 0x2Du8) by (bit_vector);
            }
            assert(b[0] == 0x2Du8);
            assert(k == 0);
            assert(b.subrange(0, k) =~= Seq::<u8>::empty());
            assert(encode_utf8(first_segment(chars)) =~= Seq::<u8>::empty());
        } else {
            lemma_encoding_has_no_dash(c);
            if k < e.len() {
                assert(b[k] == e[k]);
            }
            assert(k >= e.len());
            let br = encode_utf8(rest);
            assert forall|i: int| 0 <= i < k - e.len() implies br[i] != 0x2Du8 by {
                assert(b[i + e.len()] == br[i]);
            }
            if k < b.len() {
                assert(b[k] == br[k - e.len()]);
            }
            lemma_first_segment_encoding(rest, k - e.len());
            let fs = first_segment(chars);
            assert(fs == seq![c] + first_segment(rest));
            assert(fs[0] == c);
            assert(fs.drop_first() =~= first_segment(rest));
            assert(encode_utf8(fs) == e + encode_utf8(first_segment(rest)));
            assert(b.subrange(0, k) =~= e + br.subrange(0, k - e.len()));
        }
    }
}

/// The part of `s` before its first '-' (all of `s` where it has none).
pub fn first_segment_of(s: &str) -> (r: &str)
    ensures
        r@ == first_segment(s@),
{
    let bytes = s.as_bytes();
    let mut k: usize = 0;
    while k < bytes.len() && bytes[k] != 0x2Du8
        invariant
            k <= bytes@.len(),
            bytes@ == encode_utf8(s@),
            forall|i: int| 0 <= i < k ==> bytes@[i] != 0x2Du8,
        decreases bytes@.len() - k,
    {
        k += 1;
    }
    proof {
        encode_utf8_valid_utf8(s@);
        lemma_first_segment_encoding(s@, k as int);
        if k < bytes.len() {
            is_char_boundary_iff_not_is_continuation_byte(bytes@, k as int);
        } else {
            is_char_boundary_start_end_of_seq(bytes@);
        }
    }
    let (head, _) = s.split_at(k);
    proof {
        encode_utf8_decode_utf8(head@);
        encode_utf8_decode_utf8(first_segment(s@));
    }
    head
}

/// Whether `s` is the hyphenated lower-case text of a UUID:
/// 8-4-4-4-12 hexadecimal digits.
pub open spec fn is_hyphenated_uuid(s: Seq<char>) -> bool {
    &&& s.len() == 36
    &&& forall|i: int|
        0 <= i < 36 ==> if i == 8 || i == 13 || i == 18 || i == 23 {
            s[i] == '-'
        } else {
            ('0' <= #[trigger] s[i] <= '9') || ('a' <= s[i] <= 'f')
        }
}

/// Calls `uuid::Uuid::new_v4` and formats the result with `to_string`. The value
/// is random; what holds of every outcome is its text form, which the crate
/// writes hyphenated in lower case (`Display` goes through `LowerHex` of the
/// hyphenated form). The crate panics where the operating system's random
/// source fails; nothing here can rule that out.
#[verifier::external_body]
fn new_uuid_text() -> (s: String)
    ensures
        is_hyphenated_uuid(s@),
{
    uuid::Uuid::new_v4().to_string()
}

/// What a device receives when it is provisioned.
#[derive(Debug)]
pub struct ProvisionGrant {
    pub device_id: String,
    pub token: String,
    pub message: String,
}

/// The grant made from two fresh identifiers: the device id is "esp32-"
/// followed by the first segment of `id_source`, the token is `token`.
pub fn provision_grant_from(id_source: &str, token: String) -> (g: ProvisionGrant)
    ensures
        g.device_id@ == "esp32-"@ + first_segment(id_source@),
        g.token == token,
        g.message@ == "Provisioning info sent"@,
{
    let device_id = String::from_str("esp32-").concat(first_segment_of(id_source));
    ProvisionGrant { device_id, token, message: String::from_str("Provisioning info sent") }
}

/// Provisions a device: two fresh random UUIDs, the first shortened to its
/// leading eight hex digits for the device id, the second whole as its token.
pub fn provision_device() -> (r: ApiResponse<ProvisionGrant>)
    ensures
        r.code == 0,
        r.message@ == "ok"@,
        r.data matches Some(g) && {
            &&& g.device_id@.len() == 14
            &&& g.device_id@.take(6) == "esp32-"@
            &&& forall|i: int| 6 <= i < 14 ==> ('0' <= #[trigger] g.device_id@[i] <= '9') || ('a' <= g.device_id@[i] <= 'f')
            &&& is_hyphenated_uuid(g.token@)
            &&& g.message@ == "Provisioning info sent"@
        },
{
    let id_source = new_uuid_text();
    let token = new_uuid_text();
    let g = provision_grant_from(id_source.as_str(), token);
    proof {
        reveal_strlit("esp32-");
        lemma_first_segment_prefix(id_source@, 8);
        assert(("esp32-"@ + id_source@.take(8)).take(6) =~= "esp32-"@);
    }
    ApiResponse::success(g)
}

} // verus!
