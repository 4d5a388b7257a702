//! Chats between users: the history read from the database, sending a text
//! over a websocket, the websocket connection's state machine, and the
//! router that delivers each new chat to the connections of its sender and
//! receiver.
//!
//! Users are identified by their UUID as a `u128`; times are microseconds
//! since the Unix epoch.

use crate::auth::{get_userid, guard_auth, guard_spec, AuthSession};
use crate::common::{ActionResult, AppError, AppResult};
use std::collections::HashMap;
use vstd::prelude::*;

verus! {

broadcast use vstd::std_specs::hash::group_hash_axioms;

/// The kind of a stored conversation, as the database records it.
#[derive(Clone, Copy, Debug, PartialEq, Eq)]
pub enum ConversationType {
    Text,
    File,
    Image,
}

#[derive(Clone, Copy, Debug, PartialEq, Eq)]
pub enum FileChatType {
    File,
    Image,
}

/// What a chat carries: an encrypted text, or a file stored elsewhere.
#[derive(Clone, Debug, PartialEq, Eq)]
pub enum ChatContent {
    Text { cipher: Vec<u8> },
    File { file_type: FileChatType, filename: String, mime_type: String, size: i64, path: String },
}

#[derive(Clone, Debug, PartialEq, Eq)]
pub struct ChatItem {
    pub id: u128,
    pub created_at: i64,
    pub sender_id: u128,
    pub receiver_id: Option<u128>,
    pub sender_key: Vec<u8>,
    pub receiver_key: Vec<u8>,
    pub content: ChatContent,
}

/// A conversation joined with its text and file parts; the part that does
/// not belong to its kind is empty.
pub struct ChatRow {
    pub id: u128,
    pub created_at: i64,
    pub sender_id: u128,
    pub receiver_id: Option<u128>,
    pub sender_key: Vec<u8>,
    pub receiver_key: Vec<u8>,
    pub content_type: ConversationType,
    pub cipher: Option<Vec<u8>>,
    pub filename: Option<String>,
    pub mime_type: Option<String>,
    pub size: Option<i64>,
    pub path: Option<String>,
}

/// The row holds the part that its kind needs: the cipher of a text, every
/// field of a file or image.
pub open spec fn row_complete(row: ChatRow) -> bool {
    match row.content_type {
        ConversationType::Text => row.cipher is Some,
        _ => row.filename is Some && row.mime_type is Some && row.size is Some && row.path is Some,
    }
}

/// The chat that a complete row describes.
pub open spec fn item_of_row(row: ChatRow) -> ChatItem {
    ChatItem {
        id: row.id,
        created_at: row.created_at,
        sender_id: row.sender_id,
        receiver_id: row.receiver_id,
        sender_key: row.sender_key,
        receiver_key: row.receiver_key,
        content: match row.content_type {
            ConversationType::Text => ChatContent::Text { cipher: row.cipher.unwrap() },
            _ => ChatContent::File {
                file_type: match row.content_type {
                    ConversationType::File => FileChatType::File,
                    _ => FileChatType::Image,
                },
                filename: row.filename.unwrap(),
                mime_type: row.mime_type.unwrap(),
                size: row.size.unwrap(),
                path: row.path.unwrap(),
            },
        },
    }
}

/// The chat carries the row's fields in place: its id, time, sender,
/// receiver and both wrapped keys are the row's, a text carries the row's
/// cipher, and a file or image carries the row's file fields with the kind
/// of the row.
pub open spec fn carries_row(item: ChatItem, row: ChatRow) -> bool {
    &&& item.id == row.id
    &&& item.created_at == row.created_at
    &&& item.sender_id == row.sender_id
    &&& item.receiver_id == row.receiver_id
    &&& item.sender_key == row.sender_key
    &&& item.receiver_key == row.receiver_key
    &&& match row.content_type {
        ConversationType::Text => item.content == ChatContent::Text { cipher: row.cipher.unwrap() },
        ConversationType::File => item.content == ChatContent::File {
            file_type: FileChatType::File,
            filename: row.filename.unwrap(),
            mime_type: row.mime_type.unwrap(),
            size: row.size.unwrap(),
            path: row.path.unwrap(),
        },
        ConversationType::Image => item.content == ChatContent::File {
            file_type: FileChatType::Image,
            filename: row.filename.unwrap(),
            mime_type: row.mime_type.unwrap(),
            size: row.size.unwrap(),
            path: row.path.unwrap(),
        },
    }
}

impl ChatRow {
    pub fn is_complete(&self) -> (b: bool)
        ensures
            b == row_complete(*self),
    {
        match self.content_type {
            ConversationType::Text => self.cipher.is_some(),
            _ => self.filename.is_some() && self.mime_type.is_some() && self.size.is_some()
                && self.path.is_some(),
        }
    }
}

/// Builds the chat of a row; the row must hold the part its kind needs.
pub fn chat_item_from_row(row: ChatRow) -> (item: ChatItem)
    requires
        row_complete(row),
    ensures
        item == item_of_row(row),
        carries_row(item, row),
{
    let content = match row.content_type {
        ConversationType::Text => ChatContent::Text { cipher: row.cipher.unwrap() },
        _ => {
            let file_type = match row.content_type {
                ConversationType::File => FileChatType::File,
                _ => FileChatType::Image,
            };
            ChatContent::File {
                file_type,
                filename: row.filename.unwrap(),
                mime_type: row.mime_type.unwrap(),
                size: row.size.unwrap(),
                path: row.path.unwrap(),
            }
        },
    };
    ChatItem {
        id: row.id,
        created_at: row.created_at,
        sender_id: row.sender_id,
        receiver_id: row.receiver_id,
        sender_key: row.sender_key,
        receiver_key: row.receiver_key,
        content,
    }
}

/// Every row holds the part its kind needs.
pub fn rows_are_complete(rows: &Vec<ChatRow>) -> (b: bool)
    ensures
        b <==> forall|i: int| 0 <= i < rows@.len() ==> row_complete(#[trigger] rows@[i]),
{
    let n = rows.len();
    let mut i: usize = 0;
    while i < n
        invariant
            n == rows@.len(),
            i <= n,
            forall|j: int| 0 <= j < i ==> row_complete(#[trigger] rows@[j]),
        decreases n - i,
    {
        if !rows[i].is_complete() {
            return false;
        }
        i = i + 1;
    }
    true
}

/// Answers `GET /chat` from the session and the logged-in user's chats, read
/// in order of creation (`None` where the query failed). Every row must hold
/// the part its kind needs.
pub fn get(session: &AuthSession, rows: Option<Vec<ChatRow>>) -> (r: AppResult<Vec<ChatItem>>)
    requires
        guard_spec(session@, true) is Ok ==> (rows matches Some(rs) ==> forall|i: int|
            0 <= i < rs@.len() ==> row_complete(#[trigger] rs@[i])),
    ensures
        guard_spec(session@, true) is Err ==> r.0 == Err::<Vec<ChatItem>, AppError>(
            AppError::Forbidden,
        ),
        guard_spec(session@, true) is Ok ==> match rows {
            None => r.0 == Err::<Vec<ChatItem>, AppError>(AppError::Internal),
            Some(rs) => r.0 matches Ok(items) && items@.len() == rs@.len() && (forall|i: int|
                0 <= i < rs@.len() ==> #[trigger] items@[i] == item_of_row(rs@[i])) && (forall|
                i: int,
            |
                0 <= i < rs@.len() ==> carries_row(#[trigger] items@[i], rs@[i])),
        },
{
    let guard = guard_auth(session, true);
    if let Err(e) = guard.0 {
        return AppResult::err(e);
    }
    match rows {
        None => AppResult::err(AppError::Internal),
        Some(rs) => AppResult::ok(items_from_rows(rs)),
    }
}

fn items_from_rows(rows: Vec<ChatRow>) -> (items: Vec<ChatItem>)
    requires
        forall|i: int| 0 <= i < rows@.len() ==> row_complete(#[trigger] rows@[i]),
    ensures
        items@.len() == rows@.len(),
        forall|i: int| 0 <= i < rows@.len() ==> #[trigger] items@[i] == item_of_row(rows@[i]),
{
    let ghost rs = rows@;
    let mut items: Vec<ChatItem> = Vec::new();
    for row in it: rows.into_iter()
        invariant
            it.seq() == rs,
            forall|i: int| 0 <= i < rs.len() ==> row_complete(#[trigger] rs[i]),
            items@.len() == it.index(),
            forall|i: int| 0 <= i < it.index() ==> #[trigger] items@[i] == item_of_row(rs[i]),
    {
        items.push(chat_item_from_row(row));
    }
    items
}

/// The last chat with one partner, and the partner's id (`None` where the
/// query could not tell it).
pub struct PartnerRow {
    pub other_user_id: Option<u128>,
    pub chat: ChatRow,
}

#[derive(Debug, PartialEq, Eq)]
pub struct ChatPartnerItem {
    pub id: u128,
    pub last_chat: ChatItem,
}

pub open spec fn partner_row_complete(row: PartnerRow) -> bool {
    row.other_user_id is Some && row_complete(row.chat)
}

pub open spec fn partner_of_row(row: PartnerRow) -> ChatPartnerItem {
    ChatPartnerItem { id: row.other_user_id.unwrap(), last_chat: item_of_row(row.chat) }
}

impl PartnerRow {
    pub fn is_complete(&self) -> (b: bool)
        ensures
            b == partner_row_complete(*self),
    {
        self.other_user_id.is_some() && self.chat.is_complete()
    }
}

/// Every row names the partner and holds the part its kind needs.
pub fn partner_rows_are_complete(rows: &Vec<PartnerRow>) -> (b: bool)
    ensures
        b <==> forall|i: int| 0 <= i < rows@.len() ==> partner_row_complete(#[trigger] rows@[i]),
{
    let n = rows.len();
    let mut i: usize = 0;
    while i < n
        invariant
            n == rows@.len(),
            i <= n,
            forall|j: int| 0 <= j < i ==> partner_row_complete(#[trigger] rows@[j]),
        decreases n - i,
    {
        if !rows[i].is_complete() {
            return false;
        }
        i = i + 1;
    }
    true
}

/// Answers `GET /chat/partners` from the session and, per partner, the last
/// chat with them, newest first (`None` where the query failed). Every row
/// must be complete.
pub fn get_partners(session: &AuthSession, rows: Option<Vec<PartnerRow>>) -> (r: AppResult<
    Vec<ChatPartnerItem>,
>)
    requires
        guard_spec(session@, true) is Ok ==> (rows matches Some(rs) ==> forall|i: int|
            0 <= i < rs@.len() ==> partner_row_complete(#[trigger] rs@[i])),
    ensures
        guard_spec(session@, true) is Err ==> r.0 == Err::<Vec<ChatPartnerItem>, AppError>(
            AppError::Forbidden,
        ),
        guard_spec(session@, true) is Ok ==> match rows {
            None => r.0 == Err::<Vec<ChatPartnerItem>, AppError>(AppError::Internal),
            Some(rs) => r.0 matches Ok(items) && items@.len() == rs@.len() && (forall|i: int|
                0 <= i < rs@.len() ==> #[trigger] items@[i] == partner_of_row(rs@[i])) && (forall|
                i: int,
            |
                0 <= i < rs@.len() ==> (#[trigger] items@[i]).id == rs@[i].other_user_id.unwrap()
                    && carries_row(items@[i].last_chat, rs@[i].chat)),
        },
{
    let guard = guard_auth(session, true);
    if let Err(e) = guard.0 {
        return AppResult::err(e);
    }
    match rows {
        None => AppResult::err(AppError::Internal),
        Some(rs) => {
            let ghost v = rs@;
            let mut items: Vec<ChatPartnerItem> = Vec::new();
            for row in it: rs.into_iter()
                invariant
                    it.seq() == v,
                    forall|i: int| 0 <= i < v.len() ==> partner_row_complete(#[trigger] v[i]),
                    items@.len() == it.index(),
                    forall|i: int|
                        0 <= i < it.index() ==> #[trigger] items@[i] == partner_of_row(v[i]),
            {
                let id = row.other_user_id.unwrap();
                items.push(ChatPartnerItem { id, last_chat: chat_item_from_row(row.chat) });
            }
            AppResult::ok(items)
        },
    }
}

// ---------------------------------------------------------------------------
// Sending a text
// ---------------------------------------------------------------------------

#[derive(Debug, PartialEq, Eq)]
pub struct SendChatRequest {
    pub receiver_id: u128,
    pub sender_key: Vec<u8>,
    pub receiver_key: Vec<u8>,
    pub message_cipher: Vec<u8>,
}

/// A request that a client sends over its websocket.
#[derive(Debug, PartialEq, Eq)]
pub enum WsRequestMessage {
    SendChat(SendChatRequest),
}

/// The conversation row that stores a text, and the text's cipher.
#[derive(Debug, PartialEq, Eq)]
pub struct NewTextConversation {
    pub sender_id: u128,
    pub receiver_id: u128,
    pub sender_key: Vec<u8>,
    pub receiver_key: Vec<u8>,
    pub content_type: ConversationType,
    pub cipher: Vec<u8>,
}

fn copy_bytes(v: &Vec<u8>) -> (c: Vec<u8>)
    ensures
        c@ == v@,
{
    let c = v.clone();
    assert(c@ =~= v@);
    c
}

/// The values stored for a text that `sender_id` sends: a conversation of
/// kind text between the sender and the request's receiver with the two
/// keys, and the request's cipher as its text.
pub fn new_text_conversation(sender_id: u128, request: &SendChatRequest) -> (row: NewTextConversation)
    ensures
        row.sender_id == sender_id,
        row.receiver_id == request.receiver_id,
        row.sender_key@ == request.sender_key@,
        row.receiver_key@ == request.receiver_key@,
        row.content_type == ConversationType::Text,
        row.cipher@ == request.message_cipher@,
{
    NewTextConversation {
        sender_id,
        receiver_id: request.receiver_id,
        sender_key: copy_bytes(&request.sender_key),
        receiver_key: copy_bytes(&request.receiver_key),
        content_type: ConversationType::Text,
        cipher: copy_bytes(&request.message_cipher),
    }
}

/// The chat that a text sent by `sender_id` becomes once stored with the id
/// and time that the database gave it.
pub open spec fn sent_chat(sender_id: u128, request: SendChatRequest, id: u128, created_at: i64) -> ChatItem {
    ChatItem {
        id,
        created_at,
        sender_id,
        receiver_id: Some(request.receiver_id),
        sender_key: request.sender_key,
        receiver_key: request.receiver_key,
        content: ChatContent::Text { cipher: request.message_cipher },
    }
}

/// Finishes sending a text once its transaction ended: `stored` is the id and
/// time of the stored chat, or `None` where storing its text or committing
/// failed. A stored chat is answered with success and is to be routed; a
/// failed one is answered `Internal` and goes nowhere.
pub fn send_chat(sender_id: u128, request: SendChatRequest, stored: Option<(u128, i64)>) -> (r: (
    AppResult<ActionResult>,
    Option<ChatItem>,
))
    ensures
        match stored {
            None => r.0.0 == Err::<ActionResult, AppError>(AppError::Internal) && r.1 is None,
            Some((id, created_at)) => r.0.0 == Ok::<ActionResult, AppError>(
                ActionResult { success: true },
            ) && r.1 == Some(sent_chat(sender_id, request, id, created_at)) && (r.1 matches Some(
                item,
            ) && item.id == id && item.created_at == created_at && item.sender_id == sender_id
                && item.receiver_id == Some(request.receiver_id) && item.sender_key@
                == request.sender_key@ && item.receiver_key@ == request.receiver_key@
                && item.content == ChatContent::Text { cipher: request.message_cipher }),
        },
{
    match stored {
        None => (AppResult::err(AppError::Internal), None),
        Some((id, created_at)) => {
            let item = ChatItem {
                id,
                created_at,
                sender_id,
                receiver_id: Some(request.receiver_id),
                sender_key: request.sender_key,
                receiver_key: request.receiver_key,
                content: ChatContent::Text { cipher: request.message_cipher },
            };
            (AppResult::ok(ActionResult::success()), Some(item))
        },
    }
}

// ---------------------------------------------------------------------------
// The router
// ---------------------------------------------------------------------------

/// The open websocket connection of each user, by user id; `A` is the
/// address that reaches a connection.
pub struct ChatRouter<A> {
    sessions: HashMap<u128, A>,
}

impl<A> View for ChatRouter<A> {
    type V = Map<u128, A>;

    closed spec fn view(&self) -> Map<u128, A> {
        self.sessions@
    }
}

/// The connections that a chat from `sender` to `receiver` is delivered to:
/// the sender's, then the receiver's, each where the user is connected.
pub open spec fn route_targets<A>(m: Map<u128, A>, sender: u128, receiver: Option<u128>) -> Seq<A> {
    let first = if m.contains_key(sender) {
        seq![m[sender]]
    } else {
        Seq::empty()
    };
    let second = match receiver {
        Some(r) => if m.contains_key(r) {
            seq![m[r]]
        } else {
            Seq::empty()
        },
        None => Seq::empty(),
    };
    first + second
}

/// The targets hold one entry per connected participant and nothing else:
/// the sender's connection first where the sender is connected, then the
/// receiver's where there is a receiver and it is connected.
pub open spec fn delivers_once_per_participant<A>(
    m: Map<u128, A>,
    sender: u128,
    receiver: Option<u128>,
    targets: Seq<A>,
) -> bool {
    let sender_part: int = if m.contains_key(sender) {
        1
    } else {
        0
    };
    let receiver_part: int = if receiver matches Some(r) && m.contains_key(r) {
        1
    } else {
        0
    };
    &&& targets.len() == sender_part + receiver_part
    &&& m.contains_key(sender) ==> targets[0] == m[sender]
    &&& receiver matches Some(r) ==> (m.contains_key(r) ==> targets[targets.len() - 1] == m[r])
}

impl<A> ChatRouter<A> {
    pub fn new() -> (r: Self)
        ensures
            r@ == Map::<u128, A>::empty(),
    {
        ChatRouter { sessions: HashMap::new() }
    }

    /// A user's connection opened; it replaces any earlier one of the user.
    pub fn connect(&mut self, user_id: u128, addr: A)
        ensures
            final(self)@ == old(self)@.insert(user_id, addr),
    {
        self.sessions.insert(user_id, addr);
    }

    /// A user's connection closed.
    pub fn disconnect(&mut self, user_id: u128)
        ensures
            final(self)@ == old(self)@.remove(user_id),
    {
        self.sessions.remove(&user_id);
    }

    /// The connections that a new chat is delivered to.
    pub fn route(&self, chat: &ChatItem) -> (targets: Vec<&A>)
        ensures
            delivers_once_per_participant(
                self@,
                chat.sender_id,
                chat.receiver_id,
                targets@.map_values(|t: &A| *t),
            ),
            targets@.len() == route_targets(self@, chat.sender_id, chat.receiver_id).len(),
            forall|i: int|
                0 <= i < targets@.len() ==> *#[trigger] targets@[i] == route_targets(
                    self@,
                    chat.sender_id,
                    chat.receiver_id,
                )[i],
    {
        let mut targets: Vec<&A> = Vec::new();
        if let Some(addr) = self.sessions.get(&chat.sender_id) {
            targets.push(addr);
        }
        if let Some(receiver_id) = chat.receiver_id {
            if let Some(addr) = self.sessions.get(&receiver_id) {
                targets.push(addr);
            }
        }
        targets
    }
}

/// A message to the router.
pub enum RouterMessage<A> {
    /// A user's connection opened, reachable at `addr`.
    Connect { addr: A, user_id: u128 },
    /// A user's connection closed.
    Disconnect { user_id: u128 },
    /// A new chat is to be delivered.
    RouteChat { chat_item: ChatItem },
}

impl<A> ChatRouter<A> {
    /// Handles a message: registers or removes a connection, or gives the
    /// connections that a new chat is delivered to.
    pub fn handle(&mut self, msg: RouterMessage<A>) -> (targets: Vec<&A>)
        ensures
            match msg {
                RouterMessage::Connect { addr, user_id } => final(self)@ == old(self)@.insert(
                    user_id,
                    addr,
                ) && targets@.len() == 0,
                RouterMessage::Disconnect { user_id } => final(self)@ == old(self)@.remove(user_id)
                    && targets@.len() == 0,
                RouterMessage::RouteChat { chat_item } => final(self)@ == old(self)@
                    && targets@.len() == route_targets(
                    old(self)@,
                    chat_item.sender_id,
                    chat_item.receiver_id,
                ).len() && forall|i: int|
                    0 <= i < targets@.len() ==> *#[trigger] targets@[i] == route_targets(
                        old(self)@,
                        chat_item.sender_id,
                        chat_item.receiver_id,
                    )[i],
            },
    {
        match msg {
            RouterMessage::Connect { addr, user_id } => {
                self.connect(user_id, addr);
                Vec::new()
            },
            RouterMessage::Disconnect { user_id } => {
                self.disconnect(user_id);
                Vec::new()
            },
            RouterMessage::RouteChat { chat_item } => self.route(&chat_item),
        }
    }
}

impl<A> Default for ChatRouter<A> {
    fn default() -> (r: Self)
        ensures
            r@ == Map::<u128, A>::empty(),
    {
        ChatRouter::new()
    }
}

// ---------------------------------------------------------------------------
// A websocket connection
// ---------------------------------------------------------------------------

/// How often the server pings a connection, in nanoseconds.
pub const HEARTBEAT_INTERVAL_NANOS: u64 = 5_000_000_000;

/// How long a connection may stay silent before it is closed, in nanoseconds.
pub const CLIENT_TIMEOUT_NANOS: u64 = 10_000_000_000;

/// The reason a peer gives for closing.
#[derive(Debug, PartialEq, Eq)]
pub struct CloseReason {
    pub code: u16,
    pub description: Option<String>,
}

/// A frame received on a websocket. A text frame arrives parsed: `None` where
/// it is not a valid request.
#[derive(Debug, PartialEq, Eq)]
pub enum WsMessage {
    Ping(Vec<u8>),
    Pong(Vec<u8>),
    Text(Option<WsRequestMessage>),
    Binary(Vec<u8>),
    Close(Option<CloseReason>),
    Continuation,
    Nop,
}

/// What the connection does in answer.
#[derive(Debug, PartialEq, Eq)]
pub enum WsAction {
    /// Run the heartbeat every `interval_nanos`.
    StartHeartbeat { interval_nanos: u64 },
    /// Register this connection with the router for `user_id`.
    Connect { user_id: u128 },
    /// Remove `user_id` from the router.
    Disconnect { user_id: u128 },
    Ping(Vec<u8>),
    Pong(Vec<u8>),
    SendText(String),
    SendBinary(Vec<u8>),
    Close(Option<CloseReason>),
    Stop,
    /// Store and route a text sent by `sender_id`, then report with
    /// `send_chat_finished`.
    SendChat { sender_id: u128, request: SendChatRequest },
}

/// The state of one websocket connection: whose it is, and when (in
/// nanoseconds of a monotonic clock) the client was last heard from.
#[derive(Debug, PartialEq, Eq)]
pub struct WsConnection {
    pub user_id: u128,
    pub hb: u64,
}

/// The payload of the server's pings: the bytes of `PING`.
pub open spec fn ping_payload() -> Seq<u8> {
    seq![80u8, 73u8, 78u8, 71u8]
}

/// The connection has been silent for longer than the timeout at `now`.
pub open spec fn timed_out(hb: u64, now: u64) -> bool {
    now > hb && now - hb > CLIENT_TIMEOUT_NANOS
}

fn ping_bytes() -> (b: Vec<u8>)
    ensures
        b@ == ping_payload(),
{
    let b: Vec<u8> = vec![80u8, 73u8, 78u8, 71u8];
    assert(b@ =~= ping_payload());
    b
}

impl WsConnection {
    pub fn new(user_id: u128, now: u64) -> (c: WsConnection)
        ensures
            c.user_id == user_id,
            c.hb == now,
    {
        WsConnection { user_id, hb: now }
    }

    /// The connection started: run the heartbeat and register with the router.
    pub fn started(&self) -> (actions: Vec<WsAction>)
        ensures
            actions@ == seq![
                WsAction::StartHeartbeat { interval_nanos: HEARTBEAT_INTERVAL_NANOS },
                WsAction::Connect { user_id: self.user_id },
            ],
    {
        let actions = vec![
            WsAction::StartHeartbeat { interval_nanos: HEARTBEAT_INTERVAL_NANOS },
            WsAction::Connect { user_id: self.user_id },
        ];
        assert(actions@ =~= seq![
            WsAction::StartHeartbeat { interval_nanos: HEARTBEAT_INTERVAL_NANOS },
            WsAction::Connect { user_id: self.user_id },
        ]);
        actions
    }

    /// The router answered the registration; a failed one stops the connection.
    pub fn connected(&self, ok: bool) -> (actions: Vec<WsAction>)
        ensures
            ok ==> actions@.len() == 0,
            !ok ==> actions@ == seq![WsAction::Stop],
    {
        let mut actions: Vec<WsAction> = Vec::new();
        if !ok {
            actions.push(WsAction::Stop);
        }
        proof {
            if !ok {
                assert(actions@ =~= seq![WsAction::Stop]);
            }
        }
        actions
    }

    /// The connection is stopping: leave the router.
    pub fn stopping(&self) -> (actions: Vec<WsAction>)
        ensures
            actions@ == seq![WsAction::Disconnect { user_id: self.user_id }],
    {
        let actions = vec![WsAction::Disconnect { user_id: self.user_id }];
        assert(actions@ =~= seq![WsAction::Disconnect { user_id: self.user_id }]);
        actions
    }

    /// A heartbeat at `now`: stop a connection that has been silent for
    /// longer than the timeout, and ping the client in any case.
    pub fn heartbeat(&self, now: u64) -> (actions: Vec<WsAction>)
        ensures
            timed_out(self.hb, now) ==> actions@.len() == 2 && actions@[0] == WsAction::Stop
                && (actions@[1] matches WsAction::Ping(p) && p@ == ping_payload()),
            !timed_out(self.hb, now) ==> actions@.len() == 1 && (actions@[0] matches WsAction::Ping(
                p,
            ) && p@ == ping_payload()),
    {
        let mut actions: Vec<WsAction> = Vec::new();
        let elapsed = if now > self.hb {
            now - self.hb
        } else {
            0
        };
        if elapsed > CLIENT_TIMEOUT_NANOS {
            actions.push(WsAction::Stop);
        }
        actions.push(WsAction::Ping(ping_bytes()));
        actions
    }

    /// A frame arrived at `now`. Pings are answered with a pong of the same
    /// payload, and pings and pongs count as a sign of life; a text that is
    /// not a valid request is answered `Error`; a request to send a text
    /// becomes `SendChat` on behalf of this connection's user; binary frames
    /// are echoed; a close is echoed and stops the connection, and so does a
    /// continuation frame; nothing answers a no-op.
    pub fn handle(&mut self, msg: WsMessage, now: u64) -> (actions: Vec<WsAction>)
        ensures
            final(self).user_id == old(self).user_id,
            match msg {
                WsMessage::Ping(_) | WsMessage::Pong(_) => final(self).hb == now,
                _ => final(self).hb == old(self).hb,
            },
            match msg {
                WsMessage::Ping(payload) => actions@ == seq![WsAction::Pong(payload)],
                WsMessage::Pong(_) => actions@.len() == 0,
                WsMessage::Text(None) => actions@.len() == 1 && (actions@[0] matches WsAction::SendText(
                    t,
                ) && t@ == "Error"@),
                WsMessage::Text(Some(WsRequestMessage::SendChat(request))) => actions@ == seq![
                    WsAction::SendChat { sender_id: old(self).user_id, request },
                ],
                WsMessage::Binary(bytes) => actions@ == seq![WsAction::SendBinary(bytes)],
                WsMessage::Close(reason) => actions@ == seq![WsAction::Close(reason), WsAction::Stop],
                WsMessage::Continuation => actions@ == seq![WsAction::Stop],
                WsMessage::Nop => actions@.len() == 0,
            },
    {
        let mut actions: Vec<WsAction> = Vec::new();
        match msg {
            WsMessage::Ping(payload) => {
                self.hb = now;
                actions.push(WsAction::Pong(payload));
            },
            WsMessage::Pong(_) => {
                self.hb = now;
            },
            WsMessage::Text(None) => {
                actions.push(WsAction::SendText("Error".to_owned()));
            },
            WsMessage::Text(Some(WsRequestMessage::SendChat(request))) => {
                actions.push(WsAction::SendChat { sender_id: self.user_id, request });
            },
            WsMessage::Binary(bytes) => {
                actions.push(WsAction::SendBinary(bytes));
            },
            WsMessage::Close(reason) => {
                actions.push(WsAction::Close(reason));
                actions.push(WsAction::Stop);
            },
            WsMessage::Continuation => {
                actions.push(WsAction::Stop);
            },
            WsMessage::Nop => {},
        }
        actions
    }

    /// Sending a text ended: tell the client `Success` or `Fail`.
    pub fn send_chat_finished(&self, ok: bool) -> (actions: Vec<WsAction>)
        ensures
            actions@.len() == 1,
            actions@[0] matches WsAction::SendText(t) && t@ == (if ok {
                "Success"@
            } else {
                "Fail"@
            }),
    {
        let text = if ok {
            "Success".to_owned()
        } else {
            "Fail".to_owned()
        };
        vec![WsAction::SendText(text)]
    }
}

/// Opening `GET /chat/ws`: a logged-in client gets a connection for its
/// user; any other is refused.
pub fn ws(session: &AuthSession) -> (r: AppResult<u128>)
    ensures
        guard_spec(session@, true) is Err ==> r.0 == Err::<u128, AppError>(AppError::Forbidden),
        guard_spec(session@, true) is Ok ==> r.0 == Ok::<u128, AppError>(session@.user.unwrap()),
{
    let guard = guard_auth(session, true);
    if let Err(e) = guard.0 {
        return AppResult::err(e);
    }
    match get_userid(session) {
        Some(id) => AppResult::ok(id),
        None => AppResult::err(AppError::Forbidden),
    }
}

// ---------------------------------------------------------------------------
// Laws of routing and of the connection
// ---------------------------------------------------------------------------

/// A chat reaches no connection but those of its sender and its receiver.
pub proof fn lemma_route_only_to_participants<A>(m: Map<u128, A>, sender: u128, receiver: Option<u128>, i: int)
    requires
        0 <= i < route_targets(m, sender, receiver).len(),
    ensures
        (m.contains_key(sender) && route_targets(m, sender, receiver)[i] == m[sender]) || (
        receiver matches Some(r) && m.contains_key(r) && route_targets(m, sender, receiver)[i]
            == m[r]),
{
}

/// A connected sender and a connected receiver each get the chat: the
/// sender's connection first, the receiver's next.
pub proof fn lemma_route_reaches_connected_participants<A>(m: Map<u128, A>, sender: u128, receiver: u128)
    requires
        m.contains_key(sender),
        m.contains_key(receiver),
    ensures
        route_targets(m, sender, Some(receiver)) == seq![m[sender], m[receiver]],
{
    assert(route_targets(m, sender, Some(receiver)) =~= seq![m[sender], m[receiver]]);
}

/// The connection that a user registered last is the one that gets the
/// user's chats.
pub proof fn lemma_connect_then_route<A>(m: Map<u128, A>, user: u128, addr: A, receiver: Option<u128>)
    ensures
        route_targets(m.insert(user, addr), user, receiver).len() >= 1,
        route_targets(m.insert(user, addr), user, receiver)[0] == addr,
{
}

/// A connection that opens and closes again leaves the router as it was,
/// where the user had no connection before; closing a user's connection
/// leaves every other user's as it was.
pub proof fn lemma_connect_then_disconnect<A>(m: Map<u128, A>, user: u128, addr: A, other: u128)
    requires
        other != user,
    ensures
        !m.contains_key(user) ==> m.insert(user, addr).remove(user) == m,
        m.remove(user).contains_key(other) == m.contains_key(other),
        m.contains_key(other) ==> m.remove(user)[other] == m[other],
{
    if !m.contains_key(user) {
        assert(m.insert(user, addr).remove(user) =~= m);
    }
}

/// After a user's connection closed, no chat reaches the user: a chat from
/// the gone user reaches the receiver's connection alone, where there is one.
pub proof fn lemma_disconnect_then_route<A>(m: Map<u128, A>, user: u128, receiver: u128)
    requires
        receiver != user,
    ensures
        route_targets(m.remove(user), user, None).len() == 0,
        route_targets(m.remove(user), user, Some(user)).len() == 0,
        m.contains_key(receiver) ==> route_targets(m.remove(user), user, Some(receiver)) == seq![
            m[receiver],
        ],
        !m.contains_key(receiver) ==> route_targets(m.remove(user), user, Some(receiver)).len()
            == 0,
{
    if m.contains_key(receiver) {
        assert(route_targets(m.remove(user), user, Some(receiver)) =~= seq![m[receiver]]);
    }
}

/// A text that a user sends and that was stored is delivered to the
/// connections of its sender and of the receiver it names, and nowhere else.
pub proof fn lemma_sent_chat_is_routed<A>(m: Map<u128, A>, sender_id: u128, request: SendChatRequest, id: u128, created_at: i64)
    ensures
        ({
            let item = sent_chat(sender_id, request, id, created_at);
            route_targets(m, item.sender_id, item.receiver_id) == route_targets(
                m,
                sender_id,
                Some(request.receiver_id),
            )
        }),
{
}

/// A client that was heard from (a ping or a pong at `t`) is not stopped by
/// a heartbeat within the timeout, and is stopped by the first heartbeat
/// after it.
pub proof fn lemma_heartbeat_timeout(t: u64, now: u64)
    requires
        t <= now,
    ensures
        now - t <= CLIENT_TIMEOUT_NANOS ==> !timed_out(t, now),
        now - t > CLIENT_TIMEOUT_NANOS ==> timed_out(t, now),
{
}

/// Every chat built from a complete row carries that row's fields in place:
/// the keys are not swapped, nor the parties, nor the content.
pub proof fn lemma_item_of_row_carries_row(row: ChatRow)
    requires
        row_complete(row),
    ensures
        carries_row(item_of_row(row), row),
        item_of_row(row).sender_key == row.sender_key,
        item_of_row(row).receiver_key == row.receiver_key,
{
}

/// The partner of a row is the other user that the row names, and the last
/// chat carries the row's chat in place.
pub proof fn lemma_partner_of_row(row: PartnerRow)
    requires
        partner_row_complete(row),
    ensures
        partner_of_row(row).id == row.other_user_id.unwrap(),
        carries_row(partner_of_row(row).last_chat, row.chat),
{
}

/// The chat routed for a stored text carries the request in place: the
/// sender's key as the sender's, the receiver's key as the receiver's, and
/// the cipher as its text.
pub proof fn lemma_sent_chat_carries_request(sender_id: u128, request: SendChatRequest, id: u128, created_at: i64)
    ensures
        sent_chat(sender_id, request, id, created_at).sender_key == request.sender_key,
        sent_chat(sender_id, request, id, created_at).receiver_key == request.receiver_key,
        sent_chat(sender_id, request, id, created_at).content == (ChatContent::Text {
            cipher: request.message_cipher,
        }),
        sent_chat(sender_id, request, id, created_at).sender_id == sender_id,
        sent_chat(sender_id, request, id, created_at).receiver_id == Some(request.receiver_id),
        sent_chat(sender_id, request, id, created_at).id == id,
        sent_chat(sender_id, request, id, created_at).created_at == created_at,
{
}

/// The sender's connection alone, where the sender is connected.
pub open spec fn sender_only<A>(m: Map<u128, A>, sender: u128) -> Seq<A> {
    if m.contains_key(sender) {
        seq![m[sender]]
    } else {
        Seq::empty()
    }
}

/// Each participant's connection gets a chat once: the targets hold one entry
/// per connected participant, the sender's first. In particular a chat to a
/// receiver who is not connected reaches the sender's connection once, or
/// nothing.
pub proof fn lemma_route_once_per_participant<A>(m: Map<u128, A>, sender: u128, receiver: Option<u128>)
    ensures
        delivers_once_per_participant(m, sender, receiver, route_targets(m, sender, receiver)),
        (receiver matches Some(r) && !m.contains_key(r)) ==> route_targets(m, sender, receiver)
            == sender_only(m, sender),
        receiver is None ==> route_targets(m, sender, receiver) == sender_only(m, sender),
{
    let t = route_targets(m, sender, receiver);
    if receiver matches Some(r) && !m.contains_key(r) {
        if m.contains_key(sender) {
            assert(t =~= seq![m[sender]]);
        } else {
            assert(t =~= Seq::<A>::empty());
        }
    }
    if receiver is None {
        if m.contains_key(sender) {
            assert(t =~= seq![m[sender]]);
        } else {
            assert(t =~= Seq::<A>::empty());
        }
    }
}

} // verus!
