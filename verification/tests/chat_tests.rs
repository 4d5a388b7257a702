use server::auth::AuthSession;
use server::chat::{
    chat_item_from_row, get, get_partners, partner_rows_are_complete, rows_are_complete,
    new_text_conversation, send_chat, ws, NewTextConversation, RouterMessage, ChatContent, ChatItem, ChatPartnerItem, ChatRouter, ChatRow,
    ConversationType, FileChatType, PartnerRow, SendChatRequest, WsAction, WsConnection,
    WsMessage, WsRequestMessage, CloseReason, CLIENT_TIMEOUT_NANOS, HEARTBEAT_INTERVAL_NANOS,
};
use server::common::{ActionResult, AppError};

fn text_row(id: u128, sender: u128, receiver: u128) -> ChatRow {
    ChatRow {
        id,
        created_at: 1_700_000_000_000_000,
        sender_id: sender,
        receiver_id: Some(receiver),
        sender_key: vec![1],
        receiver_key: vec![2],
        content_type: ConversationType::Text,
        cipher: Some(vec![0xaa, 0xbb]),
        filename: None,
        mime_type: None,
        size: None,
        path: None,
    }
}

fn image_row(id: u128) -> ChatRow {
    ChatRow {
        id,
        created_at: 5,
        sender_id: 1,
        receiver_id: None,
        sender_key: vec![],
        receiver_key: vec![],
        content_type: ConversationType::Image,
        cipher: None,
        filename: Some("cat.png".to_string()),
        mime_type: Some("image/png".to_string()),
        size: Some(1234),
        path: Some("uploads/cat.png".to_string()),
    }
}

fn logged_in(id: u128) -> AuthSession {
    AuthSession { user: Some(id), srp: None }
}

#[test]
fn rows_become_chats_by_kind() {
    let item = chat_item_from_row(text_row(3, 1, 2));
    assert_eq!(item.content, ChatContent::Text { cipher: vec![0xaa, 0xbb] });
    assert_eq!(item.receiver_id, Some(2));
    let item = chat_item_from_row(image_row(4));
    assert_eq!(
        item.content,
        ChatContent::File {
            file_type: FileChatType::Image,
            filename: "cat.png".to_string(),
            mime_type: "image/png".to_string(),
            size: 1234,
            path: "uploads/cat.png".to_string(),
        }
    );
    let mut file = image_row(5);
    file.content_type = ConversationType::File;
    match chat_item_from_row(file).content {
        ChatContent::File { file_type, .. } => assert_eq!(file_type, FileChatType::File),
        _ => panic!("a file row gives a file chat"),
    }
}

#[test]
fn incomplete_rows_are_detected() {
    let mut broken = text_row(1, 1, 2);
    broken.cipher = None;
    assert!(!broken.is_complete());
    let mut file = image_row(2);
    file.path = None;
    assert!(!file.is_complete());
    assert!(rows_are_complete(&vec![text_row(1, 1, 2), image_row(2)]));
    assert!(!rows_are_complete(&vec![text_row(1, 1, 2), file]));
    let partner = PartnerRow { other_user_id: None, chat: text_row(1, 1, 2) };
    assert!(!partner_rows_are_complete(&vec![partner]));
}

#[test]
fn history_needs_login_and_keeps_order() {
    let rows = vec![text_row(1, 7, 8), image_row(2), text_row(3, 8, 7)];
    let items = get(&logged_in(7), Some(rows)).0.unwrap();
    assert_eq!(items.iter().map(|i| i.id).collect::<Vec<_>>(), vec![1, 2, 3]);
    assert_eq!(get(&logged_in(7), None).0, Err(AppError::Internal));
    assert_eq!(get(&AuthSession::new(), Some(vec![])).0, Err(AppError::Forbidden));
}

#[test]
fn partners_carry_the_other_user() {
    let rows = vec![PartnerRow { other_user_id: Some(8), chat: text_row(1, 7, 8) }];
    let items = get_partners(&logged_in(7), Some(rows)).0.unwrap();
    assert_eq!(items.len(), 1);
    assert_eq!(items[0].id, 8);
    assert_eq!(items[0].last_chat.id, 1);
    assert_eq!(get_partners(&logged_in(7), None).0, Err(AppError::Internal));
    let none: Vec<ChatPartnerItem> = get_partners(&logged_in(7), Some(vec![])).0.unwrap();
    assert!(none.is_empty());
    assert_eq!(get_partners(&AuthSession::new(), None).0, Err(AppError::Forbidden));
}

fn request(receiver: u128) -> SendChatRequest {
    SendChatRequest { receiver_id: receiver, sender_key: vec![1], receiver_key: vec![2], message_cipher: vec![3] }
}

#[test]
fn stored_text_is_answered_and_routed() {
    let (answer, item) = send_chat(10, request(20), Some((99, 1234)));
    assert_eq!(answer.0, Ok(ActionResult { success: true }));
    assert_eq!(
        item,
        Some(ChatItem {
            id: 99,
            created_at: 1234,
            sender_id: 10,
            receiver_id: Some(20),
            sender_key: vec![1],
            receiver_key: vec![2],
            content: ChatContent::Text { cipher: vec![3] },
        })
    );
    let (answer, item) = send_chat(10, request(20), None);
    assert_eq!(answer.0, Err(AppError::Internal));
    assert!(item.is_none());
}

#[test]
fn router_delivers_to_sender_and_receiver_only() {
    let mut router: ChatRouter<&'static str> = ChatRouter::default();
    router.connect(10, "conn-10");
    router.connect(20, "conn-20");
    router.connect(30, "conn-30");
    let (_, item) = send_chat(10, request(20), Some((1, 1)));
    let targets = router.route(&item.unwrap());
    assert_eq!(targets, vec![&"conn-10", &"conn-20"]);

    router.disconnect(10);
    let (_, item) = send_chat(10, request(20), Some((2, 2)));
    assert_eq!(router.route(&item.unwrap()), vec![&"conn-20"]);

    router.connect(20, "conn-20b");
    let (_, item) = send_chat(30, request(20), Some((3, 3)));
    assert_eq!(router.route(&item.unwrap()), vec![&"conn-30", &"conn-20b"]);

    let (_, item) = send_chat(40, request(50), Some((4, 4)));
    assert!(router.route(&item.unwrap()).is_empty());
}

#[test]
fn chat_to_oneself_is_delivered_twice() {
    let mut router: ChatRouter<u8> = ChatRouter::new();
    router.connect(10, 1);
    let (_, item) = send_chat(10, request(10), Some((1, 1)));
    assert_eq!(router.route(&item.unwrap()), vec![&1, &1]);
}

#[test]
fn connection_lifecycle() {
    let conn = WsConnection::new(10, 0);
    assert_eq!(
        conn.started(),
        vec![
            WsAction::StartHeartbeat { interval_nanos: HEARTBEAT_INTERVAL_NANOS },
            WsAction::Connect { user_id: 10 }
        ]
    );
    assert!(conn.connected(true).is_empty());
    assert_eq!(conn.connected(false), vec![WsAction::Stop]);
    assert_eq!(conn.stopping(), vec![WsAction::Disconnect { user_id: 10 }]);
    assert_eq!(HEARTBEAT_INTERVAL_NANOS, 5_000_000_000);
    assert_eq!(CLIENT_TIMEOUT_NANOS, 10_000_000_000);
}

#[test]
fn heartbeat_stops_silent_clients() {
    let mut conn = WsConnection::new(10, 1_000);
    let ping = WsAction::Ping(b"PING".to_vec());
    assert_eq!(conn.heartbeat(1_000 + CLIENT_TIMEOUT_NANOS), vec![ping.clone_for_test()]);
    assert_eq!(conn.heartbeat(1_001 + CLIENT_TIMEOUT_NANOS), vec![WsAction::Stop, ping.clone_for_test()]);
    assert_eq!(conn.heartbeat(0), vec![ping.clone_for_test()]);
    conn.handle(WsMessage::Pong(vec![]), 50_000_000_000);
    assert_eq!(conn.heartbeat(55_000_000_000), vec![ping.clone_for_test()]);
    conn.handle(WsMessage::Ping(vec![1]), 70_000_000_000);
    assert_eq!(conn.hb, 70_000_000_000);
    conn.handle(WsMessage::Binary(vec![1]), 90_000_000_000);
    assert_eq!(conn.hb, 70_000_000_000);
}

trait CloneForTest {
    fn clone_for_test(&self) -> Self;
}

impl CloneForTest for WsAction {
    fn clone_for_test(&self) -> Self {
        match self {
            WsAction::Ping(p) => WsAction::Ping(p.clone()),
            _ => panic!("only pings are cloned here"),
        }
    }
}

#[test]
fn frames_are_answered() {
    let mut conn = WsConnection::new(10, 0);
    assert_eq!(conn.handle(WsMessage::Ping(b"hi".to_vec()), 1), vec![WsAction::Pong(b"hi".to_vec())]);
    assert!(conn.handle(WsMessage::Pong(vec![]), 2).is_empty());
    assert_eq!(conn.handle(WsMessage::Text(None), 3), vec![WsAction::SendText("Error".to_string())]);
    assert_eq!(
        conn.handle(WsMessage::Text(Some(WsRequestMessage::SendChat(request(20)))), 4),
        vec![WsAction::SendChat { sender_id: 10, request: request(20) }]
    );
    assert_eq!(conn.handle(WsMessage::Binary(vec![5, 6]), 5), vec![WsAction::SendBinary(vec![5, 6])]);
    let reason = CloseReason { code: 1000, description: Some("bye".to_string()) };
    assert_eq!(
        conn.handle(WsMessage::Close(Some(reason)), 6),
        vec![
            WsAction::Close(Some(CloseReason { code: 1000, description: Some("bye".to_string()) })),
            WsAction::Stop
        ]
    );
    assert_eq!(conn.handle(WsMessage::Continuation, 7), vec![WsAction::Stop]);
    assert!(conn.handle(WsMessage::Nop, 8).is_empty());
    assert_eq!(conn.user_id, 10);
    assert_eq!(conn.send_chat_finished(true), vec![WsAction::SendText("Success".to_string())]);
    assert_eq!(conn.send_chat_finished(false), vec![WsAction::SendText("Fail".to_string())]);
}

#[test]
fn websocket_needs_login() {
    assert_eq!(ws(&logged_in(12)).0, Ok(12));
    assert_eq!(ws(&AuthSession::new()).0, Err(AppError::Forbidden));
}

#[test]
fn router_handles_messages() {
    let mut router: ChatRouter<u8> = ChatRouter::new();
    assert!(router.handle(RouterMessage::Connect { addr: 1, user_id: 10 }).is_empty());
    assert!(router.handle(RouterMessage::Connect { addr: 2, user_id: 20 }).is_empty());
    let (_, item) = send_chat(10, request(20), Some((1, 1)));
    assert_eq!(router.handle(RouterMessage::RouteChat { chat_item: item.unwrap() }), vec![&1, &2]);
    assert!(router.handle(RouterMessage::Disconnect { user_id: 20 }).is_empty());
    let (_, item) = send_chat(10, request(20), Some((2, 2)));
    assert_eq!(router.handle(RouterMessage::RouteChat { chat_item: item.unwrap() }), vec![&1]);
    // Connecting and disconnecting a new user leaves the routes as they were.
    router.handle(RouterMessage::Connect { addr: 3, user_id: 30 });
    router.handle(RouterMessage::Disconnect { user_id: 30 });
    let (_, item) = send_chat(30, request(10), Some((3, 3)));
    assert_eq!(router.handle(RouterMessage::RouteChat { chat_item: item.unwrap() }), vec![&1]);
}

#[test]
fn stored_text_row_values() {
    let row = new_text_conversation(10, &request(20));
    assert_eq!(
        row,
        NewTextConversation {
            sender_id: 10,
            receiver_id: 20,
            sender_key: vec![1],
            receiver_key: vec![2],
            content_type: ConversationType::Text,
            cipher: vec![3],
        }
    );
}
