use script_supervisor::message::{
    Message, MessageAction, MessageContainer, MessageType, CONSOLE_OUTPUT, TOAST_OUTPUT,
};

#[test]
fn channel_names_are_fixed() {
    assert_eq!(CONSOLE_OUTPUT, "console-output");
    assert_eq!(TOAST_OUTPUT, "toast-output");
    assert_eq!(MessageContainer::Console.channel(), "console-output");
    assert_eq!(MessageContainer::Toast.channel(), "toast-output");
}

#[test]
fn default_action_is_no_action() {
    assert_eq!(MessageAction::default(), MessageAction::NoAction);
}

#[test]
fn new_keeps_every_field() {
    let m = Message::new(
        MessageContainer::Toast,
        MessageType::Error,
        MessageAction::Clear,
        Some(7u32),
    );
    assert_eq!(m.container, MessageContainer::Toast);
    assert_eq!(m.ty, MessageType::Error);
    assert_eq!(m.action, MessageAction::Clear);
    assert_eq!(m.content, Some(7u32));
}

#[test]
fn new_console_goes_to_console_without_action() {
    let m = Message::new_console(MessageType::Warn, Some("w"));
    assert_eq!(
        m,
        Message {
            container: MessageContainer::Console,
            ty: MessageType::Warn,
            action: MessageAction::NoAction,
            content: Some("w"),
        }
    );
}

#[test]
fn new_toast_goes_to_toast_without_action() {
    let m = Message::new_toast(MessageType::Info, Some("i"));
    assert_eq!(
        m,
        Message {
            container: MessageContainer::Toast,
            ty: MessageType::Info,
            action: MessageAction::NoAction,
            content: Some("i"),
        }
    );
}

#[test]
fn console_clear_is_an_info_with_clear_action() {
    let m = Message::console_clear(None::<String>);
    assert_eq!(m.container, MessageContainer::Console);
    assert_eq!(m.ty, MessageType::Info);
    assert_eq!(m.action, MessageAction::Clear);
    assert_eq!(m.content, None);
    let with_text = Message::console_clear(Some(String::from("bye")));
    assert_eq!(with_text.action, MessageAction::Clear);
    assert_eq!(with_text.content, Some(String::from("bye")));
}

#[test]
fn console_builders_set_their_severity() {
    let s = Message::console_success(Some(1u8));
    let w = Message::console_warn(Some(2u8));
    let i = Message::console_info(Some(3u8));
    let e = Message::console_error(Some(4u8));
    assert_eq!(s.ty, MessageType::Success);
    assert_eq!(w.ty, MessageType::Warn);
    assert_eq!(i.ty, MessageType::Info);
    assert_eq!(e.ty, MessageType::Error);
    for (m, n) in [(s, 1u8), (w, 2u8), (i, 3u8), (e, 4u8)] {
        assert_eq!(m.container, MessageContainer::Console);
        assert_eq!(m.action, MessageAction::NoAction);
        assert_eq!(m.content, Some(n));
    }
}

#[test]
fn toast_builders_set_their_severity() {
    let s = Message::toast_success(Some(1u8));
    let w = Message::toast_warn(Some(2u8));
    let i = Message::toast_info(Some(3u8));
    let e = Message::toast_error(Some(4u8));
    assert_eq!(s.ty, MessageType::Success);
    assert_eq!(w.ty, MessageType::Warn);
    assert_eq!(i.ty, MessageType::Info);
    assert_eq!(e.ty, MessageType::Error);
    for (m, n) in [(s, 1u8), (w, 2u8), (i, 3u8), (e, 4u8)] {
        assert_eq!(m.container, MessageContainer::Toast);
        assert_eq!(m.action, MessageAction::NoAction);
        assert_eq!(m.content, Some(n));
    }
}

#[test]
fn builders_accept_an_absent_payload() {
    let m = Message::toast_info(None::<String>);
    assert_eq!(m.content, None);
    assert_eq!(m.container.channel(), "toast-output");
}

#[test]
fn messages_are_copied_with_their_payload() {
    let m = Message::console_info(Some(5u64));
    let n = m;
    assert_eq!(m, n);
}
