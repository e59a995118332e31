//! Notifications for the user interface: console lines and toasts.

use vstd::prelude::*;

verus! {

/// Name of the channel that carries console notifications.
pub const CONSOLE_OUTPUT: &'static str = "console-output";

/// Name of the channel that carries toast notifications.
pub const TOAST_OUTPUT: &'static str = "toast-output";

/// Where a notification is shown.
#[derive(Clone, Copy, Debug, PartialEq, Eq, Structural)]
pub enum MessageContainer {
    Console,
    Toast,
}

/// How serious a notification is.
#[derive(Clone, Copy, Debug, PartialEq, Eq, Structural)]
pub enum MessageType {
    Success,
    Warn,
    Info,
    Error,
}

/// What the receiver does besides showing the content.
#[derive(Clone, Copy, Debug, PartialEq, Eq, Structural)]
pub enum MessageAction {
    /// Only show the content.
    NoAction,
    /// Drop what is shown so far.
    Clear,
}

impl Default for MessageAction {
    fn default() -> (action: MessageAction)
        ensures
            action == MessageAction::NoAction,
    {
        MessageAction::NoAction
    }
}

impl MessageContainer {
    /// The channel on which notifications for this container travel.
    pub open spec fn channel_name(self) -> &'static str {
        match self {
            MessageContainer::Console => CONSOLE_OUTPUT,
            MessageContainer::Toast => TOAST_OUTPUT,
        }
    }

    pub fn channel(&self) -> (name: &'static str)
        ensures
            name == self.channel_name(),
    {
        match self {
            MessageContainer::Console => CONSOLE_OUTPUT,
            MessageContainer::Toast => TOAST_OUTPUT,
        }
    }
}

/// One notification: where it goes, how serious it is, what the receiver
/// does with it, and an optional payload.
#[derive(Clone, Copy, Debug, PartialEq, Eq)]
pub struct Message<T> {
    pub container: MessageContainer,
    pub ty: MessageType,
    pub action: MessageAction,
    pub content: Option<T>,
}

impl<T> Message<T> {
    pub fn new(
        container: MessageContainer,
        ty: MessageType,
        action: MessageAction,
        content: Option<T>,
    ) -> (m: Self)
        ensures
            m == (Message { container, ty, action, content }),
    {
        Self { container, ty, action, content }
    }

    /// A console notification without an action.
    pub fn new_console(ty: MessageType, content: Option<T>) -> (m: Self)
        ensures
            m == (Message {
                container: MessageContainer::Console,
                ty,
                action: MessageAction::NoAction,
                content,
            }),
    {
        Self::new(MessageContainer::Console, ty, MessageAction::NoAction, content)
    }

    /// A toast notification without an action.
    pub fn new_toast(ty: MessageType, content: Option<T>) -> (m: Self)
        ensures
            m == (Message {
                container: MessageContainer::Toast,
                ty,
                action: MessageAction::NoAction,
                content,
            }),
    {
        Self::new(MessageContainer::Toast, ty, MessageAction::NoAction, content)
    }

    /// Tells the console to drop what it shows.
    pub fn console_clear(content: Option<T>) -> (m: Self)
        ensures
            m == (Message {
                container: MessageContainer::Console,
                ty: MessageType::Info,
                action: MessageAction::Clear,
                content,
            }),
    {
        Self::new(MessageContainer::Console, MessageType::Info, MessageAction::Clear, content)
    }

    pub fn console_success(content: Option<T>) -> (m: Self)
        ensures
            m == (Message {
                container: MessageContainer::Console,
                ty: MessageType::Success,
                action: MessageAction::NoAction,
                content,
            }),
    {
        Self::new_console(MessageType::Success, content)
    }

    pub fn console_warn(content: Option<T>) -> (m: Self)
        ensures
            m == (Message {
                container: MessageContainer::Console,
                ty: MessageType::Warn,
                action: MessageAction::NoAction,
                content,
            }),
    {
        Self::new_console(MessageType::Warn, content)
    }

    pub fn console_info(content: Option<T>) -> (m: Self)
        ensures
            m == (Message {
                container: MessageContainer::Console,
                ty: MessageType::Info,
                action: MessageAction::NoAction,
                content,
            }),
    {
        Self::new_console(MessageType::Info, content)
    }

    pub fn console_error(content: Option<T>) -> (m: Self)
        ensures
            m == (Message {
                container: MessageContainer::Console,
                ty: MessageType::Error,
                action: MessageAction::NoAction,
                content,
            }),
    {
        Self::new_console(MessageType::Error, content)
    }

    pub fn toast_success(content: Option<T>) -> (m: Self)
        ensures
            m == (Message {
                container: MessageContainer::Toast,
                ty: MessageType::Success,
                action: MessageAction::NoAction,
                content,
            }),
    {
        Self::new_toast(MessageType::Success, content)
    }

    pub fn toast_warn(content: Option<T>) -> (m: Self)
        ensures
            m == (Message {
                container: MessageContainer::Toast,
                ty: MessageType::Warn,
                action: MessageAction::NoAction,
                content,
            }),
    {
        Self::new_toast(MessageType::Warn, content)
    }

    pub fn toast_info(content: Option<T>) -> (m: Self)
        ensures
            m == (Message {
                container: MessageContainer::Toast,
                ty: MessageType::Info,
                action: MessageAction::NoAction,
                content,
            }),
    {
        Self::new_toast(MessageType::Info, content)
    }

    pub fn toast_error(content: Option<T>) -> (m: Self)
        ensures
            m == (Message {
                container: MessageContainer::Toast,
                ty: MessageType::Error,
                action: MessageAction::NoAction,
                content,
            }),
    {
        Self::new_toast(MessageType::Error, content)
    }
}

} // verus!
