//! Quest notifications.
//!
//! A [`notifier::QuestNotifier`] turns a message into one labelled line of
//! text, `"<label>: <message>"`. Two notifiers are provided,
//! [`notifier::MailBox`] and [`notifier::ChatBox`]. A
//! [`manager::QuestManager`] forwards a message to whichever notifier it is
//! handed, and [`program::run`] plays the one fixed scenario: a mail notice
//! followed by a chat notice.
//!
//! Nothing here writes anywhere. Every delivery hands its line back to the
//! caller, who decides where it goes.
pub mod manager;
pub mod notifier;
pub mod program;
