//! The one fixed scenario: a mail notice, then a chat notice.
use vstd::prelude::*;
use crate::manager::QuestManager;
use crate::notifier::{ChatBox, MailBox};

verus! {

/// Plays the scenario: a manager delivers `You've got mail!` through the mail
/// notifier, then `You've got a message!` through the chat notifier.
///
/// The lines come back in the order they were delivered, and there are
/// exactly two of them.
pub fn run() -> (lines: Vec<String>)
    ensures
        lines@.len() == 2,
        lines@[0]@ == "MailBox: You've got mail!"@,
        lines@[1]@ == "ChatBox: You've got a message!"@,
{
    let quest_manager = QuestManager;
    let mail_box = MailBox;
    let chat_box = ChatBox;

    let mut lines: Vec<String> = Vec::new();
    lines.push(quest_manager.notify(mail_box, "You've got mail!"));
    lines.push(quest_manager.notify(chat_box, "You've got a message!"));
    proof {
        reveal_strlit("MailBox: ");
        reveal_strlit("You've got mail!");
        reveal_strlit("MailBox: You've got mail!");
        reveal_strlit("ChatBox: ");
        reveal_strlit("You've got a message!");
        reveal_strlit("ChatBox: You've got a message!");
    }
    lines
}

} // verus!
