//! Notifiers: each delivers a text message as one labelled line.
use vstd::prelude::*;

verus! {

/// The line delivered for `message` under `label`: the label, a colon, a
/// space, then the message exactly as given.
pub open spec fn labelled(label: Seq<char>, message: Seq<char>) -> Seq<char> {
    label + ": "@ + message
}

/// Builds the line `"<label>: <message>"`.
pub fn label_message(label: &str, message: &str) -> (line: String)
    ensures
        line@ == labelled(label@, message@),
{
    let mut line = String::from_str(label);
    line.append(": ");
    line.append(message);
    line
}

/// A notifier delivers a text message as a single line that opens with the
/// notifier's own label.
///
/// Delivery never fails and depends on nothing but the notifier and the
/// message: the line is a function of the two.
pub trait QuestNotifier {
    /// The label that opens every line this notifier delivers.
    spec fn label(&self) -> Seq<char>;

    /// Delivers `message`, handing back the line `"<label>: <message>"`.
    fn notify(&self, message: &str) -> (line: String)
        ensures
            line@ == labelled(self.label(), message@),
    ;
}

/// Delivery is repeatable: asked twice to deliver the same message, a
/// notifier hands back the same line both times. Nothing carries over from
/// one delivery to the next.
pub proof fn lemma_notify_is_repeatable<T: QuestNotifier>(
    notifier: T,
    message: &str,
    first: String,
    second: String,
)
    requires
        call_ensures(T::notify, (&notifier, message), first),
        call_ensures(T::notify, (&notifier, message), second),
    ensures
        first@ == second@,
{
}

/// Every delivered line opens with the label and closes with the message,
/// with two characters between them.
pub proof fn lemma_labelled_shape(label: Seq<char>, message: Seq<char>)
    ensures
        labelled(label, message).len() == label.len() + 2 + message.len(),
        label.is_prefix_of(labelled(label, message)),
        message.is_suffix_of(labelled(label, message)),
{
    reveal_strlit(": ");
}

/// The mail notifier. Its label is `MailBox`.
pub struct MailBox;

impl QuestNotifier for MailBox {
    open spec fn label(&self) -> Seq<char> {
        "MailBox"@
    }

    /// Delivers `message` as `"MailBox: <message>"`.
    fn notify(&self, message: &str) -> (line: String)
        ensures
            line@ == "MailBox: "@ + message@,
    {
        proof {
            reveal_strlit("MailBox");
            reveal_strlit(": ");
            reveal_strlit("MailBox: ");
            assert("MailBox"@ + ": "@ =~= "MailBox: "@);
        }
        label_message("MailBox", message)
    }
}

/// The chat notifier. Its label is `ChatBox`.
pub struct ChatBox;

impl QuestNotifier for ChatBox {
    open spec fn label(&self) -> Seq<char> {
        "ChatBox"@
    }

    /// Delivers `message` as `"ChatBox: <message>"`.
    fn notify(&self, message: &str) -> (line: String)
        ensures
            line@ == "ChatBox: "@ + message@,
    {
        proof {
            reveal_strlit("ChatBox");
            reveal_strlit(": ");
            reveal_strlit("ChatBox: ");
            assert("ChatBox"@ + ": "@ =~= "ChatBox: "@);
        }
        label_message("ChatBox", message)
    }
}

} // verus!
