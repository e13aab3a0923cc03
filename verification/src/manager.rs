//! The manager: forwards a message to a notifier.
use vstd::prelude::*;
use crate::notifier::{labelled, QuestNotifier};

verus! {

/// Forwards messages to notifiers. It holds no data and adds nothing of its
/// own to a delivery.
pub struct QuestManager;

impl QuestManager {
    /// Delivers `message` through `notifier` and hands back the notifier's
    /// line unchanged: the line is `"<label>: <message>"` under the
    /// notifier's label, and it is a line that `notifier.notify(message)`
    /// hands back when called directly.
    pub fn notify<T: QuestNotifier>(&self, notifier: T, message: &str) -> (line: String)
        ensures
            line@ == labelled(notifier.label(), message@),
            call_ensures(T::notify, (&notifier, message), line),
    {
        notifier.notify(message)
    }
}

/// Delegation is transparent: for the same notifier and message, every line
/// the manager can hand back equals every line the notifier can deliver
/// itself.
pub proof fn lemma_manager_is_transparent<T: QuestNotifier>(
    manager: QuestManager,
    notifier: T,
    message: &str,
    through_manager: String,
    direct: String,
)
    requires
        call_ensures(QuestManager::notify::<T>, (&manager, notifier, message), through_manager),
        call_ensures(T::notify, (&notifier, message), direct),
    ensures
        through_manager@ == direct@,
{
}

} // verus!
