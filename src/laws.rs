use vstd::prelude::*;
use crate::config::{StoredValue, stored_notifications, stored_server};
use crate::probe::{TransportKind, reason_text};
use crate::session::{
    Command, Visibility, close_commands, configure_commands, show_commands, notification_commands, notifications_value_after,
    server_value_after, toggle_commands, toggled,
};

verus! {

/// A server that answered its probe is what the store holds afterwards: reading
/// the server key gives the text as it was entered. The window is sent to the
/// new address once, by the last command.
pub proof fn configured_server_is_stored(
    prior: Option<StoredValue>,
    cs: Seq<Command>,
    candidate: Seq<char>,
    address: Seq<char>,
)
    requires
        configure_commands(cs, candidate, address),
    ensures
        stored_server(server_value_after(prior, cs)) matches Some(u) && u@ == candidate,
        forall|i: int| 0 <= i < cs.len() && (#[trigger] cs[i] is Navigate) ==> i == cs.len() - 1,
{
    let c1 = cs.drop_last();
    let c2 = c1.drop_last();
    assert(cs.last() == cs[2]);
    assert(c1.last() == cs[1]);
    assert(c2.last() == cs[0]);
    assert(server_value_after(prior, cs) == server_value_after(prior, c1));
    assert(server_value_after(prior, c1) == server_value_after(prior, c2));
}

/// Each kind of transport failure that the probe tells apart has its own reason:
/// an unknown host, a refused connection and any other fault read differently.
pub proof fn failure_reasons_differ()
    ensures
        reason_text(TransportKind::Dns) != reason_text(TransportKind::ConnectionFailed),
        reason_text(TransportKind::Dns) != reason_text(TransportKind::Io),
        reason_text(TransportKind::Dns) != reason_text(TransportKind::Other),
        reason_text(TransportKind::ConnectionFailed) != reason_text(TransportKind::Io),
        reason_text(TransportKind::ConnectionFailed) != reason_text(TransportKind::Other),
        reason_text(TransportKind::Io) != reason_text(TransportKind::Other),
{
    reveal_strlit("Server not found — check the address");
    reveal_strlit("Could not connect to server");
    reveal_strlit("Connection error");
    reveal_strlit("Server unreachable");
    assert(reason_text(TransportKind::Dns)[0] != reason_text(TransportKind::ConnectionFailed)[0]);
    assert(reason_text(TransportKind::Dns).len() != reason_text(TransportKind::Io).len());
    assert(reason_text(TransportKind::Dns).len() != reason_text(TransportKind::Other).len());
    assert(reason_text(TransportKind::ConnectionFailed).len() != reason_text(TransportKind::Io).len());
    assert(reason_text(TransportKind::ConnectionFailed)[0] != reason_text(TransportKind::Other)[0]);
    assert(reason_text(TransportKind::Io)[0] != reason_text(TransportKind::Other)[0]);
}

/// Reading the configured server twice, with no write between, gives the same value.
pub proof fn server_read_is_stable(stored: Option<StoredValue>, first: Option<String>, second: Option<String>)
    requires
        first == stored_server(stored),
        second == stored_server(stored),
    ensures
        first == second,
{
}

/// Once notifications have been turned off, a request to show one is dropped:
/// nothing reaches the native notification service.
pub proof fn disabled_notifications_are_dropped(
    prior: Option<StoredValue>,
    cs: Seq<Command>,
    title: Seq<char>,
    body: Seq<char>,
)
    requires
        notification_commands(
            notifications_value_after(
                prior,
                seq![Command::StoreNotificationsEnabled(false), Command::SaveStore],
            ),
            cs,
            title,
            body,
        ),
    ensures
        cs.len() == 0,
{
    let w = seq![Command::StoreNotificationsEnabled(false), Command::SaveStore];
    let w1 = w.drop_last();
    assert(w.last() == Command::SaveStore);
    assert(w1.last() == Command::StoreNotificationsEnabled(false));
    assert(notifications_value_after(prior, w) == notifications_value_after(prior, w1));
    assert(notifications_value_after(prior, w1) == Some(StoredValue::Flag(false)));
    assert(!stored_notifications(notifications_value_after(prior, w)));
}

/// A close request never ends the process: its commands hold no exit.
pub proof fn close_keeps_running()
    ensures
        forall|i: int| 0 <= i < close_commands().len() ==> !(#[trigger] close_commands()[i] is Exit),
{
}

/// Two toggles in a row bring the window back to where it was; from shown the
/// first one hides it.
pub proof fn toggle_twice_restores(v: Visibility)
    ensures
        toggled(toggled(v)) == v,
        toggled(Visibility::Visible) == Visibility::Hidden,
        toggled(Visibility::Hidden) == Visibility::Visible,
{
}

/// Bringing a hidden window back by toggling raises and focuses it.
pub proof fn showing_focuses()
    ensures
        toggle_commands(Visibility::Hidden).last() is Focus,
        show_commands().last() is Focus,
{
}

} // verus!
