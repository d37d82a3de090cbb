use vstd::prelude::*;

verus! {

/// A value as the configuration store holds it under a key.
#[derive(Clone, Debug, PartialEq, Eq)]
pub enum StoredValue {
    Text(String),
    Flag(bool),
    /// Any other JSON value.
    Other,
}

/// The server address that a stored value gives: only text counts.
pub open spec fn stored_server(v: Option<StoredValue>) -> Option<String> {
    match v {
        Some(StoredValue::Text(s)) => Some(s),
        _ => None,
    }
}

/// The notification preference that a stored value gives: a flag, else on.
pub open spec fn stored_notifications(v: Option<StoredValue>) -> bool {
    match v {
        Some(StoredValue::Flag(b)) => b,
        _ => true,
    }
}

/// Reads the configured server address out of what the store holds under its key.
pub fn get_server(stored: &Option<StoredValue>) -> (r: Option<String>)
    ensures
        r == stored_server(*stored),
{
    match stored {
        Some(StoredValue::Text(s)) => Some(s.clone()),
        _ => None,
    }
}

/// Reads the notification preference; on unless a flag says otherwise.
pub fn get_notifications_enabled(stored: &Option<StoredValue>) -> (r: bool)
    ensures
        r == stored_notifications(*stored),
{
    match stored {
        Some(StoredValue::Flag(b)) => *b,
        _ => true,
    }
}

/// What the operating system reported when asked whether autostart is on;
/// a failed query counts as off.
pub fn get_autostart_enabled(query: &Result<bool, String>) -> (r: bool)
    ensures
        r == (*query matches Ok(b) && b),
{
    match query {
        Ok(b) => *b,
        Err(_) => false,
    }
}

} // verus!
