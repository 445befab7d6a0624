use vstd::prelude::*;

use crate::ident::{signed_decimal, signed_decimal_text};

verus! {

/// The single record kind: a backend-assigned identifier, a name and a detail text.
pub struct Event {
    pub uid: String,
    pub event_name: String,
    pub event_detail: String,
}

/// The mathematical value of an [`Event`]: its three texts as character sequences.
pub ghost struct EventView {
    pub uid: Seq<char>,
    pub event_name: Seq<char>,
    pub event_detail: Seq<char>,
}

impl View for Event {
    type V = EventView;

    open spec fn view(&self) -> EventView {
        EventView { uid: self.uid@, event_name: self.event_name@, event_detail: self.event_detail@ }
    }
}

impl Event {
    pub fn new(uid: String, event_name: String, event_detail: String) -> (r: Self)
        ensures
            r.uid@ == uid@,
            r.event_name@ == event_name@,
            r.event_detail@ == event_detail@,
    {
        Event { uid, event_name, event_detail }
    }

    /// The event that a database row stands for: the row's integer identifier
    /// in decimal notation, and its name and detail as they are.
    pub fn from_row(id: i64, event_name: String, event_detail: String) -> (r: Self)
        ensures
            r@ == (EventView {
                uid: signed_decimal(id as int),
                event_name: event_name@,
                event_detail: event_detail@,
            }),
    {
        Event::new(signed_decimal_text(id), event_name, event_detail)
    }
}

impl Clone for Event {
    fn clone(&self) -> (r: Self)
        ensures
            r@ == self@,
    {
        Event {
            uid: self.uid.clone(),
            event_name: self.event_name.clone(),
            event_detail: self.event_detail.clone(),
        }
    }
}

/// Why a repository operation could not be completed.
pub enum RepositoryError {
    /// The storage backend failed; carries its own description of the failure.
    Backend(String),
}

} // verus!
