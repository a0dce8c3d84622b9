//! Cluster events as the events view lists them.

use vstd::prelude::*;

use crate::text::{int_text, int_to_string};

verus! {

/// A cached event.
#[derive(Debug, PartialEq)]
pub struct KubeEvent {
    pub name: String,
    pub namespace: String,
    pub involved_kind: String,
    pub reason: String,
    pub message: String,
    pub count: i32,
    pub age: String,
}

pub open spec fn text_or_empty(o: Option<String>) -> Seq<char> {
    match o {
        Some(s) => s@,
        None => Seq::empty(),
    }
}

fn string_or_empty(o: Option<String>) -> (r: String)
    ensures
        r@ == text_or_empty(o),
{
    match o {
        Some(s) => s,
        None => String::new(),
    }
}

/// The columns of the events view.
pub open spec fn event_row_text(e: KubeEvent) -> Seq<Seq<char>> {
    seq![
        e.namespace@,
        e.name@,
        e.involved_kind@,
        e.reason@,
        e.message@,
        int_text(e.count as int),
        e.age@,
    ]
}

impl KubeEvent {
    /// The event made of the fields that an API event carries
    /// (`metadata.name`, `metadata.namespace`, `involvedObject.kind`, `reason`,
    /// `message`, `count`), each missing one taken as empty or zero, and of
    /// its age as text.
    pub fn from_fields(
        name: Option<String>,
        namespace: Option<String>,
        involved_kind: Option<String>,
        reason: Option<String>,
        message: Option<String>,
        count: Option<i32>,
        age: String,
    ) -> (r: KubeEvent)
        ensures
            r.name@ == text_or_empty(name),
            r.namespace@ == text_or_empty(namespace),
            r.involved_kind@ == text_or_empty(involved_kind),
            r.reason@ == text_or_empty(reason),
            r.message@ == text_or_empty(message),
            r.count == match count {
                Some(c) => c,
                None => 0i32,
            },
            r.age == age,
    {
        KubeEvent {
            name: string_or_empty(name),
            namespace: string_or_empty(namespace),
            involved_kind: string_or_empty(involved_kind),
            reason: string_or_empty(reason),
            message: string_or_empty(message),
            count: match count {
                Some(c) => c,
                None => 0,
            },
            age,
        }
    }

    pub fn get_name(&self) -> (r: &String)
        ensures
            r == &self.name,
    {
        &self.name
    }

    /// The cells of the event's row: namespace, name, involved kind, reason,
    /// message, count and age.
    pub fn table_row(&self) -> (r: Vec<String>)
        ensures
            r@.map_values(|s: String| s@) == event_row_text(*self),
    {
        let mut r: Vec<String> = Vec::new();
        r.push(self.namespace.clone());
        r.push(self.name.clone());
        r.push(self.involved_kind.clone());
        r.push(self.reason.clone());
        r.push(self.message.clone());
        r.push(int_to_string(self.count));
        r.push(self.age.clone());
        assert(r@.map_values(|s: String| s@) =~= event_row_text(*self));
        r
    }
}

/// The events view.
pub struct EventResource {}

/// An event's row holds, in order, its namespace, name, involved kind,
/// reason, message, count in decimal, and age.
pub proof fn lemma_event_row_cells(e: KubeEvent)
    ensures
        event_row_text(e).len() == 7,
        event_row_text(e)[0] == e.namespace@,
        event_row_text(e)[1] == e.name@,
        event_row_text(e)[2] == e.involved_kind@,
        event_row_text(e)[3] == e.reason@,
        event_row_text(e)[4] == e.message@,
        event_row_text(e)[5] == int_text(e.count as int),
        event_row_text(e)[6] == e.age@,
{
}

} // verus!
