//! What the audit log records: who did what, to which thing.

use vstd::prelude::*;

use crate::ids::Uuid;

verus! {

/// A JSON value without parts.
#[derive(Debug, PartialEq, Eq)]
pub enum Scalar {
    Null,
    Bool(bool),
    Int(i64),
    Count(u64),
    Text(String),
}

/// A member of a JSON object.
#[derive(Debug, PartialEq, Eq)]
pub struct Field {
    pub name: String,
    pub value: Scalar,
}

/// A line of the audit log.
#[derive(Debug, PartialEq, Eq)]
pub struct Entry {
    pub actor_service: String,
    pub actor_pseudo: Option<String>,
    pub session_id: Option<Uuid>,
    pub resource_type: String,
    pub resource_id: String,
    pub action: String,
    /// The members of a JSON object with details.
    pub detail: Option<Vec<Field>>,
}

pub enum ScalarView {
    Null,
    Bool(bool),
    Int(int),
    Count(nat),
    Text(Seq<char>),
}

pub struct FieldView {
    pub name: Seq<char>,
    pub value: ScalarView,
}

pub struct EntryView {
    pub actor_service: Seq<char>,
    pub actor_pseudo: Option<Seq<char>>,
    pub session_id: Option<Uuid>,
    pub resource_type: Seq<char>,
    pub resource_id: Seq<char>,
    pub action: Seq<char>,
    pub detail: Option<Seq<FieldView>>,
}

impl View for Scalar {
    type V = ScalarView;

    open spec fn view(&self) -> ScalarView {
        match self {
            Scalar::Null => ScalarView::Null,
            Scalar::Bool(b) => ScalarView::Bool(*b),
            Scalar::Int(n) => ScalarView::Int(*n as int),
            Scalar::Count(n) => ScalarView::Count(*n as nat),
            Scalar::Text(s) => ScalarView::Text(s@),
        }
    }
}

impl View for Field {
    type V = FieldView;

    open spec fn view(&self) -> FieldView {
        FieldView { name: self.name@, value: self.value@ }
    }
}

impl View for Entry {
    type V = EntryView;

    open spec fn view(&self) -> EntryView {
        EntryView {
            actor_service: self.actor_service@,
            actor_pseudo: match self.actor_pseudo {
                Some(s) => Some(s@),
                None => None,
            },
            session_id: self.session_id,
            resource_type: self.resource_type@,
            resource_id: self.resource_id@,
            action: self.action@,
            detail: match self.detail {
                Some(fields) => Some(fields@.map_values(|f: Field| f@)),
                None => None,
            },
        }
    }
}

/// An optional text: the text, or null.
pub open spec fn text_or_null(s: Option<String>) -> ScalarView {
    match s {
        Some(s) => ScalarView::Text(s@),
        None => ScalarView::Null,
    }
}

/// An optional flag: the flag, or null.
pub open spec fn flag_or_null(b: Option<bool>) -> ScalarView {
    match b {
        Some(b) => ScalarView::Bool(b),
        None => ScalarView::Null,
    }
}

impl Scalar {
    pub fn of_text(s: &Option<String>) -> (res: Scalar)
        ensures
            res@ == text_or_null(*s),
    {
        match s {
            Some(s) => Scalar::Text(s.clone()),
            None => Scalar::Null,
        }
    }

    pub fn of_flag(b: Option<bool>) -> (res: Scalar)
        ensures
            res@ == flag_or_null(b),
    {
        match b {
            Some(b) => Scalar::Bool(b),
            None => Scalar::Null,
        }
    }
}

impl Field {
    pub fn new(name: &str, value: Scalar) -> (res: Field)
        ensures
            res@ == (FieldView { name: name@, value: value@ }),
    {
        Field { name: name.to_owned(), value }
    }
}


/// The view of a detail is its name and its value, and nothing else is shown of
/// a value than what it holds.
pub proof fn law_view_of_a_detail(field: Field)
    ensures
        field@.name == field.name@,
        field@.value == (match field.value {
            Scalar::Null => ScalarView::Null,
            Scalar::Bool(b) => ScalarView::Bool(b),
            Scalar::Int(n) => ScalarView::Int(n as int),
            Scalar::Count(n) => ScalarView::Count(n as nat),
            Scalar::Text(s) => ScalarView::Text(s@),
        }),
{
}

/// The view of an entry shows every column as it is held.
pub proof fn law_view_of_an_entry(entry: Entry, i: int)
    ensures
        entry@.actor_service == entry.actor_service@,
        entry.actor_pseudo is Some <==> entry@.actor_pseudo is Some,
        entry.actor_pseudo matches Some(who) ==> entry@.actor_pseudo == Some(who@),
        entry@.session_id == entry.session_id,
        entry@.resource_type == entry.resource_type@,
        entry@.resource_id == entry.resource_id@,
        entry@.action == entry.action@,
        entry.detail is Some <==> entry@.detail is Some,
        entry.detail matches Some(fields) ==> entry@.detail->0.len() == fields@.len(),
        entry.detail matches Some(fields) ==> (0 <= i < fields@.len() ==> entry@.detail->0[i]
            == fields@[i]@),
{
}

/// What is absent is recorded as null, and what is given as it is.
pub proof fn law_absent_is_null(text: Option<String>, flag: Option<bool>)
    ensures
        text is None ==> text_or_null(text) == ScalarView::Null,
        text matches Some(s) ==> text_or_null(text) == ScalarView::Text(s@),
        flag is None ==> flag_or_null(flag) == ScalarView::Null,
        flag matches Some(b) ==> flag_or_null(flag) == ScalarView::Bool(b),
{
}

} // verus!
