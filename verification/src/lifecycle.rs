//! The record of a run of the application, and what the next run learns from it.

use crate::json::{Json, JsonView};
use crate::text;
use crate::text_map::TextMap;
use vstd::prelude::*;

verus! {

/// The record of a run. One that was not completed has no end.
#[derive(Debug)]
pub struct Marker {
    pub pid: u32,
    pub started_at: String,
    pub version: String,
    pub ended_at: Option<String>,
    pub reason: Option<String>,
}

/// The contents of a [`Marker`].
#[verifier::ext_equal]
pub struct MarkerView {
    pub pid: u32,
    pub started_at: Seq<char>,
    pub version: Seq<char>,
    pub ended_at: Option<Seq<char>>,
    pub reason: Option<Seq<char>>,
}

impl View for Marker {
    type V = MarkerView;

    open spec fn view(&self) -> MarkerView {
        MarkerView {
            pid: self.pid,
            started_at: self.started_at@,
            version: self.version@,
            ended_at: self.ended_at.deep_view(),
            reason: self.reason.deep_view(),
        }
    }
}

/// What a run has found of the one before it.
pub enum Previous {
    /// There was none.
    Missing,
    Found(Marker),
    /// It cannot be read, for a reason.
    Invalid(String),
}

/// The values of a diagnostic, by name.
pub type Values = Map<Seq<char>, JsonView>;

/// A number.
pub open spec fn number_value(n: u32) -> JsonView {
    JsonView::Number(Some(n as u64), text::decimal_of(n as nat))
}

/// What is said of a run that was not completed.
pub open spec fn unclean_values(previous: MarkerView) -> Values {
    Map::empty().insert("event"@, JsonView::Text("previous_session_unclean"@)).insert(
        "message"@,
        JsonView::Text(
            "The previous session has no completed shutdown record; the cause is unknown."@,
        ),
    ).insert("previous_pid"@, number_value(previous.pid)).insert(
        "previous_started_at"@,
        JsonView::Text(previous.started_at),
    ).insert("previous_version"@, JsonView::Text(previous.version))
}

/// What is said of a record that cannot be read.
pub open spec fn invalid_values(error: Seq<char>) -> Values {
    Map::empty().insert("error"@, JsonView::Text(error)).insert("event"@, JsonView::Text("session_marker_invalid"@))
}

/// What is said of the run before: nothing, unless it was not completed or cannot be read.
pub open spec fn finding(previous: Previous) -> Option<Values> {
    match previous {
        Previous::Missing => None,
        Previous::Found(marker) => if marker@.ended_at is None {
            Some(unclean_values(marker@))
        } else {
            None
        },
        Previous::Invalid(error) => Some(invalid_values(error@)),
    }
}

/// What is said of an event of a run.
pub open spec fn event_values(marker: MarkerView, event: Seq<char>, values: Values) -> Values {
    values.insert("event"@, JsonView::Text(event)).insert("pid"@, number_value(marker.pid)).insert(
        "session_started_at"@,
        JsonView::Text(marker.started_at),
    )
}

/// What is said of the run before: a warning, where there is one.
pub fn inspect(previous: &Previous) -> (r: Option<TextMap<Json>>)
    ensures
        r.deep_view() == finding(*previous),
{
    match previous {
        Previous::Missing => None,
        Previous::Found(marker) => {
            if marker.ended_at.is_some() {
                return None;
            }
            let mut values: TextMap<Json> = TextMap::new();
            values.insert("event".to_owned(), Json::text("previous_session_unclean"));
            values.insert(
                "message".to_owned(),
                Json::text("The previous session has no completed shutdown record; the cause is unknown."),
            );
            values.insert("previous_pid".to_owned(), Json::number(marker.pid as u64));
            values.insert("previous_started_at".to_owned(), Json::text(&marker.started_at));
            values.insert("previous_version".to_owned(), Json::text(&marker.version));
            Some(values)
        },
        Previous::Invalid(error) => {
            let mut values: TextMap<Json> = TextMap::new();
            values.insert("error".to_owned(), Json::text(error));
            values.insert("event".to_owned(), Json::text("session_marker_invalid"));
            Some(values)
        },
    }
}

/// A run of the application.
#[derive(Debug)]
pub struct Session {
    pub marker: Marker,
}

impl View for Session {
    type V = MarkerView;

    open spec fn view(&self) -> MarkerView {
        self.marker@
    }
}

impl Session {
    /// A run begins. Its record is open until it is completed.
    pub fn start(pid: u32, started_at: String, version: String) -> (r: Session)
        ensures
            r@ == (MarkerView {
                pid,
                started_at: started_at@,
                version: version@,
                ended_at: None,
                reason: None,
            }),
    {
        Session { marker: Marker { pid, started_at, version, ended_at: None, reason: None } }
    }

    /// What is said of an event of the run.
    pub fn record(&self, event: &str, values: TextMap<Json>) -> (r: TextMap<Json>)
        ensures
            r@ == event_values(self@, event@, values@),
    {
        let mut values = values;
        values.insert("event".to_owned(), Json::text(event));
        values.insert("pid".to_owned(), Json::number(self.marker.pid as u64));
        values.insert("session_started_at".to_owned(), Json::text(&self.marker.started_at));
        values
    }

    /// What is said of the end of the run.
    pub fn stopping(&self, reason: &str) -> (r: TextMap<Json>)
        ensures
            r@ == event_values(self@, "app_stopped"@, Map::empty().insert("reason"@, JsonView::Text(reason@))),
    {
        let mut values: TextMap<Json> = TextMap::new();
        values.insert("reason".to_owned(), Json::text(reason));
        self.record("app_stopped", values)
    }

    /// The run is completed.
    pub fn finish(self, reason: &str, ended_at: String) -> (r: Marker)
        ensures
            r@ == (MarkerView { ended_at: Some(ended_at@), reason: Some(reason@), ..self@ }),
    {
        Marker { ended_at: Some(ended_at), reason: Some(reason.to_owned()), ..self.marker }
    }
}

/// A run that was completed is not reported by the next one, and one that was not is.
pub proof fn completion_is_noticed(marker: Marker)
    ensures
        finding(Previous::Found(marker)) is None <==> marker@.ended_at is Some,
{
}

} // verus!
