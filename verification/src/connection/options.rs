//! What a caller configures of a connection.

use vstd::prelude::*;
use vstd::string::StringExecFns;
use std::time::Duration;
use lapin::types::FieldTable;
use crate::arguments::{no_entries, table_entries, table_new, Entries};
use crate::timing::{seconds, whole_millis};

verus! {

/// The configuration of one connection.
#[derive(Debug)]
pub struct ConnectionOptions {
    /// Where the broker is.
    pub uri: String,
    /// The name under which the connection shows in logs and at the broker.
    pub name: String,
    /// The pause before each new attempt after a failed one. It is the same
    /// after every failure.
    pub reconnect: Duration,
    /// The locale announced to the broker.
    pub locale: String,
    /// The client properties announced to the broker, passed on as they are.
    pub properties: FieldTable,
}

/// Mathematical value of [`ConnectionOptions`]. The pause stands by its
/// whole milliseconds.
pub struct OptionsView {
    pub uri: Seq<char>,
    pub name: Seq<char>,
    pub reconnect: nat,
    pub locale: Seq<char>,
    pub properties: Entries,
}

impl OptionsView {
    /// The options of a connection to `uri` named `name` with everything
    /// else at its default: three seconds between attempts, the locale
    /// `en-US`, no client properties.
    pub open spec fn plain(uri: Seq<char>, name: Seq<char>) -> OptionsView {
        OptionsView { uri, name, reconnect: 3000, locale: "en-US"@, properties: no_entries() }
    }
}

impl View for ConnectionOptions {
    type V = OptionsView;

    open spec fn view(&self) -> OptionsView {
        OptionsView {
            uri: self.uri@,
            name: self.name@,
            reconnect: whole_millis(self.reconnect),
            locale: self.locale@,
            properties: table_entries(self.properties),
        }
    }
}

impl ConnectionOptions {
    /// Options for a connection to `uri` named `name`, the rest at its
    /// default.
    pub fn new(uri: &str, name: &str) -> (options: Self)
        ensures
            options@ == OptionsView::plain(uri@, name@),
    {
        ConnectionOptions {
            uri: String::from_str(uri),
            name: String::from_str(name),
            reconnect: seconds(3),
            locale: String::from_str("en-US"),
            properties: table_new(),
        }
    }

    /// Sets the pause between attempts.
    pub fn with_reconnect(self, reconnect: Duration) -> (options: Self)
        ensures
            options@ == (OptionsView { reconnect: whole_millis(reconnect), ..self@ }),
    {
        let mut options = self;
        options.reconnect = reconnect;
        options
    }

    /// Sets the locale.
    pub fn with_locale(self, locale: &str) -> (options: Self)
        ensures
            options@ == (OptionsView { locale: locale@, ..self@ }),
    {
        let mut options = self;
        options.locale = String::from_str(locale);
        options
    }

    /// Sets the client properties.
    pub fn with_props(self, props: FieldTable) -> (options: Self)
        ensures
            options@ == (OptionsView { properties: table_entries(props), ..self@ }),
    {
        let mut options = self;
        options.properties = props;
        options
    }
}

} // verus!
