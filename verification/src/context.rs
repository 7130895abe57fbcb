//! The session context: what every fragment of one invocation is rendered
//! against.

use vstd::prelude::*;
use vstd::string::*;

use crate::template::{Bindings, Scalar, ScalarView};

verus! {

/// The facts of one invocation. They are fixed before compilation starts.
#[derive(Debug, PartialEq, Eq)]
pub struct SessionContext {
    /// The bus identity on which this process receives the script's reports.
    pub dbus_addr: String,
    /// The command line, for the record.
    pub cmdline: String,
    /// Whether the script reports what it does.
    pub debug: bool,
    /// Whether the host is of the older version.
    pub kde5: bool,
    /// The token by which the host's log lines can be told apart.
    pub marker: String,
    /// The name under which the script is loaded.
    pub script_name: String,
    /// The shortcut that runs the script; empty if it runs at once.
    pub shortcut: String,
}

/// The mathematical content of a [`SessionContext`].
pub struct SessionContextView {
    pub dbus_addr: Seq<char>,
    pub cmdline: Seq<char>,
    pub debug: bool,
    pub kde5: bool,
    pub marker: Seq<char>,
    pub script_name: Seq<char>,
    pub shortcut: Seq<char>,
}

impl View for SessionContext {
    type V = SessionContextView;

    open spec fn view(&self) -> SessionContextView {
        SessionContextView {
            dbus_addr: self.dbus_addr@,
            cmdline: self.cmdline@,
            debug: self.debug,
            kde5: self.kde5,
            marker: self.marker@,
            script_name: self.script_name@,
            shortcut: self.shortcut@,
        }
    }
}

impl SessionContextView {
    /// The base record: one binding for each fact.
    pub open spec fn record(self) -> Seq<(Seq<char>, ScalarView)> {
        seq![
            ("dbus_addr"@, ScalarView::Text(self.dbus_addr)),
            ("cmdline"@, ScalarView::Text(self.cmdline)),
            ("debug"@, ScalarView::Flag(self.debug)),
            ("kde5"@, ScalarView::Flag(self.kde5)),
            ("marker"@, ScalarView::Text(self.marker)),
            ("script_name"@, ScalarView::Text(self.script_name)),
            ("shortcut"@, ScalarView::Text(self.shortcut)),
        ]
    }

    /// Whether the script stays loaded behind a shortcut.
    pub open spec fn persistent(self) -> bool {
        self.shortcut.len() > 0
    }
}

impl SessionContext {
    /// The base record: one binding for each fact.
    pub fn bindings(&self) -> (r: Bindings)
        ensures
            r@ == self@.record(),
    {
        let mut r = Bindings::new();
        r.bind("dbus_addr", Scalar::Text(self.dbus_addr.clone()));
        r.bind("cmdline", Scalar::Text(self.cmdline.clone()));
        r.bind("debug", Scalar::Flag(self.debug));
        r.bind("kde5", Scalar::Flag(self.kde5));
        r.bind("marker", Scalar::Text(self.marker.clone()));
        r.bind("script_name", Scalar::Text(self.script_name.clone()));
        r.bind("shortcut", Scalar::Text(self.shortcut.clone()));
        assert(r@ =~= self@.record());
        r
    }

    /// Whether the script stays loaded behind a shortcut.
    pub fn persistent(&self) -> (r: bool)
        ensures
            r == self@.persistent(),
    {
        self.shortcut.as_str().unicode_len() > 0
    }
}

} // verus!
