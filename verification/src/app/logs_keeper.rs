//! The logs that are loaded, with the name of the pod that wrote them.

use vstd::prelude::*;

verus! {

/// The logs of one pod as they were last fetched, oldest line first, or
/// nothing while none were fetched.
pub struct LogsKeeper {
    pod_name: Option<String>,
    logs: Option<Vec<String>>,
}

/// What a [`LogsKeeper`] holds, as sequences of characters.
pub struct LogsKeeperView {
    pub pod_name: Option<Seq<char>>,
    pub logs: Option<Seq<Seq<char>>>,
}

impl LogsKeeperView {
    /// No logs.
    pub open spec fn empty() -> LogsKeeperView {
        LogsKeeperView { pod_name: None, logs: None }
    }

    /// The logs `logs` of the pod `pod_name`.
    pub open spec fn of(pod_name: Seq<char>, logs: Seq<Seq<char>>) -> LogsKeeperView {
        LogsKeeperView { pod_name: Some(pod_name), logs: Some(logs) }
    }

    /// How many lines are loaded.
    pub open spec fn line_count(self) -> nat {
        match self.logs {
            Some(lines) => lines.len(),
            None => 0,
        }
    }
}

impl View for LogsKeeper {
    type V = LogsKeeperView;

    closed spec fn view(&self) -> LogsKeeperView {
        LogsKeeperView { pod_name: self.pod_name.deep_view(), logs: self.logs.deep_view() }
    }
}

impl LogsKeeper {
    /// A keeper without logs.
    pub fn default() -> (keeper: LogsKeeper)
        ensures
            keeper@ == LogsKeeperView::empty(),
    {
        LogsKeeper { pod_name: None, logs: None }
    }

    /// A keeper of `logs`, which the pod `pod_name` wrote.
    pub fn new(pod_name: String, logs: Vec<String>) -> (keeper: LogsKeeper)
        ensures
            keeper@ == LogsKeeperView::of(pod_name@, logs.deep_view()),
    {
        LogsKeeper { pod_name: Some(pod_name), logs: Some(logs) }
    }

    /// The lines that are loaded.
    pub fn logs(&self) -> (logs: Option<&Vec<String>>)
        ensures
            logs.deep_view() == self@.logs,
    {
        self.logs.as_ref()
    }

    /// The pod that wrote them.
    pub fn pod_name(&self) -> (pod_name: Option<&String>)
        ensures
            pod_name.deep_view() == self@.pod_name,
    {
        self.pod_name.as_ref()
    }
}

} // verus!
