//! The state of the dashboard: the pods of one namespace and the logs that
//! were fetched last.

use self::logs_keeper::{LogsKeeper, LogsKeeperView};
use crate::input::InputAction;
use crate::pod::{Pod, PodView};
use crate::ui::InputContext;
use vstd::prelude::*;

pub mod logs_keeper;

verus! {

/// The logs that the session wants fetched: those of `pod_name` in
/// `namespace`.
#[derive(Debug, PartialEq, Eq)]
pub struct LogsRequest {
    pub pod_name: String,
    pub namespace: String,
}

/// A [`LogsRequest`] as sequences of characters.
pub struct LogsRequestView {
    pub pod_name: Seq<char>,
    pub namespace: Seq<char>,
}

impl View for LogsRequest {
    type V = LogsRequestView;

    open spec fn view(&self) -> LogsRequestView {
        LogsRequestView { pod_name: self.pod_name@, namespace: self.namespace@ }
    }
}

impl DeepView for LogsRequest {
    type V = LogsRequestView;

    open spec fn deep_view(&self) -> LogsRequestView {
        self@
    }
}

/// The dashboard's state: whether the session goes on, the namespace, the
/// pods listed in it at the start, and the logs that were fetched last.
pub struct App {
    running: bool,
    namespace: String,
    pods: Vec<Pod>,
    pod_logs: LogsKeeper,
}

/// The state of an [`App`] as mathematical values.
pub struct AppView {
    pub running: bool,
    pub namespace: Seq<char>,
    pub pods: Seq<PodView>,
    pub pod_logs: LogsKeeperView,
}

impl AppView {
    /// The state at the start: running, with the listing and no logs.
    pub open spec fn initial(namespace: Seq<char>, pods: Seq<PodView>) -> AppView {
        AppView { running: true, namespace, pods, pod_logs: LogsKeeperView::empty() }
    }

    /// The state after `action`. Only `Quit` changes it: it stops the
    /// session.
    pub open spec fn take_action(self, action: InputAction) -> AppView {
        match action {
            InputAction::Quit => AppView { running: false, ..self },
            _ => self,
        }
    }

    /// The logs to fetch on `action`: on `FetchLogs` those of the selected
    /// pod, if one is selected and the session has not stopped.
    pub open spec fn request(self, action: InputAction, selected: Option<nat>) -> Option<
        LogsRequestView,
    > {
        match (action, selected) {
            (InputAction::FetchLogs, Some(index)) => if self.running && index < self.pods.len() {
                Some(
                    LogsRequestView {
                        pod_name: self.pods[index as int].name,
                        namespace: self.namespace,
                    },
                )
            } else {
                None
            },
            _ => None,
        }
    }

    /// The state once the logs `logs` of `pod_name` have arrived: they take
    /// the place of the logs that were loaded.
    pub open spec fn install_logs(self, pod_name: Seq<char>, logs: Seq<Seq<char>>) -> AppView {
        AppView { pod_logs: LogsKeeperView::of(pod_name, logs), ..self }
    }
}

impl View for App {
    type V = AppView;

    closed spec fn view(&self) -> AppView {
        AppView {
            running: self.running,
            namespace: self.namespace@,
            pods: self.pods.deep_view(),
            pod_logs: self.pod_logs@,
        }
    }
}

impl App {
    /// The dashboard of `namespace` with the pods that were listed in it.
    pub fn new(namespace: String, pods: Vec<Pod>) -> (app: App)
        ensures
            app@ == AppView::initial(namespace@, pods.deep_view()),
    {
        let running = true;
        let pod_logs = LogsKeeper::default();
        App { running, namespace, pods, pod_logs }
    }

    /// Stops the session.
    fn exit(&mut self)
        ensures
            final(self)@ == (AppView { running: false, ..old(self)@ }),
    {
        self.running = false;
    }

    /// Whether the session goes on.
    pub fn running(&self) -> (running: &bool)
        ensures
            *running == self@.running,
    {
        &self.running
    }

    /// The namespace whose pods are listed.
    pub fn namespace(&self) -> (namespace: &str)
        ensures
            namespace@ == self@.namespace,
    {
        self.namespace.as_str()
    }

    /// The listing, in the order in which the cluster gave it.
    pub fn pods(&self) -> (pods: Option<&Vec<Pod>>)
        ensures
            pods.deep_view() == Some(self@.pods),
    {
        Some(&self.pods)
    }

    /// The pod at `index` of the listing.
    pub fn get_pod(&self, index: usize) -> (pod: &Pod)
        requires
            index < self@.pods.len(),
        ensures
            pod@ == self@.pods[index as int],
    {
        &self.pods[index]
    }

    /// The name of the pod at `index` of the listing.
    pub fn get_pod_name(&self, index: usize) -> (name: &str)
        requires
            index < self@.pods.len(),
        ensures
            name@ == self@.pods[index as int].name,
    {
        self.get_pod(index).name.as_str()
    }

    /// The lines of the logs that are loaded, oldest first.
    pub fn pod_logs(&self) -> (logs: Option<&Vec<String>>)
        ensures
            logs.deep_view() == self@.pod_logs.logs,
    {
        self.pod_logs.logs()
    }

    /// The pod whose logs are loaded.
    pub fn get_logged_pod_name(&self) -> (name: Option<String>)
        ensures
            name.deep_view() == self@.pod_logs.pod_name,
    {
        match self.pod_logs.pod_name() {
            Some(name) => Some(name.clone()),
            None => None,
        }
    }

    /// How many pods the listing has.
    pub fn get_pods_number(&self) -> (number: usize)
        ensures
            number == self@.pods.len(),
    {
        self.pods.len()
    }

    /// How many lines of logs are loaded.
    pub fn get_logs_number(&self) -> (number: usize)
        ensures
            number == self@.pod_logs.line_count(),
    {
        match self.pod_logs.logs() {
            Some(logs) => logs.len(),
            None => 0,
        }
    }

    /// Applies `action`. `Quit` stops the session. `FetchLogs` changes nothing
    /// yet: it returns which logs are to be fetched, for the caller to fetch
    /// and hand to [`App::install_logs`]. With no pod selected, or once the
    /// session has stopped, it asks for nothing. Every other action leaves
    /// the state as it is.
    pub fn take_action(&mut self, action: InputAction, context: InputContext) -> (request: Option<
        LogsRequest,
    >)
        ensures
            final(self)@ == old(self)@.take_action(action),
            request.deep_view() == old(self)@.request(action, context.selected()),
    {
        match action {
            InputAction::Quit => {
                self.exit();
                None
            },
            InputAction::FetchLogs => {
                match context.selected_pod_index {
                    Some(index) => {
                        if self.running && index < self.pods.len() {
                            let pod_name = self.get_pod_name(index);
                            Some(
                                LogsRequest {
                                    pod_name: pod_name.to_owned(),
                                    namespace: self.namespace.clone(),
                                },
                            )
                        } else {
                            None
                        }
                    },
                    None => None,
                }
            },
            _ => None,
        }
    }

    /// Takes in the logs `logs` of the pod `pod_name`. They replace whatever
    /// was loaded before.
    pub fn install_logs(&mut self, pod_name: String, logs: Vec<String>)
        ensures
            final(self)@ == old(self)@.install_logs(pod_name@, logs.deep_view()),
    {
        self.pod_logs = LogsKeeper::new(pod_name, logs)
    }
}

} // verus!
