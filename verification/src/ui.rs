//! The interactive session: the selection among the pods, the log viewport,
//! and what each event of the input source does to them.

use self::logs::{list_items, title_of, LoggerWidget, LoggerWidgetView, LogsList, LogsListView};
use crate::app::{App, AppView, LogsRequest, LogsRequestView};
use crate::errors::Error;
use crate::input::event_loop::Event;
use crate::input::{action_of_event, map_input, InputAction, Key};
use crate::pod::{Pod, PodView};
use vstd::arithmetic::div_mod::{lemma_mod_self_0, lemma_small_mod};
use vstd::prelude::*;

pub mod logs;

verus! {

/// An index into the listing, or none, as a natural number.
pub open spec fn index_view(index: Option<usize>) -> Option<nat> {
    match index {
        Some(index) => Some(index as nat),
        None => None,
    }
}

/// What an action needs to know of the screen: which pod is selected.
pub struct InputContext {
    pub selected_pod_index: Option<usize>,
}

impl InputContext {
    /// The index of the selected pod.
    pub open spec fn selected(self) -> Option<nat> {
        index_view(self.selected_pod_index)
    }
}

/// What the last drawing of the screen found out: how many lines the log
/// panel has.
pub struct UiContext {
    pub logs_chunk_height: u16,
}

/// What a drawing of the screen shows beside the listing itself.
#[derive(Debug, PartialEq)]
pub struct Screen {
    /// The row of the listing that is highlighted.
    pub selected_pod_index: Option<usize>,
    /// The pod whose details are shown: the selected one.
    pub pod_details: Option<Pod>,
    /// The log panel.
    pub pod_logs: LogsList,
}

/// A [`Screen`] as mathematical values.
pub struct ScreenView {
    pub selected: Option<nat>,
    pub pod_details: Option<PodView>,
    pub pod_logs: LogsListView,
}

impl View for Screen {
    type V = ScreenView;

    open spec fn view(&self) -> ScreenView {
        ScreenView {
            selected: index_view(self.selected_pod_index),
            pod_details: self.pod_details.deep_view(),
            pod_logs: self.pod_logs@,
        }
    }
}

/// What can happen to a session: an event of the input source arrives, the
/// logs that it asked for arrive, or the screen is drawn.
pub enum Step {
    Input(Event<Key>),
    Fetched { pod_name: Seq<char>, logs: Seq<Seq<char>> },
    Drawn,
}

/// The session: the dashboard's state, the selection and the log viewport.
pub struct UI {
    app: App,
    selected_pod_index: Option<usize>,
    logger_widget: LoggerWidget,
}

/// The state of a session as mathematical values.
pub struct UiView {
    pub app: AppView,
    pub selected: Option<nat>,
    pub viewport: LoggerWidgetView,
}

impl UiView {
    /// What holds of every state of a session: a pod is selected exactly when
    /// the listing has one, the selection lies within the listing, and the
    /// viewport is not scrolled past the oldest line of the logs.
    pub open spec fn wf(self) -> bool {
        &&& match self.selected {
            Some(index) => index < self.app.pods.len(),
            None => self.app.pods.len() == 0,
        }
        &&& self.viewport.offset <= self.app.pod_logs.line_count()
    }

    /// The state at the start: the first pod selected, if there is one, and
    /// a viewport that shows no pod's logs.
    pub open spec fn initial(app: AppView) -> UiView {
        UiView {
            app,
            selected: if app.pods.len() > 0 {
                Some(0)
            } else {
                None
            },
            viewport: LoggerWidgetView::fresh(None),
        }
    }

    /// The selection moves to the next pod, from the last to the first.
    pub open spec fn select_next(self) -> UiView {
        match self.selected {
            Some(index) => if self.app.pods.len() > 0 {
                UiView {
                    selected: Some(((index + 1) % self.app.pods.len()) as nat),
                    ..self
                }
            } else {
                self
            },
            None => self,
        }
    }

    /// The selection moves to the pod before, from the first to the last.
    pub open spec fn select_previous(self) -> UiView {
        match self.selected {
            Some(index) => if self.app.pods.len() > 0 {
                UiView {
                    selected: Some(
                        if index == 0 {
                            (self.app.pods.len() - 1) as nat
                        } else {
                            (index - 1) as nat
                        },
                    ),
                    ..self
                }
            } else {
                self
            },
            None => self,
        }
    }

    /// `select_next`, `times` times over.
    pub open spec fn select_next_times(self, times: nat) -> UiView
        decreases times,
    {
        if times == 0 {
            self
        } else {
            self.select_next_times((times - 1) as nat).select_next()
        }
    }

    /// `select_previous`, `times` times over.
    pub open spec fn select_previous_times(self, times: nat) -> UiView
        decreases times,
    {
        if times == 0 {
            self
        } else {
            self.select_previous_times((times - 1) as nat).select_previous()
        }
    }

    /// The viewport is made anew if it was made for another pod than the one
    /// whose logs are loaded; else it stays as it is.
    pub open spec fn refresh_viewport(self) -> UiView {
        if self.viewport.is_stale(self.app.pod_logs.pod_name) {
            UiView { viewport: LoggerWidgetView::fresh(self.app.pod_logs.pod_name), ..self }
        } else {
            self
        }
    }

    /// The state after `action`.
    pub open spec fn apply(self, action: InputAction) -> UiView {
        match action {
            InputAction::NextPod => self.select_next(),
            InputAction::PreviousPod => self.select_previous(),
            InputAction::LogsUp => UiView {
                viewport: self.viewport.page_up(self.app.pod_logs.line_count()),
                ..self
            },
            InputAction::LogsDown => UiView { viewport: self.viewport.page_down(), ..self },
            InputAction::LogsEnd => UiView { viewport: self.viewport.end(), ..self },
            InputAction::Quit => UiView { app: self.app.take_action(action), ..self },
            InputAction::FetchLogs => UiView { app: self.app.take_action(action), ..self },
        }
    }

    /// The state after the event `input`: that of the action that it asks
    /// for. An event that asks for none changes nothing, and once the session
    /// has stopped no event does.
    pub open spec fn handle(self, input: Event<Key>) -> UiView {
        if !self.app.running {
            self
        } else {
            match action_of_event(input) {
                Some(action) => self.apply(action),
                None => self,
            }
        }
    }

    /// The logs that are to be fetched after the event `input`.
    pub open spec fn request(self, input: Event<Key>) -> Option<LogsRequestView> {
        if !self.app.running {
            None
        } else {
            match action_of_event(input) {
                Some(action) => self.app.request(action, self.selected),
                None => None,
            }
        }
    }

    /// The state once the logs `logs` of `pod_name` have arrived: they
    /// replace the logs that were loaded, and the viewport is made anew for
    /// them.
    pub open spec fn install(self, pod_name: Seq<char>, logs: Seq<Seq<char>>) -> UiView {
        UiView {
            app: self.app.install_logs(pod_name, logs),
            viewport: LoggerWidgetView::fresh(Some(pod_name)),
            ..self
        }
    }

    /// The state after `step`.
    pub open spec fn step(self, step: Step) -> UiView {
        match step {
            Step::Input(input) => self.handle(input),
            Step::Fetched { pod_name, logs } => self.install(pod_name, logs),
            Step::Drawn => self.refresh_viewport(),
        }
    }

    /// The state after `steps`, one after the other.
    pub open spec fn run(self, steps: Seq<Step>) -> UiView
        decreases steps.len(),
    {
        if steps.len() == 0 {
            self
        } else {
            self.run(steps.drop_last()).step(steps.last())
        }
    }

    /// What a drawing shows in a log panel of `width` columns and `height`
    /// lines.
    pub open spec fn screen(self, width: nat, height: nat) -> ScreenView {
        ScreenView {
            selected: self.selected,
            pod_details: match self.selected {
                Some(index) => if index < self.app.pods.len() {
                    Some(self.app.pods[index as int])
                } else {
                    None
                },
                None => None,
            },
            pod_logs: self.viewport.render(self.app.pod_logs.logs, width, height),
        }
    }
}

impl View for UI {
    type V = UiView;

    closed spec fn view(&self) -> UiView {
        UiView {
            app: self.app@,
            selected: index_view(self.selected_pod_index),
            viewport: self.logger_widget@,
        }
    }
}

impl UI {
    /// Whether the session is in a state that it can be in.
    pub open spec fn wf(&self) -> bool {
        self@.wf()
    }

    /// A session on `app`.
    pub fn new(app: App) -> (ui: UI)
        ensures
            ui@ == UiView::initial(app@),
            ui.wf(),
    {
        let selected_pod_index = if app.get_pods_number() > 0 {
            Some(0)
        } else {
            None
        };
        let logger_widget = LoggerWidget::new(None);
        UI { app, selected_pod_index, logger_widget }
    }

    /// The dashboard's state.
    pub fn app(&self) -> (app: &App)
        ensures
            app@ == self@.app,
    {
        &self.app
    }

    /// The index of the selected pod in the listing.
    pub fn selected_pod_index(&self) -> (selected: Option<usize>)
        ensures
            index_view(selected) == self@.selected,
    {
        self.selected_pod_index
    }

    /// The log viewport.
    pub fn logger_widget(&self) -> (widget: &LoggerWidget)
        ensures
            widget@ == self@.viewport,
    {
        &self.logger_widget
    }

    /// Selects the next pod of the listing, and after the last the first.
    /// With an empty listing nothing is selected and nothing changes.
    pub fn select_next_pod(&mut self)
        requires
            old(self).wf(),
        ensures
            final(self).wf(),
            final(self)@ == old(self)@.select_next(),
            old(self)@.app.pods.len() == 0 ==> final(self)@.selected is None,
    {
        let pods_number = self.app.get_pods_number();
        match self.selected_pod_index {
            Some(index) => {
                proof {
                    if index + 1 < pods_number {
                        lemma_small_mod((index + 1) as nat, pods_number as nat);
                    } else {
                        lemma_mod_self_0(pods_number as int);
                    }
                }
                if index >= pods_number - 1 {
                    self.selected_pod_index = Some(0);
                } else {
                    self.selected_pod_index = Some(index + 1);
                }
            },
            None => {},
        }
    }

    /// Selects the pod before the selected one, and before the first the
    /// last. With an empty listing nothing is selected and nothing changes.
    pub fn select_previous_pod(&mut self)
        requires
            old(self).wf(),
        ensures
            final(self).wf(),
            final(self)@ == old(self)@.select_previous(),
            old(self)@.app.pods.len() == 0 ==> final(self)@.selected is None,
    {
        let pods_number = self.app.get_pods_number();
        match self.selected_pod_index {
            Some(index) => {
                if index > 0 {
                    self.selected_pod_index = Some(index - 1);
                } else {
                    self.selected_pod_index = Some(pods_number - 1);
                }
            },
            None => {},
        }
    }

    /// Makes the viewport anew if the logs that are loaded belong to another
    /// pod than the one it was made for.
    pub fn reset_logger_widget_if_required(&mut self)
        ensures
            final(self)@ == old(self)@.refresh_viewport(),
            old(self).wf() ==> final(self).wf(),
    {
        if self.logger_widget.should_update_widget(self.app.get_logged_pod_name()) {
            self.logger_widget = LoggerWidget::new(self.app.get_logged_pod_name());
        }
    }

    /// Computes what the screen shows for a log panel of `logs_chunk_width`
    /// columns and `logs_chunk_height` lines, then checks that the viewport
    /// still belongs to the logs that are loaded. The height comes back for
    /// the handling of the next event.
    pub fn draw_screen(&mut self, logs_chunk_width: u16, logs_chunk_height: u16) -> (drawn: (
        Screen,
        UiContext,
    ))
        ensures
            drawn.0@ == old(self)@.screen(logs_chunk_width as nat, logs_chunk_height as nat),
            drawn.1.logs_chunk_height == logs_chunk_height,
            final(self)@ == old(self)@.refresh_viewport(),
            old(self).wf() ==> final(self).wf(),
    {
        let pod_details = match self.selected_pod_index {
            Some(index) => {
                if index < self.app.get_pods_number() {
                    Some(self.app.get_pod(index).duplicate())
                } else {
                    None
                }
            },
            None => None,
        };
        let pod_logs = self.logger_widget.render_pod_logs(
            self.app.pod_logs(),
            &logs_chunk_width,
            logs_chunk_height,
        );
        let screen = Screen { selected_pod_index: self.selected_pod_index, pod_details, pod_logs };
        self.reset_logger_widget_if_required();
        (screen, UiContext { logs_chunk_height })
    }

    /// Applies one event of the input source. Returns the logs that are to
    /// be fetched, if the event asks for a fetch: the caller fetches them and
    /// hands the outcome to [`UI::complete_fetch`].
    pub fn handle_input(&mut self, input: Event<Key>, context: UiContext) -> (request: Option<
        LogsRequest,
    >)
        requires
            old(self).wf(),
        ensures
            final(self).wf(),
            final(self)@ == old(self)@.handle(input),
            request.deep_view() == old(self)@.request(input),
    {
        if !*self.app.running() {
            return None;
        }
        if let Some(action) = map_input(input) {
            match action {
                InputAction::NextPod => {
                    self.select_next_pod();
                    None
                },
                InputAction::PreviousPod => {
                    self.select_previous_pod();
                    None
                },
                InputAction::LogsUp => {
                    let line_count = self.app.get_logs_number();
                    self.logger_widget.page_up(context.logs_chunk_height, line_count);
                    None
                },
                InputAction::LogsDown => {
                    self.logger_widget.page_down(context.logs_chunk_height);
                    None
                },
                InputAction::LogsEnd => {
                    self.logger_widget.end();
                    None
                },
                _ => {
                    let context = InputContext { selected_pod_index: self.selected_pod_index };
                    self.app.take_action(action, context)
                },
            }
        } else {
            None
        }
    }

    /// Takes in the outcome of a fetch of the logs of `pod_name`. Logs that
    /// arrived replace the logs that were loaded, and the viewport is made
    /// anew for them, not scrolled. A failure changes nothing and is handed
    /// back.
    pub fn complete_fetch(&mut self, pod_name: String, outcome: Result<Vec<String>, Error>) -> (done:
        Result<(), Error>)
        requires
            old(self).wf(),
        ensures
            final(self).wf(),
            match outcome {
                Ok(logs) => done is Ok && final(self)@ == old(self)@.install(
                    pod_name@,
                    logs.deep_view(),
                ),
                Err(e) => done == Err::<(), Error>(e) && final(self)@ == old(self)@,
            },
    {
        match outcome {
            Ok(logs) => {
                self.logger_widget = LoggerWidget::new(Some(pod_name.clone()));
                self.app.install_logs(pod_name, logs);
                Ok(())
            },
            Err(e) => Err(e),
        }
    }
}

/// After `times` steps forward, with `times` no more than the number of
/// pods, the selection has advanced by `times`, past the end back to the
/// start; nothing else has changed.
proof fn lemma_walk_forward(ui: UiView, times: nat)
    requires
        ui.wf(),
        ui.selected is Some,
        times <= ui.app.pods.len(),
    ensures
        ui.select_next_times(times) == (UiView {
            selected: Some(
                if ui.selected->0 + times < ui.app.pods.len() {
                    ui.selected->0 + times
                } else {
                    (ui.selected->0 + times - ui.app.pods.len()) as nat
                },
            ),
            ..ui
        }),
    decreases times,
{
    if times > 0 {
        lemma_walk_forward(ui, (times - 1) as nat);
        let before = ui.select_next_times((times - 1) as nat);
        let index = before.selected->0;
        let count = ui.app.pods.len();
        if index + 1 < count {
            lemma_small_mod(index + 1, count);
        } else {
            lemma_mod_self_0(count as int);
        }
    }
}

/// The same backwards.
proof fn lemma_walk_backward(ui: UiView, times: nat)
    requires
        ui.wf(),
        ui.selected is Some,
        times <= ui.app.pods.len(),
    ensures
        ui.select_previous_times(times) == (UiView {
            selected: Some(
                if times <= ui.selected->0 {
                    (ui.selected->0 - times) as nat
                } else {
                    (ui.selected->0 + ui.app.pods.len() - times) as nat
                },
            ),
            ..ui
        }),
    decreases times,
{
    if times > 0 {
        lemma_walk_backward(ui, (times - 1) as nat);
    }
}

/// Selecting the next pod as many times as the listing has pods brings the
/// selection back to where it was.
pub proof fn law_select_next_cycles(ui: UiView)
    requires
        ui.wf(),
        ui.app.pods.len() > 0,
    ensures
        ui.select_next_times(ui.app.pods.len()) == ui,
{
    lemma_walk_forward(ui, ui.app.pods.len());
}

/// Selecting the previous pod as many times as the listing has pods brings
/// the selection back to where it was.
pub proof fn law_select_previous_cycles(ui: UiView)
    requires
        ui.wf(),
        ui.app.pods.len() > 0,
    ensures
        ui.select_previous_times(ui.app.pods.len()) == ui,
{
    lemma_walk_backward(ui, ui.app.pods.len());
}

/// With an empty listing no pod is selected, and selecting the next or the
/// previous pod changes nothing.
pub proof fn law_select_in_empty_listing(ui: UiView)
    requires
        ui.wf(),
        ui.app.pods.len() == 0,
    ensures
        ui.selected is None,
        ui.select_next() == ui,
        ui.select_previous() == ui,
{
}

/// Whatever was loaded and however far the viewport was scrolled: once the
/// logs of a pod have arrived, they are the logs that are loaded, under that
/// pod's name, and the viewport is made for that pod and not scrolled.
pub proof fn law_fetch_starts_afresh(ui: UiView, pod_name: Seq<char>, logs: Seq<Seq<char>>)
    ensures
        ui.install(pod_name, logs).app.pod_logs.pod_name == Some(pod_name),
        ui.install(pod_name, logs).app.pod_logs.logs == Some(logs),
        ui.install(pod_name, logs).viewport.pod_name == Some(pod_name),
        ui.install(pod_name, logs).viewport.offset == 0,
        ui.install(pod_name, logs).selected == ui.selected,
        ui.wf() ==> ui.install(pod_name, logs).wf(),
{
}

/// No step moves the selection out of the listing or the viewport past the
/// oldest line of the logs.
pub proof fn law_steps_keep_state_valid(ui: UiView, step: Step)
    requires
        ui.wf(),
    ensures
        ui.step(step).wf(),
{
    match ui.selected {
        Some(index) => {
            let count = ui.app.pods.len();
            if index + 1 < count {
                lemma_small_mod(index + 1, count);
            } else {
                lemma_mod_self_0(count as int);
            }
        },
        None => {},
    }
}

/// Whatever happens to a session from its start on: the selection lies in
/// the listing, and the viewport's offset lies between zero and the number
/// of lines that are loaded.
pub proof fn law_state_is_always_valid(app: AppView, steps: Seq<Step>)
    ensures
        UiView::initial(app).run(steps).wf(),
        0 <= UiView::initial(app).run(steps).viewport.offset <= UiView::initial(app).run(
            steps,
        ).app.pod_logs.line_count(),
    decreases steps.len(),
{
    if steps.len() > 0 {
        law_state_is_always_valid(app, steps.drop_last());
        law_steps_keep_state_valid(UiView::initial(app).run(steps.drop_last()), steps.last());
    }
}

/// Scrolling towards the newer lines changes nothing when the newest line is
/// in view, and scrolling towards the older lines changes nothing when all
/// lines are scrolled past.
pub proof fn law_scrolling_stops_at_the_ends(ui: UiView)
    requires
        ui.wf(),
    ensures
        ui.viewport.offset == 0 ==> ui.apply(InputAction::LogsDown) == ui,
        ui.viewport.offset == ui.app.pod_logs.line_count() ==> ui.apply(InputAction::LogsUp) == ui,
        ui.app.pod_logs.logs is None ==> ui.apply(InputAction::LogsUp) == ui && ui.apply(
            InputAction::LogsDown,
        ) == ui,
{
}

/// After the logs of one pod and then, whatever happened in between, the
/// logs of another have arrived, only the second pod's logs are loaded and
/// shown, from their newest line.
pub proof fn law_latest_fetch_is_shown(
    ui: UiView,
    first_pod: Seq<char>,
    first_logs: Seq<Seq<char>>,
    between: Seq<Step>,
    second_pod: Seq<char>,
    second_logs: Seq<Seq<char>>,
    width: nat,
    height: nat,
)
    ensures
        ({
            let after = ui.install(first_pod, first_logs).run(between).install(
                second_pod,
                second_logs,
            );
            &&& after.app.pod_logs.pod_name == Some(second_pod)
            &&& after.app.pod_logs.logs == Some(second_logs)
            &&& after.viewport == LoggerWidgetView::fresh(Some(second_pod))
            &&& after.refresh_viewport() == after
            &&& after.screen(width, height).pod_logs == (LogsListView {
                title: title_of(Some(second_pod)),
                items: list_items(Some(second_logs), 0, width, height),
            })
        }),
{
}

} // verus!
