//! The log viewport: which pod's logs it shows, how far it is scrolled back,
//! and which lines of the logs it lists.

use crate::text::{chars_of, contains, contains_chars};
use vstd::prelude::*;

verus! {

/// How a line of a log is marked, by the first level name that it holds.
#[derive(Clone, Copy, Debug, PartialEq, Eq)]
pub enum LineStyle {
    Fatal,
    Error,
    Warning,
    Info,
    Debug,
    Plain,
}

/// One line on the screen, with its marking.
#[derive(Debug, PartialEq, Eq)]
pub struct StyledLine {
    pub text: String,
    pub style: LineStyle,
}

/// A [`StyledLine`] with its text as a sequence of characters.
pub struct StyledLineView {
    pub text: Seq<char>,
    pub style: LineStyle,
}

impl View for StyledLine {
    type V = StyledLineView;

    open spec fn view(&self) -> StyledLineView {
        StyledLineView { text: self.text@, style: self.style }
    }
}

impl DeepView for StyledLine {
    type V = StyledLineView;

    open spec fn deep_view(&self) -> StyledLineView {
        self@
    }
}

/// The list that the viewport shows: a title and the entries, the newest log
/// line first. Each entry holds the screen lines that one log line wraps to.
#[derive(Debug, PartialEq, Eq)]
pub struct LogsList {
    pub title: String,
    pub items: Vec<Vec<StyledLine>>,
}

/// A [`LogsList`] as sequences.
pub struct LogsListView {
    pub title: Seq<char>,
    pub items: Seq<Seq<StyledLineView>>,
}

impl View for LogsList {
    type V = LogsListView;

    open spec fn view(&self) -> LogsListView {
        LogsListView { title: self.title@, items: self.items.deep_view() }
    }
}

/// The lines that `textwrap::wrap` breaks `text` into at `width` columns.
/// How it breaks them is not stated here: the name only says that the lines
/// depend on the text and the width alone.
pub uninterp spec fn wrapped(text: Seq<char>, width: nat) -> Seq<Seq<char>>;

/// The marking of `line`: of the level names `FATAL`, `ERROR`, `WARN`, `INFO`
/// and `DEBUG`, the first in this order that `line` holds decides.
pub open spec fn style_of(line: Seq<char>) -> LineStyle {
    if contains(line, "FATAL"@) {
        LineStyle::Fatal
    } else if contains(line, "ERROR"@) {
        LineStyle::Error
    } else if contains(line, "WARN"@) {
        LineStyle::Warning
    } else if contains(line, "INFO"@) {
        LineStyle::Info
    } else if contains(line, "DEBUG"@) {
        LineStyle::Debug
    } else {
        LineStyle::Plain
    }
}

/// Each of `lines` with its marking.
pub open spec fn styled(lines: Seq<Seq<char>>) -> Seq<StyledLineView> {
    Seq::new(lines.len(), |i: int| StyledLineView { text: lines[i], style: style_of(lines[i]) })
}

/// The entry for one log line: the line wrapped to `width` columns, each
/// screen line marked on its own.
pub open spec fn list_item(value: Seq<char>, width: nat) -> Seq<StyledLineView> {
    styled(wrapped(value, width))
}

/// Index one past the newest line in view: the `offset` newest lines are
/// scrolled past.
pub open spec fn window_end(count: nat, offset: nat) -> nat {
    if offset >= count {
        0
    } else {
        (count - offset) as nat
    }
}

/// Index of the oldest line in view.
pub open spec fn window_start(count: nat, offset: nat, height: nat) -> nat {
    if height >= window_end(count, offset) {
        0
    } else {
        (window_end(count, offset) - height) as nat
    }
}

/// The log lines in view, the newest first: at most `height` lines, ending
/// `offset` lines before the end of `logs`.
pub open spec fn window(logs: Seq<Seq<char>>, offset: nat, height: nat) -> Seq<Seq<char>> {
    let end = window_end(logs.len(), offset);
    let start = window_start(logs.len(), offset, height);
    logs.subrange(start as int, end as int).reverse()
}

/// The title of the list.
pub open spec fn title_of(pod_name: Option<Seq<char>>) -> Seq<char> {
    match pod_name {
        Some(name) => "Logs: "@ + name,
        None => "Logs"@,
    }
}

/// The entries of the list: one for each log line in view, or, while no logs
/// are loaded, a single entry that tells how to load them.
pub open spec fn list_items(
    logs: Option<Seq<Seq<char>>>,
    offset: nat,
    width: nat,
    height: nat,
) -> Seq<Seq<StyledLineView>> {
    match logs {
        Some(lines) => {
            let shown = window(lines, offset, height);
            Seq::new(shown.len(), |i: int| list_item(shown[i], width))
        },
        None => seq![list_item("Press 'Enter' to load pod logs."@, width)],
    }
}

/// Calls `textwrap::wrap` with `width` as its options and copies each line
/// that it returns into a string of its own. Nothing is proved of the call:
/// the contract claims that what comes back is the value that `wrapped`
/// names, and so the same for the same text and width.
#[verifier::external_body]
fn wrap(text: &str, width: usize) -> (lines: Vec<String>)
    ensures
        lines.deep_view() == wrapped(text@, width as nat),
{
    textwrap::wrap(text, width).into_iter().map(|line| line.into_owned()).collect()
}

/// Marks a line by the level name that it holds.
pub fn choose_style(log_line: &str) -> (style: LineStyle)
    ensures
        style == style_of(log_line@),
{
    let line = chars_of(log_line);
    if contains_chars(&line, &chars_of("FATAL")) {
        LineStyle::Fatal
    } else if contains_chars(&line, &chars_of("ERROR")) {
        LineStyle::Error
    } else if contains_chars(&line, &chars_of("WARN")) {
        LineStyle::Warning
    } else if contains_chars(&line, &chars_of("INFO")) {
        LineStyle::Info
    } else if contains_chars(&line, &chars_of("DEBUG")) {
        LineStyle::Debug
    } else {
        LineStyle::Plain
    }
}

/// Marks each of `lines`.
pub fn style_lines(lines: Vec<String>) -> (item: Vec<StyledLine>)
    ensures
        item.deep_view() == styled(lines.deep_view()),
{
    let ghost texts = lines.deep_view();
    let mut item: Vec<StyledLine> = Vec::new();
    for text in it: lines
        invariant
            it.seq() == lines@,
            texts == lines.deep_view(),
            item.len() == it.index(),
            forall|i: int|
                0 <= i < item.len() ==> (#[trigger] item@[i])@ == (StyledLineView {
                    text: texts[i],
                    style: style_of(texts[i]),
                }),
    {
        let style = choose_style(text.as_str());
        item.push(StyledLine { text, style });
    }
    assert(item.deep_view() =~= styled(texts));
    item
}

/// The list entry for one log line, wrapped to `chunk_width` columns.
pub fn default_list_item(value: &str, chunk_width: &u16) -> (item: Vec<StyledLine>)
    ensures
        item.deep_view() == list_item(value@, *chunk_width as nat),
{
    style_lines(wrap(value, *chunk_width as usize))
}

/// The log viewport. It remembers the pod whose logs it shows and how many
/// of the newest lines are scrolled past.
pub struct LoggerWidget {
    pod_name: Option<String>,
    offset: usize,
}

/// A [`LoggerWidget`] as mathematical values.
pub struct LoggerWidgetView {
    pub pod_name: Option<Seq<char>>,
    pub offset: nat,
}

impl LoggerWidgetView {
    /// A viewport for `pod_name`, showing the newest lines.
    pub open spec fn fresh(pod_name: Option<Seq<char>>) -> LoggerWidgetView {
        LoggerWidgetView { pod_name, offset: 0 }
    }

    /// One line further back, but never past the oldest of `line_count` lines.
    pub open spec fn page_up(self, line_count: nat) -> LoggerWidgetView {
        LoggerWidgetView {
            offset: if self.offset < line_count {
                self.offset + 1
            } else {
                self.offset
            },
            ..self
        }
    }

    /// One line forward, but never past the newest line.
    pub open spec fn page_down(self) -> LoggerWidgetView {
        LoggerWidgetView {
            offset: if self.offset > 0 {
                (self.offset - 1) as nat
            } else {
                0
            },
            ..self
        }
    }

    /// Back to the newest lines.
    pub open spec fn end(self) -> LoggerWidgetView {
        LoggerWidgetView { offset: 0, ..self }
    }

    /// Whether the viewport was made for another pod than `actual`.
    pub open spec fn is_stale(self, actual: Option<Seq<char>>) -> bool {
        self.pod_name != actual
    }

    /// What the viewport lists of `logs` in a panel of `width` columns and
    /// `height` lines.
    pub open spec fn render(
        self,
        logs: Option<Seq<Seq<char>>>,
        width: nat,
        height: nat,
    ) -> LogsListView {
        LogsListView {
            title: title_of(self.pod_name),
            items: list_items(logs, self.offset, width, height),
        }
    }
}

impl View for LoggerWidget {
    type V = LoggerWidgetView;

    closed spec fn view(&self) -> LoggerWidgetView {
        LoggerWidgetView { pod_name: self.pod_name.deep_view(), offset: self.offset as nat }
    }
}

impl LoggerWidget {
    /// A viewport for the logs of `pod_name`, not scrolled.
    pub fn new(pod_name: Option<String>) -> (widget: LoggerWidget)
        ensures
            widget@ == LoggerWidgetView::fresh(pod_name.deep_view()),
    {
        LoggerWidget { pod_name, offset: 0 }
    }

    /// The pod whose logs the viewport was made for.
    pub fn pod_name(&self) -> (name: Option<&String>)
        ensures
            name.deep_view() == self@.pod_name,
    {
        self.pod_name.as_ref()
    }

    /// How many of the newest lines are scrolled past.
    pub fn offset(&self) -> (offset: usize)
        ensures
            offset == self@.offset,
    {
        self.offset
    }

    /// Tells whether the logs now loaded belong to another pod than the one
    /// this viewport was made for, so that it has to be made anew.
    pub fn should_update_widget(&self, actual_logged_pod_name: Option<String>) -> (stale: bool)
        ensures
            stale == self@.is_stale(actual_logged_pod_name.deep_view()),
    {
        match (&self.pod_name, &actual_logged_pod_name) {
            (Some(mine), Some(actual)) => !(*mine == *actual),
            (None, None) => false,
            _ => true,
        }
    }

    /// Scrolls one line towards the older lines, whatever the height of the
    /// panel. At the oldest of the `line_count` lines nothing changes.
    pub fn page_up(&mut self, _chunk_height: u16, line_count: usize)
        ensures
            final(self)@ == old(self)@.page_up(line_count as nat),
    {
        if self.offset < line_count {
            self.offset += 1
        }
    }

    /// Scrolls one line towards the newer lines, whatever the height of the
    /// panel. At the newest line nothing changes.
    pub fn page_down(&mut self, _chunk_height: u16)
        ensures
            final(self)@ == old(self)@.page_down(),
    {
        if self.offset != 0 {
            self.offset -= 1
        }
    }

    /// Scrolls to the newest lines.
    pub fn end(&mut self)
        ensures
            final(self)@ == old(self)@.end(),
    {
        self.offset = 0;
    }

    /// Lists the part of the logs in view for a panel of `chunk_width` columns
    /// and `chunk_height` lines, the newest line first.
    pub fn render_pod_logs(
        &self,
        logs_opt: Option<&Vec<String>>,
        chunk_width: &u16,
        chunk_height: u16,
    ) -> (list: LogsList)
        ensures
            list@ == self@.render(
                logs_opt.deep_view(),
                *chunk_width as nat,
                chunk_height as nat,
            ),
    {
        let title = match &self.pod_name {
            Some(pod_name) => {
                let mut title = "Logs: ".to_owned();
                title.append(pod_name.as_str());
                title
            },
            None => "Logs".to_owned(),
        };
        let mut items: Vec<Vec<StyledLine>> = Vec::new();
        match logs_opt {
            Some(logs) => {
                let length: usize = logs.len();
                let end: usize = if self.offset >= length {
                    0
                } else {
                    length - self.offset
                };
                let start: usize = if chunk_height as usize >= end {
                    0
                } else {
                    end - chunk_height as usize
                };
                let ghost lines = logs.deep_view();
                let ghost shown = window(lines, self.offset as nat, chunk_height as nat);
                let mut i: usize = end;
                while i > start
                    invariant
                        start <= i <= end <= length,
                        length == logs.len(),
                        lines == logs.deep_view(),
                        shown.len() == end - start,
                        forall|k: int| 0 <= k < end - start ==> shown[k] == lines[end - 1 - k],
                        items.len() == end - i,
                        forall|k: int|
                            0 <= k < items.len() ==> (#[trigger] items@[k]).deep_view()
                                == list_item(shown[k], *chunk_width as nat),
                    decreases i,
                {
                    i -= 1;
                    items.push(default_list_item(logs[i].as_str(), chunk_width));
                }
                assert(items.deep_view() =~= list_items(
                    Some(lines),
                    self.offset as nat,
                    *chunk_width as nat,
                    chunk_height as nat,
                ));
            },
            None => {
                items.push(default_list_item("Press 'Enter' to load pod logs.", chunk_width));
                assert(items.deep_view() =~= list_items(
                    None,
                    self.offset as nat,
                    *chunk_width as nat,
                    chunk_height as nat,
                ));
            },
        }
        LogsList { title, items }
    }
}

} // verus!
