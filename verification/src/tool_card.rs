//! The states of a tool card and what its header shows in each: which text, in which tone,
//! struck through or shimmering, over which background; and the collapsible search-results
//! header.
use vstd::prelude::*;
use vstd::string::*;

use crate::text::push_decimal;

verus! {

/// The state of a tool card.
#[derive(Debug, Clone, PartialEq, Eq)]
pub enum ToolCardState {
    /// The arguments are still arriving: a present-tense phrase such as "Reading file".
    Pending { verb: String },
    /// The tool is running.
    Running { title: String },
    /// The tool waits for the user's permission; `detail` asks for it.
    PermissionPending { title: String, detail: String },
    /// The tool finished.
    Completed { title: String },
    /// The tool failed, or the user refused it (`denied`).
    Error { title: String, denied: bool, detail: Option<String> },
}

impl ToolCardState {
    pub fn is_running(&self) -> (r: bool)
        ensures
            r == (*self is Running),
    {
        matches!(self, ToolCardState::Running { .. })
    }

    pub fn is_completed(&self) -> (r: bool)
        ensures
            r == (*self is Completed),
    {
        matches!(self, ToolCardState::Completed { .. })
    }

    /// The user refused the tool.
    pub fn is_denied(&self) -> (r: bool)
        ensures
            r == (*self matches ToolCardState::Error { denied: true, .. }),
    {
        matches!(self, ToolCardState::Error { denied: true, .. })
    }

    pub fn is_permission_pending(&self) -> (r: bool)
        ensures
            r == (*self is PermissionPending),
    {
        matches!(self, ToolCardState::PermissionPending { .. })
    }
}

/// The colour role of a line of text.
#[derive(Debug, Clone, Copy, PartialEq, Eq, Structural)]
pub enum TextTone {
    /// The header's main text colour.
    Main,
    /// The header's dimmer text colour.
    Sub,
    /// The error colour.
    Error,
}

/// The background of a card's header.
#[derive(Debug, Clone, Copy, PartialEq, Eq, Structural)]
pub enum HeaderBackground {
    /// The usual raised surface.
    Surface,
    /// The warning colour, while the card waits for permission.
    Warning,
}

/// A line of a card's header.
#[derive(Debug, Clone, PartialEq, Eq)]
pub struct TitleLine {
    pub text: String,
    pub tone: TextTone,
    /// The number of leading characters drawn struck through.
    pub struck_chars: usize,
    /// Drawn with a moving highlight, from the dimmer colour towards the main one.
    pub shimmer: bool,
    /// Drawn one size smaller than the main line.
    pub smaller: bool,
}

/// What a card's header shows: a main line, and a detail line below it when there is one.
#[derive(Debug, Clone, PartialEq, Eq)]
pub struct ToolCardTitle {
    pub main: TitleLine,
    pub detail: Option<TitleLine>,
}

/// A line of `text` in `tone`, with `struck` leading characters struck through.
pub open spec fn line_is(l: TitleLine, text: Seq<char>, tone: TextTone, struck: nat, shimmer: bool, smaller: bool) -> bool {
    &&& l.text@ == text
    &&& l.tone == tone
    &&& l.struck_chars == struck
    &&& l.shimmer == shimmer
    &&& l.smaller == smaller
}

/// What the header of a card in `state` shows. Pending: the phrase with "..." in the dimmer
/// colour. Running: the title, shimmering. Waiting for permission: the title in the main
/// colour over the request in the dimmer colour, smaller. Completed: the title in the main
/// colour. Failed: the title in the dimmer colour, struck through entirely when refused, over
/// the detail in the error colour, smaller, when there is one.
pub open spec fn title_spec(state: ToolCardState, t: ToolCardTitle) -> bool {
    match state {
        ToolCardState::Pending { verb } => {
            &&& line_is(t.main, verb@ + "..."@, TextTone::Sub, 0, false, false)
            &&& t.detail is None
        },
        ToolCardState::Running { title } => {
            &&& line_is(t.main, title@, TextTone::Sub, 0, true, false)
            &&& t.detail is None
        },
        ToolCardState::PermissionPending { title, detail } => {
            &&& line_is(t.main, title@, TextTone::Main, 0, false, false)
            &&& t.detail matches Some(d) && line_is(d, detail@, TextTone::Sub, 0, false, true)
        },
        ToolCardState::Completed { title } => {
            &&& line_is(t.main, title@, TextTone::Main, 0, false, false)
            &&& t.detail is None
        },
        ToolCardState::Error { title, denied, detail } => {
            &&& line_is(
                t.main,
                title@,
                TextTone::Sub,
                if denied {
                    title@.len()
                } else {
                    0
                },
                false,
                false,
            )
            &&& match detail {
                Some(dt) => t.detail matches Some(d) && line_is(d, dt@, TextTone::Error, 0, false, true),
                None => t.detail is None,
            }
        },
    }
}

fn line(text: String, tone: TextTone, struck_chars: usize, shimmer: bool, smaller: bool) -> (r: TitleLine)
    ensures
        r.text == text,
        r.tone == tone,
        r.struck_chars == struck_chars,
        r.shimmer == shimmer,
        r.smaller == smaller,
{
    TitleLine { text, tone, struck_chars, shimmer, smaller }
}

/// What the header of a card in `state` shows; see [`title_spec`].
pub fn build_title_text(state: &ToolCardState) -> (r: ToolCardTitle)
    ensures
        title_spec(*state, r),
{
    match state {
        ToolCardState::Pending { verb } => {
            let text = verb.clone().concat("...");
            ToolCardTitle { main: line(text, TextTone::Sub, 0, false, false), detail: None }
        },
        ToolCardState::Running { title } => {
            ToolCardTitle { main: line(title.clone(), TextTone::Sub, 0, true, false), detail: None }
        },
        ToolCardState::PermissionPending { title, detail } => ToolCardTitle {
            main: line(title.clone(), TextTone::Main, 0, false, false),
            detail: Some(line(detail.clone(), TextTone::Sub, 0, false, true)),
        },
        ToolCardState::Completed { title } => {
            ToolCardTitle { main: line(title.clone(), TextTone::Main, 0, false, false), detail: None }
        },
        ToolCardState::Error { title, denied, detail } => {
            let struck = if *denied {
                title.as_str().unicode_len()
            } else {
                0
            };
            let main = line(title.clone(), TextTone::Sub, struck, false, false);
            let detail_line = match detail {
                Some(d) => Some(line(d.clone(), TextTone::Error, 0, false, true)),
                None => None,
            };
            ToolCardTitle { main, detail: detail_line }
        },
    }
}

/// The background of a card's header: the warning colour while it waits for permission.
pub fn header_background(state: &ToolCardState) -> (r: HeaderBackground)
    ensures
        r == if *state is PermissionPending {
            HeaderBackground::Warning
        } else {
            HeaderBackground::Surface
        },
{
    if state.is_permission_pending() {
        HeaderBackground::Warning
    } else {
        HeaderBackground::Surface
    }
}

/// The header of a cancelled or refused search: the text in the dimmer colour, struck
/// through entirely.
pub fn terminal_header_line(text: String) -> (r: TitleLine)
    ensures
        line_is(r, text@, TextTone::Sub, text@.len(), false, false),
{
    let n = text.as_str().unicode_len();
    line(text, TextTone::Sub, n, false, false)
}

/// The header of a search still loading: the text shimmering when a highlight runs, else in
/// the main colour.
pub fn loading_header_line(text: String, shimmer: bool) -> (r: TitleLine)
    ensures
        line_is(r, text@, if shimmer { TextTone::Sub } else { TextTone::Main }, 0, shimmer, false),
{
    if shimmer {
        line(text, TextTone::Sub, 0, true, false)
    } else {
        line(text, TextTone::Main, 0, false, false)
    }
}

/// Whether a collapsible list of search results is open.
#[derive(Debug, Clone, Copy, PartialEq, Eq, Structural)]
pub struct CollapsibleSearchResultsState {
    pub is_expanded: bool,
}

impl CollapsibleSearchResultsState {
    /// A closed list.
    pub fn new() -> (r: Self)
        ensures
            !r.is_expanded,
    {
        CollapsibleSearchResultsState { is_expanded: false }
    }

    /// Opens a closed list, closes an open one.
    pub fn toggle_expanded(&mut self)
        ensures
            final(self).is_expanded == !old(self).is_expanded,
    {
        self.is_expanded = !self.is_expanded;
    }

    /// The body is shown when the list is open and there is one.
    pub fn shows_body(&self, has_body: bool) -> (r: bool)
        ensures
            r == (self.is_expanded && has_body),
    {
        self.is_expanded && has_body
    }
}

impl Default for CollapsibleSearchResultsState {
    fn default() -> (r: Self)
        ensures
            !r.is_expanded,
    {
        CollapsibleSearchResultsState::new()
    }
}

/// The label on the right of a search-results header: the count, a space, and the label.
pub fn results_count_label(results_count: usize, results_label: &str) -> (r: String)
    ensures
        r@ == crate::text::decimal(results_count as nat) + " "@ + results_label@,
{
    let mut out = String::new();
    push_decimal(&mut out, results_count);
    out.append(" ");
    out.append(results_label);
    proof {
        assert(Seq::<char>::empty() + crate::text::decimal(results_count as nat) =~= crate::text::decimal(
            results_count as nat,
        ));
    }
    out
}

} // verus!
