//! Collapsible sections of an agent block: reasoning and orchestration messages, which show
//! while they stream and may fold away when they finish, unless the user has toggled them.
use vstd::prelude::*;
use vstd::string::*;

verus! {

/// Whether a collapsible section is folded, and if not, whether it has finished and whether
/// it follows new output.
#[derive(Debug, Clone, Copy, PartialEq, Eq, Structural)]
pub enum CollapsibleExpansionState {
    Collapsed,
    Expanded { is_finished: bool, scroll_pinned_to_bottom: bool },
}

/// How reasoning is shown.
#[derive(Debug, Clone, Copy, PartialEq, Eq, Structural)]
pub enum ThinkingDisplayMode {
    /// Shown while it streams, folded when it finishes.
    ShowAndCollapse,
    /// Always shown.
    AlwaysShow,
    /// Always folded.
    AlwaysCollapse,
}

impl Default for ThinkingDisplayMode {
    /// Reasoning shows while it streams and folds when it finishes.
    fn default() -> (r: Self)
        ensures
            r == ThinkingDisplayMode::ShowAndCollapse,
    {
        ThinkingDisplayMode::ShowAndCollapse
    }
}

/// How messages between orchestrated agents are shown.
#[derive(Debug, Clone, Copy, PartialEq, Eq, Structural)]
pub enum OrchestrationMessageDisplayMode {
    ShowAndCollapse,
    AlwaysShow,
    AlwaysCollapse,
}

/// The state of one collapsible section.
#[derive(Debug, Clone, Copy, PartialEq, Eq, Structural)]
pub struct CollapsibleElementState {
    pub expansion_state: CollapsibleExpansionState,
    /// Whether the user has folded or unfolded the section by hand.
    pub toggled_by_user: bool,
}

/// A section that is shown while it streams and follows new output.
pub open spec fn streaming() -> CollapsibleExpansionState {
    CollapsibleExpansionState::Expanded { is_finished: false, scroll_pinned_to_bottom: true }
}

/// A section shown after it finished, no longer following output.
pub open spec fn finished_expanded() -> CollapsibleExpansionState {
    CollapsibleExpansionState::Expanded { is_finished: true, scroll_pinned_to_bottom: false }
}

/// What a section that finished shows: a section the user toggled keeps its fold, only
/// marked finished; otherwise the mode decides whether it folds.
pub open spec fn finish_spec(state: CollapsibleElementState, collapse: bool) -> CollapsibleExpansionState {
    if state.toggled_by_user {
        match state.expansion_state {
            CollapsibleExpansionState::Collapsed => CollapsibleExpansionState::Collapsed,
            CollapsibleExpansionState::Expanded { .. } => finished_expanded(),
        }
    } else if collapse {
        CollapsibleExpansionState::Collapsed
    } else {
        finished_expanded()
    }
}

impl CollapsibleElementState {
    /// A streaming section, shown and following new output.
    pub fn new() -> (r: Self)
        ensures
            r.expansion_state == streaming(),
            !r.toggled_by_user,
    {
        CollapsibleElementState {
            expansion_state: CollapsibleExpansionState::Expanded {
                is_finished: false,
                scroll_pinned_to_bottom: true,
            },
            toggled_by_user: false,
        }
    }

    /// A section that starts folded.
    pub fn collapsed() -> (r: Self)
        ensures
            r.expansion_state == CollapsibleExpansionState::Collapsed,
            !r.toggled_by_user,
    {
        CollapsibleElementState {
            expansion_state: CollapsibleExpansionState::Collapsed,
            toggled_by_user: false,
        }
    }

    /// The user folds a shown section, or shows a folded one, which then follows new output;
    /// either way the section is marked as toggled by the user.
    pub fn toggle_expansion(&mut self)
        ensures
            final(self).toggled_by_user,
            final(self).expansion_state == match old(self).expansion_state {
                CollapsibleExpansionState::Collapsed => streaming(),
                CollapsibleExpansionState::Expanded { .. } => CollapsibleExpansionState::Collapsed,
            },
    {
        self.expansion_state = match self.expansion_state {
            CollapsibleExpansionState::Collapsed => CollapsibleExpansionState::Expanded {
                is_finished: false,
                scroll_pinned_to_bottom: true,
            },
            CollapsibleExpansionState::Expanded { .. } => CollapsibleExpansionState::Collapsed,
        };
        self.toggled_by_user = true;
    }

    fn finish(&mut self, collapse: bool)
        ensures
            final(self).expansion_state == finish_spec(*old(self), collapse),
            final(self).toggled_by_user == old(self).toggled_by_user,
    {
        if self.toggled_by_user {
            if let CollapsibleExpansionState::Expanded { .. } = self.expansion_state {
                self.expansion_state = CollapsibleExpansionState::Expanded {
                    is_finished: true,
                    scroll_pinned_to_bottom: false,
                };
            }
        } else if collapse {
            self.expansion_state = CollapsibleExpansionState::Collapsed;
        } else {
            self.expansion_state = CollapsibleExpansionState::Expanded {
                is_finished: true,
                scroll_pinned_to_bottom: false,
            };
        }
    }

    /// Reasoning finished: it folds unless reasoning is always shown, or the user toggled it.
    pub fn finish_reasoning(&mut self, mode: ThinkingDisplayMode)
        ensures
            final(self).expansion_state == finish_spec(*old(self), mode != ThinkingDisplayMode::AlwaysShow),
            final(self).toggled_by_user == old(self).toggled_by_user,
    {
        let collapse = match mode {
            ThinkingDisplayMode::AlwaysShow => false,
            _ => true,
        };
        self.finish(collapse);
    }

    /// An orchestration message finished: it folds unless such messages are always shown, or
    /// the user toggled it.
    pub fn finish_orchestration_message(&mut self, mode: OrchestrationMessageDisplayMode)
        ensures
            final(self).expansion_state == finish_spec(
                *old(self),
                mode != OrchestrationMessageDisplayMode::AlwaysShow,
            ),
            final(self).toggled_by_user == old(self).toggled_by_user,
    {
        let collapse = match mode {
            OrchestrationMessageDisplayMode::AlwaysShow => false,
            _ => true,
        };
        self.finish(collapse);
    }
}

impl Default for CollapsibleElementState {
    fn default() -> (r: Self)
        ensures
            r.expansion_state == streaming(),
            !r.toggled_by_user,
    {
        CollapsibleElementState::new()
    }
}

/// The initial state of an orchestration message: folded when such messages are always
/// folded, otherwise shown and following new output.
pub fn default_collapsible_state_for_orchestration_message(mode: OrchestrationMessageDisplayMode) -> (r:
    CollapsibleElementState)
    ensures
        !r.toggled_by_user,
        r.expansion_state == if mode == OrchestrationMessageDisplayMode::AlwaysCollapse {
            CollapsibleExpansionState::Collapsed
        } else {
            streaming()
        },
{
    match mode {
        OrchestrationMessageDisplayMode::AlwaysCollapse => CollapsibleElementState::collapsed(),
        _ => CollapsibleElementState::new(),
    }
}

/// The kinds of agent action that matter for collapsible sections.
#[derive(Debug, Clone, PartialEq, Eq)]
pub enum AIAgentActionType {
    SendMessageToAgent { addresses: Vec<String>, subject: String, message: String },
    OpenCodeReview,
    /// Any other action.
    Other,
}

/// The initial state of an action's section: a message sent to another agent starts as an
/// orchestration message does; other actions have no collapsible section.
pub fn default_collapsible_state_for_orchestration_action(
    action: &AIAgentActionType,
    mode: OrchestrationMessageDisplayMode,
) -> (r: Option<CollapsibleElementState>)
    ensures
        match action {
            AIAgentActionType::SendMessageToAgent { .. } => r matches Some(s) && !s.toggled_by_user
                && s.expansion_state == if mode == OrchestrationMessageDisplayMode::AlwaysCollapse {
                CollapsibleExpansionState::Collapsed
            } else {
                streaming()
            },
            _ => r is None,
        },
{
    match action {
        AIAgentActionType::SendMessageToAgent { .. } => Some(
            default_collapsible_state_for_orchestration_message(mode),
        ),
        _ => None,
    }
}

/// The id of the collapsible section of a received message: `received-message:` and the
/// message id.
pub fn received_message_collapsible_id(message_id: &str) -> (r: String)
    ensures
        r@ == "received-message:"@ + message_id@,
{
    let mut id = String::from_str("received-message:");
    id.append(message_id);
    id
}

/// A section that the user has not toggled and that folds on finishing ends folded, whatever
/// it showed before; one that the user folded stays folded whatever the mode.
pub proof fn lemma_finish_respects_the_user(state: CollapsibleElementState, collapse: bool)
    ensures
        !state.toggled_by_user && collapse ==> finish_spec(state, collapse)
            == CollapsibleExpansionState::Collapsed,
        state.toggled_by_user && state.expansion_state == CollapsibleExpansionState::Collapsed
            ==> finish_spec(state, collapse) == CollapsibleExpansionState::Collapsed,
        finish_spec(state, collapse) != streaming(),
{
}

} // verus!
