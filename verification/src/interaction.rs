//! The shape of an inbound interaction event.
//!
//! An interaction carries a kind, a top-level name, an ordered option tree
//! (options may nest further options through subcommand values) and, for
//! context-menu kinds, a resolved click target. The gateway collaborator
//! hands these in as plain values; remote entities (users, messages) are
//! identified here by their numeric ids.

use vstd::prelude::*;

verus! {

/// What kind of remote invocation an interaction is.
#[derive(Clone, Copy, PartialEq, Eq, Structural, Debug)]
pub enum InteractionKind {
    /// A structured "slash" command invocation.
    ChatInput,
    /// A context-menu invocation targeting a user.
    User,
    /// A context-menu invocation targeting a message.
    Message,
    /// An interaction kind this library does not know (a future protocol
    /// kind); dispatch treats it as a forward-compatible no-op.
    Unknown,
}

/// The entity a context-menu interaction was clicked on.
#[derive(Clone, Copy, PartialEq, Eq, Structural, Debug)]
pub enum ResolvedTarget {
    /// A user, by id.
    User(u64),
    /// A message, by id.
    Message(u64),
}

/// The value carried by one interaction option.
pub enum ResolvedValue {
    /// A scalar argument value, carried through uninterpreted.
    Scalar(String),
    /// A nested subcommand invocation with its own option list.
    SubCommand(Vec<ResolvedOption>),
    /// A nested subcommand group with its own option list.
    SubCommandGroup(Vec<ResolvedOption>),
    /// A partial value the user is currently typing, during an autocomplete
    /// request. `focused` is set by the remote side on the single option the
    /// user's cursor is in.
    Autocomplete {
        /// The partial input typed so far.
        partial: String,
        /// Whether the remote side flags this option as the focused one.
        focused: bool,
    },
}

/// One named option of an interaction.
pub struct ResolvedOption {
    /// The option's name.
    pub name: String,
    /// The option's value, possibly a nested option tree.
    pub value: ResolvedValue,
}

/// One inbound interaction event, as handed in by the gateway collaborator.
pub struct Interaction {
    /// The top-level command name the remote side matched.
    pub name: String,
    /// The kind of invocation.
    pub kind: InteractionKind,
    /// The ordered option tree.
    pub options: Vec<ResolvedOption>,
    /// The resolved click target, for context-menu kinds.
    pub target: Option<ResolvedTarget>,
}

/// Whether an option value opens a nested subcommand level.
pub open spec fn is_sub_value(v: ResolvedValue) -> bool {
    v is SubCommand || v is SubCommandGroup
}

/// The option list nested inside a subcommand or subcommand-group value.
pub open spec fn sub_payload(v: ResolvedValue) -> Seq<ResolvedOption> {
    match v {
        ResolvedValue::SubCommand(o) => o@,
        ResolvedValue::SubCommandGroup(o) => o@,
        _ => Seq::empty(),
    }
}

} // verus!
