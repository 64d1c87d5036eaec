//! The statically declared command tree.
//!
//! Each node carries a name, optional aliases and context-menu name, typed
//! parameters, child nodes, and flags for the actions it can execute. The
//! tree is built once at startup and never changes afterwards; the resolver
//! walks it read-only. Handlers and suggestion generators are owned by the
//! embedding; a node records only which of them are declared.

use vstd::prelude::*;
use crate::cooldown::CooldownConfig;

verus! {

/// One declared parameter of a command.
pub struct Parameter {
    /// The parameter's name, matched against interaction option names.
    pub name: String,
    /// Whether the remote schema marks the parameter as required.
    pub required: bool,
    /// Whether the embedding declares a suggestion generator for this
    /// parameter. Autocomplete requests for a parameter without one are
    /// valid and answered with a no-op.
    pub has_autocomplete: bool,
}

/// Which kind of context-menu handler a command declares.
#[derive(Clone, Copy, PartialEq, Eq, Structural, Debug)]
pub enum ContextMenuActionKind {
    /// The handler takes the targeted user.
    User,
    /// The handler takes the targeted message.
    Message,
}

/// One node of the command tree.
pub struct CommandNode {
    /// The registration id of the command, keying its cooldown slots.
    pub id: u64,
    /// The primary name, matched against interaction names and subcommand
    /// option names.
    pub name: String,
    /// Alternative names accepted for prefix-style invocations.
    pub aliases: Vec<String>,
    /// The name under which the command appears in a context menu, if any.
    pub context_menu_name: Option<String>,
    /// The declared parameters, in declaration order.
    pub parameters: Vec<Parameter>,
    /// The child commands, in declaration order.
    pub subcommands: Vec<CommandNode>,
    /// Whether the embedding declares a slash handler for this node.
    pub has_slash_action: bool,
    /// The kind of context-menu handler the embedding declares, if any.
    pub context_menu_action: Option<ContextMenuActionKind>,
    /// Whether replies to this command default to ephemeral.
    pub ephemeral: bool,
    /// The cooldown durations configured for this command.
    pub cooldown: CooldownConfig,
}

/// Whether a node answers to `name`, either by its primary name or by its
/// registered context-menu name.
pub open spec fn name_matches(node: CommandNode, name: Seq<char>) -> bool {
    node.name@ == name || (node.context_menu_name matches Some(n) && n@ == name)
}

} // verus!
