//! Matching an inbound interaction against the command tree.
//!
//! The resolver walks the tree depth-first: at each level it looks for the
//! first sibling whose name (or registered context-menu name) equals the
//! current token and, when the current option list opens a nested
//! subcommand level, descends into that sibling's children with the nested
//! name and options. A sibling whose subtree yields no match is passed
//! over, so the first sibling in declaration order that completes a full
//! match wins. The matched leaf, the option list belonging to it, and the
//! names of the ancestors traversed are returned; no match at any level is
//! an unknown interaction.

use vstd::prelude::*;
use crate::interaction::{is_sub_value, sub_payload, ResolvedOption, ResolvedValue};
use crate::tree::{name_matches, CommandNode};

verus! {

/// A successful resolution: the leaf node, the option list that belongs to
/// it, and the names of the ancestors traversed, outermost first.
pub ghost struct Resolution {
    /// The matched leaf node.
    pub node: CommandNode,
    /// The options left for the leaf itself.
    pub residual: Seq<ResolvedOption>,
    /// The names of the ancestors walked through, outermost first.
    pub parents: Seq<Seq<char>>,
}

/// The index of the first option that opens a nested subcommand level.
pub open spec fn find_sub_index(opts: Seq<ResolvedOption>) -> Option<int>
    decreases opts.len(),
{
    if opts.len() == 0 {
        None
    } else if is_sub_value(opts[0].value) {
        Some(0)
    } else {
        match find_sub_index(opts.drop_first()) {
            None => None,
            Some(i) => Some(i + 1),
        }
    }
}

/// What `find_sub_index` finds: an index in range, holding a subcommand
/// value, with no earlier one.
pub proof fn lemma_find_sub_index(opts: Seq<ResolvedOption>)
    ensures
        match find_sub_index(opts) {
            Some(i) => 0 <= i < opts.len() && is_sub_value(opts[i].value) && forall|j: int|
                0 <= j < i ==> !is_sub_value(opts[j].value),
            None => forall|j: int| 0 <= j < opts.len() ==> !is_sub_value(opts[j].value),
        },
    decreases opts.len(),
{
    if opts.len() > 0 && !is_sub_value(opts[0].value) {
        let rest = opts.drop_first();
        lemma_find_sub_index(rest);
        assert(forall|j: int| 0 <= j < rest.len() ==> rest[j] == opts[j + 1]);
        match find_sub_index(rest) {
            Some(i) => {
                assert forall|j: int| 0 <= j < i + 1 implies !is_sub_value(opts[j].value) by {
                    if j > 0 {
                        assert(opts[j] == rest[j - 1]);
                    }
                }
            },
            None => {
                assert forall|j: int| 0 <= j < opts.len() implies !is_sub_value(opts[j].value) by {
                    if j > 0 {
                        assert(opts[j] == rest[j - 1]);
                    }
                }
            },
        }
    }
}

/// A subcommand's nested option list sits strictly inside the option list
/// that carries it, which is what grounds the resolver's termination.
proof fn lemma_sub_payload_smaller(opts: Seq<ResolvedOption>, i: int)
    requires
        0 <= i < opts.len(),
        is_sub_value(opts[i].value),
    ensures
        decreases_to!(opts => sub_payload(opts[i].value)),
{
    assert(decreases_to!(opts => opts[i]));
    match opts[i].value {
        ResolvedValue::SubCommand(_) => {
            assert(decreases_to!(opts[i] => opts[i].value->SubCommand_0));
        },
        ResolvedValue::SubCommandGroup(_) => {
            assert(decreases_to!(opts[i] => opts[i].value->SubCommandGroup_0));
        },
        _ => {},
    }
}

/// The resolver's search, starting at sibling `k` of the sibling list
/// `cmds`: the first sibling from `k` on that matches `name` and whose
/// subtree completes the match, descending one option level per tree level.
pub open spec fn search_spec(
    cmds: Seq<CommandNode>,
    k: int,
    name: Seq<char>,
    opts: Seq<ResolvedOption>,
    parents: Seq<Seq<char>>,
) -> Option<Resolution>
    decreases opts, cmds.len() - k,
        when 0 <= k
        via search_spec_decreases
{
    if k >= cmds.len() {
        None
    } else {
        let attempt = if name_matches(cmds[k], name) {
            match find_sub_index(opts) {
                None => Some(Resolution { node: cmds[k], residual: opts, parents }),
                Some(i) => search_spec(
                    cmds[k].subcommands@,
                    0,
                    opts[i].name@,
                    sub_payload(opts[i].value),
                    parents.push(cmds[k].name@),
                ),
            }
        } else {
            None
        };
        if attempt is Some {
            attempt
        } else {
            search_spec(cmds, k + 1, name, opts, parents)
        }
    }
}

#[via_fn]
proof fn search_spec_decreases(
    cmds: Seq<CommandNode>,
    k: int,
    name: Seq<char>,
    opts: Seq<ResolvedOption>,
    parents: Seq<Seq<char>>,
) {
    lemma_find_sub_index(opts);
    if 0 <= k < cmds.len() && find_sub_index(opts) is Some {
        lemma_sub_payload_smaller(opts, find_sub_index(opts)->Some_0);
    }
}

/// The whole resolution of one interaction level against a sibling list.
pub open spec fn resolve_spec(
    cmds: Seq<CommandNode>,
    name: Seq<char>,
    opts: Seq<ResolvedOption>,
    parents: Seq<Seq<char>>,
) -> Option<Resolution> {
    search_spec(cmds, 0, name, opts, parents)
}

/// The number of nested subcommand levels an option tree opens: how many
/// descents the resolver makes before it reaches a leaf's own options.
pub open spec fn sub_depth(opts: Seq<ResolvedOption>) -> nat
    decreases opts,
        via sub_depth_decreases
{
    match find_sub_index(opts) {
        None => 0,
        Some(i) => 1 + sub_depth(sub_payload(opts[i].value)),
    }
}

#[via_fn]
proof fn sub_depth_decreases(opts: Seq<ResolvedOption>) {
    lemma_find_sub_index(opts);
    if find_sub_index(opts) is Some {
        lemma_sub_payload_smaller(opts, find_sub_index(opts)->Some_0);
    }
}

/// A successful resolution consumes every nested subcommand level, no more
/// and no fewer: the ancestor chain grows by exactly the nesting depth of
/// the interaction's option tree, and the residual options open no further
/// level.
pub proof fn lemma_resolution_depth(
    cmds: Seq<CommandNode>,
    k: int,
    name: Seq<char>,
    opts: Seq<ResolvedOption>,
    parents: Seq<Seq<char>>,
)
    requires
        0 <= k,
        search_spec(cmds, k, name, opts, parents) is Some,
    ensures
        ({
            let r = search_spec(cmds, k, name, opts, parents)->Some_0;
            r.parents.len() == parents.len() + sub_depth(opts) && find_sub_index(r.residual)
                is None
        }),
    decreases opts, cmds.len() - k,
{
    lemma_find_sub_index(opts);
    if k < cmds.len() {
        let attempt = if name_matches(cmds[k], name) {
            match find_sub_index(opts) {
                None => Some(Resolution { node: cmds[k], residual: opts, parents }),
                Some(i) => search_spec(
                    cmds[k].subcommands@,
                    0,
                    opts[i].name@,
                    sub_payload(opts[i].value),
                    parents.push(cmds[k].name@),
                ),
            }
        } else {
            None
        };
        if attempt is Some {
            if name_matches(cmds[k], name) && find_sub_index(opts) is Some {
                let i = find_sub_index(opts)->Some_0;
                lemma_sub_payload_smaller(opts, i);
                lemma_resolution_depth(
                    cmds[k].subcommands@,
                    0,
                    opts[i].name@,
                    sub_payload(opts[i].value),
                    parents.push(cmds[k].name@),
                );
            }
        } else {
            lemma_resolution_depth(cmds, k + 1, name, opts, parents);
        }
    }
}

/// Whether a node answers to a prefix token, by its primary name or one of
/// its aliases.
pub open spec fn prefix_name_matches(node: CommandNode, token: Seq<char>) -> bool {
    node.name@ == token || exists|i: int|
        0 <= i < node.aliases@.len() && node.aliases@[i]@ == token
}

/// The prefix-style search, starting at sibling `k`: the first sibling
/// from `k` on whose name or alias equals the leading token and whose
/// subtree completes the match. A deeper match against the next token
/// wins over stopping at the matched node; when no child matches, the
/// matched node is the leaf and the remaining tokens are its arguments.
pub open spec fn prefix_search_spec(
    cmds: Seq<CommandNode>,
    k: int,
    tokens: Seq<Seq<char>>,
    parents: Seq<Seq<char>>,
) -> Option<PrefixResolution>
    decreases tokens.len(), cmds.len() - k,
        when 0 <= k && tokens.len() > 0
{
    if k >= cmds.len() {
        None
    } else {
        let attempt = if prefix_name_matches(cmds[k], tokens[0]) {
            let rest = tokens.drop_first();
            let deeper = if rest.len() > 0 {
                prefix_search_spec(
                    cmds[k].subcommands@,
                    0,
                    rest,
                    parents.push(cmds[k].name@),
                )
            } else {
                None
            };
            if deeper is Some {
                deeper
            } else {
                Some(PrefixResolution { node: cmds[k], residual: rest, parents })
            }
        } else {
            None
        };
        if attempt is Some {
            attempt
        } else {
            prefix_search_spec(cmds, k + 1, tokens, parents)
        }
    }
}

/// A successful prefix-style resolution: the leaf node, the tokens left
/// over as its arguments, and the names of the ancestors traversed.
pub ghost struct PrefixResolution {
    /// The matched leaf node.
    pub node: CommandNode,
    /// The tokens left for the leaf's own arguments.
    pub residual: Seq<Seq<char>>,
    /// The names of the ancestors walked through, outermost first.
    pub parents: Seq<Seq<char>>,
}

/// Whether the node answers to the token, by name or alias.
fn node_answers_to_prefix(node: &CommandNode, token: &String) -> (r: bool)
    ensures
        r == prefix_name_matches(*node, token@),
{
    if node.name == *token {
        return true;
    }
    let n = node.aliases.len();
    let mut i: usize = 0;
    while i < n
        invariant
            n == node.aliases@.len(),
            i <= n,
            forall|j: int| 0 <= j < i ==> node.aliases@[j]@ != token@,
        decreases n - i,
    {
        if node.aliases[i] == *token {
            return true;
        }
        i += 1;
    }
    false
}

/// Walks the command tree for a prefix-style invocation already split
/// into tokens: the first command whose name or alias equals the leading
/// token, descending into subcommands as long as the next token matches
/// one, wins; the tokens left over belong to the matched leaf. Case and
/// trim rules are the token producer's business. On no match,
/// `parent_names` is left as it was.
pub fn find_matching_prefix_command<'a, 'b>(
    tokens: &'b [String],
    commands: &'a Vec<CommandNode>,
    parent_names: &mut Vec<String>,
) -> (r: Option<(&'a CommandNode, &'b [String])>)
    requires
        tokens@.len() > 0,
    ensures
        match prefix_search_spec(
            commands@,
            0,
            tokens@.map_values(|t: String| t@),
            old(parent_names).deep_view(),
        ) {
            None => r is None && final(parent_names)@ == old(parent_names)@,
            Some(resolution) => r matches Some((node, residual)) && *node == resolution.node
                && residual.deep_view() == resolution.residual
                && final(parent_names).deep_view() == resolution.parents,
        },
    decreases tokens@.len(),
{
    let n = commands.len();
    let ghost ghost_tokens = tokens@.map_values(|t: String| t@);
    let mut k: usize = 0;
    while k < n
        invariant
            n == commands@.len(),
            k <= n,
            tokens@.len() > 0,
            ghost_tokens == tokens@.map_values(|t: String| t@),
            parent_names@ == old(parent_names)@,
            parent_names.deep_view() == old(parent_names).deep_view(),
            prefix_search_spec(commands@, k as int, ghost_tokens, old(parent_names).deep_view())
                == prefix_search_spec(commands@, 0, ghost_tokens, old(parent_names).deep_view()),
        decreases n - k,
    {
        let cmd = &commands[k];
        if node_answers_to_prefix(cmd, &tokens[0]) {
            let rest = vstd::slice::slice_subrange(tokens, 1, tokens.len());
            proof {
                assert(rest@ =~= tokens@.drop_first());
                assert(rest@.map_values(|t: String| t@) =~= ghost_tokens.drop_first());
            }
            if rest.len() > 0 {
                parent_names.push(cmd.name.clone());
                assert(parent_names.deep_view() =~= old(parent_names).deep_view().push(
                    commands@[k as int].name@,
                ));
                let deep = find_matching_prefix_command(rest, &cmd.subcommands, parent_names);
                match deep {
                    Some(found) => {
                        return Some(found);
                    },
                    None => {
                        parent_names.pop();
                        assert(parent_names@ =~= old(parent_names)@);
                        assert(parent_names.deep_view() =~= old(parent_names).deep_view());
                    },
                }
            }
            proof {
                assert(rest.deep_view() =~= ghost_tokens.drop_first());
            }
            return Some((cmd, rest));
        }
        k += 1;
    }
    None
}

/// `find_sub_index` finds the index of the first subcommand value, when one
/// exists.
proof fn lemma_find_sub_index_at(opts: Seq<ResolvedOption>, i: int)
    requires
        0 <= i < opts.len(),
        is_sub_value(opts[i].value),
        forall|j: int| 0 <= j < i ==> !is_sub_value(opts[j].value),
    ensures
        find_sub_index(opts) == Some(i),
    decreases opts.len(),
{
    if i > 0 {
        let rest = opts.drop_first();
        assert(forall|j: int| 0 <= j < rest.len() ==> rest[j] == opts[j + 1]);
        assert forall|j: int| 0 <= j < i - 1 implies !is_sub_value(rest[j].value) by {
            assert(rest[j] == opts[j + 1]);
        }
        lemma_find_sub_index_at(rest, i - 1);
    }
}

/// `find_sub_index` finds nothing exactly when no option holds a subcommand
/// value.
proof fn lemma_find_sub_index_absent(opts: Seq<ResolvedOption>)
    requires
        forall|j: int| 0 <= j < opts.len() ==> !is_sub_value(opts[j].value),
    ensures
        find_sub_index(opts) is None,
    decreases opts.len(),
{
    if opts.len() > 0 {
        let rest = opts.drop_first();
        assert(forall|j: int| 0 <= j < rest.len() ==> rest[j] == opts[j + 1]);
        lemma_find_sub_index_absent(rest);
    }
}

/// Finds the first option that opens a nested subcommand level, as the
/// resolver's descent step requires.
pub fn find_sub_option(opts: &Vec<ResolvedOption>) -> (r: Option<usize>)
    ensures
        match r {
            Some(i) => find_sub_index(opts@) == Some(i as int),
            None => find_sub_index(opts@) is None,
        },
{
    let n = opts.len();
    let mut i: usize = 0;
    while i < n
        invariant
            n == opts@.len(),
            i <= n,
            forall|j: int| 0 <= j < i ==> !is_sub_value(opts@[j].value),
        decreases n - i,
    {
        match &opts[i].value {
            ResolvedValue::SubCommand(_) => {
                proof {
                    lemma_find_sub_index_at(opts@, i as int);
                }
                return Some(i);
            },
            ResolvedValue::SubCommandGroup(_) => {
                proof {
                    lemma_find_sub_index_at(opts@, i as int);
                }
                return Some(i);
            },
            _ => {},
        }
        i += 1;
    }
    proof {
        lemma_find_sub_index_absent(opts@);
    }
    None
}

/// Whether the node answers to `name`, by primary name or context-menu
/// name.
fn node_answers_to(node: &CommandNode, name: &String) -> (r: bool)
    ensures
        r == name_matches(*node, name@),
{
    if node.name == *name {
        true
    } else {
        match &node.context_menu_name {
            Some(n) => *n == *name,
            None => false,
        }
    }
}

/// Walks the command tree for the first command that completes a match of
/// `interaction_name` and the nested subcommand levels of
/// `interaction_options`, pushing the names of the ancestors traversed onto
/// `parent_names`. Returns the matched leaf together with the option list
/// that belongs to it; on no match `parent_names` is left as it was.
pub fn find_matching_command<'a, 'b>(
    interaction_name: &String,
    interaction_options: &'b Vec<ResolvedOption>,
    commands: &'a Vec<CommandNode>,
    parent_names: &mut Vec<String>,
) -> (r: Option<(&'a CommandNode, &'b Vec<ResolvedOption>)>)
    ensures
        match resolve_spec(
            commands@,
            interaction_name@,
            interaction_options@,
            old(parent_names).deep_view(),
        ) {
            None => r is None && final(parent_names)@ == old(parent_names)@,
            Some(resolution) => r matches Some((node, residual)) && *node == resolution.node
                && residual@ == resolution.residual && final(parent_names).deep_view()
                == resolution.parents,
        },
    decreases interaction_options@,
{
    let n = commands.len();
    let mut k: usize = 0;
    while k < n
        invariant
            n == commands@.len(),
            k <= n,
            parent_names@ == old(parent_names)@,
            parent_names.deep_view() == old(parent_names).deep_view(),
            search_spec(
                commands@,
                k as int,
                interaction_name@,
                interaction_options@,
                old(parent_names).deep_view(),
            ) == resolve_spec(
                commands@,
                interaction_name@,
                interaction_options@,
                old(parent_names).deep_view(),
            ),
        decreases n - k,
    {
        let cmd = &commands[k];
        if node_answers_to(cmd, interaction_name) {
            match find_sub_option(interaction_options) {
                None => {
                    return Some((cmd, interaction_options));
                },
                Some(i) => {
                    proof {
                        lemma_find_sub_index(interaction_options@);
                    }
                    let sub_opts = match &interaction_options[i].value {
                        ResolvedValue::SubCommand(o) => o,
                        ResolvedValue::SubCommandGroup(o) => o,
                        _ => unreached(),
                    };
                    parent_names.push(cmd.name.clone());
                    assert(parent_names.deep_view() =~= old(parent_names).deep_view().push(
                        commands@[k as int].name@,
                    ));
                    proof {
                        lemma_sub_payload_smaller(interaction_options@, i as int);
                        assert(decreases_to!(interaction_options@ => sub_opts@));
                    }
                    let deep = find_matching_command(
                        &interaction_options[i].name,
                        sub_opts,
                        &cmd.subcommands,
                        parent_names,
                    );
                    match deep {
                        Some(found) => {
                            return Some(found);
                        },
                        None => {
                            parent_names.pop();
                            assert(parent_names@ =~= old(parent_names)@);
                            assert(parent_names.deep_view() =~= old(parent_names).deep_view());
                        },
                    }
                },
            }
        }
        k += 1;
    }
    None
}

} // verus!
