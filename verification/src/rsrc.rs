use vstd::prelude::*;
use vstd::string::StringExecFns;

use crate::error::RsrcError;
use crate::text::{get_tab_str_from_level, lines_model, spec_dec, spec_tab, u64_to_string};

verus! {

/// The hard bound on resource-tree nesting accepted by the traversal.
///
/// Resource trees are read from untrusted files, whose directory offsets may
/// form cycles or nest absurdly; every traversal in this crate refuses to
/// descend past this depth.
pub const MAX_RESOURCE_DEPTH: u32 = 10000;

/// One node of the resource-directory tree: either a named directory with an
/// ordered sequence of children, or a named data entry with a declared size.
pub enum ResourceNode {
    Directory { name: String, children: Vec<ResourceNode> },
    Data { name: String, size: u64 },
}

/// Total declared size, in bytes, of all data entries in the subtree.
pub open spec fn spec_node_total(n: ResourceNode) -> int
    decreases n,
{
    match n {
        ResourceNode::Data { name, size } => size as int,
        ResourceNode::Directory { name, children } => spec_forest_total(children@),
    }
}

/// Total declared size, in bytes, of all data entries under any node of the
/// sequence.
pub open spec fn spec_forest_total(cs: Seq<ResourceNode>) -> int
    decreases cs,
{
    if cs.len() == 0 {
        0
    } else {
        spec_forest_total(cs.drop_last()) + spec_node_total(cs.last())
    }
}

/// Whether a traversal that reaches this node at the given nesting level
/// stays within [`MAX_RESOURCE_DEPTH`] for the whole subtree.
pub open spec fn spec_node_fits(n: ResourceNode, level: int) -> bool
    decreases n,
{
    match n {
        ResourceNode::Data { name, size } => level <= MAX_RESOURCE_DEPTH as int,
        ResourceNode::Directory { name, children } => level <= MAX_RESOURCE_DEPTH as int
            && spec_forest_fits(children@, level + 1),
    }
}

/// Whether every node of the sequence, visited at the given level, stays
/// within the depth limit.
pub open spec fn spec_forest_fits(cs: Seq<ResourceNode>, level: int) -> bool
    decreases cs,
{
    if cs.len() == 0 {
        true
    } else {
        spec_forest_fits(cs.drop_last(), level) && spec_node_fits(cs.last(), level)
    }
}

/// Nesting depth of a node: 0 for a data entry, one more than the deepest
/// child for a directory.
pub open spec fn spec_node_depth(n: ResourceNode) -> nat
    decreases n,
{
    match n {
        ResourceNode::Data { name, size } => 0,
        ResourceNode::Directory { name, children } => 1 + spec_forest_depth(children@),
    }
}

/// Largest nesting depth of any node in the sequence.
pub open spec fn spec_forest_depth(cs: Seq<ResourceNode>) -> nat
    decreases cs,
{
    if cs.len() == 0 {
        0
    } else {
        let rest = spec_forest_depth(cs.drop_last());
        let last = spec_node_depth(cs.last());
        if last > rest {
            last
        } else {
            rest
        }
    }
}

/// Number of data entries in the subtree.
pub open spec fn spec_node_leaves(n: ResourceNode) -> nat
    decreases n,
{
    match n {
        ResourceNode::Data { name, size } => 1,
        ResourceNode::Directory { name, children } => spec_forest_leaves(children@),
    }
}

/// Number of data entries under any node of the sequence.
pub open spec fn spec_forest_leaves(cs: Seq<ResourceNode>) -> nat
    decreases cs,
{
    if cs.len() == 0 {
        0
    } else {
        spec_forest_leaves(cs.drop_last()) + spec_node_leaves(cs.last())
    }
}

/// Declared sizes are unsigned, so every subtree total is non-negative.
pub proof fn lemma_node_total_nonneg(n: ResourceNode)
    ensures
        spec_node_total(n) >= 0,
    decreases n,
{
    match n {
        ResourceNode::Data { name, size } => {},
        ResourceNode::Directory { name, children } => {
            lemma_forest_total_nonneg(children@);
        },
    }
}

/// Declared sizes are unsigned, so every forest total is non-negative.
pub proof fn lemma_forest_total_nonneg(cs: Seq<ResourceNode>)
    ensures
        spec_forest_total(cs) >= 0,
    decreases cs,
{
    if cs.len() > 0 {
        lemma_forest_total_nonneg(cs.drop_last());
        lemma_node_total_nonneg(cs.last());
    }
}

/// A prefix of a forest never accounts for more than the whole forest.
pub proof fn lemma_forest_total_prefix(cs: Seq<ResourceNode>, i: int)
    requires
        0 <= i <= cs.len(),
    ensures
        spec_forest_total(cs.take(i)) <= spec_forest_total(cs),
    decreases cs.len() - i,
{
    if i == cs.len() {
        assert(cs.take(i) =~= cs);
    } else {
        lemma_forest_total_prefix(cs, i + 1);
        assert(cs.take(i + 1).drop_last() =~= cs.take(i));
        assert(cs.take(i + 1).last() == cs[i]);
        lemma_node_total_nonneg(cs[i]);
    }
}

/// Each single node accounts for no more than the forest that contains it.
pub proof fn lemma_forest_total_index(cs: Seq<ResourceNode>, i: int)
    requires
        0 <= i < cs.len(),
    ensures
        spec_node_total(cs[i]) <= spec_forest_total(cs),
    decreases cs.len(),
{
    if i == cs.len() - 1 {
        lemma_forest_total_nonneg(cs.drop_last());
    } else {
        lemma_forest_total_index(cs.drop_last(), i);
        lemma_node_total_nonneg(cs.last());
    }
}

/// A forest fits within the depth limit only if each of its nodes does.
pub proof fn lemma_forest_fits_index(cs: Seq<ResourceNode>, level: int, i: int)
    requires
        0 <= i < cs.len(),
        spec_forest_fits(cs, level),
    ensures
        spec_node_fits(cs[i], level),
    decreases cs.len(),
{
    if i < cs.len() - 1 {
        lemma_forest_fits_index(cs.drop_last(), level, i);
    }
}

/// Accounting is additive: the total of two forests laid end to end is the
/// sum of their totals. Together with the definition of a directory's total
/// this is the recursive additivity of the accountant: a directory's total
/// is exactly the sum of its immediate children's totals.
pub proof fn lemma_forest_total_concat(a: Seq<ResourceNode>, b: Seq<ResourceNode>)
    ensures
        spec_forest_total(a + b) == spec_forest_total(a) + spec_forest_total(b),
    decreases b.len(),
{
    if b.len() == 0 {
        assert(a + b =~= a);
    } else {
        lemma_forest_total_concat(a, b.drop_last());
        assert((a + b).drop_last() =~= a + b.drop_last());
        assert((a + b).last() == b.last());
    }
}

/// A directory's total is the total of its children, taken in order.
pub proof fn lemma_directory_total_additive(n: ResourceNode)
    requires
        n is Directory,
    ensures
        spec_node_total(n) == spec_forest_total(n->Directory_children@),
        n->Directory_children@.len() > 0 ==> spec_node_total(n) == spec_forest_total(
            n->Directory_children@.drop_last(),
        ) + spec_node_total(n->Directory_children@.last()),
{
}

/// A subtree with no data entries accounts for nothing.
pub proof fn lemma_node_no_leaves_total_zero(n: ResourceNode)
    requires
        spec_node_leaves(n) == 0,
    ensures
        spec_node_total(n) == 0,
    decreases n,
{
    match n {
        ResourceNode::Data { name, size } => {},
        ResourceNode::Directory { name, children } => {
            lemma_forest_no_leaves_total_zero(children@);
        },
    }
}

/// A forest with no data entries accounts for nothing.
pub proof fn lemma_forest_no_leaves_total_zero(cs: Seq<ResourceNode>)
    requires
        spec_forest_leaves(cs) == 0,
    ensures
        spec_forest_total(cs) == 0,
    decreases cs,
{
    if cs.len() > 0 {
        lemma_forest_no_leaves_total_zero(cs.drop_last());
        lemma_node_no_leaves_total_zero(cs.last());
    }
}

/// Any tree that nests no deeper than the traversal limit fits: on such
/// trees the traversal never reports a depth failure.
pub proof fn lemma_node_depth_bounded_fits(n: ResourceNode, level: int)
    requires
        0 <= level,
        level + spec_node_depth(n) <= MAX_RESOURCE_DEPTH as int,
    ensures
        spec_node_fits(n, level),
    decreases n,
{
    match n {
        ResourceNode::Data { name, size } => {},
        ResourceNode::Directory { name, children } => {
            lemma_forest_depth_bounded_fits(children@, level + 1);
        },
    }
}

/// Any forest whose nodes nest no deeper than the traversal limit fits.
pub proof fn lemma_forest_depth_bounded_fits(cs: Seq<ResourceNode>, level: int)
    requires
        0 <= level,
        level + spec_forest_depth(cs) <= MAX_RESOURCE_DEPTH as int,
    ensures
        spec_forest_fits(cs, level),
    decreases cs,
{
    if cs.len() > 0 {
        lemma_forest_depth_bounded_fits(cs.drop_last(), level);
        lemma_node_depth_bounded_fits(cs.last(), level);
    }
}

/// Sums the declared sizes of all data entries reachable from the node,
/// visiting it at the given nesting level.
///
/// Succeeds exactly when the subtree stays within the depth limit and the
/// total fits in a 64-bit counter; each failure is reported as its own error.
pub fn node_total(n: &ResourceNode, level: u32) -> (r: Result<u64, RsrcError>)
    ensures
        (r matches Ok(v)) <==> (spec_node_fits(*n, level as int) && spec_node_total(*n)
            <= u64::MAX),
        r matches Ok(v) ==> v as int == spec_node_total(*n),
        r == Err::<u64, RsrcError>(RsrcError::DepthLimitExceeded) ==> !spec_node_fits(
            *n,
            level as int,
        ),
        r == Err::<u64, RsrcError>(RsrcError::SizeOverflow) ==> spec_node_total(*n) > u64::MAX,
    decreases *n,
{
    if level > MAX_RESOURCE_DEPTH {
        return Err(RsrcError::DepthLimitExceeded);
    }
    match n {
        ResourceNode::Data { name, size } => Ok(*size),
        ResourceNode::Directory { name, children } => forest_total(children, level + 1),
    }
}

/// Sums the declared sizes of all data entries under any node of the
/// sequence, visiting the nodes at the given nesting level.
pub fn forest_total(nodes: &Vec<ResourceNode>, level: u32) -> (r: Result<u64, RsrcError>)
    ensures
        (r matches Ok(v)) <==> (spec_forest_fits(nodes@, level as int) && spec_forest_total(nodes@)
            <= u64::MAX),
        r matches Ok(v) ==> v as int == spec_forest_total(nodes@),
        r == Err::<u64, RsrcError>(RsrcError::DepthLimitExceeded) ==> !spec_forest_fits(
            nodes@,
            level as int,
        ),
        r == Err::<u64, RsrcError>(RsrcError::SizeOverflow) ==> spec_forest_total(nodes@)
            > u64::MAX,
    decreases nodes@,
{
    let ghost cs = nodes@;
    let mut total: u64 = 0;
    let mut i: usize = 0;
    while i < nodes.len()
        invariant
            cs == nodes@,
            i <= cs.len(),
            total as int == spec_forest_total(cs.take(i as int)),
            spec_forest_fits(cs.take(i as int), level as int),
        decreases cs.len() - i,
    {
        let child = &nodes[i];
        match node_total(child, level) {
            Ok(v) => {
                match total.checked_add(v) {
                    Some(t) => {
                        total = t;
                    },
                    None => {
                        proof {
                            assert(cs.take(i + 1).drop_last() =~= cs.take(i as int));
                            assert(cs.take(i + 1).last() == cs[i as int]);
                            lemma_forest_total_prefix(cs, i + 1);
                        }
                        return Err(RsrcError::SizeOverflow);
                    },
                }
            },
            Err(e) => {
                proof {
                    if !spec_node_fits(cs[i as int], level as int) {
                        if spec_forest_fits(cs, level as int) {
                            lemma_forest_fits_index(cs, level as int, i as int);
                        }
                    }
                    if spec_node_total(cs[i as int]) > u64::MAX {
                        lemma_forest_total_index(cs, i as int);
                    }
                }
                return Err(e);
            },
        }
        proof {
            assert(cs.take(i + 1).drop_last() =~= cs.take(i as int));
            assert(cs.take(i + 1).last() == cs[i as int]);
        }
        i += 1;
    }
    proof {
        assert(cs.take(cs.len() as int) =~= cs);
    }
    Ok(total)
}

/// Total declared size of all data entries reachable from the root entries
/// of a resource tree: the resource accountant's sum.
pub fn resource_total(nodes: &Vec<ResourceNode>) -> (r: Result<u64, RsrcError>)
    ensures
        (r matches Ok(v)) <==> (spec_forest_fits(nodes@, 0) && spec_forest_total(nodes@)
            <= u64::MAX),
        r matches Ok(v) ==> v as int == spec_forest_total(nodes@),
        r == Err::<u64, RsrcError>(RsrcError::DepthLimitExceeded) ==> !spec_forest_fits(nodes@, 0),
        r == Err::<u64, RsrcError>(RsrcError::SizeOverflow) ==> spec_forest_total(nodes@)
            > u64::MAX,
{
    forest_total(nodes, 0)
}

/// The indented line that renders one node, without its children: directories
/// as `  d : name`, data entries as `  e: 'name', with size: n bytes`, with
/// two spaces of indentation per nesting level.
pub open spec fn spec_node_line(n: ResourceNode, level: int) -> Seq<char> {
    match n {
        ResourceNode::Directory { name, children } => spec_tab(level) + " d : "@ + name@,
        ResourceNode::Data { name, size } => spec_tab(level) + " e: '"@ + name@
            + "', with size: "@ + spec_dec(size as nat) + " bytes"@,
    }
}

/// The lines of the indented rendering of a subtree, in depth-first order:
/// each node's own line, then its children one level deeper.
pub open spec fn spec_render_node(n: ResourceNode, level: int) -> Seq<Seq<char>>
    decreases n,
{
    match n {
        ResourceNode::Directory { name, children } => seq![spec_node_line(n, level)]
            + spec_render_forest(children@, level + 1),
        ResourceNode::Data { name, size } => seq![spec_node_line(n, level)],
    }
}

/// The lines of the indented rendering of a forest, nodes in order.
pub open spec fn spec_render_forest(cs: Seq<ResourceNode>, level: int) -> Seq<Seq<char>>
    decreases cs,
{
    if cs.len() == 0 {
        Seq::empty()
    } else {
        spec_render_forest(cs.drop_last(), level) + spec_render_node(cs.last(), level)
    }
}

/// Decides whether the subtree, visited at the given level, stays within the
/// depth limit.
pub fn node_fits(n: &ResourceNode, level: u32) -> (r: bool)
    ensures
        r == spec_node_fits(*n, level as int),
    decreases *n,
{
    if level > MAX_RESOURCE_DEPTH {
        return false;
    }
    match n {
        ResourceNode::Data { name, size } => true,
        ResourceNode::Directory { name, children } => forest_fits(children, level + 1),
    }
}

/// Decides whether every node of the sequence, visited at the given level,
/// stays within the depth limit.
pub fn forest_fits(nodes: &Vec<ResourceNode>, level: u32) -> (r: bool)
    ensures
        r == spec_forest_fits(nodes@, level as int),
    decreases nodes@,
{
    let ghost cs = nodes@;
    let mut i: usize = 0;
    while i < nodes.len()
        invariant
            cs == nodes@,
            i <= cs.len(),
            spec_forest_fits(cs.take(i as int), level as int),
        decreases cs.len() - i,
    {
        if !node_fits(&nodes[i], level) {
            proof {
                if spec_forest_fits(cs, level as int) {
                    lemma_forest_fits_index(cs, level as int, i as int);
                }
            }
            return false;
        }
        proof {
            assert(cs.take(i + 1).drop_last() =~= cs.take(i as int));
            assert(cs.take(i + 1).last() == cs[i as int]);
        }
        i += 1;
    }
    proof {
        assert(cs.take(cs.len() as int) =~= cs);
    }
    true
}

/// Builds the one line that renders this node, without its children.
fn render_node_line(n: &ResourceNode, level: u32) -> (r: String)
    requires
        level <= MAX_RESOURCE_DEPTH,
    ensures
        r@ == spec_node_line(*n, level as int),
{
    let mut line = get_tab_str_from_level(level as i32);
    match n {
        ResourceNode::Directory { name, children } => {
            line.append(" d : ");
            line.append(name.as_str());
        },
        ResourceNode::Data { name, size } => {
            line.append(" e: '");
            line.append(name.as_str());
            line.append("', with size: ");
            let rendered_size = u64_to_string(*size);
            line.append(rendered_size.as_str());
            line.append(" bytes");
        },
    }
    line
}

/// Appends the indented rendering of the subtree to `out`.
fn render_node_into(n: &ResourceNode, level: u32, out: &mut Vec<String>)
    requires
        spec_node_fits(*n, level as int),
    ensures
        lines_model(final(out)@) == lines_model(old(out)@) + spec_render_node(*n, level as int),
    decreases *n,
{
    let line = render_node_line(n, level);
    out.push(line);
    match n {
        ResourceNode::Data { name, size } => {
            proof {
                assert(lines_model(out@) =~= lines_model(old(out)@) + spec_render_node(
                    *n,
                    level as int,
                ));
            }
        },
        ResourceNode::Directory { name, children } => {
            render_forest_into(children, level + 1, out);
            proof {
                assert(lines_model(out@) =~= lines_model(old(out)@) + spec_render_node(
                    *n,
                    level as int,
                ));
            }
        },
    }
}

/// Appends the indented rendering of each node of the forest to `out`.
fn render_forest_into(nodes: &Vec<ResourceNode>, level: u32, out: &mut Vec<String>)
    requires
        spec_forest_fits(nodes@, level as int),
    ensures
        lines_model(final(out)@) == lines_model(old(out)@) + spec_render_forest(nodes@, level as int),
    decreases nodes@,
{
    let ghost cs = nodes@;
    let mut i: usize = 0;
    proof {
        assert(lines_model(out@) =~= lines_model(out@) + spec_render_forest(
            cs.take(0),
            level as int,
        ));
    }
    while i < nodes.len()
        invariant
            cs == nodes@,
            i <= cs.len(),
            spec_forest_fits(cs, level as int),
            lines_model(out@) == lines_model(old(out)@) + spec_render_forest(
                cs.take(i as int),
                level as int,
            ),
        decreases cs.len() - i,
    {
        proof {
            lemma_forest_fits_index(cs, level as int, i as int);
        }
        render_node_into(&nodes[i], level, out);
        proof {
            assert(cs.take(i + 1).drop_last() =~= cs.take(i as int));
            assert(cs.take(i + 1).last() == cs[i as int]);
        }
        i += 1;
    }
    proof {
        assert(cs.take(cs.len() as int) =~= cs);
    }
}

/// Renders the resource tree as indented lines, one node per line, children
/// one level deeper than their directory.
///
/// Refuses trees that nest past the traversal depth limit.
pub fn render_tree(nodes: &Vec<ResourceNode>) -> (r: Result<Vec<String>, RsrcError>)
    ensures
        (r matches Ok(lines)) <==> spec_forest_fits(nodes@, 0),
        r matches Ok(lines) ==> lines_model(lines@) == spec_render_forest(nodes@, 0),
        r matches Err(e) ==> e == RsrcError::DepthLimitExceeded,
{
    if !forest_fits(nodes, 0) {
        return Err(RsrcError::DepthLimitExceeded);
    }
    let mut out: Vec<String> = Vec::new();
    render_forest_into(nodes, 0, &mut out);
    proof {
        assert(lines_model(out@) =~= spec_render_forest(nodes@, 0));
    }
    Ok(out)
}

} // verus!
