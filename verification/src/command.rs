//! Recorded commands and the plan that replays them on a render pass.

use vstd::prelude::*;
use core::ops::Range;
use std::collections::{HashMap, HashSet};
use crate::ids::{BufferId, RenderPipelineId};

verus! {

broadcast use vstd::std_specs::hash::group_hash_axioms;

/// Number of vertex-buffer slots that one `BindVertexBuffers` command carries.
pub const MAX_VERTEX_BINDINGS: u32 = 8;

/// Parameters of `vkCmdBeginRendering` that the replay needs: the clear color
/// of the first color attachment, as the bit patterns of its four `f32`
/// components (red, green, blue, alpha).
#[derive(Debug, Clone, Copy, PartialEq, Eq)]
pub struct BeginRenderingParameters {
    pub clear: [u32; 4],
}

/// Parameters of `vkCmdDraw`: the vertex range and the instance range.
#[derive(Debug, PartialEq, Eq)]
pub struct DrawParameters {
    pub vertices: Range<u32>,
    pub instances: Range<u32>,
}

/// Parameters of `vkCmdBindVertexBuffers`: `count` bindings starting at slot
/// `first_binding`; slot `i` takes `buffers[i]` at byte offset `offsets[i]`.
#[derive(Debug, PartialEq, Eq)]
pub struct BindVertexBuffersParameters {
    pub first_binding: u32,
    pub count: u32,
    pub buffers: [BufferId; 8],
    pub offsets: [u64; 8],
}

/// A command recorded into a command buffer.
#[derive(Debug, PartialEq, Eq)]
pub enum Command {
    Begin,
    End,
    BeginRendering(BeginRenderingParameters),
    EndRendering,
    BindRenderPipeline(RenderPipelineId),
    BindVertexBuffers(BindVertexBuffersParameters),
    Draw(DrawParameters),
}

/// One step of a replay on the device.
#[derive(Debug, PartialEq, Eq)]
pub enum RenderAction {
    /// Begin a render pass on the current surface texture, clearing it to the
    /// color whose components have these bit patterns.
    BeginRenderPass([u32; 4]),
    /// Bind a registered render pipeline.
    SetPipeline(RenderPipelineId),
    /// Bind a registered buffer to a vertex-buffer slot from a byte offset on.
    SetVertexBuffer { slot: u32, buffer: BufferId, offset: u64 },
    /// Draw the vertex and instance ranges.
    Draw(DrawParameters),
    /// End the render pass begun last.
    EndRenderPass,
}

/// Unit type that gathers the replay functions.
pub struct CommandEmulator;

/// The bindings of a vertex-buffer command stay inside its two arrays, and
/// the end of its slot range does not overflow.
pub open spec fn vertex_bindings_in_range(p: BindVertexBuffersParameters) -> bool {
    p.count == 0 || p.first_binding + p.count <= MAX_VERTEX_BINDINGS
}

/// What the binding of slot `slot` does: bind the buffer when it is known.
pub open spec fn vertex_binding_action(
    p: BindVertexBuffersParameters,
    buffers: Set<u64>,
    slot: int,
) -> Seq<RenderAction> {
    if buffers.contains(p.buffers@[slot].raw) {
        seq![RenderAction::SetVertexBuffer {
            slot: slot as u32,
            buffer: p.buffers@[slot],
            offset: p.offsets@[slot],
        }]
    } else {
        seq![]
    }
}

/// The actions of the first `n` bindings of a vertex-buffer command.
pub open spec fn vertex_binding_actions_upto(
    p: BindVertexBuffersParameters,
    buffers: Set<u64>,
    n: int,
) -> Seq<RenderAction>
    decreases n,
{
    if n <= 0 {
        seq![]
    } else {
        vertex_binding_actions_upto(p, buffers, n - 1) + vertex_binding_action(
            p,
            buffers,
            p.first_binding + n - 1,
        )
    }
}

/// The actions of all bindings of a vertex-buffer command, in slot order.
pub open spec fn vertex_binding_actions(
    p: BindVertexBuffersParameters,
    buffers: Set<u64>,
) -> Seq<RenderAction> {
    vertex_binding_actions_upto(p, buffers, p.count as int)
}

/// The slot that a vertex-buffer binding action binds (0 for other actions).
pub open spec fn bound_slot(a: RenderAction) -> int {
    match a {
        RenderAction::SetVertexBuffer { slot, .. } => slot as int,
        _ => 0,
    }
}

/// `a` binds slot `slot` to the buffer and offset that `p` gives that slot.
pub open spec fn binds_slot(a: RenderAction, p: BindVertexBuffersParameters, slot: int) -> bool {
    a == RenderAction::SetVertexBuffer {
        slot: slot as u32,
        buffer: p.buffers@[slot],
        offset: p.offsets@[slot],
    }
}

/// The slots from `p.first_binding` up to (not including) `end` whose buffer
/// is registered.
pub open spec fn registered_slot(p: BindVertexBuffersParameters, buffers: Set<u64>, s: int, end: int) -> bool {
    p.first_binding <= s < end && buffers.contains(p.buffers@[s].raw)
}

proof fn lemma_vertex_bindings_upto(p: BindVertexBuffersParameters, buffers: Set<u64>, n: int)
    requires
        vertex_bindings_in_range(p),
        0 <= n <= p.count,
    ensures
        ({
            let acts = vertex_binding_actions_upto(p, buffers, n);
            let end = p.first_binding + n;
            &&& forall|i: int|
                #![trigger acts[i]]
                0 <= i < acts.len() ==> registered_slot(p, buffers, bound_slot(acts[i]), end)
                    && binds_slot(acts[i], p, bound_slot(acts[i]))
            &&& forall|i: int, j: int|
                0 <= i < j < acts.len() ==> bound_slot(#[trigger] acts[i]) < bound_slot(
                    #[trigger] acts[j],
                )
            &&& forall|s: int|
                #[trigger] registered_slot(p, buffers, s, end) ==> exists|i: int|
                    0 <= i < acts.len() && #[trigger] binds_slot(acts[i], p, s)
        }),
    decreases n,
{
    if n > 0 {
        lemma_vertex_bindings_upto(p, buffers, n - 1);
        let prev = vertex_binding_actions_upto(p, buffers, n - 1);
        let s0 = p.first_binding + n - 1;
        let step = vertex_binding_action(p, buffers, s0);
        let acts = vertex_binding_actions_upto(p, buffers, n);
        assert(acts == prev + step);
        assert forall|i: int| 0 <= i < prev.len() implies acts[i] == prev[i] by {}
        if buffers.contains(p.buffers@[s0].raw) {
            assert(acts[prev.len() as int] == step[0]);
            assert(binds_slot(acts[prev.len() as int], p, s0));
            assert(bound_slot(acts[prev.len() as int]) == s0);
        } else {
            assert(acts =~= prev);
        }
        assert forall|i: int| #![trigger acts[i]] 0 <= i < acts.len() implies registered_slot(
            p,
            buffers,
            bound_slot(acts[i]),
            p.first_binding + n,
        ) && binds_slot(acts[i], p, bound_slot(acts[i])) by {
            if i < prev.len() {
                assert(prev[i] == acts[i]);
            }
        }
        assert forall|i: int, j: int| 0 <= i < j < acts.len() implies bound_slot(
            #[trigger] acts[i],
        ) < bound_slot(#[trigger] acts[j]) by {
            if j < prev.len() {
                assert(bound_slot(prev[i]) < bound_slot(prev[j]));
            } else {
                assert(registered_slot(p, buffers, bound_slot(prev[i]), p.first_binding + n - 1));
            }
        }
        assert forall|s: int| #[trigger] registered_slot(p, buffers, s, p.first_binding + n) implies exists|i: int|
            0 <= i < acts.len() && #[trigger] binds_slot(acts[i], p, s) by {
            if s == s0 {
                assert(binds_slot(acts[prev.len() as int], p, s));
            } else {
                assert(registered_slot(p, buffers, s, p.first_binding + n - 1));
                let i = choose|i: int| 0 <= i < prev.len() && #[trigger] binds_slot(prev[i], p, s);
                assert(binds_slot(acts[i], p, s));
            }
        }
    }
}

/// A vertex-buffer command binds, in increasing slot order, exactly the
/// slots of its range whose buffer is registered, each to the buffer and
/// offset that the command gives that slot.
pub proof fn lemma_vertex_bindings_bind_registered_slots(p: BindVertexBuffersParameters, buffers: Set<u64>)
    requires
        vertex_bindings_in_range(p),
    ensures
        ({
            let acts = vertex_binding_actions(p, buffers);
            let end = p.first_binding + p.count;
            &&& forall|i: int|
                #![trigger acts[i]]
                0 <= i < acts.len() ==> registered_slot(p, buffers, bound_slot(acts[i]), end)
                    && binds_slot(acts[i], p, bound_slot(acts[i]))
            &&& forall|i: int, j: int|
                0 <= i < j < acts.len() ==> bound_slot(#[trigger] acts[i]) < bound_slot(
                    #[trigger] acts[j],
                )
            &&& forall|s: int|
                #[trigger] registered_slot(p, buffers, s, end) ==> exists|i: int|
                    0 <= i < acts.len() && #[trigger] binds_slot(acts[i], p, s)
        }),
{
    lemma_vertex_bindings_upto(p, buffers, p.count as int);
}

/// The commands can be replayed from the given mode (inside a rendering
/// block or not): no draw-time command comes outside a rendering block, no
/// block begins inside another, and every vertex-buffer command that is
/// drawn (a surface texture is there, `has_target`) stays in range. A block
/// begun without a surface texture is skipped, draw-time commands and all.
pub open spec fn replay_supported(cmds: Seq<Command>, in_block: bool, has_target: bool) -> bool
    decreases cmds.len(),
{
    if cmds.len() == 0 {
        true
    } else {
        let rest = cmds.drop_first();
        match cmds[0] {
            Command::Begin | Command::End => replay_supported(rest, in_block, has_target),
            Command::EndRendering => replay_supported(rest, false, has_target),
            Command::BeginRendering(_) => !in_block && replay_supported(rest, true, has_target),
            Command::BindRenderPipeline(_) | Command::Draw(_) => in_block && replay_supported(
                rest,
                in_block,
                has_target,
            ),
            Command::BindVertexBuffers(p) => in_block && (has_target ==> vertex_bindings_in_range(
                p,
            )) && replay_supported(rest, in_block, has_target),
        }
    }
}

/// The actions that replaying `cmds` performs, starting inside a rendering
/// block or not. Each block (from `BeginRendering` to `EndRendering` or to
/// the end of the commands) is drawn as one render pass when a surface
/// texture is there to draw on (`has_target`), and skipped otherwise;
/// `Begin` and `End` do nothing; pipelines and buffers that are not
/// registered are skipped.
pub open spec fn replay(
    cmds: Seq<Command>,
    in_block: bool,
    has_target: bool,
    pipelines: Set<u64>,
    buffers: Set<u64>,
) -> Seq<RenderAction>
    decreases cmds.len(),
{
    let drawing = in_block && has_target;
    if cmds.len() == 0 {
        if drawing {
            seq![RenderAction::EndRenderPass]
        } else {
            seq![]
        }
    } else {
        let rest = cmds.drop_first();
        match cmds[0] {
            Command::Begin | Command::End => replay(rest, in_block, has_target, pipelines, buffers),
            Command::EndRendering => (if drawing {
                seq![RenderAction::EndRenderPass]
            } else {
                seq![]
            }) + replay(rest, false, has_target, pipelines, buffers),
            Command::BeginRendering(p) => (if !in_block && has_target {
                seq![RenderAction::BeginRenderPass(p.clear)]
            } else {
                seq![]
            }) + replay(rest, true, has_target, pipelines, buffers),
            Command::BindRenderPipeline(id) => (if drawing && pipelines.contains(id.raw) {
                seq![RenderAction::SetPipeline(id)]
            } else {
                seq![]
            }) + replay(rest, in_block, has_target, pipelines, buffers),
            Command::BindVertexBuffers(p) => (if drawing {
                vertex_binding_actions(p, buffers)
            } else {
                seq![]
            }) + replay(rest, in_block, has_target, pipelines, buffers),
            Command::Draw(d) => (if drawing {
                seq![RenderAction::Draw(d)]
            } else {
                seq![]
            }) + replay(rest, in_block, has_target, pipelines, buffers),
        }
    }
}

/// The commands can be replayed on a render pass that is already begun, up
/// to the first `EndRendering`: no render pass begins before it, and every
/// vertex-buffer command before it stays in range.
pub open spec fn pass_body_supported(cmds: Seq<Command>) -> bool
    decreases cmds.len(),
{
    if cmds.len() == 0 {
        true
    } else {
        let rest = cmds.drop_first();
        match cmds[0] {
            Command::EndRendering => true,
            Command::BeginRendering(_) => false,
            Command::BindVertexBuffers(p) => vertex_bindings_in_range(p) && pass_body_supported(rest),
            _ => pass_body_supported(rest),
        }
    }
}

/// The actions that replaying `cmds` on a render pass that is already begun
/// performs, up to the first `EndRendering`.
pub open spec fn pass_body(cmds: Seq<Command>, pipelines: Set<u64>, buffers: Set<u64>) -> Seq<
    RenderAction,
>
    decreases cmds.len(),
{
    if cmds.len() == 0 {
        seq![]
    } else {
        let rest = cmds.drop_first();
        match cmds[0] {
            Command::EndRendering => seq![],
            Command::BindRenderPipeline(id) => (if pipelines.contains(id.raw) {
                seq![RenderAction::SetPipeline(id)]
            } else {
                seq![]
            }) + pass_body(rest, pipelines, buffers),
            Command::BindVertexBuffers(p) => vertex_binding_actions(p, buffers) + pass_body(
                rest,
                pipelines,
                buffers,
            ),
            Command::Draw(d) => seq![RenderAction::Draw(d)] + pass_body(rest, pipelines, buffers),
            _ => pass_body(rest, pipelines, buffers),
        }
    }
}

/// The render pass state after performing `actions` from state `open`
/// (whether a render pass is begun), or `None` when an action is out of
/// place: a pass begun inside another, ended outside one, or a draw-time
/// action outside one.
pub open spec fn bracket_state(actions: Seq<RenderAction>, open: bool) -> Option<bool>
    decreases actions.len(),
{
    if actions.len() == 0 {
        Some(open)
    } else {
        let rest = actions.drop_first();
        match actions[0] {
            RenderAction::BeginRenderPass(_) => if open {
                None
            } else {
                bracket_state(rest, true)
            },
            RenderAction::EndRenderPass => if open {
                bracket_state(rest, false)
            } else {
                None
            },
            _ => if open {
                bracket_state(rest, true)
            } else {
                None
            },
        }
    }
}

/// Starting from state `open`, every action is in place and no render pass
/// is left open at the end.
pub open spec fn well_bracketed(actions: Seq<RenderAction>, open: bool) -> bool {
    bracket_state(actions, open) == Some(false)
}

/// Performing `a` then `b` is performing `b` from the state that `a` leaves.
pub proof fn lemma_bracket_state_concat(a: Seq<RenderAction>, b: Seq<RenderAction>, open: bool)
    ensures
        bracket_state(a + b, open) == match bracket_state(a, open) {
            Some(mid) => bracket_state(b, mid),
            None => None,
        },
    decreases a.len(),
{
    if a.len() == 0 {
        assert(a + b =~= b);
    } else {
        assert((a + b).drop_first() =~= a.drop_first() + b);
        assert((a + b)[0] == a[0]);
        match a[0] {
            RenderAction::BeginRenderPass(_) => {
                lemma_bracket_state_concat(a.drop_first(), b, true);
            },
            RenderAction::EndRenderPass => {
                lemma_bracket_state_concat(a.drop_first(), b, false);
            },
            _ => {
                lemma_bracket_state_concat(a.drop_first(), b, true);
            },
        }
    }
}

proof fn lemma_vertex_bindings_stay_in_pass(p: BindVertexBuffersParameters, buffers: Set<u64>, n: int)
    ensures
        bracket_state(vertex_binding_actions_upto(p, buffers, n), true) == Some(true),
    decreases n,
{
    if n > 0 {
        lemma_vertex_bindings_stay_in_pass(p, buffers, n - 1);
        let step = vertex_binding_action(p, buffers, p.first_binding + n - 1);
        lemma_bracket_state_concat(vertex_binding_actions_upto(p, buffers, n - 1), step, true);
        reveal_with_fuel(bracket_state, 2);
    }
}

/// A replay draws only inside render passes, never begins a render pass
/// inside another, and ends every render pass that it begins.
pub proof fn lemma_replay_well_bracketed(
    cmds: Seq<Command>,
    in_block: bool,
    has_target: bool,
    pipelines: Set<u64>,
    buffers: Set<u64>,
)
    requires
        replay_supported(cmds, in_block, has_target),
    ensures
        well_bracketed(replay(cmds, in_block, has_target, pipelines, buffers), in_block && has_target),
    decreases cmds.len(),
{
    reveal_with_fuel(bracket_state, 2);
    let drawing = in_block && has_target;
    if cmds.len() > 0 {
        let rest = cmds.drop_first();
        match cmds[0] {
            Command::Begin | Command::End => {
                lemma_replay_well_bracketed(rest, in_block, has_target, pipelines, buffers);
            },
            Command::EndRendering => {
                lemma_replay_well_bracketed(rest, false, has_target, pipelines, buffers);
                let x = if drawing {
                    seq![RenderAction::EndRenderPass]
                } else {
                    seq![]
                };
                lemma_bracket_state_concat(x, replay(rest, false, has_target, pipelines, buffers), drawing);
            },
            Command::BeginRendering(p) => {
                lemma_replay_well_bracketed(rest, true, has_target, pipelines, buffers);
                let x = if has_target {
                    seq![RenderAction::BeginRenderPass(p.clear)]
                } else {
                    seq![]
                };
                lemma_bracket_state_concat(x, replay(rest, true, has_target, pipelines, buffers), false);
            },
            Command::BindRenderPipeline(id) => {
                lemma_replay_well_bracketed(rest, in_block, has_target, pipelines, buffers);
                let x = if drawing && pipelines.contains(id.raw) {
                    seq![RenderAction::SetPipeline(id)]
                } else {
                    seq![]
                };
                lemma_bracket_state_concat(
                    x,
                    replay(rest, in_block, has_target, pipelines, buffers),
                    drawing,
                );
            },
            Command::BindVertexBuffers(p) => {
                lemma_replay_well_bracketed(rest, in_block, has_target, pipelines, buffers);
                lemma_vertex_bindings_stay_in_pass(p, buffers, p.count as int);
                let x = if drawing {
                    vertex_binding_actions(p, buffers)
                } else {
                    seq![]
                };
                lemma_bracket_state_concat(
                    x,
                    replay(rest, in_block, has_target, pipelines, buffers),
                    drawing,
                );
            },
            Command::Draw(d) => {
                lemma_replay_well_bracketed(rest, in_block, has_target, pipelines, buffers);
                let x = if drawing {
                    seq![RenderAction::Draw(d)]
                } else {
                    seq![]
                };
                lemma_bracket_state_concat(
                    x,
                    replay(rest, in_block, has_target, pipelines, buffers),
                    drawing,
                );
            },
        }
    }
}

/// Without a surface texture to draw on, a replay does nothing, whatever
/// the commands are.
pub proof fn lemma_replay_without_target_is_empty(
    cmds: Seq<Command>,
    in_block: bool,
    pipelines: Set<u64>,
    buffers: Set<u64>,
)
    ensures
        replay(cmds, in_block, false, pipelines, buffers) == Seq::<RenderAction>::empty(),
    decreases cmds.len(),
{
    if cmds.len() > 0 {
        let rest = cmds.drop_first();
        lemma_replay_without_target_is_empty(rest, true, pipelines, buffers);
        lemma_replay_without_target_is_empty(rest, false, pipelines, buffers);
        lemma_replay_without_target_is_empty(rest, in_block, pipelines, buffers);
        assert(Seq::<RenderAction>::empty() + Seq::<RenderAction>::empty() =~= Seq::<
            RenderAction,
        >::empty());
    }
}

/// The clear colors of the rendering blocks that `cmds` begins, in order.
pub open spec fn blocks_begun(cmds: Seq<Command>) -> Seq<[u32; 4]>
    decreases cmds.len(),
{
    if cmds.len() == 0 {
        seq![]
    } else {
        (match cmds[0] {
            Command::BeginRendering(p) => seq![p.clear],
            _ => seq![],
        }) + blocks_begun(cmds.drop_first())
    }
}

/// The draws that `cmds` records, in order.
pub open spec fn draws_recorded(cmds: Seq<Command>) -> Seq<DrawParameters>
    decreases cmds.len(),
{
    if cmds.len() == 0 {
        seq![]
    } else {
        (match cmds[0] {
            Command::Draw(d) => seq![d],
            _ => seq![],
        }) + draws_recorded(cmds.drop_first())
    }
}

/// The pipelines that `cmds` binds, in order, among those in `pipelines`.
pub open spec fn pipelines_recorded(cmds: Seq<Command>, pipelines: Set<u64>) -> Seq<RenderPipelineId>
    decreases cmds.len(),
{
    if cmds.len() == 0 {
        seq![]
    } else {
        (match cmds[0] {
            Command::BindRenderPipeline(id) => if pipelines.contains(id.raw) {
                seq![id]
            } else {
                seq![]
            },
            _ => seq![],
        }) + pipelines_recorded(cmds.drop_first(), pipelines)
    }
}

/// The vertex-buffer bindings that `cmds` records, in order, of the buffers
/// in `buffers`: each vertex-buffer command's bindings of registered
/// buffers, as `lemma_vertex_bindings_bind_registered_slots` describes them.
pub open spec fn vertex_bindings_recorded(cmds: Seq<Command>, buffers: Set<u64>) -> Seq<RenderAction>
    decreases cmds.len(),
{
    if cmds.len() == 0 {
        seq![]
    } else {
        (match cmds[0] {
            Command::BindVertexBuffers(p) => vertex_binding_actions(p, buffers),
            _ => seq![],
        }) + vertex_bindings_recorded(cmds.drop_first(), buffers)
    }
}

/// The commands before the first `EndRendering`: the rest of a rendering
/// block that is already begun.
pub open spec fn block_rest(cmds: Seq<Command>) -> Seq<Command>
    decreases cmds.len(),
{
    if cmds.len() == 0 || cmds[0] is EndRendering {
        seq![]
    } else {
        seq![cmds[0]] + block_rest(cmds.drop_first())
    }
}

/// The clear colors of the render passes that `actions` begins, in order.
pub open spec fn passes_begun(actions: Seq<RenderAction>) -> Seq<[u32; 4]>
    decreases actions.len(),
{
    if actions.len() == 0 {
        seq![]
    } else {
        (match actions[0] {
            RenderAction::BeginRenderPass(c) => seq![c],
            _ => seq![],
        }) + passes_begun(actions.drop_first())
    }
}

/// The draws that `actions` performs, in order.
pub open spec fn draws_performed(actions: Seq<RenderAction>) -> Seq<DrawParameters>
    decreases actions.len(),
{
    if actions.len() == 0 {
        seq![]
    } else {
        (match actions[0] {
            RenderAction::Draw(d) => seq![d],
            _ => seq![],
        }) + draws_performed(actions.drop_first())
    }
}

/// The vertex-buffer bindings that `actions` performs, in order.
pub open spec fn vertex_bindings_set(actions: Seq<RenderAction>) -> Seq<RenderAction>
    decreases actions.len(),
{
    if actions.len() == 0 {
        seq![]
    } else {
        (if actions[0] is SetVertexBuffer {
            seq![actions[0]]
        } else {
            seq![]
        }) + vertex_bindings_set(actions.drop_first())
    }
}

/// The pipelines that `actions` sets, in order.
pub open spec fn pipelines_set(actions: Seq<RenderAction>) -> Seq<RenderPipelineId>
    decreases actions.len(),
{
    if actions.len() == 0 {
        seq![]
    } else {
        (match actions[0] {
            RenderAction::SetPipeline(id) => seq![id],
            _ => seq![],
        }) + pipelines_set(actions.drop_first())
    }
}

proof fn lemma_projections_concat(a: Seq<RenderAction>, b: Seq<RenderAction>)
    ensures
        passes_begun(a + b) == passes_begun(a) + passes_begun(b),
        draws_performed(a + b) == draws_performed(a) + draws_performed(b),
        pipelines_set(a + b) == pipelines_set(a) + pipelines_set(b),
        vertex_bindings_set(a + b) == vertex_bindings_set(a) + vertex_bindings_set(b),
    decreases a.len(),
{
    if a.len() == 0 {
        assert(a + b =~= b);
        assert(passes_begun(a) + passes_begun(b) =~= passes_begun(b));
        assert(draws_performed(a) + draws_performed(b) =~= draws_performed(b));
        assert(pipelines_set(a) + pipelines_set(b) =~= pipelines_set(b));
        assert(vertex_bindings_set(a) + vertex_bindings_set(b) =~= vertex_bindings_set(b));
    } else {
        lemma_projections_concat(a.drop_first(), b);
        assert((a + b).drop_first() =~= a.drop_first() + b);
        assert((a + b)[0] == a[0]);
        let p = match a[0] {
            RenderAction::BeginRenderPass(c) => seq![c],
            _ => seq![],
        };
        let d = match a[0] {
            RenderAction::Draw(x) => seq![x],
            _ => seq![],
        };
        let q = match a[0] {
            RenderAction::SetPipeline(id) => seq![id],
            _ => seq![],
        };
        assert(p + (passes_begun(a.drop_first()) + passes_begun(b)) =~= (p + passes_begun(
            a.drop_first(),
        )) + passes_begun(b));
        assert(d + (draws_performed(a.drop_first()) + draws_performed(b)) =~= (d
            + draws_performed(a.drop_first())) + draws_performed(b));
        assert(q + (pipelines_set(a.drop_first()) + pipelines_set(b)) =~= (q + pipelines_set(
            a.drop_first(),
        )) + pipelines_set(b));
        let v = if a[0] is SetVertexBuffer {
            seq![a[0]]
        } else {
            seq![]
        };
        assert(v + (vertex_bindings_set(a.drop_first()) + vertex_bindings_set(b)) =~= (v
            + vertex_bindings_set(a.drop_first())) + vertex_bindings_set(b));
    }
}

proof fn lemma_projections_single(a: RenderAction)
    ensures
        passes_begun(seq![a]) == match a {
            RenderAction::BeginRenderPass(c) => seq![c],
            _ => Seq::<[u32; 4]>::empty(),
        },
        draws_performed(seq![a]) == match a {
            RenderAction::Draw(d) => seq![d],
            _ => Seq::<DrawParameters>::empty(),
        },
        pipelines_set(seq![a]) == match a {
            RenderAction::SetPipeline(id) => seq![id],
            _ => Seq::<RenderPipelineId>::empty(),
        },
        vertex_bindings_set(seq![a]) == if a is SetVertexBuffer {
            seq![a]
        } else {
            Seq::<RenderAction>::empty()
        },
{
    lemma_projections_empty();
    assert(seq![a].drop_first() =~= Seq::<RenderAction>::empty());
    assert(seq![a][0] == a);
    assert(passes_begun(seq![a]) =~= match a {
        RenderAction::BeginRenderPass(c) => seq![c],
        _ => Seq::<[u32; 4]>::empty(),
    });
    assert(draws_performed(seq![a]) =~= match a {
        RenderAction::Draw(d) => seq![d],
        _ => Seq::<DrawParameters>::empty(),
    });
    assert(pipelines_set(seq![a]) =~= match a {
        RenderAction::SetPipeline(id) => seq![id],
        _ => Seq::<RenderPipelineId>::empty(),
    });
    assert(vertex_bindings_set(seq![a]) =~= if a is SetVertexBuffer {
        seq![a]
    } else {
        Seq::<RenderAction>::empty()
    });
}

proof fn lemma_projections_empty()
    ensures
        passes_begun(Seq::<RenderAction>::empty()) == Seq::<[u32; 4]>::empty(),
        draws_performed(Seq::<RenderAction>::empty()) == Seq::<DrawParameters>::empty(),
        pipelines_set(Seq::<RenderAction>::empty()) == Seq::<RenderPipelineId>::empty(),
        vertex_bindings_set(Seq::<RenderAction>::empty()) == Seq::<RenderAction>::empty(),
{
}

proof fn lemma_vertex_bindings_only_bind(p: BindVertexBuffersParameters, buffers: Set<u64>, n: int)
    ensures
        passes_begun(vertex_binding_actions_upto(p, buffers, n)) == Seq::<[u32; 4]>::empty(),
        draws_performed(vertex_binding_actions_upto(p, buffers, n)) == Seq::<DrawParameters>::empty(),
        pipelines_set(vertex_binding_actions_upto(p, buffers, n)) == Seq::<RenderPipelineId>::empty(),
        vertex_bindings_set(vertex_binding_actions_upto(p, buffers, n))
            == vertex_binding_actions_upto(p, buffers, n),
    decreases n,
{
    if n > 0 {
        lemma_vertex_bindings_only_bind(p, buffers, n - 1);
        let step = vertex_binding_action(p, buffers, p.first_binding + n - 1);
        lemma_projections_concat(vertex_binding_actions_upto(p, buffers, n - 1), step);
        lemma_projections_empty();
        if buffers.contains(p.buffers@[p.first_binding + n - 1].raw) {
            lemma_projections_single(step[0]);
            assert(step =~= seq![step[0]]);
        }
        assert(Seq::<[u32; 4]>::empty() + Seq::<[u32; 4]>::empty() =~= Seq::<[u32; 4]>::empty());
        assert(Seq::<DrawParameters>::empty() + Seq::<DrawParameters>::empty()
            =~= Seq::<DrawParameters>::empty());
        assert(Seq::<RenderPipelineId>::empty() + Seq::<RenderPipelineId>::empty()
            =~= Seq::<RenderPipelineId>::empty());
        if !buffers.contains(p.buffers@[p.first_binding + n - 1].raw) {
            assert(vertex_binding_actions_upto(p, buffers, n - 1) + step
                =~= vertex_binding_actions_upto(p, buffers, n - 1));
        }
    }
}

/// With a surface texture to draw on, a replay keeps every rendering block,
/// every draw, every bind of a registered pipeline and every binding of a
/// registered vertex buffer: the render passes it begins clear to the colors
/// of the blocks, in order; it performs the recorded draws, in order; it sets
/// the registered pipelines that are bound, in order; and it performs the
/// recorded vertex-buffer bindings, in order.
pub proof fn lemma_replay_keeps_every_block(
    cmds: Seq<Command>,
    in_block: bool,
    pipelines: Set<u64>,
    buffers: Set<u64>,
)
    requires
        replay_supported(cmds, in_block, true),
    ensures
        passes_begun(replay(cmds, in_block, true, pipelines, buffers)) == blocks_begun(cmds),
        draws_performed(replay(cmds, in_block, true, pipelines, buffers)) == draws_recorded(cmds),
        pipelines_set(replay(cmds, in_block, true, pipelines, buffers)) == pipelines_recorded(
            cmds,
            pipelines,
        ),
        vertex_bindings_set(replay(cmds, in_block, true, pipelines, buffers))
            == vertex_bindings_recorded(cmds, buffers),
    decreases cmds.len(),
{
    lemma_projections_empty();
    if cmds.len() == 0 {
        if in_block {
            lemma_projections_single(RenderAction::EndRenderPass);
        }
    } else {
        let rest = cmds.drop_first();
        let next_block = match cmds[0] {
            Command::EndRendering => false,
            Command::BeginRendering(_) => true,
            _ => in_block,
        };
        lemma_replay_keeps_every_block(rest, next_block, pipelines, buffers);
        let r = replay(rest, next_block, true, pipelines, buffers);
        let x = match cmds[0] {
            Command::Begin | Command::End => Seq::<RenderAction>::empty(),
            Command::EndRendering => if in_block {
                seq![RenderAction::EndRenderPass]
            } else {
                seq![]
            },
            Command::BeginRendering(p) => seq![RenderAction::BeginRenderPass(p.clear)],
            Command::BindRenderPipeline(id) => if pipelines.contains(id.raw) {
                seq![RenderAction::SetPipeline(id)]
            } else {
                seq![]
            },
            Command::BindVertexBuffers(p) => vertex_binding_actions(p, buffers),
            Command::Draw(d) => seq![RenderAction::Draw(d)],
        };
        assert(replay(cmds, in_block, true, pipelines, buffers) =~= x + r);
        lemma_projections_concat(x, r);
        if x.len() == 1 {
            lemma_projections_single(x[0]);
            assert(x =~= seq![x[0]]);
        }
        if let Command::BindVertexBuffers(p) = cmds[0] {
            lemma_vertex_bindings_only_bind(p, buffers, p.count as int);
        }
        assert(Seq::<[u32; 4]>::empty() + blocks_begun(rest) =~= blocks_begun(rest));
        assert(Seq::<DrawParameters>::empty() + draws_recorded(rest) =~= draws_recorded(rest));
        assert(Seq::<RenderPipelineId>::empty() + pipelines_recorded(rest, pipelines)
            =~= pipelines_recorded(rest, pipelines));
        assert(Seq::<RenderAction>::empty() + vertex_bindings_recorded(rest, buffers)
            =~= vertex_bindings_recorded(rest, buffers));
    }
}

/// Replaying the rest of a rendering block on a render pass that the caller
/// has begun keeps every draw, every bind of a registered pipeline and every
/// binding of a registered vertex buffer up to the block's end, in order,
/// begins no render pass, and leaves the caller's render pass open with every
/// action in place.
pub proof fn lemma_pass_body_keeps_block(cmds: Seq<Command>, pipelines: Set<u64>, buffers: Set<u64>)
    requires
        pass_body_supported(cmds),
    ensures
        passes_begun(pass_body(cmds, pipelines, buffers)) == Seq::<[u32; 4]>::empty(),
        draws_performed(pass_body(cmds, pipelines, buffers)) == draws_recorded(block_rest(cmds)),
        pipelines_set(pass_body(cmds, pipelines, buffers)) == pipelines_recorded(
            block_rest(cmds),
            pipelines,
        ),
        vertex_bindings_set(pass_body(cmds, pipelines, buffers)) == vertex_bindings_recorded(
            block_rest(cmds),
            buffers,
        ),
        bracket_state(pass_body(cmds, pipelines, buffers), true) == Some(true),
    decreases cmds.len(),
{
    lemma_projections_empty();
    reveal_with_fuel(bracket_state, 2);
    if cmds.len() > 0 && !(cmds[0] is EndRendering) {
        let rest = cmds.drop_first();
        lemma_pass_body_keeps_block(rest, pipelines, buffers);
        let r = pass_body(rest, pipelines, buffers);
        let x = match cmds[0] {
            Command::BindRenderPipeline(id) => if pipelines.contains(id.raw) {
                seq![RenderAction::SetPipeline(id)]
            } else {
                seq![]
            },
            Command::BindVertexBuffers(p) => vertex_binding_actions(p, buffers),
            Command::Draw(d) => seq![RenderAction::Draw(d)],
            _ => Seq::<RenderAction>::empty(),
        };
        assert(pass_body(cmds, pipelines, buffers) =~= x + r);
        lemma_projections_concat(x, r);
        lemma_bracket_state_concat(x, r, true);
        if x.len() == 1 {
            lemma_projections_single(x[0]);
            assert(x =~= seq![x[0]]);
        }
        if let Command::BindVertexBuffers(p) = cmds[0] {
            lemma_vertex_bindings_only_bind(p, buffers, p.count as int);
            lemma_vertex_bindings_stay_in_pass(p, buffers, p.count as int);
        }
        let b = block_rest(cmds);
        assert(b =~= seq![cmds[0]] + block_rest(rest));
        assert(b.drop_first() =~= block_rest(rest));
        assert(b[0] == cmds[0]);
        assert(Seq::<DrawParameters>::empty() + draws_recorded(block_rest(rest)) =~= draws_recorded(
            block_rest(rest),
        ));
        assert(Seq::<RenderPipelineId>::empty() + pipelines_recorded(block_rest(rest), pipelines)
            =~= pipelines_recorded(block_rest(rest), pipelines));
        assert(Seq::<[u32; 4]>::empty() + Seq::<[u32; 4]>::empty() =~= Seq::<[u32; 4]>::empty());
        assert(Seq::<RenderAction>::empty() + vertex_bindings_recorded(block_rest(rest), buffers)
            =~= vertex_bindings_recorded(block_rest(rest), buffers));
    }
}

proof fn lemma_replay_inside_block(
    body: Seq<Command>,
    tail: Seq<Command>,
    pipelines: Set<u64>,
    buffers: Set<u64>,
)
    requires
        forall|i: int|
            0 <= i < body.len() ==> !(#[trigger] body[i] is EndRendering) && !(
            body[i] is BeginRendering),
    ensures
        replay(body + tail, true, true, pipelines, buffers) == pass_body(body, pipelines, buffers)
            + replay(tail, true, true, pipelines, buffers),
    decreases body.len(),
{
    let r = replay(tail, true, true, pipelines, buffers);
    if body.len() == 0 {
        assert(body + tail =~= tail);
        assert(pass_body(body, pipelines, buffers) + r =~= r);
    } else {
        let rest = body.drop_first();
        assert(forall|i: int| 0 <= i < rest.len() ==> rest[i] == body[i + 1]);
        lemma_replay_inside_block(rest, tail, pipelines, buffers);
        assert((body + tail).drop_first() =~= rest + tail);
        assert((body + tail)[0] == body[0]);
        let x = match body[0] {
            Command::BindRenderPipeline(id) => if pipelines.contains(id.raw) {
                seq![RenderAction::SetPipeline(id)]
            } else {
                seq![]
            },
            Command::BindVertexBuffers(p) => vertex_binding_actions(p, buffers),
            Command::Draw(d) => seq![RenderAction::Draw(d)],
            _ => Seq::<RenderAction>::empty(),
        };
        assert(replay(body + tail, true, true, pipelines, buffers) =~= x + replay(
            rest + tail,
            true,
            true,
            pipelines,
            buffers,
        ));
        assert(pass_body(body, pipelines, buffers) =~= x + pass_body(rest, pipelines, buffers));
        assert(x + (pass_body(rest, pipelines, buffers) + r) =~= (x + pass_body(
            rest,
            pipelines,
            buffers,
        )) + r);
    }
}

/// With a surface texture to draw on, a rendering block replays as one
/// render pass that clears to the block's color and holds exactly what the
/// draw path replays for the block's commands; the commands after the block
/// replay as if it were not there.
pub proof fn lemma_replay_block_is_a_pass(
    p: BeginRenderingParameters,
    body: Seq<Command>,
    rest: Seq<Command>,
    pipelines: Set<u64>,
    buffers: Set<u64>,
)
    requires
        forall|i: int|
            0 <= i < body.len() ==> !(#[trigger] body[i] is EndRendering) && !(
            body[i] is BeginRendering),
    ensures
        replay(
            seq![Command::BeginRendering(p)] + body + seq![Command::EndRendering] + rest,
            false,
            true,
            pipelines,
            buffers,
        ) == seq![RenderAction::BeginRenderPass(p.clear)] + pass_body(body, pipelines, buffers)
            + seq![RenderAction::EndRenderPass] + replay(rest, false, true, pipelines, buffers),
{
    let cmds = seq![Command::BeginRendering(p)] + body + seq![Command::EndRendering] + rest;
    let after = body + (seq![Command::EndRendering] + rest);
    assert(cmds.drop_first() =~= after);
    assert(cmds[0] == Command::BeginRendering(p));
    lemma_replay_inside_block(body, seq![Command::EndRendering] + rest, pipelines, buffers);
    let tail = seq![Command::EndRendering] + rest;
    assert(tail.drop_first() =~= rest);
    assert(tail[0] == Command::EndRendering);
    let r = replay(rest, false, true, pipelines, buffers);
    assert(replay(tail, true, true, pipelines, buffers) =~= seq![RenderAction::EndRenderPass] + r);
    let b = seq![RenderAction::BeginRenderPass(p.clear)];
    let pb = pass_body(body, pipelines, buffers);
    assert(b + (pb + (seq![RenderAction::EndRenderPass] + r)) =~= b + pb + seq![
        RenderAction::EndRenderPass,
    ] + r);
}

impl CommandEmulator {
    /// Whether `commands` can be replayed from the start, outside any
    /// rendering block.
    pub fn replay_is_supported(commands: &Vec<Command>, has_target: bool) -> (ok: bool)
        ensures
            ok == replay_supported(commands@, false, has_target),
    {
        let n = commands.len();
        let mut i: usize = 0;
        let mut in_block = false;
        assert(commands@.subrange(0, n as int) =~= commands@);
        while i < n
            invariant
                n == commands@.len(),
                0 <= i <= n,
                replay_supported(commands@, false, has_target) == replay_supported(
                    commands@.subrange(i as int, n as int),
                    in_block,
                    has_target,
                ),
            decreases n - i,
        {
            let ghost rest = commands@.subrange(i as int, n as int);
            assert(rest.drop_first() =~= commands@.subrange(i + 1, n as int));
            match &commands[i] {
                Command::Begin | Command::End => {},
                Command::EndRendering => {
                    in_block = false;
                },
                Command::BeginRendering(_) => {
                    if in_block {
                        return false;
                    }
                    in_block = true;
                },
                Command::BindRenderPipeline(_) | Command::Draw(_) => {
                    if !in_block {
                        return false;
                    }
                },
                Command::BindVertexBuffers(p) => {
                    if !in_block {
                        return false;
                    }
                    if has_target && !(p.count == 0 || (p.first_binding <= MAX_VERTEX_BINDINGS
                        && p.count <= MAX_VERTEX_BINDINGS - p.first_binding)) {
                        return false;
                    }
                },
            }
            i = i + 1;
        }
        assert(commands@.subrange(n as int, n as int) =~= Seq::<Command>::empty());
        true
    }

    /// Appends the actions of a vertex-buffer command to `actions`.
    fn push_vertex_bindings(
        p: &BindVertexBuffersParameters,
        buffers: &HashSet<u64>,
        actions: &mut Vec<RenderAction>,
    )
        requires
            vertex_bindings_in_range(*p),
        ensures
            final(actions)@ == old(actions)@ + vertex_binding_actions(*p, buffers@),
    {
        let ghost start = old(actions)@;
        let mut k: u32 = 0;
        while k < p.count
            invariant
                vertex_bindings_in_range(*p),
                0 <= k <= p.count,
                actions@ == start + vertex_binding_actions_upto(*p, buffers@, k as int),
            decreases p.count - k,
        {
            let slot = p.first_binding + k;
            let buffer = p.buffers[slot as usize];
            let ghost before = actions@;
            if buffers.contains(&buffer.raw) {
                actions.push(
                    RenderAction::SetVertexBuffer {
                        slot,
                        buffer,
                        offset: p.offsets[slot as usize],
                    },
                );
            }
            assert(actions@ =~= start + vertex_binding_actions_upto(*p, buffers@, k + 1));
            k = k + 1;
        }
    }

    /// The actions that replaying `commands` performs on the device.
    pub fn replay_commands<P>(
        commands: &Vec<Command>,
        has_target: bool,
        pipelines: &HashMap<u64, P>,
        buffers: &HashSet<u64>,
    ) -> (actions: Vec<RenderAction>)
        requires
            replay_supported(commands@, false, has_target),
        ensures
            actions@ == replay(commands@, false, has_target, pipelines@.dom(), buffers@),
            well_bracketed(actions@, false),
            has_target ==> passes_begun(actions@) == blocks_begun(commands@),
            has_target ==> draws_performed(actions@) == draws_recorded(commands@),
            has_target ==> pipelines_set(actions@) == pipelines_recorded(
                commands@,
                pipelines@.dom(),
            ),
            has_target ==> vertex_bindings_set(actions@) == vertex_bindings_recorded(
                commands@,
                buffers@,
            ),
            !has_target ==> actions@.len() == 0,
    {
        proof {
            lemma_replay_well_bracketed(commands@, false, has_target, pipelines@.dom(), buffers@);
            if has_target {
                lemma_replay_keeps_every_block(commands@, false, pipelines@.dom(), buffers@);
            } else {
                lemma_replay_without_target_is_empty(commands@, false, pipelines@.dom(), buffers@);
            }
        }
        let ghost pipes = pipelines@.dom();
        let ghost bufs = buffers@;
        let n = commands.len();
        let mut actions: Vec<RenderAction> = Vec::new();
        let mut i: usize = 0;
        let mut in_block = false;
        assert(commands@.subrange(0, n as int) =~= commands@);
        while i < n
            invariant
                n == commands@.len(),
                0 <= i <= n,
                replay_supported(commands@.subrange(i as int, n as int), in_block, has_target),
                replay(commands@, false, has_target, pipes, bufs) == actions@ + replay(
                    commands@.subrange(i as int, n as int),
                    in_block,
                    has_target,
                    pipes,
                    bufs,
                ),
                pipes == pipelines@.dom(),
                bufs == buffers@,
            decreases n - i,
        {
            let ghost rest = commands@.subrange(i as int, n as int);
            let ghost tail = commands@.subrange(i + 1, n as int);
            assert(rest.drop_first() =~= tail);
            let ghost before = actions@;
            let ghost was_in_block = in_block;
            let drawing = in_block && has_target;
            match &commands[i] {
                Command::Begin | Command::End => {},
                Command::EndRendering => {
                    if drawing {
                        actions.push(RenderAction::EndRenderPass);
                    }
                    in_block = false;
                },
                Command::BeginRendering(p) => {
                    if !in_block && has_target {
                        actions.push(RenderAction::BeginRenderPass(p.clear));
                    }
                    in_block = true;
                },
                Command::BindRenderPipeline(id) => {
                    if drawing && pipelines.contains_key(&id.raw) {
                        actions.push(RenderAction::SetPipeline(*id));
                    }
                },
                Command::BindVertexBuffers(p) => {
                    if drawing {
                        Self::push_vertex_bindings(p, buffers, &mut actions);
                    }
                },
                Command::Draw(d) => {
                    if drawing {
                        actions.push(
                            RenderAction::Draw(
                                DrawParameters {
                                    vertices: d.vertices.start..d.vertices.end,
                                    instances: d.instances.start..d.instances.end,
                                },
                            ),
                        );
                    }
                },
            }
            assert(before + replay(rest, was_in_block, has_target, pipes, bufs) == actions@
                + replay(tail, in_block, has_target, pipes, bufs));
            i = i + 1;
        }
        if in_block && has_target {
            actions.push(RenderAction::EndRenderPass);
        }
        actions
    }

    /// Whether `commands` can be replayed on a render pass that is already
    /// begun.
    pub fn pass_is_supported(commands: &Vec<Command>) -> (ok: bool)
        ensures
            ok == pass_body_supported(commands@),
    {
        let n = commands.len();
        let mut i: usize = 0;
        assert(commands@.subrange(0, n as int) =~= commands@);
        while i < n
            invariant
                n == commands@.len(),
                0 <= i <= n,
                pass_body_supported(commands@) == pass_body_supported(
                    commands@.subrange(i as int, n as int),
                ),
            decreases n - i,
        {
            let ghost rest = commands@.subrange(i as int, n as int);
            assert(rest.drop_first() =~= commands@.subrange(i + 1, n as int));
            match &commands[i] {
                Command::EndRendering => {
                    return true;
                },
                Command::BeginRendering(_) => {
                    return false;
                },
                Command::BindVertexBuffers(p) => {
                    if !(p.count == 0 || (p.first_binding <= MAX_VERTEX_BINDINGS && p.count
                        <= MAX_VERTEX_BINDINGS - p.first_binding)) {
                        return false;
                    }
                },
                _ => {},
            }
            i = i + 1;
        }
        true
    }

    /// The actions that replaying `commands` on a render pass that is
    /// already begun performs, up to the first `EndRendering`.
    pub fn replay_pass<P>(commands: &Vec<Command>, pipelines: &HashMap<u64, P>, buffers: &HashSet<
        u64,
    >) -> (actions: Vec<RenderAction>)
        requires
            pass_body_supported(commands@),
        ensures
            actions@ == pass_body(commands@, pipelines@.dom(), buffers@),
            passes_begun(actions@) == Seq::<[u32; 4]>::empty(),
            draws_performed(actions@) == draws_recorded(block_rest(commands@)),
            pipelines_set(actions@) == pipelines_recorded(block_rest(commands@), pipelines@.dom()),
            vertex_bindings_set(actions@) == vertex_bindings_recorded(block_rest(commands@), buffers@),
            bracket_state(actions@, true) == Some(true),
    {
        proof {
            lemma_pass_body_keeps_block(commands@, pipelines@.dom(), buffers@);
        }
        let ghost pipes = pipelines@.dom();
        let ghost bufs = buffers@;
        let n = commands.len();
        let mut actions: Vec<RenderAction> = Vec::new();
        let mut i: usize = 0;
        assert(commands@.subrange(0, n as int) =~= commands@);
        while i < n
            invariant
                n == commands@.len(),
                0 <= i <= n,
                pass_body_supported(commands@),
                pass_body_supported(commands@.subrange(i as int, n as int)),
                pass_body(commands@, pipes, bufs) == actions@ + pass_body(
                    commands@.subrange(i as int, n as int),
                    pipes,
                    bufs,
                ),
                pipes == pipelines@.dom(),
                bufs == buffers@,
            decreases n - i,
        {
            let ghost rest = commands@.subrange(i as int, n as int);
            let ghost tail = commands@.subrange(i + 1, n as int);
            assert(rest.drop_first() =~= tail);
            let ghost before = actions@;
            match &commands[i] {
                Command::EndRendering => {
                    assert(actions@ =~= actions@ + Seq::<RenderAction>::empty());
                    proof {
                        lemma_pass_body_keeps_block(commands@, pipes, bufs);
                    }
                    return actions;
                },
                Command::BindRenderPipeline(id) => {
                    if pipelines.contains_key(&id.raw) {
                        actions.push(RenderAction::SetPipeline(*id));
                    }
                },
                Command::BindVertexBuffers(p) => {
                    Self::push_vertex_bindings(p, buffers, &mut actions);
                },
                Command::Draw(d) => {
                    actions.push(
                        RenderAction::Draw(
                            DrawParameters {
                                vertices: d.vertices.start..d.vertices.end,
                                instances: d.instances.start..d.instances.end,
                            },
                        ),
                    );
                },
                _ => {},
            }
            assert(before + pass_body(rest, pipes, bufs) == actions@ + pass_body(tail, pipes, bufs));
            i = i + 1;
        }
        assert(commands@.subrange(n as int, n as int) =~= Seq::<Command>::empty());
        assert(actions@ =~= actions@ + Seq::<RenderAction>::empty());
        actions
    }
}

} // verus!
