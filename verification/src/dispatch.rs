//! Selection Dispatcher: applies the per-object pipeline (flag resolution →
//! invocation building → execution) across the current selection, with a
//! separator between objects and aggregated, non-aborting error reporting.
//!
//! A missing cluster context or a malformed boolean flag value short-circuits
//! the whole batch before any object is processed. An ineligible object
//! fails on its own without stopping the others; every object's outcome is
//! recorded, none is swallowed.

use vstd::prelude::*;

use crate::flags::{resolve_attach_mode, resolved_mode, AttachMode, FlagInput};
use crate::invocation::{
    build_inline_invocation, build_terminal_invocation, choose_launcher, inline_argv_spec,
    terminal_argv_spec, Invocation,
};
use crate::launch::{emit_line, execute_inline, execute_spawned};
use crate::outcome::{pipeline_outcome_shape, ExecError};
use vstd::pervasive::unreached;

verus! {

/// The currently active named connection target. Its absence is a hard
/// precondition failure for the whole operation.
#[derive(Clone, Debug)]
pub struct ClusterContext {
    pub name: String,
}

/// One cluster-scoped resource the command acts on, borrowed read-only from
/// the external selection mechanism for the duration of one dispatch.
#[derive(Clone, Debug)]
pub struct TargetObject {
    /// The display name.
    pub name: String,
    /// The object's namespace; required for this operation on eligible
    /// objects, where its absence is a precondition violation.
    pub namespace: Option<String>,
    /// Whether the object is an eligible kind for this operation.
    pub is_pod: bool,
}

/// The mathematical image of a [`TargetObject`].
pub struct TargetObjectView {
    pub name: Seq<char>,
    pub namespace: Option<Seq<char>>,
    pub is_pod: bool,
}

impl View for TargetObject {
    type V = TargetObjectView;

    open spec fn view(&self) -> TargetObjectView {
        TargetObjectView {
            name: self.name@,
            namespace: self.namespace.deep_view(),
            is_pod: self.is_pod,
        }
    }
}

/// One parsed exec request: the remote command words and the raw options,
/// exactly as the shell's argument parser hands them over.
#[derive(Clone, Debug)]
pub struct ExecRequest {
    /// The user-supplied remote command words, in order.
    pub cmd_words: Vec<String>,
    /// An optional container-name override.
    pub container: Option<String>,
    /// The terminal option: its presence alone selects the spawned-terminal
    /// strategy, and its value, when given, is the terminal-launcher string.
    pub terminal: FlagInput,
    /// The raw tty option.
    pub tty: FlagInput,
    /// The raw stdin option.
    pub stdin: FlagInput,
}

/// Session-level configuration owned by the enclosing shell.
#[derive(Clone, Debug)]
pub struct Settings {
    /// The configured default terminal-launcher string, if any.
    pub default_terminal: Option<String>,
    /// The display separator emitted between processed objects.
    pub range_separator: String,
}

/// One target object's recorded outcome.
#[derive(Debug)]
pub struct ObjectOutcome {
    pub name: String,
    pub result: Result<(), ExecError>,
}

/// Whether the request selects the spawned-terminal strategy: the terminal
/// option's presence alone decides.
pub open spec fn uses_terminal(req: ExecRequest) -> bool {
    !(req.terminal is Absent)
}

/// Well-formedness of a selection: every eligible object carries a
/// namespace. The external selection mechanism guarantees this; its absence
/// would be an internal-invariant violation, not a user-facing error.
pub open spec fn selection_wf(sel: Seq<TargetObject>) -> bool {
    forall|i: int|
        0 <= i < sel.len() && (#[trigger] sel[i])@.is_pod ==> sel[i]@.namespace is Some
}

/// The per-object aggregation contract: one outcome per selected object, in
/// order; an ineligible object's failure is exactly the pods-only error, and
/// an eligible object's outcome has the chosen strategy's shape — so every
/// object is attempted and no failure is swallowed.
pub open spec fn per_object_outcomes_ok(
    out: Seq<ObjectOutcome>,
    sel: Seq<TargetObject>,
    use_term: bool,
) -> bool {
    &&& out.len() == sel.len()
    &&& forall|i: int| 0 <= i < sel.len() ==> (#[trigger] out[i]).name@ == sel[i]@.name
    &&& forall|i: int|
        0 <= i < sel.len() && !sel[i]@.is_pod ==> (#[trigger] out[i]).result == Err::<
            (),
            ExecError,
        >(ExecError::NotAPod)
    &&& forall|i: int|
        0 <= i < sel.len() && sel[i]@.is_pod ==> pipeline_outcome_shape(
            (#[trigger] out[i]).result,
            use_term,
        )
}

/// The dispatcher's whole contract: a malformed flag value short-circuits
/// the batch with the validation error, a missing context with the context
/// error; otherwise the batch is dispatched and every object's outcome is
/// aggregated per [`per_object_outcomes_ok`].
pub open spec fn dispatch_post(
    r: Result<Vec<ObjectOutcome>, ExecError>,
    has_context: bool,
    flags_valid: bool,
    sel: Seq<TargetObject>,
    use_term: bool,
) -> bool {
    &&& !flags_valid ==> r == Err::<Vec<ObjectOutcome>, ExecError>(ExecError::InvalidFlagValue)
    &&& flags_valid && !has_context ==> r == Err::<Vec<ObjectOutcome>, ExecError>(
        ExecError::NoContext,
    )
    &&& r is Ok <==> has_context && flags_valid
    &&& r matches Ok(out) ==> per_object_outcomes_ok(out@, sel, use_term)
}

/// The argument vector one eligible object's pipeline launches: the
/// spawned-terminal form when the terminal strategy is chosen, the inline
/// form otherwise.
pub open spec fn object_argv_spec(
    o: TargetObject,
    ctx_name: Seq<char>,
    mode: AttachMode,
    use_term: bool,
    launcher: Seq<char>,
    cont: Option<Seq<char>>,
    cmd: Seq<Seq<char>>,
) -> Seq<Seq<char>> {
    if use_term {
        terminal_argv_spec(launcher, o@.namespace->0, ctx_name, mode, o@.name, cont, cmd)
    } else {
        inline_argv_spec(o@.namespace->0, ctx_name, mode, o@.name, cont, cmd)
    }
}

/// The eligibility gate and the Builder, composed for one target object: an
/// ineligible object fails with exactly the pods-only error and no
/// invocation is built; an eligible one yields exactly the argument vector
/// of [`object_argv_spec`].
pub fn prepare_object(
    obj: &TargetObject,
    ctx_name: &str,
    mode: AttachMode,
    use_term: bool,
    launcher: &str,
    container: &Option<String>,
    cmd: &Vec<String>,
) -> (r: Result<Invocation, ExecError>)
    requires
        obj@.is_pod ==> obj@.namespace is Some,
    ensures
        r is Ok <==> obj@.is_pod,
        !obj@.is_pod ==> r == Err::<Invocation, ExecError>(ExecError::NotAPod),
        r matches Ok(inv) ==> inv@ == object_argv_spec(
            *obj,
            ctx_name@,
            mode,
            use_term,
            launcher@,
            container.deep_view(),
            cmd.deep_view(),
        ),
        r matches Ok(inv) ==> inv@.len() >= 1,
{
    if obj.is_pod {
        let ns: &String = match &obj.namespace {
            Some(ns) => ns,
            None => unreached(),
        };
        if use_term {
            Ok(
                build_terminal_invocation(
                    launcher,
                    ns.as_str(),
                    ctx_name,
                    mode,
                    obj.name.as_str(),
                    container,
                    cmd,
                ),
            )
        } else {
            Ok(
                build_inline_invocation(
                    ns.as_str(),
                    ctx_name,
                    mode,
                    obj.name.as_str(),
                    container,
                    cmd,
                ),
            )
        }
    } else {
        Err(ExecError::NotAPod)
    }
}

/// Dispatches one exec request across the selection: resolves the attach
/// mode once, checks the context once, then — for every object in order —
/// gates on eligibility, builds the invocation and runs it under the chosen
/// strategy, emitting the separator between objects. Per-object failures are
/// recorded and do not stop the remaining objects.
pub fn dispatch_exec(
    context: &Option<ClusterContext>,
    selection: &Vec<TargetObject>,
    req: &ExecRequest,
    settings: &Settings,
) -> (r: Result<Vec<ObjectOutcome>, ExecError>)
    requires
        selection_wf(selection@),
    ensures
        dispatch_post(
            r,
            (*context) is Some,
            resolved_mode(req.tty, req.stdin) is Some,
            selection@,
            uses_terminal(*req),
        ),
{
    let mode = match resolve_attach_mode(&req.tty, &req.stdin) {
        Some(m) => m,
        None => {
            return Err(ExecError::InvalidFlagValue);
        },
    };
    let ctx = match context {
        Some(c) => c,
        None => {
            return Err(ExecError::NoContext);
        },
    };
    let use_term: bool = match &req.terminal {
        FlagInput::Absent => false,
        _ => true,
    };
    let term_value: Option<String> = match &req.terminal {
        FlagInput::PresentWithValue(s) => Some(s.clone()),
        _ => None,
    };
    let launcher = choose_launcher(&term_value, &settings.default_terminal);
    let n = selection.len();
    let mut outcomes: Vec<ObjectOutcome> = Vec::new();
    let mut i: usize = 0;
    while i < n
        invariant
            n == selection@.len(),
            i <= n,
            selection_wf(selection@),
            use_term == uses_terminal(*req),
            outcomes@.len() == i,
            forall|j: int| 0 <= j < i ==> (#[trigger] outcomes@[j]).name@ == selection@[j]@.name,
            forall|j: int|
                0 <= j < i && !selection@[j]@.is_pod ==> (#[trigger] outcomes@[j]).result == Err::<
                    (),
                    ExecError,
                >(ExecError::NotAPod),
            forall|j: int|
                0 <= j < i && selection@[j]@.is_pod ==> pipeline_outcome_shape(
                    (#[trigger] outcomes@[j]).result,
                    use_term,
                ),
        decreases n - i,
    {
        if i > 0 {
            emit_line(settings.range_separator.as_str());
        }
        let obj = &selection[i];
        let prepared = prepare_object(
            obj,
            ctx.name.as_str(),
            mode,
            use_term,
            launcher.as_str(),
            &req.container,
            &req.cmd_words,
        );
        let result: Result<(), ExecError> = match prepared {
            Ok(inv) => if use_term {
                execute_spawned(&inv, obj.name.as_str())
            } else {
                execute_inline(&inv)
            },
            Err(e) => Err(e),
        };
        outcomes.push(ObjectOutcome { name: obj.name.clone(), result });
        i = i + 1;
    }
    Ok(outcomes)
}

/// Law: an empty selection dispatches nothing — the batch as a whole
/// succeeds and the outcome list is empty, so zero pipeline invocations were
/// performed.
pub proof fn lemma_empty_selection_succeeds(
    r: Result<Vec<ObjectOutcome>, ExecError>,
    sel: Seq<TargetObject>,
    use_term: bool,
)
    requires
        dispatch_post(r, true, true, sel, use_term),
        sel.len() == 0,
    ensures
        r is Ok,
        r->Ok_0@.len() == 0,
{
}

/// Law: the dispatcher attempts every object of the selection. An
/// ineligible object `k` fails with exactly the pods-only error, while every
/// other, eligible object still gets an outcome of its own strategy's shape,
/// independent of `k`.
pub proof fn lemma_all_objects_attempted(
    out: Seq<ObjectOutcome>,
    sel: Seq<TargetObject>,
    use_term: bool,
    k: int,
)
    requires
        per_object_outcomes_ok(out, sel, use_term),
        0 <= k < sel.len(),
        !sel[k]@.is_pod,
    ensures
        out.len() == sel.len(),
        out[k].result == Err::<(), ExecError>(ExecError::NotAPod),
        forall|i: int|
            0 <= i < sel.len() && i != k && (#[trigger] sel[i])@.is_pod ==> pipeline_outcome_shape(
                out[i].result,
                use_term,
            ),
{
    assert forall|i: int|
        0 <= i < sel.len() && i != k && (#[trigger] sel[i])@.is_pod implies pipeline_outcome_shape(
        out[i].result,
        use_term,
    ) by {
        assert(pipeline_outcome_shape(out[i].result, use_term));
    }
}

/// Law: a missing cluster context short-circuits the whole batch — the
/// result is the context error alone, whatever the selection holds, so no
/// object's pipeline ran.
pub proof fn lemma_missing_context_short_circuits(
    r: Result<Vec<ObjectOutcome>, ExecError>,
    sel: Seq<TargetObject>,
    use_term: bool,
)
    requires
        dispatch_post(r, false, true, sel, use_term),
    ensures
        r == Err::<Vec<ObjectOutcome>, ExecError>(ExecError::NoContext),
{
}

} // verus!
