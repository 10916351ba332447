//! Pipeline orchestrator.  Planning turns one input line into an ordered
//! sequence of stages (parse errors abandon the whole line before any stage
//! runs).  Execution then walks the stages left to right as a state
//! machine: each step hands the surrounding process layer one action — run
//! a builtin, spawn an external command with a given stream configuration,
//! or finish by waiting on every spawned child — and consumes the event the
//! layer reports back.  A stage's output reaches its successor either as a
//! live OS pipe (external feeding external) or as captured bytes (a builtin
//! anywhere, or an external stage feeding a builtin), delivered to a child's
//! stdin by a concurrent feeder so a full pipe buffer cannot stall the walk.

use vstd::prelude::*;
use vstd::string::StringExecFns;

use crate::builtins::{builtin_of, spec_builtin_of, BuiltinKind};
use crate::errors::ParseError;
use crate::redirect::{
    init_redir_model, opens_model, resolution_model, resolve_from, setup_redirections, OpenRequest,
    RedirResolution, RedirTarget,
};
use crate::segment::{parse_pipeline, spec_segments};
use crate::shellio::StdioCfg;
use crate::tokenize::{split_words, tokenize_stage};

verus! {

/// One planned stage: its cleaned tokens (the command name first), the
/// builtin the name selects if any, and whether it is the terminal stage.
#[derive(Debug)]
pub struct StagePlan {
    pub tokens: Vec<String>,
    pub builtin: Option<BuiltinKind>,
    pub terminal: bool,
}

impl StagePlan {
    /// The stage names a command and its kind follows the builtin table.
    pub open spec fn wf(self) -> bool {
        self.tokens.len() >= 1 && self.builtin == spec_builtin_of(self.tokens.deep_view()[0])
    }
}

/// The fully parsed form of one input line: the stages in order, the files
/// the terminal stage's redirections open (in scan order), and the final
/// routing of the terminal stage's output streams.
#[derive(Debug)]
pub struct PipelinePlan {
    pub stages: Vec<StagePlan>,
    pub opens: Vec<OpenRequest>,
    pub stdout: RedirTarget,
    pub stderr: RedirTarget,
}

impl PipelinePlan {
    /// Every stage is well formed and only the last stage can be terminal.
    pub open spec fn wf(self) -> bool {
        &&& forall|i: int| 0 <= i < self.stages.len() ==> (#[trigger] self.stages@[i]).wf()
        &&& forall|i: int|
            0 <= i < self.stages.len() ==> ((#[trigger] self.stages@[i]).terminal ==> i
                == self.stages.len() - 1)
    }
}

/// Abstract form of one stage.
#[verifier::ext_equal]
pub struct StageModel {
    pub tokens: Seq<Seq<char>>,
    pub builtin: Option<BuiltinKind>,
    pub terminal: bool,
}

/// Abstract form of a plan.
#[verifier::ext_equal]
pub struct PlanModel {
    pub stages: Seq<StageModel>,
    pub opens: Seq<(Seq<char>, bool)>,
    pub stdout: RedirTarget,
    pub stderr: RedirTarget,
}

pub open spec fn init_plan_model() -> PlanModel {
    PlanModel {
        stages: Seq::empty(),
        opens: Seq::empty(),
        stdout: RedirTarget::Inherited,
        stderr: RedirTarget::Inherited,
    }
}

pub open spec fn stage_model_of(toks: Seq<Seq<char>>, terminal: bool) -> StageModel {
    StageModel { tokens: toks, builtin: spec_builtin_of(toks[0]), terminal }
}

pub open spec fn stage_view(s: StagePlan) -> StageModel {
    StageModel { tokens: s.tokens.deep_view(), builtin: s.builtin, terminal: s.terminal }
}

pub open spec fn stages_view(v: Vec<StagePlan>) -> Seq<StageModel> {
    Seq::new(v@.len(), |i: int| stage_view(v@[i]))
}

pub open spec fn plan_view(p: PipelinePlan) -> PlanModel {
    PlanModel {
        stages: stages_view(p.stages),
        opens: opens_model(p.opens@),
        stdout: p.stdout,
        stderr: p.stderr,
    }
}

/// Planning one line, segment by segment from position `i`.  Each segment is
/// word-split (unterminated quoting abandons the line); segments with no
/// words are dropped; the last segment alone passes through the redirection
/// resolver, and keeps its stage only when arguments remain after the
/// operators are consumed — the files are opened either way.
pub open spec fn plan_from(segs: Seq<Seq<char>>, i: int, acc: PlanModel) -> Result<
    PlanModel,
    ParseError,
>
    decreases segs.len() - i,
    when 0 <= i <= segs.len()
{
    if i >= segs.len() {
        Ok(acc)
    } else {
        match split_words(segs[i]) {
            None => Err(ParseError::Tokenize),
            Some(toks) => {
                if toks.len() == 0 {
                    plan_from(segs, i + 1, acc)
                } else if i == segs.len() - 1 {
                    match resolve_from(toks, 0, init_redir_model()) {
                        Err(op) => Err(ParseError::MissingFilename { op }),
                        Ok(m) => {
                            let acc2 = PlanModel {
                                opens: m.opens,
                                stdout: m.stdout,
                                stderr: m.stderr,
                                ..acc
                            };
                            if m.clean.len() == 0 {
                                plan_from(segs, i + 1, acc2)
                            } else {
                                plan_from(
                                    segs,
                                    i + 1,
                                    PlanModel {
                                        stages: acc2.stages.push(stage_model_of(m.clean, true)),
                                        ..acc2
                                    },
                                )
                            }
                        },
                    }
                } else {
                    plan_from(
                        segs,
                        i + 1,
                        PlanModel { stages: acc.stages.push(stage_model_of(toks, false)), ..acc },
                    )
                }
            },
        }
    }
}

/// The plan one input line stands for.
pub open spec fn spec_plan(input: Seq<char>) -> Result<PlanModel, ParseError> {
    plan_from(spec_segments(input), 0, init_plan_model())
}

/// Parses one input line into a pipeline plan: segments, word-splitting,
/// builtin selection, and the terminal stage's redirections.  Any parse
/// error abandons the whole line before any stage runs.
pub fn plan_pipeline(input: &str) -> (r: Result<PipelinePlan, ParseError>)
    ensures
        r matches Ok(p) ==> spec_plan(input@) == Ok::<PlanModel, ParseError>(plan_view(p))
            && p.wf(),
        r matches Err(e) ==> spec_plan(input@) == Err::<PlanModel, ParseError>(e),
{
    let segments = parse_pipeline(input);
    let ghost segs = spec_segments(input@);
    let mut stages: Vec<StagePlan> = Vec::new();
    let mut opens: Vec<OpenRequest> = Vec::new();
    let mut stdout_t = RedirTarget::Inherited;
    let mut stderr_t = RedirTarget::Inherited;
    let n = segments.len();
    let mut i: usize = 0;
    proof {
        assert(PlanModel {
            stages: stages_view(stages),
            opens: opens_model(opens@),
            stdout: stdout_t,
            stderr: stderr_t,
        } =~= init_plan_model());
    }
    while i < n
        invariant
            n == segments.len(),
            segments.deep_view() == segs,
            segs == spec_segments(input@),
            i <= n,
            plan_from(segs, 0, init_plan_model()) == plan_from(
                segs,
                i as int,
                PlanModel {
                    stages: stages_view(stages),
                    opens: opens_model(opens@),
                    stdout: stdout_t,
                    stderr: stderr_t,
                },
            ),
            forall|j: int| 0 <= j < stages.len() ==> (#[trigger] stages@[j]).wf(),
            forall|j: int|
                0 <= j < stages.len() ==> ((#[trigger] stages@[j]).terminal ==> i as int == n
                    && j == stages.len() - 1),
        decreases n - i,
    {
        let ghost st = PlanModel {
            stages: stages_view(stages),
            opens: opens_model(opens@),
            stdout: stdout_t,
            stderr: stderr_t,
        };
        proof {
            assert(segs[i as int] == segments@[i as int]@);
        }
        let toks = match tokenize_stage(segments[i].as_str()) {
            Ok(t) => t,
            Err(e) => {
                proof {
                    assert(segs.len() == n);
                    assert(plan_from(segs, i as int, st) == Err::<PlanModel, ParseError>(
                        ParseError::Tokenize,
                    ));
                }
                return Err(e);
            },
        };
        if toks.len() == 0 {
            i += 1;
        } else if i == n - 1 {
            let res = match setup_redirections(&toks) {
                Ok(res) => res,
                Err(e) => {
                    proof {
                        assert(segs.len() == n);
                        assert(split_words(segs[i as int])->0 == toks.deep_view());
                        let op = e->MissingFilename_op;
                        assert(plan_from(segs, i as int, st) == Err::<PlanModel, ParseError>(
                            ParseError::MissingFilename { op },
                        ));
                    }
                    return Err(e);
                },
            };
            let ghost m = resolution_model(res);
            let RedirResolution { tokens: clean, opens: o, stdout: so, stderr: se } = res;
            opens = o;
            stdout_t = so;
            stderr_t = se;
            if clean.len() > 0 {
                proof {
                    assert(clean.deep_view()[0] == clean@[0]@);
                }
                let b = builtin_of(clean[0].as_str());
                let ghost prev = stages_view(stages);
                stages.push(StagePlan { tokens: clean, builtin: b, terminal: true });
                proof {
                    assert(stages_view(stages) =~= prev.push(stage_model_of(m.clean, true)));
                }
            }
            i += 1;
        } else {
            proof {
                assert(toks.deep_view()[0] == toks@[0]@);
            }
            let b = builtin_of(toks[0].as_str());
            let ghost toks_dv = toks.deep_view();
            let ghost prev = stages_view(stages);
            stages.push(StagePlan { tokens: toks, builtin: b, terminal: false });
            proof {
                assert(stages_view(stages) =~= prev.push(stage_model_of(toks_dv, false)));
            }
            i += 1;
        }
    }
    let p = PipelinePlan { stages, opens, stdout: stdout_t, stderr: stderr_t };
    proof {
        assert(plan_view(p) =~= PlanModel {
            stages: stages_view(p.stages),
            opens: opens_model(p.opens@),
            stdout: stdout_t,
            stderr: stderr_t,
        });
    }
    Ok(p)
}

/// What feeds a stage's standard input.
pub enum Upstream {
    /// Nothing: the stage inherits the interpreter's input stream.
    Start,
    /// A live OS pipe from the previous external stage.
    Live,
    /// Captured bytes: a previous builtin's output, or a previous external
    /// stage's output captured because this stage runs in-process.
    Buffer { data: Vec<u8> },
}

/// What the orchestrator asks the surrounding process layer to do next.
pub enum Action {
    /// Run a builtin in-process.  `input` holds captured upstream bytes when
    /// there are any; a terminal builtin writes its buffer to the resolved
    /// terminal sink, any other hands its output back as captured bytes.
    RunBuiltin { kind: BuiltinKind, tokens: Vec<String>, input: Option<Vec<u8>>, terminal: bool },
    /// Spawn an external command with the given stream configuration.
    /// `feed` holds captured bytes to deliver to the child's stdin on a
    /// concurrent feeder task; `capture` asks for the child's entire output
    /// (its successor runs in-process).
    Spawn {
        tokens: Vec<String>,
        stdin: StdioCfg,
        stdout: StdioCfg,
        stderr: StdioCfg,
        feed: Option<Vec<u8>>,
        capture: bool,
        terminal: bool,
    },
    /// Construction is over: report the error, if any, on the error stream,
    /// then wait for every child spawned so far to exit.
    Finish { error: Option<String> },
}

/// What the process layer reports back about the last action.
pub enum Event {
    /// The builtin ran; its captured output when the stage was not terminal.
    BuiltinDone { output: Option<Vec<u8>> },
    /// The external command was spawned; when its stdout was piped and not
    /// captured, that pipe is live for the next stage.
    SpawnOk,
    /// The external command was spawned, waited on, and its entire output
    /// captured.
    Captured { data: Vec<u8> },
    /// The command could not be resolved or spawned.
    SpawnFail,
}

/// The one action the orchestrator issues for stage `i` given its upstream:
/// a builtin runs in-process on the captured bytes; an external command is
/// spawned with stdin piped exactly when an upstream exists, fed exactly
/// when the upstream is captured bytes, its output captured exactly when
/// the next stage is a builtin, and its sinks following the resolved
/// redirection targets when the stage is terminal.
pub open spec fn stage_action(plan: PipelinePlan, i: int, up: Upstream, a: Action) -> bool {
    let st = plan.stages@[i];
    match st.builtin {
        Some(k) => a matches Action::RunBuiltin { kind, tokens, input, terminal } && kind == k
            && tokens.deep_view() == st.tokens.deep_view() && terminal == st.terminal && input == (
        match up {
            Upstream::Buffer { data } => Some(data),
            _ => None::<Vec<u8>>,
        }),
        None => a matches Action::Spawn { tokens, stdin, stdout, stderr, feed, capture, terminal }
            && tokens.deep_view() == st.tokens.deep_view() && stdin == (if up is Start {
            StdioCfg::Inherit
        } else {
            StdioCfg::Piped
        }) && feed == (match up {
            Upstream::Buffer { data } => Some(data),
            _ => None::<Vec<u8>>,
        }) && capture == (i + 1 < plan.stages.len() && plan.stages@[i + 1].builtin is Some)
            && stdout == (if st.terminal {
            if plan.stdout is File {
                StdioCfg::Piped
            } else {
                StdioCfg::Inherit
            }
        } else {
            StdioCfg::Piped
        }) && stderr == (if st.terminal && plan.stderr is File {
            StdioCfg::Piped
        } else {
            StdioCfg::Inherit
        }) && terminal == st.terminal,
    }
}

/// The events the process layer may report for stage `i`: a builtin reports
/// its run (with captured output exactly when the stage is not terminal); an
/// external stage reports a spawn failure, or its captured output when the
/// orchestrator asked for a capture, or a plain successful spawn otherwise.
pub open spec fn event_matches(plan: PipelinePlan, i: int, ev: Event) -> bool {
    let st = plan.stages@[i];
    match st.builtin {
        Some(_) => ev matches Event::BuiltinDone { output } && (output is Some <==> !st.terminal),
        None => {
            if i + 1 < plan.stages.len() && plan.stages@[i + 1].builtin is Some {
                ev is Captured || ev is SpawnFail
            } else {
                ev is SpawnOk || ev is SpawnFail
            }
        },
    }
}

/// The upstream an event leaves for the next stage.
pub open spec fn event_upstream(ev: Event) -> Upstream {
    match ev {
        Event::BuiltinDone { output } => match output {
            Some(data) => Upstream::Buffer { data },
            None => Upstream::Start,
        },
        Event::SpawnOk => Upstream::Live,
        Event::Captured { data } => Upstream::Buffer { data },
        Event::SpawnFail => Upstream::Start,
    }
}

/// The walk over one planned pipeline: which stage awaits its event, and
/// whether construction is over.
pub struct PipelineRun {
    pub plan: PipelinePlan,
    pub idx: usize,
    pub done: bool,
}

impl PipelineRun {
    pub open spec fn wf(self) -> bool {
        self.plan.wf() && (self.done || self.idx < self.plan.stages.len())
    }
}

fn action_for(plan: &PipelinePlan, i: usize, up: Upstream) -> (a: Action)
    requires
        plan.wf(),
        i < plan.stages.len(),
    ensures
        stage_action(*plan, i as int, up, a),
{
    let (data_opt, was_start): (Option<Vec<u8>>, bool) = match up {
        Upstream::Start => (None, true),
        Upstream::Live => (None, false),
        Upstream::Buffer { data } => (Some(data), false),
    };
    let st = &plan.stages[i];
    match &st.builtin {
        Some(k) => Action::RunBuiltin {
            kind: *k,
            tokens: st.tokens.clone(),
            input: data_opt,
            terminal: st.terminal,
        },
        None => {
            let stdin_cfg = if was_start {
                StdioCfg::Inherit
            } else {
                StdioCfg::Piped
            };
            let capture = i + 1 < plan.stages.len() && plan.stages[i + 1].builtin.is_some();
            let stdout_cfg = if st.terminal {
                match plan.stdout {
                    RedirTarget::File { .. } => StdioCfg::Piped,
                    RedirTarget::Inherited => StdioCfg::Inherit,
                }
            } else {
                StdioCfg::Piped
            };
            let stderr_cfg = if st.terminal {
                match plan.stderr {
                    RedirTarget::File { .. } => StdioCfg::Piped,
                    RedirTarget::Inherited => StdioCfg::Inherit,
                }
            } else {
                StdioCfg::Inherit
            };
            Action::Spawn {
                tokens: st.tokens.clone(),
                stdin: stdin_cfg,
                stdout: stdout_cfg,
                stderr: stderr_cfg,
                feed: data_opt,
                capture,
                terminal: st.terminal,
            }
        },
    }
}

/// Begins the walk over a plan.  A plan with no stages finishes at once;
/// otherwise the first stage's action is issued with no upstream.
pub fn start_pipeline(plan: PipelinePlan) -> (r: (PipelineRun, Action))
    requires
        plan.wf(),
    ensures
        r.0.wf(),
        r.0.plan == plan,
        plan.stages.len() == 0 ==> r.0.done && (r.1 matches Action::Finish { error } && error
            is None),
        plan.stages.len() > 0 ==> !r.0.done && r.0.idx == 0 && stage_action(
            plan,
            0,
            Upstream::Start,
            r.1,
        ),
{
    if plan.stages.len() == 0 {
        (PipelineRun { plan, idx: 0, done: true }, Action::Finish { error: None })
    } else {
        let a = action_for(&plan, 0, Upstream::Start);
        (PipelineRun { plan, idx: 0, done: false }, a)
    }
}

fn advance(run: &mut PipelineRun, up: Upstream) -> (a: Action)
    requires
        old(run).wf(),
        !old(run).done,
    ensures
        final(run).wf(),
        final(run).plan == old(run).plan,
        old(run).idx + 1 < old(run).plan.stages.len() ==> !final(run).done && final(run).idx == old(
            run,
        ).idx + 1 && stage_action(old(run).plan, old(run).idx + 1 as int, up, a),
        old(run).idx + 1 >= old(run).plan.stages.len() ==> final(run).done && (
        a matches Action::Finish { error } && error is None),
{
    if run.idx + 1 < run.plan.stages.len() {
        run.idx = run.idx + 1;
        action_for(&run.plan, run.idx, up)
    } else {
        run.done = true;
        Action::Finish { error: None }
    }
}

/// Consumes the event reported for the awaiting stage and issues the next
/// action.  A spawn failure ends construction at once with an error naming
/// the command — later stages are never constructed, and the finishing
/// action still waits on every child already spawned.  Otherwise the walk
/// advances: the event's upstream feeds the next stage's action, and after
/// the last stage the pipeline finishes cleanly.
pub fn step_pipeline(run: &mut PipelineRun, ev: Event) -> (a: Action)
    requires
        old(run).wf(),
        !old(run).done,
        event_matches(old(run).plan, old(run).idx as int, ev),
    ensures
        final(run).wf(),
        final(run).plan == old(run).plan,
        ev is SpawnFail ==> final(run).done && (a matches Action::Finish { error }
            && error matches Some(m) && m@ == old(run).plan.stages@[old(
            run,
        ).idx as int].tokens.deep_view()[0] + ": command not found"@),
        !(ev is SpawnFail) && old(run).idx + 1 < old(run).plan.stages.len() ==> !final(run).done
            && final(run).idx == old(run).idx + 1 && stage_action(
            old(run).plan,
            old(run).idx + 1 as int,
            event_upstream(ev),
            a,
        ),
        !(ev is SpawnFail) && old(run).idx + 1 >= old(run).plan.stages.len() ==> final(run).done
            && (a matches Action::Finish { error } && error is None),
{
    match ev {
        Event::SpawnFail => {
            let ghost st = run.plan.stages@[run.idx as int];
            proof {
                assert(run.plan.stages@[run.idx as int].tokens.deep_view()[0]
                    == run.plan.stages@[run.idx as int].tokens@[0]@);
            }
            let mut msg = run.plan.stages[run.idx].tokens[0].clone();
            msg.append(": command not found");
            run.done = true;
            Action::Finish { error: Some(msg) }
        },
        Event::BuiltinDone { output } => {
            match output {
                Some(data) => advance(run, Upstream::Buffer { data }),
                None => advance(run, Upstream::Start),
            }
        },
        Event::SpawnOk => advance(run, Upstream::Live),
        Event::Captured { data } => advance(run, Upstream::Buffer { data }),
    }
}

/// The action a one-stage pipeline calls for, stated directly as the
/// single-command run: a builtin runs in-process with no captured input; an
/// external command is spawned with stdin inherited, nothing fed, nothing
/// captured, and its sinks following the resolved redirection targets.
pub open spec fn single_command_action(plan: PipelinePlan, a: Action) -> bool {
    let st = plan.stages@[0];
    match st.builtin {
        Some(k) => a matches Action::RunBuiltin { kind, tokens, input, terminal } && kind == k
            && tokens.deep_view() == st.tokens.deep_view() && input is None && terminal,
        None => a matches Action::Spawn { tokens, stdin, stdout, stderr, feed, capture, terminal }
            && tokens.deep_view() == st.tokens.deep_view() && stdin == StdioCfg::Inherit && feed
            is None && !capture && stdout == (if plan.stdout is File {
            StdioCfg::Piped
        } else {
            StdioCfg::Inherit
        }) && stderr == (if plan.stderr is File {
            StdioCfg::Piped
        } else {
            StdioCfg::Inherit
        }) && terminal,
    }
}

/// A line of at most one segment plans into at most one stage, and a stage
/// it does keep is terminal.
pub proof fn lemma_one_segment_plan(segs: Seq<Seq<char>>, r: PlanModel)
    requires
        segs.len() <= 1,
        plan_from(segs, 0, init_plan_model()) == Ok::<PlanModel, ParseError>(r),
    ensures
        r.stages.len() <= 1,
        r.stages.len() == 1 ==> r.stages[0].terminal,
{
    let acc = init_plan_model();
    if segs.len() == 0 {
        assert(plan_from(segs, 0, acc) == Ok::<PlanModel, ParseError>(acc));
    } else {
        match split_words(segs[0]) {
            None => {
                assert(plan_from(segs, 0, acc) is Err);
            },
            Some(toks) => {
                if toks.len() == 0 {
                    assert(plan_from(segs, 1, acc) == Ok::<PlanModel, ParseError>(acc));
                } else {
                    match resolve_from(toks, 0, init_redir_model()) {
                        Err(op) => {
                            assert(plan_from(segs, 0, acc) is Err);
                        },
                        Ok(m) => {
                            let acc2 = PlanModel {
                                opens: m.opens,
                                stdout: m.stdout,
                                stderr: m.stderr,
                                ..acc
                            };
                            if m.clean.len() == 0 {
                                assert(plan_from(segs, 1, acc2) == Ok::<PlanModel, ParseError>(
                                    acc2,
                                ));
                            } else {
                                let acc3 = PlanModel {
                                    stages: acc2.stages.push(stage_model_of(m.clean, true)),
                                    ..acc2
                                };
                                assert(plan_from(segs, 1, acc3) == Ok::<PlanModel, ParseError>(
                                    acc3,
                                ));
                                assert(r.stages[0].terminal);
                            }
                        },
                    }
                }
            },
        }
    }
}

/// For any input line without `|`, the plan holds at most one stage and that
/// stage is terminal — so, by `lemma_single_stage_uniform`, the general
/// stage walk at one stage and the single-command run coincide.
pub proof fn lemma_single_command_run(input: Seq<char>, r: PlanModel)
    requires
        forall|j: int| 0 <= j < input.len() ==> input[j] != '|',
        spec_plan(input) == Ok::<PlanModel, ParseError>(r),
    ensures
        r.stages.len() <= 1,
        r.stages.len() == 1 ==> r.stages[0].terminal,
{
    crate::segment::lemma_no_pipe_single_segment(input);
    lemma_one_segment_plan(spec_segments(input), r);
}

/// A single-stage pipeline is not a special case: the action the
/// orchestrator issues for a one-stage plan is exactly the single-command
/// action.
pub proof fn lemma_single_stage_uniform(plan: PipelinePlan, a: Action)
    requires
        plan.wf(),
        plan.stages.len() == 1,
        plan.stages@[0].terminal,
        stage_action(plan, 0, Upstream::Start, a),
    ensures
        single_command_action(plan, a),
{
}

} // verus!
