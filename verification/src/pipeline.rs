//! The stage plans of the per-file pipelines: which stages run, in what
//! order, after which other stages, and under which condition; and how the
//! cached single-file text pipeline starts on a parsed file.

use vstd::prelude::*;
use crate::progress::{StageId, is_transcribe_stage};

verus! {

/// When a stage runs.
#[derive(Clone, Copy, Debug, PartialEq, Eq, Structural)]
pub enum StageGate {
    /// Every time.
    Always,
    /// Only when speaker diarization was requested.
    DiarizationRequested,
}

/// One stage of a plan: its id, the stages it runs after, and its gate.
#[derive(Clone, Debug, PartialEq, Eq)]
pub struct StageSpec {
    pub id: StageId,
    pub deps: Vec<StageId>,
    pub gate: StageGate,
}

/// The plan as plain values.
pub open spec fn plan_view(plan: Seq<StageSpec>) -> Seq<(StageId, Seq<StageId>, StageGate)> {
    plan.map_values(|s: StageSpec| (s.id, s.deps@, s.gate))
}

/// The transcription plan: recognition, optional diarization, clean-up,
/// CHAT building, then the optional segmentation and morphosyntax stages,
/// and serialization last, each stage after the one before it.
pub open spec fn spec_transcribe_plan(diarize: bool, with_utseg: bool, with_morphosyntax: bool) -> Seq<(StageId, Seq<StageId>, StageGate)> {
    let postprocess_dep = if diarize { StageId::SpeakerDiarization } else { StageId::AsrInfer };
    let base = seq![
        (StageId::AsrInfer, Seq::<StageId>::empty(), StageGate::Always),
        (StageId::SpeakerDiarization, seq![StageId::AsrInfer], StageGate::DiarizationRequested),
        (StageId::AsrPostprocess, seq![postprocess_dep], StageGate::Always),
        (StageId::BuildChat, seq![StageId::AsrPostprocess], StageGate::Always),
    ];
    let with_seg = if with_utseg {
        base.push((StageId::OptionalUtseg, seq![StageId::BuildChat], StageGate::Always))
    } else {
        base
    };
    let with_morph = if with_morphosyntax {
        with_seg.push((StageId::OptionalMorphosyntax,
            seq![if with_utseg { StageId::OptionalUtseg } else { StageId::BuildChat }], StageGate::Always))
    } else {
        with_seg
    };
    let final_dep = if with_morphosyntax {
        StageId::OptionalMorphosyntax
    } else if with_utseg {
        StageId::OptionalUtseg
    } else {
        StageId::BuildChat
    };
    with_morph.push((StageId::Serialize, seq![final_dep], StageGate::Always))
}

fn stage(id: StageId, deps: Vec<StageId>, gate: StageGate) -> (r: StageSpec)
    ensures
        r.id == id,
        r.deps == deps,
        r.gate == gate,
{
    StageSpec { id, deps, gate }
}

fn one(id: StageId) -> (r: Vec<StageId>)
    ensures
        r@ == seq![id],
{
    let mut v: Vec<StageId> = Vec::new();
    v.push(id);
    assert(v@ =~= seq![id]);
    v
}

/// Builds the transcription plan for the requested optional stages.
pub fn transcribe_plan(diarize: bool, with_utseg: bool, with_morphosyntax: bool) -> (r: Vec<StageSpec>)
    ensures
        plan_view(r@) == spec_transcribe_plan(diarize, with_utseg, with_morphosyntax),
{
    let postprocess_dep = if diarize { StageId::SpeakerDiarization } else { StageId::AsrInfer };
    let mut stages: Vec<StageSpec> = Vec::new();
    stages.push(stage(StageId::AsrInfer, Vec::new(), StageGate::Always));
    stages.push(stage(StageId::SpeakerDiarization, one(StageId::AsrInfer), StageGate::DiarizationRequested));
    stages.push(stage(StageId::AsrPostprocess, one(postprocess_dep), StageGate::Always));
    stages.push(stage(StageId::BuildChat, one(StageId::AsrPostprocess), StageGate::Always));
    if with_utseg {
        stages.push(stage(StageId::OptionalUtseg, one(StageId::BuildChat), StageGate::Always));
    }
    if with_morphosyntax {
        let dep = if with_utseg { StageId::OptionalUtseg } else { StageId::BuildChat };
        stages.push(stage(StageId::OptionalMorphosyntax, one(dep), StageGate::Always));
    }
    let final_dep = if with_morphosyntax {
        StageId::OptionalMorphosyntax
    } else if with_utseg {
        StageId::OptionalUtseg
    } else {
        StageId::BuildChat
    };
    stages.push(stage(StageId::Serialize, one(final_dep), StageGate::Always));
    assert(plan_view(stages@) =~= spec_transcribe_plan(diarize, with_utseg, with_morphosyntax));
    stages
}

/// The morphosyntax plan: a straight chain from parsing to serialization.
pub open spec fn morphosyntax_stage_order() -> Seq<StageId> {
    seq![
        StageId::Parse,
        StageId::PreValidate,
        StageId::ClearExisting,
        StageId::CollectPayloads,
        StageId::PartitionCache,
        StageId::InjectCacheHits,
        StageId::Infer,
        StageId::ApplyResults,
        StageId::CacheStore,
        StageId::PostValidate,
        StageId::Serialize,
    ]
}

/// Stage `i` of the chain runs after stage `i - 1`, always.
pub open spec fn spec_morphosyntax_plan() -> Seq<(StageId, Seq<StageId>, StageGate)> {
    let order = morphosyntax_stage_order();
    Seq::new(order.len(), |i: int| (order[i], if i == 0 { Seq::empty() } else { seq![order[i - 1]] }, StageGate::Always))
}

fn morphosyntax_order_array() -> (r: [StageId; 11])
    ensures
        r@ == morphosyntax_stage_order(),
{
    let a = [
        StageId::Parse,
        StageId::PreValidate,
        StageId::ClearExisting,
        StageId::CollectPayloads,
        StageId::PartitionCache,
        StageId::InjectCacheHits,
        StageId::Infer,
        StageId::ApplyResults,
        StageId::CacheStore,
        StageId::PostValidate,
        StageId::Serialize,
    ];
    assert(a@ =~= morphosyntax_stage_order());
    a
}

/// Builds the morphosyntax plan.
pub fn morphosyntax_plan() -> (r: Vec<StageSpec>)
    ensures
        plan_view(r@) == spec_morphosyntax_plan(),
{
    let order = morphosyntax_order_array();
    let mut stages: Vec<StageSpec> = Vec::new();
    let mut i: usize = 0;
    while i < 11
        invariant
            i <= 11,
            order@ == morphosyntax_stage_order(),
            plan_view(stages@) == spec_morphosyntax_plan().take(i as int),
        decreases 11 - i,
    {
        let deps = if i == 0 { Vec::new() } else { one(order[i - 1]) };
        assert(deps@ == (if i == 0 { Seq::<StageId>::empty() } else { seq![order@[i - 1]] }));
        let s = stage(order[i], deps, StageGate::Always);
        let ghost before = stages@;
        stages.push(s);
        assert(stages@ == before.push(s));
        assert(plan_view(stages@) =~= plan_view(before).push((s.id, s.deps@, s.gate)));
        assert(spec_morphosyntax_plan()[i as int] == (s.id, s.deps@, s.gate));
        assert(spec_morphosyntax_plan().take(i + 1) =~= spec_morphosyntax_plan().take(i as int).push(spec_morphosyntax_plan()[i as int]));
        i = i + 1;
    }
    assert(spec_morphosyntax_plan().take(11) =~= spec_morphosyntax_plan());
    stages
}

/// A plan can run in order: stage ids are distinct, every dependency is an
/// earlier stage, and serialization comes last.
pub open spec fn well_ordered(plan: Seq<(StageId, Seq<StageId>, StageGate)>) -> bool {
    &&& plan.len() > 0
    &&& plan.last().0 == StageId::Serialize
    &&& forall|i: int, j: int| 0 <= i < j < plan.len() ==> (#[trigger] plan[i]).0 != (#[trigger] plan[j]).0
    &&& forall|i: int, k: int| 0 <= i < plan.len() && 0 <= k < plan[i].1.len()
        ==> #[trigger] runs_after_earlier(plan, i, plan[i].1[k])
}

/// Some stage before position `i` has the id `d`.
pub open spec fn runs_after_earlier(plan: Seq<(StageId, Seq<StageId>, StageGate)>, i: int, d: StageId) -> bool {
    exists|j: int| 0 <= j < i && (#[trigger] plan[j]).0 == d
}

/// Every transcription plan, whatever optional stages it carries, can run in
/// order; it holds the optional stages exactly when they were asked for, and
/// only transcription stages, so each has an operator-facing progress stage.
pub proof fn lemma_transcribe_plan_well_ordered(diarize: bool, with_utseg: bool, with_morphosyntax: bool)
    ensures
        well_ordered(spec_transcribe_plan(diarize, with_utseg, with_morphosyntax)),
        (exists|i: int| 0 <= i < spec_transcribe_plan(diarize, with_utseg, with_morphosyntax).len()
            && (#[trigger] spec_transcribe_plan(diarize, with_utseg, with_morphosyntax)[i]).0 == StageId::OptionalUtseg) == with_utseg,
        (exists|i: int| 0 <= i < spec_transcribe_plan(diarize, with_utseg, with_morphosyntax).len()
            && (#[trigger] spec_transcribe_plan(diarize, with_utseg, with_morphosyntax)[i]).0 == StageId::OptionalMorphosyntax) == with_morphosyntax,
        forall|i: int| 0 <= i < spec_transcribe_plan(diarize, with_utseg, with_morphosyntax).len()
            ==> is_transcribe_stage((#[trigger] spec_transcribe_plan(diarize, with_utseg, with_morphosyntax)[i]).0),
{
    let p = spec_transcribe_plan(diarize, with_utseg, with_morphosyntax);
    assert(p[0].0 == StageId::AsrInfer);
    assert(p[1].0 == StageId::SpeakerDiarization);
    assert(p[2].0 == StageId::AsrPostprocess);
    assert(p[3].0 == StageId::BuildChat);
    assert forall|i: int, k: int| 0 <= i < p.len() && 0 <= k < p[i].1.len()
        implies #[trigger] runs_after_earlier(p, i, p[i].1[k]) by {
        if i == 2 {
            if diarize { assert(p[1].0 == p[i].1[k]); } else { assert(p[0].0 == p[i].1[k]); }
        } else if i == 1 {
            assert(p[0].0 == p[i].1[k]);
        } else if i == 3 {
            assert(p[2].0 == p[i].1[k]);
        } else if i == 4 {
            assert(p[3].0 == p[i].1[k] || (with_utseg && p[i].0 == StageId::OptionalMorphosyntax));
            if p[i].1[k] == StageId::BuildChat {
                assert(p[3].0 == p[i].1[k]);
            } else {
                assert(p[i].1[k] == StageId::OptionalUtseg || p[i].1[k] == StageId::OptionalMorphosyntax);
            }
        } else if i == 5 {
            assert(p[4].0 == p[i].1[k]);
        } else if i == 6 {
            assert(p[5].0 == p[i].1[k]);
        }
    }
    if !with_utseg {
        assert forall|i: int| 0 <= i < p.len() implies (#[trigger] p[i]).0 != StageId::OptionalUtseg by {}
    } else {
        assert(p[4].0 == StageId::OptionalUtseg);
    }
    if !with_morphosyntax {
        assert forall|i: int| 0 <= i < p.len() implies (#[trigger] p[i]).0 != StageId::OptionalMorphosyntax by {}
    } else if with_utseg {
        assert(p[5].0 == StageId::OptionalMorphosyntax);
    } else {
        assert(p[4].0 == StageId::OptionalMorphosyntax);
    }
}

/// Position of a stage in the morphosyntax chain.
pub open spec fn stage_rank(s: StageId) -> int {
    match s {
        StageId::Parse => 0,
        StageId::PreValidate => 1,
        StageId::ClearExisting => 2,
        StageId::CollectPayloads => 3,
        StageId::PartitionCache => 4,
        StageId::InjectCacheHits => 5,
        StageId::Infer => 6,
        StageId::ApplyResults => 7,
        StageId::CacheStore => 8,
        StageId::PostValidate => 9,
        StageId::Serialize => 10,
        _ => -1,
    }
}

/// The morphosyntax plan can run in order too.
pub proof fn lemma_morphosyntax_plan_well_ordered()
    ensures
        well_ordered(spec_morphosyntax_plan()),
{
    let p = spec_morphosyntax_plan();
    let o = morphosyntax_stage_order();
    assert forall|i: int| 0 <= i < 11 implies stage_rank(#[trigger] o[i]) == i by {
        if i == 0 {} else if i == 1 {} else if i == 2 {} else if i == 3 {} else if i == 4 {}
        else if i == 5 {} else if i == 6 {} else if i == 7 {} else if i == 8 {} else if i == 9 {} else {}
    }
    assert forall|i: int, j: int| 0 <= i < j < p.len() implies (#[trigger] p[i]).0 != (#[trigger] p[j]).0 by {
        assert(stage_rank(o[i]) == i);
        assert(stage_rank(o[j]) == j);
    }
    assert forall|i: int, k: int| 0 <= i < p.len() && 0 <= k < p[i].1.len()
        implies #[trigger] runs_after_earlier(p, i, p[i].1[k]) by {
        assert(i > 0);
        assert(p[i].1 == seq![o[i - 1]]);
        assert(p[i].1[k] == o[i - 1]);
        assert(p[i - 1].0 == p[i].1[k]);
    }
    assert(p.len() == 11);
    assert(p.last() == p[10]);
    assert(p[10].0 == o[10]);

}

/// How the cached single-file text pipeline starts on a parsed file.
#[derive(Clone, Copy, Debug, PartialEq, Eq, Structural)]
pub enum TextPipelineStart {
    /// Serialize the file unchanged: it is a dummy, or nothing in it needs
    /// inference.
    PassThrough,
    /// The file does not pass the command's pre-validation.
    Reject,
    /// Look the items up in the cache and infer the misses.
    Run,
}

pub fn cached_text_pipeline_start(is_dummy: bool, pre_validation_ok: bool, items_empty: bool) -> (r: TextPipelineStart)
    ensures
        r == (if is_dummy {
            TextPipelineStart::PassThrough
        } else if !pre_validation_ok {
            TextPipelineStart::Reject
        } else if items_empty {
            TextPipelineStart::PassThrough
        } else {
            TextPipelineStart::Run
        }),
{
    if is_dummy {
        TextPipelineStart::PassThrough
    } else if !pre_validation_ok {
        TextPipelineStart::Reject
    } else if items_empty {
        TextPipelineStart::PassThrough
    } else {
        TextPipelineStart::Run
    }
}

} // verus!
