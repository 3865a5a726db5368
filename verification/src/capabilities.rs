//! The worker capability gate: which released commands the server offers,
//! derived from the infer tasks workers report, and the checks on requested
//! commands against that offer.

use vstd::prelude::*;
use vstd::string::*;
use crate::commands::{
    ReleasedCommand, InferTask, CommandCapabilityKind, CommandWorkflowDescriptor, command_spec, command_name,
    infer_task_name, all_commands, released_command_descriptor, released_command_specs, lemma_command_names_distinct,
};
use crate::error::ServerError;
use crate::ordered::{insert_sorted_unique, strictly_sorted};
use crate::text::{str_equal, str_is_blank, is_blank};

verus! {

/// Order in which capability derivation considers the released workflows.
pub open spec fn workflow_order() -> Seq<ReleasedCommand> {
    seq![
        ReleasedCommand::Morphotag,
        ReleasedCommand::Utseg,
        ReleasedCommand::Translate,
        ReleasedCommand::Coref,
        ReleasedCommand::Align,
        ReleasedCommand::Opensmile,
        ReleasedCommand::Avqi,
        ReleasedCommand::Compare,
        ReleasedCommand::Transcribe,
        ReleasedCommand::TranscribeS,
        ReleasedCommand::Benchmark,
    ]
}

fn workflow_order_array() -> (r: [ReleasedCommand; 11])
    ensures
        r@ == workflow_order(),
{
    let a = [
        ReleasedCommand::Morphotag,
        ReleasedCommand::Utseg,
        ReleasedCommand::Translate,
        ReleasedCommand::Coref,
        ReleasedCommand::Align,
        ReleasedCommand::Opensmile,
        ReleasedCommand::Avqi,
        ReleasedCommand::Compare,
        ReleasedCommand::Transcribe,
        ReleasedCommand::TranscribeS,
        ReleasedCommand::Benchmark,
    ];
    assert(a@ =~= workflow_order());
    a
}

/// The workflow descriptors in derivation order.
pub fn released_command_workflows() -> (r: Vec<CommandWorkflowDescriptor>)
    ensures
        r@ == workflow_order().map_values(|c: ReleasedCommand| command_spec(c).descriptor),
{
    let order = workflow_order_array();
    let mut r: Vec<CommandWorkflowDescriptor> = Vec::new();
    let mut i: usize = 0;
    while i < 11
        invariant
            order@ == workflow_order(),
            i <= 11,
            r@ =~= workflow_order().take(i as int).map_values(|c: ReleasedCommand| command_spec(c).descriptor),
        decreases 11 - i,
    {
        r.push(released_command_descriptor(order[i]));
        i = i + 1;
        assert(workflow_order().take(i as int) =~= workflow_order().take(i - 1).push(workflow_order()[i - 1]));
    }
    assert(workflow_order().take(11) =~= workflow_order());
    r
}

/// The commands among the first `n` of `order` with capability kind `kind`
/// whose infer task is reported, in order.
pub open spec fn picks(order: Seq<ReleasedCommand>, kind: CommandCapabilityKind, tasks: Seq<InferTask>, n: int) -> Seq<ReleasedCommand>
    decreases n,
{
    if n <= 0 {
        Seq::empty()
    } else {
        let c = order[n - 1];
        let prev = picks(order, kind, tasks, n - 1);
        if command_spec(c).descriptor.capability_kind == kind && tasks.contains(command_spec(c).descriptor.infer_task) {
            prev.push(c)
        } else {
            prev
        }
    }
}

/// The released commands the infer tasks make available: the directly
/// advertised ones first, then the server-composed ones.
pub open spec fn derived_commands(tasks: Seq<InferTask>) -> Seq<ReleasedCommand> {
    picks(workflow_order(), CommandCapabilityKind::DirectInfer, tasks, 11)
        + picks(workflow_order(), CommandCapabilityKind::ServerComposed, tasks, 11)
}

proof fn lemma_picks_members(order: Seq<ReleasedCommand>, kind: CommandCapabilityKind, tasks: Seq<InferTask>, n: int)
    requires
        0 <= n <= order.len(),
    ensures
        forall|k: int| 0 <= k < picks(order, kind, tasks, n).len() ==> exists|j: int|
            0 <= j < n && order[j] == #[trigger] picks(order, kind, tasks, n)[k]
                && command_spec(order[j]).descriptor.capability_kind == kind,
    decreases n,
{
    if n > 0 {
        lemma_picks_members(order, kind, tasks, n - 1);
        let prev = picks(order, kind, tasks, n - 1);
        assert forall|k: int| 0 <= k < picks(order, kind, tasks, n).len() implies exists|j: int|
            0 <= j < n && order[j] == #[trigger] picks(order, kind, tasks, n)[k]
                && command_spec(order[j]).descriptor.capability_kind == kind by {
            if k < prev.len() {
                assert(picks(order, kind, tasks, n)[k] == prev[k]);
            } else {
                assert(picks(order, kind, tasks, n)[k] == order[n - 1]);
            }
        }
    }
}

proof fn lemma_workflow_order_distinct()
    ensures
        forall|i: int, j: int| 0 <= i < 11 && 0 <= j < 11 && i != j ==> workflow_order()[i] != workflow_order()[j],
        workflow_order().len() == 11,
{
}

fn contains_name(names: &Vec<String>, name: &str) -> (r: bool)
    ensures
        r == exists|k: int| 0 <= k < names@.len() && (#[trigger] names@[k])@ == name@,
{
    let mut i: usize = 0;
    while i < names.len()
        invariant
            i <= names@.len(),
            forall|k: int| 0 <= k < i ==> (#[trigger] names@[k])@ != name@,
        decreases names@.len() - i,
    {
        if str_equal(names[i].as_str(), name) {
            return true;
        }
        i = i + 1;
    }
    false
}

fn task_reported(tasks: &[InferTask], t: InferTask) -> (r: bool)
    ensures
        r == tasks@.contains(t),
{
    let mut i: usize = 0;
    while i < tasks.len()
        invariant
            i <= tasks@.len(),
            forall|k: int| 0 <= k < i ==> tasks@[k] != t,
        decreases tasks@.len() - i,
    {
        if tasks[i] == t {
            assert(tasks@[i as int] == t);
            return true;
        }
        i = i + 1;
    }
    false
}

/// Derive the released command names from the reported infer tasks.
pub fn derive_command_capabilities(infer_tasks: &[InferTask]) -> (r: Vec<String>)
    ensures
        r@.map_values(|x: String| x@) == derived_commands(infer_tasks@).map_values(|c: ReleasedCommand| command_name(c)),
{
    let workflows = released_command_workflows();
    let mut derived: Vec<String> = Vec::new();
    let ghost order = workflow_order();
    proof {
        lemma_workflow_order_distinct();
        lemma_picks_members(order, CommandCapabilityKind::DirectInfer, infer_tasks@, 11);
    }
    let mut pass: usize = 0;
    while pass < 2
        invariant
            workflows@ == order.map_values(|c: ReleasedCommand| command_spec(c).descriptor),
            order == workflow_order(),
            pass <= 2,
            pass == 0 ==> derived@.map_values(|x: String| x@) == Seq::<Seq<char>>::empty(),
            pass == 1 ==> derived@.map_values(|x: String| x@)
                == picks(order, CommandCapabilityKind::DirectInfer, infer_tasks@, 11).map_values(|c: ReleasedCommand| command_name(c)),
            pass == 2 ==> derived@.map_values(|x: String| x@) == derived_commands(infer_tasks@).map_values(|c: ReleasedCommand| command_name(c)),
        decreases 2 - pass,
    {
        let kind = if pass == 0 { CommandCapabilityKind::DirectInfer } else { CommandCapabilityKind::ServerComposed };
        let ghost base: Seq<ReleasedCommand> = if pass == 0 { Seq::empty() } else { picks(order, CommandCapabilityKind::DirectInfer, infer_tasks@, 11) };
        proof {
            lemma_picks_members(order, kind, infer_tasks@, 11);
            lemma_picks_members(order, CommandCapabilityKind::DirectInfer, infer_tasks@, 11);
            lemma_workflow_order_distinct();
            assert forall|k: int| 0 <= k < base.len() implies command_spec(#[trigger] base[k]).descriptor.capability_kind == CommandCapabilityKind::DirectInfer by {
                let j = choose|j: int| 0 <= j < 11 && order[j] == #[trigger] picks(order, CommandCapabilityKind::DirectInfer, infer_tasks@, 11)[k]
                    && command_spec(order[j]).descriptor.capability_kind == CommandCapabilityKind::DirectInfer;
            }
        }
        let mut i: usize = 0;
        while i < workflows.len()
            invariant
                workflows@ == order.map_values(|c: ReleasedCommand| command_spec(c).descriptor),
                order == workflow_order(),
                workflows@.len() == 11,
                i <= 11,
                pass < 2,
                kind == if pass == 0 { CommandCapabilityKind::DirectInfer } else { CommandCapabilityKind::ServerComposed },
                base == if pass == 0 { Seq::<ReleasedCommand>::empty() } else { picks(order, CommandCapabilityKind::DirectInfer, infer_tasks@, 11) },
                forall|k: int| 0 <= k < base.len() ==> command_spec(#[trigger] base[k]).descriptor.capability_kind == CommandCapabilityKind::DirectInfer,
                derived@.map_values(|x: String| x@) == (base + picks(order, kind, infer_tasks@, i as int)).map_values(|c: ReleasedCommand| command_name(c)),
            decreases 11 - i,
        {
            let d = workflows[i];
            let ghost c = order[i as int];
            let ghost before = derived@.map_values(|x: String| x@);
            assert(d == command_spec(c).descriptor);
            proof { crate::commands::lemma_spec_describes_its_command(c); }
            assert(base + picks(order, kind, infer_tasks@, i + 1) =~= if d.capability_kind == kind && infer_tasks@.contains(d.infer_task) {
                (base + picks(order, kind, infer_tasks@, i as int)).push(c)
            } else {
                base + picks(order, kind, infer_tasks@, i as int)
            });
            if d.capability_kind == kind && task_reported(infer_tasks, d.infer_task) {
                let name = d.command.as_str();
                let dup = contains_name(&derived, name);
                proof {
                    if dup {
                        let k = choose|k: int| 0 <= k < derived@.len() && (#[trigger] derived@[k])@ == name@;
                        let all = base + picks(order, kind, infer_tasks@, i as int);
                        assert(derived@.map_values(|x: String| x@).len() == all.map_values(|c: ReleasedCommand| command_name(c)).len());
                        assert(derived@.map_values(|x: String| x@)[k] == derived@[k]@);
                        assert(all.map_values(|c: ReleasedCommand| command_name(c))[k] == command_name(all[k]));
                        let e = all[k];
                        assert(command_name(e) == command_name(c));
                        lemma_command_names_distinct(e, c);
                        lemma_picks_members(order, kind, infer_tasks@, i as int);
                        if k < base.len() {
                            assert(e == base[k]);
                        } else {
                            let p = picks(order, kind, infer_tasks@, i as int);
                            assert(e == p[k - base.len()]);
                            let j = choose|j: int| 0 <= j < i && order[j] == #[trigger] p[k - base.len()]
                                && command_spec(order[j]).descriptor.capability_kind == kind;
                        }
                        assert(false);
                    }
                }
                if !dup {
                    derived.push(String::from_str(name));
                    assert(derived@.map_values(|x: String| x@) =~= before.push(command_name(c)));
                }
            }
            i = i + 1;
            assert(derived@.map_values(|x: String| x@) =~= (base + picks(order, kind, infer_tasks@, i as int)).map_values(|c: ReleasedCommand| command_name(c)));
        }
        pass = pass + 1;
    }
    derived
}

/// The names of all released commands, sorted and without duplicates.
pub open spec fn all_command_names_sorted(r: Seq<Seq<char>>) -> bool {
    &&& strictly_sorted(r)
    &&& r.to_set() == all_commands().map_values(|c: ReleasedCommand| command_name(c)).to_set()
}

/// The entry for `key`: the first pair whose key it is.
pub open spec fn lookup_version(entries: Seq<(String, String)>, key: Seq<char>) -> Option<Seq<char>>
    decreases entries.len(),
{
    if entries.len() == 0 {
        None
    } else if entries[0].0@ == key {
        Some(entries[0].1@)
    } else {
        lookup_version(entries.drop_first(), key)
    }
}

fn find_version(entries: &Vec<(String, String)>, key: &str) -> (r: Option<usize>)
    ensures
        match r {
            Some(i) => i < entries@.len() && lookup_version(entries@, key@) == Some(entries@[i as int].1@),
            None => lookup_version(entries@, key@) is None,
        },
{
    let mut i: usize = 0;
    assert(entries@.skip(0) =~= entries@);
    while i < entries.len()
        invariant
            i <= entries@.len(),
            lookup_version(entries@, key@) == lookup_version(entries@.skip(i as int), key@),
        decreases entries@.len() - i,
    {
        if str_equal(entries[i].0.as_str(), key) {
            return Some(i);
        }
        assert(entries@.skip(i as int).drop_first() =~= entries@.skip(i + 1));
        i = i + 1;
    }
    None
}

/// The version recorded for `key`, if any.
pub(crate) fn find_version_text(entries: &Vec<(String, String)>, key: &str) -> (r: Option<String>)
    ensures
        match r {
            Some(v) => lookup_version(entries@, key@) == Some(v@),
            None => lookup_version(entries@, key@) is None,
        },
{
    match find_version(entries, key) {
        Some(i) => Some(entries[i].1.clone()),
        None => None,
    }
}

/// The message for a reported task without an engine version.
pub open spec fn missing_version_message(task: Seq<char>) -> Seq<char> {
    "worker capability gate failed: infer task '"@ + task + "' is reported but engine_versions['"@ + task + "'] is missing"@
}

/// The message for a reported task with a blank engine version.
pub open spec fn empty_version_message(task: Seq<char>) -> Seq<char> {
    "worker capability gate failed: infer task '"@ + task + "' has empty engine_versions['"@ + task + "']"@
}

/// Whether each of the first `n` tasks has a non-blank engine version.
pub open spec fn versions_ok(tasks: Seq<InferTask>, entries: Seq<(String, String)>, n: int) -> bool {
    forall|i: int| 0 <= i < n ==> ((#[trigger] lookup_version(entries, infer_task_name(tasks[i]))) matches Some(v) && !is_blank(v))
}

/// Every released command name, sorted and without duplicates: the surface
/// offered before any worker has confirmed what is installed.
pub fn optimistic_capabilities() -> (r: Vec<String>)
    ensures
        all_command_names_sorted(r@.map_values(|x: String| x@)),
{
    let specs = released_command_specs();
    let mut commands: Vec<String> = Vec::new();
    let mut i: usize = 0;
    proof {
        crate::commands::lemma_catalog_commands_unique();
    }
    while i < specs.len()
        invariant
            specs@ == all_commands().map_values(|c: ReleasedCommand| command_spec(c)),
            i <= specs@.len(),
            strictly_sorted(commands@.map_values(|x: String| x@)),
            commands@.map_values(|x: String| x@).to_set()
                == all_commands().take(i as int).map_values(|c: ReleasedCommand| command_name(c)).to_set(),
        decreases specs@.len() - i,
    {
        let name = specs[i].descriptor.command.as_str();
        assert(specs[i as int].descriptor.command == all_commands()[i as int]);
        insert_sorted_unique(&mut commands, String::from_str(name));
        i = i + 1;
        assert(all_commands().take(i as int).map_values(|c: ReleasedCommand| command_name(c))
            =~= all_commands().take(i - 1).map_values(|c: ReleasedCommand| command_name(c)).push(command_name(all_commands()[i - 1])));
        proof {
            all_commands().take(i - 1).map_values(|c: ReleasedCommand| command_name(c)).lemma_push_to_set_commute(command_name(all_commands()[i - 1]));
        }
    }
    assert(all_commands().take(11) =~= all_commands());
    commands
}

/// Derive the released commands from the reported infer tasks after
/// checking that each reported task has a non-blank engine version; the
/// first task that fails the check is reported. In test-echo mode every
/// released command is offered, sorted by name.
pub fn validate_infer_capability_gate(
    infer_tasks: &[InferTask],
    engine_versions: &Vec<(String, String)>,
    test_echo_mode: bool,
) -> (r: Result<Vec<String>, ServerError>)
    ensures
        test_echo_mode ==> (r matches Ok(v) && all_command_names_sorted(v@.map_values(|x: String| x@))),
        !test_echo_mode ==> match r {
            Ok(v) => versions_ok(infer_tasks@, engine_versions@, infer_tasks@.len() as int)
                && v@.map_values(|x: String| x@) == derived_commands(infer_tasks@).map_values(|c: ReleasedCommand| command_name(c)),
            Err(e) => e matches ServerError::Validation(m) && exists|i: int| 0 <= i < infer_tasks@.len()
                && versions_ok(infer_tasks@, engine_versions@, i)
                && match lookup_version(engine_versions@, infer_task_name(#[trigger] infer_tasks@[i])) {
                    None => m@ == missing_version_message(infer_task_name(infer_tasks@[i])),
                    Some(v) => is_blank(v) && m@ == empty_version_message(infer_task_name(infer_tasks@[i])),
                },
        },
{
    if test_echo_mode {
        return Ok(optimistic_capabilities());
    }
    let mut t: usize = 0;
    while t < infer_tasks.len()
        invariant
            !test_echo_mode,
            t <= infer_tasks@.len(),
            versions_ok(infer_tasks@, engine_versions@, t as int),
        decreases infer_tasks@.len() - t,
    {
        let task_name = infer_tasks[t].task_name();
        match find_version(engine_versions, task_name) {
            None => {
                let mut m = String::from_str("worker capability gate failed: infer task '");
                m.append(task_name);
                m.append("' is reported but engine_versions['");
                m.append(task_name);
                m.append("'] is missing");
                return Err(ServerError::Validation(m));
            },
            Some(k) => {
                if str_is_blank(engine_versions[k].1.as_str()) {
                    let mut m = String::from_str("worker capability gate failed: infer task '");
                    m.append(task_name);
                    m.append("' has empty engine_versions['");
                    m.append(task_name);
                    m.append("']");
                    return Err(ServerError::Validation(m));
                }
            },
        }
        t = t + 1;
    }
    Ok(derive_command_capabilities(infer_tasks))
}

/// Whether the command is among the advertised capabilities.
pub fn command_supported(command: ReleasedCommand, capabilities: &[String]) -> (r: bool)
    ensures
        r == exists|k: int| 0 <= k < capabilities@.len() && (#[trigger] capabilities@[k])@ == command_name(command),
{
    let name = command.as_str();
    let mut i: usize = 0;
    while i < capabilities.len()
        invariant
            i <= capabilities@.len(),
            name@ == command_name(command),
            forall|k: int| 0 <= k < i ==> (#[trigger] capabilities@[k])@ != command_name(command),
        decreases capabilities@.len() - i,
    {
        if str_equal(capabilities[i].as_str(), name) {
            return true;
        }
        i = i + 1;
    }
    false
}

/// The advertised command names other than the test-echo pseudo command,
/// sorted and without duplicates.
pub fn supported_command_list(capabilities: &[String]) -> (r: Vec<String>)
    ensures
        strictly_sorted(r@.map_values(|x: String| x@)),
        r@.map_values(|x: String| x@).to_set()
            == capabilities@.map_values(|x: String| x@).to_set().remove("test-echo"@),
{
    let mut set: Vec<String> = Vec::new();
    let mut i: usize = 0;
    while i < capabilities.len()
        invariant
            i <= capabilities@.len(),
            strictly_sorted(set@.map_values(|x: String| x@)),
            set@.map_values(|x: String| x@).to_set()
                == capabilities@.take(i as int).map_values(|x: String| x@).to_set().remove("test-echo"@),
        decreases capabilities@.len() - i,
    {
        let ghost prev = capabilities@.take(i as int).map_values(|x: String| x@).to_set();
        let is_echo = str_equal(capabilities[i].as_str(), "test-echo");
        if !is_echo {
            insert_sorted_unique(&mut set, capabilities[i].clone());
        }
        i = i + 1;
        assert(capabilities@.take(i as int).map_values(|x: String| x@)
            =~= capabilities@.take(i - 1).map_values(|x: String| x@).push(capabilities@[i - 1]@));
        proof {
            capabilities@.take(i - 1).map_values(|x: String| x@).lemma_push_to_set_commute(capabilities@[i - 1]@);
        }
        assert(capabilities@.take(i as int).map_values(|x: String| x@).to_set() =~= prev.insert(capabilities@[i - 1]@));
        assert(set@.map_values(|x: String| x@).to_set()
            =~= capabilities@.take(i as int).map_values(|x: String| x@).to_set().remove("test-echo"@));
    }
    assert(capabilities@.take(capabilities@.len() as int) =~= capabilities@);
    set
}

/// Prepared worker subsystem state: the released command surface and the
/// infer tasks discovered while probing workers.
pub struct PreparedWorkers {
    pub capabilities: Vec<String>,
    pub infer_tasks: Vec<InferTask>,
    pub engine_versions: Vec<(String, String)>,
    pub test_echo_mode: bool,
}

impl PreparedWorkers {
    /// The released command surface discovered during probing.
    pub fn capabilities(&self) -> (r: &[String])
        ensures
            r@ == self.capabilities@,
    {
        self.capabilities.as_slice()
    }

    /// The infer tasks reported by the prepared workers.
    pub fn infer_tasks(&self) -> (r: &[InferTask])
        ensures
            r@ == self.infer_tasks@,
    {
        self.infer_tasks.as_slice()
    }

    /// The latest infer tasks: those seen on running workers, once their
    /// engine versions check out, replace the ones recorded when the workers
    /// were prepared; in test-echo mode, or before any detection, the
    /// recorded ones stand.
    pub fn current_infer_tasks(&self, detected: Option<&DetectedCapabilities>) -> (r: Result<Vec<InferTask>, ServerError>)
        ensures
            self.test_echo_mode || detected is None ==> (r matches Ok(v) && v@ == self.infer_tasks@),
            !self.test_echo_mode && detected is Some ==> match r {
                Ok(v) => v@ == detected.unwrap().infer_tasks@
                    && versions_ok(detected.unwrap().infer_tasks@, detected.unwrap().engine_versions@,
                        detected.unwrap().infer_tasks@.len() as int),
                Err(_) => !versions_ok(detected.unwrap().infer_tasks@, detected.unwrap().engine_versions@,
                    detected.unwrap().infer_tasks@.len() as int),
            },
    {
        if self.test_echo_mode {
            return Ok(self.infer_tasks.clone());
        }
        match detected {
            Some(d) => match validate_infer_capability_gate(d.infer_tasks.as_slice(), &d.engine_versions, false) {
                Ok(_) => Ok(d.infer_tasks.clone()),
                Err(e) => Err(e),
            },
            None => Ok(self.infer_tasks.clone()),
        }
    }
}

/// Position of an infer task in the task order (its declaration order).
pub open spec fn infer_task_rank(t: InferTask) -> int {
    match t {
        InferTask::Morphosyntax => 0,
        InferTask::Utseg => 1,
        InferTask::Translate => 2,
        InferTask::Coref => 3,
        InferTask::Fa => 4,
        InferTask::Asr => 5,
        InferTask::Opensmile => 6,
        InferTask::Avqi => 7,
    }
}

/// Some released command is backed by the infer task `t`.
pub open spec fn catalog_has_task(t: InferTask) -> bool {
    exists|i: int| 0 <= i < all_commands().len() && (#[trigger] command_spec(all_commands()[i])).descriptor.infer_task == t
}

fn all_infer_tasks() -> (r: [InferTask; 8])
    ensures
        forall|i: int| 0 <= i < 8 ==> infer_task_rank(#[trigger] r@[i]) == i,
{
    [
        InferTask::Morphosyntax,
        InferTask::Utseg,
        InferTask::Translate,
        InferTask::Coref,
        InferTask::Fa,
        InferTask::Asr,
        InferTask::Opensmile,
        InferTask::Avqi,
    ]
}

/// The distinct infer tasks behind the released commands, in task order.
pub fn released_infer_tasks() -> (r: Vec<InferTask>)
    ensures
        forall|i: int, j: int| 0 <= i < j < r@.len() ==> infer_task_rank(#[trigger] r@[i]) < infer_task_rank(#[trigger] r@[j]),
        forall|t: InferTask| r@.contains(t) <==> catalog_has_task(t),
{
    let tasks = all_infer_tasks();
    let specs = released_command_specs();
    let mut out: Vec<InferTask> = Vec::new();
    let mut k: usize = 0;
    while k < 8
        invariant
            k <= 8,
            forall|i: int| 0 <= i < 8 ==> infer_task_rank(#[trigger] tasks@[i]) == i,
            specs@ == all_commands().map_values(|c: ReleasedCommand| command_spec(c)),
            forall|i: int, j: int| 0 <= i < j < out@.len() ==> infer_task_rank(#[trigger] out@[i]) < infer_task_rank(#[trigger] out@[j]),
            forall|i: int| 0 <= i < out@.len() ==> infer_task_rank(#[trigger] out@[i]) < k,
            forall|t: InferTask| infer_task_rank(t) < k ==> (out@.contains(t) <==> catalog_has_task(t)),
        decreases 8 - k,
    {
        let t = tasks[k];
        let mut found = false;
        let mut c: usize = 0;
        while c < specs.len()
            invariant
                c <= specs@.len(),
                specs@ == all_commands().map_values(|c: ReleasedCommand| command_spec(c)),
                found == exists|i: int| 0 <= i < c && (#[trigger] command_spec(all_commands()[i])).descriptor.infer_task == t,
            decreases specs@.len() - c,
        {
            assert(specs@[c as int] == command_spec(all_commands()[c as int]));
            if specs[c].descriptor.infer_task == t {
                found = true;
            }
            c = c + 1;
        }
        let ghost before = out@;
        if found {
            out.push(t);
        }
        proof {
            assert forall|u: InferTask| infer_task_rank(u) < k + 1 implies (out@.contains(u) <==> catalog_has_task(u)) by {
                if infer_task_rank(u) == k {
                    assert(u == t);
                    if found {
                        assert(out@[out@.len() - 1] == t);
                    } else {
                        assert forall|i: int| 0 <= i < out@.len() implies out@[i] != u by {
                            assert(infer_task_rank(out@[i]) < k);
                        }
                    }
                } else {
                    if found {
                        if out@.contains(u) {
                            let i = choose|i: int| 0 <= i < out@.len() && out@[i] == u;
                            if i < before.len() {
                                assert(before[i] == u);
                            }
                        }
                        if before.contains(u) {
                            let i = choose|i: int| 0 <= i < before.len() && before[i] == u;
                            assert(out@[i] == u);
                        }
                    }
                }
            }
        }
        k = k + 1;
    }
    proof {
        assert forall|t: InferTask| out@.contains(t) <==> catalog_has_task(t) by {
            assert(infer_task_rank(t) < 8);
        }
    }
    out
}

/// Capabilities detected live from running workers.
#[derive(Clone, Debug, PartialEq, Eq)]
pub struct DetectedCapabilities {
    pub infer_tasks: Vec<InferTask>,
    pub engine_versions: Vec<(String, String)>,
}

/// The result of probing the worker subsystem at startup.
#[derive(Clone, Debug, PartialEq, Eq)]
pub struct ProbedCapabilities {
    pub capabilities: Vec<String>,
    pub infer_tasks: Vec<InferTask>,
    pub engine_versions: Vec<(String, String)>,
}

/// The capability surface at server start: in test-echo mode every released
/// command and every infer task behind one; with capabilities detected on
/// already running workers, the commands their checked tasks enable (or the
/// check's error); otherwise every released command optimistically, with no
/// infer task confirmed yet.
pub fn probe_capabilities(test_echo_mode: bool, detected: Option<&DetectedCapabilities>) -> (r: Result<ProbedCapabilities, ServerError>)
    ensures
        test_echo_mode ==> (r matches Ok(p)
            && all_command_names_sorted(p.capabilities@.map_values(|x: String| x@))
            && (forall|t: InferTask| p.infer_tasks@.contains(t) <==> catalog_has_task(t))
            && p.engine_versions@.len() == 0),
        !test_echo_mode && detected is Some ==> match r {
            Ok(p) => {
                let d = detected.unwrap();
                &&& versions_ok(d.infer_tasks@, d.engine_versions@, d.infer_tasks@.len() as int)
                &&& p.capabilities@.map_values(|x: String| x@) == derived_commands(d.infer_tasks@).map_values(|c: ReleasedCommand| command_name(c))
                &&& p.infer_tasks@ == d.infer_tasks@
                &&& p.engine_versions@.map_values(|e: (String, String)| (e.0@, e.1@))
                    == d.engine_versions@.map_values(|e: (String, String)| (e.0@, e.1@))
            },
            Err(_) => !versions_ok(detected.unwrap().infer_tasks@, detected.unwrap().engine_versions@,
                detected.unwrap().infer_tasks@.len() as int),
        },
        !test_echo_mode && detected is None ==> (r matches Ok(p)
            && all_command_names_sorted(p.capabilities@.map_values(|x: String| x@))
            && p.infer_tasks@.len() == 0
            && p.engine_versions@.len() == 0),
{
    if test_echo_mode {
        let all_tasks = released_infer_tasks();
        return Ok(ProbedCapabilities {
            capabilities: optimistic_capabilities(),
            infer_tasks: all_tasks,
            engine_versions: Vec::new(),
        });
    }
    match detected {
        Some(d) => {
            match validate_infer_capability_gate(d.infer_tasks.as_slice(), &d.engine_versions, false) {
                Ok(caps) => Ok(ProbedCapabilities {
                    capabilities: caps,
                    infer_tasks: d.infer_tasks.clone(),
                    engine_versions: clone_pairs(&d.engine_versions),
                }),
                Err(e) => Err(e),
            }
        },
        None => Ok(ProbedCapabilities {
            capabilities: optimistic_capabilities(),
            infer_tasks: Vec::new(),
            engine_versions: Vec::new(),
        }),
    }
}

fn clone_pairs(v: &Vec<(String, String)>) -> (r: Vec<(String, String)>)
    ensures
        r@.map_values(|e: (String, String)| (e.0@, e.1@)) == v@.map_values(|e: (String, String)| (e.0@, e.1@)),
{
    let mut out: Vec<(String, String)> = Vec::new();
    let mut i: usize = 0;
    while i < v.len()
        invariant
            i <= v@.len(),
            out@.len() == i,
            forall|j: int| 0 <= j < i ==> (#[trigger] out@[j]).0@ == v@[j].0@ && out@[j].1@ == v@[j].1@,
        decreases v@.len() - i,
    {
        let a = v[i].0.clone();
        let b = v[i].1.clone();
        out.push((a, b));
        i = i + 1;
    }
    assert(out@.map_values(|e: (String, String)| (e.0@, e.1@)) =~= v@.map_values(|e: (String, String)| (e.0@, e.1@)));
    out
}

} // verus!
