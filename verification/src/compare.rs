//! Decisions of the compare dispatch: gold companions are finished without
//! output, a main file is compared against its planned gold file (taken from
//! the batch when it is there), and each way a comparison cannot start has
//! its own message.

use vstd::prelude::*;
use vstd::string::*;
use crate::paths::{is_gold_file, ends_with};
use crate::text::str_equal;

verus! {

/// What to do with one file of a compare batch.
#[derive(Clone, Debug, PartialEq, Eq)]
pub enum CompareFileStep {
    /// A gold companion: finish it without a result.
    FinishGold,
    /// Planning found no pair for the file: fail it with this message.
    FailNoPair { message: String },
    /// Compare against the gold text at this position of the batch.
    UseBatchGold { index: usize },
    /// Read the gold file from disk first.
    ReadGold,
}

/// Position of the batch file named `name`, if any (the first one).
pub fn batch_position(names: &Vec<String>, name: &str) -> (r: Option<usize>)
    ensures
        match r {
            Some(i) => i < names@.len() && names@[i as int]@ == name@
                && forall|j: int| 0 <= j < i ==> names@[j]@ != name@,
            None => forall|j: int| 0 <= j < names@.len() ==> names@[j]@ != name@,
        },
{
    let mut i: usize = 0;
    while i < names.len()
        invariant
            i <= names@.len(),
            forall|j: int| 0 <= j < i ==> names@[j]@ != name@,
        decreases names@.len() - i,
    {
        if str_equal(names[i].as_str(), name) {
            return Some(i);
        }
        i = i + 1;
    }
    None
}

pub open spec fn no_pair_message(filename: Seq<char>) -> Seq<char> {
    "Compare planning produced no pair for "@ + filename
}

/// The step for `filename`, given the gold file planning paired it with
/// (if any) and the names of the files in the batch.
pub fn compare_file_step(filename: &str, planned_gold: Option<&str>, batch_names: &Vec<String>) -> (r: CompareFileStep)
    ensures
        ends_with(filename@, ".gold.cha"@) ==> r == CompareFileStep::FinishGold,
        !ends_with(filename@, ".gold.cha"@) ==> match planned_gold {
            None => r matches CompareFileStep::FailNoPair { message } && message@ == no_pair_message(filename@),
            Some(gold) => match r {
                CompareFileStep::UseBatchGold { index } => index < batch_names@.len()
                    && batch_names@[index as int]@ == gold@
                    && forall|j: int| 0 <= j < index ==> batch_names@[j]@ != gold@,
                CompareFileStep::ReadGold => forall|j: int| 0 <= j < batch_names@.len() ==> batch_names@[j]@ != gold@,
                _ => false,
            },
        },
{
    if is_gold_file(filename) {
        return CompareFileStep::FinishGold;
    }
    match planned_gold {
        None => {
            let mut message = String::from_str("Compare planning produced no pair for ");
            message.append(filename);
            CompareFileStep::FailNoPair { message }
        },
        Some(gold) => match batch_position(batch_names, gold) {
            Some(index) => CompareFileStep::UseBatchGold { index },
            None => CompareFileStep::ReadGold,
        },
    }
}

/// The error of every main file when compare planning failed.
pub fn compare_planning_failure(error: &str) -> (r: String)
    ensures
        r@ == "Compare planning failed: "@ + error@,
{
    let mut m = String::from_str("Compare planning failed: ");
    m.append(error);
    m
}

/// The error of a main file whose gold file is neither in the batch nor
/// readable.
pub fn missing_gold_error(filename: &str, gold_filename: &str) -> (r: String)
    ensures
        r@ == "No gold .cha file found for comparison. main: "@ + filename@ + ", expected: "@ + gold_filename@,
{
    let mut m = String::from_str("No gold .cha file found for comparison. main: ");
    m.append(filename);
    m.append(", expected: ");
    m.append(gold_filename);
    m
}

} // verus!
