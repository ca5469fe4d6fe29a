//! The names under which the monitored process runs.

use crate::text::{text_eq, texts_of};
use vstd::prelude::*;

verus! {

/// What the names of all variants of the monitored executable begin with.
pub const PROCESS_STEM: &'static str = "PathOfExile";

/// The names of the monitored executable: 64-bit and plain, each as
/// distributed by Steam and not.
pub open spec fn target_process_names() -> Seq<Seq<char>> {
    seq![
        "PathOfExile_x64Steam.exe"@,
        "PathOfExile_x64.exe"@,
        "PathOfExileSteam.exe"@,
        "PathOfExile.exe"@,
    ]
}

/// Whether a process of this name is the monitored one.
pub fn is_target_process(name: &str) -> (target: bool)
    ensures
        target == target_process_names().contains(name@),
{
    let ghost names = target_process_names();
    if text_eq(name, "PathOfExile_x64Steam.exe") {
        assert(names[0] == name@);
        true
    } else if text_eq(name, "PathOfExile_x64.exe") {
        assert(names[1] == name@);
        true
    } else if text_eq(name, "PathOfExileSteam.exe") {
        assert(names[2] == name@);
        true
    } else if text_eq(name, "PathOfExile.exe") {
        assert(names[3] == name@);
        true
    } else {
        false
    }
}

/// Whether one of the processes of these names is the monitored one.
pub fn any_target_process(names: &[String]) -> (running: bool)
    ensures
        running == exists|i: int|
            0 <= i < names@.len() && target_process_names().contains(
                #[trigger] texts_of(names@)[i],
            ),
{
    let mut i: usize = 0;
    while i < names.len()
        invariant
            i <= names.len(),
            forall|j: int|
                0 <= j < i ==> !target_process_names().contains(#[trigger] texts_of(names@)[j]),
        decreases names.len() - i,
    {
        if is_target_process(names[i].as_str()) {
            assert(target_process_names().contains(texts_of(names@)[i as int]));
            return true;
        }
        i += 1;
    }
    false
}

} // verus!
