//! The scan orchestration that can be stated and checked: turning one
//! discovery task's projects into units, and merging the tasks' outputs
//! into the final result set. Running the discovery tasks side by side, and
//! the I/O they do, live outside the library.
use vstd::prelude::*;
use crate::analyze::{Analyzable, Scannable};
use crate::units::{Unit, Units};

verus! {

/// Analyzes every discovered project of one discovery task, in order:
/// every project yields exactly one unit, no project is dropped, each
/// unit's target is the project's own, and each unit's findings are that
/// project's own analysis outcome — a value satisfying the project's
/// `analyze` postcondition.
pub fn analyze_projects<S: Scannable>(projects: &Vec<S>) -> (units: Vec<Unit>)
    requires
        forall|i: int| 0 <= i < projects@.len() ==> (#[trigger] projects@[i]).wf(),
    ensures
        units@.len() == projects@.len(),
        forall|i: int|
            0 <= i < units@.len() ==> (#[trigger] units@[i]).target@ == projects@[i].target_spec()
                && units@[i].findings is Some,
        forall|i: int|
            0 <= i < units@.len() ==> #[trigger] call_ensures(
                S::analyze,
                (&projects@[i],),
                units@[i].findings->Some_0,
            ),
{
    let mut units: Vec<Unit> = Vec::new();
    let mut i: usize = 0;
    while i < projects.len()
        invariant
            0 <= i <= projects@.len(),
            units@.len() == i,
            forall|k: int| 0 <= k < projects@.len() ==> (#[trigger] projects@[k]).wf(),
            forall|k: int|
                0 <= k < i ==> (#[trigger] units@[k]).target@ == projects@[k].target_spec()
                    && units@[k].findings is Some,
            forall|k: int|
                0 <= k < i ==> #[trigger] call_ensures(
                    S::analyze,
                    (&projects@[k],),
                    units@[k].findings->Some_0,
                ),
        decreases projects@.len() - i,
    {
        let project = &projects[i];
        let target = project.to_target();
        let findings = project.analyze();
        units.push(Unit { target, findings: Some(findings) });
        i += 1;
    }
    units
}

/// Merges the per-task unit lists into one result set, keeping each list's
/// units in order, first task first.
pub fn merge_units(parts: Vec<Vec<Unit>>) -> (u: Units)
    ensures
        u.0@ == parts@.map_values(|p: Vec<Unit>| p@).flatten(),
{
    let ghost all = parts@.map_values(|p: Vec<Unit>| p@);
    let mut parts = parts;
    let mut out: Vec<Unit> = Vec::new();
    let ghost mut i: int = 0;
    proof {
        assert(all.subrange(0, 0).flatten() =~= Seq::<Unit>::empty());
    }
    while parts.len() > 0
        invariant
            0 <= i <= all.len(),
            parts@.len() == all.len() - i,
            forall|k: int| 0 <= k < parts@.len() ==> parts@[k]@ == all[i + k],
            out@ == all.subrange(0, i).flatten(),
        decreases parts@.len(),
    {
        let ghost old_parts = parts@;
        let mut part = parts.remove(0);
        let ghost prev_out = out@;
        out.append(&mut part);
        proof {
            let pre = all.subrange(0, i);
            let post = all.subrange(0, i + 1);
            pre.lemma_flatten_push(all[i]);
            assert(pre.push(all[i]) =~= post);
            assert(out@ == post.flatten());
            assert forall|k: int| 0 <= k < parts@.len() implies (#[trigger] parts@[k])@ == all[i
                + 1 + k] by {
                assert(parts@[k] == old_parts[k + 1]);
            }
            i = i + 1;
        }
    }
    proof {
        assert(all.subrange(0, i) =~= all);
    }
    Units(out)
}

} // verus!
