use vstd::prelude::*;
use crate::container::{Command, Container};

verus! {

/// One scheduler tick: starts a pass on every container, each on its own.
/// The command at index `i` is what container `i` needs next; a container
/// whose pass cannot start gets a `Finish` and leaves the others untouched.
pub fn tick(fleet: &mut Vec<Container>) -> (r: Vec<Command>)
    ensures
        r@.len() == old(fleet)@.len(),
        final(fleet)@.len() == old(fleet)@.len(),
        forall|i: int|
            0 <= i < old(fleet)@.len() ==> (#[trigger] final(fleet)@[i], r@[i]) == old(fleet)@[i].begin(),
{
    let n = fleet.len();
    let mut r: Vec<Command> = Vec::new();
    let mut i: usize = 0;
    while i < n
        invariant
            n == old(fleet)@.len(),
            fleet@.len() == n,
            i <= n,
            r@.len() == i,
            forall|j: int| 0 <= j < i ==> (#[trigger] fleet@[j], r@[j]) == old(fleet)@[j].begin(),
            forall|j: int| i <= j < n ==> #[trigger] fleet@[j] == old(fleet)@[j],
        decreases n - i,
    {
        let mut c = fleet.remove(i);
        let cmd = c.update();
        fleet.insert(i, c);
        r.push(cmd);
        i = i + 1;
    }
    r
}

} // verus!
