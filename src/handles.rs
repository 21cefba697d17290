use vstd::prelude::*;

verus! {

/// `i` is the last position of `h` in `handles`.
pub open spec fn is_last_index(handles: Seq<u64>, h: u64, i: int) -> bool {
    &&& 0 <= i < handles.len()
    &&& handles[i] == h
    &&& forall|k: int| i < k < handles.len() ==> handles[k] != h
}

/// Where the two sides of a joint stand in the host's body list.
#[derive(Debug, Clone, Copy, PartialEq, Eq, Structural)]
pub struct JointLookup {
    /// The required body; `None` when it has been removed.
    pub body0: Option<usize>,
    /// The optional second body; `None` when the joint anchors to a fixed
    /// world point, or when that body is absent.
    pub body1: Option<usize>,
}

/// Finds the body with handle `h`: its last position in `handles`, or `None`
/// when no body carries that handle.
pub fn find_body(handles: &[u64], h: u64) -> (r: Option<usize>)
    ensures
        r is None <==> !handles@.contains(h),
        r matches Some(i) ==> is_last_index(handles@, h, i as int),
{
    let mut found: Option<usize> = None;
    let mut i: usize = 0;
    while i < handles.len()
        invariant
            i <= handles@.len(),
            found is None <==> (forall|k: int| 0 <= k < i ==> handles@[k] != h),
            found matches Some(f) ==> f < i && handles@[f as int] == h && (forall|k: int|
                f < k < i ==> handles@[k] != h),
        decreases handles@.len() - i,
    {
        if handles[i] == h {
            found = Some(i);
        }
        i = i + 1;
    }
    proof {
        if found is None {
            assert(!handles@.contains(h));
        } else {
            let f = found->0;
            assert(handles@[f as int] == h);
        }
    }
    found
}

/// Resolves both sides of a joint against the current body list. The second
/// side resolves only to a body other than the first one.
pub fn resolve_joint(handles: &[u64], body0: u64, body1: Option<u64>) -> (r: JointLookup)
    ensures
        r.body0 is None <==> !handles@.contains(body0),
        r.body0 matches Some(i) ==> is_last_index(handles@, body0, i as int),
        r.body1 is Some <==> (body1 matches Some(h) && h != body0 && handles@.contains(h)),
        r.body1 matches Some(j) ==> is_last_index(handles@, body1->0, j as int),
{
    let first = find_body(handles, body0);
    let second = match body1 {
        Some(h) => if h != body0 {
            find_body(handles, h)
        } else {
            None
        },
        None => None,
    };
    JointLookup { body0: first, body1: second }
}

} // verus!
