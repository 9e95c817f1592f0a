use vstd::prelude::*;

verus! {

/// Number of invocations that one compute work-group runs.
pub const GROUP_SIZE: u32 = 256;

/// The least number of work-groups that covers `n` elements.
pub open spec fn workgroups_for(n: nat) -> nat {
    if n == 0 { 0 } else { ((n - 1) as nat) / (GROUP_SIZE as nat) + 1 }
}

/// Number of work-groups to dispatch so that every one of `element_count`
/// elements gets an invocation: `ceil(element_count / GROUP_SIZE)`.
pub fn workgroup_count(element_count: u32) -> (r: u32)
    ensures
        r as nat == workgroups_for(element_count as nat),
        (r as int) * (GROUP_SIZE as int) >= element_count as int,
        (r as int) * (GROUP_SIZE as int) < element_count as int + GROUP_SIZE as int,
{
    if element_count == 0 {
        0
    } else {
        (element_count - 1) / GROUP_SIZE + 1
    }
}

/// The work-group counts of one compute dispatch.
#[derive(Clone, Copy, Debug, PartialEq, Eq, Structural)]
pub struct DispatchWorkgroups {
    pub count_x: u32,
    pub count_y: u32,
    pub count_z: u32,
}

/// The output array of a derivation pass is not index-aligned with the
/// sphere array: their lengths differ.
#[derive(Clone, Copy, Debug, PartialEq, Eq, Structural)]
pub struct LengthMismatch {
    pub sphere_count: u32,
    pub output_len: u32,
}

/// The dispatch of a per-sphere derivation pass (bounds, long axes or
/// occluder circles). Its output holds one entry per sphere at the sphere's
/// index, so an output of another length is refused; otherwise one
/// invocation runs per sphere, in `ceil(sphere_count / GROUP_SIZE)`
/// work-groups along `x`.
pub fn compute_dispatch(sphere_count: u32, output_len: u32) -> (r: Result<
    DispatchWorkgroups,
    LengthMismatch,
>)
    ensures
        sphere_count != output_len ==> r == Err::<DispatchWorkgroups, LengthMismatch>(
            LengthMismatch { sphere_count, output_len },
        ),
        sphere_count == output_len ==> r == Ok::<DispatchWorkgroups, LengthMismatch>(
            DispatchWorkgroups {
                count_x: workgroups_for(sphere_count as nat) as u32,
                count_y: 1,
                count_z: 1,
            },
        ),
{
    if sphere_count != output_len {
        return Err(LengthMismatch { sphere_count, output_len });
    }
    Ok(DispatchWorkgroups { count_x: workgroup_count(sphere_count), count_y: 1, count_z: 1 })
}

/// Every accepted dispatch runs exactly enough work-groups for all of its
/// spheres: the invocations cover every index of the aligned arrays, and no
/// whole work-group lies past them.
pub proof fn lemma_dispatch_covers(sphere_count: u32, d: DispatchWorkgroups)
    requires
        d.count_x as nat == workgroups_for(sphere_count as nat),
    ensures
        (d.count_x as int) * (GROUP_SIZE as int) >= sphere_count,
        sphere_count > 0 ==> (d.count_x as int - 1) * (GROUP_SIZE as int) < sphere_count,
        sphere_count == 0 ==> d.count_x == 0,
{
}

} // verus!
