use vstd::prelude::*;

verus! {

/// Whether a device sends events to the host or receives them from it.
#[derive(PartialEq, Eq, Structural, Clone, Copy, Debug)]
pub enum DeviceDirection {
    Input,
    Output,
}

/// A MIDI device as the driver lists it.
#[derive(Debug)]
pub struct Device {
    pub id: i32,
    pub name: String,
    pub direction: DeviceDirection,
}

/// Whether `d` passes the direction filter: every device passes `None`.
pub open spec fn has_direction(d: Device, direction: Option<DeviceDirection>) -> bool {
    match direction {
        Some(dir) => d.direction == dir,
        None => true,
    }
}

/// The devices of `devices` that pass the direction filter, in their order.
pub open spec fn with_direction(devices: Seq<Device>, direction: Option<DeviceDirection>) -> Seq<Device> {
    devices.filter(|d: Device| has_direction(d, direction))
}

/// Keeps the devices whose direction is `direction`, all of them when it is `None`,
/// in the order in which they were listed.
pub fn filter_devices(devices: Vec<Device>, direction: Option<DeviceDirection>) -> (r: Vec<Device>)
    ensures
        r@ == with_direction(devices@, direction),
{
    let ghost all = devices@;
    let mut rest = devices;
    let mut kept: Vec<Device> = Vec::new();
    let n: usize = rest.len();
    let mut k: usize = 0;
    while k < n
        invariant
            k <= n,
            n == all.len(),
            rest@ == all.skip(k as int),
            kept@ == with_direction(all.take(k as int), direction),
        decreases n - k,
    {
        let d = rest.remove(0);
        let keep = match direction {
            Some(dir) => d.direction == dir,
            None => true,
        };
        proof {
            let prefix = all.take(k + 1);
            assert(prefix.drop_last() =~= all.take(k as int));
            assert(prefix.last() == d);
            assert(has_direction(d, direction) == keep);
            assert(rest@ =~= all.skip(k + 1));
            reveal(Seq::filter);
            assert(with_direction(prefix, direction) == if keep {
                with_direction(all.take(k as int), direction).push(d)
            } else {
                with_direction(all.take(k as int), direction)
            });
        }
        if keep {
            kept.push(d);
        }
        k = k + 1;
    }
    assert(all.take(n as int) =~= all);
    kept
}

/// The position of the first device in `devices` whose id is `id`, if any.
pub fn find_device(devices: &Vec<Device>, id: i32) -> (r: Option<usize>)
    ensures
        match r {
            Some(i) => i < devices@.len() && devices@[i as int].id == id
                && forall|j: int| 0 <= j < i ==> devices@[j].id != id,
            None => forall|j: int| 0 <= j < devices@.len() ==> devices@[j].id != id,
        },
{
    let mut i: usize = 0;
    while i < devices.len()
        invariant
            i <= devices@.len(),
            forall|j: int| 0 <= j < i ==> devices@[j].id != id,
        decreases devices@.len() - i,
    {
        if devices[i].id == id {
            return Some(i);
        }
        i = i + 1;
    }
    None
}

} // verus!
