//! The device's queues, grouped by family.

use vstd::prelude::*;

verus! {

/// What the queues of a family can do.
#[derive(Clone, Copy, Debug, PartialEq, Eq, Structural)]
pub struct QueueFlags {
    pub graphics: bool,
    pub compute: bool,
    pub transfer: bool,
    pub sparse_binding: bool,
}

impl QueueFlags {
    /// Graphics work alone.
    pub open spec fn only_graphics() -> QueueFlags {
        QueueFlags { graphics: true, compute: false, transfer: false, sparse_binding: false }
    }

    /// Graphics work alone.
    pub fn graphics() -> (r: QueueFlags)
        ensures
            r == Self::only_graphics(),
    {
        QueueFlags { graphics: true, compute: false, transfer: false, sparse_binding: false }
    }

    /// Whether every capability in `wanted` is among these.
    pub open spec fn includes(self, wanted: QueueFlags) -> bool {
        &&& wanted.graphics ==> self.graphics
        &&& wanted.compute ==> self.compute
        &&& wanted.transfer ==> self.transfer
        &&& wanted.sparse_binding ==> self.sparse_binding
    }

    /// Whether every capability in `wanted` is among these.
    pub fn contains(&self, wanted: QueueFlags) -> (r: bool)
        ensures
            r == self.includes(wanted),
    {
        (!wanted.graphics || self.graphics) && (!wanted.compute || self.compute) && (
        !wanted.transfer || self.transfer) && (!wanted.sparse_binding || self.sparse_binding)
    }
}

/// One queue family as the device reports it.
#[derive(Clone, Copy, Debug, PartialEq, Eq, Structural)]
pub struct QueueFamilyProperties {
    pub queue_flags: QueueFlags,
    pub queue_count: u32,
}

/// The queues to fetch from a device for the first `n` families: for each
/// family in turn, every queue index below the family's count, as pairs of
/// family index and queue index.
pub open spec fn queues_to_fetch(props: Seq<QueueFamilyProperties>, n: int) -> Seq<(u32, u32)>
    decreases n,
{
    if n <= 0 {
        Seq::empty()
    } else {
        queues_to_fetch(props, n - 1) + Seq::new(
            props[n - 1].queue_count as nat,
            |j: int| ((n - 1) as u32, j as u32),
        )
    }
}

/// The queues of a device: for each family its properties and its queues.
pub struct QueuePool {
    queues: Vec<Vec<u64>>,
    props: Vec<QueueFamilyProperties>,
}

impl QueuePool {
    /// The families' properties, by family index.
    pub closed spec fn families(&self) -> Seq<QueueFamilyProperties> {
        self.props@
    }

    /// The families' queues, by family index and queue index.
    pub closed spec fn queues(&self) -> Seq<Seq<u64>> {
        Seq::new(self.queues@.len(), |i: int| self.queues@[i]@)
    }

    /// Whether `queues` holds, for each family of `props`, as many queues as
    /// the family reports, and every family reports at least one.
    pub open spec fn shaped(props: Seq<QueueFamilyProperties>, queues: Seq<Seq<u64>>) -> bool {
        &&& props.len() == queues.len()
        &&& forall|i: int|
            0 <= i < props.len() ==> #[trigger] queues[i].len() == props[i].queue_count
                && props[i].queue_count > 0
    }

    /// Well-formedness: the pool has the shape its families report.
    pub open spec fn wf(&self) -> bool {
        Self::shaped(self.families(), self.queues())
    }

    /// Whether family `i` can do all of `flags`.
    pub open spec fn family_can(&self, i: int, flags: QueueFlags) -> bool {
        0 <= i < self.families().len() && self.families()[i].queue_flags.includes(flags)
    }

    /// Whether `queue` is the first queue of the last family that can do all
    /// of `flags`.
    pub open spec fn serves(&self, queue: u64, flags: QueueFlags) -> bool {
        exists|i: int|
            #![trigger self.family_can(i, flags)]
            self.family_can(i, flags) && queue == self.queues()[i][0] && forall|k: int|
                i < k ==> !self.family_can(k, flags)
    }

    /// The queues to fetch from the device, in order: for each family every
    /// queue it reports. A device has fewer families than a 32-bit index
    /// can count.
    pub fn requests(props: &Vec<QueueFamilyProperties>) -> (r: Vec<(u32, u32)>)
        requires
            props@.len() <= u32::MAX,
        ensures
            r@ == queues_to_fetch(props@, props@.len() as int),
    {
        let mut out: Vec<(u32, u32)> = Vec::new();
        let mut i: usize = 0;
        while i < props.len()
            invariant
                i <= props@.len() <= u32::MAX,
                out@ == queues_to_fetch(props@, i as int),
            decreases props@.len() - i,
        {
            let count = props[i].queue_count;
            let ghost before = out@;
            let mut j: u32 = 0;
            while j < count
                invariant
                    i < props@.len() <= u32::MAX,
                    count == props@[i as int].queue_count,
                    j <= count,
                    out@ == before + Seq::new(j as nat, |k: int| (i as u32, k as u32)),
                decreases count - j,
            {
                out.push((i as u32, j));
                j += 1;
                assert(out@ =~= before + Seq::new(j as nat, |k: int| (i as u32, k as u32)));
            }
            i += 1;
            assert(out@ =~= queues_to_fetch(props@, i as int));
        }
        out
    }

    /// A pool of the queues fetched for the families of `props`. There is no
    /// pool where the two do not have the same shape.
    pub fn new(props: Vec<QueueFamilyProperties>, queues: Vec<Vec<u64>>) -> (r: Option<QueuePool>)
        ensures
            r is Some <==> Self::shaped(props@, Seq::new(queues@.len(), |i: int| queues@[i]@)),
            r matches Some(pool) ==> pool.wf() && pool.families() == props@ && pool.queues()
                == Seq::new(queues@.len(), |i: int| queues@[i]@),
    {
        let ghost rows = Seq::new(queues@.len(), |i: int| queues@[i]@);
        if props.len() != queues.len() {
            return None;
        }
        let mut i: usize = 0;
        while i < props.len()
            invariant
                i <= props@.len(),
                props@.len() == queues@.len(),
                rows == Seq::new(queues@.len(), |i: int| queues@[i]@),
                forall|k: int|
                    0 <= k < i ==> #[trigger] rows[k].len() == props@[k].queue_count
                        && props@[k].queue_count > 0,
            decreases props@.len() - i,
        {
            if props[i].queue_count == 0 || queues[i].len() != props[i].queue_count as usize {
                assert(rows[i as int].len() == queues@[i as int]@.len());
                return None;
            }
            assert(rows[i as int].len() == props@[i as int].queue_count);
            i += 1;
        }
        Some(QueuePool { queues, props })
    }

    /// The first queue of the last family that can do all of `flags`.
    pub fn get_queue(&self, flags: QueueFlags) -> (r: Option<u64>)
        requires
            self.wf(),
        ensures
            match r {
                Some(queue) => self.serves(queue, flags),
                None => forall|i: int| !self.family_can(i, flags),
            },
    {
        let mut family_index: Option<usize> = None;
        let mut index: usize = 0;
        while index < self.props.len()
            invariant
                index <= self.props@.len(),
                match family_index {
                    Some(i) => i < index && self.family_can(i as int, flags) && forall|k: int|
                        i < k < index ==> !self.family_can(k, flags),
                    None => forall|k: int| k < index ==> !self.family_can(k, flags),
                },
            decreases self.props@.len() - index,
        {
            if self.props[index].queue_flags.contains(flags) {
                family_index = Some(index);
            }
            index += 1;
        }
        match family_index {
            Some(i) => {
                assert(self.queues()[i as int].len() == self.families()[i as int].queue_count);
                Some(self.queues[i][0])
            },
            None => None,
        }
    }
}

} // verus!
