use vstd::prelude::*;

verus! {

/// The type of a physical device, as far as the choice between devices goes.
#[derive(Clone, Copy, Debug, PartialEq, Eq)]
pub enum DeviceKind {
    DiscreteGpu,
    IntegratedGpu,
    VirtualGpu,
    Cpu,
    Other,
}

/// What a queue family of a device offers.
#[derive(Clone, Copy, Debug, PartialEq, Eq)]
pub struct QueueFamily {
    /// The family supports graphics operations.
    pub graphics: bool,
    /// The family can present to the window's surface.
    pub presents: bool,
}

/// What the choice of a physical device reads of one candidate.
#[derive(Debug)]
pub struct DeviceCandidate {
    /// The device supports every device extension the renderer needs.
    pub has_required_extensions: bool,
    pub kind: DeviceKind,
    /// The device's queue families, in the device's order.
    pub queue_families: Vec<QueueFamily>,
}

/// The preference order of device kinds: lower is preferred.
pub open spec fn kind_rank_spec(k: DeviceKind) -> nat {
    match k {
        DeviceKind::DiscreteGpu => 0,
        DeviceKind::IntegratedGpu => 1,
        DeviceKind::VirtualGpu => 2,
        DeviceKind::Cpu => 3,
        DeviceKind::Other => 4,
    }
}

pub open spec fn family_usable(f: QueueFamily) -> bool {
    f.graphics && f.presents
}

pub open spec fn has_usable_family(fams: Seq<QueueFamily>) -> bool {
    exists|q: int| 0 <= q < fams.len() && #[trigger] family_usable(fams[q])
}

/// `q` is the lowest index of a family that does graphics and presents.
pub open spec fn is_first_usable_family(fams: Seq<QueueFamily>, q: int) -> bool {
    &&& 0 <= q < fams.len()
    &&& family_usable(fams[q])
    &&& forall|j: int| 0 <= j < q ==> !#[trigger] family_usable(fams[j])
}

/// A candidate the renderer can run on.
pub open spec fn eligible(c: DeviceCandidate) -> bool {
    c.has_required_extensions && has_usable_family(c.queue_families@)
}

pub open spec fn rank_of(c: DeviceCandidate) -> nat {
    kind_rank_spec(c.kind)
}

/// Candidate `i` is eligible, no eligible candidate has a preferred kind,
/// and every eligible candidate before it has a kind less preferred.
pub open spec fn is_best(cs: Seq<DeviceCandidate>, i: int) -> bool {
    &&& 0 <= i < cs.len()
    &&& eligible(cs[i])
    &&& forall|j: int|
        0 <= j < cs.len() && #[trigger] eligible(cs[j]) ==> rank_of(cs[j]) >= rank_of(cs[i]) && (
        j < i ==> rank_of(cs[j]) > rank_of(cs[i]))
}

/// The preference rank of a device kind: discrete GPUs first, then
/// integrated, virtual, CPU, and any other kind last.
pub fn kind_rank(k: DeviceKind) -> (r: u8)
    ensures
        r as nat == kind_rank_spec(k),
{
    match k {
        DeviceKind::DiscreteGpu => 0,
        DeviceKind::IntegratedGpu => 1,
        DeviceKind::VirtualGpu => 2,
        DeviceKind::Cpu => 3,
        DeviceKind::Other => 4,
    }
}

/// The first queue family of `c` that supports graphics and can present.
pub fn first_usable_family(c: &DeviceCandidate) -> (r: Option<usize>)
    ensures
        match r {
            Some(q) => is_first_usable_family(c.queue_families@, q as int),
            None => !has_usable_family(c.queue_families@),
        },
{
    let mut q: usize = 0;
    while q < c.queue_families.len()
        invariant
            q <= c.queue_families@.len(),
            forall|j: int| 0 <= j < q ==> !#[trigger] family_usable(c.queue_families@[j]),
        decreases c.queue_families@.len() - q,
    {
        let f = c.queue_families[q];
        if f.graphics && f.presents {
            return Some(q);
        }
        q = q + 1;
    }
    None
}

/// Chooses the device to render with: among the candidates that support the
/// required extensions and have a queue family that does graphics and
/// presents, the first of the most preferred kind. Returns its index and the
/// index of its first such queue family, or `None` if no candidate qualifies.
pub fn select_physical_device(candidates: &Vec<DeviceCandidate>) -> (r: Option<(usize, usize)>)
    ensures
        match r {
            Some((i, q)) => is_best(candidates@, i as int) && is_first_usable_family(
                candidates@[i as int].queue_families@,
                q as int,
            ),
            None => forall|j: int|
                0 <= j < candidates@.len() ==> !#[trigger] eligible(candidates@[j]),
        },
{
    let mut best: Option<(usize, usize, u8)> = None;
    let mut i: usize = 0;
    while i < candidates.len()
        invariant
            i <= candidates@.len(),
            match best {
                Some((bi, bq, br)) => {
                    &&& bi < i
                    &&& eligible(candidates@[bi as int])
                    &&& is_first_usable_family(candidates@[bi as int].queue_families@, bq as int)
                    &&& br as nat == rank_of(candidates@[bi as int])
                    &&& forall|j: int|
                        0 <= j < i && #[trigger] eligible(candidates@[j]) ==> rank_of(
                            candidates@[j],
                        ) >= br && (j < bi ==> rank_of(candidates@[j]) > br)
                },
                None => forall|j: int| 0 <= j < i ==> !#[trigger] eligible(candidates@[j]),
            },
        decreases candidates@.len() - i,
    {
        let c = &candidates[i];
        if c.has_required_extensions {
            match first_usable_family(c) {
                Some(q) => {
                    let rank = kind_rank(c.kind);
                    let better = match best {
                        Some((_, _, br)) => rank < br,
                        None => true,
                    };
                    if better {
                        best = Some((i, q, rank));
                    }
                },
                None => {},
            }
        }
        i = i + 1;
    }
    match best {
        Some((bi, bq, _)) => Some((bi, bq)),
        None => None,
    }
}

} // verus!
