use vstd::prelude::*;

verus! {

/// What the selection algorithm reads of one queue family: its operation
/// categories, whether it can present to the target surface, and how many
/// queues it offers.
#[derive(Clone, Copy, Debug, PartialEq, Eq, Structural)]
pub struct QueueFamily {
    pub graphics: bool,
    pub compute: bool,
    pub transfer: bool,
    pub presentation: bool,
    pub queue_count: u32,
}

/// A set of operation categories, used as a desired or undesired mask.
#[derive(Clone, Copy, Debug, PartialEq, Eq, Structural)]
pub struct QueueFlags {
    pub graphics: bool,
    pub compute: bool,
    pub transfer: bool,
}

/// The family supports every category in `desired`.
pub open spec fn flags_superset(family: QueueFamily, desired: QueueFlags) -> bool {
    &&& desired.graphics ==> family.graphics
    &&& desired.compute ==> family.compute
    &&& desired.transfer ==> family.transfer
}

/// The family supports no category in `undesired`.
pub open spec fn flags_disjoint(family: QueueFamily, undesired: QueueFlags) -> bool {
    &&& undesired.graphics ==> !family.graphics
    &&& undesired.compute ==> !family.compute
    &&& undesired.transfer ==> !family.transfer
}

/// A family the tiered search can pick for the given masks: it has every
/// desired category, none of the undesired ones, and at least one queue.
pub open spec fn dedicated_candidate(
    family: QueueFamily,
    desired: QueueFlags,
    undesired: QueueFlags,
) -> bool {
    flags_superset(family, desired) && flags_disjoint(family, undesired) && family.queue_count > 0
}

/// A family the direct search can pick: graphics, compute and transfer all
/// present, presentation supported, and at least one queue.
pub open spec fn direct_candidate(family: QueueFamily) -> bool {
    family.graphics && family.compute && family.transfer && family.presentation
        && family.queue_count > 0
}

/// Index `i` is what a greatest-queue-count scan over the candidates picks:
/// a candidate whose count no candidate exceeds, and the first one with that
/// count (a strict comparison never replaces an equal earlier find).
pub open spec fn picks_best(
    families: Seq<QueueFamily>,
    candidate: spec_fn(QueueFamily) -> bool,
    i: int,
) -> bool {
    &&& 0 <= i < families.len()
    &&& candidate(families[i])
    &&& forall|j: int|
        0 <= j < families.len() && candidate(families[j]) ==> families[j].queue_count
            <= families[i].queue_count
    &&& forall|j: int|
        0 <= j < i && candidate(families[j]) ==> families[j].queue_count
            < families[i].queue_count
}

/// Some family satisfies the masks of this tier.
pub open spec fn tier_exists(
    families: Seq<QueueFamily>,
    desired: QueueFlags,
    undesired: QueueFlags,
) -> bool {
    exists|i: int| 0 <= i < families.len() && dedicated_candidate(families[i], desired, undesired)
}

/// The three-tier fallback search: the first tier with any candidate decides,
/// each tier picking by greatest queue count; with no candidates anywhere the
/// direct index is kept.
pub open spec fn tiered_selection(
    families: Seq<QueueFamily>,
    desired: QueueFlags,
    undesired1: QueueFlags,
    undesired2: QueueFlags,
    undesired3: QueueFlags,
    direct: int,
    r: int,
) -> bool {
    if tier_exists(families, desired, undesired1) {
        picks_best(families, |f: QueueFamily| dedicated_candidate(f, desired, undesired1), r)
    } else if tier_exists(families, desired, undesired2) {
        picks_best(families, |f: QueueFamily| dedicated_candidate(f, desired, undesired2), r)
    } else if tier_exists(families, desired, undesired3) {
        picks_best(families, |f: QueueFamily| dedicated_candidate(f, desired, undesired3), r)
    } else {
        r == direct
    }
}

/// The mask naming only compute.
pub open spec fn compute_mask() -> QueueFlags {
    QueueFlags { graphics: false, compute: true, transfer: false }
}

/// The mask naming only transfer.
pub open spec fn transfer_mask() -> QueueFlags {
    QueueFlags { graphics: false, compute: false, transfer: true }
}

/// The mask naming only graphics.
pub open spec fn graphics_mask() -> QueueFlags {
    QueueFlags { graphics: true, compute: false, transfer: false }
}

/// The mask naming graphics and transfer.
pub open spec fn graphics_transfer_mask() -> QueueFlags {
    QueueFlags { graphics: true, compute: false, transfer: true }
}

/// The mask naming graphics and compute.
pub open spec fn graphics_compute_mask() -> QueueFlags {
    QueueFlags { graphics: true, compute: true, transfer: false }
}

/// How the compute index relates to the family list and the direct index:
/// prefer compute without graphics or transfer, then without graphics, then
/// without transfer, then the direct family.
pub open spec fn compute_selection(families: Seq<QueueFamily>, direct: int, r: int) -> bool {
    tiered_selection(
        families,
        compute_mask(),
        graphics_transfer_mask(),
        graphics_mask(),
        transfer_mask(),
        direct,
        r,
    )
}

/// The transfer counterpart, substituting transfer for compute throughout.
pub open spec fn transfer_selection(families: Seq<QueueFamily>, direct: int, r: int) -> bool {
    tiered_selection(
        families,
        transfer_mask(),
        graphics_compute_mask(),
        graphics_mask(),
        compute_mask(),
        direct,
        r,
    )
}

fn matches_masks(family: &QueueFamily, desired: QueueFlags, undesired: QueueFlags) -> (r: bool)
    ensures
        r == (flags_superset(*family, desired) && flags_disjoint(*family, undesired)),
{
    (!desired.graphics || family.graphics) && (!desired.compute || family.compute)
        && (!desired.transfer || family.transfer) && (!undesired.graphics || !family.graphics)
        && (!undesired.compute || !family.compute) && (!undesired.transfer || !family.transfer)
}

/// Finds the family with the greatest queue count among those that carry all
/// desired categories and none of the undesired ones; `None` when no family
/// qualifies.
pub fn find_queue_family_index(
    families: &Vec<QueueFamily>,
    desired_flags: QueueFlags,
    undesired_flags: QueueFlags,
) -> (r: Option<u32>)
    requires
        families@.len() <= u32::MAX,
    ensures
        r is Some <==> tier_exists(families@, desired_flags, undesired_flags),
        r matches Some(idx) ==> picks_best(
            families@,
            |f: QueueFamily| dedicated_candidate(f, desired_flags, undesired_flags),
            idx as int,
        ),
{
    let mut queue_count: u32 = 0;
    let mut family_index: u32 = 0;
    let ghost cand = |f: QueueFamily| dedicated_candidate(f, desired_flags, undesired_flags);
    for i in 0..families.len()
        invariant
            families@.len() <= u32::MAX,
            cand == (|f: QueueFamily| dedicated_candidate(f, desired_flags, undesired_flags)),
            queue_count == 0 ==> forall|j: int| 0 <= j < i ==> !cand(families@[j]),
            queue_count > 0 ==> {
                &&& family_index < i
                &&& cand(families@[family_index as int])
                &&& queue_count == families@[family_index as int].queue_count
                &&& forall|j: int|
                    0 <= j < i && cand(families@[j]) ==> families@[j].queue_count <= queue_count
                &&& forall|j: int|
                    0 <= j < family_index && cand(families@[j]) ==> families@[j].queue_count
                        < queue_count
            },
    {
        let family = families[i];
        if matches_masks(&family, desired_flags, undesired_flags) && family.queue_count
            > queue_count {
            queue_count = family.queue_count;
            family_index = i as u32;
        }
    }
    if queue_count > 0 {
        Some(family_index)
    } else {
        None
    }
}

/// Finds the direct family: the greatest queue count among families that
/// support graphics, compute, transfer and presentation at once; `None`, and
/// so overall failure, when no family does.
pub fn find_direct_queue_family_index(families: &Vec<QueueFamily>) -> (r: Option<u32>)
    requires
        families@.len() <= u32::MAX,
    ensures
        r is Some <==> exists|i: int| 0 <= i < families@.len() && direct_candidate(families@[i]),
        r matches Some(idx) ==> picks_best(
            families@,
            |f: QueueFamily| direct_candidate(f),
            idx as int,
        ),
{
    let mut queue_count: u32 = 0;
    let mut family_index: u32 = 0;
    let ghost cand = |f: QueueFamily| direct_candidate(f);
    for i in 0..families.len()
        invariant
            families@.len() <= u32::MAX,
            cand == (|f: QueueFamily| direct_candidate(f)),
            queue_count == 0 ==> forall|j: int| 0 <= j < i ==> !cand(families@[j]),
            queue_count > 0 ==> {
                &&& family_index < i
                &&& cand(families@[family_index as int])
                &&& queue_count == families@[family_index as int].queue_count
                &&& forall|j: int|
                    0 <= j < i && cand(families@[j]) ==> families@[j].queue_count <= queue_count
                &&& forall|j: int|
                    0 <= j < family_index && cand(families@[j]) ==> families@[j].queue_count
                        < queue_count
            },
    {
        let family = families[i];
        if family.graphics && family.compute && family.transfer && family.queue_count > queue_count
            && family.presentation {
            queue_count = family.queue_count;
            family_index = i as u32;
        }
    }
    if queue_count > 0 {
        Some(family_index)
    } else {
        None
    }
}

/// Runs the whole selection: the direct family decides success, and the
/// compute and transfer indices degrade through their tiers to the direct
/// index when the hardware offers no dedicated families.
pub fn find_queue_family_indices(families: &Vec<QueueFamily>) -> (r: Option<(u32, u32, u32)>)
    requires
        families@.len() <= u32::MAX,
    ensures
        r is Some <==> exists|i: int| 0 <= i < families@.len() && direct_candidate(families@[i]),
        r matches Some(idx) ==> picks_best(
            families@,
            |f: QueueFamily| direct_candidate(f),
            idx.0 as int,
        ) && compute_selection(families@, idx.0 as int, idx.1 as int) && transfer_selection(
            families@,
            idx.0 as int,
            idx.2 as int,
        ),
{
    let direct_index = match find_direct_queue_family_index(families) {
        Some(i) => i,
        None => { return None; },
    };

    let compute_index = match find_queue_family_index(
        families,
        QueueFlags { graphics: false, compute: true, transfer: false },
        QueueFlags { graphics: true, compute: false, transfer: true },
    ) {
        Some(i) => i,
        None => match find_queue_family_index(
            families,
            QueueFlags { graphics: false, compute: true, transfer: false },
            QueueFlags { graphics: true, compute: false, transfer: false },
        ) {
            Some(i) => i,
            None => match find_queue_family_index(
                families,
                QueueFlags { graphics: false, compute: true, transfer: false },
                QueueFlags { graphics: false, compute: false, transfer: true },
            ) {
                Some(i) => i,
                None => direct_index,
            },
        },
    };

    let transfer_index = match find_queue_family_index(
        families,
        QueueFlags { graphics: false, compute: false, transfer: true },
        QueueFlags { graphics: true, compute: true, transfer: false },
    ) {
        Some(i) => i,
        None => match find_queue_family_index(
            families,
            QueueFlags { graphics: false, compute: false, transfer: true },
            QueueFlags { graphics: true, compute: false, transfer: false },
        ) {
            Some(i) => i,
            None => match find_queue_family_index(
                families,
                QueueFlags { graphics: false, compute: false, transfer: true },
                QueueFlags { graphics: false, compute: true, transfer: false },
            ) {
                Some(i) => i,
                None => direct_index,
            },
        },
    };

    Some((direct_index, compute_index, transfer_index))
}

/// With no family carrying graphics, compute, transfer and presentation at
/// once, the selection has no direct candidate at all, so it reports failure
/// rather than a partial answer.
pub proof fn lemma_no_direct_family(families: Seq<QueueFamily>)
    requires
        forall|i: int|
            0 <= i < families.len() ==> !(families[i].graphics && families[i].compute
                && families[i].transfer && families[i].presentation),
    ensures
        !exists|i: int| 0 <= i < families.len() && direct_candidate(families[i]),
{
}

/// When the direct family alone carries compute and transfer, every tier of
/// the dedicated searches is empty and both selections fall back to the
/// direct index.
pub proof fn lemma_dedicated_fallback(
    families: Seq<QueueFamily>,
    direct: int,
    compute: int,
    transfer: int,
)
    requires
        forall|j: int|
            0 <= j < families.len() && families[j].compute ==> families[j].graphics
                && families[j].transfer,
        forall|j: int|
            0 <= j < families.len() && families[j].transfer ==> families[j].graphics
                && families[j].compute,
        compute_selection(families, direct, compute),
        transfer_selection(families, direct, transfer),
    ensures
        compute == direct,
        transfer == direct,
{
    assert(!tier_exists(families, compute_mask(), graphics_transfer_mask()));
    assert(!tier_exists(families, compute_mask(), graphics_mask()));
    assert(!tier_exists(families, compute_mask(), transfer_mask()));
    assert(!tier_exists(families, transfer_mask(), graphics_compute_mask()));
    assert(!tier_exists(families, transfer_mask(), graphics_mask()));
    assert(!tier_exists(families, transfer_mask(), compute_mask()));
}

/// One queue-creation record per distinct selected family: the direct family
/// always, the compute and transfer families only when they differ from it.
pub open spec fn queue_plan_spec(direct: u32, compute: u32, transfer: u32) -> Seq<u32> {
    seq![direct] + (if compute != direct {
        seq![compute]
    } else {
        Seq::<u32>::empty()
    }) + (if transfer != direct && transfer != compute {
        seq![transfer]
    } else {
        Seq::<u32>::empty()
    })
}

/// No family index stands in the plan twice.
pub proof fn lemma_queue_plan_distinct(direct: u32, compute: u32, transfer: u32)
    ensures
        forall|i: int, j: int|
            0 <= i < j < queue_plan_spec(direct, compute, transfer).len()
                ==> queue_plan_spec(direct, compute, transfer)[i] != queue_plan_spec(
                direct,
                compute,
                transfer,
            )[j],
{
}

/// Builds the family indices to request one queue from: each distinct
/// selected family exactly once.
pub fn queue_create_family_indices(direct: u32, compute: u32, transfer: u32) -> (r: Vec<u32>)
    ensures
        r@ == queue_plan_spec(direct, compute, transfer),
{
    let mut r: Vec<u32> = Vec::new();
    r.push(direct);
    if compute != direct {
        r.push(compute);
    }
    if transfer != direct && transfer != compute {
        r.push(transfer);
    }
    proof {
        assert(r@ =~= queue_plan_spec(direct, compute, transfer));
    }
    r
}

} // verus!
