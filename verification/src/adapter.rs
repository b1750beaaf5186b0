use vstd::prelude::*;

verus! {

/// The category a driver reports for an adapter.
#[derive(Clone, Copy, Debug, PartialEq, Eq, Structural)]
pub enum DeviceType {
    Other,
    IntegratedGpu,
    DiscreteGpu,
    VirtualGpu,
    Cpu,
}

/// One memory heap of an adapter: its size and whether it is device-local.
#[derive(Clone, Copy, Debug, PartialEq, Eq, Structural)]
pub struct MemoryHeap {
    pub size: u64,
    pub device_local: bool,
}

/// What the selection policy reads of one enumerated adapter.
#[derive(Clone, Debug)]
pub struct AdapterInfo {
    pub device_type: DeviceType,
    pub heaps: Vec<MemoryHeap>,
}

/// The summed size of the device-local heaps.
pub open spec fn local_heap_sum(heaps: Seq<MemoryHeap>) -> int
    decreases heaps.len(),
{
    if heaps.len() == 0 {
        0
    } else {
        local_heap_sum(heaps.drop_last()) + if heaps.last().device_local {
            heaps.last().size as int
        } else {
            0
        }
    }
}

/// The sum over a prefix never exceeds the sum over the whole list.
pub proof fn lemma_local_heap_sum_take(heaps: Seq<MemoryHeap>, i: int)
    requires
        0 <= i <= heaps.len(),
    ensures
        0 <= local_heap_sum(heaps.take(i)) <= local_heap_sum(heaps),
    decreases heaps.len() - i,
{
    if i == heaps.len() {
        assert(heaps.take(i) =~= heaps);
        lemma_local_heap_sum_nonneg(heaps);
    } else {
        lemma_local_heap_sum_take(heaps, i + 1);
        lemma_local_heap_sum_nonneg(heaps.take(i));
        assert(heaps.take(i + 1).drop_last() =~= heaps.take(i));
        assert(heaps.take(i + 1).last() == heaps[i]);
    }
}

pub proof fn lemma_local_heap_sum_nonneg(heaps: Seq<MemoryHeap>)
    ensures
        local_heap_sum(heaps) >= 0,
    decreases heaps.len(),
{
    if heaps.len() > 0 {
        lemma_local_heap_sum_nonneg(heaps.drop_last());
    }
}

/// Sums the device-local heap sizes of one adapter.
pub fn device_local_heap_size(adapter: &AdapterInfo) -> (r: u64)
    requires
        local_heap_sum(adapter.heaps@) <= u64::MAX,
    ensures
        r == local_heap_sum(adapter.heaps@),
{
    let mut sum: u64 = 0;
    proof {
        assert(adapter.heaps@.take(0) =~= Seq::<MemoryHeap>::empty());
    }
    for i in 0..adapter.heaps.len()
        invariant
            local_heap_sum(adapter.heaps@) <= u64::MAX,
            sum == local_heap_sum(adapter.heaps@.take(i as int)),
    {
        proof {
            lemma_local_heap_sum_take(adapter.heaps@, i + 1);
            assert(adapter.heaps@.take(i + 1).drop_last() =~= adapter.heaps@.take(i as int));
            assert(adapter.heaps@.take(i + 1).last() == adapter.heaps@[i as int]);
        }
        let heap = adapter.heaps[i];
        if heap.device_local {
            sum = sum + heap.size;
        }
    }
    proof {
        assert(adapter.heaps@.take(adapter.heaps@.len() as int) =~= adapter.heaps@);
    }
    sum
}

/// What an adapter weighs in the selection: discrete adapters weigh their
/// summed device-local heap size, every other adapter weighs nothing.
pub open spec fn discrete_score(adapter: AdapterInfo) -> int {
    if adapter.device_type == DeviceType::DiscreteGpu {
        local_heap_sum(adapter.heaps@)
    } else {
        0
    }
}

/// The selection policy over an enumerated adapter list: if any discrete
/// adapter has a positive score, the result is the first adapter carrying the
/// greatest score; otherwise it is the first enumerated adapter.
pub open spec fn optimal_adapter(adapters: Seq<AdapterInfo>, r: int) -> bool {
    if exists|i: int| 0 <= i < adapters.len() && discrete_score(adapters[i]) > 0 {
        &&& 0 <= r < adapters.len()
        &&& adapters[r].device_type == DeviceType::DiscreteGpu
        &&& discrete_score(adapters[r]) > 0
        &&& forall|j: int|
            0 <= j < adapters.len() ==> discrete_score(adapters[j]) <= discrete_score(adapters[r])
        &&& forall|j: int| 0 <= j < r ==> discrete_score(adapters[j]) < discrete_score(adapters[r])
    } else {
        r == 0
    }
}

/// With at least one discrete adapter whose device-local heaps have positive
/// summed size, the selection yields a discrete adapter of maximal summed
/// size, and the first such adapter on a tie.
pub proof fn lemma_optimal_prefers_discrete(adapters: Seq<AdapterInfo>, r: int)
    requires
        optimal_adapter(adapters, r),
        exists|i: int|
            0 <= i < adapters.len() && adapters[i].device_type == DeviceType::DiscreteGpu
                && local_heap_sum(adapters[i].heaps@) > 0,
    ensures
        0 <= r < adapters.len(),
        adapters[r].device_type == DeviceType::DiscreteGpu,
        local_heap_sum(adapters[r].heaps@) > 0,
        forall|j: int|
            0 <= j < adapters.len() && adapters[j].device_type == DeviceType::DiscreteGpu
                ==> local_heap_sum(adapters[j].heaps@) <= local_heap_sum(adapters[r].heaps@),
        forall|j: int|
            0 <= j < r && adapters[j].device_type == DeviceType::DiscreteGpu ==> local_heap_sum(
                adapters[j].heaps@,
            ) < local_heap_sum(adapters[r].heaps@),
{
    let w = choose|i: int|
        0 <= i < adapters.len() && adapters[i].device_type == DeviceType::DiscreteGpu
            && local_heap_sum(adapters[i].heaps@) > 0;
    assert(discrete_score(adapters[w]) > 0);
}

/// With no discrete adapter in the list, the selection falls back to the
/// first enumerated adapter.
pub proof fn lemma_no_discrete_falls_back_to_first(adapters: Seq<AdapterInfo>, r: int)
    requires
        optimal_adapter(adapters, r),
        forall|i: int| 0 <= i < adapters.len() ==> adapters[i].device_type != DeviceType::DiscreteGpu,
    ensures
        r == 0,
{
    assert(forall|i: int| 0 <= i < adapters.len() ==> discrete_score(adapters[i]) <= 0);
}

} // verus!
