//! A GPU as the renderer sees it: its type and its memory heaps.
use crate::{DeviceType, PhysicalDevice};
use vstd::prelude::*;

use super::ash_api::memory_heap_flags_contain;

verus! {

/// `VK_PHYSICAL_DEVICE_TYPE_INTEGRATED_GPU`.
pub const PHYSICAL_DEVICE_TYPE_INTEGRATED_GPU: i32 = 1;

/// `VK_PHYSICAL_DEVICE_TYPE_DISCRETE_GPU`.
pub const PHYSICAL_DEVICE_TYPE_DISCRETE_GPU: i32 = 2;

/// `VK_MEMORY_HEAP_DEVICE_LOCAL_BIT`.
pub const MEMORY_HEAP_DEVICE_LOCAL: u32 = 1;

/// One memory heap of a GPU: its size in bytes and its `VkMemoryHeapFlags`.
#[derive(Clone, Copy, Debug)]
pub struct MemoryHeap {
    pub size: u64,
    pub flags: u32,
}

/// A GPU: its handle, its `VkPhysicalDeviceType`, the memory heaps it reports
/// (the first `memoryHeapCount` entries), and the queue families chosen for
/// graphics and presentation.
pub struct VkPhysicalDevice {
    pub physical_device: u64,
    pub device_type: i32,
    pub memory_heaps: Vec<MemoryHeap>,
    pub graphics_family: u32,
    pub present_family: u32,
}

/// The renderer's class of a raw `VkPhysicalDeviceType`.
pub open spec fn device_type_of(raw: i32) -> DeviceType {
    if raw == PHYSICAL_DEVICE_TYPE_INTEGRATED_GPU {
        DeviceType::Integrated
    } else if raw == PHYSICAL_DEVICE_TYPE_DISCRETE_GPU {
        DeviceType::Discrete
    } else {
        DeviceType::Other
    }
}

/// A heap counts as video memory when its flags hold the device-local bit.
pub open spec fn heap_is_device_local(heap: MemoryHeap) -> bool {
    heap.flags & MEMORY_HEAP_DEVICE_LOCAL == MEMORY_HEAP_DEVICE_LOCAL
}

/// The size of the last device-local heap, as a `usize`; 0 when there is none.
pub open spec fn last_device_local_size(heaps: Seq<MemoryHeap>) -> usize
    decreases heaps.len(),
{
    if heaps.len() == 0 {
        0
    } else if heap_is_device_local(heaps.last()) {
        heaps.last().size as usize
    } else {
        last_device_local_size(heaps.drop_last())
    }
}

/// The reported video memory is the size of the device-local heap with the
/// largest index, or 0 when no heap is device-local.
pub proof fn lemma_vram_size_is_last_device_local_heap(heaps: Seq<MemoryHeap>)
    ensures
        (forall|i: int| 0 <= i < heaps.len() ==> !heap_is_device_local(#[trigger] heaps[i]))
            ==> last_device_local_size(heaps) == 0,
        (exists|i: int| 0 <= i < heaps.len() && heap_is_device_local(#[trigger] heaps[i]))
            ==> exists|j: int|
            0 <= j < heaps.len() && heap_is_device_local(#[trigger] heaps[j])
                && last_device_local_size(heaps) == heaps[j].size as usize && forall|k: int|
                j < k < heaps.len() ==> !heap_is_device_local(#[trigger] heaps[k]),
    decreases heaps.len(),
{
    if heaps.len() > 0 {
        let init = heaps.drop_last();
        lemma_vram_size_is_last_device_local_heap(init);
        assert forall|i: int| 0 <= i < init.len() implies init[i] == heaps[i] by {}
        if !heap_is_device_local(heaps.last()) {
            if exists|i: int| 0 <= i < heaps.len() && heap_is_device_local(#[trigger] heaps[i]) {
                let i = choose|i: int| 0 <= i < heaps.len() && heap_is_device_local(#[trigger] heaps[i]);
                assert(init[i] == heaps[i]);
                let j = choose|j: int|
                    0 <= j < init.len() && heap_is_device_local(#[trigger] init[j])
                        && last_device_local_size(init) == init[j].size as usize && forall|k: int|
                        j < k < init.len() ==> !heap_is_device_local(#[trigger] init[k]);
                assert(heaps[j] == init[j]);
                assert forall|k: int| j < k < heaps.len() implies !heap_is_device_local(#[trigger] heaps[k]) by {
                    if k < init.len() {
                        assert(init[k] == heaps[k]);
                    }
                }
            }
            if forall|i: int| 0 <= i < heaps.len() ==> !heap_is_device_local(#[trigger] heaps[i]) {
                assert forall|i: int| 0 <= i < init.len() implies !heap_is_device_local(#[trigger] init[i]) by {
                    assert(init[i] == heaps[i]);
                }
            }
        } else {
            assert(heap_is_device_local(heaps[heaps.len() - 1]));
        }
    }
}

impl VkPhysicalDevice {
    /// A GPU with the given handle, type and heaps; both queue families start at 0.
    pub fn new(physical_device: u64, device_type: i32, memory_heaps: Vec<MemoryHeap>) -> (r:
        VkPhysicalDevice)
        ensures
            r.physical_device == physical_device,
            r.device_type == device_type,
            r.memory_heaps@ == memory_heaps@,
            r.graphics_family == 0,
            r.present_family == 0,
    {
        VkPhysicalDevice {
            physical_device,
            device_type,
            memory_heaps,
            graphics_family: 0,
            present_family: 0,
        }
    }
}

impl PhysicalDevice for VkPhysicalDevice {
    /// Integrated or discrete GPUs by their Vulkan type; every other type is `Other`.
    fn device_type(&self) -> (r: DeviceType)
        ensures
            r == device_type_of(self.device_type),
            self.device_type == 1 ==> r == DeviceType::Integrated,
            self.device_type == 2 ==> r == DeviceType::Discrete,
            self.device_type != 1 && self.device_type != 2 ==> r == DeviceType::Other,
    {
        if self.device_type == PHYSICAL_DEVICE_TYPE_INTEGRATED_GPU {
            DeviceType::Integrated
        } else if self.device_type == PHYSICAL_DEVICE_TYPE_DISCRETE_GPU {
            DeviceType::Discrete
        } else {
            DeviceType::Other
        }
    }

    /// The size of the last device-local memory heap (0 when there is none).
    fn vram_size(&self) -> (r: usize)
        ensures
            r == last_device_local_size(self.memory_heaps@),
            (forall|i: int|
                0 <= i < self.memory_heaps@.len() ==> (#[trigger] self.memory_heaps@[i]).flags & 1u32
                    != 1u32) ==> r == 0,
            (exists|i: int|
                0 <= i < self.memory_heaps@.len() && (#[trigger] self.memory_heaps@[i]).flags & 1u32
                    == 1u32) ==> exists|j: int|
                0 <= j < self.memory_heaps@.len() && (#[trigger] self.memory_heaps@[j]).flags & 1u32
                    == 1u32 && r == self.memory_heaps@[j].size as usize && forall|k: int|
                    j < k < self.memory_heaps@.len() ==> (#[trigger] self.memory_heaps@[k]).flags
                        & 1u32 != 1u32,
    {
        proof {
            lemma_vram_size_is_last_device_local_heap(self.memory_heaps@);
        }
        let mut size: usize = 0;
        let n = self.memory_heaps.len();
        for i in 0..n
            invariant
                n == self.memory_heaps@.len(),
                size == last_device_local_size(self.memory_heaps@.take(i as int)),
        {
            let heap = self.memory_heaps[i];
            assert(self.memory_heaps@.take(i + 1).drop_last() =~= self.memory_heaps@.take(i as int));
            if memory_heap_flags_contain(heap.flags, MEMORY_HEAP_DEVICE_LOCAL) {
                size = heap.size as usize;
            }
        }
        assert(self.memory_heaps@.take(n as int) =~= self.memory_heaps@);
        size
    }
}

} // verus!
