//! Choosing the graphics device: which queue family of a device can draw,
//! how good a device is, and which of the devices at hand is the best.

use vstd::prelude::*;

verus! {

/// The queue families of a device that the renderer needs.
#[derive(Debug, Clone, Copy)]
pub struct QueueFamilyIndices {
    /// The family that takes graphics commands, once one is found.
    pub graphics_family: Option<u32>,
}

impl QueueFamilyIndices {
    /// Whether every family that the renderer needs has been found.
    pub fn is_complete(&self) -> (complete: bool)
        ensures
            complete <==> self.graphics_family is Some,
    {
        self.graphics_family.is_some()
    }
}

/// What kind of hardware a device is.
#[derive(Debug, PartialEq, Eq, Clone, Copy, Hash, Structural)]
pub enum PhysicalDeviceType {
    Other,
    IntegratedGpu,
    DiscreteGpu,
    VirtualGpu,
    Cpu,
}

/// What the renderer reads of a device when it chooses one.
#[derive(Debug)]
pub struct PhysicalDeviceInfo {
    /// The kind of hardware.
    pub device_type: PhysicalDeviceType,
    /// The most shared memory a compute workgroup may use, in bytes.
    pub max_compute_shared_memory_size: u32,
    /// The capability flags of each queue family of the device, as the raw
    /// value of the driver's flag set.
    pub queue_flags: Vec<u32>,
}

/// Whether a queue family with these flags takes graphics commands: the
/// lowest bit of the flag set says so.
pub open spec fn takes_graphics(flags: u32) -> bool {
    flags & 1u32 == 1u32
}

/// Whether some queue family among `queue_flags` takes graphics commands.
pub open spec fn has_graphics_family(queue_flags: Seq<u32>) -> bool {
    exists|i: int| 0 <= i < queue_flags.len() && takes_graphics(#[trigger] queue_flags[i])
}

/// What the kind of hardware alone is worth.
pub open spec fn type_score(device_type: PhysicalDeviceType) -> nat {
    match device_type {
        PhysicalDeviceType::DiscreteGpu => 10000,
        PhysicalDeviceType::IntegratedGpu => 500,
        _ => 0,
    }
}

/// How good a device is: nothing where no queue family of it takes graphics
/// commands, else the worth of its kind plus its shared compute memory.
pub open spec fn device_score(device: PhysicalDeviceInfo) -> nat {
    if has_graphics_family(device.queue_flags@) {
        type_score(device.device_type) + device.max_compute_shared_memory_size as nat
    } else {
        0
    }
}

impl PhysicalDeviceInfo {
    /// Whether the device can be scored within the machine's integers: its
    /// queue families can be numbered in 32 bits, and so can its score.
    pub open spec fn scorable(&self) -> bool {
        &&& self.queue_flags@.len() <= u32::MAX
        &&& type_score(self.device_type) + self.max_compute_shared_memory_size <= u32::MAX
    }

    /// Computes `scorable`.
    pub fn is_scorable(&self) -> (scorable: bool)
        ensures
            scorable == self.scorable(),
    {
        let base: u32 = match self.device_type {
            PhysicalDeviceType::DiscreteGpu => 10000,
            PhysicalDeviceType::IntegratedGpu => 500,
            _ => 0,
        };
        self.queue_flags.len() <= u32::MAX as usize && self.max_compute_shared_memory_size
            <= u32::MAX - base
    }
}

/// Asks `ash::vk::QueueFlags::contains` whether the flag set with the raw
/// value `flags` holds `ash::vk::QueueFlags::GRAPHICS`. The method answers
/// whether every bit of its argument is set in the receiver, and `GRAPHICS`
/// is the lowest bit alone.
#[verifier::external_body]
fn queue_takes_graphics(flags: u32) -> (takes: bool)
    ensures
        takes == takes_graphics(flags),
{
    ash::vk::QueueFlags::from_raw(flags).contains(ash::vk::QueueFlags::GRAPHICS)
}

/// Finds the queue families that the renderer needs among those of a
/// device: for graphics, the first family that takes graphics commands.
pub fn find_queue_families(queue_flags: &Vec<u32>) -> (indices: QueueFamilyIndices)
    requires
        queue_flags@.len() <= u32::MAX,
    ensures
        match indices.graphics_family {
            Some(family) => {
                &&& family < queue_flags@.len()
                &&& takes_graphics(queue_flags@[family as int])
                &&& forall|j: int| 0 <= j < family ==> !takes_graphics(#[trigger] queue_flags@[j])
            },
            None => !has_graphics_family(queue_flags@),
        },
{
    let mut indices = QueueFamilyIndices { graphics_family: None };
    let mut i: usize = 0;
    while i < queue_flags.len() && !indices.is_complete()
        invariant
            i <= queue_flags@.len() <= u32::MAX,
            match indices.graphics_family {
                Some(family) => {
                    &&& family < queue_flags@.len()
                    &&& takes_graphics(queue_flags@[family as int])
                    &&& forall|j: int|
                        0 <= j < family ==> !takes_graphics(#[trigger] queue_flags@[j])
                },
                None => forall|j: int| 0 <= j < i ==> !takes_graphics(#[trigger] queue_flags@[j]),
            },
        decreases queue_flags@.len() - i + (if indices.graphics_family is Some { 0int } else { 1int }),
    {
        if queue_takes_graphics(queue_flags[i]) {
            indices.graphics_family = Some(i as u32);
        }
        i += 1;
    }
    indices
}

/// Scores a device.
pub fn physical_device_score(device: &PhysicalDeviceInfo) -> (score: u32)
    requires
        device.scorable(),
    ensures
        score == device_score(*device),
{
    let mut score: u32 = match device.device_type {
        PhysicalDeviceType::DiscreteGpu => 10000,
        PhysicalDeviceType::IntegratedGpu => 500,
        _ => 0,
    };
    score += device.max_compute_shared_memory_size;
    let indices = find_queue_families(&device.queue_flags);
    if !indices.is_complete() {
        score = 0;
    }
    score
}

/// Chooses among `devices`: the position of a device with the highest
/// score, the last of them where several share it. No device is chosen
/// where every score is zero.
pub fn get_physical_device(devices: &Vec<PhysicalDeviceInfo>) -> (chosen: Option<usize>)
    requires
        forall|i: int| 0 <= i < devices@.len() ==> (#[trigger] devices@[i]).scorable(),
    ensures
        match chosen {
            Some(best) => {
                &&& best < devices@.len()
                &&& device_score(devices@[best as int]) > 0
                &&& forall|j: int|
                    0 <= j < devices@.len() ==> device_score(#[trigger] devices@[j])
                        <= device_score(devices@[best as int])
                &&& forall|j: int|
                    best < j < devices@.len() ==> device_score(#[trigger] devices@[j])
                        < device_score(devices@[best as int])
            },
            None => forall|j: int|
                0 <= j < devices@.len() ==> device_score(#[trigger] devices@[j]) == 0,
        },
{
    let mut chosen: Option<usize> = None;
    let mut best_score: u32 = 0;
    let mut i: usize = 0;
    while i < devices.len()
        invariant
            i <= devices@.len(),
            forall|k: int| 0 <= k < devices@.len() ==> (#[trigger] devices@[k]).scorable(),
            match chosen {
                Some(best) => {
                    &&& best < i
                    &&& best_score == device_score(devices@[best as int])
                    &&& best_score > 0
                    &&& forall|j: int|
                        0 <= j < i ==> device_score(#[trigger] devices@[j]) <= best_score
                    &&& forall|j: int|
                        best < j < i ==> device_score(#[trigger] devices@[j]) < best_score
                },
                None => {
                    &&& best_score == 0
                    &&& forall|j: int| 0 <= j < i ==> device_score(#[trigger] devices@[j]) == 0
                },
            },
        decreases devices@.len() - i,
    {
        let score = physical_device_score(&devices[i]);
        if score != 0 && score >= best_score {
            chosen = Some(i);
            best_score = score;
        }
        i += 1;
    }
    chosen
}

/// What the renderer reads of a queue family when it looks for one that can
/// draw to a surface.
#[derive(Debug, Clone, Copy)]
pub struct QueueFamilyInfo {
    /// The capability flags of the family, as the raw value of the driver's
    /// flag set.
    pub queue_flags: u32,
    /// Whether the family can present to the surface.
    pub surface_support: bool,
}

/// A device that may be chosen to draw to a surface.
#[derive(Debug)]
pub struct DeviceCandidate {
    /// The kind of hardware.
    pub device_type: PhysicalDeviceType,
    /// Whether the device has every extension that the renderer needs.
    pub supports_extensions: bool,
    /// The queue families of the device.
    pub queue_families: Vec<QueueFamilyInfo>,
}

/// Whether a queue family takes graphics commands and can present.
pub open spec fn presentable(family: QueueFamilyInfo) -> bool {
    takes_graphics(family.queue_flags) && family.surface_support
}

/// Whether a device can draw to the surface: it has the extensions, and one
/// of its queue families is presentable.
pub open spec fn eligible(candidate: DeviceCandidate) -> bool {
    candidate.supports_extensions && exists|i: int|
        0 <= i < candidate.queue_families@.len() && presentable(
            #[trigger] candidate.queue_families@[i],
        )
}

/// The rank of a kind of hardware; the lower, the better.
pub open spec fn type_rank(device_type: PhysicalDeviceType) -> nat {
    match device_type {
        PhysicalDeviceType::DiscreteGpu => 0,
        PhysicalDeviceType::IntegratedGpu => 1,
        PhysicalDeviceType::VirtualGpu => 2,
        PhysicalDeviceType::Cpu => 3,
        PhysicalDeviceType::Other => 4,
    }
}

/// Computes `type_rank`.
pub fn device_type_rank(device_type: PhysicalDeviceType) -> (rank: u8)
    ensures
        rank == type_rank(device_type),
{
    match device_type {
        PhysicalDeviceType::DiscreteGpu => 0,
        PhysicalDeviceType::IntegratedGpu => 1,
        PhysicalDeviceType::VirtualGpu => 2,
        PhysicalDeviceType::Cpu => 3,
        PhysicalDeviceType::Other => 4,
    }
}

/// The first presentable queue family among `queue_families`.
pub fn find_present_family(queue_families: &Vec<QueueFamilyInfo>) -> (found: Option<u32>)
    requires
        queue_families@.len() <= u32::MAX,
    ensures
        match found {
            Some(family) => {
                &&& family < queue_families@.len()
                &&& presentable(queue_families@[family as int])
                &&& forall|j: int| 0 <= j < family ==> !presentable(#[trigger] queue_families@[j])
            },
            None => forall|j: int|
                0 <= j < queue_families@.len() ==> !presentable(#[trigger] queue_families@[j]),
        },
{
    let mut i: usize = 0;
    while i < queue_families.len()
        invariant
            i <= queue_families@.len() <= u32::MAX,
            forall|j: int| 0 <= j < i ==> !presentable(#[trigger] queue_families@[j]),
        decreases queue_families@.len() - i,
    {
        if queue_takes_graphics(queue_families[i].queue_flags) && queue_families[i].surface_support {
            return Some(i as u32);
        }
        i += 1;
    }
    None
}

/// Chooses the device to draw with: among the eligible devices one of the
/// best kind, the first of them where several are of that kind, together
/// with its first presentable queue family. No device is chosen where none
/// is eligible.
pub fn select_physical_device(candidates: &Vec<DeviceCandidate>) -> (chosen: Option<(usize, u32)>)
    requires
        forall|i: int|
            0 <= i < candidates@.len() ==> (#[trigger] candidates@[i]).queue_families@.len()
                <= u32::MAX,
    ensures
        match chosen {
            Some((device, family)) => {
                &&& device < candidates@.len()
                &&& candidates@[device as int].supports_extensions
                &&& family < candidates@[device as int].queue_families@.len()
                &&& presentable(candidates@[device as int].queue_families@[family as int])
                &&& forall|j: int|
                    0 <= j < family ==> !presentable(
                        #[trigger] candidates@[device as int].queue_families@[j],
                    )
                &&& forall|j: int|
                    0 <= j < candidates@.len() && eligible(#[trigger] candidates@[j]) ==> type_rank(
                        candidates@[device as int].device_type,
                    ) <= type_rank(candidates@[j].device_type)
                &&& forall|j: int|
                    0 <= j < device && eligible(#[trigger] candidates@[j]) ==> type_rank(
                        candidates@[device as int].device_type,
                    ) < type_rank(candidates@[j].device_type)
            },
            None => forall|j: int| 0 <= j < candidates@.len() ==> !eligible(#[trigger] candidates@[j]),
        },
{
    let mut chosen: Option<(usize, u32)> = None;
    let mut best_rank: u8 = 0;
    let mut i: usize = 0;
    while i < candidates.len()
        invariant
            i <= candidates@.len(),
            forall|k: int|
                0 <= k < candidates@.len() ==> (#[trigger] candidates@[k]).queue_families@.len()
                    <= u32::MAX,
            match chosen {
                Some((device, family)) => {
                    &&& device < i
                    &&& best_rank == type_rank(candidates@[device as int].device_type)
                    &&& candidates@[device as int].supports_extensions
                    &&& family < candidates@[device as int].queue_families@.len()
                    &&& presentable(candidates@[device as int].queue_families@[family as int])
                    &&& forall|j: int|
                        0 <= j < family ==> !presentable(
                            #[trigger] candidates@[device as int].queue_families@[j],
                        )
                    &&& forall|j: int|
                        0 <= j < i && eligible(#[trigger] candidates@[j]) ==> best_rank
                            <= type_rank(candidates@[j].device_type)
                    &&& forall|j: int|
                        0 <= j < device && eligible(#[trigger] candidates@[j]) ==> best_rank
                            < type_rank(candidates@[j].device_type)
                },
                None => forall|j: int| 0 <= j < i ==> !eligible(#[trigger] candidates@[j]),
            },
        decreases candidates@.len() - i,
    {
        let candidate = &candidates[i];
        if candidate.supports_extensions {
            match find_present_family(&candidate.queue_families) {
                Some(family) => {
                    let rank = device_type_rank(candidate.device_type);
                    let better = match chosen {
                        Some(_) => rank < best_rank,
                        None => true,
                    };
                    if better {
                        chosen = Some((i, family));
                        best_rank = rank;
                    }
                },
                None => {},
            }
        }
        i += 1;
    }
    chosen
}

} // verus!
