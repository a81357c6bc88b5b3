//! Finding where the main executable of the game is loaded.
//!
//! The dyld information of the task names the list of loaded images; the first
//! entry is the main executable. When that entry carries no address, the first
//! executable memory region is taken instead.

use vstd::prelude::*;
use crate::errors::ConnectError;

verus! {

/// Protection bit of executable memory.
pub const VM_PROT_EXECUTE: i32 = 0x04;

/// What `mach_vm_region` reported: the region at or after the queried address.
#[derive(Clone, Copy, PartialEq, Eq, Structural, Debug)]
pub struct RegionInfo {
    pub address: u64,
    pub size: u64,
    pub protection: i32,
}

/// Where the search stands, and what it needs next.
#[derive(Clone, Copy, PartialEq, Eq, Structural, Debug)]
pub enum BaseStep {
    /// Ask the task for its dyld information.
    QueryDyldInfo,
    /// Read the header of the image list at this address.
    ReadImageInfos(u64),
    /// Read the first entry of the image list at this address.
    ReadFirstImage(u64),
    /// Ask for the memory region at or after this address.
    QueryRegion(u64),
    /// The main executable is loaded here.
    Found(u64),
    /// The search failed.
    Failed(ConnectError),
}

/// The address after a region: its end, or one past its start for an empty one,
/// held at `u64::MAX`.
pub open spec fn after_region(r: RegionInfo) -> int {
    let size: int = if r.size > 1 { r.size as int } else { 1 };
    if r.address + size > u64::MAX {
        u64::MAX as int
    } else {
        r.address + size
    }
}

/// The step after a region query returned `info` (`None`: no region, or the call failed).
pub open spec fn region_step(info: Option<RegionInfo>) -> BaseStep {
    match info {
        None => BaseStep::Failed(ConnectError::NoExecutableRegion),
        Some(r) => if r.protection & VM_PROT_EXECUTE != 0 {
            BaseStep::Found(r.address)
        } else if after_region(r) <= r.address {
            BaseStep::Failed(ConnectError::NoExecutableRegion)
        } else {
            BaseStep::QueryRegion(after_region(r) as u64)
        },
    }
}

/// The state of a search.
pub struct ImageBaseSearch {
    pub step: BaseStep,
}

impl ImageBaseSearch {
    pub fn new() -> (r: ImageBaseSearch)
        ensures
            r.step == BaseStep::QueryDyldInfo,
    {
        ImageBaseSearch { step: BaseStep::QueryDyldInfo }
    }

    /// What the search needs next, or how it ended.
    pub fn step(&self) -> (r: BaseStep)
        ensures
            r == self.step,
    {
        self.step
    }

    /// Hands over what `task_info` returned: its code and the address of the image list.
    pub fn dyld_info(&mut self, kr: i32, all_image_info_addr: u64)
        requires
            old(self).step == BaseStep::QueryDyldInfo,
        ensures
            final(self).step == (if kr != 0 || all_image_info_addr == 0 {
                BaseStep::Failed(ConnectError::DyldInfoFailed { kr })
            } else {
                BaseStep::ReadImageInfos(all_image_info_addr)
            }),
    {
        if kr != 0 || all_image_info_addr == 0 {
            self.step = BaseStep::Failed(ConnectError::DyldInfoFailed { kr });
        } else {
            self.step = BaseStep::ReadImageInfos(all_image_info_addr);
        }
    }

    /// Hands over the header of the image list: its entry count and the address
    /// of its entries (`None`: it could not be read).
    pub fn image_infos(&mut self, header: Option<(u32, u64)>)
        requires
            old(self).step is ReadImageInfos,
        ensures
            final(self).step == match header {
                None => BaseStep::Failed(ConnectError::ImageInfosUnreadable),
                Some((count, array)) => if count == 0 || array == 0 {
                    BaseStep::Failed(ConnectError::ImageListEmpty)
                } else {
                    BaseStep::ReadFirstImage(array)
                },
            },
    {
        match header {
            None => {
                self.step = BaseStep::Failed(ConnectError::ImageInfosUnreadable);
            },
            Some((count, array)) => {
                if count == 0 || array == 0 {
                    self.step = BaseStep::Failed(ConnectError::ImageListEmpty);
                } else {
                    self.step = BaseStep::ReadFirstImage(array);
                }
            },
        }
    }

    /// Hands over the load address in the first image entry (`None`: it could not be read).
    pub fn first_image(&mut self, load_address: Option<u64>)
        requires
            old(self).step is ReadFirstImage,
        ensures
            final(self).step == match load_address {
                None => BaseStep::Failed(ConnectError::ImageEntryUnreadable),
                Some(a) => if a != 0 {
                    BaseStep::Found(a)
                } else {
                    BaseStep::QueryRegion(1)
                },
            },
    {
        match load_address {
            None => {
                self.step = BaseStep::Failed(ConnectError::ImageEntryUnreadable);
            },
            Some(a) => {
                if a != 0 {
                    self.step = BaseStep::Found(a);
                } else {
                    self.step = BaseStep::QueryRegion(1);
                }
            },
        }
    }

    /// Hands over what the region query returned (`None`: no region, or the call failed).
    pub fn region(&mut self, info: Option<RegionInfo>)
        requires
            old(self).step is QueryRegion,
        ensures
            final(self).step == region_step(info),
    {
        match info {
            None => {
                self.step = BaseStep::Failed(ConnectError::NoExecutableRegion);
            },
            Some(r) => {
                if r.protection & VM_PROT_EXECUTE != 0 {
                    self.step = BaseStep::Found(r.address);
                } else {
                    let size: u64 = if r.size > 1 {
                        r.size
                    } else {
                        1
                    };
                    let next: u64 = r.address.saturating_add(size);
                    if next <= r.address {
                        self.step = BaseStep::Failed(ConnectError::NoExecutableRegion);
                    } else {
                        self.step = BaseStep::QueryRegion(next);
                    }
                }
            },
        }
    }
}

/// The region walk only moves forward: the next query lies past the start of
/// the region just reported (and so past the queried address when the region
/// lies at or after it), and the walk gives up only at the top of the address
/// space. An executable region is taken at its start.
pub proof fn lemma_region_walk_advances(queried: u64, r: RegionInfo)
    ensures
        region_step(Some(r)) matches BaseStep::QueryRegion(next) ==> next > r.address,
        queried <= r.address ==> (region_step(Some(r)) matches BaseStep::QueryRegion(next) ==> next
            > queried),
        region_step(Some(r)) is Failed ==> r.protection & VM_PROT_EXECUTE == 0 && r.address
            == u64::MAX,
        region_step(Some(r)) matches BaseStep::Found(a) ==> a == r.address && r.protection
            & VM_PROT_EXECUTE != 0,
{
}

} // verus!
