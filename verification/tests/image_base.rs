use wuma_tracker::errors::ConnectError;
use wuma_tracker::image_base::{BaseStep, ImageBaseSearch, RegionInfo};

#[test]
fn base_from_the_first_image() {
    let mut s = ImageBaseSearch::new();
    assert_eq!(s.step(), BaseStep::QueryDyldInfo);
    s.dyld_info(0, 0x7000);
    assert_eq!(s.step(), BaseStep::ReadImageInfos(0x7000));
    s.image_infos(Some((3, 0x8000)));
    assert_eq!(s.step(), BaseStep::ReadFirstImage(0x8000));
    s.first_image(Some(0x1_0000_0000));
    assert_eq!(s.step(), BaseStep::Found(0x1_0000_0000));
}

#[test]
fn dyld_failures() {
    let mut s = ImageBaseSearch::new();
    s.dyld_info(4, 0x7000);
    assert_eq!(s.step(), BaseStep::Failed(ConnectError::DyldInfoFailed { kr: 4 }));
    let mut s = ImageBaseSearch::new();
    s.dyld_info(0, 0);
    assert_eq!(s.step(), BaseStep::Failed(ConnectError::DyldInfoFailed { kr: 0 }));
}

#[test]
fn image_list_failures() {
    let mut s = ImageBaseSearch::new();
    s.dyld_info(0, 0x7000);
    s.image_infos(None);
    assert_eq!(s.step(), BaseStep::Failed(ConnectError::ImageInfosUnreadable));
    let mut s = ImageBaseSearch::new();
    s.dyld_info(0, 0x7000);
    s.image_infos(Some((0, 0x8000)));
    assert_eq!(s.step(), BaseStep::Failed(ConnectError::ImageListEmpty));
    let mut s = ImageBaseSearch::new();
    s.dyld_info(0, 0x7000);
    s.image_infos(Some((2, 0)));
    assert_eq!(s.step(), BaseStep::Failed(ConnectError::ImageListEmpty));
    let mut s = ImageBaseSearch::new();
    s.dyld_info(0, 0x7000);
    s.image_infos(Some((2, 0x8000)));
    s.first_image(None);
    assert_eq!(s.step(), BaseStep::Failed(ConnectError::ImageEntryUnreadable));
}

#[test]
fn fallback_takes_the_first_executable_region() {
    let mut s = ImageBaseSearch::new();
    s.dyld_info(0, 0x7000);
    s.image_infos(Some((2, 0x8000)));
    s.first_image(Some(0));
    assert_eq!(s.step(), BaseStep::QueryRegion(1));
    s.region(Some(RegionInfo { address: 0x1000, size: 0x2000, protection: 1 }));
    assert_eq!(s.step(), BaseStep::QueryRegion(0x3000));
    s.region(Some(RegionInfo { address: 0x5000, size: 0, protection: 3 }));
    assert_eq!(s.step(), BaseStep::QueryRegion(0x5001));
    s.region(Some(RegionInfo { address: 0x9000, size: 0x1000, protection: 5 }));
    assert_eq!(s.step(), BaseStep::Found(0x9000));
}

#[test]
fn fallback_gives_up() {
    let mut s = ImageBaseSearch::new();
    s.dyld_info(0, 0x7000);
    s.image_infos(Some((2, 0x8000)));
    s.first_image(Some(0));
    s.region(None);
    assert_eq!(s.step(), BaseStep::Failed(ConnectError::NoExecutableRegion));
    let mut s = ImageBaseSearch::new();
    s.dyld_info(0, 0x7000);
    s.image_infos(Some((2, 0x8000)));
    s.first_image(Some(0));
    s.region(Some(RegionInfo { address: u64::MAX, size: 0x10, protection: 0 }));
    assert_eq!(s.step(), BaseStep::Failed(ConnectError::NoExecutableRegion));
}
