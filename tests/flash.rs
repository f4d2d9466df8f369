use hf2::checksum::page_checksum;
use hf2::commands::{BinInfoMode, BinInfoResponse, ChksumPages, ChksumPagesResponse};
use hf2::flash::{
    append_checksums, checksum_plan, checksum_queries, flash_writes, local_checksums, max_pages_per_query,
    mismatched_pages, needs_start_flash, pad_image, verify_image, writes_for_checksums,
};

fn geometry(page: u32, max_message_size: u32) -> BinInfoResponse {
    BinInfoResponse {
        mode: BinInfoMode::Bootloader,
        flash_page_size: page,
        flash_num_pages: 1024,
        max_message_size,
    }
}

#[test]
fn checksum_known_values() {
    assert_eq!(page_checksum(b"123456789"), 0x31c3);
    assert_eq!(page_checksum(&[0u8; 1024]), 0x0000);
    assert_eq!(page_checksum(&[0u8; 256]), 0x0000);
    assert_eq!(page_checksum(b"A"), 0x58e5);
    assert_eq!(page_checksum(&[0u8; 1024]), page_checksum(&vec![0u8; 1024]));
}

#[test]
fn pad_to_page_multiple() {
    let mut image = vec![1u8; 1500];
    pad_image(&mut image, 1024);
    assert_eq!(image.len(), 2048);
    assert!(image[..1500].iter().all(|b| *b == 1));
    assert!(image[1500..].iter().all(|b| *b == 0));
    let mut exact = vec![2u8; 2048];
    pad_image(&mut exact, 1024);
    assert_eq!(exact.len(), 2048);
    let mut empty: Vec<u8> = vec![];
    pad_image(&mut empty, 1024);
    assert_eq!(empty.len(), 0);
}

#[test]
fn one_write_for_second_page() {
    let base = 0x4000u32;
    let mut image: Vec<u8> = (0..1500u32).map(|i| (i % 251) as u8).collect();
    pad_image(&mut image, 1024);
    assert_eq!(image.len(), 2048);
    let c0 = page_checksum(&image[..1024]);
    let c1 = page_checksum(&image[1024..]);
    let device = vec![c0, c1 ^ 1];
    let writes = flash_writes(&image, base, 1024, &device);
    assert_eq!(writes.len(), 1);
    assert_eq!(writes[0].target_address, base + 1024);
    assert_eq!(writes[0].data, image[1024..].to_vec());
}

#[test]
fn no_writes_when_all_match() {
    let image = vec![5u8; 4096];
    let device = local_checksums(&image, 1024);
    assert_eq!(device.len(), 4);
    assert_eq!(device[0], page_checksum(&image[..1024]));
    assert!(flash_writes(&image, 0, 1024, &device).is_empty());
}

#[test]
fn writes_exactly_the_differing_pages() {
    let image: Vec<u8> = (0..64u8).collect();
    let local = vec![1u16, 2, 3, 4];
    let device = vec![1u16, 9, 3, 9, 7];
    let writes = writes_for_checksums(&image, 0x100, 16, &local, &device);
    assert_eq!(writes.len(), 2);
    assert_eq!(writes[0].target_address, 0x110);
    assert_eq!(writes[0].data, (16..32u8).collect::<Vec<u8>>());
    assert_eq!(writes[1].target_address, 0x130);
    assert_eq!(writes[1].data, (48..64u8).collect::<Vec<u8>>());
}

#[test]
fn verify_reports_every_mismatch() {
    let image = vec![0u8; 8 * 256];
    let mut device = local_checksums(&image, 256);
    device[2] ^= 0xffff;
    device[6] ^= 1;
    device.push(0x1234);
    assert_eq!(verify_image(&image, 256, &device), vec![2, 6]);
}

#[test]
fn mismatches_only_over_local_range() {
    assert_eq!(mismatched_pages(&[1, 2], &[1, 2, 3]), Vec::<usize>::new());
    assert_eq!(mismatched_pages(&[], &[]), Vec::<usize>::new());
    assert_eq!(mismatched_pages(&[1, 2, 3], &[0, 2, 0]), vec![0, 2]);
}

#[test]
fn max_pages_from_message_size() {
    assert_eq!(max_pages_per_query(64), 30);
    assert_eq!(max_pages_per_query(1024), 510);
}

#[test]
fn thirty_five_pages_take_two_queries() {
    let info = geometry(256, 64);
    let plan = checksum_plan(&info, 0x2000, 35 * 256);
    assert_eq!(
        plan,
        vec![
            ChksumPages { target_address: 0x2000, num_pages: 30 },
            ChksumPages { target_address: 0x2000 + 30 * 256, num_pages: 5 },
        ]
    );
}

#[test]
fn batch_boundary() {
    assert_eq!(checksum_queries(0, 30, 1024, 30).len(), 1);
    let two = checksum_queries(0, 31, 1024, 30);
    assert_eq!(two.len(), 2);
    assert_eq!(two[1], ChksumPages { target_address: 30 * 1024, num_pages: 1 });
    assert!(checksum_queries(0, 0, 1024, 30).is_empty());
    assert!(checksum_queries(0, 100, 64, 7).iter().all(|q| q.num_pages <= 7));
}

#[test]
fn device_checksums_are_gathered_in_order() {
    let mut all = vec![];
    append_checksums(&mut all, &ChksumPagesResponse { chksums: vec![1, 2] });
    append_checksums(&mut all, &ChksumPagesResponse { chksums: vec![3] });
    assert_eq!(all, vec![1, 2, 3]);
}

#[test]
fn start_flash_only_outside_bootloader() {
    let mut info = geometry(256, 64);
    assert!(!needs_start_flash(&info));
    info.mode = BinInfoMode::UserSpace;
    assert!(needs_start_flash(&info));
}
