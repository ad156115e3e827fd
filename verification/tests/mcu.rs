use airfrog::mcu::{Mcu, RpDetails, StmDetails};

fn stm32f4() -> Mcu {
    Mcu::Stm32(StmDetails {
        flash_base: Some(0x0800_0000),
        ram_base: Some(0x2000_0000),
        flash_size_kb: Some(1024),
        ram_size_kb: Some(128),
        is_stm32f4: true,
        sector_count: 12,
        sector_size_bytes: [
            16384, 16384, 16384, 16384, 65536, 131072, 131072, 131072, 131072, 131072, 131072, 131072,
        ],
        expected_idr: None,
    })
}

#[test]
fn sectors_for_word_ranges() {
    let mcu = stm32f4();
    let mut sectors = [0xFFu8; 12];
    assert_eq!(mcu.get_sectors_from_word_range(0, 4095, &mut sectors), Some(1));
    assert_eq!(sectors[0], 0);
    assert_eq!(mcu.get_sectors_from_word_range(4000, 4200, &mut sectors), Some(2));
    assert_eq!(&sectors[..2], &[0, 1]);
    assert_eq!(mcu.get_sectors_from_word_range(16384, 16384 + 16384, &mut sectors), Some(2));
    assert_eq!(&sectors[..2], &[4, 5]);
    assert_eq!(mcu.get_sectors_from_word_range(0, 262143, &mut sectors), Some(12));
    assert_eq!(sectors, [0, 1, 2, 3, 4, 5, 6, 7, 8, 9, 10, 11]);
    let mut untouched = [7u8; 12];
    assert_eq!(mcu.get_sectors_from_word_range(0, 262144, &mut untouched), None);
    assert_eq!(mcu.get_sectors_from_word_range(10, 5, &mut untouched), None);
    assert_eq!(untouched, [7u8; 12]);
    let rp = Mcu::Rp(RpDetails { flash_base: None, ram_base: None, ram_size_kb: None, expected_idr: None });
    assert_eq!(rp.get_sectors_from_word_range(0, 1, &mut untouched), None);
}
