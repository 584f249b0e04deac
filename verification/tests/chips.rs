use ermc192641::arduino::ChipSelect;

#[test]
fn every_column_lies_in_the_slice_of_its_controller() {
    for x in 0u8..192 {
        let (chip, column) = ChipSelect::locate(x);
        let index = chip.index();
        assert_eq!(index, x / 64);
        assert!(64 * (index as u16) <= x as u16);
        assert!((x as u16) < 64 * (index as u16 + 1));
        assert_eq!(column, x % 64);
    }
}

#[test]
fn controllers_are_listed_from_left_to_right() {
    let chips = ChipSelect::iter();
    assert_eq!(chips[0], ChipSelect::CHIP1);
    assert_eq!(chips[1], ChipSelect::CHIP2);
    assert_eq!(chips[2], ChipSelect::CHIP3);
}

#[test]
fn a_controller_is_found_by_its_number() {
    assert_eq!(ChipSelect::try_from(0u8), Ok(ChipSelect::CHIP1));
    assert_eq!(ChipSelect::try_from(1u8), Ok(ChipSelect::CHIP2));
    assert_eq!(ChipSelect::try_from(2u8), Ok(ChipSelect::CHIP3));
    assert_eq!(ChipSelect::try_from(3u8), Err(()));
    assert_eq!(ChipSelect::try_from(255u8), Err(()));
}
