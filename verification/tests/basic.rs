use file_appender::{BITE, GB, KB, MB};

#[test]
fn it_works() {
    assert_eq!(2 + 2, 4);
}

#[test]
fn size_units_are_powers_of_1024() {
    assert_eq!(BITE, 1);
    assert_eq!(KB, 1024);
    assert_eq!(MB, 1_048_576);
    assert_eq!(GB, 1_073_741_824);
}
