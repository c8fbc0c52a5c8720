#[test]
fn it_works() {
    assert_eq!(4, 4);
}
