use rendering::bad_add;

#[test]
fn it_works() {
    let result = bad_add(2, 2);
    assert_eq!(result, 4);
}
