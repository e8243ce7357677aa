use spliff::hello;

#[test]
fn it_works() {
    assert_eq!(2 + 2, 4);
}

#[test]
fn hello_greets() {
    assert_eq!(hello(), "Hello");
}
