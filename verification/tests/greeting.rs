use user_store::greeting::hello;

#[test]
fn hello_is_the_fixed_greeting() {
    assert_eq!(hello(), "Hello from Axum! Try GET /users or POST /users");
}

#[test]
fn hello_is_the_same_every_time() {
    assert_eq!(hello(), hello());
}
