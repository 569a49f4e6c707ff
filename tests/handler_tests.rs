use todo_grpc::client::TodoApp;
use todo_grpc::handlers::{relay_item, sign_in_response, sign_up_request, sign_up_response, valid_pin};
use todo_grpc::rpc::{Code, TodoItem};
use todo_grpc::store::{Request, User};

#[test]
fn pin_bounds() {
    assert!(!valid_pin(999));
    assert!(valid_pin(1000));
    assert!(valid_pin(4242));
    assert!(valid_pin(9999));
    assert!(!valid_pin(10000));
    assert!(!valid_pin(0));
    assert!(!valid_pin(-4242));
    assert!(!valid_pin(i32::MAX));
    assert!(!valid_pin(i32::MIN));
}

#[test]
fn out_of_range_pin_never_becomes_a_request() {
    for pin in [i32::MIN, -1, 0, 1, 999, 10000, 123456, i32::MAX] {
        let e = sign_up_request(String::from("alice"), pin).unwrap_err();
        assert_eq!(e.code, Code::InvalidArgument);
        assert_eq!(e.message, "Sign Up for Username: alice - PIN should consist only 4 digits");
    }
}

#[test]
fn four_digit_pin_becomes_a_sign_up_request() {
    match sign_up_request(String::from("alice"), 4242).unwrap() {
        Request::SignUp { username, pin } => {
            assert_eq!(username, "alice");
            assert_eq!(pin, 4242);
        }
        other => panic!("unexpected request {:?}", other),
    }
}

#[test]
fn sign_up_success_response() {
    let user = User { username: String::from("alice"), pin: 4242 };
    let r = sign_up_response(Some(Ok(user))).unwrap();
    assert!(r.success);
    assert_eq!(r.message, "Signed up successfully");
}

#[test]
fn sign_up_failure_carries_reason() {
    let e = sign_up_response(Some(Err(String::from("Duplicate entry 'alice'")))).unwrap_err();
    assert_eq!(e.code, Code::Aborted);
    assert_eq!(e.message, "Error while signing up: Duplicate entry 'alice'");
}

#[test]
fn sign_up_without_reply_is_aborted() {
    let e = sign_up_response(None).unwrap_err();
    assert_eq!(e.code, Code::Aborted);
    assert_eq!(e.message, "Error while signing up");
}

#[test]
fn sign_in_responses() {
    assert_eq!(sign_in_response(Some(Ok(String::from("tok")))).unwrap().token, "tok");
    let e = sign_in_response(Some(Err(String::from("no rows")))).unwrap_err();
    assert_eq!(e.code, Code::Unauthenticated);
    assert_eq!(e.message, "no rows");
    let e = sign_in_response(None).unwrap_err();
    assert_eq!(e.code, Code::Aborted);
    assert_eq!(e.message, "Error while signing in");
}

#[test]
fn relay_passes_items_and_turns_errors_into_aborts() {
    let item = TodoItem {
        id: String::from("1"),
        description: String::from("milk"),
        status: String::from("open"),
    };
    let r = relay_item(Ok(item)).unwrap();
    assert_eq!((r.id.as_str(), r.description.as_str(), r.status.as_str()), ("1", "milk", "open"));
    let e = relay_item(Err(String::from("boom"))).unwrap_err();
    assert_eq!(e.code, Code::Aborted);
    assert_eq!(e.message, "boom");
}

#[test]
fn client_title() {
    assert_eq!(TodoApp::default().name(), "Todo gRPC");
}
