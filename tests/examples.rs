use fnmock::call_sites::{
    add_two, add_two_fake, fetch_user, generate_output, generate_string_from_digit,
    get_config, get_port, notify_user, process_config, process_port,
};
use fnmock::error::NotConfigured;
use fnmock::fake::FakeDouble;
use fnmock::mock::MockDouble;
use fnmock::stub::StubDouble;

type Generate = fn(u8) -> Result<String, String>;
type Fetch = fn(u32) -> Result<String, String>;

#[test]
fn test_stub_with_use_function_stub() {
    let mut get_config_stub: StubDouble<String> = StubDouble::new("get_config");
    get_config_stub.setup("test_config".to_string());

    let result = process_config(&get_config_stub);

    assert_eq!(result, "test_config");

    get_config_stub.clear();
}

#[test]
fn test_stub_with_use_stub_inline() {
    let mut get_port_stub: StubDouble<u16> = StubDouble::new("get_port");
    get_port_stub.setup(3000);

    let result = process_port(&get_port_stub);

    assert_eq!(result, 3000);

    get_port_stub.clear();
}

#[test]
fn it_works() {
    let mut add_two_fake_double: FakeDouble<fn(i32) -> i32> = FakeDouble::new("add_two");
    add_two_fake_double.setup(|_| 8);

    let res = fnmock::call_sites::calc(2, &add_two_fake_double);

    assert_eq!(res, 16);
}

#[test]
fn mod_it_works() {
    let mut mock: MockDouble<u8, Generate> = MockDouble::new("generate_string_from_digit");
    mock.setup(|_: u8| Ok("Mock Output".to_string()));

    let res = generate_output(2, &mut mock);

    assert!(mock.assert_times(1).is_ok());
    assert!(mock.assert_with(2).is_ok());
    assert!(res.is_ok());
    assert_eq!(res.unwrap(), "Output: Mock Output");
}

#[test]
fn mod_it_propagates_the_error() {
    let mut mock: MockDouble<u8, Generate> = MockDouble::new("generate_string_from_digit");
    mock.setup(|_: u8| Err("Mock Error".to_string()));

    let res = generate_output(2, &mut mock);

    assert!(mock.assert_times(1).is_ok());
    assert!(mock.assert_with(2).is_ok());
    assert_eq!(res, Err("Mock Error".to_string()));
}

#[test]
fn main_it_works() {
    let mut mock: MockDouble<u8, Generate> = MockDouble::new("generate_string_from_digit");

    let res = generate_output(2, &mut mock);

    assert!(res.is_ok());
    assert_eq!(res.unwrap(), "Output: Two");
}

#[test]
fn main_it_propagates_the_error() {
    let mut mock: MockDouble<u8, Generate> = MockDouble::new("generate_string_from_digit");

    let res = generate_output(10, &mut mock);

    assert_eq!(res, Err("Digit should be between 0 and 9".to_string()));
}

#[test]
fn unset_mock_leaves_generate_output_log_empty() {
    let mut mock: MockDouble<u8, Generate> = MockDouble::new("generate_string_from_digit");
    let _ = generate_output(3, &mut mock);
    assert!(mock.assert_times(0).is_ok());
}

#[test]
fn digit_words() {
    let words = ["Zero", "One", "Two", "Three", "Four", "Five", "Six", "Seven", "Eight", "Nine"];
    for (d, w) in words.iter().enumerate() {
        assert_eq!(generate_string_from_digit(d as u8), Ok(w.to_string()));
    }
    assert_eq!(
        generate_string_from_digit(255),
        Err("Digit should be between 0 and 9".to_string())
    );
}

#[test]
fn production_config_and_port_when_unset() {
    let config: StubDouble<String> = StubDouble::new("get_config");
    let port: StubDouble<u16> = StubDouble::new("get_port");
    assert_eq!(process_config(&config), "production_config");
    assert_eq!(get_config(), "production_config");
    assert_eq!(process_port(&port), 8080);
    assert_eq!(get_port(), 8080);
}

#[test]
fn calc_without_fake_uses_add_two() {
    let fake: FakeDouble<fn(i32) -> i32> = FakeDouble::new("add_two");
    assert_eq!(fnmock::call_sites::calc(2, &fake), 8);
    assert_eq!(fnmock::call_sites::calc(-5, &fake), -6);
    assert_eq!(add_two(40), 42);
}

#[test]
fn add_two_fake_dispatches_or_fails() {
    let mut fake: FakeDouble<fn(i32) -> i32> = FakeDouble::new("add_two");
    assert_eq!(
        add_two_fake(1, &fake),
        Err(NotConfigured { name: "add_two".to_string() })
    );
    fake.setup(|x| x * 10);
    assert_eq!(add_two_fake(4, &fake), Ok(40));
}

#[test]
fn fetch_user_formats_decimal_id() {
    assert_eq!(fetch_user(42), Ok("User_42".to_string()));
    assert_eq!(fetch_user(0), Ok("User_0".to_string()));
    assert_eq!(fetch_user(u32::MAX), Ok("User_4294967295".to_string()));
}

#[test]
fn notify_user_success_and_failure() {
    let mut fetch: MockDouble<u32, Fetch> = MockDouble::new("fetch_user");
    assert_eq!(notify_user(1, "Welcome!".to_string(), &mut fetch), Ok(()));
    assert!(fetch.assert_times(0).is_ok());

    fetch.setup(|_id| Err("Database error".to_string()));
    let result = notify_user(1, "Welcome!".to_string(), &mut fetch);
    assert_eq!(result, Err("Database error".to_string()));
    assert!(fetch.assert_times(1).is_ok());

    fetch.setup(|id| Ok(format!("user_{}@test.com", id)));
    assert_eq!(notify_user(42, "Test Subject".to_string(), &mut fetch), Ok(()));
    assert!(fetch.assert_with(42).is_ok());
    assert!(fetch.assert_times(2).is_ok());
}
