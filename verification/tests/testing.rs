use growable_array::arith;

#[test]
fn test_add() {
    assert_eq!(arith::add(2, 3), 5);
    assert_eq!(arith::add(-1, 1), 0);
    assert_eq!(arith::add(0, 0), 0);
}

#[test]
fn test_subtract() {
    assert_eq!(arith::subtract(5, 3), 2);
    assert_eq!(arith::subtract(3, 5), -2);
}

#[test]
fn test_divide() {
    assert_eq!(arith::divide(10, 2), 5);
    assert_eq!(arith::divide(7, 2), 3);
}

#[test]
fn test_is_even() {
    let test_cases: [(i32, bool); 5] = [(0, true), (1, false), (2, true), (-2, true), (-3, false)];

    for (input, expected) in test_cases {
        assert_eq!(
            arith::is_even(input),
            expected,
            "is_even({}) should be {}",
            input,
            expected
        );
    }
}

#[test]
fn test_with_result() -> Result<(), String> {
    let result: i32 = arith::add(2, 2);
    if result == 4 {
        Ok(())
    } else {
        Err(format!("Expected 4, got {}", result))
    }
}

#[test]
fn test_with_setup() {
    let data: Vec<i32> = vec![1, 2, 3, 4, 5];
    let expected_sum: i32 = 15;

    let actual_sum: i32 = data.iter().sum();

    assert_eq!(actual_sum, expected_sum);
}

#[derive(Debug, PartialEq)]
struct TestUser {
    name: String,
    age: u32,
}

impl TestUser {
    fn sample() -> Self {
        TestUser { name: String::from("Test User"), age: 25 }
    }
}

fn assert_in_range<T: PartialOrd + std::fmt::Debug>(value: T, min: T, max: T) {
    assert!(
        value >= min && value <= max,
        "{:?} is not in range [{:?}, {:?}]",
        value,
        min,
        max
    );
}

#[test]
fn test_with_fixture() {
    let user = TestUser::sample();
    assert_eq!(user.name, "Test User");
    assert_eq!(user.age, 25);
}

#[test]
fn test_custom_assertion() {
    let value: i32 = 50;
    assert_in_range(value, 0, 100);
}
