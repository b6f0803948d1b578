use krossbar_rpc::Machine;

fn inc(value: i32) -> Result<i32, i32> {
    Ok(value + 1)
}

fn stringify(value: i32) -> Result<String, i32> {
    Ok(format!("{value}"))
}

fn mul_10(value: Result<i32, i32>) -> i32 {
    value.unwrap() * 10
}

fn hello(value: Result<i32, i32>) -> String {
    format!("Hello {}!", value.unwrap())
}

fn up_to_45(mut value: i32) -> Result<i32, i32> {
    while value < 45 {
        value += 1
    }
    Ok(value)
}

fn make_error(value: i32) -> Result<i32, i32> {
    Err(value)
}

#[test]
fn test_simple_test_init() {
    let mach = Machine::<i32, i32>::init(42);
    assert_eq!(Ok(42), mach.result());
}

#[test]
fn test_simple_test_single_step() {
    let mach = Machine::init(42).then(inc);
    assert_eq!(Ok(43), mach.result());
}

#[test]
fn test_simple_test_multiple_step() {
    let mach = Machine::init(42).then(inc).then(inc);
    assert_eq!(Ok(44), mach.result());
}

#[test]
fn test_simple_test_change_state_type() {
    let mach = Machine::init(42).then(inc).then(stringify);
    assert_eq!(Ok("43".to_owned()), mach.result());
}

#[test]
fn test_simple_test_return() {
    let mach = Machine::init(42).then(inc).unwrap(mul_10);
    assert_eq!(430, mach);
}

#[test]
fn test_simple_all_in_one() {
    let mach = Machine::init(42).then(up_to_45).unwrap(hello);
    assert_eq!("Hello 45!", mach);
}

#[test]
fn test_early_return() {
    let mach = Machine::init(42).then(make_error).then(inc).then(inc);
    assert_eq!(Err(42), mach.result());
}
