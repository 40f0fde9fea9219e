use pied_piper::{convert, pipe, Middleware, Piper, Transform};

fn producer() -> i32 {
    3
}

fn multipler(i: i32) -> i32 {
    i * 32
}

fn stringer(i: i32) -> String {
    i.to_string()
}

fn gen<T: std::fmt::Display>(value: T) -> String {
    format!("foo {}", value)
}

fn logger(s: String) {
    println!("{}", s);
}

fn log_nums(i: i32) {
    println!("{}", i);
}

#[test]
fn test_piper_tuple() {
    pipe((producer, log_nums));
    pipe((producer, stringer, logger));
    pipe((producer, multipler, stringer, logger));
    pipe((multipler, multipler, multipler, gen));
    pipe((multipler, multipler, stringer));

    // alternative syntax
    (producer, log_nums).pipe();
    (producer, stringer, logger).pipe();
    (producer, multipler, stringer, logger).pipe();
    (multipler, multipler, multipler).pipe();
    (multipler, multipler, stringer).pipe();

    // pipe different pipes
    let m = (producer, multipler).pipe(); // 3 * 32 = 96
    let m = (m, multipler).pipe(); // * 32 = 3072
    let m = pipe((m, stringer)); // 3072

    assert_eq!(String::from("3072"), m.call(()));

    // pipe with generics
    let m = (producer, multipler, multipler, gen).pipe();
    assert_eq!(String::from("foo 3072"), m.call(()));
}

#[test]
fn test_piper_tuple_inputs() {
    let m = (multipler, multipler, stringer).pipe();
    assert_eq!(String::from("1024"), m.call(1));
    assert_eq!(String::from("2048"), m.call(2));
    assert_eq!(String::from("3072"), m.call(3));
}

#[test]
fn test_convert_transform() {
    convert(multipler, stringer);
    convert(multipler, multipler);
}

#[test]
fn test_source_transform() {
    convert(producer, multipler);
}

#[test]
fn test_source_sink() {
    convert(producer, log_nums);
}

#[test]
fn test_transform() {
    convert(convert(producer, multipler), stringer);
}

#[test]
fn test_transform_source_transform_sink() {
    convert(convert(convert(producer, multipler), stringer), logger);
}

#[test]
fn fused_pair_runs_first_then_second() {
    let pair = convert(producer, multipler);
    assert_eq!(96, pair.transform(()));
    assert_eq!(96, pair.call(()));
}

#[test]
fn scenario_producer_multiply_text() {
    let m = pipe((producer, multipler, stringer));
    assert_eq!(String::from("96"), m.call(()));
}

#[test]
fn scenario_multiply_twice_then_format() {
    let m = pipe((producer, multipler, multipler, gen));
    assert_eq!(String::from("foo 3072"), m.call(()));
}

#[test]
fn scenario_two_mappers_on_three_inputs() {
    let m = pipe((multipler, stringer));
    assert_eq!(String::from("32"), m.call(1));
    assert_eq!(String::from("64"), m.call(2));
    assert_eq!(String::from("96"), m.call(3));
}
