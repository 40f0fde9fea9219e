use pied_piper::{convert, pipe, Middleware, Piper, Transform};
use std::sync::{Arc, Mutex};

fn three() -> i32 {
    3
}

fn times_32(i: i32) -> i32 {
    i * 32
}

fn to_text(i: i32) -> String {
    i.to_string()
}

fn plus_one(i: i32) -> i32 {
    i + 1
}

fn length(s: String) -> usize {
    s.len()
}

#[test]
fn two_stages_give_second_of_first() {
    let m = pipe((three, times_32));
    assert_eq!(times_32(three()), m.call(()));
    assert_eq!(96, m.call(()));
}

#[test]
fn three_stages_give_third_of_second_of_first() {
    let m = pipe((three, times_32, to_text));
    assert_eq!(to_text(times_32(three())), m.call(()));
    assert_eq!(String::from("96"), m.call(()));
}

#[test]
fn grouping_of_fused_stages_is_irrelevant() {
    let left = convert(convert(three, plus_one), times_32);
    let right = convert(three, convert(plus_one, times_32));
    assert_eq!(128, left.transform(()));
    assert_eq!(128, right.transform(()));
    assert_eq!(left.call(()), right.call(()));
}

#[test]
fn order_of_stages_matters() {
    let add_then_multiply = pipe((plus_one, times_32));
    let multiply_then_add = pipe((times_32, plus_one));
    assert_eq!(128, add_then_multiply.call(3));
    assert_eq!(97, multiply_then_add.call(3));
}

#[test]
fn assembling_twice_gives_pipelines_that_agree() {
    let once = pipe((times_32, plus_one, to_text));
    let again = pipe((times_32, plus_one, to_text));
    for input in [-5, 0, 1, 2, 3, 1000] {
        assert_eq!(once.call(input), again.call(input));
    }
    assert_eq!(String::from("33"), once.call(1));
    assert_eq!(String::from("33"), again.call(1));
}

#[test]
fn a_pipeline_keeps_nothing_between_calls() {
    let m = pipe((times_32, to_text));
    assert_eq!(String::from("96"), m.call(3));
    assert_eq!(String::from("32"), m.call(1));
    assert_eq!(String::from("96"), m.call(3));
}

#[test]
fn nesting_is_transparent_without_input() {
    let nested = pipe((pipe((three, times_32)), to_text));
    let flat = pipe((three, times_32, to_text));
    assert_eq!(flat.call(()), nested.call(()));
    assert_eq!(String::from("96"), nested.call(()));
}

#[test]
fn nesting_is_transparent_with_input() {
    let nested = pipe((pipe((plus_one, times_32)), to_text));
    let flat = pipe((plus_one, times_32, to_text));
    for input in [0, 1, 2, 41] {
        assert_eq!(flat.call(input), nested.call(input));
    }
    assert_eq!(String::from("64"), nested.call(1));
}

#[test]
fn a_pipeline_can_stand_at_any_place() {
    let inner = pipe((plus_one, times_32));
    let last = pipe((three, inner));
    assert_eq!(128, last.call(()));
    let inner = pipe((plus_one, times_32));
    let middle = pipe((three, inner, to_text));
    assert_eq!(String::from("128"), middle.call(()));
}

#[test]
fn a_fused_pair_can_be_a_stage_of_a_pipeline() {
    let m = pipe((convert(three, times_32), to_text));
    assert_eq!(String::from("96"), m.call(()));
}

#[test]
fn a_pipeline_runs_as_a_stage() {
    let m = pipe((times_32, to_text));
    assert_eq!(String::from("64"), m.transform(2));
    assert_eq!(m.call(2), m.transform(2));
}

#[test]
fn each_stage_runs_once_and_in_order() {
    let log: Arc<Mutex<Vec<&'static str>>> = Arc::new(Mutex::new(Vec::new()));
    let (first, second, third) = (log.clone(), log.clone(), log.clone());
    let m = pipe((
        move || {
            first.lock().unwrap().push("first");
            3
        },
        move |i: i32| {
            second.lock().unwrap().push("second");
            i * 32
        },
        move |i: i32| {
            third.lock().unwrap().push("third");
            i.to_string()
        },
    ));
    assert!(log.lock().unwrap().is_empty());
    assert_eq!(String::from("96"), m.call(()));
    assert_eq!(vec!["first", "second", "third"], *log.lock().unwrap());
    assert_eq!(String::from("96"), m.call(()));
    assert_eq!(
        vec!["first", "second", "third", "first", "second", "third"],
        *log.lock().unwrap()
    );
}

#[test]
fn a_result_is_handed_on_as_any_other_value() {
    let m = pipe((
        |i: i32| -> Result<i32, String> {
            if i < 0 {
                Err(String::from("negative"))
            } else {
                Ok(i)
            }
        },
        |r: Result<i32, String>| -> Result<i32, String> { r.map(|i| i * 32) },
    ));
    assert_eq!(Ok(96), m.call(3));
    assert_eq!(Err(String::from("negative")), m.call(-3));
}

#[test]
fn pipelines_from_a_producer_of_every_length() {
    assert_eq!(96, pipe((three, times_32)).call(()));
    assert_eq!(97, pipe((three, times_32, plus_one)).call(()));
    assert_eq!(String::from("97"), pipe((three, times_32, plus_one, to_text)).call(()));
    assert_eq!(2, pipe((three, times_32, plus_one, to_text, length)).call(()));
}

#[test]
fn pipelines_from_an_input_of_every_length() {
    assert_eq!(65, pipe((times_32, plus_one)).call(2));
    assert_eq!(2080, pipe((times_32, plus_one, times_32)).call(2));
    assert_eq!(String::from("2080"), pipe((times_32, plus_one, times_32, to_text)).call(2));
    assert_eq!(4, pipe((times_32, plus_one, times_32, to_text, length)).call(2));
}

#[test]
fn the_method_and_the_function_assemble_alike() {
    let by_function = pipe((times_32, plus_one, to_text));
    let by_method = (times_32, plus_one, to_text).pipe();
    for input in [0, 1, 7] {
        assert_eq!(by_function.call(input), by_method.call(input));
    }
}

#[test]
fn closures_that_hold_values_are_stages() {
    let factor = 7;
    let prefix = String::from("n=");
    let m = pipe((move |i: i32| i * factor, move |i: i32| format!("{}{}", prefix, i)));
    assert_eq!(String::from("n=21"), m.call(3));
    assert_eq!(String::from("n=-7"), m.call(-1));
}

fn needs_send_sync_static<X: Send + Sync + 'static>(_: &X) {}

#[test]
fn pipelines_and_pairs_can_be_shared() {
    let m = pipe((times_32, plus_one, to_text));
    needs_send_sync_static(&m);
    let pair = convert(three, times_32);
    needs_send_sync_static(&pair);
    let shared = Arc::new(m);
    let other = shared.clone();
    assert_eq!(String::from("33"), shared.call(1));
    assert_eq!(String::from("65"), other.call(2));
}
