use rust_points::alloc_bridge::{free_int, new_int, Malloc};
use rust_points::buffer::max;
use rust_points::callback::{call_closures, call_fun_ptr, InvocationCounter};
use rust_points::opaque::{call_and_get_x, create, destroy, RecordingPathCallback};
use rust_points::point::{mid_point, Point};
use rust_points::text::{drop_str, get_str, print};

fn sum_pair(a: i32, b: i32) -> i32 {
    a + b
}

#[test]
fn midpoint_exact_values() {
    let a = Point { x: 2, y: 10 };
    let b = Point { x: 4, y: 20 };
    assert_eq!(mid_point(&a, &b), Point { x: 3, y: 15 });
}

#[test]
fn midpoint_is_symmetric() {
    let a = Point { x: -7, y: 3 };
    let b = Point { x: 12, y: -40 };
    assert_eq!(mid_point(&a, &b), mid_point(&b, &a));
}

#[test]
fn midpoint_of_a_point_with_itself() {
    let a = Point { x: -123456789, y: 987654321 };
    assert_eq!(mid_point(&a, &a), a);
}

#[test]
fn midpoint_at_extremes() {
    let a = Point { x: i64::MIN, y: i64::MAX };
    let b = Point { x: i64::MAX, y: i64::MIN };
    assert_eq!(mid_point(&a, &b), mid_point(&b, &a));
    assert_eq!(mid_point(&a, &a), a);
}

#[test]
fn max_of_empty_view_is_zero() {
    let xs: Vec<u8> = Vec::new();
    assert_eq!(max(&xs), 0);
}

#[test]
fn max_finds_the_largest_byte() {
    assert_eq!(max(&[1, 3, 2]), 3);
    assert_eq!(max(&[9]), 9);
    assert_eq!(max(&[255, 0, 255]), 255);
    assert_eq!(max(&[0, 0, 0]), 0);
}

#[test]
fn print_builds_the_ok_derivative() {
    let owned = print(b"abc");
    assert_eq!(owned.as_bytes(), b"ok abc");
    drop_str(owned);
}

#[test]
fn print_of_empty_text() {
    let owned = print(b"");
    assert_eq!(owned.as_bytes(), b"ok ");
    drop_str(owned);
}

#[test]
fn static_text_is_the_constant() {
    assert_eq!(get_str(), "123123");
    assert_eq!(get_str(), "123123");
}

#[test]
fn invoke_reads_the_constructed_fields() {
    let mut obj = create(RecordingPathCallback::new());
    assert_eq!(call_and_get_x(&mut obj), 42);
    let recorder = obj.callback();
    assert_eq!(recorder.seen_count(), 1);
    assert_eq!(recorder.seen_at(0).as_slice(), b"/tmp");
    destroy(obj);
}

#[test]
fn separate_objects_are_independent() {
    let mut first = create(RecordingPathCallback::new());
    let mut second = create(RecordingPathCallback::new());
    assert_eq!(call_and_get_x(&mut first), 42);
    assert_eq!(first.callback().seen_count(), 1);
    assert_eq!(second.callback().seen_count(), 0);
    destroy(first);
    assert_eq!(call_and_get_x(&mut second), 42);
    assert_eq!(second.callback().seen_count(), 1);
    destroy(second);
}

#[test]
fn stored_callback_sees_one_path_per_invocation() {
    let mut obj = create(RecordingPathCallback::new());
    call_and_get_x(&mut obj);
    call_and_get_x(&mut obj);
    let recorder = obj.callback();
    assert_eq!(recorder.seen_count(), 2);
    assert_eq!(recorder.seen_at(0).as_slice(), b"/tmp");
    assert_eq!(recorder.seen_at(1).as_slice(), b"/tmp");
    destroy(obj);
}

#[test]
fn alloc_then_borrow_then_free() {
    let handle = new_int(7).unwrap();
    assert_eq!(*handle.get(), 7);
    free_int(handle);
}

#[test]
fn alloc_of_generic_value() {
    let handle = Malloc::new(String::from("seven")).unwrap();
    assert_eq!(handle.get(), "seven");
}

#[test]
fn borrowed_callback_is_invoked_exactly_once() {
    let mut counter = InvocationCounter::new();
    let boxed = call_closures(&mut counter);
    assert_eq!(counter.count(), 1);
    boxed.release();
}

#[test]
fn returned_boxed_callback_is_the_identity() {
    let mut counter = InvocationCounter::new();
    let mut boxed = call_closures(&mut counter);
    assert_eq!(boxed.call(5), 5);
    assert_eq!(boxed.call(-17), -17);
    boxed.release();
}

#[test]
fn function_pointer_is_called_with_one_and_two() {
    assert_eq!(call_fun_ptr(sum_pair), 3);
    assert_eq!(call_fun_ptr(|a: i32, b: i32| a * 10 + b), 12);
}
