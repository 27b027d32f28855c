use shader_view::bindings::UniformBinding;
use shader_view::uniforms::TimeUniform;
use std::time::Duration;
use std::time::Instant;

#[test]
fn time_starts_at_zero() {
    assert_eq!(TimeUniform::new().time(), 0);
}

#[test]
fn elapsed_millis_are_stored_as_they_are_below_the_wrap() {
    let mut time = TimeUniform::new();
    time.set_elapsed(1234);
    assert_eq!(time.time(), 1234);
    time.set_elapsed(4_294_967_295);
    assert_eq!(time.time(), u32::MAX);
}

#[test]
fn elapsed_millis_wrap_at_32_bits() {
    let mut time = TimeUniform::new();
    time.set_elapsed(4_294_967_296);
    assert_eq!(time.time(), 0);
    time.set_elapsed(4_294_967_297);
    assert_eq!(time.time(), 1);
    time.set_elapsed(3 * 4_294_967_296 + 77);
    assert_eq!(time.time(), 77);
    time.set_elapsed(u128::MAX);
    assert_eq!(time.time(), u32::MAX);
}

#[test]
fn update_time_stores_the_reading_it_returns() {
    let start = Instant::now();
    let mut time = TimeUniform::new();
    let millis = time.update_time(start);
    assert_eq!(time.time(), (millis % 4_294_967_296) as u32);
}

#[test]
fn update_time_counts_from_the_start() {
    let start = Instant::now() - Duration::from_millis(2500);
    let mut time = TimeUniform::new();
    let millis = time.update_time(start);
    assert!(millis >= 2500);
    assert!(time.time() >= 2500);
    assert!(time.time() < 2500 + 20_000);
}

#[test]
fn consecutive_updates_never_go_back() {
    let start = Instant::now();
    let mut time = TimeUniform::new();
    let mut last = time.time();
    for _ in 0..200 {
        time.update_time(start);
        assert!(time.time() >= last);
        last = time.time();
    }
}

#[test]
fn later_readings_give_later_counters_within_one_span() {
    let readings: [u128; 5] = [0, 1, 16, 1000, 4_294_967_295];
    let mut time = TimeUniform::new();
    let mut last = 0;
    for reading in readings {
        time.set_elapsed(reading);
        assert!(time.time() >= last);
        last = time.time();
    }
}

#[test]
fn bytes_are_the_counter_in_memory() {
    let mut time = TimeUniform::new();
    assert_eq!(time.bytes(), vec![0, 0, 0, 0]);
    time.set_elapsed(0x0102_0304);
    assert_eq!(time.bytes(), 0x0102_0304u32.to_ne_bytes().to_vec());
    let bytes = time.bytes();
    assert_eq!(bytes.len(), 4);
    let little = vec![0x04, 0x03, 0x02, 0x01];
    let big = vec![0x01, 0x02, 0x03, 0x04];
    assert!(bytes == little || bytes == big);
}

#[test]
fn binding_hands_out_what_it_was_made_with() {
    let binding = UniformBinding::new(TimeUniform::new(), "buffer", 17u8);
    assert_eq!(binding.uniform().time(), 0);
    assert_eq!(*binding.buffer(), "buffer");
    assert_eq!(*binding.bind_group(), 17);
}

#[test]
fn binding_value_changes_through_uniform_mut_only() {
    let mut binding = UniformBinding::new(TimeUniform::new(), 3u64, 4u64);
    binding.uniform_mut().set_elapsed(250);
    assert_eq!(binding.uniform().time(), 250);
    assert_eq!(*binding.buffer(), 3);
    assert_eq!(*binding.bind_group(), 4);
    *binding.uniform_mut() = TimeUniform::new();
    assert_eq!(binding.uniform().time(), 0);
}

#[test]
fn binding_holds_values_of_the_callers_types() {
    let mut binding = UniformBinding::new([0.0f32, 0.0f32], (), ());
    *binding.uniform_mut() = [0.5, 0.75];
    assert_eq!(*binding.uniform(), [0.5, 0.75]);
}
