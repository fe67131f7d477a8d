use milika::chiika_env::{
    chiika_env_pop_frame, chiika_env_push_frame, chiika_env_ref, chiika_env_set, ChiikaEnv,
};
use milika::prelude::prelude_funcs;
use milika::strings::decimal_string;
use milika::sync_functions::rand_int;

#[test]
fn env_starts_with_one_empty_frame() {
    let env = ChiikaEnv::new();
    assert_eq!(env.current_frame().len(), 0);
}

#[test]
fn env_set_then_ref_gives_the_value_back() {
    let mut env = ChiikaEnv::new();
    chiika_env_push_frame(&mut env, 3);
    assert_eq!(env.current_frame().len(), 3);
    assert!(env.current_frame().iter().all(|x| x.is_none()));
    chiika_env_set(&mut env, 0, 42, 1);
    chiika_env_set(&mut env, 2, -7, 2);
    // `chiika_env_ref` counts from the last item.
    assert_eq!(chiika_env_ref(&env, 2, 1), 42);
    assert_eq!(chiika_env_ref(&env, 0, 2), -7);
    // Setting again overwrites.
    chiika_env_set(&mut env, 0, 5, 1);
    assert_eq!(chiika_env_ref(&env, 2, 1), 5);
}

#[test]
fn env_pop_frame_returns_the_first_item_and_drops_the_frame() {
    let mut env = ChiikaEnv::new();
    chiika_env_push_frame(&mut env, 2);
    chiika_env_set(&mut env, 0, 99, 0);
    assert_eq!(chiika_env_pop_frame(&mut env, 2), 99);
    // Back to the first, empty frame.
    assert_eq!(env.current_frame().len(), 0);
}

#[test]
fn frames_are_a_stack() {
    let mut env = ChiikaEnv::new();
    chiika_env_push_frame(&mut env, 1);
    chiika_env_set(&mut env, 0, 1, 0);
    chiika_env_push_frame(&mut env, 1);
    chiika_env_set(&mut env, 0, 2, 0);
    assert_eq!(chiika_env_pop_frame(&mut env, 1), 2);
    assert_eq!(chiika_env_ref(&env, 0, 0), 1);
    assert_eq!(chiika_env_pop_frame(&mut env, 1), 1);
}

#[test]
fn rand_int_is_in_range() {
    for n in 1..20 {
        let r = rand_int(n, None);
        assert!(0 <= r && r < n);
    }
}

#[test]
fn seeded_rand_int_is_deterministic() {
    let a = rand_int(1000, Some(7));
    let b = rand_int(1000, Some(7));
    assert_eq!(a, b);
    assert!(0 <= a && a < 1000);
    assert_eq!(rand_int(1, Some(3)), 0);
}

#[test]
fn decimal_strings() {
    assert_eq!(decimal_string(0), "0");
    assert_eq!(decimal_string(7), "7");
    assert_eq!(decimal_string(10), "10");
    assert_eq!(decimal_string(1234567890), "1234567890");
}

#[test]
fn prelude_calls_main_according_to_its_asyncness() {
    let sync_text = prelude_funcs(false);
    assert!(sync_text.starts_with("extern(internal) chiika_main() -> int;"));
    assert!(sync_text.contains("return cont(env, chiika_main());"));
    let async_text = prelude_funcs(true);
    assert!(async_text.starts_with("extern(internal,async) chiika_main() -> int;"));
    assert!(async_text.contains("return chiika_main(env, cont);"));
    assert!(async_text.contains("extern chiika_env_push(ENV env, ANY obj) -> int;"));
    assert!(async_text.contains("fun main() -> int {"));
}
