//! The Milika functions and declarations every program is linked with.
use crate::strings::concat_str;
use vstd::prelude::*;

verus! {

/// The declaration of the user's main function.
pub open spec fn main_sig(main_is_async: bool) -> Seq<char> {
    if main_is_async {
        "extern(internal,async) chiika_main() -> int;"@
    } else {
        "extern(internal) chiika_main() -> int;"@
    }
}

/// How the runtime's entry point calls the user's main function.
pub open spec fn call_user_main(main_is_async: bool) -> Seq<char> {
    if main_is_async {
        "return chiika_main(env, cont);"@
    } else {
        "return cont(env, chiika_main());"@
    }
}

/// The runtime declarations, and the start of the entry point.
pub open spec fn prelude_middle() -> Seq<char> {
    "
        extern chiika_env_push(ENV env, ANY obj) -> int;
        extern chiika_env_pop(ENV env, int n) -> ANY;
        extern chiika_env_ref(ENV env, int n) -> int;
        extern chiika_start_tokio(int n) -> int;
        fun chiika_start_user(ENV env, FN((ENV,int)->FUTURE) cont) -> FUTURE {
    "@
}

/// The end of the entry point, and `main`.
pub open spec fn prelude_tail() -> Seq<char> {
    "
        }
        fun main() -> int {
          chiika_start_tokio(0);
          return 0;
        }
    "@
}

/// Returns the functions needed to run the Milika program.
pub fn prelude_funcs(main_is_async: bool) -> (r: String)
    ensures
        r@ == main_sig(main_is_async) + prelude_middle() + call_user_main(main_is_async) + prelude_tail(),
{
    let main_sig = if main_is_async {
        "extern(internal,async) chiika_main() -> int;"
    } else {
        "extern(internal) chiika_main() -> int;"
    };
    let call_user_main = if main_is_async {
        "return chiika_main(env, cont);"
    } else {
        "return cont(env, chiika_main());"
    };
    let s = String::from_str(main_sig);
    let s = concat_str(&s, "
        extern chiika_env_push(ENV env, ANY obj) -> int;
        extern chiika_env_pop(ENV env, int n) -> ANY;
        extern chiika_env_ref(ENV env, int n) -> int;
        extern chiika_start_tokio(int n) -> int;
        fun chiika_start_user(ENV env, FN((ENV,int)->FUTURE) cont) -> FUTURE {
    ");
    let s = concat_str(&s, call_user_main);
    concat_str(&s, "
        }
        fun main() -> int {
          chiika_start_tokio(0);
          return 0;
        }
    ")
}

} // verus!
