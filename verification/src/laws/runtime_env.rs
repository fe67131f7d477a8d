//! What setting, reading, pushing and popping do to the environment.
use crate::chiika_env::{empty_frame, env_after_push, env_after_set, EnvItem};
use vstd::prelude::*;

verus! {

/// After setting the `n`-th item of the current frame, that item (which
/// `chiika_env_ref` reads as the `len - 1 - n`-th last) holds the value and
/// type that were set; every other item of the frame, and every other frame,
/// stays as it was.
pub proof fn law_env_ref_reads_back_set(
    env: Seq<Seq<Option<EnvItem>>>,
    n: i64,
    value: i64,
    type_id: i64,
)
    requires
        env.len() > 0,
        0 <= n < env.last().len(),
    ensures
        env_after_set(env, n, value, type_id).len() == env.len(),
        env_after_set(env, n, value, type_id).last().len() == env.last().len(),
        env_after_set(env, n, value, type_id).last()[n as int] == Some((value, type_id)),
        ({
            let f = env_after_set(env, n, value, type_id).last();
            f[f.len() - 1 - (f.len() - 1 - n)] == Some((value, type_id))
        }),
        forall|k: int|
            0 <= k < env.last().len() && k != n ==> #[trigger] env_after_set(env, n, value, type_id).last()[k]
                == env.last()[k],
        forall|j: int| 0 <= j < env.len() - 1 ==> #[trigger] env_after_set(env, n, value, type_id)[j] == env[j],
{
}

/// A pushed frame has `size` items, none of them set, on top of the frames
/// that were there; popping it (once its first item is set) gives back the
/// environment from before the push, and the value set there.
pub proof fn law_env_pop_undoes_push(env: Seq<Seq<Option<EnvItem>>>, size: i64, value: i64, type_id: i64)
    requires
        1 <= size <= usize::MAX,
    ensures
        env_after_push(env, size).last() == empty_frame(size as nat),
        env_after_push(env, size).drop_last() == env,
        env_after_set(env_after_push(env, size), 0, value, type_id).last().len() == size,
        env_after_set(env_after_push(env, size), 0, value, type_id).last()[0] == Some((value, type_id)),
        env_after_set(env_after_push(env, size), 0, value, type_id).drop_last() == env,
{
    let pushed = env_after_push(env, size);
    assert(size as usize as nat == size as nat);
    assert(pushed.drop_last() =~= env);
    let set = env_after_set(pushed, 0, value, type_id);
    assert(set.drop_last() =~= env);
}

} // verus!
