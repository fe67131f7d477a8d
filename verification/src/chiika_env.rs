//! The environment of the Milika runtime: a stack of frames, each holding
//! the values an async function saved across its chapters.
use vstd::prelude::*;

verus! {

broadcast use vstd::std_specs::vec::group_vec_axioms;

/// A 64-bit integer or a 64-bit pointer.
pub type ChiikaValue = i64;

pub type TypeId = i64;

/// A value and the id of its type.
pub type EnvItem = (ChiikaValue, TypeId);

/// The items of a frame; `None` where nothing was set yet.
pub type EnvFrame = Vec<Option<EnvItem>>;

pub struct ChiikaEnv {
    stack: Vec<EnvFrame>,
}

impl View for ChiikaEnv {
    /// The frames, from the bottom of the stack to the top.
    type V = Seq<Seq<Option<EnvItem>>>;

    closed spec fn view(&self) -> Seq<Seq<Option<EnvItem>>> {
        self.stack@.map_values(|f: EnvFrame| f@)
    }
}

/// A frame of `n` items, none of them set.
pub open spec fn empty_frame(n: nat) -> Seq<Option<EnvItem>> {
    Seq::new(n, |i: int| None)
}

/// The frames after pushing a frame of `size` unset items.
pub open spec fn env_after_push(env: Seq<Seq<Option<EnvItem>>>, size: i64) -> Seq<Seq<Option<EnvItem>>> {
    env.push(empty_frame(size as usize as nat))
}

/// The frames after setting the `n`-th item of the current frame.
pub open spec fn env_after_set(env: Seq<Seq<Option<EnvItem>>>, n: i64, value: ChiikaValue, type_id: TypeId) -> Seq<
    Seq<Option<EnvItem>>,
> {
    env.update(env.len() - 1, env.last().update(n as int, Some((value, type_id))))
}

impl ChiikaEnv {
    /// An environment with one empty frame.
    pub fn new() -> (r: ChiikaEnv)
        ensures
            r@ == seq![Seq::<Option<EnvItem>>::empty()],
    {
        let mut stack: Vec<EnvFrame> = Vec::new();
        stack.push(Vec::new());
        let r = ChiikaEnv { stack };
        assert(r@ =~= seq![Seq::<Option<EnvItem>>::empty()]);
        r
    }

    /// The number of frames on the stack.
    pub fn depth(&self) -> (r: usize)
        ensures
            r == self@.len(),
    {
        self.stack.len()
    }

    /// The frame on the top of the stack.
    pub fn current_frame(&self) -> (r: &EnvFrame)
        requires
            self@.len() > 0,
        ensures
            r@ == self@.last(),
    {
        &self.stack[self.stack.len() - 1]
    }
}

/// Push a frame of `size` unset items to the stack.
pub fn chiika_env_push_frame(env: &mut ChiikaEnv, size: i64)
    requires
        size >= 0,
    ensures
        final(env)@ == env_after_push(old(env)@, size),
{
    let n = size as usize;
    let mut frame: EnvFrame = Vec::new();
    let mut i: usize = 0;
    while i < n
        invariant
            i <= n,
            frame@ =~= empty_frame(i as nat),
        decreases n - i,
    {
        frame.push(None);
        i += 1;
    }
    let ghost before = env.stack@;
    env.stack.push(frame);
    assert(env@ =~= old(env)@.push(empty_frame(n as nat))) by {
        assert(env.stack@ == before.push(frame));
    }
}

/// Set the `n`-th item of the current frame.
pub fn chiika_env_set(env: &mut ChiikaEnv, n: i64, value: ChiikaValue, type_id: TypeId)
    requires
        old(env)@.len() > 0,
        0 <= n < old(env)@.last().len(),
    ensures
        final(env)@ == env_after_set(old(env)@, n, value, type_id),
{
    assert(env@.last() == env.stack@[env.stack.len() - 1]@);
    let mut frame = env.stack.pop().unwrap();
    assert(n < frame.len());
    frame.set(n as usize, Some((value, type_id)));
    env.stack.push(frame);
    assert(env@ =~= old(env)@.update(
        old(env)@.len() - 1,
        old(env)@.last().update(n as int, Some((value, type_id))),
    ));
}

/// Pop last frame from the stack and returns the value of its first item.
/// The frame must have `expected_len` items, and its first item must be set.
pub fn chiika_env_pop_frame(env: &mut ChiikaEnv, expected_len: i64) -> (r: i64)
    requires
        old(env)@.len() > 0,
        old(env)@.last().len() == expected_len as usize,
        old(env)@.last().len() > 0,
        old(env)@.last()[0] is Some,
    ensures
        final(env)@ == old(env)@.drop_last(),
        r == old(env)@.last()[0].unwrap().0,
{
    assert(env@.last() == env.stack@[env.stack.len() - 1]@);
    let frame = env.stack.pop().unwrap();
    assert(env@ =~= old(env)@.drop_last());
    match frame[0] {
        Some((value, _)) => value,
        None => vstd::pervasive::unreached(),
    }
}

/// Peek the `n`-th last item in the current frame, which must be set with
/// the type `expected_type_id`.
pub fn chiika_env_ref(env: &ChiikaEnv, n: i64, expected_type_id: TypeId) -> (r: i64)
    requires
        env@.len() > 0,
        0 <= n < env@.last().len(),
        env@.last()[env@.last().len() - 1 - n] is Some,
        env@.last()[env@.last().len() - 1 - n].unwrap().1 == expected_type_id,
    ensures
        r == env@.last()[env@.last().len() - 1 - n].unwrap().0,
{
    let frame = env.current_frame();
    assert(n < frame.len());
    let k = frame.len() - 1 - n as usize;
    match frame[k] {
        Some((value, _)) => value,
        None => vstd::pervasive::unreached(),
    }
}

} // verus!
