use vstd::prelude::*;

verus! {

/// A translation along one of the camera's own basis directions.
#[derive(Clone, Copy, Debug, PartialEq, Eq, Structural)]
pub enum Movement {
    Up,
    Down,
    Forward,
    Backward,
    Left,
    Right,
}

/// A rotation about the world's vertical axis: `Left` turns by a positive
/// angle, `Right` by a negative one.
#[derive(Clone, Copy, Debug, PartialEq, Eq, Structural)]
pub enum Turn {
    Left,
    Right,
}

/// The keys of the controller that are held during one frame.
#[derive(Clone, Copy, Debug, PartialEq, Eq, Structural)]
pub struct HeldKeys {
    pub up: bool,
    pub down: bool,
    pub forward: bool,
    pub backward: bool,
    pub left: bool,
    pub right: bool,
    pub turn_left: bool,
    pub turn_right: bool,
}

/// `seq![x]` if `b` holds, the empty sequence otherwise.
pub open spec fn only_if<T>(b: bool, x: T) -> Seq<T> {
    if b { seq![x] } else { Seq::empty() }
}

/// Whether the key bound to `m` is held.
pub open spec fn is_held(keys: HeldKeys, m: Movement) -> bool {
    match m {
        Movement::Up => keys.up,
        Movement::Down => keys.down,
        Movement::Forward => keys.forward,
        Movement::Backward => keys.backward,
        Movement::Left => keys.left,
        Movement::Right => keys.right,
    }
}

/// The movements a frame applies, one for each held movement key, in the
/// order up, down, forward, backward, left, right.
pub open spec fn movements_of(keys: HeldKeys) -> Seq<Movement> {
    only_if(keys.up, Movement::Up)
        + only_if(keys.down, Movement::Down)
        + only_if(keys.forward, Movement::Forward)
        + only_if(keys.backward, Movement::Backward)
        + only_if(keys.left, Movement::Left)
        + only_if(keys.right, Movement::Right)
}

/// The turns a frame applies: left first, then right.
pub open spec fn turns_of(keys: HeldKeys) -> Seq<Turn> {
    only_if(keys.turn_left, Turn::Left) + only_if(keys.turn_right, Turn::Right)
}

/// The sign of a turn's angle.
pub open spec fn turn_sign(t: Turn) -> int {
    match t {
        Turn::Left => 1,
        Turn::Right => -1,
    }
}

/// The movement keys held are exactly the one bound to `m`.
pub open spec fn only_held(keys: HeldKeys, m: Movement) -> bool {
    forall|n: Movement| is_held(keys, n) <==> n == m
}

proof fn lemma_append_only_if(a: Seq<Movement>, b: bool, x: Movement)
    ensures
        forall|m: Movement| #[trigger]
            (a + only_if(b, x)).contains(m) <==> a.contains(m) || (b && m == x),
        a.no_duplicates() && !(b && a.contains(x)) ==> (a + only_if(b, x)).no_duplicates(),
{
    let s = a + only_if(b, x);
    if b {
        assert(s =~= a.push(x));
        assert forall|m: Movement| #[trigger] s.contains(m) <==> a.contains(m) || m == x by {
            if a.contains(m) {
                let i = choose|i: int| 0 <= i < a.len() && a[i] == m;
                assert(s[i] == m);
            }
            if m == x {
                assert(s[a.len() as int] == x);
            }
        }
    } else {
        assert(s =~= a);
    }
}

/// A frame makes one movement for each held movement key and no other: each
/// held key is applied once, so that held keys add up.
pub proof fn lemma_movements_are_held_keys(keys: HeldKeys)
    ensures
        forall|m: Movement| #[trigger] movements_of(keys).contains(m) <==> is_held(keys, m),
        movements_of(keys).no_duplicates(),
{
    let s0 = Seq::<Movement>::empty();
    let s1 = s0 + only_if(keys.up, Movement::Up);
    let s2 = s1 + only_if(keys.down, Movement::Down);
    let s3 = s2 + only_if(keys.forward, Movement::Forward);
    let s4 = s3 + only_if(keys.backward, Movement::Backward);
    let s5 = s4 + only_if(keys.left, Movement::Left);
    let s6 = s5 + only_if(keys.right, Movement::Right);
    assert(s1 =~= only_if(keys.up, Movement::Up));
    assert(s6 == movements_of(keys));
    lemma_append_only_if(s0, keys.up, Movement::Up);
    lemma_append_only_if(s1, keys.down, Movement::Down);
    lemma_append_only_if(s2, keys.forward, Movement::Forward);
    lemma_append_only_if(s3, keys.backward, Movement::Backward);
    lemma_append_only_if(s4, keys.left, Movement::Left);
    lemma_append_only_if(s5, keys.right, Movement::Right);
    assert(s0.no_duplicates());
    assert forall|m: Movement| #[trigger] s6.contains(m) <==> is_held(keys, m) by {
        assert(!s0.contains(m));
    }
}

/// With a single movement key held, a frame makes exactly that movement.
pub proof fn lemma_single_key_single_movement(keys: HeldKeys, m: Movement)
    requires
        only_held(keys, m),
    ensures
        movements_of(keys) == seq![m],
{
    assert(is_held(keys, Movement::Up) <==> m == Movement::Up);
    assert(is_held(keys, Movement::Down) <==> m == Movement::Down);
    assert(is_held(keys, Movement::Forward) <==> m == Movement::Forward);
    assert(is_held(keys, Movement::Backward) <==> m == Movement::Backward);
    assert(is_held(keys, Movement::Left) <==> m == Movement::Left);
    assert(is_held(keys, Movement::Right) <==> m == Movement::Right);
    assert(movements_of(keys) =~= seq![m]);
}

impl Turn {
    /// The sign of the turn's angle: `1` for left, `-1` for right.
    pub fn sign(self) -> (r: i8)
        ensures
            r as int == turn_sign(self),
    {
        match self {
            Turn::Left => 1,
            Turn::Right => -1,
        }
    }
}

fn push_if<T>(v: &mut Vec<T>, b: bool, x: T)
    ensures
        final(v)@ == old(v)@ + only_if(b, x),
{
    if b {
        v.push(x);
    } else {
        assert(old(v)@ + only_if(b, x) =~= old(v)@);
    }
    proof {
        if b {
            assert(old(v)@ + only_if(b, x) =~= old(v)@.push(x));
        }
    }
}

/// The movements that the held keys ask for this frame. Each is applied on
/// its own, so that several held keys add up (two keys at right angles move
/// the camera faster than one).
pub fn movements(keys: &HeldKeys) -> (r: Vec<Movement>)
    ensures
        r@ == movements_of(*keys),
{
    let mut v: Vec<Movement> = Vec::new();
    assert(v@ =~= Seq::<Movement>::empty());
    push_if(&mut v, keys.up, Movement::Up);
    assert(v@ =~= only_if(keys.up, Movement::Up));
    push_if(&mut v, keys.down, Movement::Down);
    push_if(&mut v, keys.forward, Movement::Forward);
    push_if(&mut v, keys.backward, Movement::Backward);
    push_if(&mut v, keys.left, Movement::Left);
    push_if(&mut v, keys.right, Movement::Right);
    v
}

/// The turns that the held keys ask for this frame.
pub fn turns(keys: &HeldKeys) -> (r: Vec<Turn>)
    ensures
        r@ == turns_of(*keys),
{
    let mut v: Vec<Turn> = Vec::new();
    push_if(&mut v, keys.turn_left, Turn::Left);
    assert(v@ =~= only_if(keys.turn_left, Turn::Left));
    push_if(&mut v, keys.turn_right, Turn::Right);
    v
}

} // verus!
