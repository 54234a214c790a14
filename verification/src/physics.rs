use vstd::prelude::*;
use vstd::string::StrSliceExecFns;

verus! {

/// A named layer that actors belong to; physics treats actors of the ground layer as
/// solid ground.
#[derive(Clone, Copy, PartialEq, Eq, PartialOrd, Ord, Debug)]
pub struct Layer(pub &'static str);

impl Layer {
    /// The layer actors start in.
    pub fn default_layer() -> (l: Layer)
        ensures
            l.0@ == "Default"@,
    {
        Layer("Default")
    }

    /// The layer of solid ground.
    pub fn ground() -> (l: Layer)
        ensures
            l.0@ == "Ground"@,
    {
        Layer("Ground")
    }
}

/// Whether two texts are equal, character by character.
pub fn same_text(a: &str, b: &str) -> (r: bool)
    ensures
        r == (a@ == b@),
{
    let n = a.unicode_len();
    if n != b.unicode_len() {
        return false;
    }
    let mut i: usize = 0;
    while i < n
        invariant
            n == a@.len(),
            n == b@.len(),
            i <= n,
            forall|k: int| 0 <= k < i ==> a@[k] == b@[k],
        decreases n - i,
    {
        if a.get_char(i) != b.get_char(i) {
            return false;
        }
        i = i + 1;
    }
    assert(a@ =~= b@);
    true
}

/// What the collision systems read of an active component: whether it is an actor, its
/// id, its layer, and whether it carries a collider.
pub struct ColliderInfo {
    pub is_actor: bool,
    pub id: String,
    pub layer: Layer,
    pub has_collider: bool,
}

/// Whether a component is a collision partner of the actor `owner`: another actor with a
/// collider, and, when `ground` is given, in that layer.
pub open spec fn is_partner(info: ColliderInfo, owner: Seq<char>, ground: Option<Layer>) -> bool {
    &&& info.is_actor
    &&& info.id@ != owner
    &&& info.has_collider
    &&& (ground matches Some(g) ==> info.layer.0@ == g.0@)
}

/// Who counts as a partner: without a ground layer, exactly the other actors that carry
/// a collider; with a ground layer `g`, exactly those of them whose layer has the name
/// of `g`, whatever layer `g` is. So a component in the ground layer it is asked about
/// is a partner exactly when it would be one with no layer asked for.
pub proof fn law_partner_layers(info: ColliderInfo, owner: Seq<char>, g: Layer)
    ensures
        is_partner(info, owner, None) <==> (info.is_actor && info.id@ != owner && info.has_collider),
        is_partner(info, owner, Some(g)) <==> (is_partner(info, owner, None) && info.layer.0@ == g.0@),
        is_partner(info, owner, Some(info.layer)) == is_partner(info, owner, None),
        info.layer.0@ != g.0@ ==> !is_partner(info, owner, Some(g)),
{
}

/// Whether `info` describes a collision partner of the actor `owner`.
pub fn is_collision_partner(info: &ColliderInfo, owner: &str, ground: Option<Layer>) -> (r: bool)
    ensures
        r == is_partner(*info, owner@, ground),
        r == (info.is_actor && info.id@ != owner@ && info.has_collider && match ground {
            Some(g) => info.layer.0@ == g.0@,
            None => true,
        }),
{
    let in_layer = match ground {
        Some(g) => same_text(info.layer.0, g.0),
        None => true,
    };
    info.is_actor && !same_text(info.id.as_str(), owner) && info.has_collider && in_layer
}

/// The positions of the collision partners of the actor `owner` among `components`, in
/// increasing order. Collision detection checks all of them; ground physics (with
/// `ground` given) checks them in order until the first one that overlaps.
pub fn partner_indices(components: &Vec<ColliderInfo>, owner: &str, ground: Option<Layer>) -> (out: Vec<usize>)
    ensures
        forall|k: int| 0 <= k < out@.len() ==> #[trigger] out@[k] < components@.len(),
        forall|k: int| 0 <= k < out@.len() ==> is_partner(#[trigger] components@[out@[k] as int], owner@, ground),
        forall|k: int, l: int| 0 <= k < l < out@.len() ==> out@[k] < out@[l],
        forall|i: int|
            0 <= i < components@.len() && is_partner(#[trigger] components@[i], owner@, ground) ==> out@.contains(
                i as usize,
            ),
{
    let mut out: Vec<usize> = Vec::new();
    let mut i: usize = 0;
    while i < components.len()
        invariant
            i <= components@.len(),
            forall|k: int| 0 <= k < out@.len() ==> #[trigger] out@[k] < i,
            forall|k: int| 0 <= k < out@.len() ==> is_partner(#[trigger] components@[out@[k] as int], owner@, ground),
            forall|k: int, l: int| 0 <= k < l < out@.len() ==> out@[k] < out@[l],
            forall|j: int|
                0 <= j < i && is_partner(#[trigger] components@[j], owner@, ground) ==> out@.contains(j as usize),
        decreases components@.len() - i,
    {
        let partner = is_collision_partner(&components[i], owner, ground);
        let ghost before = out@;
        if partner {
            out.push(i);
            assert(out@[before.len() as int] == i);
        }
        assert forall|j: int|
            0 <= j < i + 1 && is_partner(#[trigger] components@[j], owner@, ground) implies out@.contains(
            j as usize,
        ) by {
            if j < i {
                assert(before.contains(j as usize));
                let k = choose|k: int| 0 <= k < before.len() && before[k] == j as usize;
                assert(out@[k] == j as usize);
            } else {
                assert(out@[before.len() as int] == j as usize);
            }
        }
        i = i + 1;
    }
    out
}

} // verus!
