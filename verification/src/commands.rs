use vstd::prelude::*;
use vstd::string::StringExecFns;

use crate::util::RuntimeException;

verus! {

/// Whether `i` is the first position in `names` that holds `id`.
pub open spec fn is_first_position(names: Seq<Seq<char>>, id: Seq<char>, i: int) -> bool {
    &&& 0 <= i < names.len()
    &&& names[i] == id
    &&& forall|j: int| 0 <= j < i ==> names[j] != id
}

/// The first position in `names` that holds `id`, if `id` occurs.
pub open spec fn first_position(names: Seq<Seq<char>>, id: Seq<char>) -> Option<int> {
    if exists|i: int| is_first_position(names, id, i) {
        Some(choose|i: int| is_first_position(names, id, i))
    } else {
        None
    }
}

/// The views of a list of strings.
pub open spec fn views(names: Seq<String>) -> Seq<Seq<char>> {
    names.map_values(|s: String| s@)
}

/// The names of a list of named entries.
pub open spec fn entry_names<V>(entries: Seq<(String, V)>) -> Seq<Seq<char>> {
    entries.map_values(|e: (String, V)| e.0@)
}

/// The entries of `entries` not named `id`, in their order.
pub open spec fn without_name<V>(entries: Seq<(String, V)>, id: Seq<char>) -> Seq<(String, V)> {
    entries.filter(|e: (String, V)| e.0@ != id)
}

/// Integer division by two, rounding toward zero.
pub open spec fn half_toward_zero(x: int) -> int {
    if x >= 0 {
        x / 2
    } else {
        -((-x) / 2)
    }
}

proof fn lemma_first_position_found(names: Seq<Seq<char>>, id: Seq<char>, i: int)
    requires
        is_first_position(names, id, i),
    ensures
        first_position(names, id) == Some(i),
{
    let c = choose|k: int| is_first_position(names, id, k);
    assert(is_first_position(names, id, c));
    if c < i {
        assert(names[c] != id);
    } else if i < c {
        assert(names[i] != id);
    }
}

proof fn lemma_first_position_absent(names: Seq<Seq<char>>, id: Seq<char>)
    requires
        forall|j: int| 0 <= j < names.len() ==> names[j] != id,
    ensures
        first_position(names, id) is None,
{
}

proof fn lemma_without_name_step<V>(entries: Seq<(String, V)>, id: Seq<char>, k: int)
    requires
        0 <= k < entries.len(),
    ensures
        without_name(entries.take(k + 1), id) == if entries[k].0@ != id {
            without_name(entries.take(k), id).push(entries[k])
        } else {
            without_name(entries.take(k), id)
        },
{
    reveal(Seq::filter);
    assert(entries.take(k + 1).drop_last() =~= entries.take(k));
    assert(entries.take(k + 1).last() == entries[k]);
}

proof fn lemma_without_absent_name<V>(entries: Seq<(String, V)>, id: Seq<char>)
    requires
        forall|j: int| 0 <= j < entries.len() ==> entries[j].0@ != id,
    ensures
        without_name(entries, id) == entries,
    decreases entries.len(),
{
    reveal(Seq::filter);
    if entries.len() > 0 {
        lemma_without_absent_name(entries.drop_last(), id);
        assert(entries.drop_last().push(entries.last()) =~= entries);
    }
}

/// Index of the first name in `names` equal to `id`.
pub fn index_of_name(names: &Vec<String>, id: &str) -> (r: Option<usize>)
    ensures
        match r {
            Some(i) => first_position(views(names@), id@) == Some(i as int),
            None => first_position(views(names@), id@) is None,
        },
{
    let ghost ns = views(names@);
    let target = String::from_str(id);
    let mut i: usize = 0;
    while i < names.len()
        invariant
            i <= names.len(),
            ns == views(names@),
            ns.len() == names.len(),
            target@ == id@,
            forall|j: int| 0 <= j < i ==> ns[j] != id@,
        decreases names.len() - i,
    {
        if names[i] == target {
            proof {
                lemma_first_position_found(ns, id@, i as int);
            }
            return Some(i);
        }
        i = i + 1;
    }
    proof {
        lemma_first_position_absent(ns, id@);
    }
    None
}

/// Index of the first entry in `entries` named `id`.
pub fn index_of_entry<V>(entries: &Vec<(String, V)>, id: &str) -> (r: Option<usize>)
    ensures
        match r {
            Some(i) => first_position(entry_names(entries@), id@) == Some(i as int),
            None => first_position(entry_names(entries@), id@) is None,
        },
{
    let ghost ns = entry_names(entries@);
    let target = String::from_str(id);
    let mut i: usize = 0;
    while i < entries.len()
        invariant
            i <= entries.len(),
            ns == entry_names(entries@),
            ns.len() == entries.len(),
            target@ == id@,
            forall|j: int| 0 <= j < i ==> ns[j] != id@,
        decreases entries.len() - i,
    {
        if entries[i].0 == target {
            proof {
                lemma_first_position_found(ns, id@, i as int);
            }
            return Some(i);
        }
        i = i + 1;
    }
    proof {
        lemma_first_position_absent(ns, id@);
    }
    None
}

/// The state a running window keeps for its callbacks: the active components, the
/// window size in pixels, and the global variables.
pub struct Commands<C, V> {
    pub active_components: Vec<C>,
    pub window_bounds: (i32, i32),
    pub global_variables: Vec<(String, V)>,
}

impl<C, V> Commands<C, V> {
    /// A context with no active components and no global variables.
    pub fn new(window_bounds: (i32, i32)) -> (cmds: Self)
        ensures
            cmds.window_bounds == window_bounds,
            cmds.active_components@.len() == 0,
            cmds.global_variables@.len() == 0,
    {
        Commands { active_components: Vec::new(), window_bounds, global_variables: Vec::new() }
    }

    /// The names of the global variables, in order.
    pub open spec fn variable_names(&self) -> Seq<Seq<char>> {
        entry_names(self.global_variables@)
    }

    /// `after` is `self` with the first active component whose id (per `ids`) is `id`
    /// removed, or `self` unchanged when no id matches.
    pub open spec fn destroyed(self, after: Self, ids: Seq<Seq<char>>, id: Seq<char>) -> bool {
        &&& match first_position(ids, id) {
            Some(i) => after.active_components@ == self.active_components@.remove(i),
            None => after.active_components@ == self.active_components@,
        }
        &&& after.global_variables@ == self.global_variables@
        &&& after.window_bounds == self.window_bounds
    }

    /// `after` is `self` with a global variable named `id` holding `var` appended.
    pub open spec fn var_added(self, after: Self, id: Seq<char>, var: V) -> bool {
        &&& after.global_variables@.len() == self.global_variables@.len() + 1
        &&& after.global_variables@.drop_last() == self.global_variables@
        &&& after.global_variables@.last().0@ == id
        &&& after.global_variables@.last().1 == var
        &&& after.active_components@ == self.active_components@
        &&& after.window_bounds == self.window_bounds
    }

    /// `after` is `self` without its global variables named `id`.
    pub open spec fn var_deleted(self, after: Self, id: Seq<char>) -> bool {
        &&& after.global_variables@ == without_name(self.global_variables@, id)
        &&& after.active_components@ == self.active_components@
        &&& after.window_bounds == self.window_bounds
    }

    /// `after` is `self` with `component` appended to the active components.
    pub open spec fn spawned(self, after: Self, component: C) -> bool {
        &&& after.active_components@ == self.active_components@.push(component)
        &&& after.global_variables@ == self.global_variables@
        &&& after.window_bounds == self.window_bounds
    }

    /// Adds `component` at the end of the active components.
    pub fn spawn(&mut self, component: C)
        ensures
            old(self).spawned(*final(self), component),
    {
        self.active_components.push(component);
    }

    /// Removes the first active component whose id, given by `ids` position by position,
    /// equals `id`; does nothing when no component has that id.
    pub fn destroy(&mut self, ids: &Vec<String>, id: &str)
        requires
            ids.len() == old(self).active_components.len(),
        ensures
            old(self).destroyed(*final(self), views(ids@), id@),
    {
        if let Some(position) = index_of_name(ids, id) {
            self.active_components.remove(position);
        }
    }

    /// Position of the first active component whose id, given by `ids` position by
    /// position, equals `id`.
    pub fn find_index(&self, ids: &Vec<String>, id: &str) -> (r: Option<usize>)
        requires
            ids.len() == self.active_components.len(),
        ensures
            match r {
                Some(i) => first_position(views(ids@), id@) == Some(i as int) && i < self.active_components.len(),
                None => first_position(views(ids@), id@) is None,
            },
    {
        index_of_name(ids, id)
    }

    /// Adds a global variable named `id` holding `var`, after the existing ones.
    pub fn add_global_var(&mut self, id: &str, var: V)
        ensures
            old(self).var_added(*final(self), id@, var),
    {
        self.global_variables.push((String::from_str(id), var));
        assert(self.global_variables@.drop_last() =~= old(self).global_variables@);
    }

    /// The value of the first global variable named `id`.
    pub fn get_global_var(&self, id: &str) -> (r: Option<&V>)
        ensures
            match first_position(self.variable_names(), id@) {
                Some(i) => r == Some(&self.global_variables@[i].1),
                None => r is None,
            },
    {
        match index_of_entry(&self.global_variables, id) {
            Some(i) => Some(&self.global_variables[i].1),
            None => None,
        }
    }

    /// Deletes every global variable named `id`, keeping the others in their order.
    pub fn delete_global_var(&mut self, id: &str)
        ensures
            old(self).var_deleted(*final(self), id@),
    {
        let ghost initial = self.global_variables@;
        let target = String::from_str(id);
        let mut i: usize = 0;
        let ghost mut k: int = 0;
        proof {
            assert(initial.take(0) =~= Seq::<(String, V)>::empty());
            reveal(Seq::filter);
            assert(initial.skip(0) =~= initial);
            assert(self.global_variables@ =~= without_name(initial.take(0), id@) + initial.skip(0));
        }
        while i < self.global_variables.len()
            invariant
                0 <= k <= initial.len(),
                self.global_variables@ == without_name(initial.take(k), id@) + initial.skip(k),
                i == without_name(initial.take(k), id@).len(),
                target@ == id@,
                self.active_components@ == old(self).active_components@,
                self.window_bounds == old(self).window_bounds,
            decreases initial.len() - k,
        {
            let ghost kept = without_name(initial.take(k), id@);
            proof {
                lemma_without_name_step(initial, id@, k);
                assert(self.global_variables@[i as int] == initial[k]);
            }
            if self.global_variables[i].0 == target {
                self.global_variables.remove(i);
                proof {
                    assert(self.global_variables@ =~= kept + initial.skip(k + 1));
                }
            } else {
                proof {
                    assert(self.global_variables@ =~= kept.push(initial[k]) + initial.skip(k + 1));
                }
                i = i + 1;
            }
            proof {
                k = k + 1;
            }
        }
        proof {
            assert(initial.take(k) =~= initial);
            assert(self.global_variables@ =~= without_name(initial, id@));
        }
    }

    /// The window width in pixels.
    pub fn width(&self) -> (w: i32)
        ensures
            w == self.window_bounds.0,
    {
        self.window_bounds.0
    }

    /// The window height in pixels.
    pub fn height(&self) -> (h: i32)
        ensures
            h == self.window_bounds.1,
    {
        self.window_bounds.1
    }

    /// Half the window width, rounded toward zero.
    pub fn half_width(&self) -> (w: i32)
        ensures
            w == half_toward_zero(self.window_bounds.0 as int),
    {
        self.window_bounds.0 / 2
    }

    /// Half the window height, rounded toward zero.
    pub fn half_height(&self) -> (h: i32)
        ensures
            h == half_toward_zero(self.window_bounds.1 as int),
    {
        self.window_bounds.1 / 2
    }

    /// The window center in pixels.
    pub fn center(&self) -> (c: (i32, i32))
        ensures
            c == (half_toward_zero(self.window_bounds.0 as int) as i32, half_toward_zero(
                self.window_bounds.1 as int,
            ) as i32),
    {
        (self.half_width(), self.half_height())
    }
}

proof fn lemma_first_exists(names: Seq<Seq<char>>, id: Seq<char>, j: int)
    requires
        0 <= j < names.len(),
        names[j] == id,
    ensures
        exists|i: int| is_first_position(names, id, i),
    decreases j,
{
    if exists|k: int| 0 <= k < j && names[k] == id {
        let k = choose|k: int| 0 <= k < j && names[k] == id;
        lemma_first_exists(names, id, k);
    } else {
        assert(is_first_position(names, id, j));
    }
}

/// `id` has no first position exactly when it does not occur.
pub proof fn lemma_first_position_none(names: Seq<Seq<char>>, id: Seq<char>)
    ensures
        first_position(names, id) is None <==> forall|j: int| 0 <= j < names.len() ==> names[j] != id,
{
    if exists|j: int| 0 <= j < names.len() && names[j] == id {
        let j = choose|j: int| 0 <= j < names.len() && names[j] == id;
        lemma_first_exists(names, id, j);
    }
}

/// Appending a name keeps an earlier first position, and makes the new last position the
/// first one for a name that did not occur before.
pub proof fn lemma_first_position_push(names: Seq<Seq<char>>, name: Seq<char>, id: Seq<char>)
    ensures
        first_position(names.push(name), id) == (match first_position(names, id) {
            Some(i) => Some(i),
            None => if name == id {
                Some(names.len() as int)
            } else {
                None
            },
        }),
{
    let pushed = names.push(name);
    match first_position(names, id) {
        Some(i) => {
            assert(is_first_position(names, id, i));
            assert(is_first_position(pushed, id, i));
            lemma_first_position_found(pushed, id, i);
        },
        None => {
            lemma_first_position_none(names, id);
            if name == id {
                assert(is_first_position(pushed, id, names.len() as int));
                lemma_first_position_found(pushed, id, names.len() as int);
            } else {
                assert forall|j: int| 0 <= j < pushed.len() implies pushed[j] != id by {
                    if j < names.len() {
                        assert(pushed[j] == names[j]);
                    }
                }
                lemma_first_position_none(pushed, id);
            }
        },
    }
}

/// After deleting a name, no global variable has that name, and the other variables stay
/// in their order.
pub proof fn law_delete_removes_name<C, V>(before: Commands<C, V>, after: Commands<C, V>, id: Seq<char>)
    requires
        before.var_deleted(after, id),
    ensures
        first_position(after.variable_names(), id) is None,
        after.global_variables@ == without_name(before.global_variables@, id),
{
    broadcast use vstd::seq_lib::group_filter_ensures;

    let names = after.variable_names();
    assert forall|j: int| 0 <= j < names.len() implies names[j] != id by {
        assert(names[j] == after.global_variables@[j].0@);
    }
    lemma_first_position_none(names, id);
}

/// Reading a global variable right after adding it under a name not used before gives back
/// the added value.
pub proof fn law_get_after_add<C, V>(before: Commands<C, V>, after: Commands<C, V>, id: Seq<char>, var: V)
    requires
        before.var_added(after, id, var),
        first_position(before.variable_names(), id) is None,
    ensures
        first_position(after.variable_names(), id) == Some(before.global_variables@.len() as int),
        after.global_variables@[before.global_variables@.len() as int].1 == var,
{
    let entries = after.global_variables@;
    assert(entries == before.global_variables@.push(entries.last()));
    assert(after.variable_names() =~= before.variable_names().push(id));
    lemma_first_position_push(before.variable_names(), id, id);
}

/// Adding a global variable under a name not used before, then deleting that name, gives
/// back the variables as they were.
pub proof fn law_delete_undoes_add<C, V>(
    before: Commands<C, V>,
    added: Commands<C, V>,
    after: Commands<C, V>,
    id: Seq<char>,
    var: V,
)
    requires
        before.var_added(added, id, var),
        first_position(before.variable_names(), id) is None,
        added.var_deleted(after, id),
    ensures
        after.global_variables@ == before.global_variables@,
{
    let entries = added.global_variables@;
    let old_entries = before.global_variables@;
    let n = old_entries.len() as int;
    assert(entries == old_entries.push(entries.last()));
    lemma_first_position_none(before.variable_names(), id);
    assert forall|j: int| 0 <= j < old_entries.len() implies old_entries[j].0@ != id by {
        assert(before.variable_names()[j] == old_entries[j].0@);
    }
    lemma_without_absent_name(old_entries, id);
    lemma_without_name_step(entries, id, n);
    assert(entries.take(n) =~= old_entries);
    assert(entries.take(n + 1) =~= entries);
}

/// A component spawned under an id that no active component has is the one found for
/// that id.
pub proof fn law_find_after_spawn<C, V>(
    before: Commands<C, V>,
    after: Commands<C, V>,
    component: C,
    ids: Seq<Seq<char>>,
    id: Seq<char>,
)
    requires
        before.spawned(after, component),
        ids.len() == before.active_components@.len(),
        first_position(ids, id) is None,
    ensures
        first_position(ids.push(id), id) == Some(before.active_components@.len() as int),
        after.active_components@[before.active_components@.len() as int] == component,
{
    lemma_first_position_push(ids, id, id);
}

/// Spawning a component under an id that no active component has, then destroying that
/// id, gives back the active components as they were.
pub proof fn law_destroy_undoes_spawn<C, V>(
    before: Commands<C, V>,
    spawned: Commands<C, V>,
    after: Commands<C, V>,
    component: C,
    ids: Seq<Seq<char>>,
    id: Seq<char>,
)
    requires
        before.spawned(spawned, component),
        ids.len() == before.active_components@.len(),
        first_position(ids, id) is None,
        spawned.destroyed(after, ids.push(id), id),
    ensures
        after.active_components@ == before.active_components@,
        after.global_variables@ == before.global_variables@,
{
    lemma_first_position_push(ids, id, id);
    assert(before.active_components@.push(component).remove(before.active_components@.len() as int)
        =~= before.active_components@);
}

/// The engine's entry points for callbacks that do not receive the command context
/// directly: each takes the context of the running window, if any.
pub struct Engine;

/// The message of the exception for a component that could not be destroyed.
pub open spec fn destroy_failure_message(id: Seq<char>) -> Seq<char> {
    "Failed to destroy component '"@ + id + "'"@
}

impl Engine {
    /// Removes the first active component named `id` from the running window's context;
    /// an exception when no window is running.
    pub fn destroy<C, V>(active: Option<&mut Commands<C, V>>, ids: &Vec<String>, id: &str) -> (r:
        Result<(), RuntimeException>)
        requires
            active matches Some(cmds) ==> ids.len() == cmds.active_components.len(),
        ensures
            r is Ok <==> active is Some,
            r matches Err(e) ==> e.0@ == destroy_failure_message(id@),
            active matches Some(cmds) ==> cmds.destroyed(*final(cmds), views(ids@), id@),
    {
        match active {
            Some(cmds) => {
                cmds.destroy(ids, id);
                Ok(())
            },
            None => {
                let mut msg = String::from_str("Failed to destroy component '");
                msg.append(id);
                msg.append("'");
                Err(RuntimeException(msg))
            },
        }
    }

    /// Deletes the global variables named `id` from the running window's context, if a
    /// window is running.
    pub fn delete_global_var<C, V>(active: Option<&mut Commands<C, V>>, id: &str)
        ensures
            active matches Some(cmds) ==> cmds.var_deleted(*final(cmds), id@),
    {
        if let Some(cmds) = active {
            cmds.delete_global_var(id);
        }
    }

    /// The value of the first global variable named `id`.
    pub fn get_global_var<'a, C, V>(cmds: &'a Commands<C, V>, id: &str) -> (v: &'a V)
        requires
            first_position(cmds.variable_names(), id@) is Some,
        ensures
            *v == cmds.global_variables@[first_position(cmds.variable_names(), id@)->0].1,
    {
        cmds.get_global_var(id).unwrap()
    }

    /// Adds a global variable named `id` holding `var` to the running window's context.
    pub fn add_global_var<C, V>(cmds: &mut Commands<C, V>, id: &str, var: V) -> (r: Result<
        (),
        RuntimeException,
    >)
        ensures
            r is Ok,
            old(cmds).var_added(*final(cmds), id@, var),
    {
        cmds.add_global_var(id, var);
        Ok(())
    }
}

} // verus!
