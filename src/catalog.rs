//! The unified records: the join of both sources by identifier, and the
//! search of a record's recipe tree for an ingredient.
use vstd::prelude::*;

use crate::object::OneLifeDataObject;
use crate::twotech::{RecipeStep, TwoTechObject};

verus! {

/// An object of the line format and the crafting record of the same
/// identifier.
#[derive(Debug, PartialEq)]
pub struct SharedGameObject {
    pub one_life_game_data: OneLifeDataObject,
    pub twotech_data: TwoTechObject,
}

/// Either side of an object, as far as it is known.
#[derive(Debug, PartialEq)]
pub struct GameObject {
    pub one_life_game_data: Option<OneLifeDataObject>,
    pub twotech_data: Option<TwoTechObject>,
}

/// Whether a recipe step names `k` as its actor or its target.
pub open spec fn step_refers(s: RecipeStep, k: Seq<char>) -> bool {
    (s.actorID matches Some(a) && a@ == k) || (s.targetID matches Some(t) && t@ == k)
}

/// Whether the flat ingredient list of `o` holds `k`.
pub open spec fn has_ingredient(o: SharedGameObject, k: Seq<char>) -> bool {
    match o.twotech_data.recipe {
        Some(r) => match r.ingredients {
            Some(v) => exists|i: int| 0 <= i < v@.len() && (#[trigger] v@[i])@ == k,
            None => false,
        },
        None => false,
    }
}

/// Whether a step of the recipe of `o` names `k`.
pub open spec fn has_step_ref(o: SharedGameObject, k: Seq<char>) -> bool {
    match o.twotech_data.recipe {
        Some(r) => match r.steps {
            Some(rows) => exists|a: int, b: int|
                0 <= a < rows@.len() && 0 <= b < rows@[a]@.len() && #[trigger] step_refers(
                    rows@[a]@[b],
                    k,
                ),
            None => false,
        },
        None => false,
    }
}

/// Whether the recipe of `o` uses `k`, through its ingredient list or its
/// steps.
pub open spec fn refers_to(o: SharedGameObject, k: Seq<char>) -> bool {
    has_ingredient(o, k) || has_step_ref(o, k)
}

/// Whether a search for `target` stops at `o`: it is the target, or lists
/// the target among its ingredients.
pub open spec fn finds(o: SharedGameObject, target: Seq<char>) -> bool {
    o.twotech_data.id@ == target || has_ingredient(o, target)
}

/// `p` is a chain of entries of `db`: the root's recipe uses the first, and
/// each entry's recipe uses the next.
pub open spec fn is_path(db: Seq<(String, SharedGameObject)>, root: SharedGameObject, p: Seq<int>) -> bool {
    &&& p.len() >= 1
    &&& forall|t: int| 0 <= t < p.len() ==> 0 <= #[trigger] p[t] < db.len()
    &&& refers_to(root, db[p[0]].0@)
    &&& forall|t: int|
        0 <= t < p.len() - 1 ==> refers_to(db[#[trigger] p[t]].1, db[p[t + 1]].0@)
}

/// Entry `j` of `db` lies in the recipe tree of `root`.
pub open spec fn reachable(db: Seq<(String, SharedGameObject)>, root: SharedGameObject, j: int) -> bool {
    exists|p: Seq<int>| #[trigger] is_path(db, root, p) && p.last() == j
}

fn in_vec(x: &Vec<String>, key: &String) -> (r: bool)
    ensures
        r == exists|i: int| 0 <= i < x@.len() && (#[trigger] x@[i])@ == key@,
{
    let mut i: usize = 0;
    while i < x.len()
        invariant
            0 <= i <= x@.len(),
            forall|k: int| 0 <= k < i ==> (#[trigger] x@[k])@ != key@,
        decreases x@.len() - i,
    {
        if x[i] == *key {
            assert((x@[i as int])@ == key@);
            return true;
        }
        i = i + 1;
    }
    false
}

fn in_list(v: &Option<Vec<String>>, key: &String) -> (r: bool)
    ensures
        r == (match *v {
            Some(x) => exists|i: int| 0 <= i < x@.len() && (#[trigger] x@[i])@ == key@,
            None => false,
        }),
{
    match v {
        Some(x) => in_vec(x, key),
        None => false,
    }
}

fn step_names(s: &RecipeStep, key: &String) -> (r: bool)
    ensures
        r == step_refers(*s, key@),
{
    let a = match &s.actorID {
        Some(x) => *x == *key,
        None => false,
    };
    let t = match &s.targetID {
        Some(x) => *x == *key,
        None => false,
    };
    a || t
}

fn in_rows(x: &Vec<Vec<RecipeStep>>, key: &String) -> (r: bool)
    ensures
        r == exists|a: int, b: int|
            0 <= a < x@.len() && 0 <= b < x@[a]@.len() && #[trigger] step_refers(x@[a]@[b], key@),
{
    let mut a: usize = 0;
    while a < x.len()
        invariant
            0 <= a <= x@.len(),
            forall|i: int, j: int|
                0 <= i < a && 0 <= j < x@[i]@.len() ==> !#[trigger] step_refers(x@[i]@[j], key@),
        decreases x@.len() - a,
    {
        let row = &x[a];
        let mut b: usize = 0;
        while b < row.len()
            invariant
                0 <= a < x@.len(),
                *row == x@[a as int],
                0 <= b <= row@.len(),
                forall|i: int, j: int|
                    0 <= i < a && 0 <= j < x@[i]@.len() ==> !#[trigger] step_refers(
                        x@[i]@[j],
                        key@,
                    ),
                forall|j: int| 0 <= j < b ==> !#[trigger] step_refers(row@[j], key@),
            decreases row@.len() - b,
        {
            if step_names(&row[b], key) {
                assert(step_refers(x@[a as int]@[b as int], key@));
                return true;
            }
            b = b + 1;
        }
        a = a + 1;
    }
    false
}

fn in_steps(rows: &Option<Vec<Vec<RecipeStep>>>, key: &String) -> (r: bool)
    ensures
        r == (match *rows {
            Some(x) => exists|a: int, b: int|
                0 <= a < x@.len() && 0 <= b < x@[a]@.len() && #[trigger] step_refers(
                    x@[a]@[b],
                    key@,
                ),
            None => false,
        }),
{
    match rows {
        Some(x) => in_rows(x, key),
        None => false,
    }
}

/// Whether the recipe of `o` uses `key`.
pub fn refers(o: &SharedGameObject, key: &String) -> (r: bool)
    ensures
        r == refers_to(*o, key@),
{
    match &o.twotech_data.recipe {
        Some(rec) => in_list(&rec.ingredients, key) || in_steps(&rec.steps, key),
        None => false,
    }
}

/// Whether `o` lists `key` among its flat ingredients.
pub fn lists_ingredient(o: &SharedGameObject, key: &String) -> (r: bool)
    ensures
        r == has_ingredient(*o, key@),
{
    match &o.twotech_data.recipe {
        Some(rec) => in_list(&rec.ingredients, key),
        None => false,
    }
}

/// Pushes every unvisited entry of `db` whose key the recipe of `o` uses.
fn expand(
    o: &SharedGameObject,
    db: &Vec<(String, SharedGameObject)>,
    visited: &Vec<bool>,
    stack: &mut Vec<usize>,
)
    requires
        visited@.len() == db@.len(),
    ensures
        final(stack)@.len() >= old(stack)@.len(),
        forall|i: int| 0 <= i < old(stack)@.len() ==> final(stack)@[i] == old(stack)@[i],
        forall|i: int|
            old(stack)@.len() <= i < final(stack)@.len() ==> (#[trigger] final(stack)@[i]) < db@.len()
                && refers_to(*o, db@[final(stack)@[i] as int].0@),
        forall|k: int|
            0 <= k < db@.len() && refers_to(*o, db@[k].0@) && !visited@[k] ==> in_stack(
                final(stack)@,
                k,
            ),
{
    let mut j: usize = 0;
    while j < db.len()
        invariant
            visited@.len() == db@.len(),
            0 <= j <= db@.len(),
            stack@.len() >= old(stack)@.len(),
            forall|i: int| 0 <= i < old(stack)@.len() ==> stack@[i] == old(stack)@[i],
            forall|i: int|
                old(stack)@.len() <= i < stack@.len() ==> (#[trigger] stack@[i]) < db@.len()
                    && refers_to(*o, db@[stack@[i] as int].0@),
            forall|k: int|
                0 <= k < j && refers_to(*o, db@[k].0@) && !visited@[k] ==> in_stack(stack@, k),
        decreases db@.len() - j,
    {
        if !visited[j] && refers(o, &db[j].0) {
            let ghost before = stack@;
            stack.push(j);
            proof {
                assert(stack@[stack@.len() - 1] == j);
                assert forall|k: int|
                    0 <= k < j && refers_to(*o, db@[k].0@) && !visited@[k] implies in_stack(
                    stack@,
                    k,
                ) by {
                    let w = choose|w: int| 0 <= w < before.len() && before[w] as int == k;
                    assert(stack@[w] == before[w]);
                }
            }
        }
        proof {
            if refers_to(*o, db@[j as int].0@) && !visited@[j as int] {
                assert(stack@[stack@.len() - 1] == j);
                assert(in_stack(stack@, j as int));
            }
        }
        j = j + 1;
    }
}

/// Whether `k` is on the stack.
pub open spec fn in_stack(s: Seq<usize>, k: int) -> bool {
    exists|w: int| 0 <= w < s.len() && s[w] as int == k
}

/// Number of entries not yet visited.
pub open spec fn unvisited(v: Seq<bool>) -> nat
    decreases v.len(),
{
    if v.len() == 0 {
        0
    } else {
        unvisited(v.drop_last()) + if v.last() {
            0nat
        } else {
            1nat
        }
    }
}

proof fn lemma_unvisited_mark(v: Seq<bool>, j: int)
    requires
        0 <= j < v.len(),
        !v[j],
    ensures
        unvisited(v.update(j, true)) + 1 == unvisited(v),
    decreases v.len(),
{
    let w = v.update(j, true);
    if j == v.len() - 1 {
        assert(w.drop_last() =~= v.drop_last());
    } else {
        assert(w.drop_last() =~= v.drop_last().update(j, true));
        lemma_unvisited_mark(v.drop_last(), j);
    }
}

/// Every entry that is reached lies in a set that holds the entries the root
/// uses and is closed under use.
proof fn lemma_closed_holds_reached(
    db: Seq<(String, SharedGameObject)>,
    root: SharedGameObject,
    visited: Seq<bool>,
    p: Seq<int>,
)
    requires
        visited.len() == db.len(),
        forall|k: int| 0 <= k < db.len() && refers_to(root, db[k].0@) ==> #[trigger] visited[k],
        forall|i: int, k: int|
            0 <= i < db.len() && 0 <= k < db.len() && #[trigger] visited[i] && #[trigger] refers_to(
                db[i].1,
                db[k].0@,
            ) ==> visited[k],
        is_path(db, root, p),
    ensures
        visited[p.last()],
    decreases p.len(),
{
    if p.len() > 1 {
        let q = p.drop_last();
        assert forall|t: int| 0 <= t < q.len() - 1 implies refers_to(
            db[#[trigger] q[t]].1,
            db[q[t + 1]].0@,
        ) by {
            assert(q[t] == p[t]);
            assert(q[t + 1] == p[t + 1]);
        }
        assert forall|t: int| 0 <= t < q.len() implies 0 <= #[trigger] q[t] < db.len() by {
            assert(q[t] == p[t]);
        }
        lemma_closed_holds_reached(db, root, visited, q);
        let t = p.len() - 2;
        assert(refers_to(db[p[t]].1, db[p[t + 1]].0@));
        assert(q.last() == p[t]);
    }
}

/// A path extended by an entry that its last entry's recipe uses.
proof fn lemma_path_push(db: Seq<(String, SharedGameObject)>, root: SharedGameObject, p: Seq<int>, k: int)
    requires
        is_path(db, root, p),
        0 <= k < db.len(),
        refers_to(db[p.last()].1, db[k].0@),
    ensures
        is_path(db, root, p.push(k)),
{
    let q = p.push(k);
    assert(q[0] == p[0]);
    assert forall|t: int| 0 <= t < q.len() - 1 implies refers_to(
        db[#[trigger] q[t]].1,
        db[q[t + 1]].0@,
    ) by {
        if t < p.len() - 1 {
            assert(q[t] == p[t]);
            assert(q[t + 1] == p[t + 1]);
        } else {
            assert(q[t] == p.last());
        }
    }
    assert forall|t: int| 0 <= t < q.len() implies 0 <= #[trigger] q[t] < db.len() by {
        if t < p.len() {
            assert(q[t] == p[t]);
        }
    }
}

/// Whether a search of the recipe tree of `root` for `target` succeeds: the
/// root or an entry it reaches is the target or lists it as an ingredient.
pub open spec fn search_finds(db: Seq<(String, SharedGameObject)>, root: SharedGameObject, target: Seq<char>) -> bool {
    finds(root, target) || exists|j: int|
        0 <= j < db.len() && reachable(db, root, j) && finds(#[trigger] db[j].1, target)
}

/// Searches the recipe tree of `root` for `target_id`, depth first over
/// the entries of `db` (keyed by identifier), visiting each entry once.
/// Returns the object at which the search stops: `root` or a reached entry
/// that is the target or lists it as a flat ingredient. Identifiers that
/// `db` lacks are not followed.
pub fn find_target_ingredient<'a>(
    root_obj: &'a SharedGameObject,
    target_id: &String,
    object_database: &'a Vec<(String, SharedGameObject)>,
) -> (r: Option<&'a SharedGameObject>)
    ensures
        r is Some <==> search_finds(object_database@, *root_obj, target_id@),
        finds(*root_obj, target_id@) ==> r == Some(root_obj),
        r matches Some(x) ==> finds(*x, target_id@) && (*x == *root_obj || exists|j: int|
            0 <= j < object_database@.len() && reachable(object_database@, *root_obj, j)
                && object_database@[j].1 == *x),
        r is None ==> !finds(*root_obj, target_id@) && forall|j: int|
            0 <= j < object_database@.len() && reachable(object_database@, *root_obj, j)
                ==> !finds(#[trigger] object_database@[j].1, target_id@),
{
    let db = object_database;
    let ghost dbs = db@;
    let ghost root = *root_obj;
    let ghost target = target_id@;
    if root_obj.twotech_data.id == *target_id || lists_ingredient(root_obj, target_id) {
        return Some(root_obj);
    }
    let mut visited: Vec<bool> = Vec::new();
    let mut k: usize = 0;
    while k < db.len()
        invariant
            0 <= k <= db@.len(),
            visited@.len() == k,
            forall|i: int| 0 <= i < k ==> !(#[trigger] visited@[i]),
        decreases db@.len() - k,
    {
        visited.push(false);
        k = k + 1;
    }
    let mut stack: Vec<usize> = Vec::new();
    expand(root_obj, db, &visited, &mut stack);
    proof {
        assert forall|i: int| 0 <= i < stack@.len() implies reachable(dbs, root, #[trigger] stack@[i] as int) by {
            let p = seq![stack@[i] as int];
            assert(is_path(dbs, root, p));
        }
    }
    while stack.len() > 0
        invariant
            dbs == db@,
            dbs == object_database@,
            target == target_id@,
            root == *root_obj,
            visited@.len() == db@.len(),
            !finds(root, target),
            forall|i: int| 0 <= i < stack@.len() ==> (#[trigger] stack@[i]) < db@.len(),
            forall|i: int| 0 <= i < stack@.len() ==> reachable(dbs, root, #[trigger] stack@[i] as int),
            forall|j: int| 0 <= j < db@.len() && #[trigger] visited@[j] ==> reachable(dbs, root, j)
                && !finds(dbs[j].1, target),
            forall|k: int|
                0 <= k < db@.len() && refers_to(root, dbs[k].0@) ==> visited@[k] || in_stack(
                    stack@,
                    k,
                ),
            forall|j: int, k: int|
                0 <= j < db@.len() && 0 <= k < db@.len() && #[trigger] visited@[j] && #[trigger] refers_to(
                    dbs[j].1,
                    dbs[k].0@,
                ) ==> visited@[k] || in_stack(stack@, k),
        decreases unvisited(visited@), stack@.len(),
    {
        let ghost before = stack@;
        let j = stack.pop().unwrap();
        proof {
            assert(before[before.len() - 1] == j);
            assert forall|x: int| #[trigger] in_stack(before, x) && x != j implies in_stack(stack@, x) by {
                let w = choose|w: int| 0 <= w < before.len() && before[w] as int == x;
                assert(w != before.len() - 1);
                assert(stack@[w] == before[w]);
            }
        }
        if visited[j] {
            continue;
        }
        let o = &db[j].1;
        proof {
            assert(reachable(dbs, root, before[before.len() - 1] as int));
            assert(reachable(dbs, root, j as int));
            assert(dbs[j as int].1 == *o);
            assert(exists|i: int|
                0 <= i < object_database@.len() && reachable(object_database@, *root_obj, i)
                    && object_database@[i].1 == *o);
        }
        if o.twotech_data.id == *target_id {
            return Some(o);
        }
        let ghost old_visited = visited@;
        visited[j] = true;
        proof {
            lemma_unvisited_mark(old_visited, j as int);
        }
        if lists_ingredient(o, target_id) {
            proof {
                assert(reachable(dbs, root, j as int));
                assert(dbs[j as int].1 == *o);
            }
            return Some(o);
        }
        let ghost mid = stack@;
        expand(o, db, &visited, &mut stack);
        proof {
            assert forall|x: int| #[trigger] in_stack(mid, x) implies in_stack(stack@, x) by {
                let w = choose|w: int| 0 <= w < mid.len() && mid[w] as int == x;
                assert(stack@[w] == mid[w]);
            }
            let p = choose|p: Seq<int>| #[trigger] is_path(dbs, root, p) && p.last() == j as int;
            assert forall|i: int| 0 <= i < stack@.len() implies reachable(
                dbs,
                root,
                #[trigger] stack@[i] as int,
            ) by {
                if i >= mid.len() {
                    lemma_path_push(dbs, root, p, stack@[i] as int);
                    assert(p.push(stack@[i] as int).last() == stack@[i] as int);
                } else {
                    assert(stack@[i] == mid[i]);
                }
            }
        }
    }
    proof {
        assert forall|i: int, k: int|
            0 <= i < dbs.len() && 0 <= k < dbs.len() && #[trigger] visited@[i] && refers_to(
                dbs[i].1,
                dbs[k].0@,
            ) implies #[trigger] visited@[k] by {
            if !visited@[k] {
                assert(in_stack(stack@, k));
            }
        }
        assert forall|k: int| 0 <= k < dbs.len() && refers_to(root, dbs[k].0@) implies #[trigger] visited@[k] by {
            if !visited@[k] {
                assert(in_stack(stack@, k));
            }
        }
        assert forall|j: int| 0 <= j < db@.len() && reachable(dbs, root, j) implies !finds(
            #[trigger] dbs[j].1,
            target,
        ) by {
            let p = choose|p: Seq<int>| #[trigger] is_path(dbs, root, p) && p.last() == j;
            lemma_closed_holds_reached(dbs, root, visited@, p);
        }
    }
    None
}

/// A search finds a target that an entry named by a step of the root lists
/// as an ingredient, though the root's own ingredient list lacks it.
pub proof fn lemma_found_through_step(
    db: Seq<(String, SharedGameObject)>,
    root: SharedGameObject,
    y: int,
    z: Seq<char>,
)
    requires
        0 <= y < db.len(),
        has_step_ref(root, db[y].0@),
        has_ingredient(db[y].1, z),
    ensures
        search_finds(db, root, z),
{
    let p = seq![y];
    assert(is_path(db, root, p));
    assert(reachable(db, root, y));
}

/// Two entries that use each other, neither being the target nor listing
/// it: a search from the first finds nothing.
pub proof fn lemma_cycle_not_found(db: Seq<(String, SharedGameObject)>, target: Seq<char>)
    requires
        db.len() == 2,
        refers_to(db[0].1, db[1].0@),
        refers_to(db[1].1, db[0].0@),
        !finds(db[0].1, target),
        !finds(db[1].1, target),
    ensures
        !search_finds(db, db[0].1, target),
{
    assert forall|j: int| 0 <= j < db.len() && reachable(db, db[0].1, j) implies !finds(
        #[trigger] db[j].1,
        target,
    ) by {
        assert(j == 0 || j == 1);
    }
}

/// Whether some entry of `s` has key `k`.
pub open spec fn has_key<T>(s: Seq<(String, T)>, k: Seq<char>) -> bool {
    exists|i: int| 0 <= i < s.len() && (#[trigger] s[i]).0@ == k
}

/// No two entries of `s` share a key.
pub open spec fn keys_unique<T>(s: Seq<(String, T)>) -> bool {
    forall|i: int, j: int| 0 <= i < j < s.len() ==> (#[trigger] s[i]).0@ != (#[trigger] s[j]).0@
}

/// Entry `i` of `r` pairs the object and the record that carry its key.
pub open spec fn paired(
    r: Seq<(String, SharedGameObject)>,
    i: int,
    objects: Seq<(String, OneLifeDataObject)>,
    records: Seq<(String, TwoTechObject)>,
) -> bool {
    exists|a: int, b: int|
        0 <= a < objects.len() && 0 <= b < records.len() && (#[trigger] objects[a]).0@ == r[i].0@
            && (#[trigger] records[b]).0@ == r[i].0@ && r[i].1.one_life_game_data == objects[a].1
            && r[i].1.twotech_data == records[b].1
}

/// The entries of `r` take their keys from entries of `objects`, in the same
/// order.
pub open spec fn in_order_of(r: Seq<(String, SharedGameObject)>, objects: Seq<(String, OneLifeDataObject)>) -> bool {
    exists|ix: Seq<int>|
        ix.len() == r.len() && (forall|i: int|
            0 <= i < ix.len() ==> 0 <= #[trigger] ix[i] < objects.len() && objects[ix[i]].0@
                == r[i].0@) && (forall|i: int, j: int|
            0 <= i < j < ix.len() ==> #[trigger] ix[i] < #[trigger] ix[j])
}

/// Some entry of `oo` from index `lo` on has key `k`.
pub open spec fn key_from(oo: Seq<(String, OneLifeDataObject)>, lo: int, k: Seq<char>) -> bool {
    exists|a: int| lo <= a < oo.len() && (#[trigger] oo[a]).0@ == k
}

/// The index of the entry of `v` with key `k`.
pub fn find_key<T>(v: &Vec<(String, T)>, k: &String) -> (r: Option<usize>)
    ensures
        r matches Some(b) ==> b < v@.len() && v@[b as int].0@ == k@,
        r is None ==> forall|b: int| 0 <= b < v@.len() ==> (#[trigger] v@[b]).0@ != k@,
{
    let mut b: usize = 0;
    while b < v.len()
        invariant
            0 <= b <= v@.len(),
            forall|c: int| 0 <= c < b ==> (#[trigger] v@[c]).0@ != k@,
        decreases v@.len() - b,
    {
        if v[b].0 == *k {
            return Some(b);
        }
        b = b + 1;
    }
    None
}

/// Joins the two keyed collections: an entry for each key that both hold,
/// pairing the object and the record of that key. Keys that only one side
/// holds are dropped. (A second pass over the records, for keys not yet
/// joined, can add nothing: every key that both hold is joined by the
/// first.) Entries follow the order of `objects`.
pub fn join(
    objects: Vec<(String, OneLifeDataObject)>,
    records: Vec<(String, TwoTechObject)>,
) -> (r: Vec<(String, SharedGameObject)>)
    requires
        keys_unique(objects@),
        keys_unique(records@),
    ensures
        keys_unique(r@),
        forall|k: Seq<char>| has_key(r@, k) <==> has_key(objects@, k) && has_key(records@, k),
        forall|i: int| 0 <= i < r@.len() ==> paired(r@, i, objects@, records@),
        in_order_of(r@, objects@),
{
    let ghost oo = objects@;
    let ghost rr = records@;
    let mut objects = objects;
    let mut records = records;
    let mut r: Vec<(String, SharedGameObject)> = Vec::new();
    let ghost mut taken: Seq<bool> = Seq::new(rr.len(), |i: int| false);
    let ghost mut idx: Seq<int> = Seq::empty();
    while objects.len() > 0
        invariant
            keys_unique(oo),
            keys_unique(rr),
            objects@ == oo.take(objects@.len() as int),
            objects@.len() <= oo.len(),
            records@.len() == rr.len(),
            taken.len() == rr.len(),
            forall|b: int| 0 <= b < rr.len() ==> (#[trigger] records@[b]).0@ == rr[b].0@,
            forall|b: int| 0 <= b < rr.len() && !taken[b] ==> (#[trigger] records@[b]) == rr[b],
            forall|b: int|
                0 <= b < rr.len() && #[trigger] taken[b] ==> key_from(oo, objects@.len() as int, rr[b].0@),
            keys_unique(r@),
            forall|i: int| 0 <= i < r@.len() ==> paired(r@, i, oo, rr),
            forall|i: int| 0 <= i < r@.len() ==> key_from(oo, objects@.len() as int, (#[trigger] r@[i]).0@),
            forall|a: int|
                objects@.len() <= a < oo.len() && has_key(rr, (#[trigger] oo[a]).0@) ==> has_key(
                    r@,
                    oo[a].0@,
                ),
            idx.len() == r@.len(),
            forall|i: int|
                0 <= i < idx.len() ==> objects@.len() <= #[trigger] idx[i] < oo.len() && oo[idx[i]].0@
                    == r@[i].0@,
            forall|i: int, j: int| 0 <= i < j < idx.len() ==> #[trigger] idx[i] > #[trigger] idx[j],
        decreases objects@.len(),
    {
        let ghost n1 = objects@.len();
        let (k, o) = match objects.pop() {
            Some(p) => p,
            None => return r,
        };
        let n = objects.len();
        assert(oo[n as int] == (k, o));
        match find_key(&records, &k) {
            Some(b) => {
                proof {
                    if taken[b as int] {
                        let a = choose|a: int| n1 <= a < oo.len() && (#[trigger] oo[a]).0@ == rr[b as int].0@;
                        assert(oo[a].0@ == oo[n as int].0@);
                    }
                }
                let mut slot = (k.clone(), TwoTechObject::new(String::new(), String::new()));
                std::mem::swap(&mut records[b], &mut slot);
                let ghost before = r@;
                r.push((k, SharedGameObject { one_life_game_data: o, twotech_data: slot.1 }));
                proof {
                    let old_idx = idx;
                    idx = idx.push(n as int);
                    assert forall|i: int|
                        0 <= i < idx.len() implies objects@.len() <= #[trigger] idx[i] < oo.len()
                        && oo[idx[i]].0@ == r@[i].0@ by {
                        if i < old_idx.len() {
                            assert(idx[i] == old_idx[i]);
                            assert(r@[i] == before[i]);
                        }
                    }
                    assert forall|i: int, j: int| 0 <= i < j < idx.len() implies #[trigger] idx[i]
                        > #[trigger] idx[j] by {
                        assert(idx[i] == old_idx[i]);
                        if j < old_idx.len() {
                            assert(idx[j] == old_idx[j]);
                        }
                    }
                    taken = taken.update(b as int, true);
                    assert(paired(r@, r@.len() - 1, oo, rr)) by {
                        assert(oo[n as int].0@ == r@[r@.len() - 1].0@);
                        assert(rr[b as int].0@ == r@[r@.len() - 1].0@);
                    }
                    assert forall|i: int| 0 <= i < r@.len() implies paired(r@, i, oo, rr) by {
                        if i < before.len() {
                            assert(r@[i] == before[i]);
                            assert(paired(before, i, oo, rr));
                            let (a, c) = choose|a: int, c: int|
                                0 <= a < oo.len() && 0 <= c < rr.len() && (#[trigger] oo[a]).0@
                                    == before[i].0@ && (#[trigger] rr[c]).0@ == before[i].0@
                                    && before[i].1.one_life_game_data == oo[a].1
                                    && before[i].1.twotech_data == rr[c].1;
                            assert(oo[a].0@ == r@[i].0@);
                        }
                    }
                    assert forall|i: int| 0 <= i < r@.len() implies key_from(oo, n as int, (#[trigger] r@[i]).0@) by {
                        if i < before.len() {
                            assert(r@[i] == before[i]);
                            let a = choose|a: int| n1 <= a < oo.len() && (#[trigger] oo[a]).0@ == before[i].0@;
                        } else {
                            assert(oo[n as int].0@ == r@[i].0@);
                        }
                    }
                    assert forall|i: int, j: int|
                        0 <= i < j < r@.len() implies (#[trigger] r@[i]).0@ != (#[trigger] r@[j]).0@ by {
                        if j == r@.len() - 1 {
                            assert(r@[i] == before[i]);
                            let a = choose|a: int| n1 <= a < oo.len() && (#[trigger] oo[a]).0@ == before[i].0@;
                            assert(oo[a].0@ != oo[n as int].0@);
                        } else {
                            assert(r@[i] == before[i]);
                            assert(r@[j] == before[j]);
                        }
                    }
                    assert forall|a: int|
                        n <= a < oo.len() && has_key(rr, (#[trigger] oo[a]).0@) implies has_key(
                        r@,
                        oo[a].0@,
                    ) by {
                        if a == n {
                            assert(r@[r@.len() - 1].0@ == oo[a].0@);
                        } else {
                            let i = choose|i: int| 0 <= i < before.len() && (#[trigger] before[i]).0@ == oo[a].0@;
                            assert(r@[i] == before[i]);
                        }
                    }
                    assert forall|c: int| 0 <= c < rr.len() && #[trigger] taken[c] implies key_from(oo, n as int, rr[c].0@) by {
                        if c == b {
                            assert(oo[n as int].0@ == rr[c].0@);
                        } else {
                            let a = choose|a: int| n1 <= a < oo.len() && (#[trigger] oo[a]).0@ == rr[c].0@;
                        }
                    }
                }
            },
            None => {
                proof {
                    assert(!has_key(rr, k@)) by {
                        if has_key(rr, k@) {
                            let c = choose|c: int| 0 <= c < rr.len() && (#[trigger] rr[c]).0@ == k@;
                            assert(records@[c].0@ == k@);
                        }
                    }
                    assert forall|i: int| 0 <= i < r@.len() implies key_from(oo, n as int, (#[trigger] r@[i]).0@) by {
                        let a = choose|a: int| n1 <= a < oo.len() && (#[trigger] oo[a]).0@ == r@[i].0@;
                    }
                    assert forall|c: int| 0 <= c < rr.len() && #[trigger] taken[c] implies key_from(oo, n as int, rr[c].0@) by {
                        let a = choose|a: int| n1 <= a < oo.len() && (#[trigger] oo[a]).0@ == rr[c].0@;
                    }
                }
            },
        }
        assert(objects@ =~= oo.take(objects@.len() as int));
    }
    proof {
        assert forall|k: Seq<char>| has_key(r@, k) implies has_key(oo, k) && has_key(rr, k) by {
            let i = choose|i: int| 0 <= i < r@.len() && (#[trigger] r@[i]).0@ == k;
            assert(paired(r@, i, oo, rr));
            let (a, c) = choose|a: int, c: int|
                0 <= a < oo.len() && 0 <= c < rr.len() && (#[trigger] oo[a]).0@ == r@[i].0@
                    && (#[trigger] rr[c]).0@ == r@[i].0@ && r@[i].1.one_life_game_data == oo[a].1
                    && r@[i].1.twotech_data == rr[c].1;
        }
        assert forall|k: Seq<char>| has_key(oo, k) && has_key(rr, k) implies has_key(r@, k) by {
            let a = choose|a: int| 0 <= a < oo.len() && (#[trigger] oo[a]).0@ == k;
        }
    }
    let ghost kept = r@;
    let mut out: Vec<(String, SharedGameObject)> = Vec::new();
    while r.len() > 0
        invariant
            r@ == kept.take(r@.len() as int),
            r@.len() + out@.len() == kept.len(),
            forall|i: int| 0 <= i < out@.len() ==> #[trigger] out@[i] == kept[kept.len() - 1 - i],
        decreases r@.len(),
    {
        let ghost before = r@;
        let x = r.pop().unwrap();
        proof {
            assert(x == kept[before.len() - 1]);
        }
        out.push(x);
        assert(r@ =~= kept.take(r@.len() as int));
    }
    proof {
        let m = kept.len();
        let ix = Seq::new(m, |i: int| idx[m - 1 - i]);
        assert forall|i: int| 0 <= i < out@.len() implies paired(out@, i, oo, rr) by {
            assert(out@[i] == kept[m - 1 - i]);
            assert(paired(kept, m - 1 - i, oo, rr));
        }
        assert forall|i: int, j: int| 0 <= i < j < out@.len() implies (#[trigger] out@[i]).0@
            != (#[trigger] out@[j]).0@ by {
            assert(out@[i] == kept[m - 1 - i]);
            assert(out@[j] == kept[m - 1 - j]);
        }
        assert forall|k: Seq<char>| has_key(out@, k) <==> has_key(kept, k) by {
            if has_key(out@, k) {
                let i = choose|i: int| 0 <= i < out@.len() && (#[trigger] out@[i]).0@ == k;
                assert(out@[i] == kept[m - 1 - i]);
            }
            if has_key(kept, k) {
                let i = choose|i: int| 0 <= i < kept.len() && (#[trigger] kept[i]).0@ == k;
                assert(out@[m - 1 - i] == kept[i]);
            }
        }
        assert forall|i: int| 0 <= i < ix.len() implies 0 <= #[trigger] ix[i] < oo.len()
            && oo[ix[i]].0@ == out@[i].0@ by {
            assert(out@[i] == kept[m - 1 - i]);
        }
        assert forall|i: int, j: int| 0 <= i < j < ix.len() implies #[trigger] ix[i] < #[trigger] ix[j] by {
            assert(idx[m - 1 - j] > idx[m - 1 - i]);
        }
        assert(ix.len() == out@.len());
        assert(in_order_of(out@, oo));
    }
    out
}

} // verus!
