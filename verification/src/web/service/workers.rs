//! Which module serves which route. Every route names a module of the configuration, and
//! no two routes have the same path; else the server does not start.

use vstd::prelude::*;

use crate::web::config::{Id, Route};

verus! {

/// Why the routes of a configuration are refused.
#[derive(Debug, Clone, Copy, PartialEq, Eq, Structural)]
pub enum RouteError {
    /// The route with this index names a module that is not defined.
    UnknownModule { route: usize },
    /// The route with this index has the path of an earlier route.
    DuplicatePath { route: usize },
}

/// The index of the module with the identifier `id`: of the last one, where several
/// modules share it.
pub open spec fn module_index(modules: Seq<Seq<char>>, id: Seq<char>) -> Option<int>
    decreases modules.len(),
{
    if modules.len() == 0 {
        None
    } else if modules.last() == id {
        Some(modules.len() - 1)
    } else {
        module_index(modules.drop_last(), id)
    }
}

/// Whether one of the first `count` routes has the path `path`.
pub open spec fn path_taken(routes: Seq<Route>, count: int, path: Seq<char>) -> bool {
    exists|index: int| 0 <= index < count && (#[trigger] routes[index]).path.0@ == path
}

/// The identifiers of the modules.
pub open spec fn ids_of(modules: Seq<Id>) -> Seq<Seq<char>> {
    modules.map_values(|id: Id| id.0@)
}

/// The module of each of the first `count` routes, by index, or the first fault: the
/// routes are gone through in order, and of each the module is looked up before the path
/// is held against the earlier ones.
pub open spec fn resolve_spec(routes: Seq<Route>, modules: Seq<Id>, count: int) -> Result<
    Seq<int>,
    RouteError,
>
    decreases count,
{
    if count <= 0 {
        Ok(Seq::empty())
    } else {
        match resolve_spec(routes, modules, count - 1) {
            Err(error) => Err(error),
            Ok(targets) => match module_index(ids_of(modules), routes[count - 1].module.0@) {
                None => Err(RouteError::UnknownModule { route: (count - 1) as usize }),
                Some(target) => if path_taken(routes, count - 1, routes[count - 1].path.0@) {
                    Err(RouteError::DuplicatePath { route: (count - 1) as usize })
                } else {
                    Ok(targets.push(target))
                },
            },
        }
    }
}

/// The routes are accepted exactly when every route names a module that is defined and no
/// two routes have the same path; each route then goes to a module with its identifier.
pub proof fn lemma_routes_accepted(routes: Seq<Route>, modules: Seq<Id>, count: int)
    requires
        0 <= count <= routes.len(),
    ensures
        resolve_spec(routes, modules, count).is_ok() <==> {
            &&& forall|i: int|
                0 <= i < count ==> module_index(
                    ids_of(modules),
                    (#[trigger] routes[i]).module.0@,
                ).is_some()
            &&& forall|i: int, j: int|
                0 <= i < j < count ==> (#[trigger] routes[i]).path.0@ != (
                #[trigger] routes[j]).path.0@
        },
        resolve_spec(routes, modules, count).is_ok() ==> {
            let targets = resolve_spec(routes, modules, count)->Ok_0;
            &&& targets.len() == count
            &&& forall|i: int|
                0 <= i < count ==> 0 <= #[trigger] targets[i] < modules.len()
                    && modules[targets[i]].0@ == routes[i].module.0@
        },
    decreases count,
{
    if count > 0 {
        lemma_routes_accepted(routes, modules, count - 1);
        let last = routes[count - 1];
        lemma_module_index(ids_of(modules), last.module.0@);
        if resolve_spec(routes, modules, count - 1).is_ok() && module_index(
            ids_of(modules),
            last.module.0@,
        ).is_some() {
            // The last route is refused exactly when an earlier one has its path.
            assert(resolve_spec(routes, modules, count).is_ok() <==> !path_taken(
                routes,
                count - 1,
                last.path.0@,
            ));
        }
    }
}

/// An index that `module_index` gives is the index of a module with that identifier.
pub proof fn lemma_module_index(modules: Seq<Seq<char>>, id: Seq<char>)
    ensures
        match module_index(modules, id) {
            Some(index) => 0 <= index < modules.len() && modules[index] == id,
            None => forall|i: int| 0 <= i < modules.len() ==> modules[i] != id,
        },
    decreases modules.len(),
{
    if modules.len() > 0 && modules.last() != id {
        lemma_module_index(modules.drop_last(), id);
        if module_index(modules, id).is_none() {
            assert forall|i: int| 0 <= i < modules.len() implies modules[i] != id by {
                if i < modules.len() - 1 {
                    assert(modules.drop_last()[i] == modules[i]);
                }
            }
        }
    }
}

/// Looks up the module with the identifier `id`.
fn find_module(modules: &Vec<Id>, id: &Id) -> (found: Option<usize>)
    ensures
        match found {
            Some(index) => module_index(ids_of(modules@), id.0@) == Some(index as int),
            None => module_index(ids_of(modules@), id.0@).is_none(),
        },
{
    let ghost ids = ids_of(modules@);
    let mut index: usize = modules.len();
    assert(ids.take(index as int) =~= ids);
    while index > 0
        invariant
            index <= modules@.len(),
            ids == ids_of(modules@),
            module_index(ids, id.0@) == module_index(ids.take(index as int), id.0@),
        decreases index,
    {
        proof {
            assert(ids.take(index as int).drop_last() =~= ids.take(index - 1));
        }
        if modules[index - 1].0 == id.0 {
            return Some(index - 1);
        }
        index = index - 1;
    }
    None
}

/// Whether one of the first `count` routes has the path of the route with index `count`.
fn path_is_taken(routes: &Vec<Route>, count: usize) -> (taken: bool)
    requires
        count < routes@.len(),
    ensures
        taken == path_taken(routes@, count as int, routes@[count as int].path.0@),
{
    let mut index: usize = 0;
    while index < count
        invariant
            index <= count < routes@.len(),
            forall|i: int|
                0 <= i < index ==> (#[trigger] routes@[i]).path.0@ != routes@[count as int].path.0@,
        decreases count - index,
    {
        if routes[index].path.0 == routes[count].path.0 {
            return true;
        }
        index = index + 1;
    }
    false
}

/// Finds the module of every route: the result holds, for each route in order, the index
/// of its module among `modules`.
pub fn generate_route_handlers(routes: &Vec<Route>, modules: &Vec<Id>) -> (targets: Result<
    Vec<usize>,
    RouteError,
>)
    ensures
        match targets {
            Ok(targets) => resolve_spec(routes@, modules@, routes@.len() as int) == Ok::<
                Seq<int>,
                RouteError,
            >(targets@.map_values(|target: usize| target as int)),
            Err(error) => resolve_spec(routes@, modules@, routes@.len() as int) == Err::<
                Seq<int>,
                RouteError,
            >(error),
        },
{
    let mut targets: Vec<usize> = Vec::new();
    let mut index: usize = 0;
    assert(targets@.map_values(|target: usize| target as int) =~= Seq::empty());
    while index < routes.len()
        invariant
            index <= routes@.len(),
            resolve_spec(routes@, modules@, index as int) == Ok::<Seq<int>, RouteError>(
                targets@.map_values(|target: usize| target as int),
            ),
        decreases routes@.len() - index,
    {
        let ghost before = targets@.map_values(|target: usize| target as int);
        match find_module(modules, &routes[index].module) {
            Some(target) => {
                if path_is_taken(routes, index) {
                    proof {
                        lemma_resolve_fails(routes@, modules@, index + 1, routes@.len() as int);
                    }
                    return Err(RouteError::DuplicatePath { route: index });
                }
                targets.push(target);
                assert(targets@.map_values(|target: usize| target as int) =~= before.push(
                    target as int,
                ));
            },
            None => {
                proof {
                    lemma_resolve_fails(routes@, modules@, index + 1, routes@.len() as int);
                }
                return Err(RouteError::UnknownModule { route: index });
            },
        }
        index = index + 1;
    }
    Ok(targets)
}

/// A fault among the first routes is the fault of the whole.
proof fn lemma_resolve_fails(routes: Seq<Route>, modules: Seq<Id>, count: int, all: int)
    requires
        0 <= count <= all,
        resolve_spec(routes, modules, count).is_err(),
    ensures
        resolve_spec(routes, modules, all) == resolve_spec(routes, modules, count),
    decreases all - count,
{
    if count < all {
        lemma_resolve_fails(routes, modules, count, all - 1);
    }
}

} // verus!
