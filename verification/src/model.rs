use vstd::prelude::*;

verus! {

/// One broker operation as the single serializing owner of the table sees
/// it. Any interleaving of concurrent callers reaches the table as some
/// sequence of these actions, served one at a time; the laws below relate a
/// served history to the set of identifiers it leaves registered.
pub enum Action<T> {
    /// Associate the carried endpoint with the carried identifier.
    Register(u64, T),
    /// Withdraw the registration of the carried identifier.
    Unregister(u64),
    /// Resolve the carried identifier, leaving the table untouched.
    Find(u64),
}

/// The table that results from serving one action against `table`.
pub open spec fn serve_action<T>(table: Map<u64, T>, action: Action<T>) -> Map<u64, T> {
    match action {
        Action::Register(id, sender) => table.insert(id, sender),
        Action::Unregister(id) => table.remove(id),
        Action::Find(_) => table,
    }
}

/// The table after a whole history of actions is served in order against
/// `table`, earliest action first.
pub open spec fn serve_history<T>(table: Map<u64, T>, history: Seq<Action<T>>) -> Map<u64, T>
    decreases history.len(),
{
    if history.len() == 0 {
        table
    } else {
        serve_history(serve_action(table, history[0]), history.drop_first())
    }
}

/// The identifiers a history leaves registered, starting from the set `ids`:
/// a register adds its identifier, an unregister takes it away, a find
/// changes nothing.
pub open spec fn registered_ids<T>(ids: Set<u64>, history: Seq<Action<T>>) -> Set<u64>
    decreases history.len(),
{
    if history.len() == 0 {
        ids
    } else {
        let rest = history.drop_first();
        match history[0] {
            Action::Register(id, _) => registered_ids(ids.insert(id), rest),
            Action::Unregister(id) => registered_ids(ids.remove(id), rest),
            Action::Find(_) => registered_ids(ids, rest),
        }
    }
}

/// Whether an action registers an endpoint under `id`.
pub open spec fn is_register_of<T>(action: Action<T>, id: u64) -> bool {
    action matches Action::Register(rid, _) && rid == id
}

/// Law: registering an endpoint and then at once looking its identifier up
/// yields exactly the endpoint just registered, and leaves the identifier
/// registered.
pub proof fn lemma_register_then_find<T>(table: Map<u64, T>, id: u64, sender: T)
    ensures
        table.insert(id, sender).contains_key(id),
        table.insert(id, sender)[id] == sender,
{
}

/// Law: registering twice under one identifier displaces the first endpoint
/// (the second registration reports it as the prior value) and leaves the
/// second endpoint registered: the last write wins.
pub proof fn lemma_last_write_wins<T>(table: Map<u64, T>, id: u64, first: T, second: T)
    ensures
        table.insert(id, first).contains_key(id),
        table.insert(id, first)[id] == first,
        table.insert(id, first).insert(id, second)[id] == second,
{
}

/// Law: after an unregister of `id` the table holds no registration under
/// `id`, whatever it held before, so a following lookup or unregister of
/// `id` fails with `NotFound`.
pub proof fn lemma_unregister_then_find<T>(table: Map<u64, T>, id: u64)
    ensures
        !table.remove(id).contains_key(id),
{
}

/// Law: a history that never registers `id` leaves `id` unregistered when it
/// started so, so a lookup of `id` before any registration of `id` fails
/// with `NotFound`.
pub proof fn lemma_find_before_registration<T>(table: Map<u64, T>, history: Seq<Action<T>>, id: u64)
    requires
        !table.contains_key(id),
        forall|i: int| 0 <= i < history.len() ==> !is_register_of(#[trigger] history[i], id),
    ensures
        !serve_history(table, history).contains_key(id),
    decreases history.len(),
{
    if history.len() > 0 {
        let rest = history.drop_first();
        let next = serve_action(table, history[0]);
        assert(!is_register_of(history[0], id));
        assert forall|i: int| 0 <= i < rest.len() implies !is_register_of(
            #[trigger] rest[i],
            id,
        ) by {
            assert(rest[i] == history[i + 1]);
        }
        lemma_find_before_registration(next, rest, id);
    }
}

/// Law: one served action changes the set of registered identifiers exactly
/// as the sequential model says: a register adds its identifier, an
/// unregister removes it, a find leaves the set as it is.
pub proof fn lemma_operations_track_registered_ids<T>(table: Map<u64, T>, action: Action<T>)
    ensures
        serve_action(table, action).dom() == registered_ids(
            table.dom(),
            seq![action],
        ),
{
    let history = seq![action];
    assert(history[0] == action);
    assert(history.drop_first().len() == 0);
    match action {
        Action::Register(id, sender) => {
            assert(table.insert(id, sender).dom() =~= table.dom().insert(id));
            assert(registered_ids(table.dom().insert(id), history.drop_first())
                == table.dom().insert(id));
            assert(registered_ids(table.dom(), history) == table.dom().insert(id));
        },
        Action::Unregister(id) => {
            assert(table.remove(id).dom() =~= table.dom().remove(id));
            assert(registered_ids(table.dom().remove(id), history.drop_first())
                == table.dom().remove(id));
            assert(registered_ids(table.dom(), history) == table.dom().remove(id));
        },
        Action::Find(_) => {
            assert(registered_ids(table.dom(), history.drop_first()) == table.dom());
            assert(registered_ids(table.dom(), history) == table.dom());
        },
    }
}

/// Law: after any history of operations, the table holds exactly the
/// identifiers the history leaves registered — those registered and not
/// unregistered since. Concurrent callers are served one at a time, so every
/// execution is some such history.
pub proof fn lemma_serve_history_tracks_registered_ids<T>(
    table: Map<u64, T>,
    history: Seq<Action<T>>,
)
    ensures
        serve_history(table, history).dom() == registered_ids(table.dom(), history),
    decreases history.len(),
{
    if history.len() > 0 {
        let rest = history.drop_first();
        let next = serve_action(table, history[0]);
        match history[0] {
            Action::Register(id, sender) => {
                assert(next.dom() =~= table.dom().insert(id));
            },
            Action::Unregister(id) => {
                assert(next.dom() =~= table.dom().remove(id));
            },
            Action::Find(_) => {
            },
        }
        lemma_serve_history_tracks_registered_ids(next, rest);
    }
}

} // verus!
