//! The catalogue service: one database connection, shared by everything that uses the catalogue
//! and used by one caller at a time.
//!
//! The connection stands in a slot behind a mutex. Until the catalogue has been opened the slot is
//! empty, and whoever asks for the connection is told that the catalogue is not initialized. The
//! caller takes the lock on a thread of its own and hands the slot to
//! `CatalogueService::with_connection`; what the thread came back with goes through `join_outcome`.
use once_cell::sync::OnceCell;
use std::fmt::Display;
use std::sync::{Arc, Mutex};
use tokio::task::JoinError;
use vstd::prelude::*;
#[allow(unused_imports)]
use vstd::string::to_string_from_display_ensures;

verus! {

/// Declares `tokio::task::JoinError`: why a task ended without a result. It is only carried and
/// shown.
#[verifier::external_type_specification]
#[verifier::external_body]
pub struct ExJoinError(JoinError);

/// Declares `std::sync::Mutex`: the lock around the connection's slot. It is only carried.
#[verifier::external_type_specification]
#[verifier::external_body]
#[verifier::reject_recursive_types(T)]
pub struct ExMutex<T: ?Sized>(Mutex<T>);

/// Declares `once_cell::sync::OnceCell`: the place of the service that the whole process uses.
#[verifier::external_type_specification]
#[verifier::external_body]
#[verifier::reject_recursive_types(T)]
pub struct ExOnceCell<T>(OnceCell<T>);

/// `OnceCell::get`: the value of the cell, or `None` while it has none. Another thread may fill
/// the cell at any time, so nothing is claimed of which of the two comes back.
pub assume_specification<T>[ OnceCell::<T>::get ](cell: &OnceCell<T>) -> (r: Option<&T>)
;

/// `OnceCell::set`: fills the cell, or hands the value back where the cell was full. Another
/// thread may fill the cell at any time, so nothing is claimed of which of the two happens; a value
/// that comes back is the value that was handed in.
pub assume_specification<T>[ OnceCell::<T>::set ](cell: &OnceCell<T>, value: T) -> (r: Result<
    (),
    T,
>)
    ensures
        r matches Err(back) ==> back == value,
;

/// Why a catalogue call failed. `D` is the error of the database engine.
#[derive(Debug)]
pub enum CatalogueError<D> {
    /// The slot of the connection is empty: the catalogue has not been opened, or has been closed.
    NotInitialized,
    /// The task that held the connection panicked or was cancelled.
    TaskJoin(JoinError),
    /// The process already has its service.
    AlreadyInitialized,
    /// A call into the database failed.
    Duck(D),
}

impl<D> From<D> for CatalogueError<D> {
    fn from(e: D) -> (r: Self) {
        CatalogueError::Duck(e)
    }
}

impl<D> vstd::std_specs::convert::FromSpecImpl<D> for CatalogueError<D> {
    open spec fn obeys_from_spec() -> bool {
        true
    }

    open spec fn from_spec(e: D) -> Self {
        CatalogueError::Duck(e)
    }
}

/// Whether `shown` is `prefix` with what `cause` shows of itself behind it.
pub open spec fn shows_behind<T: Display>(prefix: Seq<char>, cause: &T, shown: Seq<char>) -> bool {
    exists|text: String| #[trigger]
        to_string_from_display_ensures::<T>(cause, text) && shown == prefix + text@
}

impl<D: Display> CatalogueError<D> {
    /// The message of the error.
    pub fn message(&self) -> (r: String)
        ensures
            match *self {
                CatalogueError::NotInitialized => r@ == "catalogue not initialized"@,
                CatalogueError::TaskJoin(e) => shows_behind(
                    "catalogue task join error: "@,
                    &e,
                    r@,
                ),
                CatalogueError::AlreadyInitialized => r@ == "catalogue already initialized"@,
                CatalogueError::Duck(e) => shows_behind("duckdb error: "@, &e, r@),
            },
    {
        match self {
            CatalogueError::NotInitialized => "catalogue not initialized".to_owned(),
            CatalogueError::TaskJoin(e) => {
                let text: String = e.to_string();
                let mut shown: String = "catalogue task join error: ".to_owned();
                shown.append(text.as_str());
                shown
            },
            CatalogueError::AlreadyInitialized => "catalogue already initialized".to_owned(),
            CatalogueError::Duck(e) => {
                let text: String = e.to_string();
                let mut shown: String = "duckdb error: ".to_owned();
                shown.append(text.as_str());
                shown
            },
        }
    }
}

/// What a task that held the connection came back with: its own result, or why it has none.
pub fn join_outcome<R, D>(joined: Result<Result<R, CatalogueError<D>>, JoinError>) -> (r: Result<
    R,
    CatalogueError<D>,
>)
    ensures
        r == match joined {
            Ok(result) => result,
            Err(e) => Err(CatalogueError::TaskJoin(e)),
        },
{
    match joined {
        Ok(result) => result,
        Err(e) => Err(CatalogueError::TaskJoin(e)),
    }
}

/// Serialized access to the connection of a catalogue. `C` is the connection of the database
/// engine.
#[verifier::reject_recursive_types(C)]
pub struct CatalogueService<C> {
    connection: Arc<Mutex<Option<C>>>,
}

impl<C> CatalogueService<C> {
    /// The slot that this service shares with whoever else holds it.
    pub closed spec fn slot(&self) -> Arc<Mutex<Option<C>>> {
        self.connection
    }

    /// A service over a slot that others may hold too: all of them contend on its one mutex.
    pub fn with_arc(connection: Arc<Mutex<Option<C>>>) -> (r: Self)
        ensures
            r.slot() == connection,
    {
        CatalogueService { connection }
    }

    /// The slot, to be locked by the task that is to use the connection.
    pub fn shared_slot(&self) -> (r: Arc<Mutex<Option<C>>>)
        ensures
            r == self.slot(),
    {
        Arc::clone(&self.connection)
    }

    /// Runs `f` on the connection that stands in a locked slot. Where the slot is empty `f` does
    /// not run, the slot stays empty, and the catalogue is reported as not initialized. Otherwise
    /// `f` runs once: its result is the result, and what it makes of the connection stays in the
    /// slot.
    pub fn with_connection<D, F: FnOnce(&mut C) -> Result<R, CatalogueError<D>>, R>(
        slot: &mut Option<C>,
        f: F,
    ) -> (r: Result<R, CatalogueError<D>>)
        requires
            forall|m: &mut C| *old(slot) == Some(*m) ==> #[trigger] call_requires(f, (m,)),
        ensures
            match *old(slot) {
                None => *final(slot) is None && r == Err::<R, CatalogueError<D>>(
                    CatalogueError::NotInitialized,
                ),
                Some(connection) => *final(slot) is Some && exists|m: &mut C|
                    *m == connection && *final(m) == final(slot)->0 && #[trigger] call_ensures(
                        f,
                        (m,),
                        r,
                    ),
            },
    {
        match slot {
            Some(connection) => f(connection),
            None => Err(CatalogueError::NotInitialized),
        }
    }
}

/// The message of a call that came before the process had its service.
pub open spec fn missing_service() -> Seq<char> {
    "catalogue not initialized: initialize_catalogue must run before any catalogue call"@
}

/// The service that was found, or the message that there is none.
pub fn found_service<'a, C>(found: Option<&'a CatalogueService<C>>) -> (r: Result<
    &'a CatalogueService<C>,
    &'static str,
>)
    ensures
        match found {
            Some(service) => r == Ok::<&CatalogueService<C>, &'static str>(service),
            None => r matches Err(message) && message@ == missing_service(),
        },
{
    match found {
        Some(service) => Ok(service),
        None => Err(
            "catalogue not initialized: initialize_catalogue must run before any catalogue call",
        ),
    }
}

/// The service that the whole process uses: what `OnceCell::get` found in the cell, or, where it
/// found nothing, the message of what was done too early.
pub fn default_service<C>(cell: &OnceCell<CatalogueService<C>>) -> (r: Result<
    &CatalogueService<C>,
    &'static str,
>)
    ensures
        exists|found: Option<&CatalogueService<C>>| #[trigger]
            call_ensures(OnceCell::<CatalogueService<C>>::get, (cell,), found) && match found {
                Some(service) => r == Ok::<&CatalogueService<C>, &'static str>(service),
                None => r matches Err(message) && message@ == missing_service(),
            },
{
    found_service(cell.get())
}

/// What comes of filling the process's cell: nothing where it was empty, and where it was full
/// that the process already has its service.
pub fn install_outcome<C, D>(filled: Result<(), CatalogueService<C>>) -> (r: Result<
    (),
    CatalogueError<D>,
>)
    ensures
        r == match filled {
            Ok(()) => Ok::<(), CatalogueError<D>>(()),
            Err(service) => Err(CatalogueError::AlreadyInitialized),
        },
{
    match filled {
        Ok(()) => Ok(()),
        Err(service) => Err(CatalogueError::AlreadyInitialized),
    }
}

/// Makes a service the one that the whole process uses: hands it to `OnceCell::set`, and reports,
/// where that gave it back, that the process already has one.
pub fn install_service<C, D>(
    cell: &OnceCell<CatalogueService<C>>,
    service: CatalogueService<C>,
) -> (r: Result<(), CatalogueError<D>>)
    ensures
        exists|filled: Result<(), CatalogueService<C>>| #[trigger]
            call_ensures(OnceCell::<CatalogueService<C>>::set, (cell, service), filled) && r
                == match filled {
                Ok(()) => Ok::<(), CatalogueError<D>>(()),
                Err(back) => Err(CatalogueError::AlreadyInitialized),
            },
{
    install_outcome(cell.set(service))
}

/// Updates of a connection that run one at a time lose nothing: where each of them, started on the
/// connection as the one before it left it, adds one to a measure of the connection, the measure
/// has grown in the end by the number of updates, whatever their order. `slots` are the contents
/// of the slot before, between and behind the updates `fs`, each of which ran as
/// `CatalogueService::with_connection` runs it.
pub proof fn law_serialized_updates_lose_nothing<
    C,
    D,
    F: FnOnce(&mut C) -> Result<R, CatalogueError<D>>,
    R,
>(
    slots: Seq<Option<C>>,
    fs: Seq<F>,
    rs: Seq<Result<R, CatalogueError<D>>>,
    measure: spec_fn(C) -> int,
)
    requires
        slots.len() == fs.len() + 1,
        rs.len() == fs.len(),
        slots[0] is Some,
        forall|i: int|
            #![trigger fs[i]]
            0 <= i < fs.len() && slots[i] is Some ==> slots[i + 1] is Some && exists|m: &mut C|
                *m == slots[i]->0 && *final(m) == slots[i + 1]->0 && #[trigger] call_ensures(
                    fs[i],
                    (m,),
                    rs[i],
                ),
        forall|i: int, m: &mut C, r: Result<R, CatalogueError<D>>|
            0 <= i < fs.len() && #[trigger] call_ensures(fs[i], (m,), r) ==> measure(*final(m))
                == measure(*m) + 1,
    ensures
        slots.last() is Some,
        measure(slots.last()->0) == measure(slots[0]->0) + fs.len(),
{
    assert forall|i: int|
        0 <= i < slots.len() - 1 && #[trigger] slots[i] is Some implies slots[i + 1] is Some
        && measure(slots[i + 1]->0) == measure(slots[i]->0) + 1 by {
        let m = choose|m: &mut C|
            *m == slots[i]->0 && *final(m) == slots[i + 1]->0 && #[trigger] call_ensures(
                fs[i],
                (m,),
                rs[i],
            );
        assert(call_ensures(fs[i], (m,), rs[i]));
    }
    lemma_measure_grows(slots, measure, fs.len() as int);
}

/// A measure that grows by one at each step has grown by `k` behind `k` steps.
proof fn lemma_measure_grows<C>(slots: Seq<Option<C>>, measure: spec_fn(C) -> int, k: int)
    requires
        0 <= k < slots.len(),
        slots[0] is Some,
        forall|i: int|
            0 <= i < slots.len() - 1 && #[trigger] slots[i] is Some ==> slots[i + 1] is Some
                && measure(slots[i + 1]->0) == measure(slots[i]->0) + 1,
    ensures
        slots[k] is Some,
        measure(slots[k]->0) == measure(slots[0]->0) + k,
    decreases k,
{
    if k > 0 {
        lemma_measure_grows(slots, measure, k - 1);
        assert(slots[k - 1] is Some);
    }
}

/// What `CatalogueService::with_connection` does to a slot: an empty one stays empty, and nothing but
/// that the catalogue is not initialized comes back; in a full one the connection stays, as the
/// caller's function left it, and what comes back is what that function gave for the connection that
/// stood there.
pub proof fn law_connection_is_lent_and_stays<
    C,
    D,
    F: FnOnce(&mut C) -> Result<R, CatalogueError<D>>,
    R,
>(before: Option<C>, after: Option<C>, f: F, r: Result<R, CatalogueError<D>>)
    requires
        exists|m: &mut Option<C>|
            *m == before && *final(m) == after && #[trigger] call_ensures(
                CatalogueService::<C>::with_connection::<D, F, R>,
                (m, f),
                r,
            ),
    ensures
        before is Some <==> after is Some,
        before is None ==> (r matches Err(e) && e is NotInitialized),
        before is Some ==> exists|m: &mut C|
            *m == before->0 && *final(m) == after->0 && #[trigger] call_ensures(f, (m,), r),
{
}

/// A task that came back with a result hands on that result, whichever it is; one that did not is
/// reported with why it did not.
pub proof fn law_joined_task_hands_on_its_result<R, D>(
    joined: Result<Result<R, CatalogueError<D>>, JoinError>,
    r: Result<R, CatalogueError<D>>,
)
    requires
        call_ensures(join_outcome::<R, D>, (joined,), r),
    ensures
        joined matches Ok(result) ==> r == result,
        joined matches Err(e) ==> r == Err::<R, CatalogueError<D>>(CatalogueError::TaskJoin(e)),
{
}

}
