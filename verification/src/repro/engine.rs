//! The copy of a catalogue that a run opens, and the engine that it must be opened with.
use crate::text::same_text;
use vstd::prelude::*;

verus! {

/// The version of the engine that the application is linked with.
pub open spec fn bundled_version() -> Seq<char> {
    "v1.5.5"@
}

/// Whether an engine is the one that the application is linked with: another one may not show what
/// the run is after.
pub fn is_bundled_engine(version: &str) -> (r: bool)
    ensures
        r == (version@ == bundled_version()),
{
    same_text(version, "v1.5.5")
}

/// The file in which the engine logs the writes that are not in the catalogue's own file yet.
pub fn wal_path(db_path: &str) -> (r: String)
    ensures
        r@ == db_path@ + ".wal"@,
{
    let mut path: String = db_path.to_owned();
    path.append(".wal");
    path
}

/// The log of a catalogue is the file of the catalogue's name with an ending behind it, so no two
/// catalogues share one; and there is one version of the engine that the run accepts.
pub proof fn law_log_and_engine(
    db_path: &str,
    log: String,
    other: &str,
    other_log: String,
    version: &str,
    accepted: bool,
)
    requires
        call_ensures(wal_path, (db_path,), log),
        call_ensures(wal_path, (other,), other_log),
        call_ensures(is_bundled_engine, (version,), accepted),
    ensures
        log@ == db_path@ + ".wal"@,
        log@ == other_log@ ==> db_path@ == other@,
        accepted <==> version@ == "v1.5.5"@,
{
    if log@ == other_log@ {
        let n: int = ".wal"@.len() as int;
        assert(log@.take(log@.len() - n) =~= db_path@);
        assert(other_log@.take(other_log@.len() - n) =~= other@);
    }
}

}
