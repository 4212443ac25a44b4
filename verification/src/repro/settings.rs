//! The settings of a run, read from the values that the environment holds.
use crate::repro::results::ResultShape;
#[allow(unused_imports)]
use crate::repro::results::{observation, result_row};
use crate::text::{parse_usize, same_text};
#[allow(unused_imports)]
use crate::text::{trimmed, usize_numeral};
use vstd::prelude::*;

verus! {

/// The values of the environment that a run reads, each where it is set.
#[derive(Debug)]
pub struct RawSettings {
    pub db: Option<String>,
    pub arm: Option<String>,
    pub max_passes: Option<String>,
    pub chunk: Option<String>,
    pub max_candidates: Option<String>,
    pub skip_candidates: Option<String>,
    pub progress_every: Option<String>,
    pub stop_on_trip: Option<String>,
    pub migrate: Option<String>,
    pub face_every: Option<String>,
    pub keyword_every: Option<String>,
    pub incomplete_every: Option<String>,
    pub checkpoint_every: Option<String>,
}

/// The settings of a run.
#[derive(Debug, PartialEq, Eq)]
pub struct ReproSettings {
    pub db_path: String,
    pub arm: String,
    pub max_passes: usize,
    pub chunk_size: usize,
    pub max_candidates: usize,
    pub skip_candidates: usize,
    pub progress_every: usize,
    pub stop_on_trip: bool,
    pub migrate: bool,
    pub drop_indexes: bool,
    pub shape: ResultShape,
    pub checkpoint_every: usize,
}

/// The upper-case form of a text, by the rules of Unicode.
pub uninterp spec fn uppercase(s: Seq<char>) -> Seq<char>;

/// A text from the environment, or the fallback where it is not set.
pub open spec fn text_setting(raw: Option<String>, fallback: Seq<char>) -> Seq<char> {
    match raw {
        Some(s) => s@,
        None => fallback,
    }
}

/// A number from the environment, or the fallback where it is not set or is no number.
pub open spec fn number_setting(raw: Option<String>, fallback: usize) -> usize {
    match raw {
        Some(s) => match usize_numeral(trimmed(s@)) {
            Some(n) => n,
            None => fallback,
        },
        None => fallback,
    }
}

/// A number that counts from one.
pub open spec fn at_least_one(n: usize) -> usize {
    if n == 0 {
        1
    } else {
        n
    }
}

/// What every run's settings keep: each pass, chunk and progress line counts from one.
pub open spec fn settings_wf(s: ReproSettings) -> bool {
    s.max_passes >= 1 && s.chunk_size >= 1 && s.progress_every >= 1
}

/// The settings that `raw` stands for, with the arm written in upper case as `arm`.
pub open spec fn settings_of(raw: RawSettings, arm: Seq<char>, s: ReproSettings) -> bool {
    &&& raw.db matches Some(db) && s.db_path@ == db@
    &&& s.arm@ == arm
    &&& s.max_passes == at_least_one(number_setting(raw.max_passes, 3))
    &&& s.chunk_size == at_least_one(number_setting(raw.chunk, 14))
    &&& s.max_candidates == number_setting(raw.max_candidates, 0)
    &&& s.skip_candidates == number_setting(raw.skip_candidates, 0)
    &&& s.progress_every == at_least_one(number_setting(raw.progress_every, 200))
    &&& s.stop_on_trip == (number_setting(raw.stop_on_trip, 1) != 0)
    &&& s.migrate == (number_setting(raw.migrate, 1) != 0)
    &&& s.drop_indexes == (arm == "B"@)
    &&& s.shape.face_every == if arm == "C"@ {
        1
    } else {
        number_setting(raw.face_every, 4)
    }
    &&& s.shape.keyword_every == if arm == "C"@ {
        1
    } else {
        number_setting(raw.keyword_every, 8)
    }
    &&& s.shape.incomplete_every == number_setting(raw.incomplete_every, 20)
    &&& s.checkpoint_every == if arm == "C"@ {
        number_setting(raw.checkpoint_every, 2000)
    } else {
        number_setting(raw.checkpoint_every, 0)
    }
}

/// A text in upper case. Calls `str::to_uppercase`, whose result is the text with every character
/// replaced by its upper-case form as Unicode defines it: a function of the text alone, which
/// `uppercase` names.
#[verifier::external_body]
fn to_upper(s: &str) -> (r: String)
    ensures
        r@ == uppercase(s@),
{
    s.to_uppercase()
}

/// A text from the environment, or the fallback where it is not set.
pub fn env_string(raw: Option<String>, fallback: &str) -> (r: String)
    ensures
        r@ == text_setting(raw, fallback@),
{
    match raw {
        Some(s) => s,
        None => fallback.to_owned(),
    }
}

/// A number from the environment, or the fallback where it is not set or is no number. White
/// space around the number is left off.
pub fn env_usize(raw: &Option<String>, fallback: usize) -> (r: usize)
    ensures
        r == number_setting(*raw, fallback),
{
    match raw {
        Some(s) => match parse_usize(s.as_str()) {
            Some(n) => n,
            None => fallback,
        },
        None => fallback,
    }
}

/// A number from the environment that counts from one.
fn env_count(raw: &Option<String>, fallback: usize) -> (r: usize)
    ensures
        r == at_least_one(number_setting(*raw, fallback)),
{
    let n: usize = env_usize(raw, fallback);
    if n == 0 {
        1
    } else {
        n
    }
}

/// The settings that the environment stands for once the arm is in upper case; none where no
/// catalogue is named, and then there is nothing to run.
pub fn settings_with_arm(raw: RawSettings, arm: String) -> (r: Option<ReproSettings>)
    ensures
        r is None <==> raw.db is None,
        r matches Some(s) ==> settings_of(raw, arm@, s) && settings_wf(s),
{
    let is_arm_b: bool = same_text(arm.as_str(), "B");
    let is_arm_c: bool = same_text(arm.as_str(), "C");
    let shape: ResultShape = ResultShape {
        face_every: if is_arm_c {
            1
        } else {
            env_usize(&raw.face_every, 4)
        },
        keyword_every: if is_arm_c {
            1
        } else {
            env_usize(&raw.keyword_every, 8)
        },
        incomplete_every: env_usize(&raw.incomplete_every, 20),
    };
    let checkpoint_every: usize = if is_arm_c {
        env_usize(&raw.checkpoint_every, 2000)
    } else {
        env_usize(&raw.checkpoint_every, 0)
    };
    match raw.db {
        None => None,
        Some(db_path) => Some(
            ReproSettings {
                db_path,
                arm,
                max_passes: env_count(&raw.max_passes, 3),
                chunk_size: env_count(&raw.chunk, 14),
                max_candidates: env_usize(&raw.max_candidates, 0),
                skip_candidates: env_usize(&raw.skip_candidates, 0),
                progress_every: env_count(&raw.progress_every, 200),
                stop_on_trip: env_usize(&raw.stop_on_trip, 1) != 0,
                migrate: env_usize(&raw.migrate, 1) != 0,
                drop_indexes: is_arm_b,
                shape,
                checkpoint_every,
            },
        ),
    }
}

/// The settings that the environment stands for; none where no catalogue is named, and then there
/// is nothing to run.
pub fn repro_settings(raw: RawSettings) -> (r: Option<ReproSettings>)
    ensures
        r is None <==> raw.db is None,
        r matches Some(s) ==> settings_of(raw, uppercase(text_setting(raw.arm, "A"@)), s)
            && settings_wf(s),
{
    let named: String = env_string(raw.arm.clone(), "A");
    let arm: String = to_upper(named.as_str());
    settings_with_arm(raw, arm)
}

/// In arm C every row carries its face and its keywords, whatever else the environment says.
pub proof fn law_arm_c_marks_every_row(
    raw: RawSettings,
    s: ReproSettings,
    image_id: i64,
    ordinal: usize,
    attempt_id: Seq<char>,
)
    requires
        settings_of(raw, "C"@, s),
    ensures
        result_row(image_id, ordinal, attempt_id, s.shape).face_observations == seq![
            observation(image_id),
        ],
        result_row(image_id, ordinal, attempt_id, s.shape).auto_keywords == seq![
            "PLDiag/S179"@,
            "PLDiag/Repro"@,
        ],
{
}

/// Whether a variable holds the number `n`, with white space around it or not.
pub open spec fn holds(raw: Option<String>, n: usize) -> bool {
    raw matches Some(s) && usize_numeral(trimmed(s@)) == Some(n)
}

/// Whether a variable is not set, or holds no number.
pub open spec fn holds_no_number(raw: Option<String>) -> bool {
    forall|n: usize| !holds(raw, n)
}

/// What a variable that holds no number is read as.
proof fn lemma_no_number(raw: Option<String>)
    requires
        holds_no_number(raw),
    ensures
        raw matches Some(s) ==> usize_numeral(trimmed(s@)) is None,
{
    if let Some(s) = raw {
        if let Some(n) = usize_numeral(trimmed(s@)) {
            assert(holds(raw, n));
        }
    }
}

/// Each number is that of its own variable, where the variable holds one: the passes, the chunk
/// size and the progress lines count from one, and the two switches are off at zero alone.
pub proof fn law_numbers_are_those_of_their_variables(
    raw: RawSettings,
    arm: Seq<char>,
    s: ReproSettings,
    n: usize,
)
    requires
        settings_of(raw, arm, s),
    ensures
        holds(raw.max_passes, n) && n > 0 ==> s.max_passes == n,
        holds(raw.max_passes, 0) ==> s.max_passes == 1,
        holds(raw.chunk, n) && n > 0 ==> s.chunk_size == n,
        holds(raw.chunk, 0) ==> s.chunk_size == 1,
        holds(raw.progress_every, n) && n > 0 ==> s.progress_every == n,
        holds(raw.progress_every, 0) ==> s.progress_every == 1,
        holds(raw.max_candidates, n) ==> s.max_candidates == n,
        holds(raw.skip_candidates, n) ==> s.skip_candidates == n,
        holds(raw.stop_on_trip, n) && n > 0 ==> s.stop_on_trip,
        holds(raw.stop_on_trip, 0) ==> !s.stop_on_trip,
        holds(raw.migrate, n) && n > 0 ==> s.migrate,
        holds(raw.migrate, 0) ==> !s.migrate,
        holds(raw.incomplete_every, n) ==> s.shape.incomplete_every == n,
        holds(raw.checkpoint_every, n) ==> s.checkpoint_every == n,
        holds(raw.face_every, n) && arm != "C"@ ==> s.shape.face_every == n,
        holds(raw.keyword_every, n) && arm != "C"@ ==> s.shape.keyword_every == n,
{
}

/// A number whose variable is not set, or holds no number, is the usual one; arm C forces the
/// cadences of faces and keywords, and has a usual cadence of checkpoints.
pub proof fn law_usual_numbers(raw: RawSettings, arm: Seq<char>, s: ReproSettings)
    requires
        settings_of(raw, arm, s),
    ensures
        holds_no_number(raw.max_passes) ==> s.max_passes == 3,
        holds_no_number(raw.chunk) ==> s.chunk_size == 14,
        holds_no_number(raw.progress_every) ==> s.progress_every == 200,
        holds_no_number(raw.max_candidates) ==> s.max_candidates == 0,
        holds_no_number(raw.skip_candidates) ==> s.skip_candidates == 0,
        holds_no_number(raw.stop_on_trip) ==> s.stop_on_trip,
        holds_no_number(raw.migrate) ==> s.migrate,
        holds_no_number(raw.incomplete_every) ==> s.shape.incomplete_every == 20,
        holds_no_number(raw.face_every) && arm != "C"@ ==> s.shape.face_every == 4,
        holds_no_number(raw.keyword_every) && arm != "C"@ ==> s.shape.keyword_every == 8,
        holds_no_number(raw.checkpoint_every) && arm != "C"@ ==> s.checkpoint_every == 0,
        holds_no_number(raw.checkpoint_every) && arm == "C"@ ==> s.checkpoint_every == 2000,
        arm == "C"@ ==> s.shape.face_every == 1 && s.shape.keyword_every == 1,
{
    if holds_no_number(raw.max_passes) {
        lemma_no_number(raw.max_passes);
    }
    if holds_no_number(raw.chunk) {
        lemma_no_number(raw.chunk);
    }
    if holds_no_number(raw.progress_every) {
        lemma_no_number(raw.progress_every);
    }
    if holds_no_number(raw.max_candidates) {
        lemma_no_number(raw.max_candidates);
    }
    if holds_no_number(raw.skip_candidates) {
        lemma_no_number(raw.skip_candidates);
    }
    if holds_no_number(raw.stop_on_trip) {
        lemma_no_number(raw.stop_on_trip);
    }
    if holds_no_number(raw.migrate) {
        lemma_no_number(raw.migrate);
    }
    if holds_no_number(raw.incomplete_every) {
        lemma_no_number(raw.incomplete_every);
    }
    if holds_no_number(raw.face_every) {
        lemma_no_number(raw.face_every);
    }
    if holds_no_number(raw.keyword_every) {
        lemma_no_number(raw.keyword_every);
    }
    if holds_no_number(raw.checkpoint_every) {
        lemma_no_number(raw.checkpoint_every);
    }
}

/// Two environments that agree on a variable give the same setting for it, whatever else they hold.
/// The arm steers only the cadences of faces, keywords and checkpoints and the drop of the indexes.
pub proof fn law_settings_depend_on_their_own_variables(
    raw: RawSettings,
    arm: Seq<char>,
    s: ReproSettings,
    other: RawSettings,
    other_arm: Seq<char>,
    t: ReproSettings,
)
    requires
        settings_of(raw, arm, s),
        settings_of(other, other_arm, t),
    ensures
        raw.db == other.db ==> s.db_path@ == t.db_path@,
        raw.max_passes == other.max_passes ==> s.max_passes == t.max_passes,
        raw.chunk == other.chunk ==> s.chunk_size == t.chunk_size,
        raw.max_candidates == other.max_candidates ==> s.max_candidates == t.max_candidates,
        raw.skip_candidates == other.skip_candidates ==> s.skip_candidates == t.skip_candidates,
        raw.progress_every == other.progress_every ==> s.progress_every == t.progress_every,
        raw.stop_on_trip == other.stop_on_trip ==> s.stop_on_trip == t.stop_on_trip,
        raw.migrate == other.migrate ==> s.migrate == t.migrate,
        raw.incomplete_every == other.incomplete_every ==> s.shape.incomplete_every
            == t.shape.incomplete_every,
        arm == other_arm ==> s.arm@ == t.arm@ && s.drop_indexes == t.drop_indexes,
        arm == other_arm && raw.face_every == other.face_every ==> s.shape.face_every
            == t.shape.face_every,
        arm == other_arm && raw.keyword_every == other.keyword_every ==> s.shape.keyword_every
            == t.shape.keyword_every,
        arm == other_arm && raw.checkpoint_every == other.checkpoint_every ==> s.checkpoint_every
            == t.checkpoint_every,
{
}

/// The run is over the catalogue that is named, in the arm that is named, and drops the indexes in
/// arm B alone.
pub proof fn law_run_is_over_the_named_catalogue(
    raw: RawSettings,
    arm: Seq<char>,
    s: ReproSettings,
    fallback: Seq<char>,
)
    requires
        settings_of(raw, arm, s),
    ensures
        raw.db matches Some(db) && s.db_path@ == db@,
        s.arm@ == arm,
        s.drop_indexes <==> arm == "B"@,
        raw.arm matches Some(named) ==> text_setting(raw.arm, fallback) == named@,
        raw.arm is None ==> text_setting(raw.arm, fallback) == fallback,
{
}

/// What `settings_with_arm` hands back: nothing where no catalogue is named, and otherwise settings
/// in which each number is that of its own variable, where the variable holds one.
pub proof fn law_settings_are_read(raw: RawSettings, arm: String, r: Option<ReproSettings>, n: usize)
    requires
        call_ensures(settings_with_arm, (raw, arm), r),
    ensures
        r is None <==> raw.db is None,
        r matches Some(s) ==> {
            &&& s.db_path@ == raw.db->0@
            &&& s.arm@ == arm@
            &&& s.drop_indexes <==> arm@ == "B"@
            &&& holds(raw.max_passes, n) && n > 0 ==> s.max_passes == n
            &&& holds(raw.chunk, n) && n > 0 ==> s.chunk_size == n
            &&& holds(raw.progress_every, n) && n > 0 ==> s.progress_every == n
            &&& holds(raw.max_candidates, n) ==> s.max_candidates == n
            &&& holds(raw.skip_candidates, n) ==> s.skip_candidates == n
            &&& holds(raw.stop_on_trip, n) ==> s.stop_on_trip == (n > 0)
            &&& holds(raw.migrate, n) ==> s.migrate == (n > 0)
            &&& holds(raw.incomplete_every, n) ==> s.shape.incomplete_every == n
            &&& holds(raw.checkpoint_every, n) ==> s.checkpoint_every == n
            &&& holds(raw.face_every, n) && arm@ != "C"@ ==> s.shape.face_every == n
            &&& holds(raw.keyword_every, n) && arm@ != "C"@ ==> s.shape.keyword_every == n
            &&& arm@ == "C"@ ==> s.shape.face_every == 1 && s.shape.keyword_every == 1
            &&& s.max_passes >= 1 && s.chunk_size >= 1 && s.progress_every >= 1
        },
{
}

/// Two environments that agree on the variable of a setting give the same setting through
/// `settings_with_arm`, in any arm, whatever else they hold.
pub proof fn law_settings_of_two_environments(
    raw: RawSettings,
    arm: String,
    s: ReproSettings,
    other: RawSettings,
    other_arm: String,
    t: ReproSettings,
)
    requires
        call_ensures(settings_with_arm, (raw, arm), Some(s)),
        call_ensures(settings_with_arm, (other, other_arm), Some(t)),
    ensures
        raw.max_passes == other.max_passes ==> s.max_passes == t.max_passes,
        raw.chunk == other.chunk ==> s.chunk_size == t.chunk_size,
        raw.max_candidates == other.max_candidates ==> s.max_candidates == t.max_candidates,
        raw.skip_candidates == other.skip_candidates ==> s.skip_candidates == t.skip_candidates,
        raw.progress_every == other.progress_every ==> s.progress_every == t.progress_every,
        raw.stop_on_trip == other.stop_on_trip ==> s.stop_on_trip == t.stop_on_trip,
        raw.migrate == other.migrate ==> s.migrate == t.migrate,
        raw.incomplete_every == other.incomplete_every ==> s.shape.incomplete_every
            == t.shape.incomplete_every,
{
}

/// What `repro_settings` hands back is what `settings_with_arm` may hand back for the arm that is
/// named, or A, in upper case.
pub proof fn law_settings_are_read_in_the_named_arm(raw: RawSettings, s: ReproSettings)
    requires
        call_ensures(repro_settings, (raw,), Some(s)),
    ensures
        raw.arm matches Some(named) ==> settings_of(raw, uppercase(named@), s),
        raw.arm is None ==> settings_of(raw, uppercase("A"@), s),
        settings_of(raw, s.arm@, s),
        settings_wf(s),
{
}

/// What `env_string` and `env_usize` hand back: the text, or the number, that the variable holds,
/// and the fallback otherwise.
pub proof fn law_variables_are_read(
    raw: Option<String>,
    fallback: &str,
    text: String,
    held: &Option<String>,
    usual: usize,
    number: usize,
    n: usize,
)
    requires
        call_ensures(env_string, (raw, fallback), text),
        call_ensures(env_usize, (held, usual), number),
    ensures
        raw matches Some(s) ==> text@ == s@,
        raw is None ==> text@ == fallback@,
        holds(*held, n) ==> number == n,
        holds_no_number(*held) ==> number == usual,
{
    if holds_no_number(*held) {
        lemma_no_number(*held);
    }
}

}
