//! Classifies a host as acceptable or not from two OS-reported values: the
//! dotted OS product version string and the hardware model identifier.
//!
//! The two values come from read-only OS configuration queries that a thin
//! unverified shell performs; everything that is decided about them — parsing
//! the version, comparing the model, aggregating the outcomes — is verified
//! here. [`check`] takes each queried value as `Ok(value)` or, where the
//! query itself failed, as `Err(message)`, and returns success, a single
//! error, or an aggregate of both errors in check order.

use vstd::prelude::*;

mod error;
mod machine;
mod version;

pub use error::Error;
pub use error::ErrorModel;
pub use error::lemma_model_seq_pointwise;
pub use error::model_seq;
pub use error::result_model;
pub use machine::check_machine;
pub use machine::machine_result;
pub use machine::pulp_machine;
pub use version::check_posix;
pub use version::digit_val;
pub use version::dot_after;
pub use version::is_digit;
pub use version::is_numeric;
pub use version::lemma_low_major_passes;
pub use version::major_comp;
pub use version::major_end;
pub use version::minor_comp;
pub use version::minor_end;
pub use version::num_val;
pub use version::version_result;

verus! {

/// The characters of a queried value: the string on success, the error
/// message on failure.
pub open spec fn query_view(q: Result<String, String>) -> Result<Seq<char>, Seq<char>> {
    match q {
        Ok(s) => Ok(s@),
        Err(msg) => Err(msg@),
    }
}

/// The outcome of the version sub-check given the queried version: the
/// version verdict on the string, or `Sysctl` carrying the message of a
/// failed query.
pub open spec fn version_query_result(q: Result<Seq<char>, Seq<char>>) -> Result<(), ErrorModel> {
    match q {
        Ok(s) => version_result(s),
        Err(msg) => Err(ErrorModel::Sysctl(msg)),
    }
}

/// The outcome of the machine sub-check given the queried model identifier,
/// in the same way.
pub open spec fn machine_query_result(q: Result<Seq<char>, Seq<char>>) -> Result<(), ErrorModel> {
    match q {
        Ok(s) => machine_result(s),
        Err(msg) => Err(ErrorModel::Sysctl(msg)),
    }
}

/// How the two sub-check outcomes combine: success only when both succeed, a
/// single failure on its own, and two failures as `Many` in check order.
pub open spec fn combined(
    vres: Result<(), ErrorModel>,
    mres: Result<(), ErrorModel>,
) -> Result<(), ErrorModel> {
    match (vres, mres) {
        (Ok(u1), Ok(u2)) => Ok(()),
        (Err(e), Ok(u)) => Err(e),
        (Ok(u), Err(e)) => Err(e),
        (Err(e1), Err(e2)) => Err(ErrorModel::Many(seq![e1, e2])),
    }
}

/// The outcome of the whole check given the two queried values.
pub open spec fn check_result(
    version: Result<Seq<char>, Seq<char>>,
    model: Result<Seq<char>, Seq<char>>,
) -> Result<(), ErrorModel> {
    combined(version_query_result(version), machine_query_result(model))
}

/// Checks the host that reported the two queried values: `version` is the OS
/// product version string and `model` the hardware model identifier, each as
/// `Ok(value)` or, where the query itself failed, as `Err(message)`.
///
/// Both sub-checks always run. Success needs both to pass; a single failure
/// is returned on its own, and two failures come back as `Error::Many` with
/// the version error first.
pub fn check(version: Result<String, String>, model: Result<String, String>) -> (r: Result<
    (),
    Error,
>)
    ensures
        result_model(r) == check_result(query_view(version), query_view(model)),
{
    let vres: Result<(), Error> = match &version {
        Ok(s) => check_posix(s.as_str()),
        Err(msg) => Err(Error::Sysctl(msg.clone())),
    };
    let mres: Result<(), Error> = match &model {
        Ok(s) => check_machine(s.as_str()),
        Err(msg) => Err(Error::Sysctl(msg.clone())),
    };
    match (vres, mres) {
        (Ok(u1), Ok(u2)) => Ok(()),
        (Err(e), Ok(u)) => Err(e),
        (Ok(u), Err(e)) => Err(e),
        (Err(e1), Err(e2)) => {
            let mut errs: Vec<Error> = Vec::new();
            errs.push(e1);
            errs.push(e2);
            proof {
                assert(errs@ =~= seq![e1, e2]);
                error::lemma_model_seq_pointwise(errs@);
                assert(error::model_seq(errs@) =~= seq![e1.model(), e2.model()]);
            }
            Err(Error::Many(errs))
        },
    }
}

/// When both sub-checks succeed the whole check succeeds; when both fail it
/// returns an aggregate holding exactly the two errors in check order, the
/// version error first; and a lone failure is returned unwrapped.
pub proof fn lemma_check_aggregation(
    version: Result<Seq<char>, Seq<char>>,
    model: Result<Seq<char>, Seq<char>>,
)
    ensures
        version_query_result(version) is Ok && machine_query_result(model) is Ok
            ==> check_result(version, model) is Ok,
        version_query_result(version) is Err && machine_query_result(model) is Err
            ==> check_result(version, model) == Err::<(), ErrorModel>(
            ErrorModel::Many(
                seq![version_query_result(version)->Err_0, machine_query_result(model)->Err_0],
            ),
        ),
        version_query_result(version) is Err && machine_query_result(model) is Ok
            ==> check_result(version, model) == Err::<(), ErrorModel>(
            version_query_result(version)->Err_0,
        ),
        version_query_result(version) is Ok && machine_query_result(model) is Err
            ==> check_result(version, model) == Err::<(), ErrorModel>(
            machine_query_result(model)->Err_0,
        ),
{
}

/// Idempotence: the outcome of the check is a function of the two queried
/// values alone, so two runs that read the same version string and the same
/// model identifier produce the same result.
pub proof fn lemma_check_idempotent(
    version1: Result<String, String>,
    model1: Result<String, String>,
    r1: Result<(), Error>,
    version2: Result<String, String>,
    model2: Result<String, String>,
    r2: Result<(), Error>,
)
    requires
        query_view(version1) == query_view(version2),
        query_view(model1) == query_view(model2),
        result_model(r1) == check_result(query_view(version1), query_view(model1)),
        result_model(r2) == check_result(query_view(version2), query_view(model2)),
    ensures
        result_model(r1) == result_model(r2),
{
}

} // verus!
