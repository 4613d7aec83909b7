//! The error taxonomy of the host checks, and its mathematical model.

use vstd::prelude::*;

verus! {

/// Everything that can go wrong while checking the host.
#[derive(Debug, PartialEq, Eq)]
#[non_exhaustive]
pub enum Error {
    /// The OS version is 14.4 or newer, which the check treats as not
    /// POSIX-compliant.
    NotPosix,
    /// The hardware model is the one denylisted identifier.
    BadMacModel,
    /// An OS configuration query failed; the payload is the system error's
    /// message.
    Sysctl(String),
    /// The OS version string is empty or holds a non-numeric component.
    ParseOsVersion,
    /// More than one check failed in a single invocation; the failures are
    /// kept in check order.
    Many(Vec<Error>),
}

/// The mathematical shape of an [`Error`]: the same five cases, with every
/// string seen as its sequence of characters. Contracts speak of this model.
pub enum ErrorModel {
    /// Model of [`Error::NotPosix`].
    NotPosix,
    /// Model of [`Error::BadMacModel`].
    BadMacModel,
    /// Model of [`Error::Sysctl`], holding the message's characters.
    Sysctl(Seq<char>),
    /// Model of [`Error::ParseOsVersion`].
    ParseOsVersion,
    /// Model of [`Error::Many`], holding the models of the aggregated errors.
    Many(Seq<ErrorModel>),
}

impl Error {
    /// The model of this error: the same case, with payloads abstracted to
    /// sequences.
    pub open spec fn model(self) -> ErrorModel
        decreases self,
    {
        match self {
            Error::NotPosix => ErrorModel::NotPosix,
            Error::BadMacModel => ErrorModel::BadMacModel,
            Error::Sysctl(msg) => ErrorModel::Sysctl(msg@),
            Error::ParseOsVersion => ErrorModel::ParseOsVersion,
            Error::Many(errs) => ErrorModel::Many(model_seq(errs@)),
        }
    }
}

/// The models of a sequence of errors, in order.
pub open spec fn model_seq(errs: Seq<Error>) -> Seq<ErrorModel>
    decreases errs,
{
    if errs.len() == 0 {
        Seq::empty()
    } else {
        seq![errs[0].model()] + model_seq(errs.drop_first())
    }
}

/// `model_seq` maps each error of the sequence to its model, keeping order.
pub proof fn lemma_model_seq_pointwise(errs: Seq<Error>)
    ensures
        model_seq(errs).len() == errs.len(),
        forall|i: int| 0 <= i < errs.len() ==> model_seq(errs)[i] == errs[i].model(),
    decreases errs,
{
    if errs.len() > 0 {
        lemma_model_seq_pointwise(errs.drop_first());
    }
}

/// The model of a whole check result: success, or the model of the error.
pub open spec fn result_model(r: Result<(), Error>) -> Result<(), ErrorModel> {
    match r {
        Ok(u) => Ok(()),
        Err(e) => Err(e.model()),
    }
}

} // verus!
