//! Errors of the family tooling.
use vstd::prelude::*;

verus! {

/// Why a family workflow stopped; each carries its human-readable detail.
#[derive(Debug, Clone)]
pub enum XtaskError {
    InvalidInput(String),
    NotImplemented(String),
    WriteFailure(String),
    AlreadyExists(String),
    Internal(String),
    ProveSuiteFailure(String),
    CertifyProveFailure(String),
    CertifySuiteFailure(String),
    CertifyArtifactWriteFailure(String),
}

/// The kind of an [`XtaskError`] with its detail, by characters.
pub enum XtaskErrorView {
    InvalidInput(Seq<char>),
    NotImplemented(Seq<char>),
    WriteFailure(Seq<char>),
    AlreadyExists(Seq<char>),
    Internal(Seq<char>),
    ProveSuiteFailure(Seq<char>),
    CertifyProveFailure(Seq<char>),
    CertifySuiteFailure(Seq<char>),
    CertifyArtifactWriteFailure(Seq<char>),
}

impl XtaskErrorView {
    /// The detail the error carries.
    pub open spec fn message(self) -> Seq<char> {
        match self {
            XtaskErrorView::InvalidInput(m) => m,
            XtaskErrorView::NotImplemented(m) => m,
            XtaskErrorView::WriteFailure(m) => m,
            XtaskErrorView::AlreadyExists(m) => m,
            XtaskErrorView::Internal(m) => m,
            XtaskErrorView::ProveSuiteFailure(m) => m,
            XtaskErrorView::CertifyProveFailure(m) => m,
            XtaskErrorView::CertifySuiteFailure(m) => m,
            XtaskErrorView::CertifyArtifactWriteFailure(m) => m,
        }
    }
}

impl View for XtaskError {
    type V = XtaskErrorView;

    open spec fn view(&self) -> XtaskErrorView {
        match self {
            XtaskError::InvalidInput(m) => XtaskErrorView::InvalidInput(m@),
            XtaskError::NotImplemented(m) => XtaskErrorView::NotImplemented(m@),
            XtaskError::WriteFailure(m) => XtaskErrorView::WriteFailure(m@),
            XtaskError::AlreadyExists(m) => XtaskErrorView::AlreadyExists(m@),
            XtaskError::Internal(m) => XtaskErrorView::Internal(m@),
            XtaskError::ProveSuiteFailure(m) => XtaskErrorView::ProveSuiteFailure(m@),
            XtaskError::CertifyProveFailure(m) => XtaskErrorView::CertifyProveFailure(m@),
            XtaskError::CertifySuiteFailure(m) => XtaskErrorView::CertifySuiteFailure(m@),
            XtaskError::CertifyArtifactWriteFailure(m) => XtaskErrorView::CertifyArtifactWriteFailure(m@),
        }
    }
}

impl XtaskError {
    /// The detail the error carries.
    pub fn message(&self) -> (r: String)
        ensures
            r@ == match self@ {
                XtaskErrorView::InvalidInput(m) => m,
                XtaskErrorView::NotImplemented(m) => m,
                XtaskErrorView::WriteFailure(m) => m,
                XtaskErrorView::AlreadyExists(m) => m,
                XtaskErrorView::Internal(m) => m,
                XtaskErrorView::ProveSuiteFailure(m) => m,
                XtaskErrorView::CertifyProveFailure(m) => m,
                XtaskErrorView::CertifySuiteFailure(m) => m,
                XtaskErrorView::CertifyArtifactWriteFailure(m) => m,
            },
    {
        match self {
            XtaskError::InvalidInput(m) => m.clone(),
            XtaskError::NotImplemented(m) => m.clone(),
            XtaskError::WriteFailure(m) => m.clone(),
            XtaskError::AlreadyExists(m) => m.clone(),
            XtaskError::Internal(m) => m.clone(),
            XtaskError::ProveSuiteFailure(m) => m.clone(),
            XtaskError::CertifyProveFailure(m) => m.clone(),
            XtaskError::CertifySuiteFailure(m) => m.clone(),
            XtaskError::CertifyArtifactWriteFailure(m) => m.clone(),
        }
    }
}

} // verus!
