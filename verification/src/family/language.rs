//! The languages a family packet can target.
use vstd::prelude::*;
use crate::family::error::{XtaskError, XtaskErrorView};
use crate::family::paths::FamilyId;
use crate::text::{concat, str_eq};

verus! {

/// The target language chosen on the command line.
#[derive(Debug, Clone, Copy, PartialEq, Eq, Structural)]
pub enum FamilyTargetLanguage {
    Rust,
    Typescript,
}

/// The target language an artifact records.
#[derive(Debug, Clone, Copy, PartialEq, Eq, Structural)]
pub enum TargetLanguage {
    Rust,
    Typescript,
}

impl TargetLanguage {
    /// The recorded form of a chosen target language.
    pub fn from_family_target_language(target_language: FamilyTargetLanguage) -> (r: TargetLanguage)
        ensures
            r == recorded_language(target_language),
    {
        match target_language {
            FamilyTargetLanguage::Rust => TargetLanguage::Rust,
            FamilyTargetLanguage::Typescript => TargetLanguage::Typescript,
        }
    }

    /// The chosen target language a record names.
    pub fn to_family_target_language(self) -> (r: FamilyTargetLanguage)
        ensures
            recorded_language(r) == self,
    {
        match self {
            TargetLanguage::Rust => FamilyTargetLanguage::Rust,
            TargetLanguage::Typescript => FamilyTargetLanguage::Typescript,
        }
    }
}

pub open spec fn recorded_language(l: FamilyTargetLanguage) -> TargetLanguage {
    match l {
        FamilyTargetLanguage::Rust => TargetLanguage::Rust,
        FamilyTargetLanguage::Typescript => TargetLanguage::Typescript,
    }
}

/// The families whose packets may target TypeScript.
pub open spec fn typescript_family(family: Seq<char>) -> bool {
    family == "function.arithmetic_leaf.monotone_up.v1"@ || family == "function.wrapper.pipeline.v1"@
}

pub open spec fn typescript_refusal(command: Seq<char>) -> Seq<char> {
    command
        + " supports --target-language typescript only for function.arithmetic_leaf.monotone_up.v1 and function.wrapper.pipeline.v1"@
}

/// Rust is accepted for every family, TypeScript only for the families that support it;
/// `command` names the caller in the refusal.
pub fn validate_target_language(
    family: &FamilyId,
    target_language: FamilyTargetLanguage,
    command: &str,
) -> (r: Result<(), XtaskError>)
    ensures
        (target_language == FamilyTargetLanguage::Rust || typescript_family(family@)) ==> r is Ok,
        !(target_language == FamilyTargetLanguage::Rust || typescript_family(family@)) ==> (r matches Err(e)
            && e@ == XtaskErrorView::InvalidInput(typescript_refusal(command@))),
{
    match target_language {
        FamilyTargetLanguage::Rust => Ok(()),
        FamilyTargetLanguage::Typescript => {
            let id = family.as_str();
            if str_eq(id, "function.arithmetic_leaf.monotone_up.v1") || str_eq(id, "function.wrapper.pipeline.v1") {
                Ok(())
            } else {
                Err(
                    XtaskError::InvalidInput(
                        concat(
                            command,
                            " supports --target-language typescript only for function.arithmetic_leaf.monotone_up.v1 and function.wrapper.pipeline.v1",
                        ),
                    ),
                )
            }
        },
    }
}

} // verus!
