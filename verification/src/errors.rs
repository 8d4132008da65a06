//! Diagnostics that validation reports: errors refuse a unit, warnings do not.
use vstd::prelude::*;
use crate::text::owned;

verus! {

/// The views of a sequence of strings.
pub open spec fn views_of_strings(v: Seq<String>) -> Seq<Seq<char>> {
    v.map_values(|s: String| s@)
}

/// The pieces joined by ` -> `.
pub open spec fn join_arrows(parts: Seq<Seq<char>>) -> Seq<char>
    decreases parts.len(),
{
    if parts.len() == 0 {
        Seq::<char>::empty()
    } else if parts.len() == 1 {
        parts[0]
    } else {
        join_arrows(parts.drop_last()) + " -> "@ + parts.last()
    }
}

pub fn join_arrows_exec(parts: &Vec<String>) -> (r: String)
    ensures
        r@ == join_arrows(views_of_strings(parts@)),
{
    let mut out = String::new();
    let mut i: usize = 0;
    while i < parts.len()
        invariant
            i <= parts.len(),
            out@ == join_arrows(views_of_strings(parts@.take(i as int))),
        decreases parts.len() - i,
    {
        proof {
            assert(views_of_strings(parts@.take(i + 1)).drop_last() =~= views_of_strings(parts@.take(i as int)));
            assert(views_of_strings(parts@.take(i + 1)).last() == parts@[i as int]@);
        }
        if i > 0 {
            out.append(" -> ");
        } else {
            proof {
                assert(views_of_strings(parts@.take(0)) =~= Seq::<Seq<char>>::empty());
            }
        }
        out.append(parts[i].as_str());
        i = i + 1;
    }
    proof {
        assert(parts@.take(parts@.len() as int) =~= parts@);
    }
    out
}

/// A reason a unit, a unit set or a molecule test is refused.
#[derive(Debug, Clone)]
pub enum SpecError {
    SchemaValidation { message: String, path: String },
    SemanticValidation { message: String, path: String },
    RustKeyword { segment: String, id: String, path: String },
    ReservedUnitName { segment: String, path: String },
    DepCollision { dep1: String, dep2: String, fn_name: String, path: String },
    UseStatementInBody { path: String },
    BodyRustLooksLikeFnDeclaration { path: String },
    BodyRustMustBeBlock { message: String, path: String },
    DuplicateLocalTestId { id: String, path: String },
    LocalTestExpectNotExpr { id: String, message: String, path: String },
    ContractInputNameInvalid { name: String, message: String, path: String },
    ContractTypeInvalid { field: String, type_str: String, message: String, path: String },
    DuplicateId { id: String, file1: String, file2: String },
    MissingDep { dep: String, path: String },
    CrossLibraryDepNotFound { dep: String, path: String },
    CyclicDep { cycle_path: Vec<String>, path: String },
    CrossLibraryCycle { cycle_path: Vec<String>, path: String },
    MoleculeCoversNotFound { cover_id: String, test_id: String, test_path: String },
    CrossLibraryMoleculeCoverUnsupported { cover_id: String, test_id: String, test_path: String },
    MoleculeCoversCollision { cover1: String, cover2: String, fn_name: String, test_id: String, test_path: String },
    DuplicateMoleculeTestId { id: String, file1: String, file2: String },
    MoleculeBodyRustMustBeBlock { message: String, test_path: String },
    MoleculeBodyContainsUnsafe { test_path: String },
}

/// The mathematical value of a [`SpecError`]: each string taken by its characters.
pub enum SpecErrorView {
    SchemaValidation { message: Seq<char>, path: Seq<char> },
    SemanticValidation { message: Seq<char>, path: Seq<char> },
    RustKeyword { segment: Seq<char>, id: Seq<char>, path: Seq<char> },
    ReservedUnitName { segment: Seq<char>, path: Seq<char> },
    DepCollision { dep1: Seq<char>, dep2: Seq<char>, fn_name: Seq<char>, path: Seq<char> },
    UseStatementInBody { path: Seq<char> },
    BodyRustLooksLikeFnDeclaration { path: Seq<char> },
    BodyRustMustBeBlock { message: Seq<char>, path: Seq<char> },
    DuplicateLocalTestId { id: Seq<char>, path: Seq<char> },
    LocalTestExpectNotExpr { id: Seq<char>, message: Seq<char>, path: Seq<char> },
    ContractInputNameInvalid { name: Seq<char>, message: Seq<char>, path: Seq<char> },
    ContractTypeInvalid { field: Seq<char>, type_str: Seq<char>, message: Seq<char>, path: Seq<char> },
    DuplicateId { id: Seq<char>, file1: Seq<char>, file2: Seq<char> },
    MissingDep { dep: Seq<char>, path: Seq<char> },
    CrossLibraryDepNotFound { dep: Seq<char>, path: Seq<char> },
    CyclicDep { cycle_path: Seq<Seq<char>>, path: Seq<char> },
    CrossLibraryCycle { cycle_path: Seq<Seq<char>>, path: Seq<char> },
    MoleculeCoversNotFound { cover_id: Seq<char>, test_id: Seq<char>, test_path: Seq<char> },
    CrossLibraryMoleculeCoverUnsupported { cover_id: Seq<char>, test_id: Seq<char>, test_path: Seq<char> },
    MoleculeCoversCollision { cover1: Seq<char>, cover2: Seq<char>, fn_name: Seq<char>, test_id: Seq<char>, test_path: Seq<char> },
    DuplicateMoleculeTestId { id: Seq<char>, file1: Seq<char>, file2: Seq<char> },
    MoleculeBodyRustMustBeBlock { message: Seq<char>, test_path: Seq<char> },
    MoleculeBodyContainsUnsafe { test_path: Seq<char> },
}

impl View for SpecError {
    type V = SpecErrorView;

    open spec fn view(&self) -> SpecErrorView {
        match self {
            SpecError::SchemaValidation { message, path } => SpecErrorView::SchemaValidation { message: message@, path: path@ },
            SpecError::SemanticValidation { message, path } => SpecErrorView::SemanticValidation { message: message@, path: path@ },
            SpecError::RustKeyword { segment, id, path } => SpecErrorView::RustKeyword { segment: segment@, id: id@, path: path@ },
            SpecError::ReservedUnitName { segment, path } => SpecErrorView::ReservedUnitName { segment: segment@, path: path@ },
            SpecError::DepCollision { dep1, dep2, fn_name, path } => SpecErrorView::DepCollision { dep1: dep1@, dep2: dep2@, fn_name: fn_name@, path: path@ },
            SpecError::UseStatementInBody { path } => SpecErrorView::UseStatementInBody { path: path@ },
            SpecError::BodyRustLooksLikeFnDeclaration { path } => SpecErrorView::BodyRustLooksLikeFnDeclaration { path: path@ },
            SpecError::BodyRustMustBeBlock { message, path } => SpecErrorView::BodyRustMustBeBlock { message: message@, path: path@ },
            SpecError::DuplicateLocalTestId { id, path } => SpecErrorView::DuplicateLocalTestId { id: id@, path: path@ },
            SpecError::LocalTestExpectNotExpr { id, message, path } => SpecErrorView::LocalTestExpectNotExpr { id: id@, message: message@, path: path@ },
            SpecError::ContractInputNameInvalid { name, message, path } => SpecErrorView::ContractInputNameInvalid { name: name@, message: message@, path: path@ },
            SpecError::ContractTypeInvalid { field, type_str, message, path } => SpecErrorView::ContractTypeInvalid { field: field@, type_str: type_str@, message: message@, path: path@ },
            SpecError::DuplicateId { id, file1, file2 } => SpecErrorView::DuplicateId { id: id@, file1: file1@, file2: file2@ },
            SpecError::MissingDep { dep, path } => SpecErrorView::MissingDep { dep: dep@, path: path@ },
            SpecError::CrossLibraryDepNotFound { dep, path } => SpecErrorView::CrossLibraryDepNotFound { dep: dep@, path: path@ },
            SpecError::CyclicDep { cycle_path, path } => SpecErrorView::CyclicDep { cycle_path: views_of_strings(cycle_path@), path: path@ },
            SpecError::CrossLibraryCycle { cycle_path, path } => SpecErrorView::CrossLibraryCycle { cycle_path: views_of_strings(cycle_path@), path: path@ },
            SpecError::MoleculeCoversNotFound { cover_id, test_id, test_path } => SpecErrorView::MoleculeCoversNotFound { cover_id: cover_id@, test_id: test_id@, test_path: test_path@ },
            SpecError::CrossLibraryMoleculeCoverUnsupported { cover_id, test_id, test_path } => SpecErrorView::CrossLibraryMoleculeCoverUnsupported { cover_id: cover_id@, test_id: test_id@, test_path: test_path@ },
            SpecError::MoleculeCoversCollision { cover1, cover2, fn_name, test_id, test_path } => SpecErrorView::MoleculeCoversCollision { cover1: cover1@, cover2: cover2@, fn_name: fn_name@, test_id: test_id@, test_path: test_path@ },
            SpecError::DuplicateMoleculeTestId { id, file1, file2 } => SpecErrorView::DuplicateMoleculeTestId { id: id@, file1: file1@, file2: file2@ },
            SpecError::MoleculeBodyRustMustBeBlock { message, test_path } => SpecErrorView::MoleculeBodyRustMustBeBlock { message: message@, test_path: test_path@ },
            SpecError::MoleculeBodyContainsUnsafe { test_path } => SpecErrorView::MoleculeBodyContainsUnsafe { test_path: test_path@ },
        }
    }
}

impl SpecErrorView {
    /// The human-readable text of the diagnostic.
    pub open spec fn text(self) -> Seq<char> {
        match self {
            SpecErrorView::SchemaValidation { message, path } => "schema validation failed in "@ + path + ": "@ + message,
            SpecErrorView::SemanticValidation { message, path } => "semantic validation failed in "@ + path + ": "@ + message,
            SpecErrorView::RustKeyword { segment, id, path } => "ID '"@ + id + "' contains Rust reserved keyword '"@ + segment + "' in "@ + path,
            SpecErrorView::ReservedUnitName { segment, path } => "ID segment '"@ + segment + "' is reserved for generated code in "@ + path,
            SpecErrorView::DepCollision { dep1, dep2, fn_name, path } => "dep collision in "@ + path + ": '"@ + dep1 + "' and '"@ + dep2 + "' both project to function name '"@ + fn_name + "'"@,
            SpecErrorView::UseStatementInBody { path } => "body.rust must not contain use statements (declare them under imports) in "@ + path,
            SpecErrorView::BodyRustLooksLikeFnDeclaration { path } => "body.rust in "@ + path + " looks like a full function declaration; author only the block body"@,
            SpecErrorView::BodyRustMustBeBlock { message, path } => message + " in "@ + path,
            SpecErrorView::DuplicateLocalTestId { id, path } => "duplicate local_tests id '"@ + id + "' in "@ + path,
            SpecErrorView::LocalTestExpectNotExpr { id, message, path } => "local_tests '"@ + id + "' expect in "@ + path + " is not accepted: "@ + message,
            SpecErrorView::ContractInputNameInvalid { name, message, path } => "contract input name '"@ + name + "' in "@ + path + " is not a valid Rust identifier: "@ + message,
            SpecErrorView::ContractTypeInvalid { field, type_str, message, path } => "invalid Rust type for "@ + field + " '"@ + type_str + "' in "@ + path + ": "@ + message,
            SpecErrorView::DuplicateId { id, file1, file2 } => "Duplicate ID '"@ + id + "' in "@ + file1 + " and "@ + file2,
            SpecErrorView::MissingDep { dep, path } => "missing dep '"@ + dep + "' referenced from "@ + path,
            SpecErrorView::CrossLibraryDepNotFound { dep, path } => "cross-library dep '"@ + dep + "' referenced from "@ + path + " was not found"@,
            SpecErrorView::CyclicDep { cycle_path, path } => "dependency cycle detected: "@ + join_arrows(cycle_path) + " (in "@ + path + ")"@,
            SpecErrorView::CrossLibraryCycle { cycle_path, path } => "cross-library dependency cycle detected: "@ + join_arrows(cycle_path) + " (in "@ + path + ")"@,
            SpecErrorView::MoleculeCoversNotFound { cover_id, test_id, test_path } => "molecule test '"@ + test_id + "' covers unknown unit '"@ + cover_id + "' in "@ + test_path,
            SpecErrorView::CrossLibraryMoleculeCoverUnsupported { cover_id, test_id, test_path } => "molecule test '"@ + test_id + "' covers cross-library unit '"@ + cover_id + "', which molecule tests do not support, in "@ + test_path,
            SpecErrorView::MoleculeCoversCollision { cover1, cover2, fn_name, test_id, test_path } => "molecule test '"@ + test_id + "' covers '"@ + cover1 + "' and '"@ + cover2 + "', which both project to '"@ + fn_name + "', in "@ + test_path,
            SpecErrorView::DuplicateMoleculeTestId { id, file1, file2 } => "Duplicate molecule test ID '"@ + id + "' in "@ + file1 + " and "@ + file2,
            SpecErrorView::MoleculeBodyRustMustBeBlock { message, test_path } => "molecule test body.rust in "@ + test_path + " must be a block: "@ + message,
            SpecErrorView::MoleculeBodyContainsUnsafe { test_path } => "molecule test body.rust in "@ + test_path + " must not contain unsafe code"@,
        }
    }
}

impl SpecError {
    /// Renders the diagnostic; the text is [`Self::text`].
    pub fn message(&self) -> (r: String)
        ensures
            r@ == self@.text(),
    {
        match self {
            SpecError::SchemaValidation { message, path } => {
                let mut m = owned("schema validation failed in ");
                m.append(path.as_str());
                m.append(": ");
                m.append(message.as_str());
                m
            },
            SpecError::SemanticValidation { message, path } => {
                let mut m = owned("semantic validation failed in ");
                m.append(path.as_str());
                m.append(": ");
                m.append(message.as_str());
                m
            },
            SpecError::RustKeyword { segment, id, path } => {
                let mut m = owned("ID '");
                m.append(id.as_str());
                m.append("' contains Rust reserved keyword '");
                m.append(segment.as_str());
                m.append("' in ");
                m.append(path.as_str());
                m
            },
            SpecError::ReservedUnitName { segment, path } => {
                let mut m = owned("ID segment '");
                m.append(segment.as_str());
                m.append("' is reserved for generated code in ");
                m.append(path.as_str());
                m
            },
            SpecError::DepCollision { dep1, dep2, fn_name, path } => {
                let mut m = owned("dep collision in ");
                m.append(path.as_str());
                m.append(": '");
                m.append(dep1.as_str());
                m.append("' and '");
                m.append(dep2.as_str());
                m.append("' both project to function name '");
                m.append(fn_name.as_str());
                m.append("'");
                m
            },
            SpecError::UseStatementInBody { path } => {
                let mut m = owned("body.rust must not contain use statements (declare them under imports) in ");
                m.append(path.as_str());
                m
            },
            SpecError::BodyRustLooksLikeFnDeclaration { path } => {
                let mut m = owned("body.rust in ");
                m.append(path.as_str());
                m.append(" looks like a full function declaration; author only the block body");
                m
            },
            SpecError::BodyRustMustBeBlock { message, path } => {
                let mut m = owned(message.as_str());
                m.append(" in ");
                m.append(path.as_str());
                m
            },
            SpecError::DuplicateLocalTestId { id, path } => {
                let mut m = owned("duplicate local_tests id '");
                m.append(id.as_str());
                m.append("' in ");
                m.append(path.as_str());
                m
            },
            SpecError::LocalTestExpectNotExpr { id, message, path } => {
                let mut m = owned("local_tests '");
                m.append(id.as_str());
                m.append("' expect in ");
                m.append(path.as_str());
                m.append(" is not accepted: ");
                m.append(message.as_str());
                m
            },
            SpecError::ContractInputNameInvalid { name, message, path } => {
                let mut m = owned("contract input name '");
                m.append(name.as_str());
                m.append("' in ");
                m.append(path.as_str());
                m.append(" is not a valid Rust identifier: ");
                m.append(message.as_str());
                m
            },
            SpecError::ContractTypeInvalid { field, type_str, message, path } => {
                let mut m = owned("invalid Rust type for ");
                m.append(field.as_str());
                m.append(" '");
                m.append(type_str.as_str());
                m.append("' in ");
                m.append(path.as_str());
                m.append(": ");
                m.append(message.as_str());
                m
            },
            SpecError::DuplicateId { id, file1, file2 } => {
                let mut m = owned("Duplicate ID '");
                m.append(id.as_str());
                m.append("' in ");
                m.append(file1.as_str());
                m.append(" and ");
                m.append(file2.as_str());
                m
            },
            SpecError::MissingDep { dep, path } => {
                let mut m = owned("missing dep '");
                m.append(dep.as_str());
                m.append("' referenced from ");
                m.append(path.as_str());
                m
            },
            SpecError::CrossLibraryDepNotFound { dep, path } => {
                let mut m = owned("cross-library dep '");
                m.append(dep.as_str());
                m.append("' referenced from ");
                m.append(path.as_str());
                m.append(" was not found");
                m
            },
            SpecError::CyclicDep { cycle_path, path } => {
                let mut m = owned("dependency cycle detected: ");
                let joined = join_arrows_exec(cycle_path);
                m.append(joined.as_str());
                m.append(" (in ");
                m.append(path.as_str());
                m.append(")");
                m
            },
            SpecError::CrossLibraryCycle { cycle_path, path } => {
                let mut m = owned("cross-library dependency cycle detected: ");
                let joined = join_arrows_exec(cycle_path);
                m.append(joined.as_str());
                m.append(" (in ");
                m.append(path.as_str());
                m.append(")");
                m
            },
            SpecError::MoleculeCoversNotFound { cover_id, test_id, test_path } => {
                let mut m = owned("molecule test '");
                m.append(test_id.as_str());
                m.append("' covers unknown unit '");
                m.append(cover_id.as_str());
                m.append("' in ");
                m.append(test_path.as_str());
                m
            },
            SpecError::CrossLibraryMoleculeCoverUnsupported { cover_id, test_id, test_path } => {
                let mut m = owned("molecule test '");
                m.append(test_id.as_str());
                m.append("' covers cross-library unit '");
                m.append(cover_id.as_str());
                m.append("', which molecule tests do not support, in ");
                m.append(test_path.as_str());
                m
            },
            SpecError::MoleculeCoversCollision { cover1, cover2, fn_name, test_id, test_path } => {
                let mut m = owned("molecule test '");
                m.append(test_id.as_str());
                m.append("' covers '");
                m.append(cover1.as_str());
                m.append("' and '");
                m.append(cover2.as_str());
                m.append("', which both project to '");
                m.append(fn_name.as_str());
                m.append("', in ");
                m.append(test_path.as_str());
                m
            },
            SpecError::DuplicateMoleculeTestId { id, file1, file2 } => {
                let mut m = owned("Duplicate molecule test ID '");
                m.append(id.as_str());
                m.append("' in ");
                m.append(file1.as_str());
                m.append(" and ");
                m.append(file2.as_str());
                m
            },
            SpecError::MoleculeBodyRustMustBeBlock { message, test_path } => {
                let mut m = owned("molecule test body.rust in ");
                m.append(test_path.as_str());
                m.append(" must be a block: ");
                m.append(message.as_str());
                m
            },
            SpecError::MoleculeBodyContainsUnsafe { test_path } => {
                let mut m = owned("molecule test body.rust in ");
                m.append(test_path.as_str());
                m.append(" must not contain unsafe code");
                m
            },
        }
    }
}

/// A non-fatal finding about a unit set or a molecule test.
#[derive(Debug, Clone)]
pub enum SpecWarning {
    MissingSpecVersion { path: String, version: String },
    MissingDep { dep: String, path: String },
    MoleculeTestNoCoveredUnits { test_id: String, test_path: String },
    MoleculeImplicitImportsDeprecated { test_id: String, test_path: String },
}

/// The mathematical value of a [`SpecWarning`]: each string taken by its characters.
pub enum SpecWarningView {
    MissingSpecVersion { path: Seq<char>, version: Seq<char> },
    MissingDep { dep: Seq<char>, path: Seq<char> },
    MoleculeTestNoCoveredUnits { test_id: Seq<char>, test_path: Seq<char> },
    MoleculeImplicitImportsDeprecated { test_id: Seq<char>, test_path: Seq<char> },
}

impl View for SpecWarning {
    type V = SpecWarningView;

    open spec fn view(&self) -> SpecWarningView {
        match self {
            SpecWarning::MissingSpecVersion { path, version } => SpecWarningView::MissingSpecVersion { path: path@, version: version@ },
            SpecWarning::MissingDep { dep, path } => SpecWarningView::MissingDep { dep: dep@, path: path@ },
            SpecWarning::MoleculeTestNoCoveredUnits { test_id, test_path } => SpecWarningView::MoleculeTestNoCoveredUnits { test_id: test_id@, test_path: test_path@ },
            SpecWarning::MoleculeImplicitImportsDeprecated { test_id, test_path } => SpecWarningView::MoleculeImplicitImportsDeprecated { test_id: test_id@, test_path: test_path@ },
        }
    }
}

impl SpecWarningView {
    /// The human-readable text of the diagnostic.
    pub open spec fn text(self) -> Seq<char> {
        match self {
            SpecWarningView::MissingSpecVersion { path, version } => "spec_version not set in "@ + path + "; add `spec_version: \""@ + version + "\"`"@,
            SpecWarningView::MissingDep { dep, path } => "missing dep '"@ + dep + "' referenced from "@ + path,
            SpecWarningView::MoleculeTestNoCoveredUnits { test_id, test_path } => "molecule test '"@ + test_id + "' in "@ + test_path + " covers no units"@,
            SpecWarningView::MoleculeImplicitImportsDeprecated { test_id, test_path } => "molecule test '"@ + test_id + "' in "@ + test_path + " relies on implicit imports; declare imports explicitly"@,
        }
    }
}

impl SpecWarning {
    /// Renders the diagnostic; the text is [`Self::text`].
    pub fn message(&self) -> (r: String)
        ensures
            r@ == self@.text(),
    {
        match self {
            SpecWarning::MissingSpecVersion { path, version } => {
                let mut m = owned("spec_version not set in ");
                m.append(path.as_str());
                m.append("; add `spec_version: \"");
                m.append(version.as_str());
                m.append("\"`");
                m
            },
            SpecWarning::MissingDep { dep, path } => {
                let mut m = owned("missing dep '");
                m.append(dep.as_str());
                m.append("' referenced from ");
                m.append(path.as_str());
                m
            },
            SpecWarning::MoleculeTestNoCoveredUnits { test_id, test_path } => {
                let mut m = owned("molecule test '");
                m.append(test_id.as_str());
                m.append("' in ");
                m.append(test_path.as_str());
                m.append(" covers no units");
                m
            },
            SpecWarning::MoleculeImplicitImportsDeprecated { test_id, test_path } => {
                let mut m = owned("molecule test '");
                m.append(test_id.as_str());
                m.append("' in ");
                m.append(test_path.as_str());
                m.append(" relies on implicit imports; declare imports explicitly");
                m
            },
        }
    }
}

} // verus!
