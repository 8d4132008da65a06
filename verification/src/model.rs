//! The loaded forms of authored `.unit.spec` and `.test.spec` files.
use vstd::prelude::*;

verus! {

/// The spec version that newly authored units declare.
pub const AUTHORED_SPEC_VERSION: &'static str = "0.3.0";

#[derive(Debug, Clone)]
pub struct SpecSource {
    pub file_path: String,
    pub id: String,
}

#[derive(Debug, Clone)]
pub struct Intent {
    pub why: String,
}

/// A function-shaped contract: named inputs in authored order, an optional return type.
#[derive(Debug, Clone)]
pub struct Contract {
    pub inputs: Option<Vec<(String, String)>>,
    pub returns: Option<String>,
    pub invariants: Vec<String>,
}

#[derive(Debug, Clone)]
pub struct Body {
    pub rust: String,
    pub typescript: Option<String>,
}

impl Default for Body {
    fn default() -> (r: Body)
        ensures
            r.rust@ == Seq::<char>::empty(),
            r.typescript is None,
    {
        Body { rust: String::new(), typescript: None }
    }
}

#[derive(Debug, Clone)]
pub struct LocalTest {
    pub id: String,
    pub expect: String,
}

#[derive(Debug, Clone)]
pub struct AuthoredField {
    pub type_: String,
}

#[derive(Debug, Clone)]
pub struct AuthoredDataShape {
    pub fields: Vec<(String, AuthoredField)>,
}

#[derive(Debug, Clone)]
pub struct AuthoredConstructor {
    pub id: String,
    pub intent: Intent,
    pub contract: Option<Contract>,
    /// Field name to constructor input name, in authored order.
    pub initializes: Vec<(String, String)>,
}

#[derive(Debug, Clone)]
pub struct AuthoredRustMethodLowering {
    pub body: String,
}

#[derive(Debug, Clone)]
pub struct AuthoredMethodLowering {
    pub rust: Option<AuthoredRustMethodLowering>,
}

#[derive(Debug, Clone)]
pub struct AuthoredMethod {
    pub id: String,
    pub intent: Intent,
    pub receiver: String,
    pub contract: Option<Contract>,
    pub deps: Vec<String>,
    pub lowering: Option<AuthoredMethodLowering>,
}

#[derive(Debug, Clone)]
pub struct AuthoredRustBackend {
    pub derives: Vec<String>,
}

#[derive(Debug, Clone)]
pub struct AuthoredBackends {
    pub rust: Option<AuthoredRustBackend>,
}

#[derive(Debug, Clone)]
pub struct AuthoredSumVariant {
    pub fields: Vec<(String, AuthoredField)>,
}

#[derive(Debug, Clone)]
pub struct AuthoredSumShape {
    pub variants: Vec<(String, AuthoredSumVariant)>,
}

/// The shared-seam sections of a unit (`kind: data` and `kind: sum`).
#[derive(Debug, Clone)]
pub struct UnitExtensions {
    pub data: Option<AuthoredDataShape>,
    pub constructors: Vec<AuthoredConstructor>,
    pub methods: Vec<AuthoredMethod>,
    pub backends: Option<AuthoredBackends>,
    pub sum: Option<AuthoredSumShape>,
}

impl Default for UnitExtensions {
    fn default() -> (r: UnitExtensions)
        ensures
            r.data is None,
            r.constructors@.len() == 0,
            r.methods@.len() == 0,
            r.backends is None,
            r.sum is None,
    {
        UnitExtensions {
            data: None,
            constructors: Vec::new(),
            methods: Vec::new(),
            backends: None,
            sum: None,
        }
    }
}

#[derive(Debug, Clone)]
pub struct SpecStruct {
    pub id: String,
    pub kind: String,
    pub intent: Intent,
    pub contract: Option<Contract>,
    pub deps: Vec<String>,
    pub imports: Vec<String>,
    pub body: Body,
    pub local_tests: Vec<LocalTest>,
    pub links: Option<Vec<String>>,
    pub spec_version: Option<String>,
    pub extensions: UnitExtensions,
}

/// One authored unit together with the file it was loaded from.
#[derive(Debug, Clone)]
pub struct LoadedSpec {
    pub source: SpecSource,
    pub spec: SpecStruct,
}

#[derive(Debug, Clone)]
pub struct MoleculeTestSource {
    pub file_path: String,
    pub id: String,
}

#[derive(Debug, Clone)]
pub struct MoleculeTestStruct {
    pub id: String,
    pub intent: Intent,
    pub covers: Vec<String>,
    pub imports: Option<Vec<String>>,
    pub body: Body,
    pub spec_version: Option<String>,
}

/// One authored molecule (cross-unit) test with the file it was loaded from.
#[derive(Debug, Clone)]
pub struct LoadedMoleculeTest {
    pub source: MoleculeTestSource,
    pub test: MoleculeTestStruct,
}

/// The three unit kinds a `.unit.spec` may declare.
#[derive(Debug, Clone, Copy, PartialEq, Eq, Structural)]
pub enum UnitKind {
    Function,
    Data,
    Sum,
}

} // verus!
