//! The model of a service definition: a named group of operations, each with
//! simple named parameters and a return type, the type expressions kept as
//! text. Building it rejects what a definition may not hold, and it names
//! the items that are generated for the service.

use vstd::prelude::*;

use crate::server::same_str;

verus! {

/// One parameter of an operation, as it was declared.
pub enum Param {
    /// A `self` receiver.
    Receiver,
    /// A simple name with its type.
    Named { name: String, ty: String },
    /// A destructuring or wildcard pattern.
    Pattern,
}

/// Why a service definition was rejected.
#[derive(Debug, Clone, PartialEq, Eq)]
pub enum DefinitionError {
    /// An operation takes a receiver.
    ReceiverParameter,
    /// An operation binds a parameter with a pattern instead of a name.
    PatternParameter,
    /// Two operations share this name.
    DuplicateOperation(String),
}

/// One operation of a service: its name, its parameters as name and type,
/// and its return type (`None` for none).
pub struct Rpc {
    pub ident: String,
    pub args: Vec<(String, String)>,
    pub output: Option<String>,
}

/// The error for a parameter that is not a simple name.
pub open spec fn param_error(p: Param) -> DefinitionError {
    if p is Receiver {
        DefinitionError::ReceiverParameter
    } else {
        DefinitionError::PatternParameter
    }
}

impl Rpc {
    /// Builds an operation from its declared parameters; the first one that
    /// is not a simple name rejects it.
    pub fn parse(ident: String, params: &Vec<Param>, output: Option<String>) -> (r: Result<
        Rpc,
        DefinitionError,
    >)
        ensures
            match r {
                Ok(rpc) => {
                    &&& forall|i: int| 0 <= i < params@.len() ==> #[trigger] params@[i] is Named
                    &&& rpc.ident == ident
                    &&& rpc.output == output
                    &&& rpc.args@.len() == params@.len()
                    &&& forall|i: int|
                        0 <= i < params@.len() ==> #[trigger] rpc.args@[i] == (
                            params@[i]->Named_name,
                            params@[i]->Named_ty,
                        )
                },
                Err(e) => exists|k: int|
                    {
                        &&& 0 <= k < params@.len()
                        &&& forall|i: int| 0 <= i < k ==> #[trigger] params@[i] is Named
                        &&& !(params@[k] is Named)
                        &&& e == param_error(#[trigger] params@[k])
                    },
            },
    {
        let mut args: Vec<(String, String)> = Vec::new();
        let mut i: usize = 0;
        while i < params.len()
            invariant
                i <= params@.len(),
                args@.len() == i,
                forall|j: int| 0 <= j < i ==> #[trigger] params@[j] is Named,
                forall|j: int|
                    0 <= j < i ==> #[trigger] args@[j] == (
                        params@[j]->Named_name,
                        params@[j]->Named_ty,
                    ),
            decreases params@.len() - i,
        {
            match &params[i] {
                Param::Receiver => {
                    return Err(DefinitionError::ReceiverParameter);
                },
                Param::Pattern => {
                    return Err(DefinitionError::PatternParameter);
                },
                Param::Named { name, ty } => {
                    args.push((name.clone(), ty.clone()));
                },
            }
            i = i + 1;
        }
        Ok(Rpc { ident, args, output })
    }
}

/// A service: its name and its operations, whose names are distinct.
pub struct Service {
    pub ident: String,
    pub rpcs: Vec<Rpc>,
}

impl Service {
    /// Builds a service from its operations, rejecting the first one whose
    /// name an earlier operation already has.
    pub fn parse(ident: String, rpcs: Vec<Rpc>) -> (r: Result<Service, DefinitionError>)
        ensures
            match r {
                Ok(s) => {
                    &&& s.ident == ident
                    &&& s.rpcs@ == rpcs@
                    &&& forall|i: int, j: int|
                        0 <= i < j < rpcs@.len() ==> (#[trigger] rpcs@[i]).ident@ != (
                        #[trigger] rpcs@[j]).ident@
                },
                Err(e) => exists|i: int, j: int|
                    {
                        &&& 0 <= i < j < rpcs@.len()
                        &&& (#[trigger] rpcs@[i]).ident@ == (#[trigger] rpcs@[j]).ident@
                        &&& forall|a: int, b: int|
                            0 <= a < b < j ==> (#[trigger] rpcs@[a]).ident@ != (
                            #[trigger] rpcs@[b]).ident@
                        &&& e matches DefinitionError::DuplicateOperation(n)
                        &&& n@ == rpcs@[j].ident@
                    },
            },
    {
        let mut j: usize = 0;
        while j < rpcs.len()
            invariant
                j <= rpcs@.len(),
                forall|a: int, b: int|
                    0 <= a < b < j ==> (#[trigger] rpcs@[a]).ident@ != (#[trigger] rpcs@[b]).ident@,
            decreases rpcs@.len() - j,
        {
            let mut i: usize = 0;
            while i < j
                invariant
                    j < rpcs@.len(),
                    i <= j,
                    forall|a: int, b: int|
                        0 <= a < b < j ==> (#[trigger] rpcs@[a]).ident@ != (
                        #[trigger] rpcs@[b]).ident@,
                    forall|a: int| 0 <= a < i ==> (#[trigger] rpcs@[a]).ident@ != rpcs@[j as int].ident@,
                decreases j - i,
            {
                if same_str(rpcs[i].ident.as_str(), rpcs[j].ident.as_str()) {
                    assert(rpcs@[i as int].ident@ == rpcs@[j as int].ident@);
                    return Err(DefinitionError::DuplicateOperation(rpcs[j].ident.clone()));
                }
                i = i + 1;
            }
            j = j + 1;
        }
        Ok(Service { ident, rpcs })
    }

    /// The name of the dispatcher: the service's name followed by `Serve`.
    pub fn serve_ident(&self) -> (r: String)
        ensures
            r@ == self.ident@ + "Serve"@,
    {
        self.ident.clone().concat("Serve")
    }

    /// The name of the client stub: the service's name followed by `Client`.
    pub fn client_ident(&self) -> (r: String)
        ensures
            r@ == self.ident@ + "Client"@,
    {
        self.ident.clone().concat("Client")
    }
}

/// A copy of a parameter list.
fn clone_args(v: &Vec<(String, String)>) -> (r: Vec<(String, String)>)
    ensures
        r@ == v@,
{
    let mut r: Vec<(String, String)> = Vec::new();
    let mut i: usize = 0;
    while i < v.len()
        invariant
            i <= v@.len(),
            r@ == v@.take(i as int),
        decreases v@.len() - i,
    {
        let (name, ty) = &v[i];
        r.push((name.clone(), ty.clone()));
        i = i + 1;
        assert(r@ =~= v@.take(i as int));
    }
    assert(v@ =~= v@.take(i as int));
    r
}

/// The request tagged union of a service: one variant per operation, named
/// after it and carrying the operation's named parameters as fields.
pub struct ServiceRequest {
    pub ident: String,
    pub args: Vec<(String, Vec<(String, String)>)>,
}

impl ServiceRequest {
    /// The request union of the service `name`, which is called after the
    /// service with `Request` appended.
    pub fn new(name: &str, args: Vec<(String, Vec<(String, String)>)>) -> (r: Self)
        ensures
            r.ident@ == name@ + "Request"@,
            r.args == args,
    {
        ServiceRequest { ident: name.to_owned().concat("Request"), args }
    }
}

/// The text of the type that a response variant carries: the return type,
/// or the unit type for an operation that returns nothing.
pub open spec fn response_type(output: Option<String>) -> Seq<char> {
    match output {
        Some(t) => t@,
        None => "()"@,
    }
}

/// The response tagged union of a service: one variant per operation, named
/// after it and carrying the operation's return value as its one field.
pub struct ServiceResponse {
    pub ident: String,
    pub rpcs: Vec<(String, String)>,
}

impl ServiceResponse {
    /// The response union of the service `name`, which is called after the
    /// service with `Response` appended.
    pub fn new(name: &str, rpcs: Vec<(String, Option<String>)>) -> (r: Self)
        ensures
            r.ident@ == name@ + "Response"@,
            r.rpcs@.len() == rpcs@.len(),
            forall|i: int|
                0 <= i < rpcs@.len() ==> {
                    &&& (#[trigger] r.rpcs@[i]).0 == rpcs@[i].0
                    &&& r.rpcs@[i].1@ == response_type(rpcs@[i].1)
                },
    {
        let mut variants: Vec<(String, String)> = Vec::new();
        let mut i: usize = 0;
        while i < rpcs.len()
            invariant
                i <= rpcs@.len(),
                variants@.len() == i,
                forall|j: int|
                    0 <= j < i ==> {
                        &&& (#[trigger] variants@[j]).0 == rpcs@[j].0
                        &&& variants@[j].1@ == response_type(rpcs@[j].1)
                    },
            decreases rpcs@.len() - i,
        {
            let (op, output) = &rpcs[i];
            let ty = match output {
                Some(t) => t.clone(),
                None => String::from_str("()"),
            };
            variants.push((op.clone(), ty));
            i = i + 1;
        }
        ServiceResponse { ident: name.to_owned().concat("Response"), rpcs: variants }
    }
}

impl Service {
    /// The request union of this service.
    pub fn request(&self) -> (r: ServiceRequest)
        ensures
            r.ident@ == self.ident@ + "Request"@,
            r.args@.len() == self.rpcs@.len(),
            forall|i: int|
                0 <= i < self.rpcs@.len() ==> {
                    &&& (#[trigger] r.args@[i]).0 == self.rpcs@[i].ident
                    &&& r.args@[i].1@ == self.rpcs@[i].args@
                },
    {
        let mut args: Vec<(String, Vec<(String, String)>)> = Vec::new();
        let mut i: usize = 0;
        while i < self.rpcs.len()
            invariant
                i <= self.rpcs@.len(),
                args@.len() == i,
                forall|j: int|
                    0 <= j < i ==> {
                        &&& (#[trigger] args@[j]).0 == self.rpcs@[j].ident
                        &&& args@[j].1@ == self.rpcs@[j].args@
                    },
            decreases self.rpcs@.len() - i,
        {
            let rpc = &self.rpcs[i];
            args.push((rpc.ident.clone(), clone_args(&rpc.args)));
            i = i + 1;
        }
        ServiceRequest::new(self.ident.as_str(), args)
    }

    /// The response union of this service.
    pub fn response(&self) -> (r: ServiceResponse)
        ensures
            r.ident@ == self.ident@ + "Response"@,
            r.rpcs@.len() == self.rpcs@.len(),
            forall|i: int|
                0 <= i < self.rpcs@.len() ==> {
                    &&& (#[trigger] r.rpcs@[i]).0 == self.rpcs@[i].ident
                    &&& r.rpcs@[i].1@ == response_type(self.rpcs@[i].output)
                },
    {
        let mut outputs: Vec<(String, Option<String>)> = Vec::new();
        let mut i: usize = 0;
        while i < self.rpcs.len()
            invariant
                i <= self.rpcs@.len(),
                outputs@.len() == i,
                forall|j: int|
                    0 <= j < i ==> {
                        &&& (#[trigger] outputs@[j]).0 == self.rpcs@[j].ident
                        &&& outputs@[j].1 == self.rpcs@[j].output
                    },
            decreases self.rpcs@.len() - i,
        {
            let rpc = &self.rpcs[i];
            let output = match &rpc.output {
                Some(t) => Some(t.clone()),
                None => None,
            };
            outputs.push((rpc.ident.clone(), output));
            i = i + 1;
        }
        ServiceResponse::new(self.ident.as_str(), outputs)
    }
}

} // verus!
