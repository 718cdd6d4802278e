//! The source text of the items generated for a service: the request and
//! response tagged unions and the operations' signatures in the service
//! trait. Each text is stated by a spec function over the model.

use vstd::prelude::*;

use crate::service::{response_type, Rpc, Service, ServiceRequest, ServiceResponse};

verus! {

/// One named field or parameter: `name: Type, `.
pub open spec fn field_text(f: (String, String)) -> Seq<char> {
    f.0@ + ": "@ + f.1@ + ", "@
}

/// A list of named fields or parameters, each followed by a comma.
pub open spec fn fields_text(fs: Seq<(String, String)>) -> Seq<char>
    decreases fs.len(),
{
    if fs.len() == 0 {
        Seq::empty()
    } else {
        fields_text(fs.drop_last()) + field_text(fs.last())
    }
}

/// The attribute that lets a variant keep the operation's own name.
pub open spec fn variant_attr() -> Seq<char> {
    "    #[allow(non_camel_case_types)]\n    "@
}

/// The derives of a generated tagged union.
pub open spec fn union_header() -> Seq<char> {
    "#[derive(Debug, serde::Deserialize, serde::Serialize)]\npub enum "@
}

/// A request variant: the operation's name with its parameters as fields.
pub open spec fn request_variant_text(v: (String, Vec<(String, String)>)) -> Seq<char> {
    variant_attr() + v.0@ + " { "@ + fields_text(v.1@) + "},\n"@
}

pub open spec fn request_variants_text(vs: Seq<(String, Vec<(String, String)>)>) -> Seq<char>
    decreases vs.len(),
{
    if vs.len() == 0 {
        Seq::empty()
    } else {
        request_variants_text(vs.drop_last()) + request_variant_text(vs.last())
    }
}

/// A response variant: the operation's name with the returned type.
pub open spec fn response_variant_text(v: (String, String)) -> Seq<char> {
    variant_attr() + v.0@ + "("@ + v.1@ + "),\n"@
}

pub open spec fn response_variants_text(vs: Seq<(String, String)>) -> Seq<char>
    decreases vs.len(),
{
    if vs.len() == 0 {
        Seq::empty()
    } else {
        response_variants_text(vs.drop_last()) + response_variant_text(vs.last())
    }
}

/// The return part of an operation's signature.
pub open spec fn output_text(output: Option<String>) -> Seq<char> {
    match output {
        Some(t) => " -> "@ + t@,
        None => Seq::empty(),
    }
}

fn push_fields(out: &mut String, fs: &Vec<(String, String)>)
    ensures
        final(out)@ == old(out)@ + fields_text(fs@),
{
    let mut i: usize = 0;
    while i < fs.len()
        invariant
            i <= fs@.len(),
            out@ == old(out)@ + fields_text(fs@.take(i as int)),
        decreases fs@.len() - i,
    {
        let ghost before = out@;
        out.append(fs[i].0.as_str());
        out.append(": ");
        out.append(fs[i].1.as_str());
        out.append(", ");
        i = i + 1;
        proof {
            let t = fs@.take(i as int);
            assert(t.drop_last() =~= fs@.take(i - 1));
            assert(out@ =~= before + field_text(t.last()));
        }
    }
    assert(fs@.take(i as int) =~= fs@);
}

impl Rpc {
    /// The operation's declaration in the service trait:
    /// `async fn name(&self, a: A, ) -> R;`.
    pub fn to_source(&self) -> (r: String)
        ensures
            r@ == "    async fn "@ + self.ident@ + "(&self, "@ + fields_text(self.args@) + ")"@
                + output_text(self.output) + ";\n"@,
    {
        let mut out = String::from_str("    async fn ");
        out.append(self.ident.as_str());
        out.append("(&self, ");
        push_fields(&mut out, &self.args);
        out.append(")");
        match &self.output {
            Some(t) => {
                out.append(" -> ");
                out.append(t.as_str());
            },
            None => {},
        }
        out.append(";\n");
        proof {
            assert(out@ =~= "    async fn "@ + self.ident@ + "(&self, "@ + fields_text(self.args@)
                + ")"@ + output_text(self.output) + ";\n"@);
        }
        out
    }
}

impl ServiceRequest {
    /// The declaration of the request tagged union.
    pub fn to_source(&self) -> (r: String)
        ensures
            r@ == union_header() + self.ident@ + " {\n"@ + request_variants_text(self.args@)
                + "}\n"@,
    {
        let mut out = String::from_str(
            "#[derive(Debug, serde::Deserialize, serde::Serialize)]\npub enum ",
        );
        out.append(self.ident.as_str());
        out.append(" {\n");
        let ghost start = out@;
        let mut i: usize = 0;
        while i < self.args.len()
            invariant
                i <= self.args@.len(),
                out@ == start + request_variants_text(self.args@.take(i as int)),
            decreases self.args@.len() - i,
        {
            let ghost before = out@;
            out.append("    #[allow(non_camel_case_types)]\n    ");
            out.append(self.args[i].0.as_str());
            out.append(" { ");
            push_fields(&mut out, &self.args[i].1);
            out.append("},\n");
            i = i + 1;
            proof {
                let t = self.args@.take(i as int);
                assert(t.drop_last() =~= self.args@.take(i - 1));
                assert(out@ =~= before + request_variant_text(t.last()));
            }
        }
        out.append("}\n");
        proof {
            assert(self.args@.take(i as int) =~= self.args@);
            assert(out@ =~= union_header() + self.ident@ + " {\n"@ + request_variants_text(
                self.args@,
            ) + "}\n"@);
        }
        out
    }
}

impl ServiceResponse {
    /// The declaration of the response tagged union.
    pub fn to_source(&self) -> (r: String)
        ensures
            r@ == union_header() + self.ident@ + " {\n"@ + response_variants_text(self.rpcs@)
                + "}\n"@,
    {
        let mut out = String::from_str(
            "#[derive(Debug, serde::Deserialize, serde::Serialize)]\npub enum ",
        );
        out.append(self.ident.as_str());
        out.append(" {\n");
        let ghost start = out@;
        let mut i: usize = 0;
        while i < self.rpcs.len()
            invariant
                i <= self.rpcs@.len(),
                out@ == start + response_variants_text(self.rpcs@.take(i as int)),
            decreases self.rpcs@.len() - i,
        {
            let ghost before = out@;
            out.append("    #[allow(non_camel_case_types)]\n    ");
            out.append(self.rpcs[i].0.as_str());
            out.append("(");
            out.append(self.rpcs[i].1.as_str());
            out.append("),\n");
            i = i + 1;
            proof {
                let t = self.rpcs@.take(i as int);
                assert(t.drop_last() =~= self.rpcs@.take(i - 1));
                assert(out@ =~= before + response_variant_text(t.last()));
            }
        }
        out.append("}\n");
        proof {
            assert(self.rpcs@.take(i as int) =~= self.rpcs@);
            assert(out@ =~= union_header() + self.ident@ + " {\n"@ + response_variants_text(
                self.rpcs@,
            ) + "}\n"@);
        }
        out
    }
}

/// The names of a list of parameters, each followed by a comma.
pub open spec fn names_text(fs: Seq<(String, String)>) -> Seq<char>
    decreases fs.len(),
{
    if fs.len() == 0 {
        Seq::empty()
    } else {
        names_text(fs.drop_last()) + fs.last().0@ + ", "@
    }
}

/// An operation's declaration in the service trait.
pub open spec fn rpc_text(r: Rpc) -> Seq<char> {
    "    async fn "@ + r.ident@ + "(&self, "@ + fields_text(r.args@) + ")"@ + output_text(r.output)
        + ";\n"@
}

pub open spec fn rpcs_text(rs: Seq<Rpc>) -> Seq<char>
    decreases rs.len(),
{
    if rs.len() == 0 {
        Seq::empty()
    } else {
        rpcs_text(rs.drop_last()) + rpc_text(rs.last())
    }
}

/// The service trait that users implement, with the conversion of an
/// implementation into its dispatcher.
pub open spec fn trait_text(s: Service) -> Seq<char> {
    "#[async_trait::async_trait]\npub trait "@ + s.ident@ + ": Sized + Clone {\n"@ + rpcs_text(s.rpcs@)
        + "    fn into_serve(self) -> "@ + s.ident@ + "Serve<Self> {\n        "@ + s.ident@
        + "Serve { service: self }\n    }\n}\n"@
}

/// The arm of the dispatcher that serves one operation: the request variant
/// is answered by the response variant of the same operation.
pub open spec fn arm_text(s: Seq<char>, r: Rpc) -> Seq<char> {
    "                "@ + s + "Request::"@ + r.ident@ + " { "@ + names_text(r.args@) + "} => "@ + s
        + "Response::"@ + r.ident@ + "("@ + s + "::"@ + r.ident@ + "(&service, "@ + names_text(
        r.args@,
    ) + ").await),\n"@
}

pub open spec fn arms_text(s: Seq<char>, rs: Seq<Rpc>) -> Seq<char>
    decreases rs.len(),
{
    if rs.len() == 0 {
        Seq::empty()
    } else {
        arms_text(s, rs.drop_last()) + arm_text(s, rs.last())
    }
}

/// The head of the dispatcher, up to the match on the decoded request.
pub open spec fn serve_head_text(s: Seq<char>) -> Seq<char> {
    "#[derive(Clone)]\npub struct "@ + s + "Serve<S: Clone> {\n    pub service: S,\n}\n\nimpl<A: "@ + s
        + " + Send + Clone + Sync + 'static> ::tower::Service<::bytes::Bytes> for "@ + s
        + "Serve<A> {\n    type Response = ::bytes::Bytes;\n    type Error = ::webcontr::ResponseErrorKind;\n    type Future = ::std::pin::Pin<Box<dyn ::std::future::Future<Output = Result<::bytes::Bytes, ::webcontr::ResponseErrorKind>> + Send>>;\n\n    fn poll_ready(&mut self, _cx: &mut ::std::task::Context<'_>) -> ::std::task::Poll<Result<(), Self::Error>> {\n        ::std::task::Poll::Ready(Ok(()))\n    }\n\n    fn call(&mut self, req: ::bytes::Bytes) -> Self::Future {\n        let service = self.service.clone();\n        Box::pin(async move {\n            let req: "@
        + s + "Request = ::bincode::deserialize(&req).map_err(|_| ::webcontr::ResponseErrorKind::InvalidRequest)?;\n            let res = match req {\n"@
}

/// The tail of the dispatcher: encoding the response, and the service name.
pub open spec fn serve_tail_text(s: Seq<char>) -> Seq<char> {
    "            };\n            ::bincode::serialize(&res).map(::bytes::Bytes::from).map_err(|_| ::webcontr::ResponseErrorKind::InvalidRequest)\n        })\n    }\n}\n\nimpl<A: Clone> ::webcontr::ServiceName for "@
        + s + "Serve<A> {\n    fn name(&self) -> &'static str {\n        \""@ + s
        + "\"\n    }\n}\n"@
}

/// The dispatcher: it decodes the request union, answers each variant with
/// the same operation's response variant, and encodes that; a payload that
/// does not decode is an invalid request.
pub open spec fn serve_text(s: Service) -> Seq<char> {
    serve_head_text(s.ident@) + arms_text(s.ident@, s.rpcs@) + serve_tail_text(s.ident@)
}

/// The signature of one method of the client stub.
pub open spec fn client_signature_text(rt: Seq<char>, r: Rpc) -> Seq<char> {
    "    pub async fn "@ + r.ident@ + "(&mut self, "@ + fields_text(r.args@) + ") -> Result<"@
        + response_type(r.output) + ", "@ + rt + "::ClientError> {\n"@
}

/// The body of one method of the client stub: it sends the operation's
/// request variant and expects the same operation's response variant.
pub open spec fn client_body_text(s: Seq<char>, rt: Seq<char>, r: Rpc) -> Seq<char> {
    "        let req = "@ + s + "Request::"@ + r.ident@ + " { "@ + names_text(r.args@)
        + "};\n        let res: "@ + s + "Response = "@ + rt + "::client::send_client_req(\""@ + s
        + "\", req, &self.addr).await?;\n        match res {\n            "@ + s + "Response::"@
        + r.ident@
        + "(response) => Ok(response),\n            #[allow(unreachable_patterns)]\n            other => panic!(\"mismatched response variant {:?}\", other),\n        }\n    }\n"@
}

/// One method of the client stub.
pub open spec fn client_method_text(s: Seq<char>, rt: Seq<char>, r: Rpc) -> Seq<char> {
    client_signature_text(rt, r) + client_body_text(s, rt, r)
}

pub open spec fn client_methods_text(s: Seq<char>, rt: Seq<char>, rs: Seq<Rpc>) -> Seq<char>
    decreases rs.len(),
{
    if rs.len() == 0 {
        Seq::empty()
    } else {
        client_methods_text(s, rt, rs.drop_last()) + client_method_text(s, rt, rs.last())
    }
}

/// The client stub, whose calls go through the runtime at path `rt`.
pub open spec fn client_text(s: Service, rt: Seq<char>) -> Seq<char> {
    "pub struct "@ + s.ident@ + "Client {\n    addr: String,\n}\n\nimpl "@ + s.ident@
        + "Client {\n    pub fn new(addr: String) -> Self {\n        Self { addr }\n    }\n\n"@
        + client_methods_text(s.ident@, rt, s.rpcs@) + "}\n"@
}

fn push_names(out: &mut String, fs: &Vec<(String, String)>)
    ensures
        final(out)@ == old(out)@ + names_text(fs@),
{
    let mut i: usize = 0;
    while i < fs.len()
        invariant
            i <= fs@.len(),
            out@ == old(out)@ + names_text(fs@.take(i as int)),
        decreases fs@.len() - i,
    {
        let ghost before = out@;
        out.append(fs[i].0.as_str());
        out.append(", ");
        i = i + 1;
        proof {
            let t = fs@.take(i as int);
            assert(t.drop_last() =~= fs@.take(i - 1));
            assert(out@ =~= before + t.last().0@ + ", "@);
        }
    }
    assert(fs@.take(i as int) =~= fs@);
}

fn push_arm(out: &mut String, s: &str, r: &Rpc)
    ensures
        final(out)@ == old(out)@ + arm_text(s@, *r),
{
    out.append("                ");
    out.append(s);
    out.append("Request::");
    out.append(r.ident.as_str());
    out.append(" { ");
    push_names(out, &r.args);
    out.append("} => ");
    out.append(s);
    out.append("Response::");
    out.append(r.ident.as_str());
    out.append("(");
    out.append(s);
    out.append("::");
    out.append(r.ident.as_str());
    out.append("(&service, ");
    push_names(out, &r.args);
    out.append(").await),\n");
    proof {
        assert(out@ =~= old(out)@ + arm_text(s@, *r));
    }
}

fn push_client_signature(out: &mut String, rt: &str, r: &Rpc)
    ensures
        final(out)@ == old(out)@ + client_signature_text(rt@, *r),
{
    out.append("    pub async fn ");
    out.append(r.ident.as_str());
    out.append("(&mut self, ");
    push_fields(out, &r.args);
    out.append(") -> Result<");
    match &r.output {
        Some(t) => out.append(t.as_str()),
        None => out.append("()"),
    }
    out.append(", ");
    out.append(rt);
    out.append("::ClientError> {\n");
    proof {
        assert(out@ =~= old(out)@ + client_signature_text(rt@, *r));
    }
}

fn push_client_body(out: &mut String, s: &str, rt: &str, r: &Rpc)
    ensures
        final(out)@ == old(out)@ + client_body_text(s@, rt@, *r),
{
    out.append("        let req = ");
    out.append(s);
    out.append("Request::");
    out.append(r.ident.as_str());
    out.append(" { ");
    push_names(out, &r.args);
    out.append("};\n        let res: ");
    out.append(s);
    out.append("Response = ");
    out.append(rt);
    out.append("::client::send_client_req(\"");
    out.append(s);
    out.append("\", req, &self.addr).await?;\n        match res {\n            ");
    out.append(s);
    out.append("Response::");
    out.append(r.ident.as_str());
    out.append(
        "(response) => Ok(response),\n            #[allow(unreachable_patterns)]\n            other => panic!(\"mismatched response variant {:?}\", other),\n        }\n    }\n",
    );
    proof {
        assert(out@ =~= old(out)@ + client_body_text(s@, rt@, *r));
    }
}

impl Service {
    /// The source of the service trait.
    pub fn trait_source(&self) -> (r: String)
        ensures
            r@ == trait_text(*self),
    {
        let mut out = String::from_str("#[async_trait::async_trait]\npub trait ");
        out.append(self.ident.as_str());
        out.append(": Sized + Clone {\n");
        let ghost start = out@;
        let mut i: usize = 0;
        while i < self.rpcs.len()
            invariant
                i <= self.rpcs@.len(),
                out@ == start + rpcs_text(self.rpcs@.take(i as int)),
            decreases self.rpcs@.len() - i,
        {
            let ghost before = out@;
            let text = self.rpcs[i].to_source();
            out.append(text.as_str());
            i = i + 1;
            proof {
                let t = self.rpcs@.take(i as int);
                assert(t.drop_last() =~= self.rpcs@.take(i - 1));
                assert(out@ =~= before + rpc_text(t.last()));
            }
        }
        out.append("    fn into_serve(self) -> ");
        out.append(self.ident.as_str());
        out.append("Serve<Self> {\n        ");
        out.append(self.ident.as_str());
        out.append("Serve { service: self }\n    }\n}\n");
        proof {
            assert(self.rpcs@.take(i as int) =~= self.rpcs@);
            assert(out@ =~= trait_text(*self));
        }
        out
    }

    /// The source of the dispatcher and of its service name.
    pub fn serve_source(&self) -> (r: String)
        ensures
            r@ == serve_text(*self),
    {
        let s = self.ident.as_str();
        let mut out = String::from_str("#[derive(Clone)]\npub struct ");
        out.append(s);
        out.append("Serve<S: Clone> {\n    pub service: S,\n}\n\nimpl<A: ");
        out.append(s);
        out.append(" + Send + Clone + Sync + 'static> ::tower::Service<::bytes::Bytes> for ");
        out.append(s);
        out.append(
            "Serve<A> {\n    type Response = ::bytes::Bytes;\n    type Error = ::webcontr::ResponseErrorKind;\n    type Future = ::std::pin::Pin<Box<dyn ::std::future::Future<Output = Result<::bytes::Bytes, ::webcontr::ResponseErrorKind>> + Send>>;\n\n    fn poll_ready(&mut self, _cx: &mut ::std::task::Context<'_>) -> ::std::task::Poll<Result<(), Self::Error>> {\n        ::std::task::Poll::Ready(Ok(()))\n    }\n\n    fn call(&mut self, req: ::bytes::Bytes) -> Self::Future {\n        let service = self.service.clone();\n        Box::pin(async move {\n            let req: ",
        );
        out.append(s);
        out.append(
            "Request = ::bincode::deserialize(&req).map_err(|_| ::webcontr::ResponseErrorKind::InvalidRequest)?;\n            let res = match req {\n",
        );
        proof {
            assert(out@ =~= serve_head_text(self.ident@));
        }
        let ghost start = out@;
        let mut i: usize = 0;
        while i < self.rpcs.len()
            invariant
                i <= self.rpcs@.len(),
                s@ == self.ident@,
                out@ == start + arms_text(self.ident@, self.rpcs@.take(i as int)),
            decreases self.rpcs@.len() - i,
        {
            let ghost before = out@;
            push_arm(&mut out, s, &self.rpcs[i]);
            i = i + 1;
            proof {
                let t = self.rpcs@.take(i as int);
                assert(t.drop_last() =~= self.rpcs@.take(i - 1));
                assert(out@ =~= before + arm_text(self.ident@, t.last()));
            }
        }
        let ghost middle = out@;
        out.append(
            "            };\n            ::bincode::serialize(&res).map(::bytes::Bytes::from).map_err(|_| ::webcontr::ResponseErrorKind::InvalidRequest)\n        })\n    }\n}\n\nimpl<A: Clone> ::webcontr::ServiceName for ",
        );
        out.append(s);
        out.append("Serve<A> {\n    fn name(&self) -> &'static str {\n        \"");
        out.append(s);
        out.append("\"\n    }\n}\n");
        proof {
            assert(self.rpcs@.take(i as int) =~= self.rpcs@);
            assert(out@ =~= middle + serve_tail_text(self.ident@));
            assert(out@ =~= serve_text(*self));
        }
        out
    }

    /// The source of the client stub, calling through the runtime at the
    /// path `rt`.
    pub fn client_source(&self, rt: &str) -> (r: String)
        ensures
            r@ == client_text(*self, rt@),
    {
        let s = self.ident.as_str();
        let mut out = String::from_str("pub struct ");
        out.append(s);
        out.append("Client {\n    addr: String,\n}\n\nimpl ");
        out.append(s);
        out.append("Client {\n    pub fn new(addr: String) -> Self {\n        Self { addr }\n    }\n\n");
        let ghost start = out@;
        let mut i: usize = 0;
        while i < self.rpcs.len()
            invariant
                i <= self.rpcs@.len(),
                s@ == self.ident@,
                out@ == start + client_methods_text(self.ident@, rt@, self.rpcs@.take(i as int)),
            decreases self.rpcs@.len() - i,
        {
            let ghost before = out@;
            push_client_signature(&mut out, rt, &self.rpcs[i]);
            push_client_body(&mut out, s, rt, &self.rpcs[i]);
            i = i + 1;
            proof {
                let t = self.rpcs@.take(i as int);
                assert(t.drop_last() =~= self.rpcs@.take(i - 1));
                assert(out@ =~= before + client_method_text(self.ident@, rt@, t.last()));
            }
        }
        out.append("}\n");
        proof {
            assert(self.rpcs@.take(i as int) =~= self.rpcs@);
            assert(out@ =~= client_text(*self, rt@));
        }
        out
    }
}

} // verus!
