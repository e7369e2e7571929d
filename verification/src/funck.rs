//! The function-side vocabulary: the request and response value types that
//! cross the invocation boundary, the call-failure value, and the
//! `Funcktion` capability set every loadable function implements.

use vstd::prelude::*;
use vstd::string::StringExecFns;

verus! {

/// Metadata pairs seen as character sequences.
pub open spec fn spec_meta(pairs: Seq<(String, String)>) -> Seq<(Seq<char>, Seq<char>)> {
    pairs.map_values(|p: (String, String)| (p.0@, p.1@))
}

/// An invocation request: a byte body and ordered, case-sensitive metadata
/// pairs.
#[derive(Debug)]
pub struct Request {
    body: Vec<u8>,
    metadata: Vec<(String, String)>,
}

impl Request {
    /// The request body.
    pub closed spec fn spec_body(&self) -> Seq<u8> {
        self.body@
    }

    /// The metadata pairs, in the order given.
    pub closed spec fn spec_metadata(&self) -> Seq<(Seq<char>, Seq<char>)> {
        spec_meta(self.metadata@)
    }

    /// Build a request from a body and metadata pairs.
    pub fn new(body: Vec<u8>, metadata: Vec<(String, String)>) -> (r: Request)
        ensures
            r.spec_body() == body@,
            r.spec_metadata() == spec_meta(metadata@),
    {
        Request { body, metadata }
    }

    /// The request body.
    pub fn body(&self) -> (r: &Vec<u8>)
        ensures
            r@ == self.spec_body(),
    {
        &self.body
    }

    /// The metadata pairs.
    pub fn metadata(&self) -> (r: &Vec<(String, String)>)
        ensures
            spec_meta(r@) == self.spec_metadata(),
    {
        &self.metadata
    }
}

/// An invocation response: a byte body and ordered metadata pairs.
#[derive(Debug)]
pub struct Response {
    body: Vec<u8>,
    metadata: Vec<(String, String)>,
}

impl Response {
    /// The response body.
    pub closed spec fn spec_body(&self) -> Seq<u8> {
        self.body@
    }

    /// The metadata pairs, in the order added.
    pub closed spec fn spec_metadata(&self) -> Seq<(Seq<char>, Seq<char>)> {
        spec_meta(self.metadata@)
    }

    /// An empty response.
    pub fn new() -> (r: Response)
        ensures
            r.spec_body() == Seq::<u8>::empty(),
            r.spec_metadata() == Seq::<(Seq<char>, Seq<char>)>::empty(),
    {
        Response { body: Vec::new(), metadata: Vec::new() }
    }

    /// The response with its body replaced.
    pub fn with_bytes(self, body: Vec<u8>) -> (r: Response)
        ensures
            r.spec_body() == body@,
            r.spec_metadata() == self.spec_metadata(),
    {
        Response { body, metadata: self.metadata }
    }

    /// The response with one metadata pair appended.
    pub fn with_meta(self, name: &str, value: &str) -> (r: Response)
        ensures
            r.spec_body() == self.spec_body(),
            r.spec_metadata() == self.spec_metadata().push((name@, value@)),
    {
        let mut metadata = self.metadata;
        let ghost metadata0 = metadata@;
        metadata.push((String::from_str(name), String::from_str(value)));
        proof {
            assert(spec_meta(metadata@) =~= spec_meta(metadata0).push((name@, value@)));
        }
        Response { body: self.body, metadata }
    }

    /// The response body.
    pub fn body(&self) -> (r: &Vec<u8>)
        ensures
            r@ == self.spec_body(),
    {
        &self.body
    }

    /// The metadata pairs.
    pub fn metadata(&self) -> (r: &Vec<(String, String)>)
        ensures
            spec_meta(r@) == self.spec_metadata(),
    {
        &self.metadata
    }
}

/// A failure reported by a function call. The loading boundary turns every
/// foreign-side failure, panics included, into this value; nothing unwinds
/// across the boundary.
#[derive(Debug)]
pub struct CallError {
    message: String,
}

impl CallError {
    /// What went wrong, as reported by the function side.
    pub closed spec fn spec_message(&self) -> Seq<char> {
        self.message@
    }

    /// Wrap a failure message.
    pub fn new(message: String) -> (r: CallError)
        ensures
            r.spec_message() == message@,
    {
        CallError { message }
    }

    /// The failure message.
    pub fn message(&self) -> (r: &String)
        ensures
            r@ == self.spec_message(),
    {
        &self.message
    }
}

/// The result of one function invocation.
pub type CallResult<T> = Result<T, CallError>;

/// The capability set of a loadable function: a declared name and a call
/// entry point. User functions implement this; the host's loading boundary
/// hands the loader one value of an implementing type per installed
/// artifact.
pub trait Funcktion {
    /// The declared name, as a specification-level character sequence.
    spec fn spec_name(&self) -> Seq<char>;

    /// The declared name: the key under which the function is addressable.
    fn name(&self) -> (r: String)
        ensures
            r@ == self.spec_name(),
    ;

    /// Invoke the function on a request. A failure inside the function
    /// surfaces as a `CallError`; it never unwinds.
    fn _call_internal(&self, request: Request) -> (r: CallResult<Response>);
}

/// The raw capability set at the host's loading boundary: a declared name
/// and a call entry point, with no specification attached. The host
/// implements it for foreign code; `DynFunck` carries such an object into
/// the verified world.
pub trait RawFunck: Send + Sync {
    /// The declared name.
    fn raw_name(&self) -> String;

    /// Invoke the function. A failure inside surfaces as a `CallError`;
    /// nothing unwinds.
    fn raw_call(&self, request: Request) -> CallResult<Response>;
}

/// A funcktion behind a host-provided object. The declared name is read
/// once at construction, so the registry's key is stable whatever the
/// object answers later.
pub struct DynFunck {
    name: String,
    inner: Box<dyn RawFunck>,
}

impl DynFunck {
    /// Wrap a host object, fixing its declared name.
    pub fn new(inner: Box<dyn RawFunck>) -> (r: DynFunck) {
        let name = inner.raw_name();
        DynFunck { name, inner }
    }
}

impl Funcktion for DynFunck {
    closed spec fn spec_name(&self) -> Seq<char> {
        self.name@
    }

    fn name(&self) -> (r: String) {
        self.name.clone()
    }

    fn _call_internal(&self, request: Request) -> (r: CallResult<Response>) {
        self.inner.raw_call(request)
    }
}

} // verus!
