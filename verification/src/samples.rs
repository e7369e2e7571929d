//! Sample funcktions and their payload records: a fixed greeter, a
//! configurable in-process stub for exercising the manager without loading
//! a compiled artifact, and the record types of the notification and
//! greeting samples.

use vstd::prelude::*;
use vstd::string::StrSliceExecFns;
use vstd::string::StringExecFns;
use vstd::string::StringSliceAdditionalSpecFns;

use crate::funck::{CallError, CallResult, Funcktion, Request, Response};

verus! {

/// An exact copy of a byte vector.
fn copy_bytes(v: &Vec<u8>) -> (r: Vec<u8>)
    ensures
        r@ == v@,
{
    let n = v.len();
    let mut r: Vec<u8> = Vec::new();
    let mut i: usize = 0;
    while i < n
        invariant
            i <= n,
            n == v@.len(),
            r@.len() == i,
            forall|k: int| 0 <= k < i ==> r@[k] == v@[k],
        decreases n - i,
    {
        r.push(v[i]);
        i = i + 1;
    }
    proof {
        assert(r@ =~= v@);
    }
    r
}

/// The bytes of a vector in reverse order.
fn reversed_bytes(v: &Vec<u8>) -> (r: Vec<u8>)
    ensures
        r@ == v@.reverse(),
{
    let n = v.len();
    let mut r: Vec<u8> = Vec::new();
    let mut i: usize = 0;
    while i < n
        invariant
            i <= n,
            n == v@.len(),
            r@.len() == i,
            forall|k: int| 0 <= k < i ==> r@[k] == v@[n - 1 - k],
        decreases n - i,
    {
        r.push(v[n - 1 - i]);
        i = i + 1;
    }
    proof {
        assert(r@ =~= v@.reverse());
    }
    r
}

/// The smallest possible funcktion: it greets whoever calls.
#[derive(Debug, Default)]
pub struct TestFn {}

impl Funcktion for TestFn {
    open spec fn spec_name(&self) -> Seq<char> {
        "hello_fn"@
    }

    fn name(&self) -> (r: String) {
        String::from_str("hello_fn")
    }

    fn _call_internal(&self, request: Request) -> (r: CallResult<Response>)
        ensures
            r matches Ok(resp) && resp.spec_body() == "I just got called".spec_bytes(),
    {
        Ok(Response::new().with_bytes("I just got called".as_bytes_vec()))
    }
}

/// What a stub funcktion answers: a fixed body, the request body, the
/// request body reversed, or a failure.
#[derive(Debug)]
pub enum StubBehavior {
    Fixed(Vec<u8>),
    Echo,
    ReverseEcho,
    Fail(String),
}

/// An in-process funcktion with a chosen name and behavior: it stands in
/// for a loaded artifact wherever one is not wanted.
#[derive(Debug)]
pub struct StubFunck {
    pub name: String,
    pub behavior: StubBehavior,
}

impl StubFunck {
    /// A stub with the given declared name and behavior.
    pub fn new(name: String, behavior: StubBehavior) -> (r: StubFunck)
        ensures
            r.name@ == name@,
            r.behavior == behavior,
    {
        StubFunck { name, behavior }
    }
}

impl Funcktion for StubFunck {
    open spec fn spec_name(&self) -> Seq<char> {
        self.name@
    }

    fn name(&self) -> (r: String) {
        self.name.clone()
    }

    fn _call_internal(&self, request: Request) -> (r: CallResult<Response>)
        ensures
            match self.behavior {
                StubBehavior::Fixed(b) => r matches Ok(resp) && resp.spec_body() == b@,
                StubBehavior::Echo => r matches Ok(resp) && resp.spec_body()
                    == request.spec_body(),
                StubBehavior::ReverseEcho => r matches Ok(resp) && resp.spec_body()
                    == request.spec_body().reverse(),
                StubBehavior::Fail(m) => r matches Err(e) && e.spec_message() == m@,
            },
    {
        match &self.behavior {
            StubBehavior::Fixed(b) => Ok(Response::new().with_bytes(copy_bytes(b))),
            StubBehavior::Echo => Ok(Response::new().with_bytes(copy_bytes(request.body()))),
            StubBehavior::ReverseEcho => Ok(
                Response::new().with_bytes(reversed_bytes(request.body())),
            ),
            StubBehavior::Fail(m) => Err(CallError::new(m.clone())),
        }
    }
}

/// The greeting the greeting sample builds for a person.
pub fn greeting_for(first_name: &str, last_name: &str) -> (r: String)
    ensures
        r@ == "Hello there,  Mr. "@ + first_name@ + " "@ + last_name@,
{
    let mut r = String::from_str("Hello there,  Mr. ");
    r.append(first_name);
    r.append(" ");
    r.append(last_name);
    r
}

/// The title a notification carries when the request names none.
pub fn default_notification_title() -> (r: String)
    ensures
        r@ == "Funck Notification"@,
{
    String::from_str("Funck Notification")
}

/// The notification sample's state: it counts its calls; sending the
/// system notification itself is host work.
#[derive(Debug, Default)]
pub struct NotifFn {
    pub call_count: u16,
}

/// The notification body with the call count appended, as the
/// notification sample reports it.
pub fn with_call_count(body: &str, count: u16) -> (r: String)
    ensures
        r@ == body@ + " (called "@ + crate::text::spec_udec(count as nat) + " times)"@,
{
    let mut r = body.to_owned();
    r.append(" (called ");
    let digits = crate::text::u64_to_string(count as u64);
    r.append(digits.as_str());
    r.append(" times)");
    r
}

/// The payload of the notification sample.
#[derive(Debug)]
pub struct NotificationRequest {
    pub title: String,
    pub body: String,
}

/// The answer of the notification sample.
#[derive(Debug)]
pub struct NotificationResponse {
    pub message: String,
}

impl NotificationResponse {
    /// An answer carrying the given text.
    pub fn new(body: &str) -> (r: NotificationResponse)
        ensures
            r.message@ == body@,
    {
        NotificationResponse { message: body.to_owned() }
    }
}

/// The payload of the greeting sample.
#[derive(Debug)]
pub struct PersonRequest {
    pub first_name: String,
    pub last_name: String,
}

/// The answer of the greeting sample.
#[derive(Debug)]
pub struct PersonResponse {
    pub greeting: String,
}

} // verus!
