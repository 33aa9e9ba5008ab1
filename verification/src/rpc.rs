//! The generator handshake driver's decisions: classifying one request,
//! producing the exact response for it, and the single-shot loop's state.
//! Reading a request line, running a generation and writing the response
//! are the caller's I/O; every decision between them is made here.

use vstd::prelude::*;

use crate::names::str_matches;
use crate::wire::WireData;
use crate::wire::WireValue;

verus! {

/// What a generator plugin announces about itself.
pub struct GeneratorMetadata {
    /// The generator's pretty name, used in the manifest and in error
    /// messages.
    pub name: String,
    /// The default output path announced by the manifest.
    pub default_output: String,
}

impl GeneratorMetadata {
    /// A generator description from its pretty name and default output.
    pub fn new(name: String, default_output: String) -> (r: Self)
        ensures
            r.name@ == name@,
            r.default_output@ == default_output@,
    {
        GeneratorMetadata { name, default_output }
    }
}

/// One request of the line-based handshake.
#[derive(Debug)]
pub struct Request {
    /// The request's identifier, echoed in the response.
    pub id: u64,
    /// The requested method's name.
    pub method: String,
}

/// The payload of a response: a result value or a structured error.
#[derive(Debug)]
pub enum ResponseData {
    Result(WireValue),
    Error { code: u64, message: String },
}

/// One response of the handshake, always tagged with the protocol version
/// and the identifier of the request it answers.
#[derive(Debug)]
pub struct Response {
    pub jsonrpc: String,
    pub id: u64,
    pub data: ResponseData,
}

/// Where the single-shot driver loop stands.
#[derive(Clone, Copy, Debug, PartialEq, Eq, Structural)]
pub enum DriverState {
    /// The loop reads and answers the next request.
    AwaitingRequest,
    /// A generation was handled; the loop exits.
    Done,
}

/// The kinds of request the driver distinguishes.
#[derive(Clone, Copy, Debug, PartialEq, Eq, Structural)]
pub enum RequestKind {
    GetManifest,
    Generate,
    Unknown,
}

/// What the driver does with one request: reply at once, or run the one
/// generation and reply with its outcome.
#[derive(Debug)]
pub enum Dispatch {
    /// Write this response and keep reading.
    Reply(Response),
    /// Run the generation for the request with this identifier, then build
    /// the response from the outcome; the loop ends afterwards.
    RunGenerate(u64),
}

/// How a method name classifies.
pub open spec fn spec_classify(method: Seq<char>) -> RequestKind {
    if method == "getManifest"@ {
        RequestKind::GetManifest
    } else if method == "generate"@ {
        RequestKind::Generate
    } else {
        RequestKind::Unknown
    }
}

/// The manifest the generator announces: its default output and pretty
/// name.
pub open spec fn spec_manifest_data(m: GeneratorMetadata) -> WireData {
    WireData::Object(
        seq![
            (
                "manifest"@,
                WireData::Object(
                    seq![
                        ("defaultOutput"@, WireData::Scalar(m.default_output@)),
                        ("prettyName"@, WireData::Scalar(m.name@)),
                    ],
                ),
            )
        ],
    )
}

/// The error message for a method the generator cannot handle.
pub open spec fn spec_unknown_message(name: Seq<char>, method: Seq<char>) -> Seq<char> {
    name + " cannot handle method "@ + method
}

/// Classifies one method name.
pub fn classify(method: &str) -> (r: RequestKind)
    ensures
        r == spec_classify(method@),
{
    if str_matches(method, "getManifest") {
        RequestKind::GetManifest
    } else if str_matches(method, "generate") {
        RequestKind::Generate
    } else {
        RequestKind::Unknown
    }
}

impl GeneratorMetadata {
    /// The response to a manifest request: the manifest object under the
    /// protocol version and the request's identifier.
    pub fn manifest_response(&self, id: u64) -> (r: Response)
        ensures
            r.jsonrpc@ == "2.0"@,
            r.id == id,
            r.data matches ResponseData::Result(v) && v.wire() == spec_manifest_data(*self),
    {
        let mut inner: Vec<(String, WireValue)> = Vec::new();
        inner.push(
            (String::from_str("defaultOutput"), WireValue::Scalar(self.default_output.clone())),
        );
        inner.push((String::from_str("prettyName"), WireValue::Scalar(self.name.clone())));
        let mut outer: Vec<(String, WireValue)> = Vec::new();
        outer.push((String::from_str("manifest"), WireValue::Object(inner)));
        let v = WireValue::Object(outer);
        proof {
            let m = spec_manifest_data(*self);
            assert(inner@.len() == 2);
            assert(inner@[0].0@ == "defaultOutput"@);
            assert(inner@[0].1.wire() == WireData::Scalar(self.default_output@));
            assert(inner@[1].0@ == "prettyName"@);
            assert(inner@[1].1.wire() == WireData::Scalar(self.name@));
            assert(m->Object_0[0].1->Object_0 =~= seq![
                ("defaultOutput"@, WireData::Scalar(self.default_output@)),
                ("prettyName"@, WireData::Scalar(self.name@)),
            ]);
            assert(outer@[0].1.wire()->Object_0 =~= m->Object_0[0].1->Object_0);
            assert(outer@[0].1.wire() =~~= m->Object_0[0].1);
            assert(v.wire()->Object_0 =~= m->Object_0);
            assert(v.wire() =~~= m);
        }
        Response { jsonrpc: String::from_str("2.0"), id, data: ResponseData::Result(v) }
    }

    /// The response to a request whose method the generator does not
    /// handle: a structured error naming the generator and the method.
    pub fn unknown_method_response(&self, id: u64, method: &str) -> (r: Response)
        ensures
            r.jsonrpc@ == "2.0"@,
            r.id == id,
            r.data matches ResponseData::Error { code, message } && code == 0 && message@
                == spec_unknown_message(self.name@, method@),
    {
        let mut message = self.name.clone();
        message.append(" cannot handle method ");
        message.append(method);
        Response { jsonrpc: String::from_str("2.0"), id, data: ResponseData::Error { code: 0, message } }
    }

    /// The response to the one generation request, from its outcome: a
    /// null result on success, a structured error carrying the failure's
    /// message otherwise.
    pub fn generate_response(&self, id: u64, outcome: Result<(), String>) -> (r: Response)
        ensures
            r.jsonrpc@ == "2.0"@,
            r.id == id,
            outcome is Ok ==> (r.data matches ResponseData::Result(v) && v.wire()
                == WireData::Null),
            outcome matches Err(m) ==> (r.data matches ResponseData::Error { code, message } && code
                == 0 && message == m),
    {
        match outcome {
            Ok(()) => Response {
                jsonrpc: String::from_str("2.0"),
                id,
                data: ResponseData::Result(WireValue::Null),
            },
            Err(message) => Response {
                jsonrpc: String::from_str("2.0"),
                id,
                data: ResponseData::Error { code: 0, message },
            },
        }
    }

    /// Decides what to do with one request: a manifest request is answered
    /// at once and the loop goes on; the one generation request is handed
    /// back to the caller and ends the loop once answered; any other
    /// method is answered with the structured error and the loop goes on.
    pub fn dispatch(&self, req: &Request) -> (r: (Dispatch, DriverState))
        ensures
            spec_classify(req.method@) == RequestKind::GetManifest ==> (r.0 matches Dispatch::Reply(
                resp,
            ) && resp.jsonrpc@ == "2.0"@ && resp.id == req.id && (resp.data
                matches ResponseData::Result(v) && v.wire() == spec_manifest_data(*self))
                && r.1 == DriverState::AwaitingRequest),
            spec_classify(req.method@) == RequestKind::Generate ==> (r.0 matches
                Dispatch::RunGenerate(id) && id == req.id && r.1 == DriverState::Done),
            spec_classify(req.method@) == RequestKind::Unknown ==> (r.0 matches Dispatch::Reply(
                resp,
            ) && resp.jsonrpc@ == "2.0"@ && resp.id == req.id && (resp.data
                matches ResponseData::Error { code, message } && code == 0 && message@
                == spec_unknown_message(self.name@, req.method@)) && r.1
                == DriverState::AwaitingRequest),
    {
        match classify(req.method.as_str()) {
            RequestKind::GetManifest => (
                Dispatch::Reply(self.manifest_response(req.id)),
                DriverState::AwaitingRequest,
            ),
            RequestKind::Generate => (Dispatch::RunGenerate(req.id), DriverState::Done),
            RequestKind::Unknown => (
                Dispatch::Reply(self.unknown_method_response(req.id, req.method.as_str())),
                DriverState::AwaitingRequest,
            ),
        }
    }
}

} // verus!
