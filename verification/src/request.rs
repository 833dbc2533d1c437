//! The description of one outbound call, as a host hands it over in a JSON
//! document with the members `method`, `path`, `data` and `headers`.

use vstd::prelude::*;
use vstd::string::StringSliceAdditionalSpecFns;

use crate::json::{json_document, Json, MemberFault};
use crate::text::str_eq;

verus! {

/// What `str::to_uppercase` makes of a string.
pub uninterp spec fn uppercased(s: Seq<char>) -> Seq<char>;

/// Calls `str::to_uppercase`; the contract names the result and claims
/// nothing else of it.
#[verifier::external_body]
fn to_upper(s: &str) -> (r: String)
    ensures
        r@ == uppercased(s@),
{
    s.to_uppercase()
}

/// The request methods that the transport knows.
#[derive(Debug, Clone, Copy, PartialEq, Eq, Hash)]
pub enum Method {
    /// `GET`
    Get,
    /// `POST`
    Post,
    /// `PUT`
    Put,
    /// `DELETE`
    Delete,
    /// `HEAD`
    Head,
    /// `OPTIONS`
    Options,
    /// `CONNECT`
    Connect,
    /// `PATCH`
    Patch,
    /// `TRACE`
    Trace,
}

impl Method {
    /// The method's name, in upper case.
    pub open spec fn name(self) -> Seq<char> {
        match self {
            Method::Get => "GET"@,
            Method::Post => "POST"@,
            Method::Put => "PUT"@,
            Method::Delete => "DELETE"@,
            Method::Head => "HEAD"@,
            Method::Options => "OPTIONS"@,
            Method::Connect => "CONNECT"@,
            Method::Patch => "PATCH"@,
            Method::Trace => "TRACE"@,
        }
    }

    /// The method with the given name, letter for letter.
    pub open spec fn named(name: Seq<char>) -> Option<Method> {
        if name == "GET"@ {
            Some(Method::Get)
        } else if name == "POST"@ {
            Some(Method::Post)
        } else if name == "PUT"@ {
            Some(Method::Put)
        } else if name == "DELETE"@ {
            Some(Method::Delete)
        } else if name == "HEAD"@ {
            Some(Method::Head)
        } else if name == "OPTIONS"@ {
            Some(Method::Options)
        } else if name == "CONNECT"@ {
            Some(Method::Connect)
        } else if name == "PATCH"@ {
            Some(Method::Patch)
        } else if name == "TRACE"@ {
            Some(Method::Trace)
        } else {
            None
        }
    }

    /// The method's name, in upper case.
    pub fn as_str(&self) -> (r: &'static str)
        ensures
            r@ == self.name(),
    {
        match self {
            Method::Get => "GET",
            Method::Post => "POST",
            Method::Put => "PUT",
            Method::Delete => "DELETE",
            Method::Head => "HEAD",
            Method::Options => "OPTIONS",
            Method::Connect => "CONNECT",
            Method::Patch => "PATCH",
            Method::Trace => "TRACE",
        }
    }

    /// The method with the given upper-case name.
    pub fn from_upper(name: &str) -> (r: Option<Method>)
        ensures
            r == Method::named(name@),
    {
        if str_eq(name, "GET") {
            Some(Method::Get)
        } else if str_eq(name, "POST") {
            Some(Method::Post)
        } else if str_eq(name, "PUT") {
            Some(Method::Put)
        } else if str_eq(name, "DELETE") {
            Some(Method::Delete)
        } else if str_eq(name, "HEAD") {
            Some(Method::Head)
        } else if str_eq(name, "OPTIONS") {
            Some(Method::Options)
        } else if str_eq(name, "CONNECT") {
            Some(Method::Connect)
        } else if str_eq(name, "PATCH") {
            Some(Method::Patch)
        } else if str_eq(name, "TRACE") {
            Some(Method::Trace)
        } else {
            None
        }
    }

    /// The method that a name stands for once it is put in upper case.
    pub fn parse(name: &str) -> (r: Option<Method>)
        ensures
            r == Method::named(uppercased(name@)),
    {
        let upper = to_upper(name);
        Method::from_upper(upper.as_str())
    }
}

/// Every method is found again under its own name.
pub proof fn lemma_method_name_round_trip(method: Method)
    ensures
        Method::named(method.name()) == Some(method),
{
    reveal_strlit("GET");
    reveal_strlit("POST");
    reveal_strlit("PUT");
    reveal_strlit("DELETE");
    reveal_strlit("HEAD");
    reveal_strlit("OPTIONS");
    reveal_strlit("CONNECT");
    reveal_strlit("PATCH");
    reveal_strlit("TRACE");
    assert("GET"@.len() == 3 && "GET"@[0] == 'G');
    assert("POST"@.len() == 4 && "POST"@[0] == 'P');
    assert("PUT"@.len() == 3 && "PUT"@[0] == 'P');
    assert("DELETE"@.len() == 6);
    assert("HEAD"@.len() == 4 && "HEAD"@[0] == 'H');
    assert("OPTIONS"@.len() == 7 && "OPTIONS"@[0] == 'O');
    assert("CONNECT"@.len() == 7 && "CONNECT"@[0] == 'C');
    assert("PATCH"@.len() == 5 && "PATCH"@[0] == 'P');
    assert("TRACE"@.len() == 5 && "TRACE"@[0] == 'T');
}

/// A name stands for at most one method, and that method carries it.
pub proof fn lemma_method_named_is_its_name(name: Seq<char>)
    ensures
        Method::named(name) matches Some(method) ==> method.name() == name,
{
}

/// Why a document describes no request.
#[derive(Debug, Clone, Copy, PartialEq, Eq)]
pub enum RequestFault {
    /// There is no member `method`, or it is no string.
    Method(MemberFault),
    /// The document has the shape of a request, but its member `method`
    /// names no known method.
    UnknownMethod,
    /// There is no member `path`, or it is no string.
    Path(MemberFault),
    /// The member `headers` is neither `null` nor an object of strings.
    Headers,
    /// Two headers have the same name.
    DuplicateHeader,
}

/// Why a request is turned down, in words.
pub open spec fn request_fault_text(fault: RequestFault) -> Seq<char> {
    match fault {
        RequestFault::Method(MemberFault::Missing) => "missing field `method`"@,
        RequestFault::Method(MemberFault::NotText) => "invalid type for `method`: expected a string"@,
        RequestFault::UnknownMethod => "invalid HTTP method"@,
        RequestFault::Path(MemberFault::Missing) => "missing field `path`"@,
        RequestFault::Path(MemberFault::NotText) => "invalid type for `path`: expected a string"@,
        RequestFault::Headers => "invalid type for `headers`: expected a map of strings"@,
        RequestFault::DuplicateHeader => "duplicate header"@,
    }
}

impl RequestFault {
    /// Why the request is turned down, in words.
    pub fn describe(&self) -> (r: &'static str)
        ensures
            r@ == request_fault_text(*self),
    {
        match self {
            RequestFault::Method(MemberFault::Missing) => "missing field `method`",
            RequestFault::Method(MemberFault::NotText) => {
                "invalid type for `method`: expected a string"
            },
            RequestFault::UnknownMethod => "invalid HTTP method",
            RequestFault::Path(MemberFault::Missing) => "missing field `path`",
            RequestFault::Path(MemberFault::NotText) => "invalid type for `path`: expected a string",
            RequestFault::Headers => "invalid type for `headers`: expected a map of strings",
            RequestFault::DuplicateHeader => "duplicate header",
        }
    }
}

/// Why a text describes no request.
#[derive(Debug, PartialEq, Eq)]
pub enum RequestError {
    /// The text is no JSON document; holds the reader's message.
    Document(String),
    /// The document describes no request.
    Shape(RequestFault),
}

/// One outbound call.
#[derive(Debug, PartialEq, Eq)]
pub struct RequestDescription {
    /// Request method
    pub method: Method,
    /// Request path
    pub path: String,
    /// Request body, if any
    pub data: Option<Json>,
    /// Request headers, by name and value
    pub headers: Vec<(String, String)>,
}

/// A [`RequestDescription`] with its strings as sequences of characters.
pub struct RequestView {
    pub method: Method,
    pub path: Seq<char>,
    pub data: Option<Json>,
    pub headers: Seq<(Seq<char>, Seq<char>)>,
}

/// Whether no two headers have the same name.
pub open spec fn distinct_names(headers: Seq<(Seq<char>, Seq<char>)>) -> bool {
    forall|i: int, j: int| 0 <= i < j < headers.len() ==> headers[i].0 != headers[j].0
}

/// Whether every member is a string.
pub open spec fn all_text(members: Seq<(String, Json)>) -> bool {
    forall|i: int| 0 <= i < members.len() ==> (#[trigger] members[i]).1 is Str
}

/// The members of an object of strings, as names and values.
pub open spec fn text_pairs(members: Seq<(String, Json)>) -> Seq<(Seq<char>, Seq<char>)> {
    Seq::new(members.len(), |i: int| (members[i].0@, members[i].1->Str_0@))
}

/// The headers that the member `headers` stands for: none where it is
/// absent or `null`.
pub open spec fn headers_of(value: Option<Json>) -> Result<
    Seq<(Seq<char>, Seq<char>)>,
    RequestFault,
> {
    match value {
        None => Ok(Seq::empty()),
        Some(Json::Null) => Ok(Seq::empty()),
        Some(Json::Object(members)) => if !all_text(members@) {
            Err(RequestFault::Headers)
        } else if !distinct_names(text_pairs(members@)) {
            Err(RequestFault::DuplicateHeader)
        } else {
            Ok(text_pairs(members@))
        },
        Some(_) => Err(RequestFault::Headers),
    }
}

/// The body that the member `data` stands for: none where it is absent or
/// `null`.
pub open spec fn data_of(value: Option<Json>) -> Option<Json> {
    match value {
        None => None,
        Some(Json::Null) => None,
        Some(body) => Some(body),
    }
}

/// The request that a document describes. Its shape is read first: the
/// members `method` and `path` as texts, in that order, then `headers`.
/// Only a document of the right shape is asked which method it names.
pub open spec fn request_of(document: Json) -> Result<RequestView, RequestFault> {
    match document.member_text("method"@) {
        Err(fault) => Err(RequestFault::Method(fault)),
        Ok(name) => match document.member_text("path"@) {
            Err(fault) => Err(RequestFault::Path(fault)),
            Ok(path) => match headers_of(document.member("headers"@)) {
                Err(fault) => Err(fault),
                Ok(headers) => match Method::named(uppercased(name)) {
                    None => Err(RequestFault::UnknownMethod),
                    Some(method) => Ok(
                        RequestView {
                            method,
                            path,
                            data: data_of(document.member("data"@)),
                            headers,
                        },
                    ),
                },
            },
        },
    }
}

/// The request that the bytes of a text describe.
pub open spec fn request_of_text(bytes: Seq<u8>) -> Result<RequestView, Result<RequestFault, Seq<char>>> {
    match json_document(bytes) {
        Err(message) => Err(Err(message)),
        Ok(document) => match request_of(document) {
            Ok(request) => Ok(request),
            Err(fault) => Err(Ok(fault)),
        },
    }
}

/// The text of a member that was taken out of an object.
fn text_of_member(value: Option<Json>) -> (r: Result<String, MemberFault>)
    ensures
        match r {
            Ok(text) => value matches Some(Json::Str(s)) && s@ == text@,
            Err(MemberFault::Missing) => value is None,
            Err(MemberFault::NotText) => value is Some && !(value->Some_0 is Str),
        },
{
    match value {
        None => Err(MemberFault::Missing),
        Some(Json::Str(text)) => Ok(text),
        Some(_) => Err(MemberFault::NotText),
    }
}

/// Whether a header of that name is in the list.
fn has_name(headers: &Vec<(String, String)>, name: &str) -> (r: bool)
    ensures
        r == exists|i: int| 0 <= i < headers@.len() && (#[trigger] headers@[i]).0@ == name@,
{
    let mut i: usize = 0;
    while i < headers.len()
        invariant
            i <= headers.len(),
            forall|k: int| 0 <= k < i ==> (#[trigger] headers@[k]).0@ != name@,
        decreases headers.len() - i,
    {
        if str_eq(headers[i].0.as_str(), name) {
            return true;
        }
        i += 1;
    }
    false
}

/// Reads the headers from the member `headers`, in the members' order.
fn read_headers(value: Option<Json>) -> (r: Result<Vec<(String, String)>, RequestFault>)
    ensures
        match r {
            Ok(headers) => headers_of(value) == Ok::<Seq<(Seq<char>, Seq<char>)>, RequestFault>(
                headers_view(headers@),
            ),
            Err(fault) => headers_of(value) == Err::<Seq<(Seq<char>, Seq<char>)>, RequestFault>(
                fault,
            ),
        },
{
    match value {
        None => {
            assert(headers_view(Seq::<(String, String)>::empty()) =~= Seq::empty());
            Ok(Vec::new())
        },
        Some(Json::Null) => {
            assert(headers_view(Seq::<(String, String)>::empty()) =~= Seq::empty());
            Ok(Vec::new())
        },
        Some(Json::Object(members)) => {
            let ghost all = members@;
            let mut members = members;
            let mut headers: Vec<(String, String)> = Vec::new();
            let mut duplicate = false;
            while members.len() > 0
                invariant
                    value matches Some(Json::Object(m)) && m@ == all,
                    headers.len() + members.len() == all.len(),
                    members@ == all.skip(headers.len() as int),
                    forall|k: int| 0 <= k < headers.len() ==> (#[trigger] all[k]).1 is Str,
                    headers_view(headers@) == text_pairs(all).take(headers.len() as int),
                    duplicate == !distinct_names(headers_view(headers@)),
                decreases members.len(),
            {
                let ghost done = headers.len() as int;
                let (name, item) = members.remove(0);
                assert(members@ =~= all.skip(done + 1));
                assert(all[done] == (name, item));
                match item {
                    Json::Str(text) => {
                        let seen = has_name(&headers, name.as_str());
                        let ghost prior = headers@;
                        let ghost before = headers_view(headers@);
                        headers.push((name, text));
                        proof {
                            let after = headers_view(headers@);
                            assert(after =~= before.push((name@, text@)));
                            assert(after =~= text_pairs(all).take(done + 1));
                            if seen {
                                let i = choose|i: int|
                                    0 <= i < prior.len() && (#[trigger] prior[i]).0@ == name@;
                                assert(after[i].0 == after[done].0);
                            } else if distinct_names(before) {
                                assert forall|i: int, j: int|
                                    0 <= i < j < after.len() implies after[i].0 != after[j].0 by {
                                    if j < done {
                                        assert(before[i].0 != before[j].0);
                                    } else {
                                        assert(prior[i].0@ != name@);
                                    }
                                }
                            } else {
                                let (i, j) = choose|i: int, j: int|
                                    0 <= i < j < before.len() && before[i].0 == before[j].0;
                                assert(after[i].0 == after[j].0);
                            }
                        }
                        duplicate = duplicate || seen;
                    },
                    _ => {
                        assert(!all_text(all));
                        return Err(RequestFault::Headers);
                    },
                }
            }
            assert(all_text(all));
            assert(text_pairs(all).take(all.len() as int) =~= text_pairs(all));
            if duplicate {
                Err(RequestFault::DuplicateHeader)
            } else {
                Ok(headers)
            }
        },
        Some(_) => Err(RequestFault::Headers),
    }
}

/// The names and values of a list of headers.
pub open spec fn headers_view(headers: Seq<(String, String)>) -> Seq<(Seq<char>, Seq<char>)> {
    Seq::new(headers.len(), |i: int| (headers[i].0@, headers[i].1@))
}

impl View for RequestDescription {
    type V = RequestView;

    open spec fn view(&self) -> RequestView {
        RequestView {
            method: self.method,
            path: self.path@,
            data: self.data,
            headers: headers_view(self.headers@),
        }
    }
}

impl RequestDescription {
    /// Whether no two headers have the same name.
    pub open spec fn well_formed(&self) -> bool {
        distinct_names(self@.headers)
    }

    /// The request that a document describes.
    pub fn from_json(document: Json) -> (r: Result<RequestDescription, RequestFault>)
        ensures
            match r {
                Ok(request) => request_of(document) == Ok::<RequestView, RequestFault>(request@)
                    && request.well_formed(),
                Err(fault) => request_of(document) == Err::<RequestView, RequestFault>(fault),
            },
    {
        proof {
            reveal_strlit("method");
            reveal_strlit("path");
            reveal_strlit("data");
            reveal_strlit("headers");
            assert("method"@[0] == 'm' && "path"@[0] == 'p' && "data"@[0] == 'd' && "headers"@[0]
                == 'h');
        }
        let mut members = match document {
            Json::Object(members) => members,
            _ => {
                return Err(RequestFault::Method(MemberFault::Missing));
            },
        };
        let name = match text_of_member(Json::take_member(&mut members, "method")) {
            Ok(name) => name,
            Err(fault) => {
                return Err(RequestFault::Method(fault));
            },
        };
        let path = match text_of_member(Json::take_member(&mut members, "path")) {
            Ok(path) => path,
            Err(fault) => {
                return Err(RequestFault::Path(fault));
            },
        };
        let headers = match read_headers(Json::take_member(&mut members, "headers")) {
            Ok(headers) => headers,
            Err(fault) => {
                return Err(fault);
            },
        };
        let data = match Json::take_member(&mut members, "data") {
            None => None,
            Some(Json::Null) => None,
            Some(body) => Some(body),
        };
        let method = match Method::parse(name.as_str()) {
            Some(method) => method,
            None => {
                return Err(RequestFault::UnknownMethod);
            },
        };
        Ok(RequestDescription { method, path, data, headers })
    }

    /// The request that a text describes.
    pub fn parse(text: &str) -> (r: Result<RequestDescription, RequestError>)
        ensures
            match r {
                Ok(request) => request_of_text(text.spec_bytes()) == Ok::<
                    RequestView,
                    Result<RequestFault, Seq<char>>,
                >(request@) && request.well_formed(),
                Err(RequestError::Document(message)) => request_of_text(text.spec_bytes()) == Err::<
                    RequestView,
                    Result<RequestFault, Seq<char>>,
                >(Err(message@)),
                Err(RequestError::Shape(fault)) => request_of_text(text.spec_bytes()) == Err::<
                    RequestView,
                    Result<RequestFault, Seq<char>>,
                >(Ok(fault)),
            },
    {
        match Json::parse(text.as_bytes()) {
            Err(message) => Err(RequestError::Document(message)),
            Ok(document) => match RequestDescription::from_json(document) {
                Ok(request) => Ok(request),
                Err(fault) => Err(RequestError::Shape(fault)),
            },
        }
    }
}

} // verus!
