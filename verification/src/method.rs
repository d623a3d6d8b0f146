//! HTTP methods and their names.

use vstd::prelude::*;
use vstd::utf8::is_ascii_chars;

use http::Method as HttpMethod;

use crate::error::Error;

verus! {

/// The HTTP methods that the client sends.
#[derive(Debug, Clone, Copy, PartialEq, Eq, Structural)]
pub enum Method {
    GET,
    PATCH,
    POST,
    PUT,
    DELETE,
}

/// The canonical (upper-case) name of a method.
pub open spec fn method_name(m: Method) -> Seq<char> {
    match m {
        Method::GET => "GET"@,
        Method::PATCH => "PATCH"@,
        Method::POST => "POST"@,
        Method::PUT => "PUT"@,
        Method::DELETE => "DELETE"@,
    }
}

/// The method whose canonical name is exactly `name`, if there is one.
pub open spec fn method_named(name: Seq<char>) -> Option<Method> {
    if name == "DELETE"@ {
        Some(Method::DELETE)
    } else if name == "GET"@ {
        Some(Method::GET)
    } else if name == "PATCH"@ {
        Some(Method::PATCH)
    } else if name == "POST"@ {
        Some(Method::POST)
    } else if name == "PUT"@ {
        Some(Method::PUT)
    } else {
        None
    }
}

/// What `str::to_uppercase` returns for a string: its upper-case form by
/// Unicode's case mapping.
pub uninterp spec fn unicode_uppercase(s: Seq<char>) -> Seq<char>;

/// A letter `a`..`z` as its capital `A`..`Z`; any other character as it is.
pub open spec fn ascii_upper_char(c: char) -> char {
    if 'a' <= c && c <= 'z' {
        ((c as u32) - 32) as char
    } else {
        c
    }
}

/// A letter `A`..`Z` as its small letter `a`..`z`; any other character as it is.
pub open spec fn ascii_lower_char(c: char) -> char {
    if 'A' <= c && c <= 'Z' {
        ((c as u32) + 32) as char
    } else {
        c
    }
}

/// A string with its ASCII letters capitalised and all else kept.
pub open spec fn ascii_uppercase(s: Seq<char>) -> Seq<char> {
    s.map_values(|c: char| ascii_upper_char(c))
}

/// A string with its ASCII capitals made small and all else kept.
pub open spec fn ascii_lowercase(s: Seq<char>) -> Seq<char> {
    s.map_values(|c: char| ascii_lower_char(c))
}

/// `str::to_uppercase`. Trusted to return the string that `unicode_uppercase`
/// names for its argument. Of Unicode case mapping only its ASCII part is
/// claimed: on a string of ASCII characters, `a`..`z` become `A`..`Z` and every
/// other character is kept.
#[verifier::external_body]
fn to_uppercase(s: &str) -> (r: String)
    ensures
        r@ == unicode_uppercase(s@),
        is_ascii_chars(s@) ==> r@ == ascii_uppercase(s@),
{
    s.to_uppercase()
}

/// Whether two strings hold the same characters.
fn same_text(a: &str, b: &str) -> (r: bool)
    ensures
        r == (a@ == b@),
{
    a.to_owned() == b.to_owned()
}

impl Method {
    /// The canonical name of the method, as `Display` writes it.
    pub fn as_str(&self) -> (r: &'static str)
        ensures
            r@ == method_name(*self),
    {
        match self {
            Method::GET => "GET",
            Method::PATCH => "PATCH",
            Method::POST => "POST",
            Method::PUT => "PUT",
            Method::DELETE => "DELETE",
        }
    }

    /// The method named by an already upper-cased name, or `None` when the
    /// name is not one of the five canonical names.
    pub fn from_uppercase_name(name: &str) -> (r: Option<Method>)
        ensures
            r == method_named(name@),
            r matches Some(m) ==> name@ == method_name(m),
            r is None <==> (name@ != "GET"@ && name@ != "PATCH"@ && name@ != "POST"@
                && name@ != "PUT"@ && name@ != "DELETE"@),
    {
        proof {
            lemma_method_named_exact(name@);
        }
        if same_text(name, "DELETE") {
            Some(Method::DELETE)
        } else if same_text(name, "GET") {
            Some(Method::GET)
        } else if same_text(name, "PATCH") {
            Some(Method::PATCH)
        } else if same_text(name, "POST") {
            Some(Method::POST)
        } else if same_text(name, "PUT") {
            Some(Method::PUT)
        } else {
            None
        }
    }

}

impl<'a> TryFrom<&'a str> for Method {
    type Error = Error;

    /// Parses a method name in any letter case: the name is upper-cased and
    /// must then be one of the canonical names; any other name is refused with
    /// `Error::InvalidMethod` holding the name as given.
    fn try_from(value: &'a str) -> (r: Result<Method, Error>)
        ensures
            r matches Ok(m) ==> unicode_uppercase(value@) == method_name(m),
            r is Err ==> (r matches Err(Error::InvalidMethod(s)) && s@ == value@),
            match method_named(unicode_uppercase(value@)) {
                Some(m) => r == Ok::<Method, Error>(m),
                None => r matches Err(Error::InvalidMethod(s)) && s@ == value@,
            },
            is_ascii_chars(value@) ==> match method_named(ascii_uppercase(value@)) {
                Some(m) => r == Ok::<Method, Error>(m),
                None => r matches Err(Error::InvalidMethod(s)) && s@ == value@,
            },
    {
        let upper = to_uppercase(value);
        proof {
            lemma_method_named_exact(upper@);
        }
        match Method::from_uppercase_name(upper.as_str()) {
            Some(m) => Ok(m),
            None => Err(Error::InvalidMethod(value.to_owned())),
        }
    }
}

/// The generic `TryFrom` law is not claimed: the error carries a fresh
/// `String`, which no spec function can produce. The contract of `try_from`
/// above states the result instead.
impl<'a> vstd::std_specs::convert::TryFromSpecImpl<&'a str> for Method {
    open spec fn obeys_try_from_spec() -> bool {
        false
    }

    open spec fn try_from_spec(v: &'a str) -> Result<Method, Error> {
        vstd::pervasive::arbitrary()
    }
}

/// The `http::Method` that `http::Method::from_bytes` returns for a name.
pub uninterp spec fn http_method_of(name: Seq<char>) -> HttpMethod;

/// `http::Method::from_bytes` on the bytes of a canonical method name. The
/// source maps each of the five names to its standard method, so the call
/// cannot fail on them; the result is trusted to be what `http_method_of`
/// names.
#[verifier::external_body]
fn http_method_from_name(name: &str) -> (r: HttpMethod)
    requires
        method_named(name@) is Some,
    ensures
        r == http_method_of(name@),
{
    HttpMethod::from_bytes(name.as_bytes()).expect("a canonical method name is a valid method")
}

impl From<Method> for HttpMethod {
    /// The HTTP layer's method for a method: the one named by its canonical
    /// name.
    fn from(m: Method) -> (r: HttpMethod)
        ensures
            r == http_method_of(method_name(m)),
    {
        proof {
            lemma_method_name_roundtrip(m);
        }
        http_method_from_name(m.as_str())
    }
}

/// The generic `From` law is not claimed: the result is an outside value that
/// no spec function can build. The contract of `from` above states it.
impl vstd::std_specs::convert::FromSpecImpl<Method> for HttpMethod {
    open spec fn obeys_from_spec() -> bool {
        false
    }

    open spec fn from_spec(v: Method) -> HttpMethod {
        vstd::pervasive::arbitrary()
    }
}

/// A name is accepted exactly when it is one of the five canonical names
/// GET, PATCH, POST, PUT, DELETE, and then it gives the method of that name:
/// every other name, HEAD and OPTIONS among them, is refused.
pub proof fn lemma_method_named_exact(name: Seq<char>)
    ensures
        method_named(name) is Some <==> (name == "GET"@ || name == "PATCH"@ || name == "POST"@
            || name == "PUT"@ || name == "DELETE"@),
        method_named(name) matches Some(m) ==> name == method_name(m),
        name == "GET"@ ==> method_named(name) == Some(Method::GET),
        name == "PATCH"@ ==> method_named(name) == Some(Method::PATCH),
        name == "POST"@ ==> method_named(name) == Some(Method::POST),
        name == "PUT"@ ==> method_named(name) == Some(Method::PUT),
        name == "DELETE"@ ==> method_named(name) == Some(Method::DELETE),
{
    reveal_strlit("GET");
    reveal_strlit("PATCH");
    reveal_strlit("POST");
    reveal_strlit("PUT");
    reveal_strlit("DELETE");
    assert("GET"@.len() == 3 && "PUT"@.len() == 3 && "POST"@.len() == 4);
    assert("PATCH"@.len() == 5 && "DELETE"@.len() == 6);
    assert("GET"@[0] != "PUT"@[0]);
}

/// Parsing a method's canonical name gives the method back, and no two
/// methods share a name.
pub proof fn lemma_method_name_roundtrip(m: Method)
    ensures
        method_named(method_name(m)) == Some(m),
        forall|n: Method| method_name(n) == method_name(m) ==> n == m,
{
    reveal_strlit("GET");
    reveal_strlit("PATCH");
    reveal_strlit("POST");
    reveal_strlit("PUT");
    reveal_strlit("DELETE");
    // The names differ in length, except GET and PUT, which differ in their first letter.
    assert("GET"@.len() == 3 && "PUT"@.len() == 3 && "POST"@.len() == 4);
    assert("PATCH"@.len() == 5 && "DELETE"@.len() == 6);
    assert("GET"@[0] != "PUT"@[0]);
    assert("GET"@ != "PUT"@);
}

/// A string of capitals `A`..`Z` is ASCII, is its own ASCII upper case, and
/// comes back from its ASCII lower case, which is ASCII too.
proof fn lemma_capitals_case_roundtrip(s: Seq<char>)
    requires
        forall|i: int| 0 <= i < s.len() ==> 'A' <= #[trigger] s[i] && s[i] <= 'Z',
    ensures
        is_ascii_chars(s),
        ascii_uppercase(s) == s,
        is_ascii_chars(ascii_lowercase(s)),
        ascii_uppercase(ascii_lowercase(s)) == s,
{
    assert(ascii_uppercase(s) =~= s);
    assert(ascii_uppercase(ascii_lowercase(s)) =~= s);
}

/// A method's name parses back to the method whether it is written in capitals
/// or in small letters: both forms are ASCII, and their ASCII upper case is the
/// canonical name.
pub proof fn lemma_method_name_any_case(m: Method)
    ensures
        is_ascii_chars(method_name(m)),
        method_named(ascii_uppercase(method_name(m))) == Some(m),
        is_ascii_chars(ascii_lowercase(method_name(m))),
        method_named(ascii_uppercase(ascii_lowercase(method_name(m)))) == Some(m),
{
    reveal_strlit("GET");
    reveal_strlit("PATCH");
    reveal_strlit("POST");
    reveal_strlit("PUT");
    reveal_strlit("DELETE");
    lemma_method_name_roundtrip(m);
    lemma_capitals_case_roundtrip(method_name(m));
}

} // verus!
