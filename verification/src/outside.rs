//! Declarations of the outside types that the library carries through its
//! logic without looking inside them.

use vstd::prelude::*;

use reqwest::multipart::Form as ReqwestForm;
use reqwest::multipart::Part as ReqwestPart;
use reqwest::Client as ReqwestClient;
use reqwest::Error as ReqwestError;
use serde_json::Error as JsonError;
use http::Method as HttpMethod;

verus! {

/// `reqwest::Client`: the connection pool that sends requests.
#[verifier::external_type_specification]
#[verifier::external_body]
pub struct ExReqwestClient(ReqwestClient);

/// `reqwest::ClientBuilder`: the configuration a `reqwest::Client` is built from.
#[verifier::external_type_specification]
#[verifier::external_body]
pub struct ExReqwestClientBuilder(reqwest::ClientBuilder);

/// `reqwest::Error`: an error raised while building a client or part, or while sending.
#[verifier::external_type_specification]
#[verifier::external_body]
pub struct ExReqwestError(ReqwestError);

/// `reqwest::multipart::Form`: a multipart/form-data body.
#[verifier::external_type_specification]
#[verifier::external_body]
pub struct ExReqwestForm(ReqwestForm);

/// `reqwest::multipart::Part`: one field of a multipart body.
#[verifier::external_type_specification]
#[verifier::external_body]
pub struct ExReqwestPart(ReqwestPart);

/// `serde_json::Error`: an error raised while serializing or parsing JSON.
#[verifier::external_type_specification]
#[verifier::external_body]
pub struct ExJsonError(JsonError);

/// `serde_json::Value`: a JSON document.
#[verifier::external_type_specification]
#[verifier::external_body]
pub struct ExJsonValue(serde_json::Value);

/// `http::Method`: an HTTP method as the HTTP layer names it.
#[verifier::external_type_specification]
#[verifier::external_body]
pub struct ExHttpMethod(HttpMethod);

} // verus!
