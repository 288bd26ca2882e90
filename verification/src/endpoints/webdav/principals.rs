//! The principal of a user: its `PROPFIND` answer, with errors that carry
//! a message and a status code.

use vstd::prelude::*;
use vstd::string::*;

use crate::entity::UserModel;
use crate::http::{
    depth_of, opt_bytes, read_depth, DepthError, BAD_REQUEST, FORBIDDEN, INTERNAL_SERVER_ERROR,
    NOT_FOUND,
};
use crate::logic::error::ApiError;
use crate::logic::response::multistatus_nodes;
use crate::serialization::xml::{xml_document, webdav_namespace_attrs, SerializeXml, XmlNode, XmlWriter};
use crate::uid::{parse_uid, uuid_from_str};
use crate::webdav::caldav::depth_nonnegative;
use crate::webdav::principals::{opt_str, principal_body, principal_response};

verus! {

broadcast use vstd::seq::group_seq_axioms;

/// The message and status code of an error.
pub open spec fn api_view(e: ApiError) -> (Seq<char>, u16) {
    (e.report@, e.status_code)
}

/// The view of a result whose error is an [`ApiError`].
pub open spec fn api_result<T>(r: Result<T, ApiError>) -> Result<T, (Seq<char>, u16)> {
    match r {
        Ok(v) => Ok(v),
        Err(e) => Err(api_view(e)),
    }
}

/// The user a path names: 404 when the path has no user segment, 400 with
/// the parser's message when the segment is not a UUID.
pub open spec fn spec_user_id_from_path(param: Option<Seq<char>>) -> Result<u128, (Seq<char>, u16)> {
    match param {
        None => Err(("Coult not find user"@, NOT_FOUND)),
        Some(p) => match uuid_from_str(p) {
            Ok(v) => Ok(v),
            Err(m) => Err((m, BAD_REQUEST)),
        },
    }
}

/// Reads the user named by the `user_id` segment of the path.
pub fn user_id_from_path(param: Option<&str>) -> (r: Result<u128, ApiError>)
    ensures
        api_result(r) == spec_user_id_from_path(opt_str(param)),
{
    match param {
        None => Err(ApiError::new("Coult not find user", NOT_FOUND)),
        Some(p) => match parse_uid(p) {
            Ok(v) => Ok(v),
            Err(m) => Err(ApiError { report: m, status_code: BAD_REQUEST }),
        },
    }
}

/// The error an unreadable `Depth` header raises: 403 when it is missing;
/// 500 with the header or integer error's message otherwise.
pub open spec fn spec_depth_api_error(e: DepthError) -> (Seq<char>, u16) {
    match e {
        DepthError::Missing => ("Invalid `Depth` header"@, FORBIDDEN),
        DepthError::NotText => ("failed to convert header to a str"@, INTERNAL_SERVER_ERROR),
        DepthError::NotNumber(k) => (k.message(), INTERNAL_SERVER_ERROR),
    }
}

/// The error an unreadable `Depth` header raises.
pub fn depth_api_error(e: DepthError) -> (r: ApiError)
    ensures
        api_view(r) == spec_depth_api_error(e),
{
    match e {
        DepthError::Missing => ApiError::new("Invalid `Depth` header", FORBIDDEN),
        DepthError::NotText => ApiError::new("failed to convert header to a str", INTERNAL_SERVER_ERROR),
        DepthError::NotNumber(k) => ApiError::from_report(k.to_string()),
    }
}

/// The events of a user principal's document, with the WebDAV namespaces.
pub open spec fn principal_document(id: u128, display_name: Seq<char>) -> Seq<XmlNode> {
    multistatus_nodes(webdav_namespace_attrs(), principal_response(id, display_name))
}

/// Answers `PROPFIND` on a user principal, given the user the path named (if
/// it exists) and the request's `Depth` header: an unknown user is refused
/// with 404, an unreadable header as [`depth_api_error`] says, a negative
/// depth with 400; otherwise the principal document is written.
pub fn handle_propfind(user: Option<&UserModel>, depth: Option<&[u8]>) -> (r: Result<Vec<u8>, ApiError>)
    ensures
        user is None ==> api_result(r) == Err::<Vec<u8>, (Seq<char>, u16)>(("Could not find user"@, NOT_FOUND)),
        user is Some ==> (depth_of(opt_bytes(depth)) matches Err(e) ==> api_result(r) == Err::<
            Vec<u8>,
            (Seq<char>, u16),
        >(spec_depth_api_error(e))),
        user is Some ==> (depth_of(opt_bytes(depth)) matches Ok(d) && d < 0 ==> api_result(r)
            == Err::<Vec<u8>, (Seq<char>, u16)>(("Invalid `Depth` header"@, BAD_REQUEST))),
        user is Some && depth_nonnegative(opt_bytes(depth)) ==> r is Ok,
        r matches Ok(b) ==> depth_nonnegative(opt_bytes(depth)) && (user matches Some(u) && b@
            == xml_document(false, principal_document(u.id, u.display_name@))),
{
    let user = match user {
        Some(u) => u,
        None => return Err(ApiError::new("Could not find user", NOT_FOUND)),
    };
    let depth = match read_depth(depth) {
        Ok(d) => d,
        Err(e) => return Err(depth_api_error(e)),
    };
    if depth < 0 {
        return Err(ApiError::new("Invalid `Depth` header", BAD_REQUEST));
    }
    let body = principal_body(user);
    let mut writer = XmlWriter::new();
    body.write_xml(&mut writer);
    match writer.into_bytes() {
        Ok(b) => Ok(b),
        Err(_) => Err(ApiError::from_report("Could not write the XML document".to_owned())),
    }
}

} // verus!
