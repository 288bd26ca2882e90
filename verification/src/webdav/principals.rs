//! The principal of a user: its `PROPFIND` answer.

use vstd::prelude::*;
use vstd::string::*;

use crate::entity::UserModel;
use crate::http::{depth_of, opt_bytes, read_depth, BAD_REQUEST, NOT_FOUND, OK};
use crate::logic::response::{
    multistatus_nodes, propstat_nodes, response_nodes, responses_nodes, user_nodes,
    MultiStatusResponse, PropStat, Property, Response, UserProperty,
};
use crate::serialization::xml::{xml_document, SerializeXml, XmlNode};
use crate::uid::{parse_uid, uid_hyphenated, uid_text, uuid_from_str};
use crate::util::{depth_error, spec_depth_error, status_error, EndpointError};
use crate::webdav::caldav::{depth_nonnegative, render_multistatus};
use crate::webdav::users::{lemma_ok_propstats_cons, ok_propstats};
use crate::webdav::xml::webdav_namespace_attrs;

verus! {

broadcast use vstd::seq::group_seq_axioms;

/// The view of an optional text.
pub open spec fn opt_str(s: Option<&str>) -> Option<Seq<char>> {
    match s {
        Some(v) => Some(v@),
        None => None,
    }
}

/// The user a path names: 404 when the path has no user segment, 400 when
/// the segment is not a UUID.
pub open spec fn spec_user_id_from_path(param: Option<Seq<char>>) -> Result<u128, EndpointError> {
    match param {
        None => Err(EndpointError::StatusCode(NOT_FOUND)),
        Some(p) => match uuid_from_str(p) {
            Ok(v) => Ok(v),
            Err(_) => Err(EndpointError::StatusCode(BAD_REQUEST)),
        },
    }
}

/// Reads the user named by the `user_id` segment of the path.
pub fn user_id_from_path(param: Option<&str>) -> (r: Result<u128, EndpointError>)
    ensures
        r == spec_user_id_from_path(opt_str(param)),
{
    match param {
        None => Err(status_error(NOT_FOUND)),
        Some(p) => match parse_uid(p) {
            Ok(v) => Ok(v),
            Err(_) => Err(status_error(BAD_REQUEST)),
        },
    }
}

/// The calendar home of a user: `/caldav/users/<id>`.
pub open spec fn calendar_home_path(id: u128) -> Seq<char> {
    "/caldav/users/"@ + uid_hyphenated(id)
}

/// The principal URL of a user: `/caldav/principals/users/<id>`.
pub open spec fn principal_url(id: u128) -> Seq<char> {
    "/caldav/principals/users/"@ + uid_hyphenated(id)
}

/// The events of the response for a user principal.
pub open spec fn principal_response(id: u128, display_name: Seq<char>) -> Seq<XmlNode> {
    response_nodes(
        "/caldav/"@,
        propstat_nodes(
            OK,
            user_nodes(display_name, calendar_home_path(id), principal_url(id), principal_url(id)),
        ),
    )
}

/// The events of a user principal's multistatus document.
pub open spec fn principal_document(id: u128, display_name: Seq<char>) -> Seq<XmlNode> {
    multistatus_nodes(webdav_namespace_attrs(), principal_response(id, display_name))
}

/// The property group of a user principal's `PROPFIND` document carries the
/// status `200 OK`: its single response holds one group, of status 200.
pub proof fn lemma_principal_status_ok(id: u128, display_name: Seq<char>)
    ensures
        exists|p: Seq<XmlNode>|
            #[trigger] multistatus_nodes(
                webdav_namespace_attrs(),
                response_nodes("/caldav/"@, ok_propstats(seq![p])),
            ) == principal_document(id, display_name),
{
    let p = user_nodes(display_name, calendar_home_path(id), principal_url(id), principal_url(id));
    lemma_ok_propstats_cons(p, Seq::empty());
    assert(seq![p] + Seq::<Seq<XmlNode>>::empty() =~= seq![p]);
    assert(ok_propstats(Seq::<Seq<XmlNode>>::empty()) == Seq::<XmlNode>::empty());
    assert(propstat_nodes(OK, p) + Seq::<XmlNode>::empty() =~= propstat_nodes(OK, p));
    assert(multistatus_nodes(webdav_namespace_attrs(), response_nodes("/caldav/"@, ok_propstats(seq![p])))
        == principal_document(id, display_name));
}

/// The multistatus answer for a user principal.
pub fn principal_body(user: &UserModel) -> (b: MultiStatusResponse)
    ensures
        b.writable(),
        responses_nodes(b.responses@) == principal_response(user.id, user.display_name@),
{
    let id = uid_text(user.id);
    let mut home = String::new();
    home.append("/caldav/users/");
    home.append(id.as_str());
    let mut principal = String::new();
    principal.append("/caldav/principals/users/");
    principal.append(id.as_str());
    let mut current = String::new();
    current.append("/caldav/principals/users/");
    current.append(id.as_str());
    let mut href = String::new();
    href.append("/caldav/");
    let prop = UserProperty {
        display_name: user.display_name.clone(),
        calendar_home_set: home,
        principal,
        current_user_principal: current,
    };
    let mut properties: Vec<PropStat> = Vec::new();
    properties.push(PropStat { status_code: OK, prop: Property::User(prop) });
    let mut responses: Vec<Response> = Vec::new();
    responses.push(Response { href, properties });
    let b = MultiStatusResponse { responses };
    proof {
        reveal_with_fuel(crate::logic::response::propstats_nodes, 2);
        reveal_with_fuel(crate::logic::response::responses_nodes, 2);
        assert(b.responses@[0].properties@.drop_last() =~= Seq::<PropStat>::empty());
        assert(b.responses@.drop_last() =~= Seq::<Response>::empty());
        assert(b.responses@[0].properties@[0].xml_writable());
        assert(b.responses@[0].xml_writable());
        assert(responses_nodes(b.responses@) =~= principal_response(user.id, user.display_name@));
    }
    b
}

/// Whether `bytes` is the principal document of the user.
pub open spec fn is_principal_answer(user: UserModel, bytes: Seq<u8>) -> bool {
    bytes == xml_document(false, principal_document(user.id, user.display_name@))
}

/// Answers `PROPFIND` on a user principal, given the user the path named (if
/// it exists) and the request's `Depth` header: an unknown user is refused
/// with 404, an unreadable header as [`depth_error`] says, a negative depth
/// with 400; otherwise the principal document is written.
pub fn handle_propfind(user: Option<&UserModel>, depth: Option<&[u8]>) -> (r: Result<
    Vec<u8>,
    EndpointError,
>)
    ensures
        user is None ==> r == Err::<Vec<u8>, EndpointError>(EndpointError::StatusCode(NOT_FOUND)),
        user is Some ==> (depth_of(opt_bytes(depth)) matches Err(e) ==> r == Err::<
            Vec<u8>,
            EndpointError,
        >(spec_depth_error(e))),
        user is Some ==> (depth_of(opt_bytes(depth)) matches Ok(d) && d < 0 ==> r == Err::<
            Vec<u8>,
            EndpointError,
        >(EndpointError::StatusCode(BAD_REQUEST))),
        user is Some && depth_nonnegative(opt_bytes(depth)) ==> r is Ok,
        r matches Ok(b) ==> depth_nonnegative(opt_bytes(depth)) && (user matches Some(u)
            && is_principal_answer(*u, b@)),
{
    let user = match user {
        Some(u) => u,
        None => return Err(status_error(NOT_FOUND)),
    };
    let depth = match read_depth(depth) {
        Ok(d) => d,
        Err(e) => return Err(depth_error(e)),
    };
    if depth < 0 {
        return Err(status_error(BAD_REQUEST));
    }
    let body = principal_body(user);
    render_multistatus(body)
}

} // verus!
