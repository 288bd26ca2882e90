//! The collection of a user: its `PROPFIND` answer, listing the calendars
//! when the depth asks for them.

use vstd::prelude::*;
use vstd::string::*;

use crate::entity::{CalendarModel, UserModel};
use crate::http::{BAD_REQUEST, OK};
use crate::logic::response::{
    calendar_nodes, multistatus_nodes, name_only_nodes, propstat_nodes, propstats_nodes,
    response_nodes, responses_nodes, CalendarProperty, MultiStatusResponse, NameOnlyProperty,
    PropStat, Property, ResourceType, Response,
};
use crate::serialization::xml::{empty_node, xml_document, SerializeXml, XmlNode};
use crate::util::{status_error, EndpointError};
use crate::webdav::caldav::render_multistatus;
use crate::webdav::xml::webdav_namespace_attrs;

verus! {

broadcast use vstd::seq::group_seq_axioms;

/// Whether a depth asks for the calendars of the collection.
pub open spec fn spec_wants_calendars(depth: i32) -> bool {
    depth >= 1
}

/// Whether a depth asks for the calendars of the collection.
pub fn wants_calendars(depth: i32) -> (b: bool)
    ensures
        b == spec_wants_calendars(depth),
{
    depth >= 1
}

/// The property groups of a list of calendars, one per calendar, each with
/// the calendar's title and an empty description.
pub open spec fn calendars_propstats(cals: Seq<CalendarModel>) -> Seq<XmlNode>
    decreases cals.len(),
{
    if cals.len() == 0 {
        Seq::empty()
    } else {
        calendars_propstats(cals.drop_last()) + propstat_nodes(
            OK,
            calendar_nodes(cals.last().title@, Seq::empty()),
        )
    }
}

/// The calendars of a list that the user `owner` owns, in order.
pub open spec fn owned_by(owner: u128, cals: Seq<CalendarModel>) -> Seq<CalendarModel>
    decreases cals.len(),
{
    if cals.len() == 0 {
        Seq::empty()
    } else if cals.last().owner == owner {
        owned_by(owner, cals.drop_last()).push(cals.last())
    } else {
        owned_by(owner, cals.drop_last())
    }
}

/// The events of a user collection's multistatus document.
pub open spec fn collection_document(display_name: Seq<char>, cals: Seq<CalendarModel>) -> Seq<
    XmlNode,
> {
    multistatus_nodes(
        webdav_namespace_attrs(),
        response_nodes(
            "/caldav/"@,
            propstat_nodes(OK, name_only_nodes(seq![empty_node("d:collection"@)], display_name))
                + calendars_propstats(cals),
        ),
    )
}

/// Property groups that all carry the status `200 OK`, one per property
/// list, in order.
pub open spec fn ok_propstats(props: Seq<Seq<XmlNode>>) -> Seq<XmlNode>
    decreases props.len(),
{
    if props.len() == 0 {
        Seq::empty()
    } else {
        ok_propstats(props.drop_last()) + propstat_nodes(OK, props.last())
    }
}

/// Property groups of status 200 for a list that starts with `first`.
pub proof fn lemma_ok_propstats_cons(first: Seq<XmlNode>, rest: Seq<Seq<XmlNode>>)
    ensures
        ok_propstats(seq![first] + rest) == propstat_nodes(OK, first) + ok_propstats(rest),
    decreases rest.len(),
{
    if rest.len() == 0 {
        let one = seq![first];
        assert(seq![first] + rest =~= one);
        assert(one.drop_last() =~= Seq::<Seq<XmlNode>>::empty());
        assert(one.last() == first);
        assert(ok_propstats(one.drop_last()) == Seq::<XmlNode>::empty());
        assert(ok_propstats(one) =~= propstat_nodes(OK, first));
        assert(ok_propstats(rest) == Seq::<XmlNode>::empty());
        assert(propstat_nodes(OK, first) + ok_propstats(rest) =~= propstat_nodes(OK, first));
    } else {
        assert((seq![first] + rest).drop_last() =~= seq![first] + rest.drop_last());
        assert((seq![first] + rest).last() == rest.last());
        lemma_ok_propstats_cons(first, rest.drop_last());
        assert(propstat_nodes(OK, first) + ok_propstats(rest.drop_last()) + propstat_nodes(
            OK,
            rest.last(),
        ) =~= propstat_nodes(OK, first) + (ok_propstats(rest.drop_last()) + propstat_nodes(
            OK,
            rest.last(),
        )));
    }
}

/// The property list each listed calendar is described by.
pub open spec fn calendar_props(cals: Seq<CalendarModel>) -> Seq<Seq<XmlNode>> {
    cals.map_values(|c: CalendarModel| calendar_nodes(c.title@, Seq::empty()))
}

proof fn lemma_calendars_propstats_ok(cals: Seq<CalendarModel>)
    ensures
        calendars_propstats(cals) == ok_propstats(calendar_props(cals)),
    decreases cals.len(),
{
    if cals.len() > 0 {
        assert(calendar_props(cals).drop_last() =~= calendar_props(cals.drop_last()));
        lemma_calendars_propstats_ok(cals.drop_last());
    } else {
        assert(calendar_props(cals) =~= Seq::<Seq<XmlNode>>::empty());
    }
}

/// Every property group of a user collection's `PROPFIND` document, the
/// collection's own and each listed calendar's, carries the status
/// `200 OK`: the single response holds one group per property list, the
/// collection's first and then one per calendar, each built as a group of
/// status 200.
pub proof fn lemma_collection_statuses_ok(display_name: Seq<char>, cals: Seq<CalendarModel>)
    ensures
        exists|props: Seq<Seq<XmlNode>>|
            props.len() == cals.len() + 1 && #[trigger] multistatus_nodes(
                webdav_namespace_attrs(),
                response_nodes("/caldav/"@, ok_propstats(props)),
            ) == collection_document(display_name, cals),
{
    let first = name_only_nodes(seq![empty_node("d:collection"@)], display_name);
    let props = seq![first] + calendar_props(cals);
    lemma_ok_propstats_cons(first, calendar_props(cals));
    lemma_calendars_propstats_ok(cals);
    assert(ok_propstats(props) == propstat_nodes(OK, first) + calendars_propstats(cals));
    assert(multistatus_nodes(webdav_namespace_attrs(), response_nodes("/caldav/"@, ok_propstats(props)))
        == collection_document(display_name, cals));
}

/// The multistatus answer for a user collection: the collection named after
/// the user, followed by those of the given calendars that `owner` owns.
pub fn collection_body(user: &UserModel, owner: u128, calendars: &Vec<CalendarModel>) -> (b:
    MultiStatusResponse)
    ensures
        b.writable(),
        multistatus_nodes(webdav_namespace_attrs(), responses_nodes(b.responses@))
            == collection_document(user.display_name@, owned_by(owner, calendars@)),
{
    let mut properties: Vec<PropStat> = Vec::new();
    properties.push(
        PropStat {
            status_code: OK,
            prop: Property::NameOnly(
                NameOnlyProperty {
                    display_name: user.display_name.clone(),
                    resource_type: ResourceType::Collection,
                },
            ),
        },
    );
    let ghost head = propstat_nodes(
        OK,
        name_only_nodes(seq![empty_node("d:collection"@)], user.display_name@),
    );
    proof {
        reveal_with_fuel(propstats_nodes, 2);
        assert(properties@.drop_last() =~= Seq::<PropStat>::empty());
        assert(propstats_nodes(properties@) =~= head);
        assert(calendars@.take(0) =~= Seq::<CalendarModel>::empty());
        assert(owned_by(owner, calendars@.take(0)) =~= Seq::<CalendarModel>::empty());
    }
    let mut i: usize = 0;
    while i < calendars.len()
        invariant
            i <= calendars@.len(),
            propstats_nodes(properties@) == head + calendars_propstats(
                owned_by(owner, calendars@.take(i as int)),
            ),
            forall|j: int| 0 <= j < properties@.len() ==> #[trigger] properties@[j].xml_writable(),
        decreases calendars@.len() - i,
    {
        let ghost before = properties@;
        let ghost t = calendars@.take(i + 1);
        proof {
            assert(t.drop_last() =~= calendars@.take(i as int));
            assert(t.last() == calendars@[i as int]);
        }
        if calendars[i].owner == owner {
            let p = PropStat {
                status_code: OK,
                prop: Property::Calendar(
                    CalendarProperty {
                        display_name: calendars[i].title.clone(),
                        description: String::new(),
                    },
                ),
            };
            properties.push(p);
            proof {
                assert(properties@.drop_last() =~= before);
                let o = owned_by(owner, t);
                assert(o == owned_by(owner, calendars@.take(i as int)).push(t.last()));
                assert(o.drop_last() =~= owned_by(owner, calendars@.take(i as int)));
                assert(p.xml_nodes() =~= propstat_nodes(OK, calendar_nodes(o.last().title@, Seq::empty())));
            }
        } else {
            proof {
                assert(owned_by(owner, t) == owned_by(owner, calendars@.take(i as int)));
            }
        }
        i = i + 1;
    }
    assert(calendars@.take(calendars@.len() as int) =~= calendars@);
    let mut href = String::new();
    href.append("/caldav/");
    let mut responses: Vec<Response> = Vec::new();
    responses.push(Response { href, properties });
    let b = MultiStatusResponse { responses };
    proof {
        reveal_with_fuel(responses_nodes, 2);
        assert(b.responses@.drop_last() =~= Seq::<Response>::empty());
        assert(b.responses@[0].xml_writable());
        assert(multistatus_nodes(webdav_namespace_attrs(), responses_nodes(b.responses@))
            =~= collection_document(user.display_name@, owned_by(owner, calendars@)));
    }
    b
}

/// The calendars listed for a depth: those given when the depth asks for
/// them, none otherwise.
pub open spec fn listed_calendars(depth: i32, cals: Seq<CalendarModel>) -> Seq<CalendarModel> {
    if spec_wants_calendars(depth) {
        cals
    } else {
        Seq::empty()
    }
}

/// Answers `PROPFIND` on a user collection, given the depth the request
/// asked for, the user the path names, the signed-in user `owner` and the
/// calendars fetched for it: a negative depth is refused with 400; otherwise
/// the collection document is written, listing, when the depth is one or
/// more, the calendars that `owner` owns and no other.
pub fn handle_propfind(
    depth: i32,
    user: &UserModel,
    owner: u128,
    calendars: &Vec<CalendarModel>,
) -> (r: Result<Vec<u8>, EndpointError>)
    ensures
        depth < 0 ==> r == Err::<Vec<u8>, EndpointError>(EndpointError::StatusCode(BAD_REQUEST)),
        depth >= 0 ==> r is Ok,
        r matches Ok(b) ==> depth >= 0 && b@ == xml_document(
            false,
            collection_document(
                user.display_name@,
                listed_calendars(depth, owned_by(owner, calendars@)),
            ),
        ),
{
    if depth < 0 {
        return Err(status_error(BAD_REQUEST));
    }
    let none: Vec<CalendarModel> = Vec::new();
    let listed = if wants_calendars(depth) {
        calendars
    } else {
        &none
    };
    proof {
        if !spec_wants_calendars(depth) {
            assert(owned_by(owner, listed@) =~= Seq::<CalendarModel>::empty());
        }
    }
    assert(owned_by(owner, listed@) =~= listed_calendars(depth, owned_by(owner, calendars@)));
    let body = collection_body(user, owner, listed);
    render_multistatus(body)
}

} // verus!
