//! Properties of the bindings as a whole: what one conversion undoes of another,
//! and what a transport or SSE handle gives out only once.
use vstd::prelude::*;
use crate::error::BindingError;
use crate::json::{is_object, keys_sorted, members_sorted, JsonTree};
use crate::model::capabilities::{
    capabilities_from_core, capabilities_to_core, experimental_read, js_capabilities_wf,
    JsClientCapabilitiesView,
};
use crate::model::JsImplementation;
use crate::protocol::{
    capabilities_wf, experimental_from_tree, experimental_tree, experimental_wf, is_object_of_objects, lemma_experimental_from_tree_wf,
    lemma_experimental_tree_wf, nested_sorted, ClientCapabilitiesView, ExperimentalTree,
};
use crate::transport::{kind_named, Connection, connection_of, empty_slot, slot_kind, transport_from_parts, JsTransport, JsTransportEnum, JsTransportInner};

verus! {

/// Experimental capabilities written as JSON read back as the same capabilities.
pub proof fn experimental_json_round_trip(ev: ExperimentalTree)
    requires
        experimental_wf(ev),
    ensures
        experimental_read(experimental_tree(ev)) == ev,
{
    let t = experimental_tree(ev);
    assert(is_object_of_objects(t));
    assert(experimental_from_tree(t)->0 =~= ev);
}

/// A JSON object of objects whose names and settings are sorted, read as
/// experimental capabilities and written back as JSON, is the same JSON value.
pub proof fn experimental_json_canonical(t: JsonTree)
    requires
        is_object_of_objects(t),
        nested_sorted(t),
    ensures
        experimental_tree(experimental_read(t)) == t,
{
    lemma_experimental_from_tree_wf(t);
    let back = experimental_tree(experimental_read(t));
    assert forall|i: int| 0 <= i < t->Object_0.len() implies #[trigger] back->Object_0[i]
        == t->Object_0[i] by {
        assert(is_object(t->Object_0[i].1));
    }
    assert(back->Object_0 =~= t->Object_0);
}

/// Client capabilities converted to the protocol's form and back are the same
/// exactly when their sampling settings are absent or an object: other sampling
/// settings are dropped.
pub proof fn client_capabilities_round_trip(c: JsClientCapabilitiesView)
    requires
        experimental_wf(c.experimental),
    ensures
        capabilities_from_core(capabilities_to_core(c)) == c <==> (c.sampling is None || is_object(
            c.sampling->0,
        )),
{
    let back = capabilities_from_core(capabilities_to_core(c));
    if c.sampling is Some && !is_object(c.sampling->0) {
        assert(back.sampling is None);
    }
}

/// The protocol's client capabilities converted to the JavaScript form and back
/// are the same exactly when they state experimental and roots capabilities:
/// absent ones come back present and empty.
pub proof fn core_capabilities_round_trip(c: ClientCapabilitiesView)
    requires
        capabilities_wf(c),
    ensures
        capabilities_to_core(capabilities_from_core(c)) == c <==> (c.experimental is Some
            && c.roots is Some),
{
    let back = capabilities_to_core(capabilities_from_core(c));
    if c.sampling is Some {
        assert(back.sampling->0 =~= c.sampling->0);
    }
    if c.experimental is Some && c.roots is Some {
        assert(back.roots->0 == c.roots->0);
    }
}

/// Implementation info converted to the protocol's form and back is the same.
pub proof fn implementation_round_trip(x: JsImplementation, y: JsImplementation)
    requires
        y.protocol_form() == x.protocol_form(),
    ensures
        y == x,
{
}

/// The transport that taking its connection leaves: the same kind, no slot.
pub open spec fn taken<T, I, S>(t: JsTransport<T, I, S>) -> JsTransport<T, I, S> {
    JsTransport { kind: t.kind, inner: None }
}

/// A transport gives out its connection once: serving over it again fails with
/// "Transport not initialized".
pub proof fn transport_serves_once<T, I, S>(t: JsTransport<T, I, S>)
    ensures
        connection_of(taken(t).inner) == Err::<crate::transport::Connection<T, I, S>, BindingError>(
            BindingError::TransportNotInitialized,
        ),
{
}

/// A transport made from its kind alone has nothing to serve: serving over it
/// fails with the error that names its kind's missing connection.
pub proof fn kind_alone_serves_nothing<T, I, S>(kind: JsTransportEnum)
    ensures
        connection_of(Some(empty_slot::<T, I, S>(kind))) == Err::<crate::transport::Connection<T, I, S>, BindingError>(
            match kind {
                JsTransportEnum::Tcp => BindingError::TcpStreamNotInitialized,
                JsTransportEnum::Stdio => BindingError::StdioNotInitialized,
                JsTransportEnum::Sse => BindingError::SseTransportNotInitialized,
            },
        ),
{
}

/// A transport read from a transport object has a slot of its own kind, and an
/// SSE transport read that way always holds its connection.
pub proof fn transport_object_fits_kind<T, I, S>(kind: JsTransportEnum, found: Option<Option<S>>)
    ensures
        transport_from_parts::<T, I, S>(kind, found) matches Ok(t) ==> {
            &&& t.kind == kind
            &&& t.inner is Some
            &&& slot_kind(t.inner->0) == kind
            &&& kind == JsTransportEnum::Sse ==> t.inner->0 matches JsTransportInner::Sse(Some(_))
        },
{
}

/// Experimental capabilities read from JSON always keep their order invariant.
pub proof fn experimental_from_json_keeps_order(t: JsonTree)
    ensures
        experimental_wf(experimental_read(t)),
{
}

/// Writing experimental capabilities as JSON keeps their order invariant.
pub proof fn experimental_to_json_keeps_order(ev: ExperimentalTree)
    requires
        experimental_wf(ev),
    ensures
        nested_sorted(experimental_tree(ev)),
{
    lemma_experimental_tree_wf(ev);
}

/// Converting client capabilities to the protocol's form keeps the order
/// invariants.
pub proof fn capabilities_to_core_keeps_order(c: JsClientCapabilitiesView)
    ensures
        js_capabilities_wf(c) ==> capabilities_wf(capabilities_to_core(c)),
{
}

/// Converting the protocol's client capabilities to the JavaScript form keeps
/// the order invariants.
pub proof fn capabilities_from_core_keeps_order(c: ClientCapabilitiesView)
    ensures
        capabilities_wf(c) ==> js_capabilities_wf(capabilities_from_core(c)),
{
}

/// A TCP or stdio transport object is read without looking at what it refers
/// to: it always gives a transport of its kind with an empty slot, whatever
/// SSE reference came with it.
pub proof fn non_sse_transport_object_ignores_reference<T, I, S>(
    kind: JsTransportEnum,
    found: Option<Option<S>>,
)
    ensures
        kind == JsTransportEnum::Tcp ==> transport_from_parts::<T, I, S>(kind, found) == Ok::<JsTransport<T, I, S>, BindingError>(
            JsTransport { kind: JsTransportEnum::Tcp, inner: Some(JsTransportInner::Tcp(None)) },
        ),
        kind == JsTransportEnum::Stdio ==> transport_from_parts::<T, I, S>(kind, found) == Ok::<JsTransport<T, I, S>, BindingError>(
            JsTransport { kind: JsTransportEnum::Stdio, inner: Some(JsTransportInner::Stdio(None)) },
        ),
        transport_from_parts::<T, I, S>(kind, found) is Ok <==> (kind != JsTransportEnum::Sse
            || found matches Some(Some(_))),
{
}

/// An SSE transport object holds exactly the connection it refers to.
pub proof fn sse_transport_object_holds_its_connection<T, I, S>(c: S)
    ensures
        transport_from_parts::<T, I, S>(JsTransportEnum::Sse, Some(Some(c))) == Ok::<JsTransport<T, I, S>, BindingError>(
            JsTransport { kind: JsTransportEnum::Sse, inner: Some(JsTransportInner::Sse(Some(c))) },
        ),
{
}

/// Serving takes exactly the connection the slot holds, as a connection of the
/// slot's kind.
pub proof fn serving_takes_the_held_connection<T, I, S>(inner: JsTransportInner<T, I, S>)
    ensures
        inner matches JsTransportInner::Tcp(Some(c)) ==> connection_of(Some(inner)) == Ok::<Connection<T, I, S>, BindingError>(Connection::Tcp(c)),
        inner matches JsTransportInner::Stdio(Some(c)) ==> connection_of(Some(inner)) == Ok::<Connection<T, I, S>, BindingError>(Connection::Stdio(c)),
        inner matches JsTransportInner::Sse(Some(c)) ==> connection_of(Some(inner)) == Ok::<Connection<T, I, S>, BindingError>(Connection::Sse(c)),
        connection_of(Some(inner)) matches Ok(c) ==> c.kind_of() == slot_kind(inner),
{
}

/// Sampling settings pass between the JavaScript form and the protocol's form
/// unchanged: an object keeps exactly its members, and the protocol's members
/// come back as that same object.
pub proof fn sampling_passes_unchanged(c: JsClientCapabilitiesView, core: ClientCapabilitiesView)
    ensures
        c.sampling matches Some(t) ==> (is_object(t) ==> capabilities_to_core(c).sampling == Some(t->Object_0)),
        c.sampling matches Some(t) ==> (!is_object(t) ==> capabilities_to_core(c).sampling is None),
        c.sampling is None ==> capabilities_to_core(c).sampling is None,
        core.sampling matches Some(o) ==> capabilities_from_core(core).sampling == Some(JsonTree::Object(o)),
        core.sampling is None ==> capabilities_from_core(core).sampling is None,
{
}

/// Experimental capabilities pass between the JavaScript form and the
/// protocol's form unchanged: to the protocol they go as they are, and back
/// they come as they are when they keep their invariant (absent ones, and ones
/// that break it, come back as none).
pub proof fn experimental_passes_unchanged(c: JsClientCapabilitiesView, core: ClientCapabilitiesView)
    ensures
        capabilities_to_core(c).experimental == Some(c.experimental),
        core.experimental matches Some(e) ==> (experimental_wf(e)
            ==> capabilities_from_core(core).experimental == e),
        core.experimental matches Some(e) ==> (!experimental_wf(e)
            ==> capabilities_from_core(core).experimental.len() == 0),
        core.experimental is None ==> capabilities_from_core(core).experimental.len() == 0,
{
}

/// Roots capabilities pass between the two forms unchanged: to the protocol
/// they always go, stating the same list-change flag, and back they come with
/// that flag, or with none when absent.
pub proof fn roots_pass_unchanged(c: JsClientCapabilitiesView, core: ClientCapabilitiesView)
    ensures
        capabilities_to_core(c).roots matches Some(r) && r.list_changed == c.roots,
        core.roots matches Some(r) ==> capabilities_from_core(core).roots == r.list_changed,
        core.roots is None ==> capabilities_from_core(core).roots is None,
{
}

/// Reading a JSON object of objects as experimental capabilities keeps every
/// name and every settings object as it is, in order.
pub proof fn experimental_reading_keeps_settings(t: JsonTree)
    requires
        is_object_of_objects(t),
    ensures
        experimental_from_tree(t) matches Some(ev) && ev.len() == t->Object_0.len(),
        forall|i: int|
            0 <= i < t->Object_0.len() ==> (#[trigger] experimental_from_tree(t)->0[i]).0
                == t->Object_0[i].0 && JsonTree::Object(experimental_from_tree(t)->0[i].1)
                == t->Object_0[i].1,
        nested_sorted(t) ==> forall|i: int|
            0 <= i < t->Object_0.len() ==> (#[trigger] experimental_read(t)[i]).0 == t->Object_0[i].0
                && JsonTree::Object(experimental_read(t)[i].1) == t->Object_0[i].1,
        nested_sorted(t) ==> experimental_read(t).len() == t->Object_0.len(),
{
    assert forall|i: int| 0 <= i < t->Object_0.len() implies JsonTree::Object(
        experimental_from_tree(t)->0[i].1,
    ) == t->Object_0[i].1 by {
        assert(is_object(t->Object_0[i].1));
    }
    if nested_sorted(t) {
        lemma_experimental_from_tree_wf(t);
    }
}

/// Writing experimental capabilities as JSON gives an object with the same names
/// in order, each with its settings object as it is.
pub proof fn experimental_writing_keeps_settings(ev: ExperimentalTree)
    ensures
        experimental_tree(ev) matches JsonTree::Object(es) && es.len() == ev.len(),
        forall|i: int|
            0 <= i < ev.len() ==> (#[trigger] experimental_tree(ev)->Object_0[i]) == (
                ev[i].0,
                JsonTree::Object(ev[i].1),
            ),
{
}

/// Experimental capabilities read from the protocol's form are those
/// capabilities exactly when they keep their invariant, and none otherwise.
pub proof fn experimental_from_protocol(ev: ExperimentalTree)
    ensures
        experimental_wf(ev) ==> crate::protocol::experimental_kept(ev) == ev,
        !experimental_wf(ev) ==> crate::protocol::experimental_kept(ev).len() == 0,
{
}

/// Serving over an empty slot fails with the error that names what that slot
/// lacks, and the empty slot of a kind is a slot of that kind.
pub proof fn empty_slots_name_what_is_missing<T, I, S>(kind: JsTransportEnum)
    ensures
        slot_kind(empty_slot::<T, I, S>(kind)) == kind,
        connection_of(Some(JsTransportInner::<T, I, S>::Tcp(None))) == Err::<Connection<T, I, S>, BindingError>(BindingError::TcpStreamNotInitialized),
        connection_of(Some(JsTransportInner::<T, I, S>::Stdio(None))) == Err::<Connection<T, I, S>, BindingError>(BindingError::StdioNotInitialized),
        connection_of(Some(JsTransportInner::<T, I, S>::Sse(None))) == Err::<Connection<T, I, S>, BindingError>(BindingError::SseTransportNotInitialized),
{
}

/// Exactly the three names `Tcp`, `Stdio` and `Sse` name a transport kind, each
/// its own.
pub proof fn kind_names_are_exact(name: Option<Seq<char>>)
    ensures
        kind_named(name) is Some <==> (name == Some("Tcp"@) || name == Some("Stdio"@) || name
            == Some("Sse"@)),
        kind_named(Some("Tcp"@)) == Some(JsTransportEnum::Tcp),
        kind_named(Some("Stdio"@)) == Some(JsTransportEnum::Stdio),
        kind_named(Some("Sse"@)) == Some(JsTransportEnum::Sse),
{
    reveal_strlit("Tcp");
    reveal_strlit("Stdio");
    reveal_strlit("Sse");
    assert("Tcp"@.len() != "Stdio"@.len());
    assert("Sse"@.len() != "Stdio"@.len());
    assert("Tcp"@[0] != "Sse"@[0]);
}

/// The message of an error that carries a message from elsewhere ends with that
/// message; for a parse or service error it is that message.
pub proof fn messages_carry_their_cause(kind: JsTransportEnum, m: String)
    ensures
        BindingError::InvalidProtocolVersion(m).message() == m@,
        BindingError::Service(m).message() == m@,
        ({
            let text = BindingError::ServeFailed(kind, m).message();
            text.len() >= m@.len() && text.subrange(text.len() - m@.len(), text.len() as int) == m@
        }),
{
    let text = BindingError::ServeFailed(kind, m).message();
    assert(text.subrange(text.len() - m@.len(), text.len() as int) =~= m@);
}

} // verus!
