//! The protocol's own data, as the MCP client library defines it.
//!
//! These types hold, as plain values, what the bindings read of the client
//! library's model (its implementation info, capabilities, initialize messages
//! and tool calls).  The bindings convert between them and the JavaScript-facing
//! types of `model`; the client library's own values are built from them where
//! a connection is made.
use vstd::prelude::*;
use crate::json::{check_names_sorted, clone_object, is_object, keys_sorted, names_sorted, members_sorted, object_view, JsonObject, JsonTree, JsonValue, ObjectTree};

verus! {

broadcast use vstd::std_specs::vec::group_vec_axioms;

/// Name and version of a client or server implementation.
#[derive(Debug, PartialEq, Eq)]
pub struct Implementation {
    pub name: String,
    pub version: String,
}

impl Implementation {
    /// A copy of this implementation info.
    pub fn copy(&self) -> (r: Implementation)
        ensures
            r == *self,
    {
        Implementation { name: self.name.clone(), version: self.version.clone() }
    }
}

/// Whether the client announces changes of its roots list.
#[derive(Debug, Clone, Copy, PartialEq, Eq, Structural)]
pub struct RootsCapabilities {
    pub list_changed: Option<bool>,
}

/// Experimental capabilities: each name with its settings object.
pub type ExperimentalCapabilities = Vec<(String, JsonObject)>;

/// Experimental capabilities in mathematical form.
pub type ExperimentalTree = Seq<(Seq<char>, ObjectTree)>;

/// The mathematical form of experimental capabilities.
pub open spec fn experimental_view(e: ExperimentalCapabilities) -> ExperimentalTree {
    Seq::new(e@.len(), |i: int| (e@[i].0@, object_view(e@[i].1)))
}

/// The JSON form of experimental capabilities: an object whose members are the
/// settings objects.
pub open spec fn experimental_tree(ev: ExperimentalTree) -> JsonTree {
    JsonTree::Object(Seq::new(ev.len(), |i: int| (ev[i].0, JsonTree::Object(ev[i].1))))
}

/// Whether a JSON value is an object each of whose members is an object.
pub open spec fn is_object_of_objects(t: JsonTree) -> bool {
    &&& t is Object
    &&& forall|i: int| 0 <= i < t->Object_0.len() ==> is_object(#[trigger] t->Object_0[i].1)
}

/// The experimental capabilities that a JSON value reads as: `Some` exactly
/// when it is an object of objects.
pub open spec fn experimental_from_tree(t: JsonTree) -> Option<ExperimentalTree> {
    if is_object_of_objects(t) {
        Some(Seq::new(t->Object_0.len(), |i: int| (t->Object_0[i].0, t->Object_0[i].1->Object_0)))
    } else {
        None
    }
}

/// The invariant of experimental capabilities, as a `BTreeMap` of serde_json
/// maps keeps it: names sorted, each once, and the members of every settings
/// object sorted by name, each once.
pub open spec fn experimental_wf(ev: ExperimentalTree) -> bool {
    &&& keys_sorted(ev)
    &&& forall|i: int| 0 <= i < ev.len() ==> #[trigger] keys_sorted(ev[i].1)
}

/// Whether a JSON value and, if it is an object, each of its members keep the
/// invariant of JSON objects: the two levels that experimental capabilities
/// consist of.
pub open spec fn nested_sorted(t: JsonTree) -> bool {
    &&& members_sorted(t)
    &&& t matches JsonTree::Object(es) ==> forall|i: int|
        0 <= i < es.len() ==> members_sorted(#[trigger] es[i].1)
}

/// Reading a JSON value as experimental capabilities keeps the invariant, where
/// the value's settings objects keep theirs.
pub proof fn lemma_experimental_from_tree_wf(t: JsonTree)
    requires
        is_object_of_objects(t),
        members_sorted(t),
        forall|i: int| 0 <= i < t->Object_0.len() ==> members_sorted(#[trigger] t->Object_0[i].1),
    ensures
        experimental_wf(experimental_from_tree(t)->0),
{
    let ev = experimental_from_tree(t)->0;
    let es = t->Object_0;
    assert forall|i: int, j: int| 0 <= i < j < ev.len() implies crate::json::key_less(ev[i].0, ev[j].0) by {
        assert(ev[i].0 == es[i].0 && ev[j].0 == es[j].0);
    }
    assert forall|i: int| 0 <= i < ev.len() implies #[trigger] keys_sorted(ev[i].1) by {
        assert(is_object(es[i].1));
        assert(members_sorted(es[i].1));
    }
}

/// Writing experimental capabilities as JSON keeps the invariant: the written
/// object and each of its settings objects have their members sorted.
pub proof fn lemma_experimental_tree_wf(ev: ExperimentalTree)
    requires
        experimental_wf(ev),
    ensures
        members_sorted(experimental_tree(ev)),
        forall|i: int|
            0 <= i < ev.len() ==> members_sorted(#[trigger] experimental_tree(ev)->Object_0[i].1),
{
    let es = experimental_tree(ev)->Object_0;
    assert forall|i: int, j: int| 0 <= i < j < es.len() implies crate::json::key_less(es[i].0, es[j].0) by {
        assert(ev[i].0 == es[i].0 && ev[j].0 == es[j].0);
    }
    assert forall|i: int| 0 <= i < ev.len() implies members_sorted(#[trigger] es[i].1) by {
        assert(keys_sorted(ev[i].1));
    }
}

/// Experimental capabilities as a `BTreeMap` of serde_json maps can hold them:
/// the capabilities themselves when they keep the invariant, and none otherwise.
pub open spec fn experimental_kept(ev: ExperimentalTree) -> ExperimentalTree {
    if experimental_wf(ev) {
        ev
    } else {
        Seq::empty()
    }
}

/// Checks that experimental capabilities keep their invariant.
pub fn check_experimental_sorted(e: &ExperimentalCapabilities) -> (r: bool)
    ensures
        r == experimental_wf(experimental_view(*e)),
{
    let ghost ev = experimental_view(*e);
    if !check_names_sorted(e) {
        proof {
            let (i, j) = choose|i: int, j: int|
                0 <= i < j < e@.len() && !crate::json::key_less(e@[i].0@, e@[j].0@);
            assert(ev[i].0 == e@[i].0@ && ev[j].0 == e@[j].0@);
        }
        return false;
    }
    assert forall|i: int, j: int| 0 <= i < j < ev.len() implies crate::json::key_less(ev[i].0, ev[j].0) by {
        assert(ev[i].0 == e@[i].0@ && ev[j].0 == e@[j].0@);
    }
    let n: usize = e.len();
    let mut i: usize = 0;
    while i < n
        invariant
            n == e@.len(),
            ev == experimental_view(*e),
            keys_sorted(ev),
            i <= n,
            forall|k: int| 0 <= k < i ==> #[trigger] keys_sorted(ev[k].1),
        decreases n - i,
    {
        let ok = check_names_sorted(&e[i].1);
        let ghost ov = ev[i as int].1;
        assert(ov == object_view(e@[i as int].1));
        if !ok {
            proof {
                let o = e@[i as int].1;
                let (p, q) = choose|p: int, q: int|
                    0 <= p < q < o@.len() && !crate::json::key_less(o@[p].0@, o@[q].0@);
                assert(ov[p].0 == o@[p].0@ && ov[q].0 == o@[q].0@);
                assert(!keys_sorted(ev[i as int].1));
            }
            return false;
        }
        assert forall|p: int, q: int| 0 <= p < q < ov.len() implies crate::json::key_less(ov[p].0, ov[q].0) by {
            let o = e@[i as int].1;
            assert(ov[p].0 == o@[p].0@ && ov[q].0 == o@[q].0@);
        }
        i = i + 1;
    }
    true
}

/// A copy of experimental capabilities.
pub fn clone_experimental(e: &ExperimentalCapabilities) -> (r: ExperimentalCapabilities)
    ensures
        experimental_view(r) == experimental_view(*e),
{
    let mut out: ExperimentalCapabilities = Vec::new();
    let mut i: usize = 0;
    while i < e.len()
        invariant
            i <= e@.len(),
            out@.len() == i,
            forall|j: int|
                0 <= j < i ==> (#[trigger] out@[j]).0@ == e@[j].0@ && object_view(out@[j].1)
                    == object_view(e@[j].1),
        decreases e@.len() - i,
    {
        let name = e[i].0.clone();
        let settings = clone_object(&e[i].1);
        out.push((name, settings));
        i = i + 1;
    }
    assert forall|j: int| 0 <= j < e@.len() implies #[trigger] experimental_view(out)[j]
        == experimental_view(*e)[j] by {
        assert(out@[j].0@ == e@[j].0@ && object_view(out@[j].1) == object_view(e@[j].1));
    }
    assert(experimental_view(out) =~= experimental_view(*e));
    out
}

/// Reads a JSON value as experimental capabilities: the value must be an object
/// whose members are all objects, else there are none.
pub fn experimental_from_value(v: JsonValue) -> (r: Option<ExperimentalCapabilities>)
    ensures
        r is Some <==> experimental_from_tree(v@) is Some,
        r matches Some(e) ==> Some(experimental_view(e)) == experimental_from_tree(v@),
        r matches Some(e) ==> (nested_sorted(v@) ==> experimental_wf(experimental_view(e))),
{
    proof {
        if nested_sorted(v@) && is_object_of_objects(v@) {
            lemma_experimental_from_tree_wf(v@);
        }
    }
    match v {
        JsonValue::Object(entries) => {
            let ghost orig = entries@;
            let ghost tree = v@->Object_0;
            assert(tree =~= object_view(entries));
            let mut rest = entries;
            let total: usize = rest.len();
            let mut out: ExperimentalCapabilities = Vec::new();
            let mut done: usize = 0;
            while done < total
                invariant
                    done + rest@.len() == orig.len(),
                    total == orig.len(),
                    tree == v@->Object_0,
                    tree.len() == orig.len(),
                    forall|j: int| 0 <= j < orig.len() ==> #[trigger] tree[j] == (orig[j].0@, orig[j].1@),
                    forall|j: int| 0 <= j < rest@.len() ==> #[trigger] rest@[j] == orig[done + j],
                    out@.len() == done,
                    forall|j: int|
                        0 <= j < done ==> is_object(#[trigger] tree[j].1) && out@[j].0@ == tree[j].0
                            && object_view(out@[j].1) == tree[j].1->Object_0,
                decreases total - done,
            {
                let (name, value) = rest.remove(0);
                assert(value@ == tree[done as int].1);
                match value {
                    JsonValue::Object(settings) => {
                        out.push((name, settings));
                        done = done + 1;
                        assert forall|j: int| 0 <= j < rest@.len() implies #[trigger] rest@[j]
                            == orig[done + j] by {
                            assert(rest@[j] == orig[done - 1 + j + 1]);
                        }
                    },
                    _ => {
                        assert(!is_object(tree[done as int].1));
                        assert(!is_object_of_objects(v@));
                        return None;
                    },
                }
            }
            assert(is_object_of_objects(v@));
            assert(experimental_view(out) =~= experimental_from_tree(v@)->0);
            Some(out)
        },
        _ => None,
    }
}

/// The JSON form of experimental capabilities.
pub fn experimental_to_value(e: ExperimentalCapabilities) -> (r: JsonValue)
    ensures
        r@ == experimental_tree(experimental_view(e)),
        experimental_wf(experimental_view(e)) ==> nested_sorted(r@),
{
    proof {
        if experimental_wf(experimental_view(e)) {
            lemma_experimental_tree_wf(experimental_view(e));
        }
    }
    let ghost ev = experimental_view(e);
    let ghost orig = e@;
    let mut rest = e;
    let total: usize = rest.len();
    let mut out: JsonObject = Vec::new();
    let mut done: usize = 0;
    while done < total
        invariant
            done + rest@.len() == orig.len(),
            total == orig.len(),
            ev.len() == orig.len(),
            forall|j: int| 0 <= j < orig.len() ==> #[trigger] ev[j] == (orig[j].0@, object_view(orig[j].1)),
            forall|j: int| 0 <= j < rest@.len() ==> #[trigger] rest@[j] == orig[done + j],
            out@.len() == done,
            forall|j: int|
                0 <= j < done ==> (#[trigger] out@[j]).0@ == ev[j].0 && out@[j].1@ == JsonTree::Object(
                    ev[j].1,
                ),
        decreases total - done,
    {
        let (name, settings) = rest.remove(0);
        let ghost sv = object_view(settings);
        let value = JsonValue::Object(settings);
        assert(value@->Object_0 =~= sv);
        out.push((name, value));
        done = done + 1;
        assert forall|j: int| 0 <= j < rest@.len() implies #[trigger] rest@[j] == orig[done + j] by {
            assert(rest@[j] == orig[done - 1 + j + 1]);
        }
    }
    let r = JsonValue::Object(out);
    assert forall|j: int| 0 <= j < ev.len() implies #[trigger] r@->Object_0[j]
        == experimental_tree(ev)->Object_0[j] by {
        assert((out@[j]).0@ == ev[j].0 && out@[j].1@ == JsonTree::Object(ev[j].1));
    }
    assert(r@->Object_0 =~= experimental_tree(ev)->Object_0);
    r
}

/// What a client announces it can do.
#[derive(Debug, PartialEq)]
pub struct ClientCapabilities {
    pub experimental: Option<ExperimentalCapabilities>,
    pub roots: Option<RootsCapabilities>,
    pub sampling: Option<JsonObject>,
}

/// Client capabilities in mathematical form.
pub struct ClientCapabilitiesView {
    pub experimental: Option<ExperimentalTree>,
    pub roots: Option<RootsCapabilities>,
    pub sampling: Option<ObjectTree>,
}

/// The invariant of client capabilities: experimental capabilities and sampling
/// settings, where present, keep their invariants.
pub open spec fn capabilities_wf(c: ClientCapabilitiesView) -> bool {
    &&& c.experimental matches Some(e) ==> experimental_wf(e)
    &&& c.sampling matches Some(o) ==> keys_sorted(o)
}

impl View for ClientCapabilities {
    type V = ClientCapabilitiesView;

    open spec fn view(&self) -> ClientCapabilitiesView {
        ClientCapabilitiesView {
            experimental: match self.experimental {
                Some(e) => Some(experimental_view(e)),
                None => None,
            },
            roots: self.roots,
            sampling: match self.sampling {
                Some(o) => Some(object_view(o)),
                None => None,
            },
        }
    }
}

impl ClientCapabilities {
    /// A copy of these capabilities.
    pub fn deep_clone(&self) -> (r: ClientCapabilities)
        ensures
            r@ == self@,
    {
        let experimental = match &self.experimental {
            Some(e) => Some(clone_experimental(e)),
            None => None,
        };
        let sampling = match &self.sampling {
            Some(o) => Some(clone_object(o)),
            None => None,
        };
        ClientCapabilities { experimental, roots: self.roots, sampling }
    }
}

/// What a client sends to open a session: the protocol version it speaks, its
/// capabilities and its implementation info.
#[derive(Debug, PartialEq)]
pub struct ClientInfo {
    /// The text of the protocol version.
    pub protocol_version: String,
    pub capabilities: ClientCapabilities,
    pub client_info: Implementation,
}

/// The parameters of an initialize request are the client's info.
pub type InitializeRequestParam = ClientInfo;

/// Client info in mathematical form.
pub struct ClientInfoView {
    pub protocol_version: Seq<char>,
    pub capabilities: ClientCapabilitiesView,
    pub client_info: Implementation,
}

impl View for ClientInfo {
    type V = ClientInfoView;

    open spec fn view(&self) -> ClientInfoView {
        ClientInfoView {
            protocol_version: self.protocol_version@,
            capabilities: self.capabilities@,
            client_info: self.client_info,
        }
    }
}

impl ClientInfo {
    /// A copy of this client info.
    pub fn deep_clone(&self) -> (r: ClientInfo)
        ensures
            r@ == self@,
    {
        ClientInfo {
            protocol_version: self.protocol_version.clone(),
            capabilities: self.capabilities.deep_clone(),
            client_info: self.client_info.copy(),
        }
    }
}

/// What a server answers to an initialize request, as far as the bindings read
/// it: the protocol version it speaks and its implementation info.
#[derive(Debug, PartialEq, Eq)]
pub struct InitializeResult {
    /// The text of the protocol version.
    pub protocol_version: String,
    pub server_info: Implementation,
}

/// The parameters of a tool call: the tool's name and its arguments object.
#[derive(Debug, PartialEq)]
pub struct CallToolRequestParam {
    pub name: String,
    pub arguments: Option<JsonObject>,
}

} // verus!
